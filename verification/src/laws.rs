//! Laws of the listener: properties that hold of the state machine and of
//! the cache synchronization for every input, proved once and for all.

use vstd::prelude::*;

use crate::cache::{
    datum_of, distinct_ids, has_id, lemma_upsert_distinct, lemma_upsert_other, lemma_upsert_same,
    upsert,
};
use crate::listener::{default_mute_of, source_added_step, source_changed_step, ListenerView};
use crate::listing::{describe_spec, reload_spec, FetchError, ListEventView};
use crate::report::{report_spec, ReportLine};
use crate::source::SourceView;

verus! {

/// A source-added event mutates nothing and prints nothing; only the
/// source-changed event that follows it populates the cache.
pub proof fn lemma_source_added_silent(v: ListenerView)
    ensures
        source_added_step(v) == v,
        report_spec(default_mute_of(v), default_mute_of(source_added_step(v))) == None::<
            ReportLine,
        >,
{
}

/// Applying the same source-changed event again — same fetched record, same
/// reported default-source name — leaves the state as it was and prints
/// nothing: only the first application can report a transition.
pub proof fn lemma_source_changed_idempotent(
    v: ListenerView,
    id: u32,
    d: SourceView,
    name: Option<Seq<char>>,
)
    requires
        distinct_ids(v.sources),
    ensures
        source_changed_step(source_changed_step(v, id, d, name), id, d, name)
            == source_changed_step(v, id, d, name),
        report_spec(
            default_mute_of(source_changed_step(v, id, d, name)),
            default_mute_of(source_changed_step(source_changed_step(v, id, d, name), id, d, name)),
        ) == None::<ReportLine>,
{
    let m = upsert(v.sources, id, d);
    lemma_upsert_distinct(v.sources, id, d);
    lemma_upsert_same(m, id, d);
}

/// A source-changed event for a source other than the resolved default
/// never prints: the default source's presence and mute flag are untouched.
pub proof fn lemma_non_default_isolation(
    v: ListenerView,
    id: u32,
    d: SourceView,
    name: Option<Seq<char>>,
)
    requires
        distinct_ids(v.sources),
        v.default_source_id matches Some(did) && did != id,
    ensures
        source_changed_step(v, id, d, name).default_source_id == v.default_source_id,
        default_mute_of(source_changed_step(v, id, d, name)) == default_mute_of(v),
        report_spec(default_mute_of(v), default_mute_of(source_changed_step(v, id, d, name)))
            == None::<ReportLine>,
{
    let did = v.default_source_id->0;
    lemma_upsert_other(v.sources, id, d, did);
}

/// The items a bulk list run delivers, as list deliveries.
pub open spec fn items_of(recs: Seq<(u32, SourceView)>) -> Seq<ListEventView> {
    recs.map_values(|r: (u32, SourceView)| ListEventView::Item(r.0, r.1))
}

/// The records among `recs` that carry `id`, in delivery order: what a
/// describe-one run for `id` delivers when the server state is unchanged.
pub open spec fn records_for(recs: Seq<(u32, SourceView)>, id: u32) -> Seq<(u32, SourceView)>
    decreases recs.len(),
{
    if recs.len() == 0 {
        Seq::empty()
    } else {
        let rest = records_for(recs.drop_first(), id);
        if recs[0].0 == id {
            seq![recs[0]] + rest
        } else {
            rest
        }
    }
}

/// The cache that upserting `recs` into `acc` in order builds.
pub open spec fn fold_upserts(recs: Seq<(u32, SourceView)>, acc: Seq<(u32, SourceView)>) -> Seq<
    (u32, SourceView),
>
    decreases recs.len(),
{
    if recs.len() == 0 {
        acc
    } else {
        fold_upserts(recs.drop_first(), upsert(acc, recs[0].0, recs[0].1))
    }
}

/// A complete bulk list run loads exactly the fold of its items.
proof fn lemma_reload_of_items(recs: Seq<(u32, SourceView)>, acc: Seq<(u32, SourceView)>)
    ensures
        reload_spec(items_of(recs).push(ListEventView::End), acc) == Ok::<
            Seq<(u32, SourceView)>,
            FetchError,
        >(fold_upserts(recs, acc)),
    decreases recs.len(),
{
    let evts = items_of(recs).push(ListEventView::End);
    if recs.len() == 0 {
        assert(evts[0] == ListEventView::End);
    } else {
        assert(evts[0] == ListEventView::Item(recs[0].0, recs[0].1));
        assert(evts.drop_first() =~= items_of(recs.drop_first()).push(ListEventView::End));
        lemma_reload_of_items(recs.drop_first(), upsert(acc, recs[0].0, recs[0].1));
    }
}

/// A complete describe-one run yields the last record delivered, if any.
proof fn lemma_describe_of_items(recs: Seq<(u32, SourceView)>, cur: Option<SourceView>)
    ensures
        describe_spec(items_of(recs).push(ListEventView::End), cur) == Ok::<
            Option<SourceView>,
            FetchError,
        >(
            if recs.len() > 0 {
                Some(recs.last().1)
            } else {
                cur
            },
        ),
    decreases recs.len(),
{
    let evts = items_of(recs).push(ListEventView::End);
    if recs.len() == 0 {
        assert(evts[0] == ListEventView::End);
    } else {
        assert(evts[0] == ListEventView::Item(recs[0].0, recs[0].1));
        assert(evts.drop_first() =~= items_of(recs.drop_first()).push(ListEventView::End));
        lemma_describe_of_items(recs.drop_first(), Some(recs[0].1));
        if recs.len() > 1 {
            assert(recs.drop_first().last() == recs.last());
        } else {
            assert(recs.last() == recs[0]);
        }
    }
}

/// The fold keeps, under each identifier, exactly the last record delivered
/// for it, and keeps the identifiers distinct.
proof fn lemma_fold_tracks(
    recs: Seq<(u32, SourceView)>,
    acc: Seq<(u32, SourceView)>,
    id: u32,
)
    requires
        distinct_ids(acc),
    ensures
        ({
            let c = fold_upserts(recs, acc);
            let sel = records_for(recs, id);
            &&& distinct_ids(c)
            &&& has_id(c, id) <==> (sel.len() > 0 || has_id(acc, id))
            &&& sel.len() > 0 ==> datum_of(c, id) == sel.last().1
            &&& (sel.len() == 0 && has_id(acc, id)) ==> datum_of(c, id) == datum_of(acc, id)
        }),
    decreases recs.len(),
{
    if recs.len() > 0 {
        let r0 = recs[0];
        let acc1 = upsert(acc, r0.0, r0.1);
        lemma_upsert_distinct(acc, r0.0, r0.1);
        lemma_fold_tracks(recs.drop_first(), acc1, id);
        let sel = records_for(recs, id);
        let tail_sel = records_for(recs.drop_first(), id);
        if r0.0 == id {
            if tail_sel.len() > 0 {
                assert(sel.last() == tail_sel.last());
            } else {
                assert(sel =~= seq![r0]);
                assert(sel.last() == r0);
            }
        } else {
            assert(sel == tail_sel);
            lemma_upsert_other(acc, r0.0, r0.1, id);
        }
    }
}

/// Consistency of the bulk load with the single fetch: while the server
/// state is unchanged, describing any identifier the bulk load cached yields
/// exactly the cached record, and describing an uncached identifier yields
/// none.
pub proof fn lemma_reload_refresh_consistent(recs: Seq<(u32, SourceView)>, id: u32)
    ensures
        ({
            let loaded = reload_spec(
                items_of(recs).push(ListEventView::End),
                Seq::<(u32, SourceView)>::empty(),
            );
            let fetched = describe_spec(
                items_of(records_for(recs, id)).push(ListEventView::End),
                None,
            );
            &&& loaded matches Ok(c)
            &&& has_id(c, id) ==> fetched == Ok::<Option<SourceView>, FetchError>(
                Some(datum_of(c, id)),
            )
            &&& !has_id(c, id) ==> fetched == Ok::<Option<SourceView>, FetchError>(None)
        }),
{
    let empty = Seq::<(u32, SourceView)>::empty();
    lemma_reload_of_items(recs, empty);
    lemma_fold_tracks(recs, empty, id);
    lemma_describe_of_items(records_for(recs, id), None);
}

} // verus!
