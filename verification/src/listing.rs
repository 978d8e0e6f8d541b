//! Cache synchronization from the sound server's list deliveries.
//!
//! A bulk "list all sources" request and a "describe one source" request both
//! answer with a run of deliveries: any number of items followed by exactly
//! one terminal delivery, either a normal end-of-list or an error. The caller
//! collects the deliveries for one request in order and hands them here;
//! `reload_all` folds them into a fresh cache, `refresh_one` keeps the last
//! described record. A mid-list error aborts and discards everything.

use vstd::prelude::*;

use crate::cache::{distinct_ids, upsert, Sources};
use crate::source::{SourceDatum, SourceView};

verus! {

/// One delivery of a list or describe request.
#[derive(Debug)]
pub enum ListEvent {
    Item(u32, SourceDatum),
    End,
    Error,
}

/// The mathematical value of one delivery.
pub ghost enum ListEventView {
    Item(u32, SourceView),
    End,
    Error,
}

impl View for ListEvent {
    type V = ListEventView;

    open spec fn view(&self) -> ListEventView {
        match self {
            ListEvent::Item(id, d) => ListEventView::Item(*id, d@),
            ListEvent::End => ListEventView::End,
            ListEvent::Error => ListEventView::Error,
        }
    }
}

/// Why a fetch from the sound server failed.
#[derive(Clone, Copy, Debug, PartialEq, Eq, Structural)]
pub enum FetchError {
    ListFailed,
}

/// The views of a collected run of deliveries.
pub open spec fn events_view(events: Seq<ListEvent>) -> Seq<ListEventView> {
    events.map_values(|e: ListEvent| e@)
}

/// What a bulk list request yields: the items folded into `acc` in delivery
/// order up to the first terminal delivery; an error (or a run cut short
/// before any terminal delivery) discards everything.
pub open spec fn reload_spec(evts: Seq<ListEventView>, acc: Seq<(u32, SourceView)>) -> Result<
    Seq<(u32, SourceView)>,
    FetchError,
>
    decreases evts.len(),
{
    if evts.len() == 0 {
        Err(FetchError::ListFailed)
    } else {
        match evts[0] {
            ListEventView::Item(id, d) => reload_spec(evts.drop_first(), upsert(acc, id, d)),
            ListEventView::End => Ok(acc),
            ListEventView::Error => Err(FetchError::ListFailed),
        }
    }
}

/// The cache a collected bulk list run loads, starting from an empty cache.
pub open spec fn reload_outcome(events: Seq<ListEvent>) -> Result<
    Seq<(u32, SourceView)>,
    FetchError,
> {
    reload_spec(events_view(events), Seq::<(u32, SourceView)>::empty())
}

/// What a describe-one request yields: the last item delivered before the
/// end, `None` when the end came with no item (the source no longer exists).
pub open spec fn describe_spec(evts: Seq<ListEventView>, found: Option<SourceView>) -> Result<
    Option<SourceView>,
    FetchError,
>
    decreases evts.len(),
{
    if evts.len() == 0 {
        Err(FetchError::ListFailed)
    } else {
        match evts[0] {
            ListEventView::Item(id, d) => describe_spec(evts.drop_first(), Some(d)),
            ListEventView::End => Ok(found),
            ListEventView::Error => Err(FetchError::ListFailed),
        }
    }
}

/// The record a collected describe-one run yields.
pub open spec fn describe_outcome(events: Seq<ListEvent>) -> Result<
    Option<SourceView>,
    FetchError,
> {
    describe_spec(events_view(events), None)
}

/// Fold a bulk list run into a fresh cache.
///
/// The run must be complete: the items in delivery order, then the terminal
/// delivery. A later item for an identifier replaces an earlier one.
pub fn reload_all(events: &Vec<ListEvent>) -> (r: Result<Sources, FetchError>)
    ensures
        match r {
            Ok(c) => reload_outcome(events@) == Ok::<Seq<(u32, SourceView)>, FetchError>(c@)
                && distinct_ids(c@),
            Err(e) => reload_outcome(events@) == Err::<Seq<(u32, SourceView)>, FetchError>(e),
        },
{
    let ghost ev = events_view(events@);
    let mut acc = Sources::new();
    proof {
        assert(ev.skip(0) =~= ev);
    }
    let n = events.len();
    let mut i: usize = 0;
    while i < n
        invariant
            0 <= i <= n,
            n == events@.len(),
            ev == events_view(events@),
            ev.len() == events@.len(),
            distinct_ids(acc@),
            reload_spec(ev, Seq::<(u32, SourceView)>::empty()) == reload_spec(
                ev.skip(i as int),
                acc@,
            ),
        decreases n - i,
    {
        proof {
            assert(ev[i as int] == events@[i as int]@);
            assert(ev.skip(i as int)[0] == ev[i as int]);
            assert(ev.skip(i as int).drop_first() =~= ev.skip(i as int + 1));
        }
        match &events[i] {
            ListEvent::Item(id, d) => {
                acc.insert(*id, d.clone());
            }
            ListEvent::End => {
                return Ok(acc);
            }
            ListEvent::Error => {
                return Err(FetchError::ListFailed);
            }
        }
        i = i + 1;
    }
    Err(FetchError::ListFailed)
}

/// Keep the record a describe-one run delivers.
///
/// The run must be complete, as for `reload_all`. An end with no item means
/// the source has vanished, which is an answer, not an error.
pub fn refresh_one(events: &Vec<ListEvent>) -> (r: Result<Option<SourceDatum>, FetchError>)
    ensures
        match r {
            Ok(Some(d)) => describe_outcome(events@) == Ok::<Option<SourceView>, FetchError>(
                Some(d@),
            ),
            Ok(None) => describe_outcome(events@) == Ok::<Option<SourceView>, FetchError>(None),
            Err(e) => describe_outcome(events@) == Err::<Option<SourceView>, FetchError>(e),
        },
{
    let ghost ev = events_view(events@);
    let mut found: Option<SourceDatum> = None;
    proof {
        assert(ev.skip(0) =~= ev);
    }
    let n = events.len();
    let mut i: usize = 0;
    while i < n
        invariant
            0 <= i <= n,
            n == events@.len(),
            ev == events_view(events@),
            ev.len() == events@.len(),
            describe_spec(ev, None) == describe_spec(
                ev.skip(i as int),
                match found {
                    None => None,
                    Some(d) => Some(d@),
                },
            ),
        decreases n - i,
    {
        proof {
            assert(ev[i as int] == events@[i as int]@);
            assert(ev.skip(i as int)[0] == ev[i as int]);
            assert(ev.skip(i as int).drop_first() =~= ev.skip(i as int + 1));
        }
        match &events[i] {
            ListEvent::Item(_, d) => {
                found = Some(d.clone());
            }
            ListEvent::End => {
                return Ok(found);
            }
            ListEvent::Error => {
                return Err(FetchError::ListFailed);
            }
        }
        i = i + 1;
    }
    Err(FetchError::ListFailed)
}

} // verus!
