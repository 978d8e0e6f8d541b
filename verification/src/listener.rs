//! The listener state machine: the consumer-side owner of the source cache
//! and of the resolved default-source identifier.
//!
//! One domain event is applied at a time, in delivery order. The caller
//! captures the default source's mute flag before applying an event and hands
//! both flags to the reporter afterwards, so that at most one line is printed
//! per event. Requests the transitions need (describing one source, listing
//! all sources, fetching the default-source name) are made by the caller
//! between these steps; their results come in as plain values.

use vstd::prelude::*;

use crate::cache::{
    datum_of, distinct_ids, has_id, opt_name_view, resolve_spec, upsert, without, Sources,
};
use crate::report::{report, report_spec, ReportLine};
use crate::source::{SourceDatum, SourceView};

verus! {

/// The mathematical value of the listener state: the cache entries and the
/// resolved default identifier.
pub ghost struct ListenerView {
    pub sources: Seq<(u32, SourceView)>,
    pub default_source_id: Option<u32>,
}

/// The listener state: the source cache and the identifier the server's
/// default-source name currently resolves to, if any.
pub struct ListenerState {
    pub sources: Sources,
    pub default_source_id: Option<u32>,
}

impl View for ListenerState {
    type V = ListenerView;

    open spec fn view(&self) -> ListenerView {
        ListenerView { sources: self.sources@, default_source_id: self.default_source_id }
    }
}

/// The mute flag of the default source: `None` when no default is resolved
/// or when the resolved identifier is (transiently) missing from the cache —
/// both count as "no default" for reporting, never as an error.
pub open spec fn default_mute_of(v: ListenerView) -> Option<bool> {
    match v.default_source_id {
        None => None,
        Some(id) => if has_id(v.sources, id) {
            Some(datum_of(v.sources, id).mute)
        } else {
            None
        },
    }
}

/// A source-added notification changes nothing: the matching source-changed
/// notification that follows it carries the fetch.
pub open spec fn source_added_step(v: ListenerView) -> ListenerView {
    v
}

/// A source-removed notification drops the cache entry, if present; the
/// default identifier is left alone.
pub open spec fn source_removed_step(v: ListenerView, id: u32) -> ListenerView {
    ListenerView { sources: without(v.sources, id), default_source_id: v.default_source_id }
}

/// A source-changed notification whose fetch returned a record: the record
/// is upserted, and when no default was resolved the default-source `name`
/// is resolved again against the updated cache.
pub open spec fn source_changed_step(
    v: ListenerView,
    id: u32,
    d: SourceView,
    name: Option<Seq<char>>,
) -> ListenerView {
    let updated = upsert(v.sources, id, d);
    ListenerView {
        sources: updated,
        default_source_id: match v.default_source_id {
            None => resolve_spec(updated, name),
            Some(did) => Some(did),
        },
    }
}

/// A server-changed notification: the default is resolved again against the
/// cache as it stands, then every record is replaced by a full reload.
pub open spec fn server_changed_step(
    v: ListenerView,
    name: Option<Seq<char>>,
    reloaded: Seq<(u32, SourceView)>,
) -> ListenerView {
    ListenerView { sources: reloaded, default_source_id: resolve_spec(v.sources, name) }
}

impl ListenerState {
    /// The initial state: a freshly loaded cache and the default the
    /// server's reported name resolves to in it.
    pub fn new(sources: Sources, default_name: Option<String>) -> (r: ListenerState)
        requires
            distinct_ids(sources@),
        ensures
            r@.sources == sources@,
            r@.default_source_id == resolve_spec(sources@, opt_name_view(default_name)),
            distinct_ids(r@.sources),
    {
        let default_source_id = sources.resolve(&default_name);
        ListenerState { sources, default_source_id }
    }

    /// The default source's cached record, when a default is resolved and
    /// still cached.
    pub fn default_source<'a>(&'a self) -> (r: Option<&'a SourceDatum>)
        requires
            distinct_ids(self@.sources),
        ensures
            match r {
                Some(d) => {
                    &&& self@.default_source_id matches Some(id)
                    &&& has_id(self@.sources, id)
                    &&& d@ == datum_of(self@.sources, id)
                },
                None => default_mute_of(self@) is None,
            },
    {
        if let Some(src_id) = self.default_source_id {
            return self.sources.get(src_id);
        }
        None
    }

    /// The default source's mute flag, as the reporter sees it.
    pub fn default_mute(&self) -> (r: Option<bool>)
        requires
            distinct_ids(self@.sources),
        ensures
            r == default_mute_of(self@),
    {
        match self.default_source() {
            Some(src) => Some(src.mute),
            None => None,
        }
    }

    /// Apply a source-added event: deliberately nothing.
    pub fn apply_source_added(&mut self, _id: u32)
        ensures
            final(self)@ == source_added_step(old(self)@),
    {
    }

    /// Apply a source-removed event, returning the dropped record when the
    /// identifier was cached (its absence is no error).
    pub fn apply_source_removed(&mut self, id: u32) -> (removed: Option<SourceDatum>)
        requires
            distinct_ids(old(self)@.sources),
        ensures
            final(self)@ == source_removed_step(old(self)@, id),
            distinct_ids(final(self)@.sources),
            match removed {
                Some(d) => has_id(old(self)@.sources, id) && d@ == datum_of(
                    old(self)@.sources,
                    id,
                ),
                None => !has_id(old(self)@.sources, id),
            },
    {
        self.sources.remove(id)
    }

    /// Apply a source-changed event whose fetch returned `datum`: upsert it.
    /// The result says whether the caller must still fetch the default-source
    /// name and call [`Self::apply_resolve`], namely when no default was
    /// resolved before this event.
    pub fn apply_source_changed(&mut self, id: u32, datum: SourceDatum) -> (need_resolve: bool)
        requires
            distinct_ids(old(self)@.sources),
        ensures
            final(self)@.sources == upsert(old(self)@.sources, id, datum@),
            final(self)@.default_source_id == old(self)@.default_source_id,
            distinct_ids(final(self)@.sources),
            need_resolve == (old(self)@.default_source_id is None),
    {
        self.sources.insert(id, datum);
        self.default_source_id.is_none()
    }

    /// Resolve the default source again from a freshly fetched name, against
    /// the cache as it stands.
    pub fn apply_resolve(&mut self, default_name: &Option<String>)
        requires
            distinct_ids(old(self)@.sources),
        ensures
            final(self)@.sources == old(self)@.sources,
            final(self)@.default_source_id == resolve_spec(
                old(self)@.sources,
                opt_name_view(*default_name),
            ),
            distinct_ids(final(self)@.sources),
    {
        self.default_source_id = self.sources.resolve(default_name);
    }

    /// Apply a server-changed event from a freshly fetched default-source
    /// name and a full reload of the cache.
    pub fn apply_server_changed(&mut self, default_name: &Option<String>, reloaded: Sources)
        requires
            distinct_ids(old(self)@.sources),
            distinct_ids(reloaded@),
        ensures
            final(self)@ == server_changed_step(
                old(self)@,
                opt_name_view(*default_name),
                reloaded@,
            ),
            distinct_ids(final(self)@.sources),
    {
        self.default_source_id = self.sources.resolve(default_name);
        self.sources = reloaded;
    }
}

/// Decide the line to print after an event, comparing the default source's
/// mute flag before the event with the one in the state as it now stands.
pub fn report_mute_change(state: &ListenerState, old_default_mute: Option<bool>) -> (r: Option<
    ReportLine,
>)
    requires
        distinct_ids(state@.sources),
    ensures
        r == report_spec(old_default_mute, default_mute_of(state@)),
{
    let new_mute = state.default_mute();
    report(old_default_mute, new_mute)
}

} // verus!
