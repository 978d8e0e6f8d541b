//! Translation of raw subscription notifications into domain events.
//!
//! The sound server reports each change as a `(facility, operation, id)`
//! triple. The translator runs on the notification thread and must do nothing
//! but classify the triple; everything else happens on the consumer side.

use vstd::prelude::*;

verus! {

/// The kind of entity a raw notification is about, as far as the watcher
/// cares: an audio input source, the server's own configuration, or anything
/// else.
#[derive(Clone, Copy, Debug, PartialEq, Eq, Structural)]
pub enum Facility {
    Source,
    Server,
    Other,
}

/// The kind of change a raw notification reports.
#[derive(Clone, Copy, Debug, PartialEq, Eq, Structural)]
pub enum Operation {
    New,
    Changed,
    Removed,
}

/// One event consumed by the listener state machine, in delivery order.
#[derive(Clone, Copy, Debug, PartialEq, Eq, Structural)]
pub enum DomainEvent {
    SourceChanged(u32),
    SourceAdded(u32),
    SourceRemoved(u32),
    ServerChanged,
    ShutdownRequested,
}

/// The translation table: source changes keep their identifier, any server
/// notification collapses to `ServerChanged`, anything else is dropped.
pub open spec fn translate_spec(facility: Facility, operation: Operation, id: u32) -> Option<
    DomainEvent,
> {
    match facility {
        Facility::Source => match operation {
            Operation::Changed => Some(DomainEvent::SourceChanged(id)),
            Operation::New => Some(DomainEvent::SourceAdded(id)),
            Operation::Removed => Some(DomainEvent::SourceRemoved(id)),
        },
        Facility::Server => Some(DomainEvent::ServerChanged),
        Facility::Other => None,
    }
}

/// Turn one raw `(facility, operation, id)` triple into the domain event to
/// enqueue, if any.
pub fn translate(facility: Facility, operation: Operation, id: u32) -> (r: Option<DomainEvent>)
    ensures
        r == translate_spec(facility, operation, id),
{
    match facility {
        Facility::Source => match operation {
            Operation::Changed => Some(DomainEvent::SourceChanged(id)),
            Operation::New => Some(DomainEvent::SourceAdded(id)),
            Operation::Removed => Some(DomainEvent::SourceRemoved(id)),
        },
        Facility::Server => Some(DomainEvent::ServerChanged),
        Facility::Other => None,
    }
}

} // verus!
