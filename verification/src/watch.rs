//! What the file watcher tells the worker.
//!
//! The watcher runs on a thread of its own. It touches neither the engine
//! nor the user interface: a change of the watched file becomes an update
//! signal, which goes through the same gate as every other signal, and an
//! error of the watcher becomes a response.

use vstd::prelude::*;
use crate::response::{Response, WorkerError};
use crate::signal::Signal;
use crate::worker::{Worker, WorkerView};

verus! {

#[verifier::external_type_specification]
#[verifier::external_body]
pub struct ExEvent(notify::Event);

#[verifier::external_type_specification]
#[verifier::external_body]
pub struct ExWatchError(notify::Error);

/// The general kind of a change that the watcher saw.
#[derive(Clone, Copy, Debug, PartialEq, Eq, Structural, Hash)]
pub enum Change {
    /// A change of unknown kind.
    Any,
    /// The file was opened, closed or executed.
    Access,
    /// The file was created.
    Create,
    /// The content, name or metadata of the file changed.
    Modify,
    /// The file was removed.
    Remove,
    /// A change of none of these kinds.
    Other,
}

/// What the watcher reports: a change that it saw, or that it failed.
#[derive(Clone, Copy, Debug, PartialEq, Eq, Structural, Hash)]
pub enum Notice {
    /// The watched file changed.
    Changed(Change),
    /// The watcher ran into an error.
    Failed,
}

/// The general kind of the change that an event of the watcher reports.
pub uninterp spec fn event_change(event: notify::Event) -> Change;

/// The general kind of a `notify::Event`, read off the variant of its field
/// `kind`, one kind for each variant of `notify::EventKind`.
///
/// The contract says only that the result is fixed by the event.
#[verifier::external_body]
fn change_of(event: &notify::Event) -> (change: Change)
    ensures
        change == event_change(*event),
{
    match event.kind {
        notify::EventKind::Any => Change::Any,
        notify::EventKind::Access(_) => Change::Access,
        notify::EventKind::Create(_) => Change::Create,
        notify::EventKind::Modify(_) => Change::Modify,
        notify::EventKind::Remove(_) => Change::Remove,
        notify::EventKind::Other => Change::Other,
    }
}

impl Change {
    /// The signal that a change stands for: an update when the file was
    /// modified or removed, and none otherwise.
    pub open spec fn signal(self) -> Option<Signal> {
        if self == Change::Modify || self == Change::Remove {
            Some(Signal::Update)
        } else {
            None
        }
    }

    /// Returns the signal that the change stands for, if any.
    pub fn to_signal(self) -> (signal: Option<Signal>)
        ensures
            signal == self.signal(),
    {
        match self {
            Change::Modify | Change::Remove => Some(Signal::Update),
            Change::Any | Change::Access | Change::Create | Change::Other => None,
        }
    }
}

impl<C> WorkerView<C> {
    /// The state after the watcher reported `notice`.
    pub open spec fn notice(self, notice: Notice) -> Self {
        match notice {
            Notice::Changed(change) => match change.signal() {
                Some(signal) => self.send(signal),
                None => self,
            },
            Notice::Failed => self.respond(Response::Error(WorkerError::WatcherFailed)),
        }
    }
}

/// Passes on what the watcher reported: a modification or removal is sent
/// as an update signal, any other change is ignored, and a failure is queued
/// as a response for the user interface.
pub fn relay<C>(hub: &mut Worker<C>, notice: Notice)
    ensures
        final(hub)@ == old(hub)@.notice(notice),
{
    match notice {
        Notice::Changed(change) => {
            if let Some(signal) = change.to_signal() {
                hub.send_signal(signal);
            }
        },
        Notice::Failed => {
            hub.send_response(Response::Error(WorkerError::WatcherFailed));
        },
    }
}

/// What the watcher handed to its callback, as a notice: the kind of change
/// of an event, or a failure.
pub open spec fn event_notice(event: Result<notify::Event, notify::Error>) -> Notice {
    match event {
        Ok(seen) => Notice::Changed(event_change(seen)),
        Err(_) => Notice::Failed,
    }
}

/// Passes on what the watcher handed to its callback: an event that reports
/// a modification or a removal is sent as an update signal, any other event
/// is ignored, and an error is queued as a response for the user interface.
pub fn on_event<C>(hub: &mut Worker<C>, event: Result<notify::Event, notify::Error>)
    ensures
        final(hub)@ == old(hub)@.notice(event_notice(event)),
{
    match event {
        Ok(event) => {
            let change = change_of(&event);
            relay(hub, Notice::Changed(change));
        },
        Err(_) => {
            relay(hub, Notice::Failed);
        },
    }
}

} // verus!
