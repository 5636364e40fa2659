//! The worker loop as a state machine.
//!
//! The loop alternates between deciding and waiting for something outside:
//! the next signal, the file picker, the watcher, the table loader. The
//! deciding is done here. A program runs the loop around it: it looks at the
//! [`Stage`] the engine is in, does the outside work that the stage asks
//! for, and hands the result back to [`Engine::step`] as a [`Report`].

use vstd::prelude::*;
use crate::response::{Response, WorkerError};
use crate::signal::Signal;
use crate::worker::{Worker, WorkerView};

verus! {

/// What the worker is doing, as the user interface sees it.
#[derive(Clone, Copy, Debug, PartialEq, Eq, Structural, Hash)]
pub enum WorkerState {
    /// The worker waits for a signal.
    Idle {
        /// Whether a file is loaded.
        with_file: bool,
    },
    /// The worker is processing a signal.
    Busy {
        /// Whether the work is the loading of a newly picked file.
        new_file: bool,
    },
    /// The worker has terminated.
    Dead {
        /// Whether it terminated because of a fatal error.
        by_error: bool,
    },
}

/// Where the worker loop stands, and with it the outside work that the loop
/// has to do next. `P` is the type of a path; the engine stores paths and
/// hands them back, and never looks inside one.
#[derive(Debug, PartialEq)]
pub enum Stage<P> {
    /// Idle. The loop waits until a signal is queued and reports
    /// [`Report::Ready`].
    Waiting {
        /// The current path, if a file is loaded.
        current: Option<P>,
    },
    /// A file dialog was requested. The loop shows the picker and reports
    /// [`Report::Cancelled`] or [`Report::Chosen`].
    Picking {
        /// The current path, if a file is loaded.
        current: Option<P>,
    },
    /// A file was picked. The loop stops watching `previous`, if there is
    /// one, starts watching `chosen`, and reports [`Report::Watched`].
    Targeting {
        /// The path that was current so far.
        previous: Option<P>,
        /// The path that was picked.
        chosen: P,
    },
    /// The picked file is watched. The loop loads it and reports
    /// [`Report::Loaded`].
    Opening {
        /// The path that was picked.
        chosen: P,
    },
    /// An update was requested. The loop checks whether `file` still is a
    /// file and reports [`Report::Probed`].
    Probing {
        /// The current path.
        file: P,
    },
    /// The current file is still there. The loop loads it again and reports
    /// [`Report::Loaded`].
    Reloading {
        /// The current path.
        file: P,
    },
    /// The worker has terminated. The loop ends.
    Halted {
        /// Whether it terminated because of a fatal error.
        by_error: bool,
    },
}

/// What the loop reports to the engine. `P` is the type of a path, `C` the
/// type of a curve.
#[derive(Debug, PartialEq)]
pub enum Report<P, C> {
    /// The signal queue may hold a signal.
    Ready,
    /// The file picker was dismissed.
    Cancelled,
    /// The file picker returned a path.
    Chosen {
        /// The path that was picked.
        path: P,
        /// Whether a file exists at the path.
        is_file: bool,
    },
    /// The watcher was pointed at the picked path; the flag says whether the
    /// path is now watched.
    Watched(bool),
    /// The current path was looked at; the flag says whether it still is a
    /// file.
    Probed(bool),
    /// The table loader returned.
    Loaded(Result<C, WorkerError>),
    /// The loop cannot go on: the signal queue is gone, or the watcher could
    /// not be set up.
    Fault,
}

/// The result of one step of the engine.
pub struct Outcome<P, C> {
    /// The stage after the step.
    pub stage: Stage<P>,
    /// The shared handle after the step.
    pub hub: WorkerView<C>,
    /// A path that is no longer of interest and should not be watched any
    /// more.
    pub unwatch: Option<P>,
}

impl<P> Stage<P> {
    /// The stage in which a worker starts.
    pub open spec fn initial() -> Self {
        Stage::Waiting { current: None }
    }

    /// The state that the user interface is shown.
    pub open spec fn state(self) -> WorkerState {
        match self {
            Stage::Waiting { current } => WorkerState::Idle { with_file: current is Some },
            Stage::Picking { .. } | Stage::Targeting { .. } | Stage::Opening { .. } => {
                WorkerState::Busy { new_file: true }
            },
            Stage::Probing { .. } | Stage::Reloading { .. } => WorkerState::Busy {
                new_file: false,
            },
            Stage::Halted { by_error } => WorkerState::Dead { by_error },
        }
    }

    /// The current path: the path of the last successful load, as long as it
    /// is watched.
    pub open spec fn path(self) -> Option<P> {
        match self {
            Stage::Waiting { current } => current,
            Stage::Picking { current } => current,
            Stage::Targeting { previous, .. } => previous,
            Stage::Opening { .. } => None,
            Stage::Probing { file } => Some(file),
            Stage::Reloading { file } => Some(file),
            Stage::Halted { .. } => None,
        }
    }

    /// The signal that is being processed, if any.
    pub open spec fn in_hand(self) -> Option<Signal> {
        match self {
            Stage::Picking { .. } | Stage::Targeting { .. } | Stage::Opening { .. } => Some(
                Signal::FileDialog,
            ),
            Stage::Probing { .. } | Stage::Reloading { .. } => Some(Signal::Update),
            Stage::Waiting { .. } | Stage::Halted { .. } => None,
        }
    }

    /// Whether the table loader is at work.
    pub open spec fn loading(self) -> bool {
        self is Opening || self is Reloading
    }

    /// The step that an idle worker makes when it looks into the signal
    /// queue.
    pub open spec fn accept<C>(current: Option<P>, hub: WorkerView<C>) -> Outcome<P, C> {
        let rest = hub.take();
        match hub.next() {
            None => Outcome { stage: Stage::Waiting { current }, hub, unwatch: None },
            Some(Signal::FileDialog) => Outcome {
                stage: Stage::Picking { current },
                hub: rest,
                unwatch: None,
            },
            Some(Signal::Update) => match current {
                Some(path) => Outcome {
                    stage: Stage::Probing { file: path },
                    hub: rest,
                    unwatch: None,
                },
                None => Outcome {
                    stage: Stage::Waiting { current: None },
                    hub: rest.reset(Signal::Update),
                    unwatch: None,
                },
            },
            Some(Signal::Unload) => Outcome {
                stage: Stage::Waiting { current: None },
                hub: rest.respond(Response::Unload).reset(Signal::Unload),
                unwatch: current,
            },
            Some(Signal::Stop) => Outcome {
                stage: Stage::Halted { by_error: false },
                hub: rest.with_alive(false),
                unwatch: None,
            },
        }
    }

    /// The step that the engine makes on `report`. A report that does not
    /// answer what the stage asks for changes nothing.
    pub open spec fn step<C>(self, hub: WorkerView<C>, report: Report<P, C>) -> Outcome<P, C> {
        match (self, report) {
            (Stage::Halted { .. }, _) => Outcome { stage: self, hub, unwatch: None },
            (_, Report::Fault) => Outcome {
                stage: Stage::Halted { by_error: true },
                hub: hub.with_alive(false),
                unwatch: None,
            },
            (Stage::Waiting { current }, Report::Ready) => Self::accept(current, hub),
            (Stage::Picking { current }, Report::Cancelled) => Outcome {
                stage: Stage::Waiting { current },
                hub: hub.reset(Signal::FileDialog),
                unwatch: None,
            },
            (Stage::Picking { current }, Report::Chosen { path, is_file }) => if is_file {
                Outcome {
                    stage: Stage::Targeting { previous: current, chosen: path },
                    hub,
                    unwatch: None,
                }
            } else {
                Outcome {
                    stage: Stage::Waiting { current },
                    hub: hub.respond(Response::Error(WorkerError::FileMissing)).reset(
                        Signal::FileDialog,
                    ),
                    unwatch: None,
                }
            },
            (Stage::Targeting { previous, chosen }, Report::Watched(watched)) => if watched {
                Outcome { stage: Stage::Opening { chosen }, hub, unwatch: None }
            } else {
                Outcome {
                    stage: Stage::Waiting { current: None },
                    hub: hub.respond(Response::Error(WorkerError::WatcherFailed)).reset(
                        Signal::FileDialog,
                    ),
                    unwatch: None,
                }
            },
            (Stage::Opening { chosen }, Report::Loaded(result)) => match result {
                Ok(curve) => Outcome {
                    stage: Stage::Waiting { current: Some(chosen) },
                    hub: hub.respond(Response::Output(curve)).reset(Signal::FileDialog),
                    unwatch: None,
                },
                Err(error) => Outcome {
                    stage: Stage::Waiting { current: None },
                    hub: hub.respond(Response::Error(error)).reset(Signal::FileDialog),
                    unwatch: Some(chosen),
                },
            },
            (Stage::Probing { file }, Report::Probed(present)) => if present {
                Outcome { stage: Stage::Reloading { file }, hub, unwatch: None }
            } else {
                Outcome {
                    stage: Stage::Waiting { current: None },
                    hub: hub.respond(Response::Unload).reset(Signal::Update),
                    unwatch: Some(file),
                }
            },
            (Stage::Reloading { file }, Report::Loaded(result)) => match result {
                Ok(curve) => Outcome {
                    stage: Stage::Waiting { current: Some(file) },
                    hub: hub.respond(Response::Output(curve)).reset(Signal::Update),
                    unwatch: None,
                },
                Err(error) => Outcome {
                    stage: Stage::Waiting { current: Some(file) },
                    hub: hub.respond(Response::Error(error)).reset(Signal::Update),
                    unwatch: None,
                },
            },
            _ => Outcome { stage: self, hub, unwatch: None },
        }
    }
}

/// The worker loop's own state: the stage it is in and the paths it holds.
pub struct Engine<P> {
    stage: Stage<P>,
}

impl<P> View for Engine<P> {
    type V = Stage<P>;

    closed spec fn view(&self) -> Stage<P> {
        self.stage
    }
}

impl<P> Engine<P> {
    /// Creates the engine of a worker that is idle and has no file.
    pub fn new() -> (engine: Self)
        ensures
            engine@ == Stage::<P>::initial(),
    {
        Engine { stage: Stage::Waiting { current: None } }
    }

    /// Returns the stage the loop is in, which says what the loop has to do
    /// next.
    pub fn stage(&self) -> (stage: &Stage<P>)
        ensures
            *stage == self@,
    {
        &self.stage
    }

    /// Returns the state that the user interface is shown.
    pub fn state(&self) -> (state: WorkerState)
        ensures
            state == self@.state(),
    {
        match &self.stage {
            Stage::Waiting { current } => WorkerState::Idle { with_file: current.is_some() },
            Stage::Picking { .. } | Stage::Targeting { .. } | Stage::Opening { .. } => {
                WorkerState::Busy { new_file: true }
            },
            Stage::Probing { .. } | Stage::Reloading { .. } => WorkerState::Busy {
                new_file: false,
            },
            Stage::Halted { by_error } => WorkerState::Dead { by_error: *by_error },
        }
    }

    /// Returns the current path, if a file is loaded.
    pub fn path(&self) -> (path: Option<&P>)
        ensures
            path == (match self@.path() {
                Some(p) => Some(&p),
                None => None,
            }),
    {
        match &self.stage {
            Stage::Waiting { current } => current.as_ref(),
            Stage::Picking { current } => current.as_ref(),
            Stage::Targeting { previous, .. } => previous.as_ref(),
            Stage::Opening { .. } => None,
            Stage::Probing { file } => Some(file),
            Stage::Reloading { file } => Some(file),
            Stage::Halted { .. } => None,
        }
    }

    /// Advances the worker by one report of the loop and returns the path, if any, that
    /// should not be watched any more.
    ///
    /// Responses are queued on `hub`, the lock of a signal is reset on it
    /// when the signal is done with, and its liveness flag is cleared when
    /// the worker terminates.
    pub fn step<C>(&mut self, hub: &mut Worker<C>, report: Report<P, C>) -> (unwatch: Option<P>)
        ensures
            final(self)@ == old(self)@.step(old(hub)@, report).stage,
            final(hub)@ == old(self)@.step(old(hub)@, report).hub,
            unwatch == old(self)@.step(old(hub)@, report).unwatch,
    {
        let mut stage = Stage::Halted { by_error: true };
        std::mem::swap(&mut stage, &mut self.stage);
        let (next, unwatch) = Self::advance(stage, hub, report);
        self.stage = next;
        unwatch
    }

    /// Looks into the signal queue for an idle worker whose current path is
    /// `current`.
    fn accept<C>(current: Option<P>, hub: &mut Worker<C>) -> (done: (Stage<P>, Option<P>))
        ensures
            done.0 == Stage::accept(current, old(hub)@).stage,
            final(hub)@ == Stage::accept(current, old(hub)@).hub,
            done.1 == Stage::accept(current, old(hub)@).unwatch,
    {
        match hub.next_signal() {
            None => (Stage::Waiting { current }, None),
            Some(Signal::FileDialog) => (Stage::Picking { current }, None),
            Some(Signal::Update) => match current {
                Some(path) => (Stage::Probing { file: path }, None),
                None => {
                    hub.reset_signal_lock(Signal::Update);
                    (Stage::Waiting { current: None }, None)
                },
            },
            Some(Signal::Unload) => {
                hub.send_response(Response::Unload);
                hub.reset_signal_lock(Signal::Unload);
                (Stage::Waiting { current: None }, current)
            },
            Some(Signal::Stop) => {
                hub.set_alive(false);
                (Stage::Halted { by_error: false }, None)
            },
        }
    }

    /// Queues `response` and reports that `signal` is done with.
    fn finish<C>(hub: &mut Worker<C>, signal: Signal, response: Response<C>)
        ensures
            final(hub)@ == old(hub)@.respond(response).reset(signal),
    {
        hub.send_response(response);
        hub.reset_signal_lock(signal);
    }

    /// Computes the step from `stage` on `report`.
    fn advance<C>(stage: Stage<P>, hub: &mut Worker<C>, report: Report<P, C>) -> (done: (
        Stage<P>,
        Option<P>,
    ))
        ensures
            done.0 == stage.step(old(hub)@, report).stage,
            final(hub)@ == stage.step(old(hub)@, report).hub,
            done.1 == stage.step(old(hub)@, report).unwatch,
    {
        match (stage, report) {
            (Stage::Halted { by_error }, _) => (Stage::Halted { by_error }, None),
            (_, Report::Fault) => {
                hub.set_alive(false);
                (Stage::Halted { by_error: true }, None)
            },
            (Stage::Waiting { current }, Report::Ready) => Self::accept(current, hub),
            (Stage::Picking { current }, Report::Cancelled) => {
                hub.reset_signal_lock(Signal::FileDialog);
                (Stage::Waiting { current }, None)
            },
            (Stage::Picking { current }, Report::Chosen { path, is_file }) => {
                if is_file {
                    (Stage::Targeting { previous: current, chosen: path }, None)
                } else {
                    Self::finish(
                        hub,
                        Signal::FileDialog,
                        Response::Error(WorkerError::FileMissing),
                    );
                    (Stage::Waiting { current }, None)
                }
            },
            (Stage::Targeting { previous, chosen }, Report::Watched(watched)) => {
                if watched {
                    (Stage::Opening { chosen }, None)
                } else {
                    Self::finish(
                        hub,
                        Signal::FileDialog,
                        Response::Error(WorkerError::WatcherFailed),
                    );
                    (Stage::Waiting { current: None }, None)
                }
            },
            (Stage::Opening { chosen }, Report::Loaded(result)) => match result {
                Ok(curve) => {
                    Self::finish(hub, Signal::FileDialog, Response::Output(curve));
                    (Stage::Waiting { current: Some(chosen) }, None)
                },
                Err(error) => {
                    Self::finish(hub, Signal::FileDialog, Response::Error(error));
                    (Stage::Waiting { current: None }, Some(chosen))
                },
            },
            (Stage::Probing { file }, Report::Probed(present)) => {
                if present {
                    (Stage::Reloading { file }, None)
                } else {
                    Self::finish(hub, Signal::Update, Response::Unload);
                    (Stage::Waiting { current: None }, Some(file))
                }
            },
            (Stage::Reloading { file }, Report::Loaded(result)) => match result {
                Ok(curve) => {
                    Self::finish(hub, Signal::Update, Response::Output(curve));
                    (Stage::Waiting { current: Some(file) }, None)
                },
                Err(error) => {
                    Self::finish(hub, Signal::Update, Response::Error(error));
                    (Stage::Waiting { current: Some(file) }, None)
                },
            },
            (stage, _) => (stage, None),
        }
    }
}

} // verus!
