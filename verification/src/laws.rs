//! What holds of a worker as a whole: of the shared handle and the engine
//! together, over everything that can happen to them.
//!
//! A worker is used as follows: anybody may send signals and queue
//! responses, the user interface takes responses, and the engine alone takes
//! signals and resets the lock. [`Action`] lists these moves, and the
//! theorems below speak of every series of them.

use vstd::prelude::*;
use crate::engine::{Report, Stage};
use crate::response::Response;
use crate::signal::Signal;
use crate::worker::WorkerView;

verus! {

/// A worker as a whole: the stage of its loop and its shared handle.
pub struct System<P, C> {
    /// The stage of the worker loop.
    pub stage: Stage<P>,
    /// The shared handle.
    pub hub: WorkerView<C>,
}

/// One thing that can happen to a worker.
pub enum Action<P, C> {
    /// Somebody sends a signal.
    Send(Signal),
    /// The worker loop reports to the engine.
    Step(Report<P, C>),
    /// The file watcher queues a response of its own.
    Respond(Response<C>),
    /// The user interface takes the oldest response.
    Drain,
}

impl<P, C> System<P, C> {
    /// A fresh worker.
    pub open spec fn initial() -> Self {
        System { stage: Stage::initial(), hub: WorkerView::initial() }
    }

    /// The worker after `action`.
    pub open spec fn apply(self, action: Action<P, C>) -> Self {
        match action {
            Action::Send(signal) => System { hub: self.hub.send(signal), ..self },
            Action::Step(report) => {
                let out = self.stage.step(self.hub, report);
                System { stage: out.stage, hub: out.hub }
            },
            Action::Respond(response) => System { hub: self.hub.respond(response), ..self },
            Action::Drain => if self.hub.responses.len() > 0 {
                System {
                    hub: WorkerView { responses: self.hub.responses.drop_first(), ..self.hub },
                    ..self
                }
            } else {
                self
            },
        }
    }

    /// The worker after each of `actions`, in order.
    pub open spec fn run(self, actions: Seq<Action<P, C>>) -> Self
        decreases actions.len(),
    {
        if actions.len() == 0 {
            self
        } else {
            self.run(actions.drop_last()).apply(actions.last())
        }
    }

    /// Whether a file dialog was accepted and is not done with: it waits in
    /// the queue, or the loop is processing it.
    pub open spec fn dialog_pending(self) -> bool {
        self.hub.queue.contains(Signal::FileDialog) || self.stage.in_hand() == Some(
            Signal::FileDialog,
        )
    }

    /// Whether, in the course of `actions`, a file dialog is sent only while
    /// no other file dialog is pending.
    pub open spec fn one_dialog_at_a_time(self, actions: Seq<Action<P, C>>) -> bool
        decreases actions.len(),
    {
        if actions.len() == 0 {
            true
        } else {
            &&& self.one_dialog_at_a_time(actions.drop_last())
            &&& actions.last() matches Action::Send(Signal::FileDialog) ==> !self.run(
                actions.drop_last(),
            ).dialog_pending()
        }
    }

    /// How the handle and the loop fit together as long as file dialogs do
    /// not overlap: while a file dialog is pending a lock is recorded, and
    /// at most one file dialog is pending.
    pub open spec fn coherent(self) -> bool {
        &&& self.hub.wf()
        &&& self.dialog_pending() ==> self.hub.lock is Some
        &&& self.stage.in_hand() == Some(Signal::FileDialog) ==> !self.hub.queue.contains(
            Signal::FileDialog,
        )
        &&& forall|i: int, j: int|
            0 <= i < self.hub.queue.len() && 0 <= j < self.hub.queue.len()
                && #[trigger] self.hub.queue[i] == Signal::FileDialog
                && #[trigger] self.hub.queue[j] == Signal::FileDialog ==> i == j
    }

    /// How the handle and the loop fit together in any case: a file dialog
    /// is recorded as the lock only while a file dialog is pending, or in a
    /// worker that has terminated.
    pub open spec fn anchored(self) -> bool {
        &&& self.hub.wf()
        &&& self.hub.lock == Some(Signal::FileDialog) ==> self.dialog_pending()
            || self.stage is Halted
    }

    /// A signal that stays in the queue is found in it again.
    proof fn lemma_pushed(queue: Seq<Signal>, signal: Signal, sought: Signal)
        ensures
            queue.push(signal).contains(sought) <==> queue.contains(sought) || signal == sought,
    {
        let longer = queue.push(signal);
        if longer.contains(sought) {
            let k = choose|k: int| 0 <= k < longer.len() && longer[k] == sought;
            if k < queue.len() {
                assert(queue[k] == sought);
            }
        }
        if queue.contains(sought) {
            let k = choose|k: int| 0 <= k < queue.len() && queue[k] == sought;
            assert(longer[k] == sought);
        }
        if signal == sought {
            assert(longer[queue.len() as int] == sought);
        }
    }

    /// A signal is in a queue if it is the first or in the rest.
    proof fn lemma_dropped(queue: Seq<Signal>, sought: Signal)
        requires
            queue.len() > 0,
        ensures
            queue.contains(sought) <==> queue[0] == sought || queue.drop_first().contains(sought),
    {
        let rest = queue.drop_first();
        if rest.contains(sought) {
            let k = choose|k: int| 0 <= k < rest.len() && rest[k] == sought;
            assert(queue[k + 1] == sought);
        }
        if queue.contains(sought) {
            let k = choose|k: int| 0 <= k < queue.len() && queue[k] == sought;
            if k > 0 {
                assert(rest[k - 1] == sought);
            }
        }
    }

    /// Whatever happens to a coherent worker leaves it coherent, unless a
    /// file dialog is sent while another is pending.
    pub proof fn lemma_apply_coherent(self, action: Action<P, C>)
        requires
            self.coherent(),
            action matches Action::Send(Signal::FileDialog) ==> !self.dialog_pending(),
        ensures
            self.apply(action).coherent(),
    {
        let q = self.hub.queue;
        match action {
            Action::Send(signal) => {
                if !self.hub.skips(signal) {
                    Self::lemma_pushed(q, signal, Signal::FileDialog);
                }
            },
            Action::Step(report) => {
                match (self.stage, report) {
                    (Stage::Waiting { current }, Report::Ready) => {
                        if q.len() > 0 {
                            let rest = self.hub.take().queue;
                            if self.hub.lock != Some(Signal::Stop) {
                                Self::lemma_dropped(q, Signal::FileDialog);
                                if rest.contains(Signal::FileDialog) {
                                    let k = choose|k: int|
                                        0 <= k < rest.len() && rest[k] == Signal::FileDialog;
                                    assert(q[k + 1] == Signal::FileDialog);
                                }
                            }
                        }
                    },
                    _ => {},
                }
            },
            Action::Respond(response) => {},
            Action::Drain => {},
        }
    }

    /// Every worker that came about without overlapping file dialogs is
    /// coherent.
    pub proof fn lemma_run_coherent(actions: Seq<Action<P, C>>)
        requires
            Self::initial().one_dialog_at_a_time(actions),
        ensures
            Self::initial().run(actions).coherent(),
        decreases actions.len(),
    {
        if actions.len() > 0 {
            Self::lemma_run_coherent(actions.drop_last());
            Self::initial().run(actions.drop_last()).lemma_apply_coherent(actions.last());
        }
    }

    /// Whatever happens to an anchored worker leaves it anchored.
    pub proof fn lemma_apply_anchored(self, action: Action<P, C>)
        requires
            self.anchored(),
        ensures
            self.apply(action).anchored(),
    {
        let q = self.hub.queue;
        match action {
            Action::Send(signal) => {
                Self::lemma_pushed(q, signal, Signal::FileDialog);
            },
            Action::Step(report) => {
                match (self.stage, report) {
                    (Stage::Waiting { current }, Report::Ready) => {
                        if q.len() > 0 {
                            Self::lemma_dropped(q, Signal::FileDialog);
                        }
                    },
                    _ => {},
                }
            },
            Action::Respond(response) => {},
            Action::Drain => {},
        }
    }

    /// Every worker that can come about is anchored.
    pub proof fn lemma_run_anchored(actions: Seq<Action<P, C>>)
        ensures
            Self::initial().run(actions).anchored(),
        decreases actions.len(),
    {
        if actions.len() > 0 {
            Self::lemma_run_anchored(actions.drop_last());
            Self::initial().run(actions.drop_last()).lemma_apply_anchored(actions.last());
        }
    }

    /// While a file dialog is recorded as the lock, an update that is sent
    /// is dropped and never queued.
    pub proof fn law_update_dropped_under_file_dialog_lock(self)
        requires
            self.hub.lock == Some(Signal::FileDialog),
        ensures
            self.apply(Action::Send(Signal::Update)) == self,
    {
    }

    /// Whatever has happened to a worker, as long as no file dialog was sent
    /// while another was pending: while a file dialog is accepted and not
    /// done with, an update that is sent is dropped and never queued.
    ///
    /// Overlapping file dialogs are left out because the lock is reset when
    /// the first of them is done with, while the second still waits.
    pub proof fn law_update_dropped_while_dialog_pending(actions: Seq<Action<P, C>>)
        requires
            Self::initial().one_dialog_at_a_time(actions),
            Self::initial().run(actions).dialog_pending(),
        ensures
            Self::initial().run(actions).apply(Action::Send(Signal::Update))
                == Self::initial().run(actions),
    {
        Self::lemma_run_coherent(actions);
    }

    /// Whatever has happened to a worker that is still running: a file
    /// dialog is the recorded lock only while a file dialog is pending, so
    /// that updates are accepted again once every file dialog is done with.
    pub proof fn law_file_dialog_lock_is_released(actions: Seq<Action<P, C>>)
        requires
            !Self::initial().run(actions).dialog_pending(),
            !(Self::initial().run(actions).stage is Halted),
        ensures
            Self::initial().run(actions).hub.lock != Some(Signal::FileDialog),
    {
        Self::lemma_run_anchored(actions);
    }

    /// Once a stop is recorded it stays recorded, whatever happens.
    pub proof fn lemma_stop_stays(self, actions: Seq<Action<P, C>>)
        requires
            self.hub.lock == Some(Signal::Stop),
        ensures
            self.run(actions).hub.lock == Some(Signal::Stop),
        decreases actions.len(),
    {
        if actions.len() > 0 {
            self.lemma_stop_stays(actions.drop_last());
        }
    }

    /// Once a stop was sent, whatever happens afterwards, sending a signal of
    /// any kind changes nothing.
    pub proof fn law_stop_absorbs(self, actions: Seq<Action<P, C>>, signal: Signal)
        ensures
            self.apply(Action::Send(Signal::Stop)).run(actions).apply(Action::Send(signal))
                == self.apply(Action::Send(Signal::Stop)).run(actions),
    {
        self.apply(Action::Send(Signal::Stop)).lemma_stop_stays(actions);
    }

    /// Once a stop is recorded, a whole series of signals changes nothing.
    pub proof fn law_stop_absorbs_all(hub: WorkerView<C>, signals: Seq<Signal>)
        requires
            hub.lock == Some(Signal::Stop),
        ensures
            hub.send_all(signals) == hub,
        decreases signals.len(),
    {
        if signals.len() > 0 {
            Self::law_stop_absorbs_all(hub, signals.drop_first());
        }
    }

    /// The loop does one thing at a time. While it is processing a signal, a
    /// step takes no further signal from the queue; and while the table
    /// loader is at work, a step either ends that load or changes nothing, so
    /// that no second load begins beside it.
    pub proof fn law_one_operation_at_a_time(self, report: Report<P, C>)
        ensures
            self.stage.in_hand() is Some ==> self.apply(Action::Step(report)).hub.queue
                == self.hub.queue,
            self.stage.loading() ==> !self.apply(Action::Step(report)).stage.loading()
                || self.apply(Action::Step(report)) == self,
            self.stage.loading() && self.apply(Action::Step(report)) != self ==> (report is Loaded
                || report is Fault),
    {
    }

    /// A load begins only as the answer to the report that its stage waited
    /// for: the watcher took the picked path, or the current path proved to
    /// be there still.
    pub proof fn law_load_begins_once(self, report: Report<P, C>)
        requires
            !self.stage.loading(),
            self.apply(Action::Step(report)).stage.loading(),
        ensures
            (self.stage is Targeting && report == Report::<P, C>::Watched(true)) || (self.stage
                is Probing && report == Report::<P, C>::Probed(true)),
            self.apply(Action::Step(report)).hub == self.hub,
    {
    }

    /// If an update is processed while the current path is no longer a file,
    /// the one response is an unload, no path is current afterwards, and the
    /// path is handed back to be unwatched.
    pub proof fn law_unload_on_disappearance(path: P, hub: WorkerView<C>)
        requires
            hub.next() == Some(Signal::Update),
        ensures
            ({
                let begun = Stage::Waiting { current: Some(path) }.step(hub, Report::Ready);
                let ended = begun.stage.step(begun.hub, Report::Probed(false));
                &&& begun.stage == Stage::Probing { file: path }
                &&& begun.hub.responses == hub.responses
                &&& ended.hub.responses == hub.responses.push(Response::Unload)
                &&& ended.stage == Stage::<P>::Waiting { current: None }
                &&& ended.stage.path() is None
                &&& ended.unwatch == Some(path)
            }),
    {
    }

    /// An unload that is processed while no path is current still answers
    /// with an unload, and leaves the worker idle without a file.
    pub proof fn law_unload_without_file(hub: WorkerView<C>)
        requires
            hub.next() == Some(Signal::Unload),
        ensures
            ({
                let done = Stage::<P>::Waiting { current: None }.step(hub, Report::Ready);
                &&& done.stage == Stage::<P>::Waiting { current: None }
                &&& done.hub.responses == hub.responses.push(Response::Unload)
                &&& done.unwatch is None
            }),
    {
    }

    /// A worker that has terminated stays as it is, and the step in which it
    /// terminates clears the liveness flag.
    pub proof fn law_dead_is_final(self, report: Report<P, C>)
        ensures
            self.stage is Halted ==> self.apply(Action::Step(report)) == self,
            self.apply(Action::Step(report)).stage is Halted && !(self.stage is Halted)
                ==> !self.apply(Action::Step(report)).hub.alive,
    {
    }

    /// The state that is shown says whether a file is loaded: an idle worker
    /// is shown with a file exactly when a path is current.
    pub proof fn law_state_matches_path(stage: Stage<P>)
        ensures
            stage.state() is Idle ==> (stage.state() == crate::engine::WorkerState::Idle {
                with_file: stage.path() is Some,
            }),
            stage.state() is Dead <==> stage is Halted,
            stage.state() is Busy <==> stage.in_hand() is Some,
    {
    }
}

} // verus!
