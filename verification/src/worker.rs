//! The handle shared between the user interface, the file watcher and the
//! worker loop: the signal gate with its queue, the queue of responses, and
//! the liveness flag.
//!
//! The handle itself is sequential. A program shares it behind one mutex, so
//! that checking the lock, recording it and queueing the signal are one step
//! that no other sender can interleave with.

use std::collections::VecDeque;
use vstd::prelude::*;
use crate::response::Response;
use crate::signal::Signal;

verus! {

/// The mathematical content of a [`Worker`].
pub struct WorkerView<C> {
    /// Whether the worker loop is still running.
    pub alive: bool,
    /// The lock signal that is recorded, if any.
    pub lock: Option<Signal>,
    /// The accepted signals that the loop has not taken yet, oldest first.
    pub queue: Seq<Signal>,
    /// The responses that the user interface has not taken yet, oldest first.
    pub responses: Seq<Response<C>>,
}

impl<C> WorkerView<C> {
    /// The state of a fresh worker.
    pub open spec fn initial() -> Self {
        WorkerView { alive: true, lock: None, queue: Seq::empty(), responses: Seq::empty() }
    }

    /// Whether `signal` would be dropped if it were sent now.
    pub open spec fn skips(self, signal: Signal) -> bool {
        self.lock matches Some(lock) && signal.skipped_under(lock)
    }

    /// The state after `signal` was sent: unchanged if the signal is dropped;
    /// otherwise the signal is queued last and, if it is a lock, recorded.
    pub open spec fn send(self, signal: Signal) -> Self {
        if self.skips(signal) {
            self
        } else {
            WorkerView {
                lock: if signal.locks() {
                    Some(signal)
                } else {
                    self.lock
                },
                queue: self.queue.push(signal),
                ..self
            }
        }
    }

    /// The state after each of `signals` was sent, in order.
    pub open spec fn send_all(self, signals: Seq<Signal>) -> Self
        decreases signals.len(),
    {
        if signals.len() == 0 {
            self
        } else {
            self.send(signals[0]).send_all(signals.drop_first())
        }
    }

    /// The state after the loop reported that it is done with `signal`.
    pub open spec fn reset(self, signal: Signal) -> Self {
        if self.lock matches Some(lock) && signal.unlocks(lock) {
            WorkerView { lock: None, ..self }
        } else {
            self
        }
    }

    /// The signal that the loop is handed next. Once a stop is recorded that
    /// is the stop itself, whatever was queued before it.
    pub open spec fn next(self) -> Option<Signal> {
        if self.queue.len() == 0 {
            None
        } else if self.lock == Some(Signal::Stop) {
            Some(Signal::Stop)
        } else {
            Some(self.queue[0])
        }
    }

    /// The state after the loop took its next signal. Once a stop is
    /// recorded, the signals queued before it leave the queue with it.
    pub open spec fn take(self) -> Self {
        if self.queue.len() == 0 {
            self
        } else if self.lock == Some(Signal::Stop) {
            WorkerView { queue: Seq::empty(), ..self }
        } else {
            WorkerView { queue: self.queue.drop_first(), ..self }
        }
    }

    /// The state after `response` was queued for the user interface.
    pub open spec fn respond(self, response: Response<C>) -> Self {
        WorkerView { responses: self.responses.push(response), ..self }
    }

    /// The state after the liveness flag was set.
    pub open spec fn with_alive(self, alive: bool) -> Self {
        WorkerView { alive, ..self }
    }

    /// What holds of every worker, whatever was done to it: only a lock
    /// signal is ever recorded, and a stop in the queue is recorded and is
    /// the last signal in it.
    pub open spec fn wf(self) -> bool {
        &&& self.lock matches Some(lock) ==> lock.locks()
        &&& forall|i: int|
            0 <= i < self.queue.len() && #[trigger] self.queue[i] == Signal::Stop ==> self.lock
                == Some(Signal::Stop) && i == self.queue.len() - 1
        &&& self.lock == Some(Signal::Stop) && self.queue.len() > 0 ==> self.queue.last()
            == Signal::Stop
    }
}

/// The shared handle of a worker.
///
/// Signals go in through [`Worker::send_signal`] and come out, in the order
/// in which they were accepted, through [`Worker::next_signal`]. Responses go
/// the other way through [`Worker::send_response`] and
/// [`Worker::next_response`].
pub struct Worker<C> {
    /// True as long as the worker loop runs.
    alive: bool,
    /// The lock by which later signals are skipped.
    signal_lock: Option<Signal>,
    /// The accepted signals, oldest first.
    signals: VecDeque<Signal>,
    /// The responses for the user interface, oldest first.
    responses: VecDeque<Response<C>>,
}

impl<C> View for Worker<C> {
    type V = WorkerView<C>;

    closed spec fn view(&self) -> WorkerView<C> {
        WorkerView {
            alive: self.alive,
            lock: self.signal_lock,
            queue: self.signals@,
            responses: self.responses@,
        }
    }
}

impl<C> Worker<C> {
    /// Every handle is well formed at all times.
    #[verifier::type_invariant]
    pub open spec fn valid(&self) -> bool {
        self@.wf()
    }

    /// Creates the handle of a worker that is alive and has nothing queued.
    pub fn new() -> (worker: Self)
        ensures
            worker@ == WorkerView::<C>::initial(),
    {
        Worker {
            alive: true,
            signal_lock: None,
            signals: VecDeque::new(),
            responses: VecDeque::new(),
        }
    }

    /// Checks if the worker is alive.
    pub fn is_alive(&self) -> (alive: bool)
        ensures
            alive == self@.alive,
    {
        self.alive
    }

    /// Sets if the worker is alive.
    ///
    /// This function is meant to be used by the worker loop itself. The
    /// worker should be stopped by a signal.
    pub fn set_alive(&mut self, alive: bool)
        ensures
            final(self)@ == old(self)@.with_alive(alive),
    {
        proof {
            use_type_invariant(&*self);
        }
        self.alive = alive;
    }

    /// Returns the recorded lock signal, if there is one.
    pub fn lock(&self) -> (lock: Option<Signal>)
        ensures
            lock == self@.lock,
    {
        self.signal_lock
    }

    /// Returns how many accepted signals wait for the worker loop.
    pub fn pending(&self) -> (n: usize)
        ensures
            n == self@.queue.len(),
    {
        self.signals.len()
    }

    /// Resets the lock introduced by a signal, once the worker loop is done
    /// with `signal`. A lock that `signal` cannot unlock stays.
    pub fn reset_signal_lock(&mut self, signal: Signal)
        ensures
            final(self)@ == old(self)@.reset(signal),
    {
        proof {
            use_type_invariant(&*self);
        }
        if let Some(lock) = self.signal_lock {
            if signal.can_unlock(lock) {
                assert(lock != Signal::Stop);
                self.signal_lock = None;
            }
        }
    }

    /// Sends a signal to the worker.
    ///
    /// The signal is dropped if the recorded lock says so. Otherwise it is
    /// queued behind all signals accepted before it, and recorded as the new
    /// lock if it is one; a stop thereby replaces a recorded file dialog.
    pub fn send_signal(&mut self, signal: Signal)
        ensures
            final(self)@ == old(self)@.send(signal),
    {
        proof {
            use_type_invariant(&*self);
        }
        if let Some(lock) = self.signal_lock {
            if signal.should_skip(lock) {
                return ;
            }
        }
        let mut signals = VecDeque::new();
        std::mem::swap(&mut signals, &mut self.signals);
        signals.push_back(signal);
        if signal.is_lock() {
            self.signal_lock = Some(signal);
        }
        self.signals = signals;
    }

    /// Takes the next signal for the worker loop, or returns `None` if none
    /// waits. Once a stop is recorded, the signals queued before it are
    /// discarded and the stop is what comes out.
    pub fn next_signal(&mut self) -> (signal: Option<Signal>)
        ensures
            signal == old(self)@.next(),
            final(self)@ == old(self)@.take(),
    {
        proof {
            use_type_invariant(&*self);
        }
        let ghost before = self.signals@;
        let mut signals = VecDeque::new();
        std::mem::swap(&mut signals, &mut self.signals);
        let mut found = signals.pop_front();
        if let Some(Signal::Stop) = self.signal_lock {
            let ghost mut at: int = 0;
            while found.is_some() && found != Some(Signal::Stop)
                invariant
                    before.len() > 0 ==> 0 <= at < before.len() && found == Some(before[at])
                        && signals@ == before.subrange(at + 1, before.len() as int),
                    before.len() == 0 ==> found.is_none() && signals@ == before,
                    before.len() > 0 ==> before.last() == Signal::Stop,
                decreases before.len() - at,
            {
                found = signals.pop_front();
                proof {
                    at = at + 1;
                }
            }
        }
        proof {
            if before.len() > 0 {
                if self.signal_lock == Some(Signal::Stop) {
                    assert(signals@ =~= Seq::<Signal>::empty());
                } else {
                    assert(signals@ =~= before.drop_first());
                }
            }
        }
        self.signals = signals;
        found
    }

    /// Sends a response to the user interface.
    pub fn send_response(&mut self, response: Response<C>)
        ensures
            final(self)@ == old(self)@.respond(response),
    {
        proof {
            use_type_invariant(&*self);
        }
        let mut responses = VecDeque::new();
        std::mem::swap(&mut responses, &mut self.responses);
        responses.push_back(response);
        self.responses = responses;
    }

    /// Takes the oldest response that the user interface has not seen yet,
    /// or returns `None` if there is none.
    pub fn next_response(&mut self) -> (response: Option<Response<C>>)
        ensures
            old(self)@.responses.len() == 0 ==> response.is_none() && final(self)@ == old(self)@,
            old(self)@.responses.len() > 0 ==> response == Some(old(self)@.responses[0])
                && final(self)@ == (WorkerView {
                responses: old(self)@.responses.drop_first(),
                ..old(self)@
            }),
    {
        proof {
            use_type_invariant(&*self);
        }
        let mut responses = VecDeque::new();
        std::mem::swap(&mut responses, &mut self.responses);
        let response = responses.pop_front();
        self.responses = responses;
        response
    }
}

} // verus!
