//! The commands a worker can be sent, and the rules by which one command
//! suppresses another.

use vstd::prelude::*;

verus! {

/// A command for the worker. Signals carry no data: how they interact is a
/// property of the tag alone.
///
/// The declaration order is the order of rank, lowest first.
#[derive(Clone, Copy, Debug, PartialEq, Eq, Structural, PartialOrd, Ord, Hash)]
pub enum Signal {
    /// Re-read the tracked file.
    Update,
    /// Stop tracking the current file.
    Unload,
    /// Open a file picker and load the chosen file.
    FileDialog,
    /// Terminate the worker.
    Stop,
}

impl Signal {
    /// The rank of a signal: a higher rank outweighs a lower one.
    pub open spec fn rank(self) -> nat {
        match self {
            Signal::Update => 0,
            Signal::Unload => 1,
            Signal::FileDialog => 2,
            Signal::Stop => 3,
        }
    }

    /// Whether accepting this signal records it as the lock.
    pub open spec fn locks(self) -> bool {
        self == Signal::FileDialog || self == Signal::Stop
    }

    /// Whether this signal is dropped while `lock` is recorded.
    ///
    /// A recorded stop suppresses everything. A recorded file dialog
    /// suppresses updates, which would load the chosen file a second time,
    /// and nothing else. A signal that is no lock suppresses nothing.
    pub open spec fn skipped_under(self, lock: Signal) -> bool {
        match lock {
            Signal::Stop => true,
            Signal::FileDialog => self == Signal::Update,
            _ => false,
        }
    }

    /// Whether having processed this signal clears a recorded `lock`.
    ///
    /// A stop is never cleared. Any other lock is cleared by a signal of
    /// equal or higher rank.
    pub open spec fn unlocks(self, lock: Signal) -> bool {
        lock != Signal::Stop && self.rank() >= lock.rank()
    }

    /// Checks if the signal activates signal-skipping.
    pub fn is_lock(self) -> (b: bool)
        ensures
            b == self.locks(),
    {
        match self {
            Signal::FileDialog | Signal::Stop => true,
            Signal::Update | Signal::Unload => false,
        }
    }

    /// Checks if the signal should be skipped with a given lock.
    pub fn should_skip(self, lock: Signal) -> (b: bool)
        ensures
            b == self.skipped_under(lock),
    {
        match lock {
            Signal::Stop => true,
            Signal::FileDialog => match self {
                Signal::Update => true,
                Signal::Unload | Signal::FileDialog | Signal::Stop => false,
            },
            Signal::Update | Signal::Unload => false,
        }
    }

    /// Checks if processing this signal releases the given lock.
    pub fn can_unlock(self, lock: Signal) -> (b: bool)
        ensures
            b == self.unlocks(lock),
    {
        match lock {
            Signal::Stop => false,
            Signal::FileDialog => match self {
                Signal::FileDialog | Signal::Stop => true,
                Signal::Update | Signal::Unload => false,
            },
            Signal::Unload => match self {
                Signal::Update => false,
                _ => true,
            },
            Signal::Update => true,
        }
    }
}

} // verus!
