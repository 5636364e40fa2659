//! What the worker reports back to the user interface.

use vstd::prelude::*;
use vstd::string::StringExecFns;

verus! {

/// Why a load attempt, or the file watcher, failed.
#[derive(Clone, Copy, Debug, PartialEq, Eq, Structural, Hash)]
pub enum WorkerError {
    /// The chosen path is not a file.
    FileMissing,
    /// The workbook or its first sheet could not be read.
    TableReadFailed,
    /// The workbook holds no sheet.
    NoSheet,
    /// The sheet does not have the expected layout.
    MalformedTable,
    /// The file watcher reported an error.
    WatcherFailed,
}

impl WorkerError {
    /// The name under which the error is shown.
    pub open spec fn label(self) -> Seq<char> {
        match self {
            WorkerError::FileMissing => "FileMissing"@,
            WorkerError::TableReadFailed => "TableReadFailed"@,
            WorkerError::NoSheet => "NoSheet"@,
            WorkerError::MalformedTable => "MalformedTable"@,
            WorkerError::WatcherFailed => "WatcherFailed"@,
        }
    }

    /// Returns the name under which the error is shown.
    pub fn name(self) -> (text: String)
        ensures
            text@ == self.label(),
    {
        match self {
            WorkerError::FileMissing => String::from_str("FileMissing"),
            WorkerError::TableReadFailed => String::from_str("TableReadFailed"),
            WorkerError::NoSheet => String::from_str("NoSheet"),
            WorkerError::MalformedTable => String::from_str("MalformedTable"),
            WorkerError::WatcherFailed => String::from_str("WatcherFailed"),
        }
    }
}

/// One result handed from the worker to the user interface. `C` is the curve
/// computed from a loaded file; the worker passes it on without looking inside.
#[derive(Debug, PartialEq)]
pub enum Response<C> {
    /// The current file should be unloaded.
    Unload,
    /// A file was loaded and this is its curve.
    Output(C),
    /// Something went wrong; the worker keeps running.
    Error(WorkerError),
}

} // verus!
