//! Coordination core of a titration-curve viewer.
//!
//! A user interface, a blocking file picker and a filesystem watcher all talk
//! to one background worker. This crate holds the rules of that conversation
//! as sequential, verified state machines; threads, locks and I/O belong to
//! the program built around it.

pub mod engine;
pub mod laws;
pub mod options;
pub mod response;
pub mod signal;
pub mod table;
pub mod ui;
pub mod util;
pub mod watch;
pub mod worker;
