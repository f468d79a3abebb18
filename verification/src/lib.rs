//! Event sequencing for a supervised child process.
//!
//! A supervisor captures the standard output and standard error of one child,
//! republishes every captured line as an event on one ordered stream, and
//! closes that stream with a single terminal event once the child has exited
//! and both captured streams are drained.
//!
//! This crate holds the decisions of such a supervisor: what a line reader
//! publishes for each read, what the process watcher publishes for the exit,
//! and when the exit may be announced. Spawning the child, reading its pipes
//! and waiting for its exit are left to the caller, who reports each outcome
//! as a [`supervisor::Signal`]. The supervisor hands back the event that is
//! due, or sends it on the event bus itself.
//!
//! - [`event`]: the events.
//! - [`reader`], [`watcher`], [`guard`]: the parts of a supervisor.
//! - [`model`]: the supervisor as a state machine over sequences of signals.
//! - [`supervisor`]: the supervisor itself.
//! - [`bus`]: the sending side of the event bus.
//! - [`ordering`]: what holds of every run.

pub mod bus;
pub mod event;
pub mod guard;
pub mod model;
pub mod ordering;
pub mod reader;
pub mod supervisor;
pub mod watcher;
