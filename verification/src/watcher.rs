//! Errors of the file-watching subsystem. The watching itself is operating
//! system work and lives with the caller; the library holds the error type
//! that its interface speaks of.

use vstd::prelude::*;

verus! {

/// An error of the file watcher.
#[derive(Clone, Copy, Debug, PartialEq, Eq, Structural)]
pub enum WatcherError {
    /// A command could not be handed to the watcher.
    CommandFailed,
}

impl WatcherError {
    /// The error's message text.
    pub fn message(&self) -> (r: &'static str)
        ensures
            *self == WatcherError::CommandFailed ==> r@ == "Failed to send watcher command"@,
    {
        match self {
            WatcherError::CommandFailed => "Failed to send watcher command",
        }
    }
}

} // verus!
