//! How the process ends once the event loop has handed control back.

use vstd::prelude::*;

verus! {

/// The diagnostic with which the process aborts when the event loop could not
/// be started.
pub const RUN_FAILURE: &'static str = "error while running tauri application";

/// The way the process ends.
#[derive(Clone, Copy, Debug, PartialEq, Eq, Structural)]
pub enum Exit {
    /// The event loop ran and returned: the process ends normally.
    Normal,
    /// The event loop could not be started: the process aborts.
    Abort,
}

impl Exit {
    /// The exit that belongs to an event loop that did, or did not, start.
    pub open spec fn of(started: bool) -> Exit {
        if started {
            Exit::Normal
        } else {
            Exit::Abort
        }
    }

    /// The diagnostic that accompanies this exit: none for a normal exit,
    /// [`RUN_FAILURE`] for an abort.
    pub fn diagnostic(&self) -> (message: Option<&'static str>)
        ensures
            match message {
                None => *self == Exit::Normal,
                Some(text) => *self == Exit::Abort && text@ == RUN_FAILURE@,
            },
    {
        match self {
            Exit::Normal => None,
            Exit::Abort => Some(RUN_FAILURE),
        }
    }
}

/// Decides how the process ends from what the event loop returned. A loop that
/// returned `Ok` ends the process normally; any error aborts it, whatever the
/// error holds.
pub fn conclude<E>(outcome: &Result<(), E>) -> (exit: Exit)
    ensures
        exit == Exit::of(outcome is Ok),
{
    match outcome {
        Ok(_) => Exit::Normal,
        Err(_) => Exit::Abort,
    }
}

} // verus!
