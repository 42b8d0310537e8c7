//! Failure taxonomy of the recording core.

use vstd::prelude::*;

verus! {

/// Everything that can go wrong in a capture or pipeline session.
///
/// `SelectionCancelled` and `SelectionTimedOut` are user-triggered, non-error
/// outcomes: the selection engine reports them through an empty result and
/// never escalates them; they are listed here so that the surrounding
/// application can name them when it reports a session's end. All other
/// variants abort the enclosing operation; nothing is retried.
#[derive(Clone, Copy, Debug, PartialEq, Eq, Structural)]
pub enum Error {
    /// The connection to the windowing system could not be opened.
    DisplayOpenFailed,
    /// No window could be resolved to capture from.
    WindowNotFound,
    /// The user aborted the interactive selection.
    SelectionCancelled,
    /// The interactive selection outlived its configured timeout.
    SelectionTimedOut,
    /// A single frame could not be captured.
    CaptureFailed,
    /// The external command could not be run to completion.
    CommandExecutionFailed,
    /// The animation stream is malformed.
    DecodeFailed,
    /// The animation stream could not be produced.
    EncodeFailed,
}

impl Error {
    /// True of the two outcomes that a user triggers on purpose; they are
    /// reported as empty results, never as failures.
    pub fn is_user_outcome(&self) -> (r: bool)
        ensures
            r == (self is SelectionCancelled || self is SelectionTimedOut),
    {
        match self {
            Error::SelectionCancelled | Error::SelectionTimedOut => true,
            _ => false,
        }
    }
}

} // verus!
