//! The error taxonomy the timer service surfaces to its callers.

use vstd::prelude::*;

verus! {

/// Why the timer driver could not serve a registration or a turn.
#[derive(Clone, Copy, Debug, PartialEq, Eq, Structural)]
pub enum TimerError {
    /// The driver has shut down and accepts no further work.
    Shutdown,
    /// The driver's deadline queue holds as many entries as it can.
    AtCapacity,
}

/// The failure of an operation raced against a deadline.
///
/// Distinguishes "the operation failed on its own terms" from "the deadline
/// elapsed first" and from "the driver itself failed while waiting".
#[derive(Clone, Copy, Debug, PartialEq, Eq)]
pub enum TimeoutError<E> {
    /// The wrapped operation failed with its own error before the deadline.
    Inner(E),
    /// The deadline elapsed before the wrapped operation completed.
    Elapsed,
    /// The timer driver reported a fault while waiting for the deadline.
    Timer(TimerError),
}

impl<E> TimeoutError<E> {
    /// True exactly when the deadline elapsed first.
    pub fn is_elapsed(&self) -> (r: bool)
        ensures
            r == (*self matches TimeoutError::Elapsed),
    {
        matches!(self, TimeoutError::Elapsed)
    }

    /// True exactly when the wrapped operation failed on its own terms.
    pub fn is_inner(&self) -> (r: bool)
        ensures
            r == (*self matches TimeoutError::Inner(_)),
    {
        matches!(self, TimeoutError::Inner(_))
    }

    /// True exactly when the driver itself failed.
    pub fn is_timer(&self) -> (r: bool)
        ensures
            r == (*self matches TimeoutError::Timer(_)),
    {
        matches!(self, TimeoutError::Timer(_))
    }

    /// Extracts the wrapped operation's own error, if that is what this is.
    pub fn into_inner(self) -> (r: Option<E>)
        ensures
            match self {
                TimeoutError::Inner(e) => r == Some(e),
                _ => r is None,
            },
    {
        match self {
            TimeoutError::Inner(e) => Some(e),
            _ => None,
        }
    }
}

} // verus!
