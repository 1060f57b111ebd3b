//! The race between a wrapped operation and its deadline.
//!
//! A timeout wraps an operation and a delay registered at the deadline, and
//! on each wake settles the race: the operation is looked at first, so if it
//! has completed its own result is forwarded unchanged; otherwise, if the
//! delay has completed, the deadline won and the operation is discarded;
//! otherwise the race is still open.  The loser of the race is dropped by
//! the caller, which releases whatever it held.

use vstd::prelude::*;

use crate::errors::TimeoutError;
use crate::errors::TimerError;

verus! {

/// The settled outcome of one look at the race, given what has completed so
/// far: `op` is the wrapped operation's result if it has completed, and
/// `deadline` is the underlying delay's result if that has completed.
pub open spec fn race_outcome<T, E>(
    op: Option<Result<T, E>>,
    deadline: Option<Result<(), TimerError>>,
) -> Option<Result<T, TimeoutError<E>>> {
    match op {
        Some(Ok(t)) => Some(Ok(t)),
        Some(Err(e)) => Some(Err(TimeoutError::Inner(e))),
        None => match deadline {
            Some(Ok(u)) => Some(Err(TimeoutError::Elapsed)),
            Some(Err(te)) => Some(Err(TimeoutError::Timer(te))),
            None => None,
        },
    }
}

/// Settles one look at the race.  Returns `None` while neither side has
/// completed; otherwise the single resolution of the timeout.
pub fn settle_race<T, E>(
    op: Option<Result<T, E>>,
    deadline: Option<Result<(), TimerError>>,
) -> (r: Option<Result<T, TimeoutError<E>>>)
    ensures
        r == race_outcome(op, deadline),
{
    match op {
        Some(Ok(t)) => Some(Ok(t)),
        Some(Err(e)) => Some(Err(TimeoutError::Inner(e))),
        None => match deadline {
            Some(Ok(())) => Some(Err(TimeoutError::Elapsed)),
            Some(Err(te)) => Some(Err(TimeoutError::Timer(te))),
            None => None,
        },
    }
}

/// The race has one winner and never two: an operation that completes while
/// the deadline is still pending resolves the timeout with the operation's
/// own result; a deadline that elapses while the operation is still pending
/// resolves it with a timeout error; and each resolution excludes the other
/// — a success carries the operation's value, and a timeout error is
/// returned only when the operation had not completed.
pub proof fn lemma_race_exclusive<T, E>(
    op: Option<Result<T, E>>,
    deadline: Option<Result<(), TimerError>>,
)
    ensures
        (op matches Some(Ok(t)) ==> race_outcome(op, deadline) == Some(Ok::<T, TimeoutError<E>>(t))),
        (op matches Some(Err(e)) ==> race_outcome(op, deadline)
            == Some(Err::<T, TimeoutError<E>>(TimeoutError::Inner(e)))),
        (op is None && deadline == Some(Ok::<(), TimerError>(())) ==> race_outcome(op, deadline)
            == Some(Err::<T, TimeoutError<E>>(TimeoutError::Elapsed))),
        (race_outcome(op, deadline) == Some(Err::<T, TimeoutError<E>>(TimeoutError::Elapsed))
            ==> op is None),
        (race_outcome(op, deadline) matches Some(Ok(t)) ==> op == Some(Ok::<T, E>(t))),
        (op is None && deadline is None ==> race_outcome(op, deadline) is None),
{
}

} // verus!
