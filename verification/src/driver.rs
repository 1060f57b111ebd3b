//! The driver loop's decision: keep turning, stop, or die of a fault.
//!
//! The background thread repeatedly turns the deadline queue with a bounded
//! wait, then polls the shutdown channel without blocking.  A fault while
//! turning is fatal; a shutdown message, or a disconnected channel (every
//! sender dropped), stops the loop cleanly; an empty channel means another
//! turn.

use vstd::prelude::*;

use crate::errors::TimerError;

verus! {

#[verifier::external_type_specification]
#[verifier::external_body]
#[verifier::reject_recursive_types(T)]
pub struct ExSender<T>(crossbeam_channel::Sender<T>);

#[verifier::external_type_specification]
#[verifier::external_body]
#[verifier::reject_recursive_types(T)]
pub struct ExReceiver<T>(crossbeam_channel::Receiver<T>);

/// What one turn of the deadline queue reported.
#[derive(Clone, Copy, Debug, PartialEq, Eq, Structural)]
pub enum TurnOutcome {
    /// The turn completed: zero or more expired deadlines were fired.
    Turned,
    /// The turn failed; the driver is faulted beyond recovery.
    Faulted(TimerError),
}

/// What a non-blocking poll of the shutdown channel found.
#[derive(Clone, Copy, Debug, PartialEq, Eq, Structural)]
pub enum ShutdownPoll {
    /// No message pending: nobody has asked the driver to stop.
    Empty,
    /// A shutdown message was delivered.
    Received,
    /// Every sender is gone, so no shutdown message can ever arrive; the
    /// handles that would send one are all dropped.
    Disconnected,
}

/// What the driver thread does next.
#[derive(Clone, Copy, Debug, PartialEq, Eq, Structural)]
pub enum DriverStep {
    /// Turn the deadline queue again.
    KeepRunning,
    /// Stop cleanly: shutdown was requested or has become inevitable.
    Stop,
    /// Terminate on an unrecoverable fault.
    Fail(TimerError),
}

/// The loop's decision from one turn's outcome and one shutdown poll: a
/// fault is fatal whatever the poll said; otherwise the loop stops exactly
/// when the poll found anything but an empty channel.
pub open spec fn step_decision(turn: TurnOutcome, sig: ShutdownPoll) -> DriverStep {
    match turn {
        TurnOutcome::Faulted(e) => DriverStep::Fail(e),
        TurnOutcome::Turned => match sig {
            ShutdownPoll::Empty => DriverStep::KeepRunning,
            ShutdownPoll::Received => DriverStep::Stop,
            ShutdownPoll::Disconnected => DriverStep::Stop,
        },
    }
}

/// Decides what the driver does after one turn and one shutdown poll.
pub fn decide_step(turn: TurnOutcome, sig: ShutdownPoll) -> (d: DriverStep)
    ensures
        d == step_decision(turn, sig),
{
    match turn {
        TurnOutcome::Faulted(e) => DriverStep::Fail(e),
        TurnOutcome::Turned => match sig {
            ShutdownPoll::Empty => DriverStep::KeepRunning,
            ShutdownPoll::Received => DriverStep::Stop,
            ShutdownPoll::Disconnected => DriverStep::Stop,
        },
    }
}

/// The loop keeps running exactly when the turn succeeded and no shutdown
/// is in sight; it never outlives a shutdown request that it has observed.
pub proof fn lemma_step_stops_on_shutdown(turn: TurnOutcome, sig: ShutdownPoll)
    ensures
        step_decision(turn, sig) == DriverStep::KeepRunning <==> (turn == TurnOutcome::Turned
            && sig == ShutdownPoll::Empty),
{
}

/// Relies on crossbeam_channel::bounded: creates a channel that holds at
/// most `cap` messages.  The capacity of one is small enough that the
/// documented panic on an over-large capacity cannot occur.
#[verifier::external_body]
fn bounded_unit_channel(cap: usize) -> (r: (
    crossbeam_channel::Sender<()>,
    crossbeam_channel::Receiver<()>,
))
    requires
        cap == 1,
{
    crossbeam_channel::bounded(cap)
}

/// Relies on crossbeam_channel::Sender::try_send: it never blocks, and it
/// delivers the message exactly when the channel has a free slot and the
/// receiver is still alive — whether it does depends on the channel's
/// momentary state, so nothing more is promised of the outcome.
#[verifier::external_body]
fn try_send_unit(tx: &crossbeam_channel::Sender<()>) -> (accepted: bool)
{
    tx.try_send(()).is_ok()
}

/// Relies on crossbeam_channel::Receiver::try_recv: it never blocks, and it
/// tells a delivered message apart from an empty channel and from one whose
/// senders are all gone — which of the three it finds depends on the
/// channel's momentary state, so nothing more is promised of the outcome.
#[verifier::external_body]
fn try_recv_unit(rx: &crossbeam_channel::Receiver<()>) -> (sig: ShutdownPoll)
{
    match rx.try_recv() {
        Ok(()) => ShutdownPoll::Received,
        Err(crossbeam_channel::TryRecvError::Empty) => ShutdownPoll::Empty,
        Err(crossbeam_channel::TryRecvError::Disconnected) => ShutdownPoll::Disconnected,
    }
}

/// Creates the shutdown channel of one driver lineage: capacity one, since
/// at most one shutdown message is ever meaningful.
pub fn shutdown_channel() -> (r: (
    crossbeam_channel::Sender<()>,
    crossbeam_channel::Receiver<()>,
))
{
    bounded_unit_channel(1)
}

/// Requests shutdown, best-effort and without blocking.  Returns whether
/// the message was delivered; a failure — the single slot already taken, or
/// the driver already gone — means shutdown is already in progress or done,
/// and callers swallow it by design.
pub fn request_shutdown(tx: &crossbeam_channel::Sender<()>) -> (accepted: bool)
{
    try_send_unit(tx)
}

/// One decision of the driver loop, taken against the real shutdown
/// channel: polls it without blocking and decides from the turn's outcome
/// and whatever the poll found.  Returns the poll's finding beside the
/// decision, which is exactly the one `step_decision` takes on that pair.
pub fn driver_step(turn: TurnOutcome, rx: &crossbeam_channel::Receiver<()>) -> (r: (
    ShutdownPoll,
    DriverStep,
))
    ensures
        r.1 == step_decision(turn, r.0),
{
    let sig = try_recv_unit(rx);
    let d = decide_step(turn, sig);
    (sig, d)
}

} // verus!
