//! The life of one driver lineage: handles, shutdown request, termination.
//!
//! One construction of the service makes one lineage: a shared driver state,
//! reference-counted by its handles, and one background thread.  While any
//! handle lives the lineage is active.  Dropping the last handle requests
//! shutdown, best-effort and fire-and-forget; the driver observes the
//! request on its next completed turn and terminates.  After the last
//! handle is gone the driver's poll of the shutdown channel finds either
//! the delivered message or a disconnected channel; the two decide alike,
//! and this model writes both as a delivered request.

use vstd::prelude::*;

use crate::driver::DriverStep;
use crate::driver::ShutdownPoll;
use crate::driver::TurnOutcome;
use crate::driver::step_decision;

verus! {

/// The phase of a lineage, as the shutdown protocol sees it.
#[derive(Clone, Copy, Debug, PartialEq, Eq, Structural)]
pub enum LineagePhase {
    /// At least one handle is alive; the driver loops normally.
    Active,
    /// The last handle is gone and shutdown is requested, but the driver
    /// has not yet observed the request.
    ShuttingDown,
    /// The driver's loop has ended, cleanly or by fault.
    Terminated,
}

/// The protocol-visible state of one lineage.
#[derive(Clone, Copy, Debug, PartialEq, Eq, Structural)]
pub struct LineageState {
    /// How many handles to the shared driver state are alive.
    pub handles: u64,
    /// Whether the shutdown request has been issued.
    pub shutdown_requested: bool,
    /// Whether the driver's loop has ended.
    pub driver_stopped: bool,
}

/// The lineage after one handle is dropped: the count falls by one, and the
/// drop of the last handle issues the shutdown request.
pub open spec fn spec_drop_handle(s: LineageState) -> LineageState {
    LineageState {
        handles: (s.handles - 1) as u64,
        shutdown_requested: s.shutdown_requested || s.handles == 1,
        driver_stopped: s.driver_stopped,
    }
}

/// What the driver's non-blocking poll of the shutdown channel finds in a
/// given lineage state.
pub open spec fn spec_signal(s: LineageState) -> ShutdownPoll {
    if s.shutdown_requested {
        ShutdownPoll::Received
    } else {
        ShutdownPoll::Empty
    }
}

/// The lineage after one driver turn with the given outcome, paired with
/// the decision the driver takes: the loop ends exactly when the decision
/// is anything but to keep running.
pub open spec fn spec_driver_turn(s: LineageState, turn: TurnOutcome) -> (LineageState, DriverStep) {
    let d = step_decision(turn, spec_signal(s));
    let after = LineageState {
        handles: s.handles,
        shutdown_requested: s.shutdown_requested,
        driver_stopped: s.driver_stopped || d != DriverStep::KeepRunning,
    };
    (after, d)
}

impl LineageState {
    /// The lineage's invariant: the shutdown request is issued exactly when
    /// no handle is left — it is sent by the last handle's drop and never
    /// before.
    pub open spec fn wf(self) -> bool {
        self.shutdown_requested <==> self.handles == 0
    }

    /// The phase the protocol is in.
    pub open spec fn phase(self) -> LineagePhase {
        if self.driver_stopped {
            LineagePhase::Terminated
        } else if self.handles == 0 {
            LineagePhase::ShuttingDown
        } else {
            LineagePhase::Active
        }
    }

    /// Reports the phase the protocol is in.
    pub fn phase_of(&self) -> (p: LineagePhase)
        ensures
            p == self.phase(),
    {
        if self.driver_stopped {
            LineagePhase::Terminated
        } else if self.handles == 0 {
            LineagePhase::ShuttingDown
        } else {
            LineagePhase::Active
        }
    }

    /// A fresh lineage: one handle, driver running, no shutdown requested.
    pub fn construct() -> (s: LineageState)
        ensures
            s == (LineageState { handles: 1u64, shutdown_requested: false, driver_stopped: false }),
            s.wf(),
            s.phase() == LineagePhase::Active,
    {
        LineageState { handles: 1, shutdown_requested: false, driver_stopped: false }
    }

    /// Clones a handle: the count rises by one and nothing else moves.
    pub fn clone_handle(&mut self)
        requires
            old(self).handles >= 1,
            old(self).handles < u64::MAX,
            old(self).wf(),
        ensures
            final(self).handles == old(self).handles + 1,
            final(self).shutdown_requested == old(self).shutdown_requested,
            final(self).driver_stopped == old(self).driver_stopped,
            final(self).wf(),
    {
        self.handles = self.handles + 1;
    }

    /// Drops a handle.  Returns whether this drop was the last and so
    /// issued the shutdown request.
    pub fn drop_handle(&mut self) -> (requested_now: bool)
        requires
            old(self).handles >= 1,
            old(self).wf(),
        ensures
            *final(self) == spec_drop_handle(*old(self)),
            final(self).wf(),
            requested_now == (old(self).handles == 1),
    {
        self.handles = self.handles - 1;
        if self.handles == 0 {
            self.shutdown_requested = true;
            true
        } else {
            false
        }
    }

    /// One driver turn: the driver polls for shutdown after the turn and
    /// decides; the loop ends exactly when the decision is not to keep
    /// running.
    pub fn driver_turn(&mut self, turn: TurnOutcome) -> (d: DriverStep)
        requires
            old(self).wf(),
            !old(self).driver_stopped,
        ensures
            (*final(self), d) == spec_driver_turn(*old(self), turn),
            final(self).wf(),
            d == step_decision(turn, spec_signal(*old(self))),
            final(self).driver_stopped == (d != DriverStep::KeepRunning),
    {
        let sig = if self.shutdown_requested {
            ShutdownPoll::Received
        } else {
            ShutdownPoll::Empty
        };
        let d = crate::driver::decide_step(turn, sig);
        match d {
            DriverStep::KeepRunning => {}
            _ => {
                self.driver_stopped = true;
            }
        }
        d
    }
}

/// Dropping every handle terminates the driver within one completed turn:
/// from an active lineage down to its last handle, the drop of that handle
/// issues the shutdown request and puts the lineage in the shutting-down
/// phase, and the driver's next completed turn observes the request, stops
/// cleanly, and leaves the lineage terminated.
pub proof fn lemma_last_drop_terminates(s: LineageState)
    requires
        s.wf(),
        s.handles == 1,
        !s.driver_stopped,
    ensures
        ({
            let after_drop = spec_drop_handle(s);
            let turned = spec_driver_turn(after_drop, TurnOutcome::Turned);
            after_drop.shutdown_requested && after_drop.phase() == LineagePhase::ShuttingDown
                && turned.1 == DriverStep::Stop && turned.0.phase() == LineagePhase::Terminated
        }),
{
}

/// Termination is final: whatever a further turn would report, it leaves a
/// stopped driver stopped — a lineage never leaves the terminated phase.
pub proof fn lemma_termination_is_final(s: LineageState, turn: TurnOutcome)
    requires
        s.driver_stopped,
    ensures
        spec_driver_turn(s, turn).0.driver_stopped,
        spec_driver_turn(s, turn).0.phase() == LineagePhase::Terminated,
{
}

/// A lineage that has not requested shutdown keeps its driver running on
/// every successful turn: the loop never stops for any reason but a fault
/// or a shutdown request.
pub proof fn lemma_active_lineage_keeps_running(s: LineageState)
    requires
        s.wf(),
        s.handles >= 1,
        !s.driver_stopped,
    ensures
        spec_driver_turn(s, TurnOutcome::Turned).1 == DriverStep::KeepRunning,
        spec_driver_turn(s, TurnOutcome::Turned).0.phase() == s.phase(),
{
}

} // verus!
