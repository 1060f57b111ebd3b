//! Tests of the verified timer core: the driver loop's decision against a
//! real shutdown channel, the shutdown protocol, the life of a delay, and
//! the race between an operation and its deadline.

use timer_provider::delay::{checked_deadline_after, deadline_after, DelayState};
use timer_provider::driver::{
    decide_step, driver_step, request_shutdown, shutdown_channel, DriverStep, ShutdownPoll,
    TurnOutcome,
};
use timer_provider::errors::{TimeoutError, TimerError};
use timer_provider::lineage::{LineagePhase, LineageState};
use timer_provider::race::settle_race;
use timer_provider::TURN_WAIT_MS;

#[test]
fn decision_table() {
    assert_eq!(
        decide_step(TurnOutcome::Turned, ShutdownPoll::Empty),
        DriverStep::KeepRunning
    );
    assert_eq!(
        decide_step(TurnOutcome::Turned, ShutdownPoll::Received),
        DriverStep::Stop
    );
    assert_eq!(
        decide_step(TurnOutcome::Turned, ShutdownPoll::Disconnected),
        DriverStep::Stop
    );
    assert_eq!(
        decide_step(TurnOutcome::Faulted(TimerError::Shutdown), ShutdownPoll::Empty),
        DriverStep::Fail(TimerError::Shutdown)
    );
    assert_eq!(
        decide_step(TurnOutcome::Faulted(TimerError::AtCapacity), ShutdownPoll::Received),
        DriverStep::Fail(TimerError::AtCapacity)
    );
}

#[test]
fn driver_keeps_running_while_channel_is_quiet() {
    let (tx, rx) = shutdown_channel();
    let (seen, step) = driver_step(TurnOutcome::Turned, &rx);
    assert_eq!(seen, ShutdownPoll::Empty);
    assert_eq!(step, DriverStep::KeepRunning);
    drop(tx);
}

#[test]
fn driver_stops_on_delivered_shutdown_message() {
    let (tx, rx) = shutdown_channel();
    assert!(request_shutdown(&tx));
    let (seen, step) = driver_step(TurnOutcome::Turned, &rx);
    assert_eq!(seen, ShutdownPoll::Received);
    assert_eq!(step, DriverStep::Stop);
}

#[test]
fn driver_stops_when_every_sender_is_gone() {
    let (tx, rx) = shutdown_channel();
    drop(tx);
    let (seen, step) = driver_step(TurnOutcome::Turned, &rx);
    assert_eq!(seen, ShutdownPoll::Disconnected);
    assert_eq!(step, DriverStep::Stop);
}

#[test]
fn driver_fault_is_fatal_whatever_the_channel_holds() {
    let (tx, rx) = shutdown_channel();
    assert!(request_shutdown(&tx));
    let (_, step) = driver_step(TurnOutcome::Faulted(TimerError::Shutdown), &rx);
    assert_eq!(step, DriverStep::Fail(TimerError::Shutdown));
}

#[test]
fn redundant_shutdown_requests_are_harmless() {
    let (tx, rx) = shutdown_channel();
    assert!(request_shutdown(&tx));
    // The single slot is taken: a second request is refused, and by design
    // the refusal is swallowed.
    assert!(!request_shutdown(&tx));
    let (seen, step) = driver_step(TurnOutcome::Turned, &rx);
    assert_eq!(seen, ShutdownPoll::Received);
    assert_eq!(step, DriverStep::Stop);
}

#[test]
fn shutdown_request_after_driver_is_gone_is_refused_quietly() {
    let (tx, rx) = shutdown_channel();
    drop(rx);
    assert!(!request_shutdown(&tx));
}

#[test]
fn delay_fires_at_its_deadline_and_only_once() {
    let t0: u64 = 1000;
    let deadline: u64 = deadline_after(t0, 10);
    assert_eq!(deadline, 1010);
    let mut d = DelayState::register(deadline);
    assert!(!d.fired);
    // One poll short of the deadline: nothing fires.
    assert!(!d.poll_fire(1009));
    assert!(!d.fired);
    // At the deadline: the delay fires.
    assert!(d.poll_fire(1010));
    assert!(d.fired);
    // A later turn, within one polling interval: it does not fire again.
    assert!(!d.poll_fire(1010 + TURN_WAIT_MS));
    assert!(d.fired);
}

#[test]
fn past_deadline_fires_on_the_next_turn() {
    let mut d = DelayState::register(500);
    assert!(d.poll_fire(1000));
    assert!(d.fired);
}

#[test]
fn deadline_arithmetic_is_checked() {
    assert_eq!(checked_deadline_after(1000, 10), Some(1010));
    assert_eq!(checked_deadline_after(u64::MAX, 0), Some(u64::MAX));
    assert_eq!(checked_deadline_after(u64::MAX, 1), None);
    assert_eq!(checked_deadline_after(1, u64::MAX), None);
}

#[test]
fn immediate_success_beats_a_distant_deadline() {
    // The wrapped operation completes at once with 42 while the one-second
    // deadline is still pending: the success is forwarded, not a timeout.
    let r: Option<Result<u32, TimeoutError<String>>> = settle_race(Some(Ok(42)), None);
    assert_eq!(r, Some(Ok(42)));
}

#[test]
fn elapsed_deadline_beats_a_pending_operation() {
    // The wrapped operation never completes; the deadline elapses first.
    let r: Option<Result<u32, TimeoutError<String>>> = settle_race(None, Some(Ok(())));
    match r {
        Some(Err(e)) => {
            assert!(e.is_elapsed());
            assert!(!e.is_inner());
            assert!(!e.is_timer());
        }
        _ => panic!("the race should settle with a timeout error"),
    }
}

#[test]
fn inner_failure_is_forwarded_as_the_operation_s_own() {
    let r: Option<Result<u32, TimeoutError<&str>>> = settle_race(Some(Err("boom")), Some(Ok(())));
    assert_eq!(r, Some(Err(TimeoutError::Inner("boom"))));
    match r {
        Some(Err(e)) => {
            assert!(e.is_inner());
            assert_eq!(e.into_inner(), Some("boom"));
        }
        _ => panic!("the race should settle with the inner error"),
    }
}

#[test]
fn driver_fault_surfaces_through_the_timeout() {
    let r: Option<Result<u32, TimeoutError<u8>>> =
        settle_race(None, Some(Err(TimerError::Shutdown)));
    assert_eq!(r, Some(Err(TimeoutError::Timer(TimerError::Shutdown))));
    match r {
        Some(Err(e)) => {
            assert!(e.is_timer());
            assert_eq!(e.into_inner(), None);
        }
        _ => panic!("the race should settle with a driver fault"),
    }
}

#[test]
fn open_race_stays_open() {
    let r: Option<Result<u32, TimeoutError<u8>>> = settle_race(None, None);
    assert_eq!(r, None);
}

#[test]
fn last_drop_requests_shutdown_and_one_turn_terminates() {
    let mut s = LineageState::construct();
    assert_eq!(s.phase_of(), LineagePhase::Active);
    s.clone_handle();
    // Dropping one of two handles requests nothing.
    assert!(!s.drop_handle());
    assert_eq!(s.phase_of(), LineagePhase::Active);
    // Dropping the last handle issues the shutdown request.
    assert!(s.drop_handle());
    assert_eq!(s.phase_of(), LineagePhase::ShuttingDown);
    // The next completed turn observes it and terminates the driver.
    assert_eq!(s.driver_turn(TurnOutcome::Turned), DriverStep::Stop);
    assert_eq!(s.phase_of(), LineagePhase::Terminated);
}

#[test]
fn active_lineage_keeps_its_driver_running() {
    let mut s = LineageState::construct();
    s.clone_handle();
    assert_eq!(s.driver_turn(TurnOutcome::Turned), DriverStep::KeepRunning);
    assert_eq!(s.driver_turn(TurnOutcome::Turned), DriverStep::KeepRunning);
    assert_eq!(s.phase_of(), LineagePhase::Active);
}

#[test]
fn faulted_turn_terminates_an_active_lineage() {
    let mut s = LineageState::construct();
    assert_eq!(
        s.driver_turn(TurnOutcome::Faulted(TimerError::AtCapacity)),
        DriverStep::Fail(TimerError::AtCapacity)
    );
    assert_eq!(s.phase_of(), LineagePhase::Terminated);
}

#[test]
fn shutdown_channels_of_two_lineages_are_independent() {
    // A shutdown requested of one driver is never observed by another.
    let (tx_a, rx_a) = shutdown_channel();
    let (tx_b, rx_b) = shutdown_channel();
    assert!(request_shutdown(&tx_a));
    let (seen_b, step_b) = driver_step(TurnOutcome::Turned, &rx_b);
    assert_eq!(seen_b, ShutdownPoll::Empty);
    assert_eq!(step_b, DriverStep::KeepRunning);
    let (seen_a, step_a) = driver_step(TurnOutcome::Turned, &rx_a);
    assert_eq!(seen_a, ShutdownPoll::Received);
    assert_eq!(step_a, DriverStep::Stop);
    drop(tx_b);
}

#[test]
fn two_lineages_are_independent() {
    // Two constructions are two independent lineages: driving one to
    // termination moves nothing in the other.
    let mut a = LineageState::construct();
    let mut b = LineageState::construct();
    assert!(a.drop_handle());
    assert_eq!(a.driver_turn(TurnOutcome::Turned), DriverStep::Stop);
    assert_eq!(a.phase_of(), LineagePhase::Terminated);
    assert_eq!(b.phase_of(), LineagePhase::Active);
    assert_eq!(b.driver_turn(TurnOutcome::Turned), DriverStep::KeepRunning);
    assert_eq!(b.phase_of(), LineagePhase::Active);
}
