//! A verified core for a minimal timer service.
//!
//! The service hands out cheaply cloned handles through which many tasks
//! register deadlines; a single background thread owns the deadline queue,
//! turns it with a bounded wait, and is the sole authority on when deadlines
//! have elapsed.  This crate verifies the coordination logic of that design:
//! the driver loop's continue/stop/fail decision, the shutdown protocol that
//! runs when the last handle is dropped, the deadline arithmetic, and the
//! race between a wrapped operation and its deadline.  Thread spawning,
//! parking and future polling live outside the verified core and consume it.

use vstd::prelude::*;

pub mod delay;
pub mod driver;
pub mod errors;
pub mod lineage;
pub mod race;

verus! {

/// The bounded wait, in milliseconds, of one turn of the driver loop.
///
/// The bound exists so the loop re-checks the shutdown signal periodically
/// even when no deadline is pending; it is also the worst-case latency
/// between a shutdown request and the driver observing it.
pub const TURN_WAIT_MS: u64 = 50;

} // verus!
