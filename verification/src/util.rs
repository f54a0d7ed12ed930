//! Timing.

use std::time::{Duration, Instant};
use vstd::prelude::*;

verus! {

/// A point in time, as the clock of the machine gives it.
#[verifier::external_type_specification]
#[verifier::external_body]
pub struct ExInstant(Instant);

/// What timing a piece of work gave.
#[derive(Debug)]
pub struct Timing {}

/// `Instant::now`: the present moment. Which one that is, nothing says.
#[verifier::external_body]
fn now() -> Instant {
    Instant::now()
}

/// `Instant::elapsed`: the time that has passed since `start`. How much that
/// is, nothing says.
#[verifier::external_body]
fn elapsed_since(start: &Instant) -> Duration {
    start.elapsed()
}

/// Runs `f`, and returns what it returned together with the time that it
/// took.
pub fn timed<U, F: FnOnce() -> U>(f: F) -> (out: (U, Duration))
    requires
        f.requires(()),
    ensures
        f.ensures((), out.0),
{
    let start = now();
    let out = f();
    let elapsed = elapsed_since(&start);
    (out, elapsed)
}

} // verus!
