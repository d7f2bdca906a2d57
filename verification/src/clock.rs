//! Stopwatches: what a run is timed with.

use std::time::{Duration, Instant};
use vstd::prelude::*;

verus! {

/// A stopwatch.
pub trait Clock {
    /// Starts the stopwatch.
    fn start(&mut self);

    /// Stops the stopwatch and reads it, in milliseconds.
    fn stop(&mut self) -> u128;
}

/// `std::time::Instant`: a reading of the machine's monotonic clock, carried
/// as a value that nothing is known of.
#[verifier::external_type_specification]
#[verifier::external_body]
pub struct ExInstant(Instant);

/// `Instant::now` reads the machine's monotonic clock. Nothing is claimed of
/// the reading: it differs from call to call.
pub assume_specification[ Instant::now ]() -> (now: Instant);

/// `Instant::elapsed` gives the time that has passed since the instant was
/// read. Nothing is claimed of it: it depends on when it is asked for.
pub assume_specification[ Instant::elapsed ](start: &Instant) -> (elapsed: Duration);

/// `Duration::as_millis` gives the whole milliseconds in a duration. A
/// duration has no value that a contract could speak of, so nothing is
/// claimed of the number.
pub assume_specification[ Duration::as_millis ](duration: &Duration) -> (millis: u128);

/// A stopwatch over the machine's monotonic clock.
pub struct WallClock {
    started: Option<Instant>,
}

impl WallClock {
    /// Whether the stopwatch has been started and not stopped since.
    pub closed spec fn running(&self) -> bool {
        self.started is Some
    }

    /// A stopwatch that is not running.
    pub fn new() -> (clock: Self)
        ensures
            !clock.running(),
    {
        WallClock { started: None }
    }

    /// Whether the stopwatch has been started and not stopped since.
    pub fn is_running(&self) -> (running: bool)
        ensures
            running == self.running(),
    {
        self.started.is_some()
    }
}

impl Clock for WallClock {
    /// Starts the stopwatch, anew if it is running.
    fn start(&mut self)
        ensures
            final(self).running(),
    {
        self.started = Some(Instant::now());
    }

    /// Stops the stopwatch and reads the milliseconds since it was last
    /// started. A stopwatch that is not running reads `0`.
    fn stop(&mut self) -> (millis: u128)
        ensures
            !final(self).running(),
            !old(self).running() ==> millis == 0,
    {
        match self.started.take() {
            Some(start) => start.elapsed().as_millis(),
            None => 0,
        }
    }
}

} // verus!
