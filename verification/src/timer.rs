//! A frame timer over the platform's monotonic clock.
//!
//! The clock's values are opaque to the contracts: what time `now` returns
//! is the machine's business. The timer only carries instants and the
//! duration between the last two ticks.

use vstd::prelude::*;

verus! {

/// Relies on std::time::Instant: an opaque reading of the platform's
/// monotonic clock, carried through the timer without inspection.
#[verifier::external_type_specification]
#[verifier::external_body]
pub struct ExInstant(std::time::Instant);

/// Relies on std::time::Instant::now: a reading of the monotonic clock;
/// nothing is promised of the value.
pub assume_specification[ std::time::Instant::now ]() -> std::time::Instant;

/// Relies on Instant::saturating_duration_since: the elapsed time since
/// `earlier`, zero instead of a panic when `earlier` is the later instant.
pub assume_specification[ std::time::Instant::saturating_duration_since ](
    this: &std::time::Instant,
    earlier: std::time::Instant,
) -> std::time::Duration;

/// Relies on Duration::from_secs: a duration of whole seconds; it never
/// panics.
pub assume_specification[ std::time::Duration::from_secs ](secs: u64) -> std::time::Duration;

/// A frame timer: the instant of the last tick and the span between the
/// last two ticks.
pub struct Timer {
    pub last: std::time::Instant,
    pub delta_time: std::time::Duration,
}

impl Timer {
    /// A timer started now, with a zero delta.
    pub fn new() -> Timer {
        Timer { last: std::time::Instant::now(), delta_time: std::time::Duration::from_secs(0) }
    }

    /// Advances the timer: the delta becomes the span since the last tick.
    pub fn tick(&mut self)
    {
        let now = std::time::Instant::now();
        self.delta_time = now.saturating_duration_since(self.last);
        self.last = now;
    }

    /// The span between the last two ticks.
    pub fn delta_time(&self) -> (r: std::time::Duration)
        ensures
            r == self.delta_time,
    {
        self.delta_time
    }
}

} // verus!
