use vstd::prelude::*;
use std::time::{Duration, Instant};

verus! {

#[verifier::external_type_specification]
#[verifier::external_body]
pub struct ExInstant(Instant);

/// Relies on `Instant::now`: a reading of the monotonic clock, of which
/// nothing is promised here.
pub assume_specification[ Instant::now ]() -> Instant;

/// Relies on `Instant::elapsed`: the time since the reading, of which nothing
/// is promised here.
pub assume_specification[ Instant::elapsed ](start: &Instant) -> Duration;

/// Measures how long one named operation takes, from its creation on.
pub struct Timer {
    function: &'static str,
    start: Instant,
}

impl Timer {
    /// The name of the operation timed.
    pub closed spec fn name(&self) -> Seq<char> {
        self.function@
    }

    /// Starts timing the operation named `function`.
    pub fn new(function: &'static str) -> (r: Timer)
        ensures
            r.name() == function@,
    {
        let start = Instant::now();
        Timer { function, start }
    }

    pub fn function(&self) -> (r: &'static str)
        ensures
            r@ == self.name(),
    {
        self.function
    }

    /// The time since the timer started.
    pub fn elapsed(&self) -> Duration {
        self.start.elapsed()
    }
}

} // verus!
