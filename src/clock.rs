use vstd::prelude::*;

verus! {

/// A repeating timer: it accumulates elapsed milliseconds and fires each
/// time the accumulated time reaches its interval, keeping the remainder.
pub struct Clock {
    pub interval_ms: u64,
    pub elapsed_ms: u64,
}

/// Whether a tick of `dt` fires a clock that has accumulated `elapsed`.
pub open spec fn fires(elapsed: int, interval: int, dt: int) -> bool {
    elapsed + dt >= interval
}

/// What a clock has accumulated after a tick of `dt`.
pub open spec fn carried(elapsed: int, interval: int, dt: int) -> int {
    (elapsed + dt) % interval
}

impl Clock {
    pub open spec fn wf(self) -> bool {
        0 < self.interval_ms && self.elapsed_ms < self.interval_ms
    }

    /// A clock with nothing accumulated yet. An interval of zero is taken
    /// as one millisecond.
    pub fn new(interval_ms: u64) -> (c: Clock)
        ensures
            c.wf(),
            c.elapsed_ms == 0,
            c.interval_ms == if interval_ms == 0 { 1 } else { interval_ms },
    {
        let interval_ms = if interval_ms == 0 { 1 } else { interval_ms };
        Clock { interval_ms, elapsed_ms: 0 }
    }

    /// Advances the clock by `dt_ms`; returns whether it fired.
    pub fn tick(&mut self, dt_ms: u64) -> (fired: bool)
        requires
            old(self).wf(),
        ensures
            final(self).wf(),
            final(self).interval_ms == old(self).interval_ms,
            fired == fires(old(self).elapsed_ms as int, old(self).interval_ms as int, dt_ms as int),
            final(self).elapsed_ms == carried(
                old(self).elapsed_ms as int,
                old(self).interval_ms as int,
                dt_ms as int,
            ),
    {
        let total: u128 = self.elapsed_ms as u128 + dt_ms as u128;
        let interval: u128 = self.interval_ms as u128;
        let rest: u128 = total % interval;
        self.elapsed_ms = rest as u64;
        total >= interval
    }
}

} // verus!
