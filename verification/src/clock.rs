use vstd::prelude::*;

verus! {

/// How many milliseconds a tick count stands for: `ticks * 1000 / ticks_per_second`,
/// truncating.
pub open spec fn spec_millis_from_ticks(ticks: u64, ticks_per_second: u64) -> int
    recommends
        ticks_per_second > 0,
{
    (ticks as int) * 1000 / (ticks_per_second as int)
}

/// Converts a hardware tick count to milliseconds, truncating. The
/// intermediate product is computed in 128-bit arithmetic so it cannot wrap.
pub fn millis_from_ticks(ticks: u64, ticks_per_second: u64) -> (ms: u64)
    requires
        ticks_per_second > 0,
        spec_millis_from_ticks(ticks, ticks_per_second) <= u64::MAX,
    ensures
        ms == spec_millis_from_ticks(ticks, ticks_per_second),
{
    let wide: u128 = (ticks as u128) * 1000 / (ticks_per_second as u128);
    wide as u64
}

/// A source of millisecond timestamps for the stack's poll entry point.
/// Successive readings never go backwards.
pub trait Clock {
    /// The most recent reading. Unspecified unless the implementation says
    /// otherwise; implementations outside the verifier's reach leave it at
    /// that.
    open spec fn last_ms(&self) -> u64 {
        arbitrary()
    }

    /// Reads the current time in milliseconds.
    fn now_ms(&mut self) -> (ms: u64)
        ensures
            ms >= old(self).last_ms(),
            final(self).last_ms() == ms,
    ;
}

} // verus!
