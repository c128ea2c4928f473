use vstd::prelude::*;

verus! {

/// One extension of the countdown: one hour, in milliseconds.
pub const HOUR_INCREMENT_IN_MS: u64 = 3600000;

/// The largest remaining time the countdown may hold: six hours.
pub const CEILING_MS: u64 = 21600000;

/// The remaining time after adding `by` to `v`: the sum, or 0 once the sum
/// goes beyond the ceiling.
pub open spec fn extended(v: int, by: int) -> int {
    if v + by > CEILING_MS {
        0
    } else {
        v + by
    }
}

/// The remaining time after one decay tick of `by` from `v`: 0 stays 0, and
/// a tick larger than what is left stops at 0 rather than going below it.
pub open spec fn decremented(v: int, by: int) -> int {
    if v == 0 {
        0
    } else if v >= by {
        v - by
    } else {
        0
    }
}

/// Whether adding `by` to `v` goes beyond the ceiling.
pub fn exceeds_ceiling(v: u64, by: u64) -> (r: bool)
    ensures
        r == (v + by > CEILING_MS),
{
    by > CEILING_MS || v > CEILING_MS - by
}

/// The value that an extension by `by` leaves when it finds `v`.
pub fn extend_value(v: u64, by: u64) -> (r: u64)
    ensures
        r == extended(v as int, by as int),
{
    if exceeds_ceiling(v, by) {
        0
    } else {
        v + by
    }
}

/// The value that a decay tick of `by` leaves when it finds `v`.
pub fn decrement_value(v: u64, by: u64) -> (r: u64)
    ensures
        r == decremented(v as int, by as int),
{
    if v == 0 {
        0
    } else if v >= by {
        v - by
    } else {
        0
    }
}


/// The countdown: the remaining time in milliseconds, which never goes beyond
/// the ceiling. Request handlers and the decay loop share one instance behind
/// a lock, so that an extension and its ceiling check happen as one step and
/// a tick can never take the count below 0.
pub struct CountdownCounter {
    pub remaining_ms: u64,
}

impl CountdownCounter {
    pub open spec fn wf(&self) -> bool {
        self.remaining_ms <= CEILING_MS
    }

    /// A countdown with no time remaining.
    pub fn new() -> (r: CountdownCounter)
        ensures
            r.wf(),
            r.remaining_ms == 0,
    {
        CountdownCounter { remaining_ms: 0 }
    }

    /// Adds `by` and returns the new remaining time, which is 0 where the sum
    /// would go beyond the ceiling.
    pub fn extend(&mut self, by: u64) -> (r: u64)
        requires
            old(self).wf(),
        ensures
            final(self).wf(),
            r == extended(old(self).remaining_ms as int, by as int),
            final(self).remaining_ms == r,
    {
        self.remaining_ms = extend_value(self.remaining_ms, by);
        self.remaining_ms
    }

    /// The remaining time; nothing changes.
    pub fn load(&self) -> (r: u64)
        ensures
            r == self.remaining_ms,
    {
        self.remaining_ms
    }

    /// Takes `by` off a remaining time that is not 0, stopping at 0, and
    /// returns the new remaining time.
    pub fn tick_decrement(&mut self, by: u64) -> (r: u64)
        requires
            old(self).wf(),
        ensures
            final(self).wf(),
            r == decremented(old(self).remaining_ms as int, by as int),
            final(self).remaining_ms == r,
    {
        self.remaining_ms = decrement_value(self.remaining_ms, by);
        self.remaining_ms
    }
}

} // verus!
