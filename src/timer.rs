use crate::counter::{decremented, extended, CountdownCounter, HOUR_INCREMENT_IN_MS};
use crate::status::{decimal, decimal_text, format_status, status_text};
use vstd::prelude::*;

verus! {

/// Seconds between two decay ticks.
pub const TICK_INTERVAL_SECS: u64 = 10;

/// What one decay tick takes off the countdown: the interval in milliseconds.
pub const TICK_AMOUNT_MS: u64 = 10000;

/// `POST /timer`: extends the countdown by one hour, or resets it to 0 where
/// that would go beyond the ceiling, and answers with the new remaining time
/// in decimal milliseconds.
pub fn add_timer(counter: &mut CountdownCounter) -> (r: String)
    requires
        old(counter).wf(),
    ensures
        final(counter).wf(),
        final(counter).remaining_ms == extended(
            old(counter).remaining_ms as int,
            HOUR_INCREMENT_IN_MS as int,
        ),
        r@ == decimal(final(counter).remaining_ms as nat),
{
    let count = counter.extend(HOUR_INCREMENT_IN_MS);
    decimal_text(count)
}

/// `GET /timer`: the remaining time, in decimal milliseconds.
pub fn timer(counter: &CountdownCounter) -> (r: String)
    ensures
        r@ == decimal(counter.remaining_ms as nat),
{
    decimal_text(counter.load())
}

/// One wake-up of the decay loop: takes one tick off the countdown and
/// returns the status text for the new remaining time.
pub fn decay_tick(counter: &mut CountdownCounter) -> (r: String)
    requires
        old(counter).wf(),
    ensures
        final(counter).wf(),
        final(counter).remaining_ms == decremented(
            old(counter).remaining_ms as int,
            TICK_AMOUNT_MS as int,
        ),
        r@ == status_text(final(counter).remaining_ms as nat),
{
    let remaining = counter.tick_decrement(TICK_AMOUNT_MS);
    format_status(remaining)
}

} // verus!
