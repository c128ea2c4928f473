use crate::counter::{decremented, extended, CEILING_MS, HOUR_INCREMENT_IN_MS};
use crate::timer::TICK_AMOUNT_MS;
use vstd::prelude::*;

verus! {

/// The value left by `n` extensions of `by` in a row, starting from `v`.
pub open spec fn extend_times(v: int, by: int, n: nat) -> int
    decreases n,
{
    if n == 0 {
        v
    } else {
        extended(extend_times(v, by, (n - 1) as nat), by)
    }
}

/// An extension of `x` from `v` gives `v + x` where that stays within the
/// ceiling, and 0 where it goes beyond; either way the result is within the
/// ceiling.
pub proof fn lemma_extend_wraps(v: nat, x: nat)
    ensures
        v + x > CEILING_MS ==> extended(v as int, x as int) == 0,
        v + x <= CEILING_MS ==> extended(v as int, x as int) == v + x,
        0 <= extended(v as int, x as int) <= CEILING_MS,
{
}

/// A tick on a countdown at 0 leaves it at 0.
pub proof fn lemma_tick_at_zero(t: nat)
    ensures
        decremented(0, t as int) == 0,
{
}

/// A tick on a countdown above 0 takes `t` off where at least `t` remains, and
/// otherwise stops at 0: it never goes below 0.
pub proof fn lemma_tick_never_underflows(v: nat, t: nat)
    requires
        v > 0,
    ensures
        v >= t ==> decremented(v as int, t as int) == v - t,
        v < t ==> decremented(v as int, t as int) == 0,
        decremented(v as int, t as int) >= 0,
{
}

/// Extensions by one hour and decay ticks keep the countdown a whole number of
/// ticks, so a tick on a countdown above 0 always finds a whole tick to take
/// and the stop at 0 is never needed.
pub proof fn lemma_whole_ticks(v: nat)
    requires
        v % (TICK_AMOUNT_MS as nat) == 0,
    ensures
        extended(v as int, HOUR_INCREMENT_IN_MS as int) % (TICK_AMOUNT_MS as int) == 0,
        decremented(v as int, TICK_AMOUNT_MS as int) % (TICK_AMOUNT_MS as int) == 0,
        v > 0 ==> decremented(v as int, TICK_AMOUNT_MS as int) == v - TICK_AMOUNT_MS,
{
}

/// `n` extensions by one hour from 0, none going beyond the ceiling, leave
/// exactly `n` hours: no extension is lost.
pub proof fn lemma_extensions_accumulate(n: nat)
    requires
        n * (HOUR_INCREMENT_IN_MS as nat) <= CEILING_MS,
    ensures
        extend_times(0, HOUR_INCREMENT_IN_MS as int, n) == n * (HOUR_INCREMENT_IN_MS as nat),
    decreases n,
{
    if n > 0 {
        let m = (n - 1) as nat;
        assert(m * (HOUR_INCREMENT_IN_MS as nat) + HOUR_INCREMENT_IN_MS == n * (
        HOUR_INCREMENT_IN_MS as nat)) by (nonlinear_arith)
            requires
                m + 1 == n,
        ;
        lemma_extensions_accumulate(m);
    }
}

/// The value left by running `ops` in order from `v`: `true` is an extension
/// by one hour, `false` a decay tick.
pub open spec fn run_ops(v: int, ops: Seq<bool>) -> int
    decreases ops.len(),
{
    if ops.len() == 0 {
        v
    } else {
        let w = run_ops(v, ops.drop_last());
        if ops.last() {
            extended(w, HOUR_INCREMENT_IN_MS as int)
        } else {
            decremented(w, TICK_AMOUNT_MS as int)
        }
    }
}

/// How many of `ops` are extensions.
pub open spec fn extension_count(ops: Seq<bool>) -> nat
    decreases ops.len(),
{
    if ops.len() == 0 {
        0
    } else {
        extension_count(ops.drop_last()) + if ops.last() {
            1nat
        } else {
            0nat
        }
    }
}

/// How many of `ops` are decay ticks.
pub open spec fn tick_count(ops: Seq<bool>) -> nat
    decreases ops.len(),
{
    if ops.len() == 0 {
        0
    } else {
        tick_count(ops.drop_last()) + if ops.last() {
            0nat
        } else {
            1nat
        }
    }
}

/// The `i`-th of `ops`, run after those before it, stays within the ceiling
/// where it is an extension and finds at least one whole tick where it is a
/// tick.
pub open spec fn step_without_reset(v: int, ops: Seq<bool>, i: int) -> bool {
    let w = run_ops(v, ops.take(i));
    if ops[i] {
        w + HOUR_INCREMENT_IN_MS <= CEILING_MS
    } else {
        w >= TICK_AMOUNT_MS
    }
}

/// Extensions and ticks in any order, where no extension goes beyond the
/// ceiling and every tick finds at least one whole tick, leave the start plus
/// one hour per extension minus one tick per tick: no update is lost.
pub proof fn lemma_interleaving_adds_up(v: int, ops: Seq<bool>)
    requires
        forall|i: int| 0 <= i < ops.len() ==> #[trigger] step_without_reset(v, ops, i),
    ensures
        run_ops(v, ops) == v + extension_count(ops) * (HOUR_INCREMENT_IN_MS as int)
            - tick_count(ops) * (TICK_AMOUNT_MS as int),
    decreases ops.len(),
{
    if ops.len() > 0 {
        let front = ops.drop_last();
        assert forall|i: int| 0 <= i < front.len() implies #[trigger] step_without_reset(
            v,
            front,
            i,
        ) by {
            assert(front.take(i) =~= ops.take(i));
            assert(step_without_reset(v, ops, i));
        }
        lemma_interleaving_adds_up(v, front);
        let last = ops.len() - 1;
        assert(ops.take(last) =~= front);
        assert(step_without_reset(v, ops, last));
    }
}

} // verus!
