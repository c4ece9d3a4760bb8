//! Power-of-two steps on the integer timebase.

use vstd::prelude::*;
use vstd::arithmetic::div_mod::{lemma_fundamental_div_mod, lemma_mod_multiples_basic};
use vstd::arithmetic::power2::{
    lemma2_to64, lemma2_to64_rest, lemma_pow2_adds, lemma_pow2_pos, lemma_pow2_strictly_increases,
    lemma_pow2_unfold, pow2,
};

verus! {

/// The number of integer ticks between the two ends of a timeline, two to the sixtieth.
pub const LEGACY_TIMEBASE_TICKS: u64 = 0x1000_0000_0000_0000;

/// Whether `pow2(bin)` ticks divide `tick`.
pub open spec fn bin_synchronized(tick: int, bin: nat) -> bool {
    tick % (pow2(bin) as int) == 0
}

/// Whether `bin` is the largest bin whose step is at most `cap` and divides `tick`.
pub open spec fn is_largest_bin(tick: int, cap: int, bin: nat) -> bool {
    &&& pow2(bin) <= cap
    &&& bin_synchronized(tick, bin)
    &&& forall|larger: nat|
        bin < larger && #[trigger] pow2(larger) <= cap ==> !bin_synchronized(tick, larger)
}

/// A step of a smaller bin divides whatever a step of a larger bin divides.
pub proof fn lemma_smaller_bin_synchronized(tick: int, bin: nat, larger: nat)
    requires
        bin <= larger,
        bin_synchronized(tick, larger),
    ensures
        bin_synchronized(tick, bin),
{
    lemma_pow2_pos(bin);
    lemma_pow2_pos(larger);
    let gap = (larger - bin) as nat;
    lemma_pow2_adds(bin, gap);
    let quotient = tick / (pow2(larger) as int);
    lemma_fundamental_div_mod(tick, pow2(larger) as int);
    assert(tick == (quotient * pow2(gap)) * pow2(bin)) by (nonlinear_arith)
        requires
            tick == pow2(larger) * quotient,
            pow2(larger) == pow2(bin) * pow2(gap),
    ;
    lemma_mod_multiples_basic(quotient * pow2(gap), pow2(bin) as int);
}

/// Every bin below sixty divides the timebase.
pub proof fn lemma_timebase_synchronized(bin: nat)
    requires
        bin <= 60,
    ensures
        bin_synchronized(LEGACY_TIMEBASE_TICKS as int, bin),
        pow2(bin) <= LEGACY_TIMEBASE_TICKS,
        pow2(60) == LEGACY_TIMEBASE_TICKS,
{
    lemma2_to64_rest();
    lemma_pow2_pos(60);
    vstd::arithmetic::div_mod::lemma_mod_self_0(pow2(60) as int);
    lemma_smaller_bin_synchronized(LEGACY_TIMEBASE_TICKS as int, bin, 60);
    if bin < 60 {
        lemma_pow2_strictly_increases(bin, 60);
    }
}

/// The first multiple of `step` after `tick`.
pub open spec fn endpoint(tick: int, step: int) -> int {
    (tick / step + 1) * step
}

/// The endpoint of a bin is the least of its multiples beyond `tick`, and stays on the
/// timeline.
pub proof fn lemma_endpoint(tick: int, bin: nat)
    requires
        0 <= tick < LEGACY_TIMEBASE_TICKS,
        bin <= 60,
    ensures
        tick < endpoint(tick, pow2(bin) as int) <= LEGACY_TIMEBASE_TICKS,
        endpoint(tick, pow2(bin) as int) <= tick + pow2(bin),
        bin_synchronized(endpoint(tick, pow2(bin) as int), bin),
        bin_synchronized(tick, bin) ==> endpoint(tick, pow2(bin) as int) == tick + pow2(bin),
        forall|later: int|
            tick < later && #[trigger] bin_synchronized(later, bin) ==> endpoint(
                tick,
                pow2(bin) as int,
            ) <= later,
{
    let step = pow2(bin) as int;
    lemma_pow2_pos(bin);
    lemma_timebase_synchronized(bin);
    let quotient = tick / step;
    lemma_fundamental_div_mod(tick, step);
    assert(endpoint(tick, step) == quotient * step + step) by (nonlinear_arith)
        requires
            endpoint(tick, step) == (quotient + 1) * step,
    ;
    assert(quotient * step == step * quotient) by (nonlinear_arith);
    lemma_mod_multiples_basic(quotient + 1, step);
    assert forall|later: int| tick < later && #[trigger] bin_synchronized(later, bin) implies endpoint(
        tick,
        step,
    ) <= later by {
        lemma_fundamental_div_mod(later, step);
        let other = later / step;
        assert(quotient + 1 <= other) by (nonlinear_arith)
            requires
                step * quotient <= tick,
                tick < later,
                later == step * other,
                step > 0,
        ;
        assert((quotient + 1) * step <= other * step) by (nonlinear_arith)
            requires
                quotient + 1 <= other,
                step > 0,
        ;
        assert(other * step == step * other) by (nonlinear_arith);
    }
}

/// Every tick reached from an even tick by steps of at least two ticks is even.
pub proof fn lemma_synchronized_even(tick: int, bin: nat)
    requires
        bin >= 1,
        bin_synchronized(tick, bin),
    ensures
        tick % 2 == 0,
{
    lemma_smaller_bin_synchronized(tick, 1, bin);
    lemma2_to64();
}

/// The largest power of two that is at most `cap` and divides `tick`, with its bin.
pub fn synchronized_floor(tick: u64, cap: u64) -> (result: (u64, u8))
    requires
        cap >= 1,
    ensures
        result.1 < 64,
        result.0 == pow2(result.1 as nat),
        is_largest_bin(tick as int, cap as int, result.1 as nat),
        1 <= result.0 <= cap,
        tick as int % result.0 as int == 0,
{
    let mut step: u64 = 1;
    let mut bin: u8 = 0;
    proof {
        lemma2_to64();
    }
    while step <= cap / 2
        invariant
            bin < 64,
            step == pow2(bin as nat),
            step <= cap,
        decreases cap - step,
    {
        proof {
            lemma2_to64();
            lemma2_to64_rest();
            lemma_pow2_unfold((bin + 1) as nat);
            if bin >= 63 {
                if bin > 63 {
                    lemma_pow2_strictly_increases(63, bin as nat);
                }
                assert(false);
            }
        }
        step = step * 2;
        bin = bin + 1;
    }
    proof {
        assert forall|larger: nat| bin < larger implies #[trigger] pow2(larger) > cap by {
            lemma_pow2_unfold((bin + 1) as nat);
            if larger > bin + 1 {
                lemma_pow2_strictly_increases((bin + 1) as nat, larger);
            }
        }
    }
    while tick % step != 0
        invariant
            bin < 64,
            step == pow2(bin as nat),
            step >= 1,
            step <= cap,
            forall|larger: nat|
                bin < larger && #[trigger] pow2(larger) <= cap ==> !bin_synchronized(
                    tick as int,
                    larger,
                ),
        decreases bin,
    {
        proof {
            lemma2_to64();
            if bin == 0 {
                assert(tick % 1 == 0);
                assert(false);
            }
            lemma_pow2_unfold(bin as nat);
            lemma_pow2_pos((bin - 1) as nat);
            assert(!bin_synchronized(tick as int, bin as nat));
            assert forall|larger: nat| bin - 1 < larger && #[trigger] pow2(larger)
                <= cap implies !bin_synchronized(tick as int, larger) by {
                if larger > bin {
                }
            }
        }
        step = step / 2;
        bin = bin - 1;
    }
    (step, bin)
}

/// The bin of a power-of-two step: the number of trailing zero bits.
pub fn bin_for_step(step: u64) -> (result: u8)
    ensures
        step == 0 ==> result == 64,
        step != 0 ==> result < 64 && bin_synchronized(step as int, result as nat)
            && !bin_synchronized(step as int, (result + 1) as nat),
        forall|bin: nat| bin < 64 && step == #[trigger] pow2(bin) ==> result == bin,
{
    if step == 0 {
        proof {
            assert forall|bin: nat| bin < 64 && step == #[trigger] pow2(bin) implies false by {
                lemma_pow2_pos(bin);
            }
        }
        return 64;
    }
    let mut rest: u64 = step;
    let mut bin: u8 = 0;
    proof {
        lemma2_to64();
        assert(step % 1 == 0);
    }
    while rest % 2 == 0
        invariant
            bin < 64,
            rest >= 1,
            step == rest * pow2(bin as nat),
        decreases rest,
    {
        proof {
            lemma_pow2_unfold((bin + 1) as nat);
            let half = (rest / 2) as int;
            assert(rest == 2 * half);
            assert(step == half * pow2((bin + 1) as nat)) by (nonlinear_arith)
                requires
                    step == rest * pow2(bin as nat),
                    rest == 2 * half,
                    pow2((bin + 1) as nat) == 2 * pow2(bin as nat),
            ;
            lemma2_to64_rest();
            if bin == 63 {
                assert(half * pow2(64) >= pow2(64)) by (nonlinear_arith)
                    requires
                        half >= 1,
                ;
                assert(false);
            }
        }
        rest = rest / 2;
        bin = bin + 1;
    }
    proof {
        lemma_trailing_bin(step as int, rest as int, bin as nat);
    }
    bin
}

proof fn lemma_trailing_bin(step: int, rest: int, bin: nat)
    requires
        rest % 2 == 1,
        rest >= 1,
        step == rest * pow2(bin),
    ensures
        bin_synchronized(step, bin),
        !bin_synchronized(step, bin + 1),
        forall|other: nat| step == #[trigger] pow2(other) ==> other == bin,
{
    lemma_pow2_pos(bin);
    lemma_mod_multiples_basic(rest, pow2(bin) as int);
    lemma_pow2_unfold(bin + 1);
    if bin_synchronized(step, bin + 1) {
        lemma_pow2_pos(bin + 1);
        lemma_fundamental_div_mod(step, pow2(bin + 1) as int);
        let quotient = step / (pow2(bin + 1) as int);
        assert(rest == 2 * quotient) by (nonlinear_arith)
            requires
                rest * pow2(bin) == (2 * pow2(bin)) * quotient,
                pow2(bin) > 0,
        ;
        assert(false);
    }
    assert forall|other: nat| step == #[trigger] pow2(other) implies other == bin by {
        lemma_pow2_pos(other);
        vstd::arithmetic::div_mod::lemma_mod_self_0(pow2(other) as int);
        if other > bin {
            lemma_smaller_bin_synchronized(step, bin + 1, other);
        }
        if other < bin {
            lemma_pow2_strictly_increases(other, bin);
            assert(rest * pow2(bin) >= pow2(bin)) by (nonlinear_arith)
                requires
                    rest >= 1,
                    pow2(bin) > 0,
            ;
        }
    }
}

/// The timeline holds two to the sixtieth ticks, so every bin up to the sixtieth ends at its
/// last tick.
pub proof fn law_timebase(bin: nat)
    ensures
        LEGACY_TIMEBASE_TICKS == pow2(60),
        bin <= 60 ==> bin_synchronized(LEGACY_TIMEBASE_TICKS as int, bin),
{
    lemma2_to64_rest();
    if bin <= 60 {
        lemma_timebase_synchronized(bin);
    }
}

/// A bin is synchronized exactly at the multiples of its step.
pub proof fn law_synchronized_ticks(tick: int, bin: nat, count: int)
    ensures
        tick == count * pow2(bin) ==> bin_synchronized(tick, bin),
        bin_synchronized(tick, bin) ==> tick == (tick / (pow2(bin) as int)) * pow2(bin),
        bin_synchronized(0, bin),
        bin_synchronized(tick, 0),
{
    lemma_pow2_pos(bin);
    lemma2_to64();
    let step = pow2(bin) as int;
    lemma_fundamental_div_mod(tick, step);
    lemma_mod_multiples_basic(count, step);
    assert(step * (tick / step) == (tick / step) * step) by (nonlinear_arith);
}

/// The largest bin within a limit is the only one: its step is within the limit and divides
/// the tick, and every other such step is smaller.
pub proof fn law_largest_bin_is_unique(tick: int, cap: int, bin: nat, other: nat)
    requires
        is_largest_bin(tick, cap, bin),
        pow2(other) <= cap,
        bin_synchronized(tick, other),
    ensures
        other <= bin,
        pow2(bin) <= cap,
        bin_synchronized(tick, bin),
{
}

/// The end of a step is the first of its multiples past the tick.
pub proof fn law_endpoint_is_the_next_multiple(tick: int, step: int, multiple: int)
    requires
        step > 0,
        multiple * step > tick,
    ensures
        tick < endpoint(tick, step) <= tick + step,
        endpoint(tick, step) % step == 0,
        endpoint(tick, step) <= multiple * step,
{
    lemma_fundamental_div_mod(tick, step);
    lemma_mod_multiples_basic(tick / step + 1, step);
    assert((tick / step + 1) * step == step * (tick / step) + step) by (nonlinear_arith);
    if multiple < tick / step + 1 {
        assert(multiple * step <= (tick / step) * step) by (nonlinear_arith)
            requires
                multiple <= tick / step,
                step > 0,
        ;
        assert(step * (tick / step) == (tick / step) * step) by (nonlinear_arith);
    } else {
        assert((tick / step + 1) * step <= multiple * step) by (nonlinear_arith)
            requires
                tick / step + 1 <= multiple,
                step > 0,
        ;
    }
}

} // verus!
