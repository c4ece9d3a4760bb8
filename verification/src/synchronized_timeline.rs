//! Integer power-of-two timeline of the synchronized integration mode.

use vstd::prelude::*;
use vstd::arithmetic::power2::{lemma2_to64, lemma_pow2_pos, lemma_pow2_strictly_increases, pow2};

use crate::binary64::Binary64;
use crate::hydro_error::HydroError;
use crate::ticks::{synchronized_floor, LEGACY_TIMEBASE_TICKS};

verus! {

use crate::binary64::TWO_BITS;
use crate::individual_timeline::valid_span;
use crate::ticks::{bin_synchronized, is_largest_bin, lemma_timebase_synchronized};

/// A synchronized timeline: its two ends and the current tick.
#[derive(Clone, Copy, Debug, PartialEq, Eq, Structural)]
pub struct SynchronizedTimeline1d {
    time_begin: Binary64,
    time_max: Binary64,
    current_tick: u64,
}

/// A synchronized step with its physical duration and end.
#[derive(Clone, Copy, Debug, PartialEq, Eq, Structural)]
pub struct SynchronizedStep1d {
    pub ticks: u64,
    pub duration: Binary64,
    pub end_time: Binary64,
}

/// The ticks still ahead.
pub open spec fn remaining_ticks(tick: int) -> int {
    LEGACY_TIMEBASE_TICKS - tick
}

/// The smaller of a request and what remains.
pub open spec fn capped_request(tick: int, requested_ticks: Binary64) -> int {
    if requested_ticks.truncated() < remaining_ticks(tick) {
        requested_ticks.truncated()
    } else {
        remaining_ticks(tick)
    }
}

/// Whether a number of ticks is a synchronized step that stays on the timeline.
pub open spec fn admissible_ticks(tick: int, ticks: int) -> bool {
    &&& exists|bin: nat| #[trigger] pow2(bin) == ticks && bin_synchronized(tick, bin)
    &&& ticks <= remaining_ticks(tick)
}

impl SynchronizedTimeline1d {
    /// The physical time of tick zero.
    pub closed spec fn begin(self) -> Binary64 {
        self.time_begin
    }

    /// The physical time of the last tick.
    pub closed spec fn max(self) -> Binary64 {
        self.time_max
    }

    /// The current tick.
    pub closed spec fn tick(self) -> int {
        self.current_tick as int
    }

    /// The invariant of every timeline.
    pub open spec fn wf(self) -> bool {
        valid_span(self.begin(), self.max()) && 0 <= self.tick() <= LEGACY_TIMEBASE_TICKS
    }

    /// A timeline at its initial time.
    pub fn new(time_begin: Binary64, time_max: Binary64) -> (result: Result<Self, HydroError>)
        ensures
            match result {
                Ok(timeline) => {
                    &&& valid_span(time_begin, time_max)
                    &&& timeline.wf()
                    &&& timeline.begin() == time_begin
                    &&& timeline.max() == time_max
                    &&& timeline.tick() == 0
                },
                Err(error) => {
                    &&& !valid_span(time_begin, time_max)
                    &&& error == (HydroError::InvalidRiemannParameter {
                        field: "timeline",
                        value: time_max,
                    })
                },
            },
            result is Ok <==> time_begin.finite() && time_max.finite() && time_begin.lt(time_max),
    {
        if !time_begin.is_finite() || !time_max.is_finite() || time_max.at_most(time_begin) {
            return Err(HydroError::InvalidRiemannParameter { field: "timeline", value: time_max });
        }
        Ok(SynchronizedTimeline1d { time_begin, time_max, current_tick: 0 })
    }

    /// The physical time of tick zero.
    pub fn time_begin(self) -> (result: Binary64)
        ensures
            result == self.begin(),
    {
        self.time_begin
    }

    /// The physical time of the last tick.
    pub fn time_max(self) -> (result: Binary64)
        ensures
            result == self.max(),
    {
        self.time_max
    }

    /// The current tick.
    pub fn current_tick(self) -> (result: u64)
        ensures
            result == self.tick(),
    {
        self.current_tick
    }

    /// Whether the timeline has reached its end.
    pub fn is_finished(self) -> (result: bool)
        ensures
            result == (self.tick() >= LEGACY_TIMEBASE_TICKS),
            self.wf() ==> (!result <==> remaining_ticks(self.tick()) > 0),
    {
        self.current_tick >= LEGACY_TIMEBASE_TICKS
    }

    /// Quantize a physical bound to the largest synchronized power-of-two number of ticks
    /// that does not cross the end of the timeline.
    ///
    /// `requested_ticks` is the smaller of the two timesteps divided by the tick duration,
    /// rounded down.
    pub fn select_step(
        self,
        desired_timestep: Binary64,
        maximum_timestep: Binary64,
        requested_ticks: Binary64,
    ) -> (result: Result<u64, HydroError>)
        requires
            self.wf(),
        ensures
            match result {
                Ok(ticks) => {
                    &&& self.tick() < LEGACY_TIMEBASE_TICKS
                    &&& desired_timestep.positive()
                    &&& maximum_timestep.positive()
                    &&& requested_ticks.finite()
                    &&& requested_ticks.rank() >= TWO_BITS
                    &&& exists|bin: nat|
                        ticks == #[trigger] pow2(bin) && is_largest_bin(
                            self.tick(),
                            capped_request(self.tick(), requested_ticks),
                            bin,
                        )
                },
                Err(error) => if self.tick() >= LEGACY_TIMEBASE_TICKS
                    || !desired_timestep.positive() || !maximum_timestep.positive() {
                    error == (HydroError::InvalidRiemannParameter {
                        field: "timeline_timestep",
                        value: desired_timestep,
                    })
                } else {
                    &&& !requested_ticks.finite() || requested_ticks.rank() < TWO_BITS
                    &&& error == (HydroError::InvalidRiemannParameter {
                        field: "timeline_ticks",
                        value: requested_ticks,
                    })
                },
            },
            result matches Ok(ticks) ==> 0 < ticks && self.tick() % (ticks as int) == 0 && self.tick()
                + ticks <= LEGACY_TIMEBASE_TICKS && ticks <= requested_ticks.truncated(),
    {
        if self.is_finished() || !desired_timestep.is_positive() || !maximum_timestep.is_positive() {
            return Err(
                HydroError::InvalidRiemannParameter {
                    field: "timeline_timestep",
                    value: desired_timestep,
                },
            );
        }
        let two: Binary64 = Binary64 { bits: TWO_BITS };
        if !requested_ticks.is_finite() || requested_ticks.less(two) {
            return Err(
                HydroError::InvalidRiemannParameter {
                    field: "timeline_ticks",
                    value: requested_ticks,
                },
            );
        }
        let remaining: u64 = LEGACY_TIMEBASE_TICKS - self.current_tick;
        let whole: u64 = requested_ticks.to_u64();
        let cap: u64 = if whole < remaining {
            whole
        } else {
            remaining
        };
        proof {
            lemma_at_least_two(requested_ticks);
        }
        let step: (u64, u8) = synchronized_floor(self.current_tick, cap);
        Ok(step.0)
    }

    /// Commit a previously selected step.
    ///
    /// `duration` and `end_time` are what the number of ticks comes to on this timeline.
    pub fn advance(
        &mut self,
        step: SynchronizedStep1d,
        duration: Binary64,
        end_time: Binary64,
    ) -> (result: Result<(), HydroError>)
        requires
            old(self).wf(),
        ensures
            final(self).wf(),
            final(self).begin() == old(self).begin(),
            final(self).max() == old(self).max(),
            result is Ok <==> admissible_ticks(old(self).tick(), step.ticks as int)
                && step.duration.same(duration) && step.end_time.same(end_time),
            match result {
                Ok(_) => final(self).tick() == old(self).tick() + step.ticks,
                Err(error) => {
                    &&& *final(self) == *old(self)
                    &&& error == (HydroError::InvalidRiemannParameter {
                        field: "timeline_step",
                        value: step.duration,
                    })
                },
            },
            final(self).tick() >= old(self).tick(),
            step.ticks == 0 || step.ticks > LEGACY_TIMEBASE_TICKS - old(self).tick() ==> result is Err,
    {
        let remaining: u64 = LEGACY_TIMEBASE_TICKS - self.current_tick;
        let mut admissible: bool = false;
        if step.ticks != 0 {
            let floor: (u64, u8) = synchronized_floor(self.current_tick, step.ticks);
            admissible = floor.0 == step.ticks && step.ticks <= remaining;
            proof {
                lemma_admissible(self.current_tick as int, step.ticks as int, floor.1 as nat);
            }
        } else {
            proof {
                assert forall|bin: nat| #[trigger] pow2(bin) != 0 by {
                    lemma_pow2_pos(bin);
                }
            }
        }
        if !admissible || !step.duration.equals(duration) || !step.end_time.equals(end_time) {
            return Err(
                HydroError::InvalidRiemannParameter {
                    field: "timeline_step",
                    value: step.duration,
                },
            );
        }
        self.current_tick = self.current_tick + step.ticks;
        Ok(())
    }
}

proof fn lemma_at_least_two(value: Binary64)
    requires
        value.finite(),
        value.rank() >= TWO_BITS,
    ensures
        value.truncated() >= 2,
{
    lemma2_to64();
    let exponent = value.exponent();
    let significand = value.significand();
    if exponent < 1075 {
        let shift = (1075 - exponent) as nat;
        assert(exponent >= 1024);
        assert(shift <= 51);
        vstd::arithmetic::power2::lemma2_to64_rest();
        if shift < 51 {
            lemma_pow2_strictly_increases(shift, 51);
        }
        lemma_pow2_pos(shift);
        assert(significand / (pow2(shift) as int) >= 2) by (nonlinear_arith)
            requires
                significand >= 2 * pow2(51),
                0 < pow2(shift) <= pow2(51),
        ;
    } else {
        lemma_pow2_pos((exponent - 1075) as nat);
        assert(significand * pow2((exponent - 1075) as nat) >= significand) by (nonlinear_arith)
            requires
                pow2((exponent - 1075) as nat) >= 1,
                significand >= 0,
        ;
    }
}

proof fn lemma_admissible(tick: int, ticks: int, floor: nat)
    requires
        ticks > 0,
        is_largest_bin(tick, ticks, floor),
    ensures
        pow2(floor) == ticks <==> exists|bin: nat| #[trigger]
            pow2(bin) == ticks && bin_synchronized(tick, bin),
{
    if exists|bin: nat| #[trigger] pow2(bin) == ticks && bin_synchronized(tick, bin) {
        let bin = choose|bin: nat| #[trigger] pow2(bin) == ticks && bin_synchronized(tick, bin);
        if floor < bin {
            assert(pow2(bin) <= ticks);
        }
        if bin < floor {
            lemma_pow2_strictly_increases(bin, floor);
        }
    }
}

/// A selected number of ticks is always admissible: the step that it gives can be
/// committed.
pub proof fn law_selected_steps_are_admissible(tick: int, requested_ticks: Binary64, bin: nat)
    requires
        0 <= tick < LEGACY_TIMEBASE_TICKS,
        is_largest_bin(tick, capped_request(tick, requested_ticks), bin),
    ensures
        admissible_ticks(tick, pow2(bin) as int),
        pow2(bin) <= requested_ticks.truncated(),
{
}

/// No larger admissible step fits the request.
pub proof fn law_selected_step_is_the_largest(
    tick: int,
    requested_ticks: Binary64,
    bin: nat,
    ticks: int,
)
    requires
        0 <= tick < LEGACY_TIMEBASE_TICKS,
        is_largest_bin(tick, capped_request(tick, requested_ticks), bin),
        admissible_ticks(tick, ticks),
        ticks <= requested_ticks.truncated(),
    ensures
        ticks <= pow2(bin),
{
    let other = choose|other: nat| #[trigger]
        pow2(other) == ticks && bin_synchronized(tick, other);
    if bin < other {
        assert(pow2(other) <= capped_request(tick, requested_ticks));
    }
    if other < bin {
        lemma_pow2_strictly_increases(other, bin);
    }
}

/// Where the request covers everything that remains from a tick at which the rest is one
/// synchronized step, the selected step ends the timeline.
pub proof fn law_covering_request_ends_the_timeline(
    tick: int,
    requested_ticks: Binary64,
    bin: nat,
    rest: nat,
)
    requires
        0 <= tick < LEGACY_TIMEBASE_TICKS,
        remaining_ticks(tick) == pow2(rest),
        rest <= 60,
        requested_ticks.truncated() >= remaining_ticks(tick),
        is_largest_bin(tick, capped_request(tick, requested_ticks), bin),
    ensures
        tick + pow2(bin) == LEGACY_TIMEBASE_TICKS,
{
    lemma_timebase_synchronized(rest);
    lemma_pow2_pos(rest);
    let step = pow2(rest) as int;
    assert(bin_synchronized(tick, rest)) by {
        vstd::arithmetic::div_mod::lemma_sub_mod_noop(LEGACY_TIMEBASE_TICKS as int, step, step);
        vstd::arithmetic::div_mod::lemma_mod_self_0(step);
        vstd::arithmetic::div_mod::lemma_small_mod(0, step as nat);
    }
    if bin < rest {
        assert(pow2(rest) <= capped_request(tick, requested_ticks));
    }
    if rest < bin {
        lemma_pow2_strictly_increases(rest, bin);
    }
}

/// A step is admissible exactly where it is a power of two that divides the tick and stays on
/// the timeline; one tick is admissible everywhere but at the end.
pub proof fn law_admissible_steps(tick: int, bin: nat)
    requires
        0 <= tick <= LEGACY_TIMEBASE_TICKS,
    ensures
        tick % (pow2(bin) as int) == 0 && tick + pow2(bin) <= LEGACY_TIMEBASE_TICKS
            ==> admissible_ticks(tick, pow2(bin) as int),
        admissible_ticks(tick, pow2(bin) as int) ==> tick % (pow2(bin) as int) == 0 && tick + pow2(
            bin,
        ) <= LEGACY_TIMEBASE_TICKS,
        forall|ticks: int| #[trigger]
            admissible_ticks(tick, ticks) ==> 0 < ticks <= LEGACY_TIMEBASE_TICKS - tick && tick
                % ticks == 0,
        admissible_ticks(tick, 1) <==> tick < LEGACY_TIMEBASE_TICKS,
{
    lemma2_to64();
    assert forall|ticks: int| #[trigger] admissible_ticks(tick, ticks) implies 0 < ticks
        <= LEGACY_TIMEBASE_TICKS - tick && tick % ticks == 0 by {
        let found = choose|found: nat| #[trigger]
            pow2(found) == ticks && bin_synchronized(tick, found);
        lemma_pow2_pos(found);
    }
    assert(pow2(0) == 1);
    assert(bin_synchronized(tick, 0));
}

/// A request is served whole unless the timeline ends before it.
pub proof fn law_requests_are_capped_by_the_end(tick: int, requested_ticks: Binary64)
    requires
        0 <= tick <= LEGACY_TIMEBASE_TICKS,
    ensures
        capped_request(tick, requested_ticks) <= requested_ticks.truncated(),
        tick + capped_request(tick, requested_ticks) <= LEGACY_TIMEBASE_TICKS,
        capped_request(tick, requested_ticks) == requested_ticks.truncated() || tick
            + capped_request(tick, requested_ticks) == LEGACY_TIMEBASE_TICKS,
        tick + remaining_ticks(tick) == LEGACY_TIMEBASE_TICKS,
{
}

} // verus!
