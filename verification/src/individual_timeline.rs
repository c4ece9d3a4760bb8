//! Individual-particle power-of-two scheduling.
//!
//! The integer-time state machine of an individual-timestep integrator, apart from any
//! physical operator. Particle bin zero is represented by a zero step and is always
//! active; assigned steps hold at least two ticks and use bins one through fifty-nine.

use vstd::prelude::*;
use vstd::arithmetic::power2::{
    lemma2_to64, lemma2_to64_rest, lemma_pow2_pos, lemma_pow2_strictly_increases, pow2,
};

use crate::binary64::Binary64;
use crate::message::MessagePart;
use crate::ticks::{bin_for_step, synchronized_floor, LEGACY_TIMEBASE_TICKS};

verus! {

use crate::ticks::{
    bin_synchronized, endpoint, is_largest_bin, lemma_endpoint, lemma_smaller_bin_synchronized,
    lemma_synchronized_even, lemma_timebase_synchronized,
};

/// What stops a schedule from being built or advanced.
#[derive(Clone, Copy, Debug, PartialEq, Eq, Structural)]
pub enum IndividualTimelineError {
    InvalidTimeline,
    InvalidBound,
    InvalidStep,
    BeyondTimelineEnd,
    Finished,
    NoOccupiedBin,
    MismatchedLength { expected: usize, actual: usize },
    MissingActiveBound { index: usize },
    UnexpectedInactiveBound { index: usize },
}

impl IndividualTimelineError {
    /// The wording of the error.
    pub open spec fn wording(self) -> Seq<MessagePart> {
        match self {
            IndividualTimelineError::InvalidTimeline => seq![
                MessagePart::Text("invalid individual-particle timeline"),
            ],
            IndividualTimelineError::InvalidBound => seq![
                MessagePart::Text("invalid physical timestep bound"),
            ],
            IndividualTimelineError::InvalidStep => seq![
                MessagePart::Text("invalid integer particle timestep"),
            ],
            IndividualTimelineError::BeyondTimelineEnd => seq![
                MessagePart::Text("particle step crosses TimeMax"),
            ],
            IndividualTimelineError::Finished => seq![
                MessagePart::Text("timeline is already finished"),
            ],
            IndividualTimelineError::NoOccupiedBin => seq![
                MessagePart::Text("timeline has no occupied time bin"),
            ],
            IndividualTimelineError::MismatchedLength { expected, actual } => seq![
                MessagePart::Text("expected "),
                MessagePart::Count(expected),
                MessagePart::Text(" particle entries, found "),
                MessagePart::Count(actual),
            ],
            IndividualTimelineError::MissingActiveBound { index } => seq![
                MessagePart::Text("active particle "),
                MessagePart::Count(index),
                MessagePart::Text(" has no timestep bound"),
            ],
            IndividualTimelineError::UnexpectedInactiveBound { index } => seq![
                MessagePart::Text("inactive particle "),
                MessagePart::Count(index),
                MessagePart::Text(" has a timestep bound"),
            ],
        }
    }

    /// The message of the error, part by part.
    pub fn message(&self) -> (result: Vec<MessagePart>)
        ensures
            result@ == self.wording(),
    {
        match *self {
            IndividualTimelineError::InvalidTimeline => vec![
                MessagePart::Text("invalid individual-particle timeline"),
            ],
            IndividualTimelineError::InvalidBound => vec![
                MessagePart::Text("invalid physical timestep bound"),
            ],
            IndividualTimelineError::InvalidStep => vec![
                MessagePart::Text("invalid integer particle timestep"),
            ],
            IndividualTimelineError::BeyondTimelineEnd => vec![
                MessagePart::Text("particle step crosses TimeMax"),
            ],
            IndividualTimelineError::Finished => vec![
                MessagePart::Text("timeline is already finished"),
            ],
            IndividualTimelineError::NoOccupiedBin => vec![
                MessagePart::Text("timeline has no occupied time bin"),
            ],
            IndividualTimelineError::MismatchedLength { expected, actual } => vec![
                MessagePart::Text("expected "),
                MessagePart::Count(expected),
                MessagePart::Text(" particle entries, found "),
                MessagePart::Count(actual),
            ],
            IndividualTimelineError::MissingActiveBound { index } => vec![
                MessagePart::Text("active particle "),
                MessagePart::Count(index),
                MessagePart::Text(" has no timestep bound"),
            ],
            IndividualTimelineError::UnexpectedInactiveBound { index } => vec![
                MessagePart::Text("inactive particle "),
                MessagePart::Count(index),
                MessagePart::Text(" has a timestep bound"),
            ],
        }
    }
}

/// A physical timestep bound together with the whole number of ticks that it spans.
#[derive(Clone, Copy, Debug, PartialEq, Eq, Structural)]
pub struct TickRequest {
    /// The physical bound.
    pub bound: Binary64,
    /// The bound divided by the tick duration, rounded down.
    pub ticks: Binary64,
}

impl TickRequest {
    /// The integer request: at least two ticks.
    pub open spec fn integer(self) -> int {
        if self.ticks.truncated() < 2 {
            2
        } else {
            self.ticks.truncated()
        }
    }

    /// The reason for which the request gives no step, if there is one.
    pub open spec fn fault(self) -> Option<IndividualTimelineError> {
        if !self.bound.positive() || !self.ticks.finite() {
            Some(IndividualTimelineError::InvalidBound)
        } else if self.integer() >= LEGACY_TIMEBASE_TICKS {
            Some(IndividualTimelineError::InvalidStep)
        } else {
            None
        }
    }
}

/// The contents of a schedule.
#[verifier::ext_equal]
pub struct ScheduleView {
    pub time_begin: Binary64,
    pub time_max: Binary64,
    pub tick: int,
    pub bins: Seq<u8>,
    pub begins: Seq<u64>,
    pub steps: Seq<u64>,
}

/// Whether a step and its bin belong together.
pub open spec fn step_in_bin(step: int, bin: int) -> bool {
    ||| step == 0 && bin == 0
    ||| 1 <= bin < 60 && step == pow2(bin as nat)
}

/// Whether the two ends of a timeline are finite and in order.
pub open spec fn valid_span(time_begin: Binary64, time_max: Binary64) -> bool {
    time_begin.finite() && time_max.finite() && time_begin.lt(time_max)
}

impl ScheduleView {
    /// The invariant of every schedule.
    pub open spec fn wf(self) -> bool {
        &&& valid_span(self.time_begin, self.time_max)
        &&& 0 <= self.tick <= LEGACY_TIMEBASE_TICKS
        &&& self.tick % 2 == 0
        &&& self.steps.len() > 0
        &&& self.bins.len() == self.steps.len()
        &&& self.begins.len() == self.steps.len()
        &&& forall|i: int|
            0 <= i < self.steps.len() ==> step_in_bin(
                #[trigger] self.steps[i] as int,
                self.bins[i] as int,
            )
    }

    /// Whether the timeline has reached its end.
    pub open spec fn finished(self) -> bool {
        self.tick >= LEGACY_TIMEBASE_TICKS
    }

    /// Whether particle `i` takes part in the synchronization at the current tick.
    pub open spec fn active(self, i: int) -> bool {
        self.steps[i] == 0 || self.tick % (self.steps[i] as int) == 0
    }

    /// Whether some particle still waits for its first assignment.
    pub open spec fn unassigned(self) -> bool {
        exists|i: int| 0 <= i < self.steps.len() && #[trigger] self.steps[i] == 0
    }

    /// Whether `tick` is the earliest endpoint of an occupied bin.
    pub open spec fn earliest_endpoint(self, tick: int) -> bool {
        &&& exists|i: int|
            0 <= i < self.steps.len() && tick == endpoint(self.tick, #[trigger] self.steps[i] as int)
        &&& forall|i: int|
            0 <= i < self.steps.len() ==> tick <= endpoint(
                self.tick,
                #[trigger] self.steps[i] as int,
            )
    }

    /// Whether `tick` is the next synchronization point.
    pub open spec fn next_sync(self, tick: int) -> bool {
        if self.unassigned() {
            tick == self.tick
        } else {
            self.earliest_endpoint(tick)
        }
    }

    /// Why particle `i` cannot take the request, if there is a reason.
    pub open spec fn reassignment_fault(
        self,
        requests: Seq<Option<TickRequest>>,
        i: int,
    ) -> Option<IndividualTimelineError> {
        match requests[i] {
            None => if self.active(i) {
                Some(IndividualTimelineError::MissingActiveBound { index: i as usize })
            } else {
                None
            },
            Some(request) => if !self.active(i) {
                Some(IndividualTimelineError::UnexpectedInactiveBound { index: i as usize })
            } else if request.fault() is Some {
                request.fault()
            } else if self.begins[i] + self.steps[i] > u64::MAX {
                Some(IndividualTimelineError::BeyondTimelineEnd)
            } else {
                None
            },
        }
    }

    /// Whether `i` is the first particle that cannot take its request.
    pub open spec fn first_fault(self, requests: Seq<Option<TickRequest>>, i: int) -> bool {
        &&& 0 <= i < requests.len()
        &&& self.reassignment_fault(requests, i) is Some
        &&& forall|j: int|
            0 <= j < i ==> (#[trigger] self.reassignment_fault(requests, j)) is None
    }

    /// Whether `next` is this schedule after every active particle took its request: its
    /// new step begins where the old one ended and is the largest synchronized power of
    /// two that the request allows.
    pub open spec fn reassigned(
        self,
        requests: Seq<Option<TickRequest>>,
        next: ScheduleView,
    ) -> bool {
        &&& next.time_begin == self.time_begin
        &&& next.time_max == self.time_max
        &&& next.tick == self.tick
        &&& next.steps.len() == self.steps.len()
        &&& next.bins.len() == self.steps.len()
        &&& next.begins.len() == self.steps.len()
        &&& forall|i: int|
            0 <= i < self.steps.len() ==> self.slot_reassigned(requests[i], next, i)
    }

    /// What becomes of particle `i` in a reassignment.
    pub open spec fn slot_reassigned(
        self,
        request: Option<TickRequest>,
        next: ScheduleView,
        i: int,
    ) -> bool {
        match request {
            None => {
                &&& next.steps[i] == self.steps[i]
                &&& next.bins[i] == self.bins[i]
                &&& next.begins[i] == self.begins[i]
            },
            Some(request) => {
                &&& is_largest_bin(self.tick, request.integer(), next.bins[i] as nat)
                &&& next.steps[i] == pow2(next.bins[i] as nat)
                &&& next.begins[i] == self.begins[i] + self.steps[i]
            },
        }
    }
}

/// The step that a request asks for: its integer ticks rounded down to a power of two.
pub fn quantize_bound(request: TickRequest) -> (result: Result<u64, IndividualTimelineError>)
    ensures
        match result {
            Ok(step) => request.fault() is None && exists|bin: nat|
                1 <= bin < 60 && step == #[trigger] pow2(bin) && is_largest_bin(
                    0,
                    request.integer(),
                    bin,
                ),
            Err(error) => request.fault() == Some(error),
        },
        result matches Ok(step) ==> 2 <= step <= request.integer() && request.integer() < 2 * step,
{
    match synchronized_request(request, 0) {
        Ok(step) => {
            proof {
                lemma2_to64();
                let bin = step.1 as nat;
                vstd::arithmetic::power2::lemma_pow2_unfold(bin + 1);
                lemma_pow2_pos((bin + 1) as nat);
                if bin > 1 {
                    lemma_pow2_strictly_increases(1, bin);
                }
                assert(bin_synchronized(0, (bin + 1) as nat));
            }
            Ok(step.0)
        },
        Err(error) => Err(error),
    }
}

/// The largest power-of-two step synchronized at an even tick that a request allows, with
/// its bin.
fn synchronized_request(request: TickRequest, tick: u64) -> (result: Result<
    (u64, u8),
    IndividualTimelineError,
>)
    requires
        tick % 2 == 0,
    ensures
        match result {
            Ok(step) => request.fault() is None && 1 <= step.1 < 60 && step.0 == pow2(
                step.1 as nat,
            ) && is_largest_bin(tick as int, request.integer(), step.1 as nat),
            Err(error) => request.fault() == Some(error),
        },
{
    if !request.bound.is_positive() || !request.ticks.is_finite() {
        return Err(IndividualTimelineError::InvalidBound);
    }
    let whole: u64 = request.ticks.to_u64();
    let integer: u64 = if whole < 2 {
        2
    } else {
        whole
    };
    if integer >= LEGACY_TIMEBASE_TICKS {
        return Err(IndividualTimelineError::InvalidStep);
    }
    let step: (u64, u8) = synchronized_floor(tick, integer);
    proof {
        lemma2_to64();
        lemma2_to64_rest();
        if step.1 == 0 {
            assert(bin_synchronized(tick as int, 1));
            assert(pow2(1) <= integer);
            assert(false);
        }
        if step.1 > 60 {
            lemma_pow2_strictly_increases(60, step.1 as nat);
        }
    }
    Ok(step)
}

/// The integer schedule of a set of particles.
#[derive(Debug, PartialEq)]
pub struct IndividualParticleTimeline {
    time_begin: Binary64,
    time_max: Binary64,
    current_tick: u64,
    time_bins: Vec<u8>,
    begin_ticks: Vec<u64>,
    step_ticks: Vec<u64>,
}

impl View for IndividualParticleTimeline {
    type V = ScheduleView;

    closed spec fn view(&self) -> ScheduleView {
        ScheduleView {
            time_begin: self.time_begin,
            time_max: self.time_max,
            tick: self.current_tick as int,
            bins: self.time_bins@,
            begins: self.begin_ticks@,
            steps: self.step_ticks@,
        }
    }
}

impl Clone for IndividualParticleTimeline {
    fn clone(&self) -> (result: Self)
        ensures
            result@ == self@,
    {
        IndividualParticleTimeline {
            time_begin: self.time_begin,
            time_max: self.time_max,
            current_tick: self.current_tick,
            time_bins: self.time_bins.clone(),
            begin_ticks: self.begin_ticks.clone(),
            step_ticks: self.step_ticks.clone(),
        }
    }
}

impl IndividualParticleTimeline {
    /// A schedule before the first assignment: every particle in bin zero.
    pub fn new_unassigned(
        time_begin: Binary64,
        time_max: Binary64,
        particle_count: usize,
    ) -> (result: Result<Self, IndividualTimelineError>)
        ensures
            result is Ok <==> valid_span(time_begin, time_max) && particle_count > 0,
            result matches Err(error) ==> error == IndividualTimelineError::InvalidTimeline,
            result matches Ok(timeline) ==> timeline@.wf() && timeline@ == (ScheduleView {
                time_begin,
                time_max,
                tick: 0,
                bins: Seq::new(particle_count as nat, |i: int| 0u8),
                begins: Seq::new(particle_count as nat, |i: int| 0u64),
                steps: Seq::new(particle_count as nat, |i: int| 0u64),
            }),
    {
        if !time_begin.is_finite() || !time_max.is_finite() || time_max.at_most(time_begin)
            || particle_count == 0 {
            return Err(IndividualTimelineError::InvalidTimeline);
        }
        Ok(
            IndividualParticleTimeline {
                time_begin,
                time_max,
                current_tick: 0,
                time_bins: vec![0;particle_count],
                begin_ticks: vec![0;particle_count],
                step_ticks: vec![0;particle_count],
            },
        )
    }

    /// Assign the initial bins from independent bounds, each truncated to whole ticks and
    /// rounded down to a power of two.
    pub fn from_initial_bounds(
        time_begin: Binary64,
        time_max: Binary64,
        requests: &[TickRequest],
    ) -> (result: Result<Self, IndividualTimelineError>)
        ensures
            match result {
                Ok(timeline) => {
                    &&& timeline@.wf()
                    &&& valid_span(time_begin, time_max)
                    &&& timeline@.time_begin == time_begin
                    &&& timeline@.time_max == time_max
                    &&& timeline@.tick == 0
                    &&& timeline@.steps.len() == requests@.len()
                    &&& timeline@.begins == Seq::new(requests@.len(), |i: int| 0u64)
                    &&& forall|i: int|
                        0 <= i < requests@.len() ==> (#[trigger] requests@[i]).fault() is None
                            && timeline@.steps[i] == pow2(timeline@.bins[i] as nat)
                            && is_largest_bin(
                            0,
                            requests@[i].integer(),
                            timeline@.bins[i] as nat,
                        )
                },
                Err(error) => if !valid_span(time_begin, time_max) || requests@.len() == 0 {
                    error == IndividualTimelineError::InvalidTimeline
                } else {
                    exists|i: int|
                        0 <= i < requests@.len() && (#[trigger] requests@[i]).fault() == Some(
                            error,
                        ) && forall|j: int|
                            0 <= j < i ==> (#[trigger] requests@[j]).fault() is None
                },
            },
            result matches Ok(timeline) ==> requests@.len() > 0 && forall|i: int|
                0 <= i < requests@.len() ==> (#[trigger] timeline@.steps[i]) <= requests@[i].integer(),
    {
        if !time_begin.is_finite() || !time_max.is_finite() || time_max.at_most(time_begin)
            || requests.len() == 0 {
            return Err(IndividualTimelineError::InvalidTimeline);
        }
        let mut time_bins: Vec<u8> = Vec::with_capacity(requests.len());
        let mut step_ticks: Vec<u64> = Vec::with_capacity(requests.len());
        let mut index: usize = 0;
        while index < requests.len()
            invariant
                index <= requests@.len(),
                valid_span(time_begin, time_max),
                time_bins@.len() == index,
                step_ticks@.len() == index,
                forall|i: int|
                    0 <= i < index ==> (#[trigger] requests@[i]).fault() is None && 1
                        <= time_bins@[i] < 60 && step_ticks@[i] == pow2(time_bins@[i] as nat)
                        && is_largest_bin(0, requests@[i].integer(), time_bins@[i] as nat),
            decreases requests@.len() - index,
        {
            match synchronized_request(requests[index], 0) {
                Ok(step) => {
                    time_bins.push(step.1);
                    step_ticks.push(step.0);
                },
                Err(error) => {
                    assert(requests@[index as int].fault() == Some(error));
                    return Err(error);
                },
            }
            index = index + 1;
        }
        let timeline: IndividualParticleTimeline = IndividualParticleTimeline {
            time_begin,
            time_max,
            current_tick: 0,
            time_bins,
            begin_ticks: vec![0;requests.len()],
            step_ticks,
        };
        assert forall|i: int| 0 <= i < timeline@.steps.len() implies step_in_bin(
            #[trigger] timeline@.steps[i] as int,
            timeline@.bins[i] as int,
        ) by {
            assert(requests@[i].fault() is None);
        }
        Ok(timeline)
    }

    /// A schedule from steps that are already capped and quantized.
    pub fn from_initial_steps(
        time_begin: Binary64,
        time_max: Binary64,
        steps: &[u64],
    ) -> (result: Result<Self, IndividualTimelineError>)
        ensures
            match result {
                Ok(timeline) => {
                    &&& timeline@.wf()
                    &&& valid_span(time_begin, time_max)
                    &&& timeline@.time_begin == time_begin
                    &&& timeline@.time_max == time_max
                    &&& timeline@.tick == 0
                    &&& timeline@.steps == steps@
                    &&& timeline@.begins == Seq::new(steps@.len(), |i: int| 0u64)
                    &&& forall|i: int|
                        0 <= i < steps@.len() ==> assigned_step(#[trigger] steps@[i] as int)
                },
                Err(error) => if !valid_span(time_begin, time_max) || steps@.len() == 0 {
                    error == IndividualTimelineError::InvalidTimeline
                } else {
                    error == IndividualTimelineError::InvalidStep && exists|i: int|
                        0 <= i < steps@.len() && !assigned_step(#[trigger] steps@[i] as int)
                },
            },
            result is Ok <==> valid_span(time_begin, time_max) && steps@.len() > 0 && forall|i: int|
                0 <= i < steps@.len() ==> assigned_step(#[trigger] steps@[i] as int),
    {
        if !time_begin.is_finite() || !time_max.is_finite() || time_max.at_most(time_begin)
            || steps.len() == 0 {
            return Err(IndividualTimelineError::InvalidTimeline);
        }
        let mut time_bins: Vec<u8> = Vec::with_capacity(steps.len());
        let mut step_ticks: Vec<u64> = Vec::with_capacity(steps.len());
        let mut index: usize = 0;
        while index < steps.len()
            invariant
                index <= steps@.len(),
                valid_span(time_begin, time_max),
                time_bins@.len() == index,
                step_ticks@.len() == index,
                forall|i: int|
                    0 <= i < index ==> step_ticks@[i] == #[trigger] steps@[i] && 1 <= time_bins@[i]
                        < 60 && step_ticks@[i] == pow2(time_bins@[i] as nat),
            decreases steps@.len() - index,
        {
            let step: u64 = steps[index];
            match assigned_bin(step) {
                None => {
                    assert(!assigned_step(steps@[index as int] as int));
                    return Err(IndividualTimelineError::InvalidStep);
                },
                Some(bin) => {
                    time_bins.push(bin);
                    step_ticks.push(step);
                },
            }
            index = index + 1;
        }
        assert(step_ticks@ =~= steps@);
        Ok(
            IndividualParticleTimeline {
                time_begin,
                time_max,
                current_tick: 0,
                time_bins,
                begin_ticks: vec![0;steps.len()],
                step_ticks,
            },
        )
    }

    /// The current tick.
    pub fn current_tick(&self) -> (result: u64)
        ensures
            result == self@.tick,
    {
        self.current_tick
    }

    /// The physical time of tick zero.
    pub fn time_begin(&self) -> (result: Binary64)
        ensures
            result == self@.time_begin,
    {
        self.time_begin
    }

    /// The physical time of the last tick.
    pub fn time_max(&self) -> (result: Binary64)
        ensures
            result == self@.time_max,
    {
        self.time_max
    }

    /// The bin of every particle.
    pub fn time_bins(&self) -> (result: &[u8])
        ensures
            result@ == self@.bins,
    {
        self.time_bins.as_slice()
    }

    /// The tick at which the step of every particle began.
    pub fn begin_ticks(&self) -> (result: &[u64])
        ensures
            result@ == self@.begins,
    {
        self.begin_ticks.as_slice()
    }

    /// The step of every particle.
    pub fn step_ticks(&self) -> (result: &[u64])
        ensures
            result@ == self@.steps,
    {
        self.step_ticks.as_slice()
    }

    /// Which particles are active at the current tick.
    pub fn active_mask(&self) -> (result: Vec<bool>)
        ensures
            result@.len() == self@.steps.len(),
            forall|i: int|
                0 <= i < result@.len() ==> #[trigger] result@[i] == self@.active(i),
    {
        let mut mask: Vec<bool> = Vec::with_capacity(self.step_ticks.len());
        let mut index: usize = 0;
        while index < self.step_ticks.len()
            invariant
                index <= self.step_ticks@.len(),
                mask@.len() == index,
                forall|i: int| 0 <= i < index ==> #[trigger] mask@[i] == self@.active(i),
            decreases self.step_ticks@.len() - index,
        {
            let step: u64 = self.step_ticks[index];
            mask.push(step == 0 || self.current_tick % step == 0);
            index = index + 1;
        }
        mask
    }

    /// Whether the timeline has reached its end.
    pub fn is_finished(&self) -> (result: bool)
        ensures
            result == self@.finished(),
    {
        self.current_tick >= LEGACY_TIMEBASE_TICKS
    }

    /// The next global synchronization point: the earliest endpoint of an occupied bin, or
    /// the current tick while a particle is unassigned.
    pub fn next_sync_tick(&self) -> (result: Result<u64, IndividualTimelineError>)
        requires
            self@.wf(),
        ensures
            match result {
                Ok(tick) => !self@.finished() && self@.next_sync(tick as int),
                Err(error) => self@.finished() && error == IndividualTimelineError::Finished,
            },
    {
        if self.is_finished() {
            return Err(IndividualTimelineError::Finished);
        }
        let mut earliest: Option<u64> = None;
        let mut index: usize = 0;
        while index < self.step_ticks.len()
            invariant
                index <= self.step_ticks@.len(),
                self@.wf(),
                !self@.finished(),
                index > 0 ==> earliest is Some,
                forall|i: int| 0 <= i < index ==> #[trigger] self@.steps[i] != 0,
                earliest matches Some(tick) ==> {
                    &&& exists|i: int|
                        0 <= i < index && tick == endpoint(
                            self@.tick,
                            #[trigger] self@.steps[i] as int,
                        )
                    &&& forall|i: int|
                        0 <= i < index ==> tick <= endpoint(
                            self@.tick,
                            #[trigger] self@.steps[i] as int,
                        )
                },
            decreases self.step_ticks@.len() - index,
        {
            let step: u64 = self.step_ticks[index];
            assert(step == self@.steps[index as int]);
            if step == 0 {
                return Ok(self.current_tick);
            }
            proof {
                assert(step_in_bin(self@.steps[index as int] as int, self@.bins[index as int] as int));
                lemma_endpoint(self@.tick, self@.bins[index as int] as nat);
                vstd::arithmetic::div_mod::lemma_div_is_ordered_by_denominator(
                    self.current_tick as int,
                    1,
                    step as int,
                );
            }
            let tick: u64 = (self.current_tick / step + 1) * step;
            earliest =
            match earliest {
                Some(other) => if tick < other {
                    Some(tick)
                } else {
                    Some(other)
                },
                None => Some(tick),
            };
            index = index + 1;
        }
        match earliest {
            Some(tick) => Ok(tick),
            None => Err(IndividualTimelineError::NoOccupiedBin),
        }
    }

    /// Move to the next synchronization point and return its active set.
    pub fn advance_to_next_sync(&mut self) -> (result: Result<Vec<bool>, IndividualTimelineError>)
        requires
            old(self)@.wf(),
        ensures
            match result {
                Ok(active) => {
                    &&& final(self)@.wf()
                    &&& !old(self)@.finished()
                    &&& old(self)@.next_sync(final(self)@.tick)
                    &&& final(self)@ == (ScheduleView {
                        tick: final(self)@.tick,
                        ..old(self)@
                    })
                    &&& active@.len() == old(self)@.steps.len()
                    &&& forall|i: int|
                        0 <= i < active@.len() ==> #[trigger] active@[i] == final(self)@.active(i)
                },
                Err(error) => {
                    &&& old(self)@.finished()
                    &&& error == IndividualTimelineError::Finished
                    &&& *final(self) == *old(self)
                },
            },
            result is Ok <==> old(self)@.tick < LEGACY_TIMEBASE_TICKS,
            final(self)@.steps == old(self)@.steps && final(self)@.begins == old(self)@.begins,
    {
        let tick: u64 = match self.next_sync_tick() {
            Ok(tick) => tick,
            Err(error) => {
                return Err(error);
            },
        };
        proof {
            lemma_next_sync(self@, tick as int);
        }
        self.current_tick = tick;
        Ok(self.active_mask())
    }

    /// The new begin, step and bin of one particle.
    fn replacement(&self, index: usize, request: TickRequest) -> (result: Result<
        (u64, u64, u8),
        IndividualTimelineError,
    >)
        requires
            self@.wf(),
            !self@.finished(),
            index < self@.steps.len(),
            self@.active(index as int),
        ensures
            match result {
                Ok(slot) => {
                    &&& request.fault() is None
                    &&& slot.0 == self@.begins[index as int] + self@.steps[index as int]
                    &&& 1 <= slot.2 < 60
                    &&& slot.1 == pow2(slot.2 as nat)
                    &&& is_largest_bin(self@.tick, request.integer(), slot.2 as nat)
                },
                Err(error) => if request.fault() is Some {
                    request.fault() == Some(error)
                } else {
                    &&& error == IndividualTimelineError::BeyondTimelineEnd
                    &&& self@.begins[index as int] + self@.steps[index as int] > u64::MAX
                },
            },
    {
        let step: (u64, u8) = match synchronized_request(request, self.current_tick) {
            Ok(step) => step,
            Err(error) => {
                return Err(error);
            },
        };
        let remaining: u64 = LEGACY_TIMEBASE_TICKS - self.current_tick;
        proof {
            lemma_endpoint(self@.tick, step.1 as nat);
        }
        if step.0 > remaining {
            return Err(IndividualTimelineError::BeyondTimelineEnd);
        }
        match self.begin_ticks[index].checked_add(self.step_ticks[index]) {
            Some(begin) => Ok((begin, step.0, step.1)),
            None => Err(IndividualTimelineError::BeyondTimelineEnd),
        }
    }

    /// Reassign the steps of the particles that are active at the current tick.
    ///
    /// A step may grow only into a bin that is synchronized at this tick. Every active
    /// particle must have a request and every inactive particle must have none. On an
    /// error nothing changes.
    pub fn reassign_active_bounds(&mut self, requests: &[Option<TickRequest>]) -> (result: Result<
        (),
        IndividualTimelineError,
    >)
        requires
            old(self)@.wf(),
        ensures
            match result {
                Ok(_) => {
                    &&& requests@.len() == old(self)@.steps.len()
                    &&& !old(self)@.finished()
                    &&& forall|i: int|
                        0 <= i < requests@.len() ==> (#[trigger] old(self)@.reassignment_fault(
                            requests@,
                            i,
                        )) is None
                    &&& final(self)@.wf()
                    &&& old(self)@.reassigned(requests@, final(self)@)
                },
                Err(error) => {
                    &&& *final(self) == *old(self)
                    &&& if requests@.len() != old(self)@.steps.len() {
                        error == IndividualTimelineError::MismatchedLength {
                            expected: old(self)@.steps.len() as usize,
                            actual: requests@.len() as usize,
                        }
                    } else if old(self)@.finished() {
                        error == IndividualTimelineError::Finished
                    } else {
                        exists|i: int|
                            old(self)@.first_fault(requests@, i) && #[trigger] old(
                                self,
                            )@.reassignment_fault(requests@, i) == Some(error)
                    }
                },
            },
            final(self)@.tick == old(self)@.tick,
            requests@.len() != old(self)@.steps.len() || old(self)@.finished() ==> result is Err,
    {
        if requests.len() != self.step_ticks.len() {
            return Err(
                IndividualTimelineError::MismatchedLength {
                    expected: self.step_ticks.len(),
                    actual: requests.len(),
                },
            );
        }
        if self.is_finished() {
            return Err(IndividualTimelineError::Finished);
        }
        let mut time_bins: Vec<u8> = Vec::with_capacity(requests.len());
        let mut begin_ticks: Vec<u64> = Vec::with_capacity(requests.len());
        let mut step_ticks: Vec<u64> = Vec::with_capacity(requests.len());
        let mut index: usize = 0;
        while index < requests.len()
            invariant
                index <= requests@.len(),
                requests@.len() == self@.steps.len(),
                *self == *old(self),
                self@.wf(),
                !self@.finished(),
                time_bins@.len() == index,
                begin_ticks@.len() == index,
                step_ticks@.len() == index,
                forall|i: int|
                    0 <= i < index ==> {
                        &&& (#[trigger] self@.reassignment_fault(requests@, i)) is None
                        &&& step_in_bin(step_ticks@[i] as int, time_bins@[i] as int)
                        &&& self@.slot_reassigned(
                            requests@[i],
                            ScheduleView {
                                bins: time_bins@,
                                begins: begin_ticks@,
                                steps: step_ticks@,
                                ..self@
                            },
                            i,
                        )
                    },
            decreases requests@.len() - index,
        {
            let ghost before = (time_bins@, begin_ticks@, step_ticks@);
            let step: u64 = self.step_ticks[index];
            let active: bool = step == 0 || self.current_tick % step == 0;
            assert(active == self@.active(index as int));
            assert(step_in_bin(self@.steps[index as int] as int, self@.bins[index as int] as int));
            let fault: Option<IndividualTimelineError> = match requests[index] {
                None => {
                    if active {
                        Some(IndividualTimelineError::MissingActiveBound { index })
                    } else {
                        begin_ticks.push(self.begin_ticks[index]);
                        step_ticks.push(step);
                        time_bins.push(self.time_bins[index]);
                        None
                    }
                },
                Some(request) => {
                    if !active {
                        Some(IndividualTimelineError::UnexpectedInactiveBound { index })
                    } else {
                        match self.replacement(index, request) {
                            Err(error) => Some(error),
                            Ok(slot) => {
                                begin_ticks.push(slot.0);
                                step_ticks.push(slot.1);
                                time_bins.push(slot.2);
                                None
                            },
                        }
                    }
                },
            };
            assert(fault == self@.reassignment_fault(requests@, index as int));
            if let Some(error) = fault {
                assert(self@.first_fault(requests@, index as int));
                return Err(error);
            }
            proof {
                assert forall|i: int| 0 <= i < index implies self@.slot_reassigned(
                    requests@[i],
                    ScheduleView {
                        bins: time_bins@,
                        begins: begin_ticks@,
                        steps: step_ticks@,
                        ..self@
                    },
                    i,
                ) && step_in_bin(step_ticks@[i] as int, time_bins@[i] as int) by {
                    assert(self@.reassignment_fault(requests@, i) is None);
                    assert(time_bins@[i] == before.0[i]);
                    assert(begin_ticks@[i] == before.1[i]);
                    assert(step_ticks@[i] == before.2[i]);
                }
            }
            index = index + 1;
        }
        self.time_bins = time_bins;
        self.begin_ticks = begin_ticks;
        self.step_ticks = step_ticks;
        proof {
            let next = self@;
            assert forall|i: int| 0 <= i < next.steps.len() implies step_in_bin(
                #[trigger] next.steps[i] as int,
                next.bins[i] as int,
            ) by {
                assert(old(self)@.reassignment_fault(requests@, i) is None);
            }
            assert forall|i: int| 0 <= i < next.steps.len() implies old(self)@.slot_reassigned(
                requests@[i],
                next,
                i,
            ) by {
                assert(old(self)@.reassignment_fault(requests@, i) is None);
            }
        }
        Ok(())
    }
}

/// Whether a step is a power of two from two ticks to half the timebase.
pub open spec fn assigned_step(step: int) -> bool {
    exists|bin: nat| 1 <= bin < 60 && step == #[trigger] pow2(bin)
}

/// The bin of an assigned step.
fn assigned_bin(step: u64) -> (result: Option<u8>)
    ensures
        match result {
            Some(bin) => 1 <= bin < 60 && step == pow2(bin as nat),
            None => !assigned_step(step as int),
        },
{
    if step < 2 {
        proof {
            lemma2_to64();
            assert forall|bin: nat| 1 <= bin < 60 implies #[trigger] pow2(bin) >= 2 by {
                if bin > 1 {
                    lemma_pow2_strictly_increases(1, bin);
                }
            }
        }
        return None;
    }
    let bin: u8 = bin_for_step(step);
    let floor: (u64, u8) = synchronized_floor(0, step);
    proof {
        lemma2_to64();
        lemma2_to64_rest();
        if floor.0 != step {
            assert forall|other: nat| 1 <= other < 60 && step == #[trigger] pow2(other) implies false by {
                if floor.1 < other {
                    lemma_pow2_pos(other);
                    assert(bin_synchronized(0, other));
                }
                if other < floor.1 {
                    lemma_pow2_strictly_increases(other, floor.1 as nat);
                }
            }
        } else {
            assert(step == pow2(floor.1 as nat));
            assert(bin == floor.1);
            if floor.1 >= 60 {
                if floor.1 > 60 {
                    lemma_pow2_strictly_increases(60, floor.1 as nat);
                }
                assert forall|other: nat| 1 <= other < 60 implies step != #[trigger] pow2(other) by {
                    lemma_pow2_strictly_increases(other, floor.1 as nat);
                }
            }
        }
    }
    if floor.0 == step && step < LEGACY_TIMEBASE_TICKS {
        Some(bin)
    } else {
        None
    }
}

proof fn lemma_next_sync(schedule: ScheduleView, tick: int)
    requires
        schedule.wf(),
        !schedule.finished(),
        schedule.next_sync(tick),
    ensures
        schedule.tick <= tick <= LEGACY_TIMEBASE_TICKS,
        tick % 2 == 0,
{
    if !schedule.unassigned() {
        let i = choose|i: int|
            0 <= i < schedule.steps.len() && tick == endpoint(
                schedule.tick,
                #[trigger] schedule.steps[i] as int,
            );
        assert(step_in_bin(schedule.steps[i] as int, schedule.bins[i] as int));
        lemma_endpoint(schedule.tick, schedule.bins[i] as nat);
        lemma_synchronized_even(tick, schedule.bins[i] as nat);
    }
}

/// The next synchronization point lies ahead of the current tick, and on the timeline,
/// once every particle has a step.
pub proof fn law_synchronization_advances(schedule: ScheduleView, tick: int)
    requires
        schedule.wf(),
        !schedule.finished(),
        !schedule.unassigned(),
        schedule.next_sync(tick),
    ensures
        schedule.tick < tick <= LEGACY_TIMEBASE_TICKS,
{
    let i = choose|i: int|
        0 <= i < schedule.steps.len() && tick == endpoint(
            schedule.tick,
            #[trigger] schedule.steps[i] as int,
        );
    assert(step_in_bin(schedule.steps[i] as int, schedule.bins[i] as int));
    lemma_endpoint(schedule.tick, schedule.bins[i] as nat);
}

/// Some particle is active at every synchronization point.
pub proof fn law_synchronization_activates(schedule: ScheduleView, tick: int)
    requires
        schedule.wf(),
        !schedule.finished(),
        schedule.next_sync(tick),
    ensures
        exists|i: int|
            0 <= i < schedule.steps.len() && #[trigger] (ScheduleView { tick, ..schedule }).active(
                i,
            ),
{
    let arrived = ScheduleView { tick, ..schedule };
    if schedule.unassigned() {
        let i = choose|i: int| 0 <= i < schedule.steps.len() && #[trigger] schedule.steps[i] == 0;
        assert(arrived.active(i));
    } else {
        let i = choose|i: int|
            0 <= i < schedule.steps.len() && tick == endpoint(
                schedule.tick,
                #[trigger] schedule.steps[i] as int,
            );
        assert(step_in_bin(schedule.steps[i] as int, schedule.bins[i] as int));
        lemma_endpoint(schedule.tick, schedule.bins[i] as nat);
        assert(arrived.active(i));
    }
}

/// No particle is active strictly between two successive synchronization points.
pub proof fn law_no_endpoint_is_skipped(
    schedule: ScheduleView,
    tick: int,
    between: int,
    i: int,
)
    requires
        schedule.wf(),
        !schedule.finished(),
        schedule.next_sync(tick),
        schedule.tick < between < tick,
        0 <= i < schedule.steps.len(),
    ensures
        !(ScheduleView { tick: between, ..schedule }).active(i),
{
    assert(step_in_bin(schedule.steps[i] as int, schedule.bins[i] as int));
    lemma_endpoint(schedule.tick, schedule.bins[i] as nat);
    if between % (schedule.steps[i] as int) == 0 {
        assert(bin_synchronized(between, schedule.bins[i] as nat));
    }
}

/// Bins nest: where a particle is active, so is every particle of a smaller or equal bin.
pub proof fn law_active_bins_nest(schedule: ScheduleView, i: int, j: int)
    requires
        schedule.wf(),
        0 <= i < schedule.steps.len(),
        0 <= j < schedule.steps.len(),
        schedule.bins[j] <= schedule.bins[i],
        schedule.active(i),
    ensures
        schedule.active(j),
{
    assert(step_in_bin(schedule.steps[i] as int, schedule.bins[i] as int));
    assert(step_in_bin(schedule.steps[j] as int, schedule.bins[j] as int));
    if schedule.steps[j] != 0 {
        lemma_pow2_pos(schedule.bins[i] as nat);
        lemma_smaller_bin_synchronized(
            schedule.tick,
            schedule.bins[j] as nat,
            schedule.bins[i] as nat,
        );
    }
}

/// Every particle is active at both ends of the timeline.
pub proof fn law_everyone_is_active_at_the_ends(schedule: ScheduleView, i: int)
    requires
        schedule.wf(),
        schedule.tick == 0 || schedule.finished(),
        0 <= i < schedule.steps.len(),
    ensures
        schedule.active(i),
{
    assert(step_in_bin(schedule.steps[i] as int, schedule.bins[i] as int));
    if schedule.steps[i] != 0 {
        lemma_timebase_synchronized(schedule.bins[i] as nat);
        vstd::arithmetic::div_mod::lemma_small_mod(0, schedule.steps[i] as nat);
    }
}

/// A reassigned particle is synchronized now, and its new step ends on the timeline.
pub proof fn law_reassigned_steps_are_synchronized(
    schedule: ScheduleView,
    requests: Seq<Option<TickRequest>>,
    next: ScheduleView,
    i: int,
)
    requires
        schedule.wf(),
        !schedule.finished(),
        requests.len() == schedule.steps.len(),
        schedule.reassigned(requests, next),
        next.wf(),
        0 <= i < requests.len(),
        requests[i] is Some,
    ensures
        next.active(i),
        next.tick + next.steps[i] <= LEGACY_TIMEBASE_TICKS,
        next.steps[i] <= requests[i]->0.integer(),
{
    assert(schedule.slot_reassigned(requests[i], next, i));
    assert(step_in_bin(next.steps[i] as int, next.bins[i] as int));
    lemma_pow2_pos(next.bins[i] as nat);
    lemma_endpoint(next.tick, next.bins[i] as nat);
}

/// Two requests for the same particle: the larger one gets the larger or equal bin.
pub proof fn law_larger_requests_get_larger_bins(
    tick: int,
    smaller: TickRequest,
    larger: TickRequest,
    bin: nat,
    other: nat,
)
    requires
        smaller.integer() <= larger.integer(),
        is_largest_bin(tick, smaller.integer(), bin),
        is_largest_bin(tick, larger.integer(), other),
    ensures
        bin <= other,
{
    if other < bin {
        assert(pow2(bin) <= larger.integer());
    }
}

/// A request asks for its whole ticks, but never for fewer than two.
pub proof fn law_requested_ticks(request: TickRequest)
    ensures
        request.integer() >= 2,
        request.integer() >= request.ticks.truncated(),
        request.integer() > 2 ==> request.integer() == request.ticks.truncated(),
{
}

/// A request is served exactly where its bound is positive, its ticks are finite and fewer
/// than the whole timeline; a wrong number is reported before a step that is too long.
pub proof fn law_request_faults(request: TickRequest)
    ensures
        request.fault() is None <==> request.bound.positive() && request.ticks.finite()
            && request.ticks.truncated() < LEGACY_TIMEBASE_TICKS,
        request.fault() == Some(IndividualTimelineError::InvalidBound)
            <==> !request.bound.positive() || !request.ticks.finite(),
        request.fault() == Some(IndividualTimelineError::InvalidStep) <==> request.bound.positive()
            && request.ticks.finite() && request.ticks.truncated() >= LEGACY_TIMEBASE_TICKS,
{
}

/// An unassigned particle has no step and bin zero; an assigned one has an even power of two
/// shorter than the timeline, and the step fixes the bin.
pub proof fn law_steps_and_bins(step: int, bin: int, other: int)
    requires
        step_in_bin(step, bin),
    ensures
        step == 0 <==> bin == 0,
        0 <= bin <= 59,
        0 <= step < LEGACY_TIMEBASE_TICKS,
        step % 2 == 0,
        step != 0 ==> step == pow2(bin as nat) && step >= 2,
        step_in_bin(step, other) ==> other == bin,
{
    lemma2_to64();
    lemma2_to64_rest();
    if bin > 0 {
        vstd::arithmetic::power2::lemma_pow2_unfold(bin as nat);
        lemma_pow2_pos((bin - 1) as nat);
        lemma_pow2_strictly_increases(bin as nat, 60);
        lemma_pow2_pos(bin as nat);
        if step_in_bin(step, other) && other < bin {
            lemma_pow2_strictly_increases(other as nat, bin as nat);
        }
        if step_in_bin(step, other) && other > bin {
            lemma_pow2_strictly_increases(bin as nat, other as nat);
        }
    } else if 1 <= other < 60 {
        lemma_pow2_pos(other as nat);
    }
}

/// The powers of two from two ticks to half the timeline are steps that can be assigned, and
/// no others.
pub proof fn law_assigned_steps(step: int, bin: nat)
    ensures
        assigned_step(step) <==> step != 0 && exists|found: int| #[trigger]
            step_in_bin(step, found),
        1 <= bin < 60 ==> assigned_step(pow2(bin) as int),
        !assigned_step(0),
        !assigned_step(1),
        !assigned_step(LEGACY_TIMEBASE_TICKS as int),
        assigned_step(step) ==> 2 <= step <= LEGACY_TIMEBASE_TICKS / 2,
{
    lemma2_to64();
    lemma2_to64_rest();
    if assigned_step(step) {
        let found = choose|found: nat| 1 <= found < 60 && step == #[trigger] pow2(found);
        assert(step_in_bin(step, found as int));
        law_steps_and_bins(step, found as int, found as int);
        if found < 59 {
            lemma_pow2_strictly_increases(found, 59);
        }
    }
    if exists|found: int| #[trigger] step_in_bin(step, found) && step != 0 {
        let found = choose|found: int| #[trigger] step_in_bin(step, found);
        assert(step == pow2(found as nat));
    }
    assert forall|found: nat| 1 <= found < 60 implies 1 < #[trigger] pow2(found)
        < LEGACY_TIMEBASE_TICKS by {
        lemma_pow2_strictly_increases(0, found);
        lemma_pow2_strictly_increases(found, 60);
    }
}

/// A span is valid exactly where both ends are finite and the last lies after the first.
pub proof fn law_valid_spans(time_begin: Binary64, time_max: Binary64)
    ensures
        valid_span(time_begin, time_max) ==> !valid_span(time_max, time_begin),
        !valid_span(time_begin, time_begin),
        !time_begin.finite() || !time_max.finite() ==> !valid_span(time_begin, time_max),
        time_begin.finite() && time_max.finite() ==> (valid_span(time_begin, time_max)
            <==> !time_max.le(time_begin)),
{
}

/// A particle is active while it is unassigned, and otherwise exactly at the multiples of its
/// step.
pub proof fn law_active_particles(schedule: ScheduleView, i: int, count: int)
    requires
        schedule.wf(),
        0 <= i < schedule.steps.len(),
    ensures
        schedule.steps[i] == 0 ==> schedule.active(i),
        schedule.steps[i] != 0 && schedule.tick == count * schedule.steps[i] ==> schedule.active(i),
        schedule.steps[i] != 0 && schedule.active(i) ==> schedule.tick == (schedule.tick / (
        schedule.steps[i] as int)) * schedule.steps[i],
        schedule.bins[i] == 0 ==> schedule.active(i),
{
    law_steps_and_bins(schedule.steps[i] as int, schedule.bins[i] as int, 0);
    let step = schedule.steps[i] as int;
    if step != 0 {
        vstd::arithmetic::div_mod::lemma_mod_multiples_basic(count, step);
        vstd::arithmetic::div_mod::lemma_fundamental_div_mod(schedule.tick, step);
        assert(step * (schedule.tick / step) == (schedule.tick / step) * step) by (nonlinear_arith);
    }
}

/// The timeline is finished exactly at its last tick, and an unassigned particle keeps the
/// next synchronization at the current one.
pub proof fn law_synchronization_waits_for_assignment(schedule: ScheduleView, tick: int, i: int)
    requires
        schedule.wf(),
        0 <= i < schedule.steps.len(),
    ensures
        schedule.finished() <==> schedule.tick == LEGACY_TIMEBASE_TICKS,
        schedule.steps[i] == 0 ==> (schedule.next_sync(tick) <==> tick == schedule.tick),
        schedule.unassigned() ==> exists|j: int|
            0 <= j < schedule.steps.len() && #[trigger] schedule.steps[j] == 0,
        schedule.steps[i] == 0 ==> schedule.unassigned(),
{
}

/// Every active particle must have a request and every inactive one none; an acceptable
/// request fails only where the end of the current step cannot be counted.
pub proof fn law_reassignment_faults(
    schedule: ScheduleView,
    requests: Seq<Option<TickRequest>>,
    i: int,
)
    requires
        schedule.wf(),
        0 <= i < schedule.steps.len(),
        requests.len() == schedule.steps.len(),
        schedule.steps.len() <= usize::MAX,
    ensures
        schedule.active(i) && requests[i] is None ==> schedule.reassignment_fault(requests, i)
            == Some(IndividualTimelineError::MissingActiveBound { index: i as usize }),
        !schedule.active(i) && requests[i] is None ==> schedule.reassignment_fault(requests, i)
            is None,
        !schedule.active(i) && requests[i] is Some ==> schedule.reassignment_fault(requests, i)
            == Some(IndividualTimelineError::UnexpectedInactiveBound { index: i as usize }),
        schedule.active(i) && requests[i] is Some && requests[i]->0.fault() is Some
            ==> schedule.reassignment_fault(requests, i) == requests[i]->0.fault(),
        schedule.active(i) && requests[i] is Some && requests[i]->0.fault() is None
            && schedule.begins[i] + schedule.steps[i] > u64::MAX ==> schedule.reassignment_fault(
            requests,
            i,
        ) == Some(IndividualTimelineError::BeyondTimelineEnd),
        schedule.active(i) && requests[i] is Some && requests[i]->0.fault() is None
            && schedule.begins[i] + schedule.steps[i] <= u64::MAX ==> schedule.reassignment_fault(
            requests,
            i,
        ) is None,
{
}

/// A reassignment starts each new step where the old one ends, takes the longest step that the
/// request allows and the tick is a multiple of, and leaves the other particles alone.
pub proof fn law_reassigned_steps_are_the_longest(
    schedule: ScheduleView,
    requests: Seq<Option<TickRequest>>,
    next: ScheduleView,
    i: int,
    bin: nat,
)
    requires
        requests.len() == schedule.steps.len(),
        schedule.reassigned(requests, next),
        0 <= i < requests.len(),
    ensures
        next.tick == schedule.tick,
        next.time_begin == schedule.time_begin,
        next.time_max == schedule.time_max,
        requests[i] is None ==> next.steps[i] == schedule.steps[i] && next.bins[i]
            == schedule.bins[i] && next.begins[i] == schedule.begins[i],
        requests[i] is Some ==> next.begins[i] == schedule.begins[i] + schedule.steps[i]
            && next.steps[i] == pow2(next.bins[i] as nat),
        requests[i] is Some && pow2(bin) <= requests[i]->0.integer() && schedule.tick % (pow2(
            bin,
        ) as int) == 0 ==> bin <= next.bins[i],
        requests[i] is Some ==> next.steps[i] <= requests[i]->0.integer(),
{
    assert(schedule.slot_reassigned(requests[i], next, i));
    if bin > next.bins[i] {
        assert(bin_synchronized(schedule.tick, bin) == (schedule.tick % (pow2(bin) as int) == 0));
    }
}

/// A message holds every field of its error, each in its place.
pub proof fn law_messages_hold_the_fields(error: IndividualTimelineError)
    ensures
        error is InvalidTimeline ==> error.wording().len() == 1,
        error is InvalidBound ==> error.wording().len() == 1,
        error is InvalidStep ==> error.wording().len() == 1,
        error is BeyondTimelineEnd ==> error.wording().len() == 1,
        error is Finished ==> error.wording().len() == 1,
        error is NoOccupiedBin ==> error.wording().len() == 1,
        error matches IndividualTimelineError::MismatchedLength { expected, actual } ==> {
            &&& error.wording().len() == 4
            &&& error.wording()[1] == MessagePart::Count(expected)
            &&& error.wording()[3] == MessagePart::Count(actual)
        },
        error matches IndividualTimelineError::MissingActiveBound { index } ==> {
            &&& error.wording().len() == 3
            &&& error.wording()[1] == MessagePart::Count(index)
        },
        error matches IndividualTimelineError::UnexpectedInactiveBound { index } ==> {
            &&& error.wording().len() == 3
            &&& error.wording()[1] == MessagePart::Count(index)
        },
{
}

/// Between the fields the message of an error always reads the same.
pub proof fn law_messages_are_fixed(error: IndividualTimelineError, other: IndividualTimelineError)
    ensures
        error is MismatchedLength && other is MismatchedLength ==> {
            &&& error.wording()[0] == other.wording()[0]
            &&& error.wording()[2] == other.wording()[2]
        },
        error is MissingActiveBound && other is MissingActiveBound ==> {
            &&& error.wording()[0] == other.wording()[0]
            &&& error.wording()[2] == other.wording()[2]
        },
        error is UnexpectedInactiveBound && other is UnexpectedInactiveBound ==> {
            &&& error.wording()[0] == other.wording()[0]
            &&& error.wording()[2] == other.wording()[2]
        },
{
}

/// The reported particle has a fault and no earlier one has, so there is only one to report.
pub proof fn law_first_refused_particle(
    schedule: ScheduleView,
    requests: Seq<Option<TickRequest>>,
    i: int,
    j: int,
)
    requires
        schedule.first_fault(requests, i),
        0 <= j < requests.len(),
    ensures
        0 <= i < requests.len(),
        schedule.reassignment_fault(requests, i) is Some,
        schedule.reassignment_fault(requests, j) is Some ==> i <= j,
        schedule.first_fault(requests, j) ==> i == j,
{
}

} // verus!
