//! The phases of the hierarchical planar evolution.
//!
//! Particles with steps of different lengths share one integer timeline. At each
//! synchronization the particles whose step ends there are drifted to it, their caches are
//! refreshed together with those neighbors that they need, their second half kick follows,
//! and with it a new step and its first half kick. Everything else stays where it was last
//! predicted. This module keeps the order of these phases and the tick up to which each
//! particle has been predicted; the arithmetic of drifts and kicks lies outside.

use vstd::prelude::*;

use crate::binary64::Binary64;
use crate::hydro_evolution_2d::{
    check_state, limited_internal_energy_update_2d, same_particle_rate, validate_evolving,
    validate_initial_timebin, validate_lengths, validate_rate_lengths, HydroEvolution2dError,
    HydroMfmState2d, ParticleRate2d, PrimitiveLengths2d, PublicHydroInitialTimebin2d,
    RateLengths2d,
};
use crate::individual_timeline::{
    IndividualParticleTimeline, IndividualTimelineError, TickRequest,
};
use crate::ticks::LEGACY_TIMEBASE_TICKS;

verus! {

use crate::binary64::NAN_BITS;
use crate::fault::{
    first, first_fault, law_first_fault_is_the_earliest, lemma_first_fault_stays,
    lemma_same_first_fault, outcome,
};
use crate::hydro_evolution_2d::{
    evolving_fault, floor_fault, length_faults, limited_energy_2d, same_rate, state_fault,
    timebin_consistent,
};
use crate::individual_timeline::{
    assigned_step, law_synchronization_advances, valid_span, ScheduleView,
};

/// The contents of a hierarchy.
#[verifier::ext_equal]
pub struct HierarchyView {
    pub schedule: ScheduleView,
    /// The tick up to which each particle has been predicted.
    pub predictors: Seq<u64>,
    /// Whether arrived particles wait for their second half kick.
    pub awaiting: bool,
    /// Whether the next drift has been prepared by the first half kicks.
    pub prepared: bool,
    /// The tick at which the caches of the active particles were refreshed.
    pub refreshed: Option<u64>,
    /// Which particles were asked to wake up.
    pub pending: Seq<bool>,
}

impl HierarchyView {
    /// The number of particles.
    pub open spec fn count(self) -> int {
        self.schedule.steps.len() as int
    }

    /// The invariant of every hierarchy.
    pub open spec fn wf(self) -> bool {
        &&& self.schedule.wf()
        &&& self.predictors.len() == self.count()
        &&& self.pending.len() == self.count()
    }

    /// Whether a particle may have been predicted to a tick: not beyond the current one, and
    /// while a drift is prepared not beyond the synchronization that ends it.
    pub open spec fn reachable(self, tick: int) -> bool {
        ||| tick <= self.schedule.tick
        ||| {
            &&& self.prepared
            &&& !self.schedule.finished()
            &&& forall|next: int| #[trigger] self.schedule.next_sync(next) ==> tick <= next
        }
    }

    /// Whether no particle has been predicted beyond the current tick.
    pub open spec fn within_tick(self) -> bool {
        forall|i: int|
            0 <= i < self.predictors.len() ==> #[trigger] self.predictors[i] <= self.schedule.tick
    }

    /// Whether the phases are in order: a hierarchy does not await second kicks while a
    /// drift is prepared, caches count as refreshed only at the current tick and only until
    /// the second kick, and no particle has been predicted too far.
    pub open spec fn orderly(self) -> bool {
        &&& self.wf()
        &&& !(self.awaiting && self.prepared)
        &&& self.refreshed matches Some(tick) ==> self.awaiting && tick == self.schedule.tick
        &&& forall|i: int|
            0 <= i < self.predictors.len() ==> self.reachable(#[trigger] self.predictors[i] as int)
    }

    /// The fault of a drift of one particle to a tick: the particle must exist, and the tick
    /// must lie on the timeline and not before the prediction. `time` is the physical time
    /// of the tick.
    pub open spec fn drift_fault(
        self,
        index: usize,
        target: u64,
        time: Result<Binary64, IndividualTimelineError>,
    ) -> Option<HydroEvolution2dError> {
        if index >= self.count() {
            Some(
                HydroEvolution2dError::InvalidState {
                    index: Some(index),
                    field: "hierarchy_particle_index",
                    value: Binary64 { bits: NAN_BITS },
                },
            )
        } else if self.predictors[index as int] > target || target > LEGACY_TIMEBASE_TICKS {
            match time {
                Ok(value) => Some(
                    HydroEvolution2dError::InvalidState {
                        index: Some(index),
                        field: "hierarchy_predictor_tick",
                        value,
                    },
                ),
                Err(error) => Some(HydroEvolution2dError::Timeline(error)),
            }
        } else {
            None
        }
    }

    /// The faults of a search at the current tick: a particle predicted beyond it.
    pub open spec fn search_faults(self, now: Binary64) -> spec_fn(int) -> Option<
        HydroEvolution2dError,
    > {
        |i: int|
            state_fault(
                Some(i as usize),
                "hierarchy_predictor_tick",
                now,
                self.predictors[i] <= self.schedule.tick,
            )
    }

    /// Whether an active particle has a longer support than before.
    pub open spec fn expanded(self, before: Seq<Binary64>, after: Seq<Binary64>) -> bool {
        exists|i: int|
            0 <= i < self.count() && self.schedule.active(i) && #[trigger] before[i].lt(after[i])
    }

    /// Whether a needed particle has not been predicted to the current tick.
    pub open spec fn stale(self, required: Seq<bool>) -> bool {
        exists|i: int|
            0 <= i < self.count() && #[trigger] required[i] && self.predictors[i]
                != self.schedule.tick
    }

    /// Whether a prepared drift passes a tick: it lies between the current one and the next
    /// synchronization.
    pub open spec fn output_allowed(self, tick: u64) -> bool {
        &&& self.schedule.tick <= tick
        &&& exists|next: int| #[trigger] self.schedule.next_sync(next) && tick <= next
    }
}

/// A particle that is woken before the end of its step.
#[derive(Clone, Copy, Debug, PartialEq, Eq, Structural)]
pub struct WakeupTransition {
    pub index: usize,
    /// The tick at which the abandoned step would have ended.
    pub old_endpoint_tick: u64,
    /// Whether the new step begins at the current tick.
    pub new_step_active_at_current: bool,
}

/// What follows from a refresh of the active caches.
#[derive(Clone, Copy, Debug, PartialEq, Eq, Structural)]
pub enum RefreshStep {
    /// The caches are consistent.
    Done,
    /// A support has grown over a neighbor that is not at the current tick yet.
    Again,
}

/// The integer state of a hierarchical evolution.
#[derive(Debug, PartialEq)]
pub struct PublicHydroInitialHierarchy2d {
    timeline: IndividualParticleTimeline,
    predictor_ticks: Vec<u64>,
    awaiting_second_kick: bool,
    prepared_next_drift: bool,
    refreshed_cache_tick: Option<u64>,
    pending_wakeup: Vec<bool>,
}

impl View for PublicHydroInitialHierarchy2d {
    type V = HierarchyView;

    closed spec fn view(&self) -> HierarchyView {
        HierarchyView {
            schedule: self.timeline@,
            predictors: self.predictor_ticks@,
            awaiting: self.awaiting_second_kick,
            prepared: self.prepared_next_drift,
            refreshed: self.refreshed_cache_tick,
            pending: self.pending_wakeup@,
        }
    }
}

impl Clone for PublicHydroInitialHierarchy2d {
    fn clone(&self) -> (result: Self)
        ensures
            result@ == self@,
    {
        PublicHydroInitialHierarchy2d {
            timeline: self.timeline.clone(),
            predictor_ticks: self.predictor_ticks.clone(),
            awaiting_second_kick: self.awaiting_second_kick,
            prepared_next_drift: self.prepared_next_drift,
            refreshed_cache_tick: self.refreshed_cache_tick,
            pending_wakeup: self.pending_wakeup.clone(),
        }
    }
}

/// The error of an operation in the wrong phase.
pub open spec fn phase_error(field: &'static str, now: Binary64) -> HydroEvolution2dError {
    HydroEvolution2dError::InvalidState { index: None, field, value: now }
}

fn phase(field: &'static str, now: Binary64) -> (result: HydroEvolution2dError)
    ensures
        result == phase_error(field, now),
{
    HydroEvolution2dError::InvalidState { index: None, field, value: now }
}

impl PublicHydroInitialHierarchy2d {
    /// A hierarchy at the current tick of a timeline, with every particle predicted to tick
    /// zero.
    pub fn begin(timeline: IndividualParticleTimeline) -> (result: Self)
        requires
            timeline@.wf(),
        ensures
            result@.orderly(),
            result@ == (HierarchyView {
                schedule: timeline@,
                predictors: Seq::new(timeline@.steps.len(), |i: int| 0u64),
                awaiting: false,
                prepared: false,
                refreshed: None,
                pending: Seq::new(timeline@.steps.len(), |i: int| false),
            }),
            result@.schedule == timeline@,
            result@.predictors.len() == timeline@.steps.len(),
            forall|i: int| 0 <= i < timeline@.steps.len() ==> #[trigger] result@.predictors[i] == 0,
            forall|i: int| 0 <= i < timeline@.steps.len() ==> !#[trigger] result@.pending[i],
            !result@.awaiting && !result@.prepared && result@.refreshed is None,
    {
        let count: usize = timeline.step_ticks().len();
        PublicHydroInitialHierarchy2d {
            timeline,
            predictor_ticks: vec![0;count],
            awaiting_second_kick: false,
            prepared_next_drift: false,
            refreshed_cache_tick: None,
            pending_wakeup: vec![false;count],
        }
    }

    /// The timeline.
    pub fn timeline(&self) -> (result: &IndividualParticleTimeline)
        ensures
            result@ == self@.schedule,
    {
        &self.timeline
    }

    /// The current tick.
    pub fn current_tick(&self) -> (result: u64)
        ensures
            result == self@.schedule.tick,
    {
        self.timeline.current_tick()
    }

    /// Which particles are active at the current tick.
    pub fn active_mask(&self) -> (result: Vec<bool>)
        ensures
            result@.len() == self@.count(),
            forall|i: int|
                0 <= i < result@.len() ==> #[trigger] result@[i] == self@.schedule.active(i),
    {
        self.timeline.active_mask()
    }

    /// The tick up to which each particle has been predicted.
    pub fn predictor_ticks(&self) -> (result: &[u64])
        ensures
            result@ == self@.predictors,
    {
        self.predictor_ticks.as_slice()
    }

    /// Which particles were asked to wake up.
    pub fn pending_wakeup(&self) -> (result: &[bool])
        ensures
            result@ == self@.pending,
    {
        self.pending_wakeup.as_slice()
    }

    /// The tick of the next synchronization.
    pub fn next_sync_tick(&self) -> (result: Result<u64, HydroEvolution2dError>)
        requires
            self@.wf(),
        ensures
            match result {
                Ok(tick) => !self@.schedule.finished() && self@.schedule.next_sync(tick as int),
                Err(error) => self@.schedule.finished() && error
                    == HydroEvolution2dError::Timeline(IndividualTimelineError::Finished),
            },
    {
        match self.timeline.next_sync_tick() {
            Ok(tick) => Ok(tick),
            Err(error) => Err(HydroEvolution2dError::Timeline(error)),
        }
    }

    /// How many ticks a particle has to be drifted to reach a tick.
    pub fn plan_drift(
        &self,
        index: usize,
        target: u64,
        time: Result<Binary64, IndividualTimelineError>,
    ) -> (result: Result<u64, HydroEvolution2dError>)
        requires
            self@.wf(),
        ensures
            match self@.drift_fault(index, target, time) {
                Some(error) => result == Err::<u64, HydroEvolution2dError>(error),
                None => result matches Ok(ticks) && ticks == target - self@.predictors[index as int],
            },
            result matches Ok(ticks) ==> index < self@.count() && self@.predictors[index as int] + ticks
                == target && target <= LEGACY_TIMEBASE_TICKS,
    {
        if index >= self.predictor_ticks.len() {
            return Err(
                HydroEvolution2dError::InvalidState {
                    index: Some(index),
                    field: "hierarchy_particle_index",
                    value: Binary64 { bits: NAN_BITS },
                },
            );
        }
        let source: u64 = self.predictor_ticks[index];
        if source > target || target > LEGACY_TIMEBASE_TICKS {
            return match time {
                Ok(value) => Err(
                    HydroEvolution2dError::InvalidState {
                        index: Some(index),
                        field: "hierarchy_predictor_tick",
                        value,
                    },
                ),
                Err(error) => Err(HydroEvolution2dError::Timeline(error)),
            };
        }
        Ok(target - source)
    }

    /// Record a drift that was carried out over a physical duration. A drift of no duration
    /// moves nothing, not even the tick of the prediction.
    pub fn record_drift(&mut self, index: usize, target: u64, segment: Binary64)
        requires
            old(self)@.wf(),
            index < old(self)@.count(),
            old(self)@.predictors[index as int] <= target <= LEGACY_TIMEBASE_TICKS,
        ensures
            final(self)@ == (HierarchyView {
                predictors: drift_recorded(old(self)@.predictors, index as int, target, segment),
                ..old(self)@
            }),
            old(self)@.orderly() && old(self)@.reachable(target as int) ==> final(self)@.orderly(),
            old(self)@.within_tick() && target <= old(self)@.schedule.tick ==> final(self)@.within_tick(),
            final(self)@.schedule == old(self)@.schedule,
            !segment.same(Binary64 { bits: 0 }) ==> final(self)@.predictors[index as int] == target,
            segment.same(Binary64 { bits: 0 }) ==> final(self)@ == old(self)@,
            forall|i: int|
                0 <= i < old(self)@.count() && i != index ==> #[trigger] final(self)@.predictors[i]
                    == old(self)@.predictors[i],
    {
        let zero: Binary64 = Binary64 { bits: 0 };
        if !segment.equals(zero) {
            self.predictor_ticks.set(index, target);
        }
    }

    /// Move from the initial synchronization to the first one ahead, and say which particles
    /// arrive there.
    pub fn open_first_sync(&mut self, now: Binary64) -> (result: Result<
        Vec<bool>,
        HydroEvolution2dError,
    >)
        requires
            old(self)@.wf(),
        ensures
            first_sync_opened(old(self)@, now, result, final(self)@),
            result is Err ==> *final(self) == *old(self),
            old(self)@.orderly() && !old(self)@.awaiting ==> final(self)@.orderly(),
            old(self)@.orderly() && result is Ok ==> final(self)@.within_tick(),
    {
        if self.timeline.current_tick() != 0 {
            return Err(phase("initial_hierarchy_tick", now));
        }
        match self.timeline.advance_to_next_sync() {
            Ok(arriving) => {
                proof {
                    lemma_arrival(old(self)@, self@);
                }
                Ok(arriving)
            },
            Err(error) => Err(HydroEvolution2dError::Timeline(error)),
        }
    }

    /// Begin to wait for the second kicks after the first synchronization.
    pub fn close_first_sync(&mut self)
        requires
            old(self)@.wf(),
        ensures
            final(self)@ == (HierarchyView { awaiting: true, refreshed: None, ..old(self)@ }),
            old(self)@.orderly() && !old(self)@.prepared ==> final(self)@.orderly(),
            final(self)@.awaiting && final(self)@.refreshed is None,
            final(self)@.schedule == old(self)@.schedule,
            final(self)@.predictors == old(self)@.predictors,
    {
        self.awaiting_second_kick = true;
        self.refreshed_cache_tick = None;
    }

    /// Move a prepared drift to the synchronization that ends it, and say which particles
    /// arrive there.
    pub fn open_next_sync(&mut self, now: Binary64) -> (result: Result<
        Vec<bool>,
        HydroEvolution2dError,
    >)
        requires
            old(self)@.wf(),
        ensures
            match result {
                Ok(arriving) => {
                    &&& old(self)@.prepared
                    &&& !old(self)@.schedule.finished()
                    &&& arrived(old(self)@, final(self)@, arriving@)
                },
                Err(error) => {
                    &&& *final(self) == *old(self)
                    &&& if !old(self)@.prepared {
                        error == phase_error("hierarchy_unprepared_next_sync", now)
                    } else {
                        &&& old(self)@.schedule.finished()
                        &&& error == HydroEvolution2dError::Timeline(
                            IndividualTimelineError::Finished,
                        )
                    }
                },
            },
            old(self)@.orderly() ==> final(self)@.orderly(),
            old(self)@.orderly() && result is Ok ==> final(self)@.within_tick(),
            !old(self)@.prepared ==> result is Err,
            result is Ok ==> final(self)@.prepared && final(self)@.predictors == old(self)@.predictors,
    {
        if !self.prepared_next_drift {
            return Err(phase("hierarchy_unprepared_next_sync", now));
        }
        match self.timeline.advance_to_next_sync() {
            Ok(arriving) => {
                proof {
                    lemma_arrival(old(self)@, self@);
                }
                Ok(arriving)
            },
            Err(error) => Err(HydroEvolution2dError::Timeline(error)),
        }
    }

    /// Begin to wait for the second kicks after a prepared drift.
    pub fn close_next_sync(&mut self)
        requires
            old(self)@.wf(),
        ensures
            final(self)@ == (HierarchyView {
                awaiting: true,
                prepared: false,
                refreshed: None,
                ..old(self)@
            }),
            old(self)@.within_tick() ==> final(self)@.orderly(),
            final(self)@.awaiting && !final(self)@.prepared && final(self)@.refreshed is None,
            final(self)@.schedule == old(self)@.schedule,
            final(self)@.predictors == old(self)@.predictors,
    {
        self.prepared_next_drift = false;
        self.awaiting_second_kick = true;
        self.refreshed_cache_tick = None;
    }

    /// How far each particle lags behind the current tick.
    pub fn search_lags(&self, now: Binary64) -> (result: Result<Vec<u64>, HydroEvolution2dError>)
        requires
            self@.wf(),
        ensures
            match first_fault(self@.search_faults(now), self@.count()) {
                Some(error) => result matches Err(reported) && reported == error,
                None => result matches Ok(lags) && lags@.len() == self@.count() && forall|i: int|
                    0 <= i < lags@.len() ==> #[trigger] lags@[i] == self@.schedule.tick
                        - self@.predictors[i],
            },
            result matches Ok(lags) ==> forall|i: int|
                0 <= i < lags@.len() ==> self@.predictors[i] + #[trigger] lags@[i] == self@.schedule.tick,
    {
        let target: u64 = self.timeline.current_tick();
        let ghost faults = self@.search_faults(now);
        let mut lags: Vec<u64> = Vec::with_capacity(self.predictor_ticks.len());
        let mut index: usize = 0;
        while index < self.predictor_ticks.len()
            invariant
                index <= self@.predictors.len(),
                self@.wf(),
                target == self@.schedule.tick,
                faults == self@.search_faults(now),
                first_fault(faults, index as int) is None,
                lags@.len() == index,
                forall|i: int|
                    0 <= i < index ==> #[trigger] lags@[i] == self@.schedule.tick
                        - self@.predictors[i],
            decreases self@.predictors.len() - index,
        {
            let source: u64 = self.predictor_ticks[index];
            assert(source == self@.predictors[index as int]);
            if source > target {
                assert(faults(index as int) is Some);
                proof {
                    lemma_first_fault_stays(faults, index + 1, self@.count());
                }
                return Err(
                    HydroEvolution2dError::InvalidState {
                        index: Some(index),
                        field: "hierarchy_predictor_tick",
                        value: now,
                    },
                );
            }
            assert(faults(index as int) is None);
            lags.push(target - source);
            index = index + 1;
        }
        Ok(lags)
    }

    /// Open a refresh of the caches of the arrived particles.
    pub fn open_refresh(&mut self, now: Binary64) -> (result: Result<
        Vec<bool>,
        HydroEvolution2dError,
    >)
        requires
            old(self)@.wf(),
        ensures
            match result {
                Ok(active) => {
                    &&& old(self)@.awaiting
                    &&& final(self)@ == (HierarchyView { refreshed: None, ..old(self)@ })
                    &&& active@.len() == old(self)@.count()
                    &&& forall|i: int|
                        0 <= i < active@.len() ==> #[trigger] active@[i] == old(self)@.schedule.active(i)
                },
                Err(error) => {
                    &&& !old(self)@.awaiting
                    &&& error == phase_error("hierarchy_force_phase", now)
                    &&& *final(self) == *old(self)
                },
            },
            old(self)@.orderly() ==> final(self)@.orderly(),
            result is Ok <==> old(self)@.awaiting,
            result is Ok ==> final(self)@.refreshed is None && final(self)@.awaiting,
    {
        if !self.awaiting_second_kick {
            return Err(phase("hierarchy_force_phase", now));
        }
        self.refreshed_cache_tick = None;
        Ok(self.timeline.active_mask())
    }

    /// Judge one pass of a refresh. `before` and `after` are the supports around the pass
    /// and `required` the particles that the active ones need now. A pass more than there
    /// are particles is allowed.
    pub fn judge_refresh(
        &mut self,
        pass: usize,
        before: &[Binary64],
        after: &[Binary64],
        required: &[bool],
        now: Binary64,
    ) -> (result: Result<RefreshStep, HydroEvolution2dError>)
        requires
            old(self)@.wf(),
            before@.len() == old(self)@.count(),
            after@.len() == old(self)@.count(),
            required@.len() == old(self)@.count(),
        ensures
            ({
                let again = old(self)@.expanded(before@, after@) && old(self)@.stale(required@);
                &&& result == if !again {
                    Ok::<RefreshStep, HydroEvolution2dError>(RefreshStep::Done)
                } else if pass < old(self)@.count() {
                    Ok(RefreshStep::Again)
                } else {
                    Err(phase_error("hierarchy_neighbor_materialization", now))
                }
                &&& final(self)@ == (HierarchyView {
                    refreshed: if again {
                        old(self)@.refreshed
                    } else {
                        Some(old(self)@.schedule.tick as u64)
                    },
                    ..old(self)@
                })
            }),
            old(self)@.orderly() && old(self)@.awaiting ==> final(self)@.orderly(),
            result == Ok::<RefreshStep, HydroEvolution2dError>(RefreshStep::Done) ==> final(self)@.refreshed == Some(old(self)@.schedule.tick as u64),
            result == Ok::<RefreshStep, HydroEvolution2dError>(RefreshStep::Again) ==> pass < old(self)@.count() && final(self)@ == old(self)@,
            result is Err ==> pass >= old(self)@.count() && final(self)@ == old(self)@,
            !old(self)@.stale(required@) ==> result == Ok::<RefreshStep, HydroEvolution2dError>(
                RefreshStep::Done,
            ),
    {
        let active: Vec<bool> = self.timeline.active_mask();
        let current: u64 = self.timeline.current_tick();
        let mut expanded: bool = false;
        let mut stale: bool = false;
        let mut index: usize = 0;
        while index < active.len()
            invariant
                index <= active@.len(),
                self@ == old(self)@,
                self@.wf(),
                active@.len() == self@.count(),
                before@.len() == self@.count(),
                after@.len() == self@.count(),
                required@.len() == self@.count(),
                current == self@.schedule.tick,
                forall|i: int|
                    0 <= i < active@.len() ==> #[trigger] active@[i] == self@.schedule.active(i),
                expanded == (exists|i: int|
                    0 <= i < index && self@.schedule.active(i) && #[trigger] before@[i].lt(
                        after@[i],
                    )),
                stale == (exists|i: int|
                    0 <= i < index && #[trigger] required@[i] && self@.predictors[i]
                        != self@.schedule.tick),
            decreases active@.len() - index,
        {
            let ghost was_expanded = expanded;
            let ghost was_stale = stale;
            let grown: bool = before[index].less(after[index]);
            if active[index] && grown {
                expanded = true;
            }
            if required[index] && self.predictor_ticks[index] != current {
                stale = true;
            }
            proof {
                assert(active@[index as int] == self@.schedule.active(index as int));
                assert(grown == before@[index as int].lt(after@[index as int]));
                if was_expanded {
                    let i = choose|i: int|
                        0 <= i < index && self@.schedule.active(i) && #[trigger] before@[i].lt(
                            after@[i],
                        );
                    assert(before@[i].lt(after@[i]));
                }
                if was_stale {
                    let i = choose|i: int|
                        0 <= i < index && #[trigger] required@[i] && self@.predictors[i]
                            != self@.schedule.tick;
                    assert(required@[i]);
                }
            }
            index = index + 1;
        }
        if !expanded || !stale {
            self.refreshed_cache_tick = Some(current);
            return Ok(RefreshStep::Done);
        }
        if pass < self.predictor_ticks.len() {
            Ok(RefreshStep::Again)
        } else {
            Err(phase("hierarchy_neighbor_materialization", now))
        }
    }

    /// Check that the caches of the active particles were refreshed at the current tick.
    pub fn check_refreshed(&self, now: Binary64) -> (result: Result<(), HydroEvolution2dError>)
        ensures
            result == if self@.awaiting && self@.refreshed == Some(self@.schedule.tick as u64) {
                Ok::<(), HydroEvolution2dError>(())
            } else {
                Err(phase_error("hierarchy_unrefreshed_active_cache", now))
            },
            !self@.awaiting || self@.refreshed is None ==> result is Err,
    {
        let current: u64 = self.timeline.current_tick();
        let refreshed: bool = match self.refreshed_cache_tick {
            Some(tick) => tick == current,
            None => false,
        };
        if self.awaiting_second_kick && refreshed {
            Ok(())
        } else {
            Err(phase("hierarchy_unrefreshed_active_cache", now))
        }
    }

    /// Check the phase and the columns of the second kicks.
    pub fn check_second_kicks(&self, rates: RateLengths2d, wakeup: usize, now: Binary64) -> (result:
        Result<(), HydroEvolution2dError>)
        requires
            self@.wf(),
        ensures
            result == outcome(
                if !self@.awaiting {
                    Some(phase_error("hierarchy_second_kick_phase", now))
                } else {
                    first(
                        first_fault(length_faults(self@.count() as usize, rates.columns()), 6),
                        if wakeup != self@.count() {
                            Some(
                                HydroEvolution2dError::MismatchedLength {
                                    field: "wakeup",
                                    expected: self@.count() as usize,
                                    actual: wakeup,
                                },
                            )
                        } else {
                            None
                        },
                    )
                },
            ),
            result is Ok ==> self@.awaiting && wakeup == self@.count(),
            !self@.awaiting ==> result is Err,
    {
        if !self.awaiting_second_kick {
            return Err(phase("hierarchy_second_kick_phase", now));
        }
        let count: usize = self.predictor_ticks.len();
        if let Err(error) = validate_rate_lengths(rates, count) {
            return Err(error);
        }
        if wakeup != count {
            return Err(
                HydroEvolution2dError::MismatchedLength {
                    field: "wakeup",
                    expected: count,
                    actual: wakeup,
                },
            );
        }
        Ok(())
    }

    /// Close the second kicks: the hierarchy is between two steps, and the wakeups that the
    /// endpoint asks for are pending.
    pub fn record_second_kicks(&mut self, wakeup: Vec<bool>)
        requires
            old(self)@.wf(),
            wakeup@.len() == old(self)@.count(),
        ensures
            final(self)@ == (HierarchyView {
                awaiting: false,
                prepared: false,
                refreshed: None,
                pending: wakeup@,
                ..old(self)@
            }),
            old(self)@.orderly() && old(self)@.awaiting ==> final(self)@.orderly(),
            !final(self)@.awaiting && !final(self)@.prepared && final(self)@.refreshed is None,
            final(self)@.pending == wakeup@,
            final(self)@.schedule == old(self)@.schedule,
            final(self)@.predictors == old(self)@.predictors,
    {
        self.pending_wakeup = wakeup;
        self.awaiting_second_kick = false;
        self.prepared_next_drift = false;
        self.refreshed_cache_tick = None;
    }

    /// Give the active particles their next steps. Returns which particles take part.
    pub fn open_first_kicks(&mut self, requests: &[Option<TickRequest>], now: Binary64) -> (result:
        Result<Vec<bool>, HydroEvolution2dError>)
        requires
            old(self)@.wf(),
        ensures
            first_kicks_opened(old(self)@, requests@, now, result, final(self)@),
            result is Err ==> *final(self) == *old(self),
            old(self)@.orderly() ==> final(self)@.orderly(),
    {
        if self.awaiting_second_kick || self.prepared_next_drift {
            return Err(phase("hierarchy_first_kick_phase", now));
        }
        let active: Vec<bool> = self.timeline.active_mask();
        match self.timeline.reassign_active_bounds(requests) {
            Ok(_) => {
                assert forall|i: int| 0 <= i < self@.predictors.len() && old(self)@.orderly() implies self@.reachable(#[trigger] self@.predictors[i] as int) by {
                    assert(old(self)@.reachable(old(self)@.predictors[i] as int));
                }
                Ok(active)
            },
            Err(error) => Err(HydroEvolution2dError::Timeline(error)),
        }
    }

    /// Refuse to go on while wakeups are pending.
    pub fn reject_wakeups(&self, now: Binary64) -> (result: Result<(), HydroEvolution2dError>)
        ensures
            result == if self@.pending.contains(true) {
                Err(phase_error("hierarchy_pending_wakeup", now))
            } else {
                Ok::<(), HydroEvolution2dError>(())
            },
            result is Ok <==> forall|i: int| 0 <= i < self@.pending.len() ==> !#[trigger] self@.pending[i],
    {
        let mut index: usize = 0;
        while index < self.pending_wakeup.len()
            invariant
                index <= self@.pending.len(),
                forall|i: int| 0 <= i < index ==> !#[trigger] self@.pending[i],
            decreases self@.pending.len() - index,
        {
            if self.pending_wakeup[index] {
                assert(self@.pending[index as int]);
                return Err(phase("hierarchy_pending_wakeup", now));
            }
            index = index + 1;
        }
        Ok(())
    }

    /// Take over a timeline on which the pending wakeups were carried out. None is pending
    /// afterwards.
    pub fn settle_wakeups(&mut self, timeline: IndividualParticleTimeline)
        requires
            old(self)@.wf(),
            timeline@.wf(),
            timeline@.tick == old(self)@.schedule.tick,
            timeline@.steps.len() == old(self)@.count(),
        ensures
            final(self)@ == wakeups_settled(old(self)@, timeline@),
            old(self)@.orderly() && !old(self)@.prepared ==> final(self)@.orderly(),
    {
        let count: usize = self.pending_wakeup.len();
        self.timeline = timeline;
        self.pending_wakeup = vec![false;count];
        assert forall|i: int| 0 <= i < self@.predictors.len() && old(self)@.orderly() && !old(self)@.prepared implies self@.reachable(#[trigger] self@.predictors[i] as int) by {
            assert(old(self)@.reachable(old(self)@.predictors[i] as int));
        }
    }

    /// How many ticks of the abandoned half kick of a woken particle are taken back: what
    /// its old step had left, if its new step begins now.
    pub fn reversed_ticks(&self, transition: WakeupTransition, now: Binary64) -> (result: Result<
        Option<u64>,
        HydroEvolution2dError,
    >)
        requires
            self@.wf(),
            transition.index < self@.count(),
        ensures
            result == if self@.predictors[transition.index as int] != self@.schedule.tick {
                Err::<Option<u64>, HydroEvolution2dError>(
                    HydroEvolution2dError::InvalidState {
                        index: Some(transition.index),
                        field: "wakeup_neighbor_predictor_tick",
                        value: now,
                    },
                )
            } else if transition.new_step_active_at_current && transition.old_endpoint_tick
                > self@.schedule.tick {
                Ok(Some((transition.old_endpoint_tick - self@.schedule.tick) as u64))
            } else {
                Ok(None)
            },
            result matches Ok(Some(ticks)) ==> self@.schedule.tick + ticks == transition.old_endpoint_tick
                && ticks > 0 && transition.new_step_active_at_current,
            !transition.new_step_active_at_current ==> !(result matches Ok(Some(_))),
            result is Err <==> self@.predictors[transition.index as int] != self@.schedule.tick,
    {
        let current: u64 = self.timeline.current_tick();
        let predicted: u64 = self.predictor_ticks[transition.index];
        if predicted != current {
            return Err(
                HydroEvolution2dError::InvalidState {
                    index: Some(transition.index),
                    field: "wakeup_neighbor_predictor_tick",
                    value: now,
                },
            );
        }
        let reverse_start: u64 = if transition.old_endpoint_tick < predicted {
            predicted
        } else {
            transition.old_endpoint_tick
        };
        if transition.new_step_active_at_current && current < reverse_start {
            Ok(Some(reverse_start - current))
        } else {
            Ok(None)
        }
    }

    /// Close the first kicks: the next drift is prepared.
    pub fn record_first_kicks(&mut self)
        requires
            old(self)@.wf(),
        ensures
            final(self)@ == (HierarchyView { prepared: true, ..old(self)@ }),
            old(self)@.orderly() && !old(self)@.awaiting && !old(self)@.prepared ==> final(self)@.orderly(),
            final(self)@.prepared,
            final(self)@.awaiting == old(self)@.awaiting,
            final(self)@.schedule == old(self)@.schedule,
            final(self)@.predictors == old(self)@.predictors,
    {
        self.prepared_next_drift = true;
        assert forall|i: int| 0 <= i < self@.predictors.len() && old(self)@.orderly() && !old(self)@.prepared implies self@.reachable(#[trigger] self@.predictors[i] as int) by {
            assert(old(self)@.reachable(old(self)@.predictors[i] as int));
        }
    }

    /// Check a drift of all particles to an output tick. `time` is the physical time of the
    /// tick.
    pub fn check_output_drift(
        &self,
        tick: u64,
        time: Result<Binary64, IndividualTimelineError>,
        now: Binary64,
    ) -> (result: Result<(), HydroEvolution2dError>)
        requires
            self@.wf(),
        ensures
            result == if !self@.prepared {
                Err::<(), HydroEvolution2dError>(
                    phase_error("hierarchy_unprepared_output_drift", now),
                )
            } else if self@.schedule.finished() {
                Err(HydroEvolution2dError::Timeline(IndividualTimelineError::Finished))
            } else if !self@.output_allowed(tick) {
                match time {
                    Ok(value) => Err(phase_error("scheduled_output_tick", value)),
                    Err(error) => Err(HydroEvolution2dError::Timeline(error)),
                }
            } else {
                Ok(())
            },
            result is Ok ==> self@.reachable(tick as int),
            result is Ok ==> self@.prepared && self@.schedule.tick <= tick,
            !self@.prepared ==> result is Err,
    {
        if !self.prepared_next_drift {
            return Err(phase("hierarchy_unprepared_output_drift", now));
        }
        let next_sync: u64 = match self.timeline.next_sync_tick() {
            Ok(next) => next,
            Err(error) => {
                return Err(HydroEvolution2dError::Timeline(error));
            },
        };
        proof {
            assert(self@.schedule.next_sync(next_sync as int));
            assert forall|other: int| #[trigger] self@.schedule.next_sync(other) implies other
                == next_sync by {
                lemma_next_sync_unique(self@.schedule, other, next_sync as int);
            }
        }
        if tick < self.timeline.current_tick() || tick > next_sync {
            return match time {
                Ok(value) => Err(phase("scheduled_output_tick", value)),
                Err(error) => Err(HydroEvolution2dError::Timeline(error)),
            };
        }
        Ok(())
    }
}

/// Whether a reassignment of steps is refused with an error.
pub open spec fn reassignment_refused(
    schedule: ScheduleView,
    requests: Seq<Option<TickRequest>>,
    error: IndividualTimelineError,
) -> bool {
    if requests.len() != schedule.steps.len() {
        error == IndividualTimelineError::MismatchedLength {
            expected: schedule.steps.len() as usize,
            actual: requests.len() as usize,
        }
    } else if schedule.finished() {
        error == IndividualTimelineError::Finished
    } else {
        exists|i: int|
            schedule.first_fault(requests, i) && #[trigger] schedule.reassignment_fault(requests, i)
                == Some(error)
    }
}

/// What an attempt to give the active particles their next steps comes to.
pub open spec fn first_kicks_opened(
    before: HierarchyView,
    requests: Seq<Option<TickRequest>>,
    now: Binary64,
    result: Result<Vec<bool>, HydroEvolution2dError>,
    after: HierarchyView,
) -> bool {
    match result {
        Ok(active) => {
            &&& !before.awaiting && !before.prepared
            &&& !before.schedule.finished()
            &&& requests.len() == before.count()
            &&& forall|i: int|
                0 <= i < requests.len() ==> (#[trigger] before.schedule.reassignment_fault(
                    requests,
                    i,
                )) is None
            &&& before.schedule.reassigned(requests, after.schedule)
            &&& after.wf()
            &&& after == (HierarchyView { schedule: after.schedule, ..before })
            &&& active@.len() == before.count()
            &&& forall|i: int|
                0 <= i < active@.len() ==> #[trigger] active@[i] == before.schedule.active(i)
        },
        Err(error) => {
            &&& after == before
            &&& if before.awaiting || before.prepared {
                error == phase_error("hierarchy_first_kick_phase", now)
            } else {
                error matches HydroEvolution2dError::Timeline(fault) && reassignment_refused(
                    before.schedule,
                    requests,
                    fault,
                )
            }
        },
    }
}

/// A hierarchy after it has taken over a timeline on which its wakeups were carried out.
pub open spec fn wakeups_settled(before: HierarchyView, timeline: ScheduleView) -> HierarchyView {
    HierarchyView {
        schedule: timeline,
        pending: Seq::new(before.pending.len(), |i: int| false),
        ..before
    }
}

/// What an attempt to move on to the first synchronization comes to.
pub open spec fn first_sync_opened(
    before: HierarchyView,
    now: Binary64,
    result: Result<Vec<bool>, HydroEvolution2dError>,
    after: HierarchyView,
) -> bool {
    match result {
        Ok(arriving) => before.schedule.tick == 0 && arrived(before, after, arriving@),
        Err(error) => {
            &&& before.schedule.tick != 0
            &&& error == phase_error("initial_hierarchy_tick", now)
            &&& after == before
        },
    }
}

/// The ticks of the predictions after a drift of one particle. A drift of no duration moves
/// nothing.
pub open spec fn drift_recorded(
    predictors: Seq<u64>,
    index: int,
    target: u64,
    segment: Binary64,
) -> Seq<u64> {
    if segment.same(Binary64 { bits: 0 }) {
        predictors
    } else {
        predictors.update(index, target)
    }
}

/// The ticks of the predictions after drifts of the selected ones among the first `count`
/// particles, one after the other.
pub open spec fn drifts_recorded(
    predictors: Seq<u64>,
    selected: Seq<bool>,
    segments: Seq<Binary64>,
    target: u64,
    count: int,
) -> Seq<u64>
    decreases count,
{
    if count <= 0 {
        predictors
    } else {
        let earlier = drifts_recorded(predictors, selected, segments, target, count - 1);
        if selected[count - 1] {
            drift_recorded(earlier, count - 1, target, segments[count - 1])
        } else {
            earlier
        }
    }
}

/// Whether a hierarchy has moved on to its next synchronization with these arrivals.
pub open spec fn arrived(before: HierarchyView, after: HierarchyView, arriving: Seq<bool>) -> bool {
    &&& before.schedule.next_sync(after.schedule.tick)
    &&& after == (HierarchyView {
        schedule: ScheduleView { tick: after.schedule.tick, ..before.schedule },
        ..before
    })
    &&& after.wf()
    &&& arriving.len() == before.count()
    &&& forall|i: int|
        0 <= i < arriving.len() ==> #[trigger] arriving[i] == after.schedule.active(i)
}

proof fn lemma_next_sync_unique(schedule: ScheduleView, a: int, b: int)
    requires
        schedule.next_sync(a),
        schedule.next_sync(b),
    ensures
        a == b,
{
    if !schedule.unassigned() {
        let i = choose|i: int|
            0 <= i < schedule.steps.len() && a == crate::ticks::endpoint(
                schedule.tick,
                #[trigger] schedule.steps[i] as int,
            );
        let j = choose|j: int|
            0 <= j < schedule.steps.len() && b == crate::ticks::endpoint(
                schedule.tick,
                #[trigger] schedule.steps[j] as int,
            );
        assert(a <= crate::ticks::endpoint(schedule.tick, schedule.steps[j] as int));
        assert(b <= crate::ticks::endpoint(schedule.tick, schedule.steps[i] as int));
    }
}

proof fn lemma_arrival(before: HierarchyView, after: HierarchyView)
    requires
        before.wf(),
        !before.schedule.finished(),
        before.schedule.next_sync(after.schedule.tick),
        after == (HierarchyView {
            schedule: ScheduleView { tick: after.schedule.tick, ..before.schedule },
            ..before
        }),
    ensures
        before.schedule.tick <= after.schedule.tick,
        before.orderly() ==> after.within_tick(),
{
    if !before.schedule.unassigned() {
        law_synchronization_advances(before.schedule, after.schedule.tick);
    }
    if before.orderly() {
        assert forall|i: int| 0 <= i < after.predictors.len() implies #[trigger] after.predictors[i]
            <= after.schedule.tick by {
            assert(before.reachable(before.predictors[i] as int));
        }
    }
}

/// Without wakeups a prepared drift ends later than it began: once the active particles have
/// taken their steps, the next synchronization lies strictly ahead and on the timeline, also
/// where a particle had no step before.
pub proof fn law_prepared_drifts_advance(
    before: HierarchyView,
    requests: Seq<Option<TickRequest>>,
    now: Binary64,
    result: Result<Vec<bool>, HydroEvolution2dError>,
    kicked: HierarchyView,
    prepared: HierarchyView,
    tick: int,
)
    requires
        before.wf(),
        first_kicks_opened(before, requests, now, result, kicked),
        result is Ok,
        prepared == (HierarchyView { prepared: true, ..kicked }),
        prepared.schedule.next_sync(tick),
    ensures
        prepared.schedule.tick == before.schedule.tick,
        before.schedule.tick < tick <= LEGACY_TIMEBASE_TICKS,
{
    let steps = prepared.schedule.steps;
    assert forall|i: int| 0 <= i < steps.len() implies #[trigger] steps[i] != 0 by {
        assert(before.schedule.reassignment_fault(requests, i) is None);
        assert(before.schedule.slot_reassigned(requests[i], kicked.schedule, i));
        vstd::arithmetic::power2::lemma_pow2_pos(kicked.schedule.bins[i] as nat);
    }
    law_synchronization_advances(prepared.schedule, tick);
}

/// A prepared drift ends later than it began after wakeups too: once a timeline on which
/// every particle has a step was taken over, the next synchronization lies strictly ahead
/// and on the timeline, and no wakeup is pending.
pub proof fn law_prepared_drifts_advance_after_wakeups(
    before: HierarchyView,
    requests: Seq<Option<TickRequest>>,
    now: Binary64,
    result: Result<Vec<bool>, HydroEvolution2dError>,
    kicked: HierarchyView,
    timeline: ScheduleView,
    prepared: HierarchyView,
    tick: int,
)
    requires
        before.wf(),
        first_kicks_opened(before, requests, now, result, kicked),
        result is Ok,
        timeline.wf(),
        timeline.tick == kicked.schedule.tick,
        timeline.steps.len() == kicked.count(),
        !timeline.unassigned(),
        prepared == (HierarchyView { prepared: true, ..wakeups_settled(kicked, timeline) }),
        prepared.schedule.next_sync(tick),
    ensures
        prepared.wf(),
        prepared.schedule.tick == before.schedule.tick,
        before.schedule.tick < tick <= LEGACY_TIMEBASE_TICKS,
        !prepared.pending.contains(true),
{
    law_synchronization_advances(prepared.schedule, tick);
}

/// A drift is prepared once: while one is prepared, every further attempt at the first kicks
/// is refused and changes nothing.
pub proof fn law_drifts_are_prepared_once(
    prepared: HierarchyView,
    requests: Seq<Option<TickRequest>>,
    now: Binary64,
    result: Result<Vec<bool>, HydroEvolution2dError>,
    after: HierarchyView,
)
    requires
        prepared.prepared,
        first_kicks_opened(prepared, requests, now, result, after),
    ensures
        result == Err::<Vec<bool>, HydroEvolution2dError>(
            phase_error("hierarchy_first_kick_phase", now),
        ),
        after == prepared,
{
}

/// The first synchronization of a fresh hierarchy lies at the end of its smallest step, and
/// exactly the particles with that step arrive there.
pub proof fn law_first_synchronization(
    fresh: HierarchyView,
    now: Binary64,
    result: Result<Vec<bool>, HydroEvolution2dError>,
    opened: HierarchyView,
)
    requires
        fresh.wf(),
        fresh.schedule.tick == 0,
        !fresh.schedule.unassigned(),
        first_sync_opened(fresh, now, result, opened),
    ensures
        result is Ok,
        result->Ok_0@.len() == fresh.count(),
        exists|i: int|
            0 <= i < fresh.count() && #[trigger] fresh.schedule.steps[i] == opened.schedule.tick,
        forall|i: int|
            0 <= i < fresh.count() ==> opened.schedule.tick <= #[trigger] fresh.schedule.steps[i],
        forall|i: int|
            0 <= i < fresh.count() ==> #[trigger] result->Ok_0@[i] == (fresh.schedule.steps[i]
                == opened.schedule.tick),
{
    let tick = opened.schedule.tick;
    let steps = fresh.schedule.steps;
    assert forall|i: int| 0 <= i < steps.len() implies crate::ticks::endpoint(
        0,
        #[trigger] steps[i] as int,
    ) == steps[i] by {
        let step = steps[i] as int;
        assert((0int / step + 1) * step == step) by (nonlinear_arith)
            requires
                step > 0,
        ;
    }
    law_synchronization_advances(fresh.schedule, tick);
    assert forall|i: int| 0 <= i < fresh.count() implies #[trigger] result->Ok_0@[i] == (steps[i]
        == tick) by {
        assert(opened.schedule.active(i) == (steps[i] == tick)) by {
            assert(tick <= crate::ticks::endpoint(0, steps[i] as int));
            let step = steps[i] as int;
            if tick < step {
                vstd::arithmetic::div_mod::lemma_small_mod(tick as nat, step as nat);
            } else {
                vstd::arithmetic::div_mod::lemma_mod_self_0(step);
            }
        }
    }
}

/// Drifting the arriving particles of a fresh hierarchy brings exactly the particles with
/// the smallest step to the first synchronization and leaves all others at the beginning,
/// as long as no drift has a duration of zero.
pub proof fn law_first_drift(
    fresh: HierarchyView,
    now: Binary64,
    result: Result<Vec<bool>, HydroEvolution2dError>,
    opened: HierarchyView,
    segments: Seq<Binary64>,
    i: int,
)
    requires
        fresh.wf(),
        fresh.schedule.tick == 0,
        !fresh.schedule.unassigned(),
        forall|k: int| 0 <= k < fresh.count() ==> #[trigger] fresh.predictors[k] == 0,
        first_sync_opened(fresh, now, result, opened),
        segments.len() == fresh.count(),
        forall|k: int|
            0 <= k < segments.len() && result->Ok_0@[k] ==> !(#[trigger] segments[k]).same(
                Binary64 { bits: 0 },
            ),
        0 <= i < fresh.count(),
    ensures
        drifts_recorded(
            opened.predictors,
            result->Ok_0@,
            segments,
            opened.schedule.tick as u64,
            fresh.count(),
        )[i] == if fresh.schedule.steps[i] == opened.schedule.tick {
            opened.schedule.tick
        } else {
            0
        },
{
    law_first_synchronization(fresh, now, result, opened);
    lemma_drifts_recorded(
        opened.predictors,
        result->Ok_0@,
        segments,
        opened.schedule.tick as u64,
        fresh.count(),
        i,
    );
}

proof fn lemma_drifts_recorded(
    predictors: Seq<u64>,
    selected: Seq<bool>,
    segments: Seq<Binary64>,
    target: u64,
    count: int,
    i: int,
)
    requires
        0 <= count <= predictors.len(),
        count <= segments.len(),
        0 <= i < predictors.len(),
        forall|k: int|
            0 <= k < segments.len() && selected[k] ==> !(#[trigger] segments[k]).same(
                Binary64 { bits: 0 },
            ),
    ensures
        drifts_recorded(predictors, selected, segments, target, count).len() == predictors.len(),
        drifts_recorded(predictors, selected, segments, target, count)[i] == if i < count
            && selected[i] {
            target
        } else {
            predictors[i]
        },
    decreases count,
{
    if count > 0 {
        lemma_drifts_recorded(predictors, selected, segments, target, count - 1, i);
        assert(selected[count - 1] ==> !segments[count - 1].same(Binary64 { bits: 0 }));
    }
}

/// The first synchronization is reached once: every later attempt is refused and changes
/// nothing.
pub proof fn law_first_synchronization_happens_once(
    fresh: HierarchyView,
    now: Binary64,
    result: Result<Vec<bool>, HydroEvolution2dError>,
    opened: HierarchyView,
    later: HierarchyView,
    again: Result<Vec<bool>, HydroEvolution2dError>,
    after: HierarchyView,
)
    requires
        fresh.wf(),
        !fresh.schedule.unassigned(),
        first_sync_opened(fresh, now, result, opened),
        later.schedule.tick >= opened.schedule.tick,
        first_sync_opened(later, now, again, after),
    ensures
        again == Err::<Vec<bool>, HydroEvolution2dError>(
            phase_error("initial_hierarchy_tick", now),
        ),
        after == later,
{
    if result is Ok {
        law_synchronization_advances(fresh.schedule, opened.schedule.tick);
    }
}

/// The fault of the lengths and the floor of a beginning hierarchy.
pub open spec fn beginning_fault(
    state: HydroMfmState2d,
    rates: RateLengths2d,
    timebins: int,
    minimum_specific_internal_energy: Binary64,
) -> Option<HydroEvolution2dError> {
    first(
        evolving_fault(state, rates),
        first(
            if timebins != state.positions@.len() {
                Some(
                    HydroEvolution2dError::MismatchedLength {
                        field: "initial_timebins",
                        expected: state.positions@.len() as usize,
                        actual: timebins as usize,
                    },
                )
            } else {
                None
            },
            floor_fault(minimum_specific_internal_energy),
        ),
    )
}

/// The faults of a list of timebins.
pub open spec fn timebin_faults(
    timebins: Seq<PublicHydroInitialTimebin2d>,
    requested: Seq<Binary64>,
    durations: Seq<Binary64>,
) -> spec_fn(int) -> Option<HydroEvolution2dError> {
    |i: int|
        state_fault(
            Some(i as usize),
            "initial_timebin",
            timebins[i].duration,
            timebin_consistent(timebins[i], requested[i], durations[i]),
        )
}

/// Whether every timebin holds a step that a particle can take.
pub open spec fn all_assigned(timebins: Seq<PublicHydroInitialTimebin2d>) -> bool {
    forall|i: int| 0 <= i < timebins.len() ==> assigned_step((#[trigger] timebins[i]).ticks as int)
}

/// Begin a hierarchy from a synchronized state. `requested` holds the timestep of every bin
/// in ticks, truncated, and `durations` what the ticks of every bin come to.
pub fn begin_public_hydro_initial_hierarchy_2d(
    state: &HydroMfmState2d,
    old_rates: RateLengths2d,
    timebins: &[PublicHydroInitialTimebin2d],
    requested: &[Binary64],
    durations: &[Binary64],
    time_begin: Binary64,
    time_max: Binary64,
    minimum_specific_internal_energy: Binary64,
) -> (result: Result<PublicHydroInitialHierarchy2d, HydroEvolution2dError>)
    requires
        requested@.len() == timebins@.len(),
        durations@.len() == timebins@.len(),
    ensures
        match beginning_fault(
            *state,
            old_rates,
            timebins@.len() as int,
            minimum_specific_internal_energy,
        ) {
            Some(error) => result matches Err(reported) && reported == error,
            None => if !valid_span(time_begin, time_max) || timebins@.len() == 0 {
                result matches Err(reported) && reported == HydroEvolution2dError::Timeline(
                    IndividualTimelineError::InvalidTimeline,
                )
            } else if !all_assigned(timebins@) {
                result matches Err(reported) && reported == HydroEvolution2dError::Timeline(
                    IndividualTimelineError::InvalidStep,
                )
            } else {
                match first_fault(
                    timebin_faults(timebins@, requested@, durations@),
                    timebins@.len() as int,
                ) {
                    Some(error) => result matches Err(reported) && reported == error,
                    None => result matches Ok(hierarchy) && {
                        &&& hierarchy@.orderly()
                        &&& hierarchy@.schedule.time_begin == time_begin
                        &&& hierarchy@.schedule.time_max == time_max
                        &&& hierarchy@.schedule.tick == 0
                        &&& hierarchy@.schedule.steps == Seq::new(
                            timebins@.len(),
                            |i: int| timebins@[i].ticks,
                        )
                        &&& hierarchy@.schedule.begins == Seq::new(timebins@.len(), |i: int| 0u64)
                        &&& hierarchy@.predictors == Seq::new(timebins@.len(), |i: int| 0u64)
                        &&& hierarchy@.pending == Seq::new(timebins@.len(), |i: int| false)
                        &&& !hierarchy@.awaiting && !hierarchy@.prepared
                        &&& hierarchy@.refreshed is None
                    },
                }
            },
        },
        result matches Ok(hierarchy) ==> {
            &&& timebins@.len() == state.positions@.len() && timebins@.len() > 0
            &&& time_begin.lt(time_max)
            &&& hierarchy@.count() == timebins@.len()
            &&& forall|i: int|
                0 <= i < timebins@.len() ==> #[trigger] hierarchy@.schedule.steps[i]
                    == timebins@[i].ticks
        },
{
    if let Err(error) = validate_evolving(state, old_rates) {
        return Err(error);
    }
    if timebins.len() != state.positions.len() {
        return Err(
            HydroEvolution2dError::MismatchedLength {
                field: "initial_timebins",
                expected: state.positions.len(),
                actual: timebins.len(),
            },
        );
    }
    if let Err(error) = check_state(
        None,
        "minimum_specific_internal_energy",
        minimum_specific_internal_energy,
        minimum_specific_internal_energy.is_nonnegative(),
    ) {
        return Err(error);
    }
    let mut steps: Vec<u64> = Vec::with_capacity(timebins.len());
    let mut index: usize = 0;
    while index < timebins.len()
        invariant
            index <= timebins@.len(),
            steps@ == Seq::new(index as nat, |i: int| timebins@[i].ticks),
        decreases timebins@.len() - index,
    {
        steps.push(timebins[index].ticks);
        index = index + 1;
    }
    let timeline: IndividualParticleTimeline = match IndividualParticleTimeline::from_initial_steps(
        time_begin,
        time_max,
        steps.as_slice(),
    ) {
        Ok(timeline) => timeline,
        Err(error) => {
            proof {
                if valid_span(time_begin, time_max) && timebins@.len() > 0 {
                    let i = choose|i: int|
                        0 <= i < steps@.len() && !assigned_step(#[trigger] steps@[i] as int);
                    assert(!assigned_step(timebins@[i].ticks as int));
                }
            }
            return Err(HydroEvolution2dError::Timeline(error));
        },
    };
    assert forall|i: int| 0 <= i < timebins@.len() implies assigned_step(
        (#[trigger] timebins@[i]).ticks as int,
    ) by {
        assert(assigned_step(steps@[i] as int));
    }
    let ghost faults = timebin_faults(timebins@, requested@, durations@);
    let mut bin: usize = 0;
    while bin < timebins.len()
        invariant
            bin <= timebins@.len(),
            requested@.len() == timebins@.len(),
            durations@.len() == timebins@.len(),
            timebins@.len() > 0,
            valid_span(time_begin, time_max),
            all_assigned(timebins@),
            beginning_fault(
                *state,
                old_rates,
                timebins@.len() as int,
                minimum_specific_internal_energy,
            ) is None,
            faults == timebin_faults(timebins@, requested@, durations@),
            first_fault(faults, bin as int) is None,
        decreases timebins@.len() - bin,
    {
        assert(assigned_step(timebins@[bin as int].ticks as int));
        if let Err(error) = validate_initial_timebin(
            bin,
            timebins[bin],
            requested[bin],
            durations[bin],
        ) {
            assert(faults(bin as int) == Some(error));
            proof {
                lemma_first_fault_stays(faults, bin + 1, timebins@.len() as int);
            }
            return Err(error);
        }
        assert(faults(bin as int) is None);
        bin = bin + 1;
    }
    Ok(PublicHydroInitialHierarchy2d::begin(timeline))
}

/// The arithmetic of an energy kick of one particle.
#[derive(Clone, Copy, Debug, PartialEq, Eq, Structural)]
pub struct EnergyKick {
    pub duration: Binary64,
    /// The energy after the kick without a limit.
    pub candidate: Binary64,
    /// Half the energy before the kick.
    pub half_previous: Binary64,
}

impl EnergyKick {
    /// The fault of the kick: its duration, then the limited energy.
    pub open spec fn fault(self, floor: Binary64) -> Option<HydroEvolution2dError> {
        first(
            state_fault(
                None,
                "internal_energy_kick_duration",
                self.duration,
                self.duration.nonnegative(),
            ),
            state_fault(
                None,
                "specific_internal_energy",
                self.energy(floor),
                self.energy(floor).positive(),
            ),
        )
    }

    /// The energy after the kick.
    pub open spec fn energy(self, floor: Binary64) -> Binary64 {
        limited_energy_2d(self.candidate, self.half_previous, floor)
    }
}

/// The faults of kicking the active particles.
pub open spec fn kick_faults(
    active: Seq<bool>,
    kicks: Seq<EnergyKick>,
    floor: Binary64,
) -> spec_fn(int) -> Option<HydroEvolution2dError> {
    |i: int|
        if active[i] {
            kicks[i].fault(floor)
        } else {
            None
        }
}

/// The energies after the kicks, for the active particles alone.
pub open spec fn kicked_energies(
    active: Seq<bool>,
    kicks: Seq<EnergyKick>,
    floor: Binary64,
) -> Seq<Option<Binary64>> {
    Seq::new(
        active.len(),
        |i: int|
            if active[i] {
                Some(kicks[i].energy(floor))
            } else {
                None
            },
    )
}

/// The faults of kicking the active particles where the inactive ones may have faults of
/// their own.
spec fn guarded_kick_faults(
    active: Seq<bool>,
    kicks: Seq<EnergyKick>,
    inactive: Seq<Option<HydroEvolution2dError>>,
    floor: Binary64,
) -> spec_fn(int) -> Option<HydroEvolution2dError> {
    |i: int|
        if active[i] {
            kicks[i].fault(floor)
        } else {
            inactive[i]
        }
}

fn guarded_kick_energies(
    active: &[bool],
    kicks: &[EnergyKick],
    inactive: &[Option<HydroEvolution2dError>],
    floor: Binary64,
) -> (result: Result<Vec<Option<Binary64>>, HydroEvolution2dError>)
    requires
        kicks@.len() == active@.len(),
        inactive@.len() == active@.len(),
    ensures
        match first_fault(
            guarded_kick_faults(active@, kicks@, inactive@, floor),
            active@.len() as int,
        ) {
            Some(error) => result matches Err(reported) && reported == error,
            None => result matches Ok(energies) && energies@ == kicked_energies(
                active@,
                kicks@,
                floor,
            ),
        },
{
    let ghost faults = guarded_kick_faults(active@, kicks@, inactive@, floor);
    let mut energies: Vec<Option<Binary64>> = Vec::with_capacity(active.len());
    let mut index: usize = 0;
    while index < active.len()
        invariant
            index <= active@.len(),
            kicks@.len() == active@.len(),
            inactive@.len() == active@.len(),
            faults == guarded_kick_faults(active@, kicks@, inactive@, floor),
            first_fault(faults, index as int) is None,
            energies@ == kicked_energies(active@, kicks@, floor).take(index as int),
        decreases active@.len() - index,
    {
        let kicked: Result<Option<Binary64>, HydroEvolution2dError> = if active[index] {
            let kick: EnergyKick = kicks[index];
            match limited_internal_energy_update_2d(
                kick.duration,
                kick.candidate,
                kick.half_previous,
                floor,
            ) {
                Ok(energy) => Ok(Some(energy)),
                Err(error) => Err(error),
            }
        } else {
            match inactive[index] {
                Some(error) => Err(error),
                None => Ok(None),
            }
        };
        match kicked {
            Ok(energy) => {
                assert(faults(index as int) is None);
                assert(energy == kicked_energies(active@, kicks@, floor)[index as int]);
                energies.push(energy);
            },
            Err(error) => {
                assert(faults(index as int) == Some(error));
                proof {
                    lemma_first_fault_stays(faults, index + 1, active@.len() as int);
                }
                return Err(error);
            },
        }
        index = index + 1;
    }
    assert(energies@ =~= kicked_energies(active@, kicks@, floor));
    Ok(energies)
}

/// Kick the energies of the active particles and leave the others alone.
pub fn kick_energies(active: &[bool], kicks: &[EnergyKick], floor: Binary64) -> (result: Result<
    Vec<Option<Binary64>>,
    HydroEvolution2dError,
>)
    requires
        kicks@.len() == active@.len(),
    ensures
        match first_fault(kick_faults(active@, kicks@, floor), active@.len() as int) {
            Some(error) => result matches Err(reported) && reported == error,
            None => result matches Ok(energies) && energies@ == kicked_energies(
                active@,
                kicks@,
                floor,
            ),
        },
        result matches Ok(energies) ==> energies@.len() == active@.len() && forall|i: int|
            0 <= i < active@.len() ==> (active@[i] <==> (#[trigger] energies@[i]) is Some),
{
    let mut inactive: Vec<Option<HydroEvolution2dError>> = Vec::with_capacity(active.len());
    while inactive.len() < active.len()
        invariant
            inactive@.len() <= active@.len(),
            forall|i: int| 0 <= i < inactive@.len() ==> (#[trigger] inactive@[i]) is None,
        decreases active@.len() - inactive@.len(),
    {
        inactive.push(None);
    }
    proof {
        lemma_same_first_fault(
            guarded_kick_faults(active@, kicks@, inactive@, floor),
            kick_faults(active@, kicks@, floor),
            active@.len() as int,
        );
    }
    guarded_kick_energies(active, kicks, inactive.as_slice(), floor)
}

/// The faults of the second kicks: an inactive particle whose rate is not the retained one,
/// or an active one whose kick fails.
pub open spec fn second_kick_faults(
    active: Seq<bool>,
    endpoint: Seq<ParticleRate2d>,
    retained: Seq<ParticleRate2d>,
    kicks: Seq<EnergyKick>,
    floor: Binary64,
) -> spec_fn(int) -> Option<HydroEvolution2dError> {
    |i: int|
        if active[i] {
            kicks[i].fault(floor)
        } else {
            state_fault(
                Some(i as usize),
                "endpoint_inactive_retained_rate",
                Binary64 { bits: NAN_BITS },
                same_rate(endpoint[i], retained[i]),
            )
        }
}

/// Kick the energies of the active particles by the rates of an endpoint, which must have
/// left the rates of the inactive ones alone.
pub fn second_kick_energies(
    active: &[bool],
    endpoint: &[ParticleRate2d],
    retained: &[ParticleRate2d],
    kicks: &[EnergyKick],
    floor: Binary64,
) -> (result: Result<Vec<Option<Binary64>>, HydroEvolution2dError>)
    requires
        endpoint@.len() == active@.len(),
        retained@.len() == active@.len(),
        kicks@.len() == active@.len(),
    ensures
        match first_fault(
            second_kick_faults(active@, endpoint@, retained@, kicks@, floor),
            active@.len() as int,
        ) {
            Some(error) => result matches Err(reported) && reported == error,
            None => result matches Ok(energies) && energies@ == kicked_energies(
                active@,
                kicks@,
                floor,
            ),
        },
        result matches Ok(energies) ==> energies@.len() == active@.len() && forall|i: int|
            0 <= i < active@.len() ==> (active@[i] <==> (#[trigger] energies@[i]) is Some),
{
    let mut inactive: Vec<Option<HydroEvolution2dError>> = Vec::with_capacity(active.len());
    let mut index: usize = 0;
    while index < active.len()
        invariant
            index <= active@.len(),
            endpoint@.len() == active@.len(),
            retained@.len() == active@.len(),
            inactive@.len() == index,
            forall|i: int|
                0 <= i < index && !active@[i] ==> #[trigger] inactive@[i] == second_kick_faults(
                    active@,
                    endpoint@,
                    retained@,
                    kicks@,
                    floor,
                )(i),
        decreases active@.len() - index,
    {
        if active[index] || same_particle_rate(endpoint[index], retained[index]) {
            inactive.push(None);
        } else {
            inactive.push(
                Some(
                    HydroEvolution2dError::InvalidState {
                        index: Some(index),
                        field: "endpoint_inactive_retained_rate",
                        value: Binary64 { bits: NAN_BITS },
                    },
                ),
            );
        }
        index = index + 1;
    }
    proof {
        lemma_same_first_fault(
            guarded_kick_faults(active@, kicks@, inactive@, floor),
            second_kick_faults(active@, endpoint@, retained@, kicks@, floor),
            active@.len() as int,
        );
    }
    guarded_kick_energies(active, kicks, inactive.as_slice(), floor)
}

/// The number of particles, among the first `count`, that are not at a tick.
pub open spec fn lagging(predictors: Seq<u64>, tick: int, count: int) -> int
    decreases count,
{
    if count <= 0 {
        0
    } else {
        lagging(predictors, tick, count - 1) + if predictors[count - 1] != tick {
            1int
        } else {
            0int
        }
    }
}

/// The predictions after every needed particle was drifted to the current tick.
pub open spec fn materialized(predictors: Seq<u64>, required: Seq<bool>, tick: int) -> Seq<u64> {
    Seq::new(
        predictors.len(),
        |i: int|
            if required[i] {
                tick as u64
            } else {
                predictors[i]
            },
    )
}

proof fn lemma_lagging_bounds(predictors: Seq<u64>, tick: int, count: int)
    ensures
        lagging(predictors, tick, count) >= 0,
        count >= 0 ==> lagging(predictors, tick, count) <= count,
    decreases count,
{
    if count > 0 {
        lemma_lagging_bounds(predictors, tick, count - 1);
    }
}

proof fn lemma_materialized_lagging(
    predictors: Seq<u64>,
    required: Seq<bool>,
    tick: int,
    count: int,
    stale: int,
)
    requires
        0 <= count <= predictors.len(),
        required.len() == predictors.len(),
        0 <= tick <= u64::MAX,
        0 <= stale < predictors.len(),
        required[stale],
        predictors[stale] != tick,
    ensures
        lagging(materialized(predictors, required, tick), tick, count) <= lagging(
            predictors,
            tick,
            count,
        ) - if stale < count {
            1int
        } else {
            0int
        },
    decreases count,
{
    if count > 0 {
        lemma_materialized_lagging(predictors, required, tick, count - 1, stale);
    }
}

/// A refresh makes progress: as long as a needed particle is stale, drifting the needed
/// particles leaves fewer particles behind. There are never more of them than particles, so
/// one pass more than that is always enough.
pub proof fn law_refresh_makes_progress(hierarchy: HierarchyView, required: Seq<bool>)
    requires
        hierarchy.wf(),
        required.len() == hierarchy.count(),
        hierarchy.stale(required),
    ensures
        ({
            let tick = hierarchy.schedule.tick;
            let count = hierarchy.count();
            let after = materialized(hierarchy.predictors, required, tick);
            &&& 0 <= lagging(after, tick, count) < lagging(hierarchy.predictors, tick, count)
            &&& lagging(hierarchy.predictors, tick, count) <= count
        }),
{
    let tick = hierarchy.schedule.tick;
    let stale = choose|i: int|
        0 <= i < hierarchy.count() && #[trigger] required[i] && hierarchy.predictors[i] != tick;
    lemma_materialized_lagging(hierarchy.predictors, required, tick, hierarchy.count(), stale);
    lemma_lagging_bounds(
        materialized(hierarchy.predictors, required, tick),
        tick,
        hierarchy.count(),
    );
    lemma_lagging_bounds(hierarchy.predictors, tick, hierarchy.count());
}

/// The lengths of the columns that a force evaluation of the active particles reads.
#[derive(Clone, Copy, Debug, PartialEq, Eq, Structural)]
pub struct ForceLengths2d {
    pub active_mask: usize,
    pub primitive: PrimitiveLengths2d,
    pub inverse_moments: usize,
    pub face_closure: usize,
}

impl ForceLengths2d {
    /// The columns with their lengths.
    pub open spec fn columns(self) -> Seq<(&'static str, usize)> {
        seq![
            ("active_mask", self.active_mask),
            ("primitive_density", self.primitive.density),
            ("primitive_dhsml_factor", self.primitive.dhsml_factor),
            ("primitive_pressure", self.primitive.pressure),
            ("inverse_moments", self.inverse_moments),
            ("face_closure", self.face_closure),
        ]
    }
}

/// Check the inputs of a force evaluation of the active particles: state, retained rates,
/// then the cached columns.
pub fn validate_force_inputs(
    state: &HydroMfmState2d,
    retained: RateLengths2d,
    columns: ForceLengths2d,
) -> (result: Result<(), HydroEvolution2dError>)
    ensures
        result == outcome(
            first(
                evolving_fault(*state, retained),
                first_fault(
                    length_faults(state.positions@.len() as usize, columns.columns()),
                    6,
                ),
            ),
        ),
{
    if let Err(error) = validate_evolving(state, retained) {
        return Err(error);
    }
    let fields: [(&'static str, usize); 6] = [
        ("active_mask", columns.active_mask),
        ("primitive_density", columns.primitive.density),
        ("primitive_dhsml_factor", columns.primitive.dhsml_factor),
        ("primitive_pressure", columns.primitive.pressure),
        ("inverse_moments", columns.inverse_moments),
        ("face_closure", columns.face_closure),
    ];
    assert(fields@ =~= columns.columns());
    validate_lengths(state.positions.len(), &fields)
}

/// The lengths of the columns that a refresh of the active caches writes.
#[derive(Clone, Copy, Debug, PartialEq, Eq, Structural)]
pub struct CacheLengths2d {
    pub active_mask: usize,
    pub primitive: PrimitiveLengths2d,
    pub gradient_density: usize,
    pub gradient_pressure: usize,
    pub gradient_velocity_x: usize,
    pub gradient_velocity_y: usize,
    pub gradient_velocity_z: usize,
    pub inverse_moments: usize,
    pub face_closure: usize,
}

impl CacheLengths2d {
    /// The columns with their lengths.
    pub open spec fn columns(self) -> Seq<(&'static str, usize)> {
        seq![
            ("active_mask", self.active_mask),
            ("primitive_density", self.primitive.density),
            ("primitive_dhsml_factor", self.primitive.dhsml_factor),
            ("primitive_pressure", self.primitive.pressure),
            ("gradient_density", self.gradient_density),
            ("gradient_pressure", self.gradient_pressure),
            ("gradient_velocity_x", self.gradient_velocity_x),
            ("gradient_velocity_y", self.gradient_velocity_y),
            ("gradient_velocity_z", self.gradient_velocity_z),
            ("inverse_moments", self.inverse_moments),
            ("face_closure", self.face_closure),
        ]
    }
}

/// Check the columns of a refresh of the active caches.
pub fn validate_cache_lengths(columns: CacheLengths2d, expected: usize) -> (result: Result<
    (),
    HydroEvolution2dError,
>)
    ensures
        result == outcome(first_fault(length_faults(expected, columns.columns()), 11)),
{
    let fields: [(&'static str, usize); 11] = [
        ("active_mask", columns.active_mask),
        ("primitive_density", columns.primitive.density),
        ("primitive_dhsml_factor", columns.primitive.dhsml_factor),
        ("primitive_pressure", columns.primitive.pressure),
        ("gradient_density", columns.gradient_density),
        ("gradient_pressure", columns.gradient_pressure),
        ("gradient_velocity_x", columns.gradient_velocity_x),
        ("gradient_velocity_y", columns.gradient_velocity_y),
        ("gradient_velocity_z", columns.gradient_velocity_z),
        ("inverse_moments", columns.inverse_moments),
        ("face_closure", columns.face_closure),
    ];
    assert(fields@ =~= columns.columns());
    validate_lengths(expected, &fields)
}

/// The faults of solved supports: an active particle without one.
pub open spec fn missing_estimate_faults(active: Seq<bool>, solved: Seq<bool>) -> spec_fn(
    int,
) -> Option<HydroEvolution2dError> {
    |i: int|
        state_fault(
            Some(i as usize),
            "missing active smoothing estimate",
            Binary64 { bits: NAN_BITS },
            active[i] ==> solved[i],
        )
}

/// Check that the support of every active particle was solved.
pub fn validate_active_estimates(active: &[bool], solved: &[bool]) -> (result: Result<
    (),
    HydroEvolution2dError,
>)
    requires
        solved@.len() == active@.len(),
    ensures
        result == outcome(
            first_fault(missing_estimate_faults(active@, solved@), active@.len() as int),
        ),
{
    let ghost faults = missing_estimate_faults(active@, solved@);
    let mut index: usize = 0;
    while index < active.len()
        invariant
            index <= active@.len(),
            solved@.len() == active@.len(),
            faults == missing_estimate_faults(active@, solved@),
            first_fault(faults, index as int) is None,
        decreases active@.len() - index,
    {
        if let Err(error) = check_state(
            Some(index),
            "missing active smoothing estimate",
            Binary64 { bits: NAN_BITS },
            !active[index] || solved[index],
        ) {
            assert(faults(index as int) is Some);
            proof {
                lemma_first_fault_stays(faults, index + 1, active@.len() as int);
            }
            return Err(error);
        }
        assert(faults(index as int) is None);
        index = index + 1;
    }
    Ok(())
}

/// Keep fresh values for the active particles and retained ones for the others.
pub fn commit_active<T: Copy>(active: &[bool], fresh: &[T], retained: &[T]) -> (result: Vec<T>)
    requires
        fresh@.len() == active@.len(),
        retained@.len() == active@.len(),
    ensures
        result@ == Seq::new(
            active@.len(),
            |i: int|
                if active@[i] {
                    fresh@[i]
                } else {
                    retained@[i]
                },
        ),
        result@.len() == active@.len(),
        forall|i: int| 0 <= i < active@.len() && active@[i] ==> #[trigger] result@[i] == fresh@[i],
        forall|i: int| 0 <= i < active@.len() && !active@[i] ==> #[trigger] result@[i] == retained@[i],
{
    let mut result: Vec<T> = Vec::with_capacity(active.len());
    let mut index: usize = 0;
    while index < active.len()
        invariant
            index <= active@.len(),
            fresh@.len() == active@.len(),
            retained@.len() == active@.len(),
            result@ == Seq::new(
                index as nat,
                |i: int|
                    if active@[i] {
                        fresh@[i]
                    } else {
                        retained@[i]
                    },
            ),
        decreases active@.len() - index,
    {
        result.push(
            if active[index] {
                fresh[index]
            } else {
                retained[index]
            },
        );
        index = index + 1;
    }
    result
}

/// A drift is refused to a particle that does not exist, and to a tick that the particle has
/// passed or the timeline does not have.
pub proof fn law_drift_faults(
    hierarchy: HierarchyView,
    index: usize,
    target: u64,
    time: Result<Binary64, IndividualTimelineError>,
)
    requires
        hierarchy.wf(),
    ensures
        ({
            let fault = hierarchy.drift_fault(index, target, time);
            let known = index < hierarchy.count();
            let ahead = hierarchy.predictors[index as int] <= target <= LEGACY_TIMEBASE_TICKS;
            &&& fault is None <==> known && ahead
            &&& !known ==> fault == Some(
                HydroEvolution2dError::InvalidState {
                    index: Some(index),
                    field: "hierarchy_particle_index",
                    value: Binary64 { bits: NAN_BITS },
                },
            )
            &&& known && !ahead && time is Ok ==> fault == Some(
                HydroEvolution2dError::InvalidState {
                    index: Some(index),
                    field: "hierarchy_predictor_tick",
                    value: time->Ok_0,
                },
            )
            &&& known && !ahead && time is Err ==> fault == Some(
                HydroEvolution2dError::Timeline(time->Err_0),
            )
        }),
{
}

/// A search is possible exactly where no particle is ahead of the current tick, and is refused
/// for the first that is.
pub proof fn law_searches_look_back(hierarchy: HierarchyView, now: Binary64, i: int)
    requires
        hierarchy.wf(),
        hierarchy.count() <= usize::MAX,
        0 <= i < hierarchy.count(),
    ensures
        ({
            let fault = first_fault(hierarchy.search_faults(now), hierarchy.count());
            &&& fault is None ==> hierarchy.predictors[i] <= hierarchy.schedule.tick
            &&& hierarchy.within_tick() ==> fault is None
            &&& hierarchy.predictors[i] > hierarchy.schedule.tick && (forall|k: int|
                0 <= k < i ==> #[trigger] hierarchy.predictors[k] <= hierarchy.schedule.tick)
                ==> fault == Some(
                HydroEvolution2dError::InvalidState {
                    index: Some(i as usize),
                    field: "hierarchy_predictor_tick",
                    value: now,
                },
            )
        }),
{
    let faults = hierarchy.search_faults(now);
    law_first_fault_is_the_earliest(faults, hierarchy.count());
    assert forall|k: int| 0 <= k < hierarchy.count() implies ((#[trigger] faults(k)) is None
        <==> hierarchy.predictors[k] <= hierarchy.schedule.tick) by {}
    assert(faults(i) is None <==> hierarchy.predictors[i] <= hierarchy.schedule.tick);
}

/// A pass has to be repeated only for an active particle whose support grew, and only while a
/// required particle is not at the current tick.
pub proof fn law_refresh_conditions(
    hierarchy: HierarchyView,
    before: Seq<Binary64>,
    after: Seq<Binary64>,
    required: Seq<bool>,
    i: int,
)
    requires
        hierarchy.wf(),
        0 <= i < hierarchy.count(),
        before.len() == hierarchy.count(),
        after.len() == hierarchy.count(),
        required.len() == hierarchy.count(),
    ensures
        hierarchy.schedule.active(i) && before[i].lt(after[i]) ==> hierarchy.expanded(before, after),
        (forall|k: int|
            0 <= k < hierarchy.count() && hierarchy.schedule.active(k)
                ==> !(#[trigger] before[k]).lt(after[k])) ==> !hierarchy.expanded(before, after),
        required[i] && hierarchy.predictors[i] != hierarchy.schedule.tick ==> hierarchy.stale(
            required,
        ),
        (forall|k: int|
            0 <= k < hierarchy.count() && #[trigger] required[k] ==> hierarchy.predictors[k]
                == hierarchy.schedule.tick) ==> !hierarchy.stale(required),
{
}

/// Output is allowed from the current tick to the next synchronization, both included.
pub proof fn law_output_ticks(hierarchy: HierarchyView, tick: u64, next: int)
    requires
        hierarchy.wf(),
        hierarchy.schedule.next_sync(next),
    ensures
        hierarchy.output_allowed(tick) <==> hierarchy.schedule.tick <= tick <= next,
{
    if hierarchy.output_allowed(tick) {
        let other = choose|other: int| #[trigger]
            hierarchy.schedule.next_sync(other) && tick <= other;
        if !hierarchy.schedule.unassigned() {
            let i = choose|i: int|
                0 <= i < hierarchy.count() && next == crate::ticks::endpoint(
                    hierarchy.schedule.tick,
                    #[trigger] hierarchy.schedule.steps[i] as int,
                );
            let j = choose|j: int|
                0 <= j < hierarchy.count() && other == crate::ticks::endpoint(
                    hierarchy.schedule.tick,
                    #[trigger] hierarchy.schedule.steps[j] as int,
                );
            assert(other <= crate::ticks::endpoint(
                hierarchy.schedule.tick,
                hierarchy.schedule.steps[i] as int,
            ));
        }
    }
}

/// The first kicks are opened whenever the hierarchy is between two steps and no particle stands
/// in the way, and only the steps of the active particles change.
pub proof fn law_first_kicks(
    before: HierarchyView,
    requests: Seq<Option<TickRequest>>,
    now: Binary64,
    result: Result<Vec<bool>, HydroEvolution2dError>,
    after: HierarchyView,
    i: int,
)
    requires
        before.wf(),
        first_kicks_opened(before, requests, now, result, after),
        0 <= i < before.count(),
    ensures
        result is Ok <==> !before.awaiting && !before.prepared && !before.schedule.finished()
            && requests.len() == before.count() && forall|k: int|
            0 <= k < requests.len() ==> (#[trigger] before.schedule.reassignment_fault(requests, k))
                is None,
        result is Err ==> after == before,
        after.predictors == before.predictors,
        after.awaiting == before.awaiting,
        after.prepared == before.prepared,
        after.refreshed == before.refreshed,
        after.pending == before.pending,
        after.schedule.tick == before.schedule.tick,
        !before.schedule.active(i) ==> after.schedule.steps[i] == before.schedule.steps[i]
            && after.schedule.begins[i] == before.schedule.begins[i],
        before.awaiting ==> result == Err::<Vec<bool>, HydroEvolution2dError>(
            HydroEvolution2dError::InvalidState {
                index: None,
                field: "hierarchy_first_kick_phase",
                value: now,
            },
        ),
        result matches Ok(active) ==> active@.len() == before.count() && active@[i]
            == before.schedule.active(i),
{
    if result is Ok {
        assert(before.schedule.reassignment_fault(requests, i) is None);
        assert(before.schedule.slot_reassigned(requests[i], after.schedule, i));
    } else if !before.awaiting && !before.prepared && !before.schedule.finished() && requests.len()
        == before.count() {
        let error = result->Err_0;
        assert(error is Timeline);
        let fault = error->Timeline_0;
        let k = choose|k: int|
            before.schedule.first_fault(requests, k) && #[trigger] before.schedule.reassignment_fault(
                requests,
                k,
            ) == Some(fault);
        assert(before.schedule.reassignment_fault(requests, k) is Some);
    }
}

/// Settled wakeups leave no particle pending and everything but the schedule alone.
pub proof fn law_settled_wakeups(before: HierarchyView, timeline: ScheduleView, i: int)
    requires
        0 <= i < before.pending.len(),
    ensures
        ({
            let after = wakeups_settled(before, timeline);
            &&& !after.pending[i]
            &&& after.pending.len() == before.pending.len()
            &&& after.schedule == timeline
            &&& after.predictors == before.predictors
            &&& after.awaiting == before.awaiting
            &&& after.prepared == before.prepared
            &&& after.refreshed == before.refreshed
        }),
{
}

/// A drift moves the prediction of its particle to the target, unless it takes no time, and no
/// other.
pub proof fn law_recorded_drifts(
    predictors: Seq<u64>,
    index: int,
    target: u64,
    segment: Binary64,
    i: int,
)
    requires
        0 <= index < predictors.len(),
        0 <= i < predictors.len(),
    ensures
        ({
            let after = drift_recorded(predictors, index, target, segment);
            &&& after.len() == predictors.len()
            &&& i != index ==> after[i] == predictors[i]
            &&& !segment.same(Binary64 { bits: 0 }) ==> after[index] == target
            &&& segment.same(Binary64 { bits: 0 }) ==> after[index] == predictors[index]
        }),
{
}

/// Drifting a selection moves exactly the predictions of the selected particles whose drift
/// takes time.
pub proof fn law_selected_drifts(
    predictors: Seq<u64>,
    selected: Seq<bool>,
    segments: Seq<Binary64>,
    target: u64,
    count: int,
    i: int,
)
    requires
        0 <= count <= predictors.len(),
        selected.len() == predictors.len(),
        segments.len() == predictors.len(),
        0 <= i < predictors.len(),
    ensures
        ({
            let after = drifts_recorded(predictors, selected, segments, target, count);
            &&& after.len() == predictors.len()
            &&& i < count && selected[i] && !segments[i].same(Binary64 { bits: 0 }) ==> after[i]
                == target
            &&& i >= count || !selected[i] || segments[i].same(Binary64 { bits: 0 }) ==> after[i]
                == predictors[i]
        }),
    decreases count,
{
    if count > 0 {
        law_selected_drifts(predictors, selected, segments, target, count - 1, i);
    }
}

/// An arrival moves the tick to the next synchronization and nothing else, and the particles
/// whose step ends there arrive.
pub proof fn law_arrivals(before: HierarchyView, after: HierarchyView, arriving: Seq<bool>, i: int)
    requires
        before.wf(),
        !before.schedule.finished(),
        !before.schedule.unassigned(),
        arrived(before, after, arriving),
        0 <= i < before.count(),
    ensures
        before.schedule.tick < after.schedule.tick <= LEGACY_TIMEBASE_TICKS,
        after.schedule.steps == before.schedule.steps,
        after.schedule.begins == before.schedule.begins,
        after.predictors == before.predictors,
        after.awaiting == before.awaiting,
        after.prepared == before.prepared,
        after.refreshed == before.refreshed,
        after.pending == before.pending,
        arriving.len() == before.count(),
        arriving[i] <==> after.schedule.tick % (before.schedule.steps[i] as int) == 0,
{
    law_synchronization_advances(before.schedule, after.schedule.tick);
    assert(before.schedule.steps[i] != 0);
}

/// A hierarchy begins only from a fit state with a bin for every particle and an energy floor
/// that is not negative; the first of these that fails is reported.
pub proof fn law_beginnings(
    state: HydroMfmState2d,
    rates: RateLengths2d,
    timebins: int,
    floor: Binary64,
)
    ensures
        ({
            let fault = beginning_fault(state, rates, timebins, floor);
            let evolving = evolving_fault(state, rates) is None;
            let paired = timebins == state.positions@.len();
            &&& fault is None <==> evolving && paired && floor.nonnegative()
            &&& !evolving ==> fault == evolving_fault(state, rates)
            &&& evolving && !paired ==> fault == Some(
                HydroEvolution2dError::MismatchedLength {
                    field: "initial_timebins",
                    expected: state.positions@.len() as usize,
                    actual: timebins as usize,
                },
            )
            &&& evolving && paired && !floor.nonnegative() ==> fault == Some(
                HydroEvolution2dError::InvalidState {
                    index: None,
                    field: "minimum_specific_internal_energy",
                    value: floor,
                },
            )
        }),
{
}

/// A timebin is refused exactly where it is not consistent with its timestep and duration.
pub proof fn law_refused_timebins(
    timebins: Seq<PublicHydroInitialTimebin2d>,
    requested: Seq<Binary64>,
    durations: Seq<Binary64>,
    i: int,
)
    requires
        0 <= i < timebins.len(),
        timebins.len() <= usize::MAX,
    ensures
        timebin_consistent(timebins[i], requested[i], durations[i]) ==> timebin_faults(
            timebins,
            requested,
            durations,
        )(i) is None,
        !timebin_consistent(timebins[i], requested[i], durations[i]) ==> timebin_faults(
            timebins,
            requested,
            durations,
        )(i) == Some(
            HydroEvolution2dError::InvalidState {
                index: Some(i as usize),
                field: "initial_timebin",
                value: timebins[i].duration,
            },
        ),
        all_assigned(timebins) ==> 2 <= timebins[i].ticks <= LEGACY_TIMEBASE_TICKS / 2,
        timebins[i].ticks == 0 || timebins[i].ticks == 1 || timebins[i].ticks
            >= LEGACY_TIMEBASE_TICKS ==> !all_assigned(timebins),
{
    crate::individual_timeline::law_assigned_steps(timebins[i].ticks as int, 0);
}

/// A kick is refused for a negative duration, then for an energy that is not positive. Its
/// energy is never below half the energy before it nor below the floor.
pub proof fn law_energy_kicks(kick: EnergyKick, floor: Binary64)
    ensures
        kick.fault(floor) is None <==> kick.duration.nonnegative() && kick.energy(floor).positive(),
        !kick.duration.nonnegative() ==> kick.fault(floor) == Some(
            HydroEvolution2dError::InvalidState {
                index: None,
                field: "internal_energy_kick_duration",
                value: kick.duration,
            },
        ),
        kick.duration.nonnegative() && !kick.energy(floor).positive() ==> kick.fault(floor) == Some(
            HydroEvolution2dError::InvalidState {
                index: None,
                field: "specific_internal_energy",
                value: kick.energy(floor),
            },
        ),
        !kick.candidate.nan() && !kick.half_previous.nan() && !floor.nan() ==> {
            &&& kick.candidate.le(kick.energy(floor))
            &&& kick.half_previous.le(kick.energy(floor))
            &&& floor.le(kick.energy(floor))
        },
        kick.energy(floor) == kick.candidate || kick.energy(floor) == kick.half_previous
            || kick.energy(floor) == floor,
        kick.candidate.finite() && kick.half_previous.lt(kick.candidate) && floor.lt(kick.candidate)
            ==> kick.energy(floor) == kick.candidate,
{
}

/// Only the active particles are kicked, and only their kicks can fail.
pub proof fn law_only_active_particles_are_kicked(
    active: Seq<bool>,
    kicks: Seq<EnergyKick>,
    floor: Binary64,
    i: int,
)
    requires
        kicks.len() == active.len(),
        0 <= i < active.len(),
    ensures
        active[i] ==> kicked_energies(active, kicks, floor)[i] == Some(kicks[i].energy(floor)),
        !active[i] ==> kicked_energies(active, kicks, floor)[i] is None,
        kicked_energies(active, kicks, floor).len() == active.len(),
        active[i] ==> kick_faults(active, kicks, floor)(i) == kicks[i].fault(floor),
        !active[i] ==> kick_faults(active, kicks, floor)(i) is None,
{
}

/// A second kick of an active particle fails as its kick does; an inactive particle fails
/// exactly where the endpoint changed its rates.
pub proof fn law_second_kicks_keep_inactive_rates(
    active: Seq<bool>,
    endpoint: Seq<ParticleRate2d>,
    retained: Seq<ParticleRate2d>,
    kicks: Seq<EnergyKick>,
    floor: Binary64,
    i: int,
)
    requires
        0 <= i < active.len(),
        active.len() <= usize::MAX,
    ensures
        ({
            let fault = second_kick_faults(active, endpoint, retained, kicks, floor)(i);
            &&& active[i] ==> fault == kicks[i].fault(floor)
            &&& !active[i] && same_rate(endpoint[i], retained[i]) ==> fault is None
            &&& !active[i] && !same_rate(endpoint[i], retained[i]) ==> fault == Some(
                HydroEvolution2dError::InvalidState {
                    index: Some(i as usize),
                    field: "endpoint_inactive_retained_rate",
                    value: Binary64 { bits: NAN_BITS },
                },
            )
        }),
{
}

/// The particles that lag are those away from the tick: none lag exactly where all are at it.
pub proof fn law_lagging_particles(predictors: Seq<u64>, tick: int, count: int)
    requires
        0 <= count <= predictors.len(),
    ensures
        0 <= lagging(predictors, tick, count) <= count,
        lagging(predictors, tick, count) == 0 <==> forall|i: int|
            0 <= i < count ==> #[trigger] predictors[i] == tick,
        lagging(predictors, tick, count) == count <==> forall|i: int|
            0 <= i < count ==> #[trigger] predictors[i] != tick,
    decreases count,
{
    if count > 0 {
        law_lagging_particles(predictors, tick, count - 1);
        assert(lagging(predictors, tick, count) == lagging(predictors, tick, count - 1) + if predictors[count - 1] != tick {
            1int
        } else {
            0int
        });
        if forall|i: int| 0 <= i < count ==> #[trigger] predictors[i] == tick {
            assert(predictors[count - 1] == tick);
        }
        if forall|i: int| 0 <= i < count ==> #[trigger] predictors[i] != tick {
            assert(predictors[count - 1] != tick);
        }
    }
}

/// Materializing brings the required particles to the tick and leaves the others.
pub proof fn law_materialized_particles(
    predictors: Seq<u64>,
    required: Seq<bool>,
    tick: u64,
    i: int,
)
    requires
        0 <= i < predictors.len(),
        required.len() == predictors.len(),
    ensures
        materialized(predictors, required, tick as int).len() == predictors.len(),
        required[i] ==> materialized(predictors, required, tick as int)[i] == tick,
        !required[i] ==> materialized(predictors, required, tick as int)[i] == predictors[i],
{
}

/// The cached columns are checked in the order in which they are listed, each by its own name.
pub proof fn law_cached_columns(forces: ForceLengths2d, caches: CacheLengths2d)
    ensures
        forces.columns().len() == 6,
        forces.columns()[0] == ("active_mask", forces.active_mask),
        forces.columns()[1] == ("primitive_density", forces.primitive.density),
        forces.columns()[2] == ("primitive_dhsml_factor", forces.primitive.dhsml_factor),
        forces.columns()[3] == ("primitive_pressure", forces.primitive.pressure),
        forces.columns()[4] == ("inverse_moments", forces.inverse_moments),
        forces.columns()[5] == ("face_closure", forces.face_closure),
        caches.columns().len() == 11,
        caches.columns()[0] == ("active_mask", caches.active_mask),
        caches.columns()[1] == ("primitive_density", caches.primitive.density),
        caches.columns()[2] == ("primitive_dhsml_factor", caches.primitive.dhsml_factor),
        caches.columns()[3] == ("primitive_pressure", caches.primitive.pressure),
        caches.columns()[4] == ("gradient_density", caches.gradient_density),
        caches.columns()[5] == ("gradient_pressure", caches.gradient_pressure),
        caches.columns()[6] == ("gradient_velocity_x", caches.gradient_velocity_x),
        caches.columns()[7] == ("gradient_velocity_y", caches.gradient_velocity_y),
        caches.columns()[8] == ("gradient_velocity_z", caches.gradient_velocity_z),
        caches.columns()[9] == ("inverse_moments", caches.inverse_moments),
        caches.columns()[10] == ("face_closure", caches.face_closure),
{
}

/// An estimate is missing exactly where a particle is active and its support was not solved.
pub proof fn law_missing_estimates(active: Seq<bool>, solved: Seq<bool>, i: int)
    requires
        0 <= i < active.len(),
        active.len() <= usize::MAX,
    ensures
        !active[i] || solved[i] ==> missing_estimate_faults(active, solved)(i) is None,
        active[i] && !solved[i] ==> missing_estimate_faults(active, solved)(i) == Some(
            HydroEvolution2dError::InvalidState {
                index: Some(i as usize),
                field: "missing active smoothing estimate",
                value: Binary64 { bits: NAN_BITS },
            },
        ),
{
}

/// An orderly hierarchy is in one phase at a time: it does not wait for second kicks while a
/// drift is prepared, a refresh belongs to the current tick while it waits, and no prediction
/// runs past the next synchronization.
pub proof fn law_orderly_phases(hierarchy: HierarchyView, i: int, next: int)
    requires
        hierarchy.orderly(),
        0 <= i < hierarchy.count(),
    ensures
        hierarchy.wf(),
        !hierarchy.awaiting || !hierarchy.prepared,
        hierarchy.refreshed is Some ==> hierarchy.awaiting && hierarchy.refreshed->0
            == hierarchy.schedule.tick,
        !hierarchy.prepared || hierarchy.schedule.finished() ==> hierarchy.predictors[i]
            <= hierarchy.schedule.tick,
        hierarchy.predictors[i] > hierarchy.schedule.tick && hierarchy.schedule.next_sync(next)
            ==> hierarchy.predictors[i] <= next,
{
    assert(hierarchy.reachable(hierarchy.predictors[i] as int));
}

/// A refused reassignment names the wrong length, then the end of the timeline, and then the
/// fault of the first refused particle.
pub proof fn law_refused_reassignments(
    schedule: ScheduleView,
    requests: Seq<Option<TickRequest>>,
    error: IndividualTimelineError,
    i: int,
)
    requires
        reassignment_refused(schedule, requests, error),
    ensures
        requests.len() != schedule.steps.len() ==> error
            == (IndividualTimelineError::MismatchedLength {
            expected: schedule.steps.len() as usize,
            actual: requests.len() as usize,
        }),
        requests.len() == schedule.steps.len() && schedule.finished() ==> error
            == IndividualTimelineError::Finished,
        requests.len() == schedule.steps.len() && !schedule.finished() && schedule.first_fault(
            requests,
            i,
        ) ==> schedule.reassignment_fault(requests, i) == Some(error),
{
    if requests.len() == schedule.steps.len() && !schedule.finished() && schedule.first_fault(
        requests,
        i,
    ) {
        let k = choose|k: int|
            schedule.first_fault(requests, k) && #[trigger] schedule.reassignment_fault(
                requests,
                k,
            ) == Some(error);
        assert(k == i) by {
            if k < i {
                assert(schedule.reassignment_fault(requests, k) is None);
            }
            if i < k {
                assert(schedule.reassignment_fault(requests, i) is None);
            }
        }
    }
}

} // verus!
