//! Selection of synchronized timesteps.

use vstd::prelude::*;

use crate::binary64::Binary64;
use crate::hydro_error::HydroError;

verus! {

use crate::binary64::INFINITY_BITS;
use crate::fault::outcome;

/// The criterion that limits a timestep.
#[derive(Clone, Copy, Debug, PartialEq, Eq, Structural)]
pub enum TimestepBound1d {
    MaximumSize,
    Courant { particle_index: usize },
    Acceleration { particle_index: usize },
    GasDivergence { particle_index: usize },
}

/// A timestep with the criterion that limits it.
#[derive(Clone, Copy, Debug, PartialEq, Eq, Structural)]
pub struct TimestepSelection1d {
    pub duration: Binary64,
    pub bound: TimestepBound1d,
}

/// The candidates of one particle, with the values that they stem from.
#[derive(Clone, Copy, Debug, PartialEq, Eq, Structural)]
pub struct TimestepCandidates {
    pub particle_size: Binary64,
    pub signal_speed: Binary64,
    pub courant: Binary64,
    pub acceleration: Binary64,
    /// Meaningful where the acceleration is not zero.
    pub acceleration_bound: Binary64,
    pub divergence: Binary64,
    /// Meaningful where the divergence is not zero.
    pub divergence_bound: Binary64,
}

impl TimestepCandidates {
    /// The fault of the first candidate that cannot be used.
    pub open spec fn fault(self, index: int) -> Option<HydroError> {
        if !self.particle_size.positive() || !self.signal_speed.positive()
            || !self.courant.positive() {
            Some(
                HydroError::NonFiniteRiemannResult {
                    field: "courant_timestep",
                    value: self.courant,
                },
            )
        } else if !self.acceleration.finite() {
            Some(
                HydroError::InvalidParticle {
                    index: index as usize,
                    field: "acceleration",
                    value: self.acceleration,
                },
            )
        } else if self.acceleration.rank() != 0 && !self.acceleration_bound.positive() {
            Some(
                HydroError::NonFiniteRiemannResult {
                    field: "acceleration_timestep",
                    value: self.acceleration_bound,
                },
            )
        } else if !self.divergence.finite() {
            Some(
                HydroError::InvalidParticle {
                    index: index as usize,
                    field: "particle_divergence",
                    value: self.divergence,
                },
            )
        } else if self.divergence.rank() != 0 && !self.divergence_bound.positive() {
            Some(
                HydroError::NonFiniteRiemannResult {
                    field: "divergence_timestep",
                    value: self.divergence_bound,
                },
            )
        } else {
            None
        }
    }

    /// The selection after the three criteria of this particle.
    pub open spec fn applied(self, index: int, selection: TimestepSelection1d) -> TimestepSelection1d {
        let particle_index = index as usize;
        let courant = shorter(
            selection,
            true,
            self.courant,
            TimestepBound1d::Courant { particle_index },
        );
        let acceleration = shorter(
            courant,
            self.acceleration.rank() != 0,
            self.acceleration_bound,
            TimestepBound1d::Acceleration { particle_index },
        );
        shorter(
            acceleration,
            self.divergence.rank() != 0,
            self.divergence_bound,
            TimestepBound1d::GasDivergence { particle_index },
        )
    }
}

/// A candidate replaces a selection only where it applies and is strictly shorter.
pub open spec fn shorter(
    selection: TimestepSelection1d,
    applies: bool,
    candidate: Binary64,
    bound: TimestepBound1d,
) -> TimestepSelection1d {
    if applies && candidate.lt(selection.duration) {
        TimestepSelection1d { duration: candidate, bound }
    } else {
        selection
    }
}

fn replace_if_shorter(
    selection: TimestepSelection1d,
    applies: bool,
    candidate: Binary64,
    bound: TimestepBound1d,
) -> (result: TimestepSelection1d)
    ensures
        result == shorter(selection, applies, candidate, bound),
{
    if applies && candidate.less(selection.duration) {
        TimestepSelection1d { duration: candidate, bound }
    } else {
        selection
    }
}

/// The selection after the first `count` particles, or the first fault among them.
pub open spec fn selected(
    maximum_timestep: Binary64,
    candidates: Seq<TimestepCandidates>,
    count: int,
) -> Result<TimestepSelection1d, HydroError>
    decreases count,
{
    if count <= 0 {
        Ok(TimestepSelection1d { duration: maximum_timestep, bound: TimestepBound1d::MaximumSize })
    } else {
        match selected(maximum_timestep, candidates, count - 1) {
            Err(error) => Err(error),
            Ok(selection) => match candidates[count - 1].fault(count - 1) {
                Some(error) => Err(error),
                None => Ok(candidates[count - 1].applied(count - 1, selection)),
            },
        }
    }
}

/// Select the shortest timestep: the maximum first, then particle by particle the Courant,
/// the acceleration and the divergence bound. The earliest of equal candidates is kept.
pub fn select_public_soundwave_timestep_1d(
    maximum_timestep: Binary64,
    candidates: &[TimestepCandidates],
) -> (result: Result<TimestepSelection1d, HydroError>)
    ensures
        result == selected(maximum_timestep, candidates@, candidates@.len() as int),
{
    let zero: Binary64 = Binary64 { bits: 0 };
    let mut selection: TimestepSelection1d = TimestepSelection1d {
        duration: maximum_timestep,
        bound: TimestepBound1d::MaximumSize,
    };
    let mut index: usize = 0;
    while index < candidates.len()
        invariant
            index <= candidates@.len(),
            zero == (Binary64 { bits: 0 }),
            selected(maximum_timestep, candidates@, index as int) == Ok::<
                TimestepSelection1d,
                HydroError,
            >(selection),
        decreases candidates@.len() - index,
    {
        let candidate: TimestepCandidates = candidates[index];
        let mut fault: Option<HydroError> = None;
        let accelerated: bool = !candidate.acceleration.equals(zero);
        let diverging: bool = !candidate.divergence.equals(zero);
        if !candidate.particle_size.is_positive() || !candidate.signal_speed.is_positive()
            || !candidate.courant.is_positive() {
            fault =
            Some(
                HydroError::NonFiniteRiemannResult {
                    field: "courant_timestep",
                    value: candidate.courant,
                },
            );
        } else if !candidate.acceleration.is_finite() {
            fault =
            Some(
                HydroError::InvalidParticle {
                    index,
                    field: "acceleration",
                    value: candidate.acceleration,
                },
            );
        } else if accelerated && !candidate.acceleration_bound.is_positive() {
            fault =
            Some(
                HydroError::NonFiniteRiemannResult {
                    field: "acceleration_timestep",
                    value: candidate.acceleration_bound,
                },
            );
        } else if !candidate.divergence.is_finite() {
            fault =
            Some(
                HydroError::InvalidParticle {
                    index,
                    field: "particle_divergence",
                    value: candidate.divergence,
                },
            );
        } else if diverging && !candidate.divergence_bound.is_positive() {
            fault =
            Some(
                HydroError::NonFiniteRiemannResult {
                    field: "divergence_timestep",
                    value: candidate.divergence_bound,
                },
            );
        }
        assert(fault == candidates@[index as int].fault(index as int));
        if let Some(error) = fault {
            proof {
                lemma_selection_fault_stays(
                    maximum_timestep,
                    candidates@,
                    index + 1,
                    candidates@.len() as int,
                );
            }
            return Err(error);
        }
        let courant: TimestepSelection1d = replace_if_shorter(
            selection,
            true,
            candidate.courant,
            TimestepBound1d::Courant { particle_index: index },
        );
        let acceleration: TimestepSelection1d = replace_if_shorter(
            courant,
            accelerated,
            candidate.acceleration_bound,
            TimestepBound1d::Acceleration { particle_index: index },
        );
        selection =
        replace_if_shorter(
            acceleration,
            diverging,
            candidate.divergence_bound,
            TimestepBound1d::GasDivergence { particle_index: index },
        );
        index = index + 1;
    }
    Ok(selection)
}

proof fn lemma_selection_fault_stays(
    maximum_timestep: Binary64,
    candidates: Seq<TimestepCandidates>,
    count: int,
    longer: int,
)
    requires
        count <= longer,
        selected(maximum_timestep, candidates, count) is Err,
    ensures
        selected(maximum_timestep, candidates, longer) == selected(
            maximum_timestep,
            candidates,
            count,
        ),
    decreases longer - count,
{
    if count < longer {
        lemma_selection_fault_stays(maximum_timestep, candidates, count, longer - 1);
    }
}

/// Whether one of the criteria of a particle, where it applies, is shorter than a duration.
pub open spec fn undercut(candidate: TimestepCandidates, duration: Binary64) -> bool {
    ||| candidate.courant.lt(duration)
    ||| candidate.acceleration.rank() != 0 && candidate.acceleration_bound.lt(duration)
    ||| candidate.divergence.rank() != 0 && candidate.divergence_bound.lt(duration)
}

/// The selected timestep is the shortest: no criterion of any particle undercuts it, nor
/// does the maximum.
pub proof fn law_selection_is_the_shortest(
    maximum_timestep: Binary64,
    candidates: Seq<TimestepCandidates>,
    count: int,
    selection: TimestepSelection1d,
)
    requires
        maximum_timestep.positive(),
        0 <= count <= candidates.len(),
        selected(maximum_timestep, candidates, count) == Ok::<TimestepSelection1d, HydroError>(
            selection,
        ),
    ensures
        selection.duration.positive(),
        !maximum_timestep.lt(selection.duration),
        forall|i: int| 0 <= i < count ==> !undercut(#[trigger] candidates[i], selection.duration),
    decreases count,
{
    if count > 0 {
        let before = selected(maximum_timestep, candidates, count - 1)->Ok_0;
        law_selection_is_the_shortest(maximum_timestep, candidates, count - 1, before);
        assert(selection == candidates[count - 1].applied(count - 1, before));
        assert(selection.duration.le(before.duration));
        assert forall|i: int| 0 <= i < count implies !undercut(
            #[trigger] candidates[i],
            selection.duration,
        ) by {
            if i < count - 1 {
                assert(!undercut(candidates[i], before.duration));
            }
        }
    }
}

/// The selected timestep is the value of the criterion that it names.
pub proof fn law_selection_names_its_criterion(
    maximum_timestep: Binary64,
    candidates: Seq<TimestepCandidates>,
    count: int,
    selection: TimestepSelection1d,
)
    requires
        0 <= count <= candidates.len(),
        candidates.len() <= usize::MAX,
        selected(maximum_timestep, candidates, count) == Ok::<TimestepSelection1d, HydroError>(
            selection,
        ),
    ensures
        match selection.bound {
            TimestepBound1d::MaximumSize => selection.duration == maximum_timestep,
            TimestepBound1d::Courant { particle_index } => particle_index < count
                && selection.duration == candidates[particle_index as int].courant,
            TimestepBound1d::Acceleration { particle_index } => particle_index < count
                && selection.duration == candidates[particle_index as int].acceleration_bound
                && candidates[particle_index as int].acceleration.rank() != 0,
            TimestepBound1d::GasDivergence { particle_index } => particle_index < count
                && selection.duration == candidates[particle_index as int].divergence_bound
                && candidates[particle_index as int].divergence.rank() != 0,
        },
    decreases count,
{
    if count > 0 {
        let before = selected(maximum_timestep, candidates, count - 1)->Ok_0;
        law_selection_names_its_criterion(maximum_timestep, candidates, count - 1, before);
    }
}

/// Ties keep the maximum: where no criterion is strictly shorter, the maximum is selected.
pub proof fn law_ties_keep_the_maximum(
    maximum_timestep: Binary64,
    candidates: Seq<TimestepCandidates>,
    count: int,
)
    requires
        0 <= count <= candidates.len(),
        forall|i: int|
            0 <= i < count ==> (#[trigger] candidates[i]).fault(i) is None && !undercut(
                candidates[i],
                maximum_timestep,
            ),
    ensures
        selected(maximum_timestep, candidates, count) == Ok::<TimestepSelection1d, HydroError>(
            TimestepSelection1d {
                duration: maximum_timestep,
                bound: TimestepBound1d::MaximumSize,
            },
        ),
    decreases count,
{
    if count > 0 {
        law_ties_keep_the_maximum(maximum_timestep, candidates, count - 1);
        assert(candidates[count - 1].fault(count - 1) is None);
    }
}

/// One Courant candidate with the values that it stems from.
#[derive(Clone, Copy, Debug, PartialEq, Eq, Structural)]
pub struct CourantCandidate {
    pub particle_size: Binary64,
    pub signal_speed: Binary64,
    pub timestep: Binary64,
}

impl CourantCandidate {
    /// Whether the candidate can be used.
    pub open spec fn usable(self) -> bool {
        self.particle_size.positive() && self.signal_speed.positive() && self.timestep.positive()
    }
}

/// The minimum over the first `count` candidates, or the first that cannot be used.
pub open spec fn shortest(candidates: Seq<CourantCandidate>, count: int) -> Result<
    Binary64,
    HydroError,
>
    decreases count,
{
    if count <= 0 {
        Ok(Binary64 { bits: INFINITY_BITS })
    } else {
        match shortest(candidates, count - 1) {
            Err(error) => Err(error),
            Ok(timestep) => if candidates[count - 1].usable() {
                Ok(timestep.lesser(candidates[count - 1].timestep))
            } else {
                Err(
                    HydroError::NonFiniteRiemannResult {
                        field: "courant_timestep",
                        value: candidates[count - 1].timestep,
                    },
                )
            },
        }
    }
}

/// The global Courant timestep: the shortest candidate, which must exist.
pub fn global_courant_timestep_1d(candidates: &[CourantCandidate]) -> (result: Result<
    Binary64,
    HydroError,
>)
    ensures
        result == match shortest(candidates@, candidates@.len() as int) {
            Err(error) => Err(error),
            Ok(timestep) => if timestep.finite() {
                Ok::<Binary64, HydroError>(timestep)
            } else {
                Err(
                    HydroError::NonFiniteRiemannResult {
                        field: "global_timestep",
                        value: timestep,
                    },
                )
            },
        },
        candidates@.len() == 0 ==> result is Err,
        result matches Ok(timestep) ==> timestep.finite(),
{
    let mut timestep: Binary64 = Binary64 { bits: INFINITY_BITS };
    let mut index: usize = 0;
    while index < candidates.len()
        invariant
            index <= candidates@.len(),
            shortest(candidates@, index as int) == Ok::<Binary64, HydroError>(timestep),
        decreases candidates@.len() - index,
    {
        let candidate: CourantCandidate = candidates[index];
        if !candidate.particle_size.is_positive() || !candidate.signal_speed.is_positive()
            || !candidate.timestep.is_positive() {
            proof {
                lemma_shortest_fault_stays(candidates@, index + 1, candidates@.len() as int);
            }
            return Err(
                HydroError::NonFiniteRiemannResult {
                    field: "courant_timestep",
                    value: candidate.timestep,
                },
            );
        }
        timestep = timestep.min(candidate.timestep);
        index = index + 1;
    }
    if !timestep.is_finite() {
        return Err(
            HydroError::NonFiniteRiemannResult { field: "global_timestep", value: timestep },
        );
    }
    Ok(timestep)
}

proof fn lemma_shortest_fault_stays(candidates: Seq<CourantCandidate>, count: int, longer: int)
    requires
        count <= longer,
        shortest(candidates, count) is Err,
    ensures
        shortest(candidates, longer) == shortest(candidates, count),
    decreases longer - count,
{
    if count < longer {
        lemma_shortest_fault_stays(candidates, count, longer - 1);
    }
}

/// The global timestep is at most every candidate and equal to one of them.
pub proof fn law_global_timestep_is_the_minimum(candidates: Seq<CourantCandidate>, count: int)
    requires
        0 < count <= candidates.len(),
        forall|i: int| 0 <= i < count ==> (#[trigger] candidates[i]).usable(),
    ensures
        shortest(candidates, count) is Ok,
        forall|i: int|
            0 <= i < count ==> (shortest(candidates, count)->Ok_0).le(
                (#[trigger] candidates[i]).timestep,
            ),
        exists|i: int|
            0 <= i < count && shortest(candidates, count)->Ok_0 == (
            #[trigger] candidates[i]).timestep,
    decreases count,
{
    assert(candidates[count - 1].usable());
    if count > 1 {
        law_global_timestep_is_the_minimum(candidates, count - 1);
        let before = shortest(candidates, count - 1)->Ok_0;
        let at = choose|i: int| 0 <= i < count - 1 && before == (#[trigger] candidates[i]).timestep;
        let now = shortest(candidates, count)->Ok_0;
        assert(candidates[at].usable());
        assert(now == before.lesser(candidates[count - 1].timestep));
        if now == before {
            assert(now == candidates[at].timestep);
        } else {
            assert(now == candidates[count - 1].timestep);
        }
        assert forall|i: int| 0 <= i < count implies now.le((#[trigger] candidates[i]).timestep) by {
            assert(candidates[i].usable());
            if i < count - 1 {
                assert(before.le(candidates[i].timestep));
            }
        }
    } else {
        assert(shortest(candidates, 0) == Ok::<Binary64, HydroError>(
            Binary64 { bits: INFINITY_BITS },
        ));
        assert(shortest(candidates, 1)->Ok_0 == candidates[0].timestep);
    }
}

/// Check a pair signal speed.
pub fn validate_signal_speed(signal_speed: Binary64) -> (result: Result<(), HydroError>)
    ensures
        result == outcome(
            if signal_speed.positive() {
                None
            } else {
                Some(
                    HydroError::NonFiniteRiemannResult {
                        field: "signal_speed",
                        value: signal_speed,
                    },
                )
            },
        ),
        result is Ok <==> (Binary64 { bits: 0 }).lt(signal_speed) && signal_speed.finite(),
{
    if signal_speed.is_positive() {
        Ok(())
    } else {
        Err(HydroError::NonFiniteRiemannResult { field: "signal_speed", value: signal_speed })
    }
}

/// The candidates of a particle are usable exactly where its size, speed and Courant bound are
/// positive, its acceleration and divergence are finite, and each of these that does not vanish
/// has a positive bound; the first that is not so is reported.
pub proof fn law_candidates_are_usable(
    candidates: TimestepCandidates,
    index: int,
)
    ensures
        candidates.fault(index) is None <==> {
            &&& candidates.particle_size.positive() && candidates.signal_speed.positive() && candidates.courant.positive()
            &&& candidates.acceleration.finite()
            &&& candidates.acceleration.same(Binary64 { bits: 0 }) || candidates.acceleration_bound.positive()
            &&& candidates.divergence.finite()
            &&& candidates.divergence.same(Binary64 { bits: 0 }) || candidates.divergence_bound.positive()
        },
        ({
            &&& !(candidates.particle_size.positive() && candidates.signal_speed.positive() && candidates.courant.positive())
        }) ==> candidates.fault(index) == Some(
            HydroError::NonFiniteRiemannResult { field: "courant_timestep", value: candidates.courant },
        ),
        ({
            &&& candidates.particle_size.positive() && candidates.signal_speed.positive() && candidates.courant.positive()
            &&& !(candidates.acceleration.finite())
        }) ==> candidates.fault(index) == Some(
            HydroError::InvalidParticle { index: index as usize, field: "acceleration", value: candidates.acceleration },
        ),
        ({
            &&& candidates.particle_size.positive() && candidates.signal_speed.positive() && candidates.courant.positive()
            &&& candidates.acceleration.finite()
            &&& !(candidates.acceleration.same(Binary64 { bits: 0 }) || candidates.acceleration_bound.positive())
        }) ==> candidates.fault(index) == Some(
            HydroError::NonFiniteRiemannResult { field: "acceleration_timestep", value: candidates.acceleration_bound },
        ),
        ({
            &&& candidates.particle_size.positive() && candidates.signal_speed.positive() && candidates.courant.positive()
            &&& candidates.acceleration.finite()
            &&& candidates.acceleration.same(Binary64 { bits: 0 }) || candidates.acceleration_bound.positive()
            &&& !(candidates.divergence.finite())
        }) ==> candidates.fault(index) == Some(
            HydroError::InvalidParticle { index: index as usize, field: "particle_divergence", value: candidates.divergence },
        ),
        ({
            &&& candidates.particle_size.positive() && candidates.signal_speed.positive() && candidates.courant.positive()
            &&& candidates.acceleration.finite()
            &&& candidates.acceleration.same(Binary64 { bits: 0 }) || candidates.acceleration_bound.positive()
            &&& candidates.divergence.finite()
            &&& !(candidates.divergence.same(Binary64 { bits: 0 }) || candidates.divergence_bound.positive())
        }) ==> candidates.fault(index) == Some(
            HydroError::NonFiniteRiemannResult { field: "divergence_timestep", value: candidates.divergence_bound },
        ),
{
}

/// A selected step is not longer than the maximum nor than any bound that applies: the
/// Courant bound of every particle, and the acceleration and divergence bounds of those with
/// an acceleration or a divergence.
pub proof fn law_selection_respects_every_bound(
    maximum_timestep: Binary64,
    candidates: Seq<TimestepCandidates>,
    count: int,
    selection: TimestepSelection1d,
    i: int,
)
    requires
        maximum_timestep.positive(),
        0 <= i < count <= candidates.len(),
        selected(maximum_timestep, candidates, count) == Ok::<TimestepSelection1d, HydroError>(
            selection,
        ),
    ensures
        selection.duration.le(maximum_timestep),
        selection.duration.le(candidates[i].courant),
        !candidates[i].acceleration.same(Binary64 { bits: 0 }) ==> selection.duration.le(
            candidates[i].acceleration_bound,
        ),
        !candidates[i].divergence.same(Binary64 { bits: 0 }) ==> selection.duration.le(
            candidates[i].divergence_bound,
        ),
{
    law_selection_is_the_shortest(maximum_timestep, candidates, count, selection);
    lemma_selected_candidates_are_usable(maximum_timestep, candidates, count, i);
    assert(!undercut(candidates[i], selection.duration));
    law_candidates_are_usable(candidates[i], i);
}

proof fn lemma_selected_candidates_are_usable(
    maximum_timestep: Binary64,
    candidates: Seq<TimestepCandidates>,
    count: int,
    i: int,
)
    requires
        0 <= i < count <= candidates.len(),
        selected(maximum_timestep, candidates, count) is Ok,
    ensures
        candidates[i].fault(i) is None,
    decreases count,
{
    if i < count - 1 {
        lemma_selected_candidates_are_usable(maximum_timestep, candidates, count - 1, i);
    }
}

/// A step is selected exactly where the candidates of every particle are usable; otherwise
/// the fault of the first particle with one is reported.
pub proof fn law_selection_reports_the_first_fault(
    maximum_timestep: Binary64,
    candidates: Seq<TimestepCandidates>,
    count: int,
)
    requires
        0 <= count <= candidates.len(),
    ensures
        selected(maximum_timestep, candidates, count) is Ok <==> forall|i: int|
            0 <= i < count ==> (#[trigger] candidates[i]).fault(i) is None,
        selected(maximum_timestep, candidates, count) matches Err(error) ==> exists|i: int|
            0 <= i < count && (#[trigger] candidates[i]).fault(i) == Some(error) && forall|k: int|
                0 <= k < i ==> (#[trigger] candidates[k]).fault(k) is None,
    decreases count,
{
    if count > 0 {
        law_selection_reports_the_first_fault(maximum_timestep, candidates, count - 1);
        let last = candidates[count - 1];
        if selected(maximum_timestep, candidates, count - 1) is Err {
            let error = selected(maximum_timestep, candidates, count - 1)->Err_0;
            let i = choose|i: int|
                0 <= i < count - 1 && (#[trigger] candidates[i]).fault(i) == Some(error)
                    && forall|k: int| 0 <= k < i ==> (#[trigger] candidates[k]).fault(k) is None;
            assert(candidates[i].fault(i) == Some(error));
        } else if last.fault(count - 1) is Some {
            assert(candidates[count - 1].fault(count - 1) is Some);
        }
    }
}

/// A candidate is usable exactly where size, speed and step are positive.
pub proof fn law_usable_candidates(candidate: CourantCandidate)
    ensures
        candidate.usable() <==> (Binary64 { bits: 0 }).lt(candidate.particle_size)
            && candidate.particle_size.finite() && (Binary64 { bits: 0 }).lt(
            candidate.signal_speed,
        ) && candidate.signal_speed.finite() && (Binary64 { bits: 0 }).lt(candidate.timestep)
            && candidate.timestep.finite(),
{
}

/// Without candidates nothing limits the step, and the first unusable candidate is reported.
pub proof fn law_unusable_candidates_are_reported(candidates: Seq<CourantCandidate>, count: int)
    requires
        0 <= count <= candidates.len(),
    ensures
        count == 0 ==> shortest(candidates, count) == Ok::<Binary64, HydroError>(
            Binary64 { bits: INFINITY_BITS },
        ),
        shortest(candidates, count) is Ok <==> forall|i: int|
            0 <= i < count ==> (#[trigger] candidates[i]).usable(),
        shortest(candidates, count) matches Err(error) ==> exists|i: int|
            0 <= i < count && !(#[trigger] candidates[i]).usable() && error == (
            HydroError::NonFiniteRiemannResult {
                field: "courant_timestep",
                value: candidates[i].timestep,
            }) && forall|k: int| 0 <= k < i ==> (#[trigger] candidates[k]).usable(),
    decreases count,
{
    if count > 0 {
        law_unusable_candidates_are_reported(candidates, count - 1);
        if shortest(candidates, count - 1) is Err {
            let error = shortest(candidates, count - 1)->Err_0;
            let i = choose|i: int|
                0 <= i < count - 1 && !(#[trigger] candidates[i]).usable() && error == (
                HydroError::NonFiniteRiemannResult {
                    field: "courant_timestep",
                    value: candidates[i].timestep,
                }) && forall|k: int| 0 <= k < i ==> (#[trigger] candidates[k]).usable();
            assert(!candidates[i].usable());
        } else if !candidates[count - 1].usable() {
            assert(!candidates[count - 1].usable());
        }
    }
}

} // verus!
