//! Decisions of the one-dimensional kick-drift-kick step.

use vstd::prelude::*;

use crate::binary64::Binary64;
use crate::columns_1d::check_length;
use crate::hydro_error::HydroError;
use crate::neighbors_1d::BoundaryMode1d;

verus! {

use crate::binary64::{NAN_BITS, ONE_BITS};
use crate::columns_1d::{length_fault, particle_fault};
use crate::fault::{
    first, first_fault, law_first_fault_is_the_earliest, lemma_first_fault_stays, outcome,
};

/// A step between its two kicks: how much of it has been drifted.
#[derive(Clone, Copy, Debug, PartialEq, Eq, Structural)]
pub struct MfmKdkStep1d {
    elapsed: Binary64,
    timestep: Binary64,
    boundary: BoundaryMode1d,
}

impl MfmKdkStep1d {
    /// The drifted time.
    pub closed spec fn drifted(self) -> Binary64 {
        self.elapsed
    }

    /// The length of the step.
    pub closed spec fn length(self) -> Binary64 {
        self.timestep
    }

    /// The domain topology.
    pub closed spec fn topology(self) -> BoundaryMode1d {
        self.boundary
    }

    /// The invariant: a positive length, of which a part has been drifted.
    pub open spec fn wf(self) -> bool {
        self.length().positive() && self.drifted().nonnegative() && self.drifted().le(self.length())
    }

    /// Whether the drift may proceed to a time: not back, and not beyond the step.
    pub open spec fn admits(self, elapsed: Binary64) -> bool {
        elapsed.finite() && self.drifted().le(elapsed) && elapsed.le(self.length())
    }

    /// Open a step after its first kick.
    pub fn begin(
        timestep: Binary64,
        minimum_specific_internal_energy: Binary64,
        boundary: BoundaryMode1d,
    ) -> (result: Result<Self, HydroError>)
        ensures
            match result {
                Ok(step) => {
                    &&& timestep.positive()
                    &&& minimum_specific_internal_energy.nonnegative()
                    &&& step.wf()
                    &&& step.length() == timestep
                    &&& step.drifted() == (Binary64 { bits: 0 })
                    &&& step.topology() == boundary
                },
                Err(error) => if !timestep.positive() {
                    error == (HydroError::InvalidRiemannParameter {
                        field: "timestep",
                        value: timestep,
                    })
                } else {
                    &&& !minimum_specific_internal_energy.nonnegative()
                    &&& error == (HydroError::InvalidRiemannParameter {
                        field: "minimum_specific_internal_energy",
                        value: minimum_specific_internal_energy,
                    })
                },
            },
            result is Ok <==> timestep.positive() && minimum_specific_internal_energy.nonnegative(),
    {
        if !timestep.is_positive() {
            return Err(HydroError::InvalidRiemannParameter { field: "timestep", value: timestep });
        }
        if !minimum_specific_internal_energy.is_nonnegative() {
            return Err(
                HydroError::InvalidRiemannParameter {
                    field: "minimum_specific_internal_energy",
                    value: minimum_specific_internal_energy,
                },
            );
        }
        Ok(MfmKdkStep1d { elapsed: Binary64 { bits: 0 }, timestep, boundary })
    }

    /// The length of the step.
    pub fn timestep(&self) -> (result: Binary64)
        ensures
            result == self.length(),
    {
        self.timestep
    }

    /// The drifted time.
    pub fn elapsed(&self) -> (result: Binary64)
        ensures
            result == self.drifted(),
    {
        self.elapsed
    }

    /// The domain topology.
    pub fn boundary(&self) -> (result: BoundaryMode1d)
        ensures
            result == self.topology(),
    {
        self.boundary
    }

    /// Check that the drift may proceed to a time.
    pub fn check_drift(&self, elapsed: Binary64) -> (result: Result<(), HydroError>)
        requires
            self.wf(),
        ensures
            result == outcome(
                if self.admits(elapsed) {
                    None
                } else {
                    Some(
                        HydroError::InvalidRiemannParameter {
                            field: "kdk_drift_elapsed",
                            value: elapsed,
                        },
                    )
                },
            ),
            result is Ok <==> !elapsed.nan() && self.drifted().le(elapsed) && elapsed.le(self.length()),
    {
        if !elapsed.is_finite() || elapsed.less(self.elapsed) || self.timestep.less(elapsed) {
            return Err(
                HydroError::InvalidRiemannParameter { field: "kdk_drift_elapsed", value: elapsed },
            );
        }
        Ok(())
    }

    /// Commit a drift to a time.
    pub fn drift_state(&mut self, elapsed: Binary64) -> (result: Result<(), HydroError>)
        requires
            old(self).wf(),
        ensures
            final(self).wf(),
            final(self).length() == old(self).length(),
            final(self).topology() == old(self).topology(),
            result is Ok <==> old(self).admits(elapsed),
            match result {
                Ok(_) => final(self).drifted() == elapsed,
                Err(error) => *final(self) == *old(self) && error
                    == (HydroError::InvalidRiemannParameter {
                    field: "kdk_drift_elapsed",
                    value: elapsed,
                }),
            },
    {
        if let Err(error) = self.check_drift(elapsed) {
            return Err(error);
        }
        self.elapsed = elapsed;
        Ok(())
    }
}

/// Drifts only go forward: after a drift no earlier time is admitted, and the end of the
/// step always is.
pub proof fn law_drifts_go_forward(before: MfmKdkStep1d, after: MfmKdkStep1d, earlier: Binary64)
    requires
        before.wf(),
        after.wf(),
        after.length() == before.length(),
        before.admits(after.drifted()),
        earlier.lt(after.drifted()),
    ensures
        before.drifted().le(after.drifted()),
        !after.admits(earlier),
        after.admits(after.length()),
{
}

/// How a particle meets the walls of a reflective domain.
#[derive(Clone, Copy, Debug, PartialEq, Eq, Structural)]
pub enum WallContact {
    /// Between the walls.
    Free,
    /// At or beyond the lower wall; `reversed` where it moved outward.
    Lower { reversed: bool },
    /// At or beyond the upper wall; `reversed` where it moved outward.
    Upper { reversed: bool },
}

/// How a particle that drifted to a position meets the walls.
pub open spec fn wall_contact(crossed: Binary64, box_size: Binary64, velocity: Binary64) -> WallContact {
    let zero = Binary64 { bits: 0 };
    if crossed.le(zero) {
        WallContact::Lower { reversed: velocity.lt(zero) }
    } else if box_size.le(crossed) {
        WallContact::Upper { reversed: zero.lt(velocity) }
    } else {
        WallContact::Free
    }
}

/// Find how a particle meets the walls.
pub fn meet_wall(crossed: Binary64, box_size: Binary64, velocity: Binary64) -> (result: WallContact)
    ensures
        result == wall_contact(crossed, box_size, velocity),
{
    let zero: Binary64 = Binary64 { bits: 0 };
    if crossed.at_most(zero) {
        WallContact::Lower { reversed: velocity.less(zero) }
    } else if box_size.at_most(crossed) {
        WallContact::Upper { reversed: zero.less(velocity) }
    } else {
        WallContact::Free
    }
}

/// The velocity after a wall: flipped where it pointed outward.
pub open spec fn velocity_after(contact: WallContact, velocity: Binary64) -> Binary64 {
    match contact {
        WallContact::Free => velocity,
        WallContact::Lower { reversed } => if reversed {
            velocity.negated()
        } else {
            velocity
        },
        WallContact::Upper { reversed } => if reversed {
            velocity.negated()
        } else {
            velocity
        },
    }
}

/// The velocity after a wall.
pub fn reflect_velocity(contact: WallContact, velocity: Binary64) -> (result: Binary64)
    ensures
        result == velocity_after(contact, velocity),
{
    match contact {
        WallContact::Free => velocity,
        WallContact::Lower { reversed } => if reversed {
            velocity.neg()
        } else {
            velocity
        },
        WallContact::Upper { reversed } => if reversed {
            velocity.neg()
        } else {
            velocity
        },
    }
}

/// No particle leaves a wall outward, and the speed is kept.
pub proof fn law_walls_turn_particles_inward(
    crossed: Binary64,
    box_size: Binary64,
    velocity: Binary64,
)
    requires
        velocity.finite(),
    ensures
        crossed.le(Binary64 { bits: 0 }) ==> velocity_after(
            wall_contact(crossed, box_size, velocity),
            velocity,
        ).rank() >= 0,
        !crossed.le(Binary64 { bits: 0 }) && box_size.le(crossed) ==> velocity_after(
            wall_contact(crossed, box_size, velocity),
            velocity,
        ).rank() <= 0,
        velocity_after(wall_contact(crossed, box_size, velocity), velocity).magnitude()
            == velocity.magnitude(),
{
}

/// The faults of particle identifiers whose wall offset leaves the domain.
pub open spec fn identifier_faults(ids: Seq<u64>, offsets: Seq<Binary64>) -> spec_fn(int) -> Option<
    HydroError,
> {
    |i: int|
        particle_fault(
            i,
            "reflective_particle_id",
            offsets[i],
            ids[i] != 0 && offsets[i].finite() && offsets[i].rank() < ONE_BITS,
        )
}

/// Check the identifiers of the particles of a reflective domain: one for every particle,
/// none zero, and each with a wall offset below one.
pub fn validate_particle_ids(ids: &[u64], offsets: &[Binary64], count: usize) -> (result: Result<
    (),
    HydroError,
>)
    requires
        offsets@.len() == ids@.len(),
    ensures
        result == outcome(
            first(
                length_fault("particle_ids", count as int, ids@.len() as int),
                first_fault(identifier_faults(ids@, offsets@), count as int),
            ),
        ),
{
    if let Err(error) = check_length("particle_ids", count, ids.len()) {
        return Err(error);
    }
    let one: Binary64 = Binary64 { bits: ONE_BITS };
    let ghost faults = identifier_faults(ids@, offsets@);
    let mut index: usize = 0;
    while index < count
        invariant
            index <= count,
            ids@.len() == count,
            offsets@.len() == count,
            one == (Binary64 { bits: ONE_BITS }),
            faults == identifier_faults(ids@, offsets@),
            first_fault(faults, index as int) is None,
        decreases count - index,
    {
        let offset: Binary64 = offsets[index];
        let valid: bool = ids[index] != 0 && offset.is_finite() && !one.at_most(offset);
        assert(faults(index as int) == particle_fault(
            index as int,
            "reflective_particle_id",
            offset,
            valid,
        ));
        if !valid {
            proof {
                lemma_first_fault_stays(faults, index + 1, count as int);
            }
            return Err(
                HydroError::InvalidParticle { index, field: "reflective_particle_id", value: offset },
            );
        }
        index = index + 1;
    }
    Ok(())
}

/// Check the arguments of an internal-energy update.
pub fn validate_energy_update(
    previous: Binary64,
    rate: Binary64,
    timestep: Binary64,
    floor: Binary64,
) -> (result: Result<(), HydroError>)
    ensures
        result == outcome(
            if previous.positive() && rate.finite() && timestep.nonnegative()
                && floor.nonnegative() {
                None
            } else {
                Some(
                    HydroError::NonFiniteRiemannResult {
                        field: "internal_energy_update",
                        value: Binary64 { bits: NAN_BITS },
                    },
                )
            },
        ),
        result is Ok <==> (Binary64 { bits: 0 }).lt(previous) && previous.finite() && rate.finite()
            && (Binary64 { bits: 0 }).le(timestep) && timestep.finite() && (Binary64 {
            bits: 0,
        }).le(floor) && floor.finite(),
{
    if previous.is_positive() && rate.is_finite() && timestep.is_nonnegative()
        && floor.is_nonnegative() {
        Ok(())
    } else {
        Err(
            HydroError::NonFiniteRiemannResult {
                field: "internal_energy_update",
                value: Binary64 { bits: NAN_BITS },
            },
        )
    }
}

/// An updated energy: at least half the previous one, and at least the floor.
pub open spec fn limited_energy(candidate: Binary64, half_previous: Binary64, floor: Binary64) -> Binary64 {
    let halved = if candidate.lt(half_previous) {
        half_previous
    } else {
        candidate
    };
    halved.greater(floor)
}

/// Limit an updated energy.
pub fn limited_internal_energy_update(
    candidate: Binary64,
    half_previous: Binary64,
    floor: Binary64,
) -> (result: Result<Binary64, HydroError>)
    ensures
        result == if candidate.finite() {
            Ok::<Binary64, HydroError>(limited_energy(candidate, half_previous, floor))
        } else {
            Err(
                HydroError::NonFiniteRiemannResult {
                    field: "internal_energy_candidate",
                    value: candidate,
                },
            )
        },
        result is Ok <==> candidate.finite(),
        candidate.finite() && half_previous.finite() && floor.finite() ==> (result matches Ok(energy)
            && candidate.le(energy) && half_previous.le(energy) && floor.le(energy)),
{
    if !candidate.is_finite() {
        return Err(
            HydroError::NonFiniteRiemannResult {
                field: "internal_energy_candidate",
                value: candidate,
            },
        );
    }
    let halved: Binary64 = if candidate.less(half_previous) {
        half_previous
    } else {
        candidate
    };
    Ok(halved.max(floor))
}

/// A limited energy loses at most half of the previous one and never falls below the floor.
pub proof fn law_energy_losses_are_limited(
    candidate: Binary64,
    half_previous: Binary64,
    floor: Binary64,
)
    requires
        candidate.finite(),
        half_previous.finite(),
        floor.finite(),
    ensures
        half_previous.le(limited_energy(candidate, half_previous, floor)),
        floor.le(limited_energy(candidate, half_previous, floor)),
        candidate.le(limited_energy(candidate, half_previous, floor)),
{
}

/// Check the predicted values of a drifted particle.
pub fn validate_predictor(
    position: Binary64,
    velocity: Binary64,
    density: Binary64,
    smoothing_length: Binary64,
) -> (result: Result<(), HydroError>)
    ensures
        result == outcome(
            if position.finite() && velocity.finite() && density.positive()
                && smoothing_length.positive() {
                None
            } else {
                Some(
                    HydroError::NonFiniteRiemannResult {
                        field: "kdk_drift_predictor",
                        value: Binary64 { bits: NAN_BITS },
                    },
                )
            },
        ),
        result is Ok <==> position.finite() && velocity.finite() && (Binary64 { bits: 0 }).lt(density)
            && density.finite() && (Binary64 { bits: 0 }).lt(smoothing_length)
            && smoothing_length.finite(),
{
    if position.is_finite() && velocity.is_finite() && density.is_positive()
        && smoothing_length.is_positive() {
        Ok(())
    } else {
        Err(
            HydroError::NonFiniteRiemannResult {
                field: "kdk_drift_predictor",
                value: Binary64 { bits: NAN_BITS },
            },
        )
    }
}

/// Check a kicked velocity.
pub fn validate_kick(field: &'static str, velocity: Binary64) -> (result: Result<(), HydroError>)
    ensures
        result == outcome(
            if velocity.finite() {
                None
            } else {
                Some(HydroError::NonFiniteRiemannResult { field, value: velocity })
            },
        ),
        result is Ok <==> velocity.finite(),
{
    if velocity.is_finite() {
        Ok(())
    } else {
        Err(HydroError::NonFiniteRiemannResult { field, value: velocity })
    }
}

/// The wall offset of a particle of a reflective step, which must have one.
pub fn wall_offset(offsets: &[Binary64], index: usize) -> (result: Result<Binary64, HydroError>)
    ensures
        result == if index < offsets@.len() {
            Ok::<Binary64, HydroError>(offsets@[index as int])
        } else {
            Err(
                HydroError::InvalidParticle {
                    index,
                    field: "reflective_wall_offset",
                    value: Binary64 { bits: NAN_BITS },
                },
            )
        },
        result is Ok <==> index < offsets@.len(),
        result matches Ok(offset) ==> offset == offsets@[index as int],
{
    if index < offsets.len() {
        Ok(offsets[index])
    } else {
        Err(
            HydroError::InvalidParticle {
                index,
                field: "reflective_wall_offset",
                value: Binary64 { bits: NAN_BITS },
            },
        )
    }
}

/// A drift may go on to every time from the drifted one up to the end of the step, and to no
/// other.
pub proof fn law_drifts_stay_in_the_step(step: MfmKdkStep1d, elapsed: Binary64)
    requires
        step.wf(),
    ensures
        step.admits(elapsed) <==> !elapsed.nan() && !elapsed.lt(step.drifted()) && !step.length().lt(
            elapsed,
        ),
        step.admits(step.drifted()),
        step.admits(step.length()),
        step.length().lt(elapsed) ==> !step.admits(elapsed),
        (Binary64 { bits: 0 }).lt(step.length()),
{
}

/// A particle meets a wall exactly where it has reached it, and turns around only where it
/// still moves outward.
pub proof fn law_wall_contacts(crossed: Binary64, box_size: Binary64, velocity: Binary64)
    requires
        !crossed.nan(),
        box_size.positive(),
        !velocity.nan(),
    ensures
        wall_contact(crossed, box_size, velocity) == WallContact::Free <==> (Binary64 {
            bits: 0,
        }).lt(crossed) && crossed.lt(box_size),
        wall_contact(crossed, box_size, velocity) is Lower <==> crossed.le(Binary64 { bits: 0 }),
        wall_contact(crossed, box_size, velocity) is Upper <==> box_size.le(crossed),
        wall_contact(crossed, box_size, velocity) matches WallContact::Lower { reversed }
            ==> reversed == velocity.lt(Binary64 { bits: 0 }),
        wall_contact(crossed, box_size, velocity) matches WallContact::Upper { reversed }
            ==> reversed == (Binary64 { bits: 0 }).lt(velocity),
{
}

/// Only a reversal changes a velocity, and it changes nothing but the sign.
pub proof fn law_reversals(contact: WallContact, velocity: Binary64)
    ensures
        contact == WallContact::Free ==> velocity_after(contact, velocity) == velocity,
        contact == (WallContact::Lower { reversed: false }) ==> velocity_after(contact, velocity)
            == velocity,
        contact == (WallContact::Upper { reversed: false }) ==> velocity_after(contact, velocity)
            == velocity,
        contact == (WallContact::Lower { reversed: true }) ==> velocity_after(
            contact,
            velocity,
        ).rank() == -velocity.rank(),
        contact == (WallContact::Upper { reversed: true }) ==> velocity_after(
            contact,
            velocity,
        ).rank() == -velocity.rank(),
        velocity_after(contact, velocity).magnitude() == velocity.magnitude(),
{
}

/// A limited energy is one of the three that it is chosen from: the candidate where it keeps
/// half of the previous energy and the floor, and otherwise the larger of these two.
pub proof fn law_limited_energies_are_attained(
    candidate: Binary64,
    half_previous: Binary64,
    floor: Binary64,
)
    requires
        candidate.finite(),
        half_previous.finite(),
        floor.finite(),
    ensures
        half_previous.le(candidate) && floor.le(candidate) ==> limited_energy(
            candidate,
            half_previous,
            floor,
        ) == candidate,
        candidate.lt(half_previous) && floor.le(half_previous) ==> limited_energy(
            candidate,
            half_previous,
            floor,
        ) == half_previous,
        candidate.lt(floor) && half_previous.lt(floor) ==> limited_energy(
            candidate,
            half_previous,
            floor,
        ) == floor,
{
}

/// Identifiers are accepted exactly where none is zero and every offset is finite and below
/// one.
pub proof fn law_identifiers(ids: Seq<u64>, offsets: Seq<Binary64>, count: int)
    requires
        0 <= count <= ids.len(),
        offsets.len() == ids.len(),
    ensures
        first_fault(identifier_faults(ids, offsets), count) is None <==> forall|i: int|
            0 <= i < count ==> #[trigger] ids[i] != 0 && offsets[i].finite() && offsets[i].lt(
                Binary64 { bits: ONE_BITS },
            ),
{
    let faults = identifier_faults(ids, offsets);
    law_first_fault_is_the_earliest(faults, count);
    if first_fault(faults, count) is None {
        assert forall|i: int| 0 <= i < count implies #[trigger] ids[i] != 0 && offsets[i].finite()
            && offsets[i].lt(Binary64 { bits: ONE_BITS }) by {
            assert(faults(i) is None);
        }
    } else {
        let i = choose|i: int|
            0 <= i < count && #[trigger] faults(i) is Some;
        assert(ids[i] == 0 || !offsets[i].finite() || !offsets[i].lt(Binary64 { bits: ONE_BITS }));
    }
}

/// An identifier is refused exactly where it is zero or its offset does not lie below one.
pub proof fn law_refused_identifiers(ids: Seq<u64>, offsets: Seq<Binary64>, i: int)
    requires
        0 <= i < ids.len(),
        ids.len() <= usize::MAX,
        offsets.len() == ids.len(),
    ensures
        identifier_faults(ids, offsets)(i) is None <==> ids[i] != 0 && offsets[i].finite()
            && offsets[i].lt(Binary64 { bits: ONE_BITS }),
        ids[i] == 0 || !offsets[i].finite() || !offsets[i].lt(Binary64 { bits: ONE_BITS })
            ==> identifier_faults(ids, offsets)(i) == Some(
            HydroError::InvalidParticle {
                index: i as usize,
                field: "reflective_particle_id",
                value: offsets[i],
            },
        ),
{
}

} // verus!
