//! Validation of one-dimensional particle columns.

use vstd::prelude::*;

use crate::binary64::Binary64;
use crate::hydro_error::HydroError;
use crate::neighbors_1d::BoundaryMode1d;

verus! {

use crate::binary64::{HALF_BITS, ONE_BITS};
use crate::fault::{
    first, first_fault, law_first_fault_is_the_earliest, lemma_first_fault_stays, outcome,
};

/// A column whose length differs from the particle count.
pub open spec fn length_fault(field: &'static str, expected: int, actual: int) -> Option<HydroError> {
    if actual != expected {
        Some(
            HydroError::MismatchedLength {
                field,
                expected: expected as usize,
                actual: actual as usize,
            },
        )
    } else {
        None
    }
}

/// Check the length of a column.
pub fn check_length(field: &'static str, expected: usize, actual: usize) -> (result: Result<
    (),
    HydroError,
>)
    ensures
        result == outcome(length_fault(field, expected as int, actual as int)),
{
    if actual != expected {
        Err(HydroError::MismatchedLength { field, expected, actual })
    } else {
        Ok(())
    }
}

/// A box size that is not finite and positive.
pub open spec fn box_fault(box_size: Binary64) -> Option<HydroError> {
    if box_size.positive() {
        None
    } else {
        Some(HydroError::InvalidBoxSize(box_size))
    }
}

/// A parameter of a solver that does not satisfy its condition.
pub open spec fn parameter_fault(field: &'static str, value: Binary64, valid: bool) -> Option<
    HydroError,
> {
    if valid {
        None
    } else {
        Some(HydroError::InvalidRiemannParameter { field, value })
    }
}

/// A particle value that does not satisfy its condition.
pub open spec fn particle_fault(
    index: int,
    field: &'static str,
    value: Binary64,
    valid: bool,
) -> Option<HydroError> {
    if valid {
        None
    } else {
        Some(HydroError::InvalidParticle { index: index as usize, field, value })
    }
}

/// Whether an adiabatic index is finite and above one.
pub open spec fn adiabatic(gamma: Binary64) -> bool {
    gamma.finite() && gamma.rank() > ONE_BITS
}

/// Whether a Courant factor lies above zero and not above one half.
pub open spec fn courant_valid(factor: Binary64) -> bool {
    factor.positive() && factor.rank() <= HALF_BITS
}

fn is_adiabatic(gamma: Binary64) -> (result: bool)
    ensures
        result == adiabatic(gamma),
{
    let one: Binary64 = Binary64 { bits: ONE_BITS };
    gamma.is_finite() && one.less(gamma)
}

/// Whether a Courant factor is usable.
pub fn is_courant_factor(factor: Binary64) -> (result: bool)
    ensures
        result == courant_valid(factor),
        result <==> (Binary64 { bits: 0 }).lt(factor) && factor.le(Binary64 { bits: HALF_BITS }),
{
    let half: Binary64 = Binary64 { bits: HALF_BITS };
    factor.is_positive() && factor.at_most(half)
}

/// The faults of the particles of a geometry: position, then mass, then smoothing length.
pub open spec fn geometry_faults(
    positions: Seq<Binary64>,
    masses: Seq<Binary64>,
    smoothing_lengths: Seq<Binary64>,
    box_size: Binary64,
    boundary: BoundaryMode1d,
) -> spec_fn(int) -> Option<HydroError> {
    |i: int|
        first(
            particle_fault(i, "position", positions[i], boundary.inside(positions[i], box_size)),
            first(
                particle_fault(i, "mass", masses[i], masses[i].positive()),
                particle_fault(
                    i,
                    "smoothing_length",
                    smoothing_lengths[i],
                    smoothing_lengths[i].positive(),
                ),
            ),
        )
}

/// The fault of a set of particle columns: lengths, box, then particle by particle.
pub open spec fn columns_fault(
    positions: Seq<Binary64>,
    masses: Seq<Binary64>,
    smoothing_lengths: Seq<Binary64>,
    box_size: Binary64,
    boundary: BoundaryMode1d,
) -> Option<HydroError> {
    first(
        length_fault("masses", positions.len() as int, masses.len() as int),
        first(
            length_fault("smoothing_lengths", positions.len() as int, smoothing_lengths.len() as int),
            first(
                box_fault(box_size),
                first_fault(
                    geometry_faults(positions, masses, smoothing_lengths, box_size, boundary),
                    positions.len() as int,
                ),
            ),
        ),
    )
}

/// Check positions, masses and smoothing lengths against a domain.
pub fn validate_particle_columns_with_boundary(
    positions: &[Binary64],
    masses: &[Binary64],
    smoothing_lengths: &[Binary64],
    box_size: Binary64,
    boundary: BoundaryMode1d,
) -> (result: Result<(), HydroError>)
    ensures
        result == outcome(
            columns_fault(positions@, masses@, smoothing_lengths@, box_size, boundary),
        ),
{
    if let Err(error) = check_length("masses", positions.len(), masses.len()) {
        return Err(error);
    }
    if let Err(error) = check_length("smoothing_lengths", positions.len(), smoothing_lengths.len()) {
        return Err(error);
    }
    if !box_size.is_positive() {
        return Err(HydroError::InvalidBoxSize(box_size));
    }
    let ghost faults = geometry_faults(
        positions@,
        masses@,
        smoothing_lengths@,
        box_size,
        boundary,
    );
    let mut index: usize = 0;
    while index < positions.len()
        invariant
            index <= positions@.len(),
            masses@.len() == positions@.len(),
            smoothing_lengths@.len() == positions@.len(),
            faults == geometry_faults(positions@, masses@, smoothing_lengths@, box_size, boundary),
            first_fault(faults, index as int) is None,
            box_size.positive(),
            columns_fault(positions@, masses@, smoothing_lengths@, box_size, boundary)
                == first_fault(faults, positions@.len() as int),
        decreases positions@.len() - index,
    {
        let mut fault: Option<HydroError> = None;
        if !boundary.contains(positions[index], box_size) {
            fault =
            Some(
                HydroError::InvalidParticle { index, field: "position", value: positions[index] },
            );
        } else if !masses[index].is_positive() {
            fault = Some(HydroError::InvalidParticle { index, field: "mass", value: masses[index] });
        } else if !smoothing_lengths[index].is_positive() {
            fault =
            Some(
                HydroError::InvalidParticle {
                    index,
                    field: "smoothing_length",
                    value: smoothing_lengths[index],
                },
            );
        }
        assert(fault == faults(index as int));
        if let Some(error) = fault {
            proof {
                lemma_first_fault_stays(faults, index + 1, positions@.len() as int);
            }
            return Err(error);
        }
        index = index + 1;
    }
    Ok(())
}

/// The columns and parameters of a fluid state.
#[derive(Clone, Copy, Debug, PartialEq)]
pub struct MfmState1d<'a> {
    pub positions: &'a [Binary64],
    pub masses: &'a [Binary64],
    pub velocities: &'a [Binary64],
    pub specific_internal_energy: &'a [Binary64],
    pub smoothing_lengths: &'a [Binary64],
    pub box_size: Binary64,
    pub gamma: Binary64,
}

/// The fault of the first state column whose length is wrong.
pub open spec fn state_lengths_fault(state: MfmState1d<'_>) -> Option<HydroError> {
    let count = state.positions@.len() as int;
    first(
        length_fault("masses", count, state.masses@.len() as int),
        first(
            length_fault("velocities", count, state.velocities@.len() as int),
            first(
                length_fault(
                    "specific_internal_energy",
                    count,
                    state.specific_internal_energy@.len() as int,
                ),
                length_fault("smoothing_lengths", count, state.smoothing_lengths@.len() as int),
            ),
        ),
    )
}

fn check_state_lengths(state: MfmState1d<'_>) -> (result: Result<(), HydroError>)
    ensures
        result == outcome(state_lengths_fault(state)),
{
    let count: usize = state.positions.len();
    if let Err(error) = check_length("masses", count, state.masses.len()) {
        return Err(error);
    }
    if let Err(error) = check_length("velocities", count, state.velocities.len()) {
        return Err(error);
    }
    if let Err(error) = check_length(
        "specific_internal_energy",
        count,
        state.specific_internal_energy.len(),
    ) {
        return Err(error);
    }
    check_length("smoothing_lengths", count, state.smoothing_lengths.len())
}

/// The faults of the fluid values of the particles: velocity, then internal energy.
pub open spec fn fluid_faults(state: MfmState1d<'_>) -> spec_fn(int) -> Option<HydroError> {
    |i: int|
        first(
            particle_fault(i, "velocity", state.velocities@[i], state.velocities@[i].finite()),
            particle_fault(
                i,
                "specific_internal_energy",
                state.specific_internal_energy@[i],
                state.specific_internal_energy@[i].positive(),
            ),
        )
}

fn check_fluid_values(state: MfmState1d<'_>) -> (result: Result<(), HydroError>)
    requires
        state.velocities@.len() == state.positions@.len(),
        state.specific_internal_energy@.len() == state.positions@.len(),
    ensures
        result == outcome(first_fault(fluid_faults(state), state.positions@.len() as int)),
{
    let ghost faults = fluid_faults(state);
    let mut index: usize = 0;
    while index < state.positions.len()
        invariant
            index <= state.positions@.len(),
            state.velocities@.len() == state.positions@.len(),
            state.specific_internal_energy@.len() == state.positions@.len(),
            faults == fluid_faults(state),
            first_fault(faults, index as int) is None,
        decreases state.positions@.len() - index,
    {
        let velocity: Binary64 = state.velocities[index];
        let energy: Binary64 = state.specific_internal_energy[index];
        let mut fault: Option<HydroError> = None;
        if !velocity.is_finite() {
            fault = Some(HydroError::InvalidParticle { index, field: "velocity", value: velocity });
        } else if !energy.is_positive() {
            fault =
            Some(
                HydroError::InvalidParticle {
                    index,
                    field: "specific_internal_energy",
                    value: energy,
                },
            );
        }
        assert(fault == faults(index as int));
        if let Some(error) = fault {
            proof {
                lemma_first_fault_stays(faults, index + 1, state.positions@.len() as int);
            }
            return Err(error);
        }
        index = index + 1;
    }
    Ok(())
}

/// The fault of a state that is about to be differentiated in space.
pub open spec fn spatial_state_fault(state: MfmState1d<'_>, boundary: BoundaryMode1d) -> Option<
    HydroError,
> {
    first(
        state_lengths_fault(state),
        first(
            columns_fault(
                state.positions@,
                state.masses@,
                state.smoothing_lengths@,
                state.box_size,
                boundary,
            ),
            first(
                parameter_fault("gamma", state.gamma, adiabatic(state.gamma)),
                first_fault(fluid_faults(state), state.positions@.len() as int),
            ),
        ),
    )
}

/// Check a state before its spatial rates are evaluated.
pub fn validate_spatial_state(state: MfmState1d<'_>, boundary: BoundaryMode1d) -> (result: Result<
    (),
    HydroError,
>)
    ensures
        result == outcome(spatial_state_fault(state, boundary)),
{
    if let Err(error) = check_state_lengths(state) {
        return Err(error);
    }
    if let Err(error) = validate_particle_columns_with_boundary(
        state.positions,
        state.masses,
        state.smoothing_lengths,
        state.box_size,
        boundary,
    ) {
        return Err(error);
    }
    if !is_adiabatic(state.gamma) {
        return Err(HydroError::InvalidRiemannParameter { field: "gamma", value: state.gamma });
    }
    check_fluid_values(state)
}

/// The faults of the primitive values of an evolving state, reported together.
pub open spec fn evolving_faults(state: MfmState1d<'_>) -> spec_fn(int) -> Option<HydroError> {
    |i: int|
        particle_fault(
            i,
            "evolving_primitive",
            state.specific_internal_energy@[i],
            state.velocities@[i].finite() && state.specific_internal_energy@[i].positive(),
        )
}

/// The fault of an evolving state.
pub open spec fn evolving_state_fault(state: MfmState1d<'_>, boundary: BoundaryMode1d) -> Option<
    HydroError,
> {
    first(
        state_lengths_fault(state),
        first(
            columns_fault(
                state.positions@,
                state.masses@,
                state.smoothing_lengths@,
                state.box_size,
                boundary,
            ),
            first(
                first_fault(evolving_faults(state), state.positions@.len() as int),
                parameter_fault("gamma", state.gamma, adiabatic(state.gamma)),
            ),
        ),
    )
}

/// Check an evolving state.
pub fn validate_evolving_state(state: MfmState1d<'_>, boundary: BoundaryMode1d) -> (result: Result<
    (),
    HydroError,
>)
    ensures
        result == outcome(evolving_state_fault(state, boundary)),
{
    if let Err(error) = check_state_lengths(state) {
        return Err(error);
    }
    if let Err(error) = validate_particle_columns_with_boundary(
        state.positions,
        state.masses,
        state.smoothing_lengths,
        state.box_size,
        boundary,
    ) {
        return Err(error);
    }
    let ghost faults = evolving_faults(state);
    let mut index: usize = 0;
    while index < state.positions.len()
        invariant
            index <= state.positions@.len(),
            state.velocities@.len() == state.positions@.len(),
            state.specific_internal_energy@.len() == state.positions@.len(),
            faults == evolving_faults(state),
            first_fault(faults, index as int) is None,
            evolving_state_fault(state, boundary) == first(
                first_fault(faults, state.positions@.len() as int),
                parameter_fault("gamma", state.gamma, adiabatic(state.gamma)),
            ),
        decreases state.positions@.len() - index,
    {
        let energy: Binary64 = state.specific_internal_energy[index];
        let valid: bool = state.velocities[index].is_finite() && energy.is_positive();
        assert(faults(index as int) == particle_fault(
            index as int,
            "evolving_primitive",
            energy,
            valid,
        ));
        if !valid {
            proof {
                lemma_first_fault_stays(faults, index + 1, state.positions@.len() as int);
            }
            return Err(
                HydroError::InvalidParticle { index, field: "evolving_primitive", value: energy },
            );
        }
        index = index + 1;
    }
    if !is_adiabatic(state.gamma) {
        return Err(HydroError::InvalidRiemannParameter { field: "gamma", value: state.gamma });
    }
    Ok(())
}

/// The rate columns of a state.
#[derive(Clone, Copy, Debug, PartialEq)]
pub struct RateColumns1d<'a> {
    pub momentum: &'a [Binary64],
    pub total_energy: &'a [Binary64],
    pub acceleration: &'a [Binary64],
    pub specific_internal_energy: &'a [Binary64],
    pub maximum_signal_speed: &'a [Binary64],
    pub particle_divergence: &'a [Binary64],
}

/// The faults of a rate column: values that are not finite.
pub open spec fn rate_faults(column: Seq<Binary64>) -> spec_fn(int) -> Option<HydroError> {
    |i: int|
        if column[i].finite() {
            None
        } else {
            Some(HydroError::NonFiniteRiemannResult { field: "input_rate", value: column[i] })
        }
}

/// The fault of the first value of a rate column that is not finite.
pub open spec fn rate_column_fault(column: Seq<Binary64>) -> Option<HydroError> {
    first_fault(rate_faults(column), column.len() as int)
}

fn check_rate_column(column: &[Binary64]) -> (result: Result<(), HydroError>)
    ensures
        result == outcome(rate_column_fault(column@)),
{
    let ghost faults = rate_faults(column@);
    let mut index: usize = 0;
    while index < column.len()
        invariant
            index <= column@.len(),
            faults == rate_faults(column@),
            first_fault(faults, index as int) is None,
        decreases column@.len() - index,
    {
        if !column[index].is_finite() {
            assert(faults(index as int) is Some);
            proof {
                lemma_first_fault_stays(faults, index + 1, column@.len() as int);
            }
            return Err(
                HydroError::NonFiniteRiemannResult { field: "input_rate", value: column[index] },
            );
        }
        assert(faults(index as int) is None);
        index = index + 1;
    }
    Ok(())
}

/// The fault of the first rate column whose length is wrong.
pub open spec fn rate_lengths_fault(rates: RateColumns1d<'_>, expected: int) -> Option<HydroError> {
    first(
        length_fault("momentum_rate", expected, rates.momentum@.len() as int),
        first(
            length_fault("total_energy_rate", expected, rates.total_energy@.len() as int),
            first(
                length_fault("acceleration", expected, rates.acceleration@.len() as int),
                first(
                    length_fault(
                        "specific_internal_energy_rate",
                        expected,
                        rates.specific_internal_energy@.len() as int,
                    ),
                    first(
                        length_fault(
                            "maximum_signal_speed",
                            expected,
                            rates.maximum_signal_speed@.len() as int,
                        ),
                        length_fault(
                            "particle_divergence",
                            expected,
                            rates.particle_divergence@.len() as int,
                        ),
                    ),
                ),
            ),
        ),
    )
}

/// The fault of a set of rates: lengths, then column by column.
pub open spec fn rates_fault(rates: RateColumns1d<'_>, expected: int) -> Option<HydroError> {
    first(
        rate_lengths_fault(rates, expected),
        first(
            rate_column_fault(rates.momentum@),
            first(
                rate_column_fault(rates.total_energy@),
                first(
                    rate_column_fault(rates.acceleration@),
                    first(
                        rate_column_fault(rates.specific_internal_energy@),
                        first(
                            rate_column_fault(rates.maximum_signal_speed@),
                            rate_column_fault(rates.particle_divergence@),
                        ),
                    ),
                ),
            ),
        ),
    )
}

/// Check a set of rates.
pub fn validate_rate_columns(rates: RateColumns1d<'_>, expected: usize) -> (result: Result<
    (),
    HydroError,
>)
    ensures
        result == outcome(rates_fault(rates, expected as int)),
{
    if let Err(error) = check_length("momentum_rate", expected, rates.momentum.len()) {
        return Err(error);
    }
    if let Err(error) = check_length("total_energy_rate", expected, rates.total_energy.len()) {
        return Err(error);
    }
    if let Err(error) = check_length("acceleration", expected, rates.acceleration.len()) {
        return Err(error);
    }
    if let Err(error) = check_length(
        "specific_internal_energy_rate",
        expected,
        rates.specific_internal_energy.len(),
    ) {
        return Err(error);
    }
    if let Err(error) = check_length(
        "maximum_signal_speed",
        expected,
        rates.maximum_signal_speed.len(),
    ) {
        return Err(error);
    }
    if let Err(error) = check_length(
        "particle_divergence",
        expected,
        rates.particle_divergence.len(),
    ) {
        return Err(error);
    }
    if let Err(error) = check_rate_column(rates.momentum) {
        return Err(error);
    }
    if let Err(error) = check_rate_column(rates.total_energy) {
        return Err(error);
    }
    if let Err(error) = check_rate_column(rates.acceleration) {
        return Err(error);
    }
    if let Err(error) = check_rate_column(rates.specific_internal_energy) {
        return Err(error);
    }
    if let Err(error) = check_rate_column(rates.maximum_signal_speed) {
        return Err(error);
    }
    check_rate_column(rates.particle_divergence)
}

/// The fault of the inputs of a timestep selection: the three parameters, the adiabatic
/// index, the lengths, then the fluid values.
pub open spec fn timestep_inputs_fault(
    state: MfmState1d<'_>,
    rates: RateColumns1d<'_>,
    maximum_timestep: Binary64,
    courant_factor: Binary64,
    integration_accuracy: Binary64,
) -> Option<HydroError> {
    let count = state.positions@.len() as int;
    first(
        parameter_fault("maximum_timestep", maximum_timestep, maximum_timestep.positive()),
        first(
            parameter_fault(
                "integration_accuracy",
                integration_accuracy,
                integration_accuracy.positive(),
            ),
            first(
                parameter_fault("courant_factor", courant_factor, courant_valid(courant_factor)),
                first(
                    parameter_fault("gamma", state.gamma, adiabatic(state.gamma)),
                    first(
                        state_lengths_fault(state),
                        first(
                            length_fault(
                                "maximum_signal_speed",
                                count,
                                rates.maximum_signal_speed@.len() as int,
                            ),
                            first(
                                length_fault(
                                    "acceleration",
                                    count,
                                    rates.acceleration@.len() as int,
                                ),
                                first(
                                    length_fault(
                                        "particle_divergence",
                                        count,
                                        rates.particle_divergence@.len() as int,
                                    ),
                                    first_fault(fluid_faults(state), count),
                                ),
                            ),
                        ),
                    ),
                ),
            ),
        ),
    )
}

/// Check the inputs of a timestep selection.
pub fn validate_public_soundwave_timestep_inputs(
    state: MfmState1d<'_>,
    rates: RateColumns1d<'_>,
    maximum_timestep: Binary64,
    courant_factor: Binary64,
    integration_accuracy: Binary64,
) -> (result: Result<(), HydroError>)
    ensures
        result == outcome(
            timestep_inputs_fault(
                state,
                rates,
                maximum_timestep,
                courant_factor,
                integration_accuracy,
            ),
        ),
{
    if !maximum_timestep.is_positive() {
        return Err(
            HydroError::InvalidRiemannParameter {
                field: "maximum_timestep",
                value: maximum_timestep,
            },
        );
    }
    if !integration_accuracy.is_positive() {
        return Err(
            HydroError::InvalidRiemannParameter {
                field: "integration_accuracy",
                value: integration_accuracy,
            },
        );
    }
    if !is_courant_factor(courant_factor) {
        return Err(
            HydroError::InvalidRiemannParameter { field: "courant_factor", value: courant_factor },
        );
    }
    if !is_adiabatic(state.gamma) {
        return Err(HydroError::InvalidRiemannParameter { field: "gamma", value: state.gamma });
    }
    if let Err(error) = check_state_lengths(state) {
        return Err(error);
    }
    let count: usize = state.positions.len();
    if let Err(error) = check_length(
        "maximum_signal_speed",
        count,
        rates.maximum_signal_speed.len(),
    ) {
        return Err(error);
    }
    if let Err(error) = check_length("acceleration", count, rates.acceleration.len()) {
        return Err(error);
    }
    if let Err(error) = check_length("particle_divergence", count, rates.particle_divergence.len()) {
        return Err(error);
    }
    check_fluid_values(state)
}

/// The faults of a column of differentiable values.
pub open spec fn value_faults(values: Seq<Binary64>, positive: bool) -> spec_fn(int) -> Option<
    HydroError,
> {
    |i: int|
        particle_fault(
            i,
            "gradient_value",
            values[i],
            if positive {
                values[i].positive()
            } else {
                values[i].finite()
            },
        )
}

/// The fault of the values and the tolerance of a gradient.
pub open spec fn gradient_inputs_fault(
    values: Seq<Binary64>,
    count: int,
    shoot_tolerance: Binary64,
    positive: bool,
) -> Option<HydroError> {
    first(
        length_fault("gradient_values", count, values.len() as int),
        first(
            first_fault(value_faults(values, positive), count),
            if shoot_tolerance.nonnegative() {
                None
            } else {
                Some(HydroError::InvalidGradientTolerance(shoot_tolerance))
            },
        ),
    )
}

/// Check the values and the tolerance of a gradient.
pub fn validate_gradient_inputs(
    values: &[Binary64],
    count: usize,
    shoot_tolerance: Binary64,
    positive: bool,
) -> (result: Result<(), HydroError>)
    ensures
        result == outcome(
            gradient_inputs_fault(values@, count as int, shoot_tolerance, positive),
        ),
{
    if let Err(error) = check_length("gradient_values", count, values.len()) {
        return Err(error);
    }
    let ghost faults = value_faults(values@, positive);
    let mut index: usize = 0;
    while index < count
        invariant
            index <= count,
            values@.len() == count,
            faults == value_faults(values@, positive),
            first_fault(faults, index as int) is None,
        decreases count - index,
    {
        let value: Binary64 = values[index];
        let valid: bool = if positive {
            value.is_positive()
        } else {
            value.is_finite()
        };
        assert(faults(index as int) == particle_fault(
            index as int,
            "gradient_value",
            value,
            valid,
        ));
        if !valid {
            proof {
                lemma_first_fault_stays(faults, index + 1, count as int);
            }
            return Err(HydroError::InvalidParticle { index, field: "gradient_value", value });
        }
        index = index + 1;
    }
    if !shoot_tolerance.is_nonnegative() {
        return Err(HydroError::InvalidGradientTolerance(shoot_tolerance));
    }
    Ok(())
}

/// The faults of a column of velocities.
pub open spec fn velocity_faults(velocities: Seq<Binary64>) -> spec_fn(int) -> Option<HydroError> {
    |i: int| particle_fault(i, "velocity", velocities[i], velocities[i].finite())
}

/// Check a column of velocities.
pub fn validate_velocities(velocities: &[Binary64], count: usize) -> (result: Result<
    (),
    HydroError,
>)
    ensures
        result == outcome(
            first(
                length_fault("velocities", count as int, velocities@.len() as int),
                first_fault(velocity_faults(velocities@), count as int),
            ),
        ),
{
    if let Err(error) = check_length("velocities", count, velocities.len()) {
        return Err(error);
    }
    let ghost faults = velocity_faults(velocities@);
    let mut index: usize = 0;
    while index < count
        invariant
            index <= count,
            velocities@.len() == count,
            faults == velocity_faults(velocities@),
            first_fault(faults, index as int) is None,
        decreases count - index,
    {
        if !velocities[index].is_finite() {
            assert(faults(index as int) is Some);
            proof {
                lemma_first_fault_stays(faults, index + 1, count as int);
            }
            return Err(
                HydroError::InvalidParticle { index, field: "velocity", value: velocities[index] },
            );
        }
        assert(faults(index as int) is None);
        index = index + 1;
    }
    Ok(())
}

/// Check a displacement: both coordinates inside a positive box.
pub fn validate_displacement(
    a: Binary64,
    b: Binary64,
    box_size: Binary64,
    boundary: BoundaryMode1d,
) -> (result: Result<(), HydroError>)
    ensures
        result == outcome(
            if box_size.positive() && boundary.inside(a, box_size) && boundary.inside(b, box_size) {
                None
            } else {
                Some(HydroError::InvalidPeriodicInput { a, b, box_size })
            },
        ),
        result is Ok <==> (Binary64 { bits: 0 }).lt(box_size) && box_size.finite() && boundary.inside(
            a,
            box_size,
        ) && boundary.inside(b, box_size),
{
    if box_size.is_positive() && boundary.contains(a, box_size) && boundary.contains(b, box_size) {
        Ok(())
    } else {
        Err(HydroError::InvalidPeriodicInput { a, b, box_size })
    }
}

/// The number of boxes by which a periodic displacement has to be moved.
#[derive(Clone, Copy, Debug, PartialEq, Eq, Structural)]
pub enum ImageShift {
    /// Subtract one box.
    Down,
    /// Keep the displacement.
    Keep,
    /// Add one box.
    Up,
}

/// Choose the shift that gives the nearest image. Displacements of exactly half a box keep
/// their sign.
pub fn image_shift(displacement: Binary64, half_box: Binary64, negative_half_box: Binary64) -> (result:
    ImageShift)
    ensures
        result == if half_box.lt(displacement) {
            ImageShift::Down
        } else if displacement.lt(negative_half_box) {
            ImageShift::Up
        } else {
            ImageShift::Keep
        },
        result == ImageShift::Keep ==> !half_box.lt(displacement) && !displacement.lt(
            negative_half_box,
        ),
        displacement.le(half_box) && negative_half_box.le(displacement) ==> result
            == ImageShift::Keep,
        half_box.lt(displacement) ==> result == ImageShift::Down,
        displacement.le(half_box) && displacement.lt(negative_half_box) ==> result
            == ImageShift::Up,
{
    if half_box.less(displacement) {
        ImageShift::Down
    } else if displacement.less(negative_half_box) {
        ImageShift::Up
    } else {
        ImageShift::Keep
    }
}

/// Check a neighbor constraint: both numbers positive and the tolerance the smaller.
pub fn validate_neighbor_constraint(desired: Binary64, tolerance: Binary64) -> (result: Result<
    (),
    HydroError,
>)
    ensures
        result == outcome(
            if desired.positive() && tolerance.positive() && tolerance.lt(desired) {
                None
            } else {
                Some(HydroError::InvalidNeighborConstraint { desired, tolerance })
            },
        ),
        result is Ok <==> (Binary64 { bits: 0 }).lt(tolerance) && tolerance.lt(desired)
            && desired.finite(),
{
    if desired.is_positive() && tolerance.is_positive() && tolerance.less(desired) {
        Ok(())
    } else {
        Err(HydroError::InvalidNeighborConstraint { desired, tolerance })
    }
}

/// Check the constraint of a pass from seeds: a positive tolerance that is not at or above
/// the desired number.
pub fn validate_seed_constraint(desired: Binary64, tolerance: Binary64) -> (result: Result<
    (),
    HydroError,
>)
    ensures
        result == outcome(
            if tolerance.positive() && !desired.le(tolerance) {
                None
            } else {
                Some(HydroError::InvalidNeighborConstraint { desired, tolerance })
            },
        ),
        result is Ok ==> (Binary64 { bits: 0 }).lt(tolerance) && tolerance.finite(),
        !desired.nan() ==> (result is Ok <==> (Binary64 { bits: 0 }).lt(tolerance) && tolerance.lt(
            desired,
        ) && tolerance.finite()),
{
    if tolerance.is_positive() && !desired.at_most(tolerance) {
        Ok(())
    } else {
        Err(HydroError::InvalidNeighborConstraint { desired, tolerance })
    }
}

/// The particle columns of two validations agree: a state accepted for its spatial rates
/// is also accepted for evolution.
pub proof fn law_spatial_states_can_evolve(state: MfmState1d<'_>, boundary: BoundaryMode1d)
    requires
        spatial_state_fault(state, boundary) is None,
    ensures
        evolving_state_fault(state, boundary) is None,
{
    let count = state.positions@.len() as int;
    crate::fault::law_first_fault_is_the_earliest(fluid_faults(state), count);
    crate::fault::law_first_fault_is_the_earliest(evolving_faults(state), count);
    assert forall|i: int| 0 <= i < count implies (#[trigger] evolving_faults(state)(i)) is None by {
        assert(fluid_faults(state)(i) is None);
    }
}

/// Check the inputs of the global Courant bound: the factor, then the signal speeds.
pub fn validate_global_courant_inputs(
    courant_factor: Binary64,
    signal_speeds: usize,
    expected: usize,
) -> (result: Result<(), HydroError>)
    ensures
        result == outcome(
            if !courant_valid(courant_factor) {
                Some(
                    HydroError::InvalidRiemannParameter {
                        field: "courant_factor",
                        value: courant_factor,
                    },
                )
            } else if signal_speeds != expected {
                Some(
                    HydroError::MismatchedLength {
                        field: "maximum_signal_speed",
                        expected,
                        actual: signal_speeds,
                    },
                )
            } else {
                None
            },
        ),
        result is Ok <==> (Binary64 { bits: 0 }).lt(courant_factor) && courant_factor.le(
            Binary64 { bits: HALF_BITS },
        ) && signal_speeds == expected,
{
    if !is_courant_factor(courant_factor) {
        return Err(
            HydroError::InvalidRiemannParameter { field: "courant_factor", value: courant_factor },
        );
    }
    check_length("maximum_signal_speed", expected, signal_speeds)
}

/// A length is refused exactly where it is not the expected one.
pub proof fn law_lengths(
    field: &'static str,
    expected: int,
    actual: int,
)
    ensures
        length_fault(field, expected, actual) is None <==> {
            &&& actual == expected
        },
        ({
            &&& !(actual == expected)
        }) ==> length_fault(field, expected, actual) == Some(
            HydroError::MismatchedLength { field, expected: expected as usize, actual: actual as usize },
        ),
{
}

/// A box size is refused exactly where it is not positive.
pub proof fn law_box_sizes(
    box_size: Binary64,
)
    ensures
        box_fault(box_size) is None <==> {
            &&& (Binary64 { bits: 0 }).lt(box_size) && box_size.finite()
        },
        ({
            &&& !((Binary64 { bits: 0 }).lt(box_size) && box_size.finite())
        }) ==> box_fault(box_size) == Some(
            HydroError::InvalidBoxSize(box_size),
        ),
{
}

/// A parameter is refused, by its name and value, exactly where it is not valid.
pub proof fn law_checked_parameters(
    field: &'static str,
    value: Binary64,
    valid: bool,
)
    ensures
        parameter_fault(field, value, valid) is None <==> {
            &&& valid
        },
        ({
            &&& !(valid)
        }) ==> parameter_fault(field, value, valid) == Some(
            HydroError::InvalidRiemannParameter { field, value },
        ),
{
}

/// A value of a particle is refused, by its index and name, exactly where it is not valid.
pub proof fn law_checked_particles(
    index: int,
    field: &'static str,
    value: Binary64,
    valid: bool,
)
    ensures
        particle_fault(index, field, value, valid) is None <==> {
            &&& valid
        },
        ({
            &&& !(valid)
        }) ==> particle_fault(index, field, value, valid) == Some(
            HydroError::InvalidParticle { index: index as usize, field, value },
        ),
{
}

/// A gas can be compressed exactly where its index is above one; a Courant factor is usable
/// above zero and up to one half.
pub proof fn law_parameters(gamma: Binary64, factor: Binary64)
    ensures
        adiabatic(gamma) <==> (Binary64 { bits: ONE_BITS }).lt(gamma) && gamma.finite(),
        courant_valid(factor) <==> (Binary64 { bits: 0 }).lt(factor) && factor.le(
            Binary64 { bits: HALF_BITS },
        ),
        courant_valid(Binary64 { bits: HALF_BITS }),
        !adiabatic(Binary64 { bits: ONE_BITS }),
{
}

/// The geometry of a particle is refused exactly where it lies outside the box, or mass or
/// support is not positive; the first of these is reported.
pub proof fn law_particle_geometry(
    positions: Seq<Binary64>,
    masses: Seq<Binary64>,
    smoothing_lengths: Seq<Binary64>,
    box_size: Binary64,
    boundary: BoundaryMode1d,
    i: int,
)
    ensures
        (geometry_faults(positions, masses, smoothing_lengths, box_size, boundary))(i) is None <==> {
            &&& boundary.inside(positions[i], box_size)
            &&& (Binary64 { bits: 0 }).lt(masses[i]) && masses[i].finite()
            &&& (Binary64 { bits: 0 }).lt(smoothing_lengths[i]) && smoothing_lengths[i].finite()
        },
        ({
            &&& !(boundary.inside(positions[i], box_size))
        }) ==> (geometry_faults(positions, masses, smoothing_lengths, box_size, boundary))(i) == Some(
            HydroError::InvalidParticle { index: i as usize, field: "position", value: positions[i] },
        ),
        ({
            &&& boundary.inside(positions[i], box_size)
            &&& !((Binary64 { bits: 0 }).lt(masses[i]) && masses[i].finite())
        }) ==> (geometry_faults(positions, masses, smoothing_lengths, box_size, boundary))(i) == Some(
            HydroError::InvalidParticle { index: i as usize, field: "mass", value: masses[i] },
        ),
        ({
            &&& boundary.inside(positions[i], box_size)
            &&& (Binary64 { bits: 0 }).lt(masses[i]) && masses[i].finite()
            &&& !((Binary64 { bits: 0 }).lt(smoothing_lengths[i]) && smoothing_lengths[i].finite())
        }) ==> (geometry_faults(positions, masses, smoothing_lengths, box_size, boundary))(i) == Some(
            HydroError::InvalidParticle { index: i as usize, field: "smoothing_length", value: smoothing_lengths[i] },
        ),
{
}

/// The fluid of a particle is refused exactly where its velocity is not finite or its energy is
/// not positive.
pub proof fn law_particle_fluids(
    state: MfmState1d<'_>,
    i: int,
)
    ensures
        (fluid_faults(state))(i) is None <==> {
            &&& state.velocities@[i].finite()
            &&& (Binary64 { bits: 0 }).lt(state.specific_internal_energy@[i]) && state.specific_internal_energy@[i].finite()
        },
        ({
            &&& !(state.velocities@[i].finite())
        }) ==> (fluid_faults(state))(i) == Some(
            HydroError::InvalidParticle { index: i as usize, field: "velocity", value: state.velocities@[i] },
        ),
        ({
            &&& state.velocities@[i].finite()
            &&& !((Binary64 { bits: 0 }).lt(state.specific_internal_energy@[i]) && state.specific_internal_energy@[i].finite())
        }) ==> (fluid_faults(state))(i) == Some(
            HydroError::InvalidParticle { index: i as usize, field: "specific_internal_energy", value: state.specific_internal_energy@[i] },
        ),
{
}

/// A particle can evolve exactly where its velocity is finite and its energy is positive.
pub proof fn law_evolving_particles(
    state: MfmState1d<'_>,
    i: int,
)
    ensures
        (evolving_faults(state))(i) is None <==> {
            &&& state.velocities@[i].finite() && (Binary64 { bits: 0 }).lt(state.specific_internal_energy@[i]) && state.specific_internal_energy@[i].finite()
        },
        ({
            &&& !(state.velocities@[i].finite() && (Binary64 { bits: 0 }).lt(state.specific_internal_energy@[i]) && state.specific_internal_energy@[i].finite())
        }) ==> (evolving_faults(state))(i) == Some(
            HydroError::InvalidParticle { index: i as usize, field: "evolving_primitive", value: state.specific_internal_energy@[i] },
        ),
{
}

/// Columns are fit exactly where they have one length, the box has a size, and the geometry of
/// every particle is fit.
pub proof fn law_columns(
    positions: Seq<Binary64>,
    masses: Seq<Binary64>,
    smoothing_lengths: Seq<Binary64>,
    box_size: Binary64,
    boundary: BoundaryMode1d,
)
    ensures
        columns_fault(positions, masses, smoothing_lengths, box_size, boundary) is None <==> {
            &&& masses.len() == positions.len()
            &&& smoothing_lengths.len() == positions.len()
            &&& (Binary64 { bits: 0 }).lt(box_size) && box_size.finite()
            &&& forall|i: int|
                0 <= i < positions.len() ==> (#[trigger] (geometry_faults(
                    positions,
                    masses,
                    smoothing_lengths,
                    box_size,
                    boundary,
                ))(i)) is None
        },
        ({
            &&& !(masses.len() == positions.len())
        }) ==> columns_fault(positions, masses, smoothing_lengths, box_size, boundary) == Some(
            HydroError::MismatchedLength { field: "masses", expected: positions.len() as usize, actual: masses.len() as usize },
        ),
        ({
            &&& masses.len() == positions.len()
            &&& !(smoothing_lengths.len() == positions.len())
        }) ==> columns_fault(positions, masses, smoothing_lengths, box_size, boundary) == Some(
            HydroError::MismatchedLength { field: "smoothing_lengths", expected: positions.len() as usize, actual: smoothing_lengths.len() as usize },
        ),
        ({
            &&& masses.len() == positions.len()
            &&& smoothing_lengths.len() == positions.len()
            &&& !((Binary64 { bits: 0 }).lt(box_size) && box_size.finite())
        }) ==> columns_fault(positions, masses, smoothing_lengths, box_size, boundary) == Some(
            HydroError::InvalidBoxSize(box_size),
        ),
{
    law_first_fault_is_the_earliest(
        geometry_faults(positions, masses, smoothing_lengths, box_size, boundary),
        positions.len() as int,
    );
}

/// The columns of a state are fit exactly where they have one length; the first that does not is
/// reported.
pub proof fn law_state_lengths(
    state: MfmState1d<'_>,
)
    ensures
        state_lengths_fault(state) is None <==> {
            &&& state.masses@.len() == state.positions@.len()
            &&& state.velocities@.len() == state.positions@.len()
            &&& state.specific_internal_energy@.len() == state.positions@.len()
            &&& state.smoothing_lengths@.len() == state.positions@.len()
        },
        ({
            &&& !(state.masses@.len() == state.positions@.len())
        }) ==> state_lengths_fault(state) == Some(
            HydroError::MismatchedLength { field: "masses", expected: state.positions@.len() as usize, actual: state.masses@.len() as usize },
        ),
        ({
            &&& state.masses@.len() == state.positions@.len()
            &&& !(state.velocities@.len() == state.positions@.len())
        }) ==> state_lengths_fault(state) == Some(
            HydroError::MismatchedLength { field: "velocities", expected: state.positions@.len() as usize, actual: state.velocities@.len() as usize },
        ),
        ({
            &&& state.masses@.len() == state.positions@.len()
            &&& state.velocities@.len() == state.positions@.len()
            &&& !(state.specific_internal_energy@.len() == state.positions@.len())
        }) ==> state_lengths_fault(state) == Some(
            HydroError::MismatchedLength { field: "specific_internal_energy", expected: state.positions@.len() as usize, actual: state.specific_internal_energy@.len() as usize },
        ),
        ({
            &&& state.masses@.len() == state.positions@.len()
            &&& state.velocities@.len() == state.positions@.len()
            &&& state.specific_internal_energy@.len() == state.positions@.len()
            &&& !(state.smoothing_lengths@.len() == state.positions@.len())
        }) ==> state_lengths_fault(state) == Some(
            HydroError::MismatchedLength { field: "smoothing_lengths", expected: state.positions@.len() as usize, actual: state.smoothing_lengths@.len() as usize },
        ),
{
}

/// Spatial rates can be evaluated exactly where all columns have one length, box and adiabatic index
/// are usable, and geometry and fluid of every particle are fit.
pub proof fn law_spatial_states(state: MfmState1d<'_>, boundary: BoundaryMode1d)
    ensures
        spatial_state_fault(state, boundary) is None <==> {
            &&& state.masses@.len() == state.positions@.len()
            &&& state.velocities@.len() == state.positions@.len()
            &&& state.specific_internal_energy@.len() == state.positions@.len()
            &&& state.smoothing_lengths@.len() == state.positions@.len()
            &&& state.box_size.positive()
            &&& (Binary64 { bits: ONE_BITS }).lt(state.gamma) && state.gamma.finite()
            &&& forall|i: int|
                0 <= i < state.positions@.len() ==> (#[trigger] (geometry_faults(
                    state.positions@,
                    state.masses@,
                    state.smoothing_lengths@,
                    state.box_size,
                    boundary,
                ))(i)) is None
            &&& forall|i: int|
                0 <= i < state.positions@.len() ==> (#[trigger] (fluid_faults(state))(i)) is None
        },
{
    law_first_fault_is_the_earliest(
        geometry_faults(
            state.positions@,
            state.masses@,
            state.smoothing_lengths@,
            state.box_size,
            boundary,
        ),
        state.positions@.len() as int,
    );
    law_first_fault_is_the_earliest(fluid_faults(state), state.positions@.len() as int);
}

/// A state can evolve exactly where all columns have one length, box and adiabatic index
/// are usable, and geometry and fluid of every particle are fit.
pub proof fn law_evolving_states(state: MfmState1d<'_>, boundary: BoundaryMode1d)
    ensures
        evolving_state_fault(state, boundary) is None <==> {
            &&& state.masses@.len() == state.positions@.len()
            &&& state.velocities@.len() == state.positions@.len()
            &&& state.specific_internal_energy@.len() == state.positions@.len()
            &&& state.smoothing_lengths@.len() == state.positions@.len()
            &&& state.box_size.positive()
            &&& (Binary64 { bits: ONE_BITS }).lt(state.gamma) && state.gamma.finite()
            &&& forall|i: int|
                0 <= i < state.positions@.len() ==> (#[trigger] (geometry_faults(
                    state.positions@,
                    state.masses@,
                    state.smoothing_lengths@,
                    state.box_size,
                    boundary,
                ))(i)) is None
            &&& forall|i: int|
                0 <= i < state.positions@.len() ==> (#[trigger] (evolving_faults(state))(i)) is None
        },
{
    law_first_fault_is_the_earliest(
        geometry_faults(
            state.positions@,
            state.masses@,
            state.smoothing_lengths@,
            state.box_size,
            boundary,
        ),
        state.positions@.len() as int,
    );
    law_first_fault_is_the_earliest(evolving_faults(state), state.positions@.len() as int);
}

/// A column of rates is fit exactly where all of it is finite, and the first number that is
/// not is reported.
pub proof fn law_rate_columns(column: Seq<Binary64>)
    ensures
        rate_column_fault(column) is None <==> forall|i: int|
            0 <= i < column.len() ==> (#[trigger] column[i]).finite(),
        rate_column_fault(column) matches Some(error) ==> exists|i: int|
            0 <= i < column.len() && !(#[trigger] column[i]).finite() && error == (
            HydroError::NonFiniteRiemannResult { field: "input_rate", value: column[i] }),
{
    let faults = rate_faults(column);
    law_first_fault_is_the_earliest(faults, column.len() as int);
    if rate_column_fault(column) is None {
        assert forall|i: int| 0 <= i < column.len() implies (#[trigger] column[i]).finite() by {
            assert(faults(i) is None);
        }
    } else {
        let error = rate_column_fault(column)->0;
        let i = choose|i: int|
            0 <= i < column.len() && #[trigger] faults(i) == Some(error) && forall|k: int|
                0 <= k < i ==> (#[trigger] faults(k)) is None;
        assert(!column[i].finite());
    }
}

/// Rates are fit in length exactly where there is one of each kind per particle; the first
/// column for which that does not hold is reported.
pub proof fn law_rate_lengths(
    rates: RateColumns1d<'_>,
    expected: int,
)
    ensures
        rate_lengths_fault(rates, expected) is None <==> {
            &&& rates.momentum@.len() == expected
            &&& rates.total_energy@.len() == expected
            &&& rates.acceleration@.len() == expected
            &&& rates.specific_internal_energy@.len() == expected
            &&& rates.maximum_signal_speed@.len() == expected
            &&& rates.particle_divergence@.len() == expected
        },
        ({
            &&& !(rates.momentum@.len() == expected)
        }) ==> rate_lengths_fault(rates, expected) == Some(
            HydroError::MismatchedLength { field: "momentum_rate", expected: expected as usize, actual: rates.momentum@.len() as usize },
        ),
        ({
            &&& rates.momentum@.len() == expected
            &&& !(rates.total_energy@.len() == expected)
        }) ==> rate_lengths_fault(rates, expected) == Some(
            HydroError::MismatchedLength { field: "total_energy_rate", expected: expected as usize, actual: rates.total_energy@.len() as usize },
        ),
        ({
            &&& rates.momentum@.len() == expected
            &&& rates.total_energy@.len() == expected
            &&& !(rates.acceleration@.len() == expected)
        }) ==> rate_lengths_fault(rates, expected) == Some(
            HydroError::MismatchedLength { field: "acceleration", expected: expected as usize, actual: rates.acceleration@.len() as usize },
        ),
        ({
            &&& rates.momentum@.len() == expected
            &&& rates.total_energy@.len() == expected
            &&& rates.acceleration@.len() == expected
            &&& !(rates.specific_internal_energy@.len() == expected)
        }) ==> rate_lengths_fault(rates, expected) == Some(
            HydroError::MismatchedLength { field: "specific_internal_energy_rate", expected: expected as usize, actual: rates.specific_internal_energy@.len() as usize },
        ),
        ({
            &&& rates.momentum@.len() == expected
            &&& rates.total_energy@.len() == expected
            &&& rates.acceleration@.len() == expected
            &&& rates.specific_internal_energy@.len() == expected
            &&& !(rates.maximum_signal_speed@.len() == expected)
        }) ==> rate_lengths_fault(rates, expected) == Some(
            HydroError::MismatchedLength { field: "maximum_signal_speed", expected: expected as usize, actual: rates.maximum_signal_speed@.len() as usize },
        ),
        ({
            &&& rates.momentum@.len() == expected
            &&& rates.total_energy@.len() == expected
            &&& rates.acceleration@.len() == expected
            &&& rates.specific_internal_energy@.len() == expected
            &&& rates.maximum_signal_speed@.len() == expected
            &&& !(rates.particle_divergence@.len() == expected)
        }) ==> rate_lengths_fault(rates, expected) == Some(
            HydroError::MismatchedLength { field: "particle_divergence", expected: expected as usize, actual: rates.particle_divergence@.len() as usize },
        ),
{
}

/// Rates are fit exactly where there is one of each kind per particle and all are finite.
pub proof fn law_rates(rates: RateColumns1d<'_>, expected: int)
    ensures
        rates_fault(rates, expected) is None <==> {
            &&& rates.momentum@.len() == expected
            &&& forall|i: int|
                0 <= i < rates.momentum@.len() ==> (#[trigger] rates.momentum@[i]).finite()
            &&& rates.total_energy@.len() == expected
            &&& forall|i: int|
                0 <= i < rates.total_energy@.len() ==> (#[trigger] rates.total_energy@[i]).finite()
            &&& rates.acceleration@.len() == expected
            &&& forall|i: int|
                0 <= i < rates.acceleration@.len() ==> (#[trigger] rates.acceleration@[i]).finite()
            &&& rates.specific_internal_energy@.len() == expected
            &&& forall|i: int|
                0 <= i < rates.specific_internal_energy@.len() ==> (#[trigger] rates.specific_internal_energy@[i]).finite()
            &&& rates.maximum_signal_speed@.len() == expected
            &&& forall|i: int|
                0 <= i < rates.maximum_signal_speed@.len() ==> (#[trigger] rates.maximum_signal_speed@[i]).finite()
            &&& rates.particle_divergence@.len() == expected
            &&& forall|i: int|
                0 <= i < rates.particle_divergence@.len() ==> (#[trigger] rates.particle_divergence@[i]).finite()
        },
{
    law_rate_columns(rates.momentum@);
    law_rate_columns(rates.total_energy@);
    law_rate_columns(rates.acceleration@);
    law_rate_columns(rates.specific_internal_energy@);
    law_rate_columns(rates.maximum_signal_speed@);
    law_rate_columns(rates.particle_divergence@);
}

/// The values of a gradient are fit exactly where there is one per particle, all are finite,
/// and positive where that is asked, and the tolerance is not negative.
pub proof fn law_gradient_inputs(
    values: Seq<Binary64>,
    count: int,
    shoot_tolerance: Binary64,
    positive: bool,
)
    ensures
        gradient_inputs_fault(values, count, shoot_tolerance, positive) is None <==> {
            &&& values.len() == count
            &&& forall|i: int|
                0 <= i < values.len() ==> (#[trigger] values[i]).finite() && (positive ==> (
                Binary64 { bits: 0 }).lt(values[i]))
            &&& (Binary64 { bits: 0 }).le(shoot_tolerance) && shoot_tolerance.finite()
        },
{
    let faults = value_faults(values, positive);
    law_first_fault_is_the_earliest(faults, count);
    if values.len() == count && first_fault(faults, count) is None {
        assert forall|i: int| 0 <= i < values.len() implies (#[trigger] values[i]).finite() && (
        positive ==> (Binary64 { bits: 0 }).lt(values[i])) by {
            assert(faults(i) is None);
        }
    }
}

/// Velocities are fit exactly where all are finite.
pub proof fn law_velocities(velocities: Seq<Binary64>, count: int)
    requires
        0 <= count <= velocities.len(),
    ensures
        first_fault(velocity_faults(velocities), count) is None <==> forall|i: int|
            0 <= i < count ==> (#[trigger] velocities[i]).finite(),
{
    let faults = velocity_faults(velocities);
    law_first_fault_is_the_earliest(faults, count);
    if first_fault(faults, count) is None {
        assert forall|i: int| 0 <= i < count implies (#[trigger] velocities[i]).finite() by {
            assert(faults(i) is None);
        }
    }
}

/// A timestep can be selected exactly where the maximum, the accuracy and the Courant factor
/// are usable, the gas can be compressed, the columns have one length and the fluid is fit.
pub proof fn law_timestep_inputs(
    state: MfmState1d<'_>,
    rates: RateColumns1d<'_>,
    maximum_timestep: Binary64,
    courant_factor: Binary64,
    integration_accuracy: Binary64,
)
    ensures
        timestep_inputs_fault(
            state,
            rates,
            maximum_timestep,
            courant_factor,
            integration_accuracy,
        ) is None <==> {
            &&& (Binary64 { bits: 0 }).lt(maximum_timestep) && maximum_timestep.finite()
            &&& (Binary64 { bits: 0 }).lt(integration_accuracy) && integration_accuracy.finite()
            &&& (Binary64 { bits: 0 }).lt(courant_factor) && courant_factor.le(
                Binary64 { bits: HALF_BITS },
            )
            &&& (Binary64 { bits: ONE_BITS }).lt(state.gamma) && state.gamma.finite()
            &&& state.masses@.len() == state.positions@.len()
            &&& state.velocities@.len() == state.positions@.len()
            &&& state.specific_internal_energy@.len() == state.positions@.len()
            &&& state.smoothing_lengths@.len() == state.positions@.len()
            &&& rates.maximum_signal_speed@.len() == state.positions@.len()
            &&& rates.acceleration@.len() == state.positions@.len()
            &&& rates.particle_divergence@.len() == state.positions@.len()
            &&& forall|i: int|
                0 <= i < state.positions@.len() ==> (#[trigger] (fluid_faults(state))(i)) is None
        },
{
    law_first_fault_is_the_earliest(fluid_faults(state), state.positions@.len() as int);
}

/// A state that cannot be used is refused for its lengths, then its columns, then the adiabatic
/// index, and then its first unfit particle.
pub proof fn law_spatial_states_are_refused_in_order(
    state: MfmState1d<'_>,
    boundary: BoundaryMode1d,
)
    ensures
        ({
            let fault = spatial_state_fault(state, boundary);
            let lengths = state_lengths_fault(state);
            let columns = columns_fault(
                state.positions@,
                state.masses@,
                state.smoothing_lengths@,
                state.box_size,
                boundary,
            );
            let compressible = (Binary64 { bits: ONE_BITS }).lt(state.gamma)
                && state.gamma.finite();
            &&& lengths is Some ==> fault == lengths
            &&& lengths is None && columns is Some ==> fault == columns
            &&& lengths is None && columns is None && !compressible ==> fault == Some(
                HydroError::InvalidRiemannParameter { field: "gamma", value: state.gamma },
            )
            &&& lengths is None && columns is None && compressible ==> fault == first_fault(
                fluid_faults(state),
                state.positions@.len() as int,
            )
        }),
{
}

/// A state that cannot evolve is refused for its lengths, then its columns, then its first unfit
/// particle, and then the adiabatic index.
pub proof fn law_evolving_states_are_refused_in_order(
    state: MfmState1d<'_>,
    boundary: BoundaryMode1d,
)
    ensures
        ({
            let fault = evolving_state_fault(state, boundary);
            let lengths = state_lengths_fault(state);
            let columns = columns_fault(
                state.positions@,
                state.masses@,
                state.smoothing_lengths@,
                state.box_size,
                boundary,
            );
            let particles = first_fault(evolving_faults(state), state.positions@.len() as int);
            let compressible = (Binary64 { bits: ONE_BITS }).lt(state.gamma)
                && state.gamma.finite();
            &&& lengths is Some ==> fault == lengths
            &&& lengths is None && columns is Some ==> fault == columns
            &&& lengths is None && columns is None && particles is Some ==> fault == particles
            &&& lengths is None && columns is None && particles is None && !compressible ==> fault
                == Some(
                HydroError::InvalidRiemannParameter { field: "gamma", value: state.gamma },
            )
        }),
{
}

/// The parameters of a timestep are refused one after the other: the maximum, the accuracy, the
/// Courant factor, the adiabatic index; then the lengths of the state and of the rates, and then
/// the first unfit particle.
pub proof fn law_timestep_inputs_are_refused_in_order(
    state: MfmState1d<'_>,
    rates: RateColumns1d<'_>,
    maximum_timestep: Binary64,
    courant_factor: Binary64,
    integration_accuracy: Binary64,
)
    ensures
        ({
            let zero = Binary64 { bits: 0 };
            let fault = timestep_inputs_fault(
                state,
                rates,
                maximum_timestep,
                courant_factor,
                integration_accuracy,
            );
            let bounded = zero.lt(maximum_timestep) && maximum_timestep.finite();
            let accurate = zero.lt(integration_accuracy) && integration_accuracy.finite();
            let stable = zero.lt(courant_factor) && courant_factor.le(Binary64 { bits: HALF_BITS });
            let compressible = (Binary64 { bits: ONE_BITS }).lt(state.gamma)
                && state.gamma.finite();
            let usable = bounded && accurate && stable && compressible;
            let lengths = state_lengths_fault(state);
            let count = state.positions@.len();
            let speeds = rates.maximum_signal_speed@.len();
            let accelerations = rates.acceleration@.len();
            let divergences = rates.particle_divergence@.len();
            &&& !bounded ==> fault == Some(
                HydroError::InvalidRiemannParameter {
                    field: "maximum_timestep",
                    value: maximum_timestep,
                },
            )
            &&& bounded && !accurate ==> fault == Some(
                HydroError::InvalidRiemannParameter {
                    field: "integration_accuracy",
                    value: integration_accuracy,
                },
            )
            &&& bounded && accurate && !stable ==> fault == Some(
                HydroError::InvalidRiemannParameter {
                    field: "courant_factor",
                    value: courant_factor,
                },
            )
            &&& bounded && accurate && stable && !compressible ==> fault == Some(
                HydroError::InvalidRiemannParameter { field: "gamma", value: state.gamma },
            )
            &&& usable && lengths is Some ==> fault == lengths
            &&& usable && lengths is None && speeds != count ==> fault == Some(
                HydroError::MismatchedLength {
                    field: "maximum_signal_speed",
                    expected: count as usize,
                    actual: speeds as usize,
                },
            )
            &&& usable && lengths is None && speeds == count && accelerations != count ==> fault
                == Some(
                HydroError::MismatchedLength {
                    field: "acceleration",
                    expected: count as usize,
                    actual: accelerations as usize,
                },
            )
            &&& usable && lengths is None && speeds == count && accelerations == count
                && divergences != count ==> fault == Some(
                HydroError::MismatchedLength {
                    field: "particle_divergence",
                    expected: count as usize,
                    actual: divergences as usize,
                },
            )
            &&& usable && lengths is None && speeds == count && accelerations == count
                && divergences == count ==> fault == first_fault(fluid_faults(state), count as int)
        }),
{
}

/// The values of a gradient are refused for their number, then for the first that is unfit, and
/// then for the tolerance; velocities for the first that is not finite.
pub proof fn law_gradient_inputs_are_refused_in_order(
    values: Seq<Binary64>,
    count: int,
    shoot_tolerance: Binary64,
    positive: bool,
    i: int,
)
    requires
        0 <= i < values.len(),
        values.len() <= usize::MAX,
    ensures
        ({
            let fault = gradient_inputs_fault(values, count, shoot_tolerance, positive);
            let unfit = first_fault(value_faults(values, positive), count);
            let fit = values[i].finite() && (positive ==> (Binary64 { bits: 0 }).lt(values[i]));
            &&& values.len() != count ==> fault == Some(
                HydroError::MismatchedLength {
                    field: "gradient_values",
                    expected: count as usize,
                    actual: values.len() as usize,
                },
            )
            &&& values.len() == count && unfit is Some ==> fault == unfit
            &&& values.len() == count && unfit is None && !shoot_tolerance.nonnegative() ==> fault
                == Some(HydroError::InvalidGradientTolerance(shoot_tolerance))
            &&& value_faults(values, positive)(i) is None <==> fit
            &&& !fit ==> value_faults(values, positive)(i) == Some(
                HydroError::InvalidParticle {
                    index: i as usize,
                    field: "gradient_value",
                    value: values[i],
                },
            )
            &&& velocity_faults(values)(i) is None <==> values[i].finite()
            &&& !values[i].finite() ==> velocity_faults(values)(i) == Some(
                HydroError::InvalidParticle {
                    index: i as usize,
                    field: "velocity",
                    value: values[i],
                },
            )
        }),
{
}

} // verus!
