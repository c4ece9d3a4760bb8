//! Decisions of the drag between gas and grains.
//!
//! The gas is interpolated to each grain, the drag of the grain is integrated over the step,
//! and the opposite momentum goes back to the gas points from which it was interpolated.

use vstd::prelude::*;

use crate::binary64::Binary64;
use crate::hydro_error::HydroError;
use crate::message::MessagePart;

verus! {

use crate::binary64::{nearest, ONE_BITS};
use crate::fault::{
    first, first_fault, law_first_fault_is_the_earliest, lemma_first_fault_stays, outcome,
};
use vstd::arithmetic::power2::{lemma2_to64, lemma2_to64_rest};

/// The number of stopping times from which a grain is taken to follow the gas.
pub const SATURATED_STOPPING_BITS: u64 = 0x4059_0000_0000_0000;

/// A gas point as grains see it.
#[derive(Clone, Copy, Debug, PartialEq, Eq, Structural)]
pub struct GrainGasPoint1d {
    pub position: Binary64,
    pub mass: Binary64,
    pub velocity: Binary64,
    pub specific_internal_energy: Binary64,
}

/// A grain.
#[derive(Clone, Copy, Debug, PartialEq, Eq, Structural)]
pub struct GrainPoint1d {
    pub position: Binary64,
    pub mass: Binary64,
    pub velocity: Binary64,
    pub smoothing_length: Binary64,
    pub radius: Binary64,
}

/// The parameters of the drag.
#[derive(Clone, Copy, Debug, PartialEq, Eq, Structural)]
pub struct EpsteinDragParameters {
    pub gamma: Binary64,
    pub grain_internal_density: Binary64,
}

/// The gas at the place of a grain.
#[derive(Clone, Copy, Debug, PartialEq, Eq, Structural)]
pub struct InterpolatedGrainGas1d {
    pub density: Binary64,
    pub velocity: Binary64,
    pub specific_internal_energy: Binary64,
    pub neighbor_count: usize,
}

/// What the drag does to a grain in a step.
#[derive(Clone, Copy, Debug, PartialEq, Eq, Structural)]
pub struct EpsteinImpulse1d {
    pub inverse_stopping_time: Binary64,
    pub dimensionless_relative_speed: Binary64,
    pub velocity_relaxation_fraction: Binary64,
    pub grain_velocity_delta: Binary64,
    pub grain_momentum_delta: Binary64,
}

/// Errors of the drag.
#[derive(Clone, Copy, Debug, PartialEq)]
pub enum GrainError {
    InvalidInput { field: &'static str, value: Binary64 },
    InvalidGasPoint { index: usize, field: &'static str, value: Binary64 },
    NonFiniteResult { field: &'static str, value: Binary64 },
    CoincidentGasNeighbor { grain_index: usize, gas_index: usize },
    MissingBatchResult,
    Hydro(HydroError),
}

impl GrainError {
    /// The wording of the error.
    pub open spec fn wording(self) -> Seq<MessagePart> {
        match self {
            GrainError::InvalidInput { field, value } => seq![
                MessagePart::Text("invalid grain input "),
                MessagePart::Text(field),
                MessagePart::Text("="),
                MessagePart::Value(value),
            ],
            GrainError::InvalidGasPoint { index, field, value } => seq![
                MessagePart::Text("gas point "),
                MessagePart::Count(index),
                MessagePart::Text(" has invalid "),
                MessagePart::Text(field),
                MessagePart::Text("="),
                MessagePart::Value(value),
            ],
            GrainError::NonFiniteResult { field, value } => seq![
                MessagePart::Text("grain operator produced non-finite "),
                MessagePart::Text(field),
                MessagePart::Text("="),
                MessagePart::Value(value),
            ],
            GrainError::CoincidentGasNeighbor { grain_index, gas_index } => seq![
                MessagePart::Text("grain "),
                MessagePart::Count(grain_index),
                MessagePart::Text(" and gas point "),
                MessagePart::Count(gas_index),
                MessagePart::Text(
                    " are coincident; the public C stencil cannot conserve their drag impulse",
                ),
            ],
            GrainError::MissingBatchResult => seq![
                MessagePart::Text("one-grain batch returned no grain result"),
            ],
            GrainError::Hydro(source) => seq![
                MessagePart::Text("grain kernel operation failed: "),
            ] + source.wording(),
        }
    }

    /// The message of the error, part by part.
    pub fn message(&self) -> (result: Vec<MessagePart>)
        ensures
            result@ == self.wording(),
    {
        match *self {
            GrainError::InvalidInput { field, value } => vec![
                MessagePart::Text("invalid grain input "),
                MessagePart::Text(field),
                MessagePart::Text("="),
                MessagePart::Value(value),
            ],
            GrainError::InvalidGasPoint { index, field, value } => vec![
                MessagePart::Text("gas point "),
                MessagePart::Count(index),
                MessagePart::Text(" has invalid "),
                MessagePart::Text(field),
                MessagePart::Text("="),
                MessagePart::Value(value),
            ],
            GrainError::NonFiniteResult { field, value } => vec![
                MessagePart::Text("grain operator produced non-finite "),
                MessagePart::Text(field),
                MessagePart::Text("="),
                MessagePart::Value(value),
            ],
            GrainError::CoincidentGasNeighbor { grain_index, gas_index } => vec![
                MessagePart::Text("grain "),
                MessagePart::Count(grain_index),
                MessagePart::Text(" and gas point "),
                MessagePart::Count(gas_index),
                MessagePart::Text(
                    " are coincident; the public C stencil cannot conserve their drag impulse",
                ),
            ],
            GrainError::MissingBatchResult => vec![
                MessagePart::Text("one-grain batch returned no grain result"),
            ],
            GrainError::Hydro(source) => {
                let mut parts: Vec<MessagePart> = vec![
                    MessagePart::Text("grain kernel operation failed: "),
                ];
                let mut rest: Vec<MessagePart> = source.message();
                parts.append(&mut rest);
                parts
            },
        }
    }
}

impl From<HydroError> for GrainError {
    fn from(error: HydroError) -> (result: Self) {
        GrainError::Hydro(error)
    }
}

impl vstd::std_specs::convert::FromSpecImpl<HydroError> for GrainError {
    open spec fn obeys_from_spec() -> bool {
        true
    }

    open spec fn from_spec(error: HydroError) -> Self {
        GrainError::Hydro(error)
    }
}

/// An input that does not satisfy its condition.
pub open spec fn input_fault(field: &'static str, value: Binary64, valid: bool) -> Option<
    GrainError,
> {
    if valid {
        None
    } else {
        Some(GrainError::InvalidInput { field, value })
    }
}

fn check_input(field: &'static str, value: Binary64, valid: bool) -> (result: Result<(), GrainError>)
    ensures
        result == outcome(input_fault(field, value, valid)),
{
    if valid {
        Ok(())
    } else {
        Err(GrainError::InvalidInput { field, value })
    }
}

/// Whether a position lies in the box.
pub open spec fn in_box(value: Binary64, box_size: Binary64) -> bool {
    value.nonnegative() && !box_size.le(value)
}

/// Check a position.
pub fn validate_position(field: &'static str, value: Binary64, box_size: Binary64) -> (result: Result<
    (),
    GrainError,
>)
    ensures
        result == outcome(input_fault(field, value, in_box(value, box_size))),
        !box_size.nan() ==> (result is Ok <==> (Binary64 { bits: 0 }).le(value) && value.lt(box_size)
            && value.finite()),
{
    check_input(field, value, value.is_nonnegative() && !box_size.at_most(value))
}

/// Check a value that must be finite.
pub fn validate_finite(field: &'static str, value: Binary64) -> (result: Result<(), GrainError>)
    ensures
        result == outcome(input_fault(field, value, value.finite())),
        result is Ok <==> value.finite(),
{
    check_input(field, value, value.is_finite())
}

/// Check a value that must be above zero.
pub fn validate_positive(field: &'static str, value: Binary64) -> (result: Result<(), GrainError>)
    ensures
        result == outcome(input_fault(field, value, value.positive())),
        result is Ok <==> (Binary64 { bits: 0 }).lt(value) && value.finite(),
{
    check_input(field, value, value.is_positive())
}

/// Check a value that must not be below zero.
pub fn validate_nonnegative(field: &'static str, value: Binary64) -> (result: Result<(), GrainError>)
    ensures
        result == outcome(input_fault(field, value, value.nonnegative())),
        result is Ok <==> (Binary64 { bits: 0 }).le(value) && value.finite(),
{
    check_input(field, value, value.is_nonnegative())
}

/// A gas value that does not satisfy its condition.
pub open spec fn gas_value_fault(
    index: usize,
    field: &'static str,
    value: Binary64,
    valid: bool,
) -> Option<GrainError> {
    if valid {
        None
    } else {
        Some(GrainError::InvalidGasPoint { index, field, value })
    }
}

/// The fault of a gas point: position, mass, velocity, then internal energy.
pub open spec fn gas_point_fault(index: usize, point: GrainGasPoint1d, box_size: Binary64) -> Option<
    GrainError,
> {
    first(
        gas_value_fault(
            index,
            "position",
            point.position,
            point.position.nonnegative() && point.position.lt(box_size),
        ),
        first(
            gas_value_fault(index, "mass", point.mass, point.mass.positive()),
            first(
                gas_value_fault(index, "velocity", point.velocity, point.velocity.finite()),
                gas_value_fault(
                    index,
                    "specific_internal_energy",
                    point.specific_internal_energy,
                    point.specific_internal_energy.positive(),
                ),
            ),
        ),
    )
}

/// The faults of a list of gas points.
pub open spec fn gas_faults(gas: Seq<GrainGasPoint1d>, box_size: Binary64) -> spec_fn(int) -> Option<
    GrainError,
> {
    |i: int| gas_point_fault(i as usize, gas[i], box_size)
}

fn check_gas_point(index: usize, point: GrainGasPoint1d, box_size: Binary64) -> (result: Result<
    (),
    GrainError,
>)
    ensures
        result == outcome(gas_point_fault(index, point, box_size)),
{
    if !(point.position.is_nonnegative() && point.position.less(box_size)) {
        return Err(
            GrainError::InvalidGasPoint { index, field: "position", value: point.position },
        );
    }
    if !point.mass.is_positive() {
        return Err(GrainError::InvalidGasPoint { index, field: "mass", value: point.mass });
    }
    if !point.velocity.is_finite() {
        return Err(
            GrainError::InvalidGasPoint { index, field: "velocity", value: point.velocity },
        );
    }
    if !point.specific_internal_energy.is_positive() {
        return Err(
            GrainError::InvalidGasPoint {
                index,
                field: "specific_internal_energy",
                value: point.specific_internal_energy,
            },
        );
    }
    Ok(())
}

/// Check the gas points.
pub fn validate_gas(gas: &[GrainGasPoint1d], box_size: Binary64) -> (result: Result<(), GrainError>)
    ensures
        result == outcome(first_fault(gas_faults(gas@, box_size), gas@.len() as int)),
{
    let ghost faults = gas_faults(gas@, box_size);
    let mut index: usize = 0;
    while index < gas.len()
        invariant
            index <= gas@.len(),
            faults == gas_faults(gas@, box_size),
            first_fault(faults, index as int) is None,
        decreases gas@.len() - index,
    {
        if let Err(error) = check_gas_point(index, gas[index], box_size) {
            assert(faults(index as int) == Some(error));
            proof {
                lemma_first_fault_stays(faults, index + 1, gas@.len() as int);
            }
            return Err(error);
        }
        assert(faults(index as int) is None);
        index = index + 1;
    }
    Ok(())
}

/// The fault of an interpolation: grain position, support, box, then the gas.
pub open spec fn interpolation_fault(
    grain_position: Binary64,
    smoothing_length: Binary64,
    gas: Seq<GrainGasPoint1d>,
    box_size: Binary64,
) -> Option<GrainError> {
    first(
        input_fault("grain_position", grain_position, in_box(grain_position, box_size)),
        first(
            input_fault("smoothing_length", smoothing_length, smoothing_length.positive()),
            first(
                input_fault("box_size", box_size, box_size.positive()),
                first_fault(gas_faults(gas, box_size), gas.len() as int),
            ),
        ),
    )
}

/// Check the inputs of an interpolation.
pub fn validate_interpolation(
    grain_position: Binary64,
    smoothing_length: Binary64,
    gas: &[GrainGasPoint1d],
    box_size: Binary64,
) -> (result: Result<(), GrainError>)
    ensures
        result == outcome(
            interpolation_fault(grain_position, smoothing_length, gas@, box_size),
        ),
{
    if let Err(error) = validate_position("grain_position", grain_position, box_size) {
        return Err(error);
    }
    if let Err(error) = validate_positive("smoothing_length", smoothing_length) {
        return Err(error);
    }
    if let Err(error) = validate_positive("box_size", box_size) {
        return Err(error);
    }
    validate_gas(gas, box_size)
}

/// A gas point inside the support of a grain.
#[derive(Clone, Copy, Debug, PartialEq, Eq, Structural)]
pub struct StencilPoint {
    pub gas: usize,
    /// Whether the point lies apart from the grain. One at the place of the grain counts
    /// for the density alone.
    pub apart: bool,
}

/// Whether a gas point at a distance lies inside a support.
pub open spec fn in_support(radius: Binary64, smoothing_length: Binary64) -> bool {
    !smoothing_length.le(radius)
}

/// The gas points, among the first `count`, inside the support of a grain.
pub open spec fn stencil(radii: Seq<Binary64>, smoothing_length: Binary64, count: int) -> Seq<
    StencilPoint,
>
    decreases count,
{
    if count <= 0 {
        Seq::empty()
    } else {
        let before = stencil(radii, smoothing_length, count - 1);
        if in_support(radii[count - 1], smoothing_length) {
            before.push(
                StencilPoint {
                    gas: (count - 1) as usize,
                    apart: (Binary64 { bits: 0 }).lt(radii[count - 1]),
                },
            )
        } else {
            before
        }
    }
}

/// Find the gas points inside the support of a grain, in order.
pub fn grain_stencil(radii: &[Binary64], smoothing_length: Binary64) -> (result: Vec<StencilPoint>)
    ensures
        result@ == stencil(radii@, smoothing_length, radii@.len() as int),
{
    let zero: Binary64 = Binary64 { bits: 0 };
    let mut points: Vec<StencilPoint> = Vec::new();
    let mut index: usize = 0;
    while index < radii.len()
        invariant
            index <= radii@.len(),
            zero == (Binary64 { bits: 0 }),
            points@ == stencil(radii@, smoothing_length, index as int),
        decreases radii@.len() - index,
    {
        let radius: Binary64 = radii[index];
        if !smoothing_length.at_most(radius) {
            points.push(StencilPoint { gas: index, apart: zero.less(radius) });
        }
        index = index + 1;
    }
    points
}

/// The interpolated gas: nothing where no gas is near.
pub open spec fn interpolated(
    density: Binary64,
    velocity: Binary64,
    specific_internal_energy: Binary64,
    neighbor_count: usize,
) -> InterpolatedGrainGas1d {
    if (Binary64 { bits: 0 }).lt(density) {
        InterpolatedGrainGas1d { density, velocity, specific_internal_energy, neighbor_count }
    } else {
        InterpolatedGrainGas1d {
            density: Binary64 { bits: 0 },
            velocity: Binary64 { bits: 0 },
            specific_internal_energy: Binary64 { bits: 0 },
            neighbor_count: 0,
        }
    }
}

/// A result that is not finite.
pub open spec fn result_fault(field: &'static str, value: Binary64) -> Option<GrainError> {
    if value.finite() {
        None
    } else {
        Some(GrainError::NonFiniteResult { field, value })
    }
}

/// Check a result of the drag.
pub fn validate_result(field: &'static str, value: Binary64) -> (result: Result<(), GrainError>)
    ensures
        result == outcome(result_fault(field, value)),
        result is Ok <==> value.finite(),
{
    if value.is_finite() {
        Ok(())
    } else {
        Err(GrainError::NonFiniteResult { field, value })
    }
}

/// The fault of interpolated gas.
pub open spec fn interpolated_fault(gas: InterpolatedGrainGas1d) -> Option<GrainError> {
    first(
        result_fault("gas_density", gas.density),
        first(
            result_fault("gas_velocity", gas.velocity),
            result_fault("gas_specific_internal_energy", gas.specific_internal_energy),
        ),
    )
}

/// Finish an interpolation from the density and the weighted means.
pub fn interpolate_gas_to_grain_1d(
    density: Binary64,
    velocity: Binary64,
    specific_internal_energy: Binary64,
    neighbor_count: usize,
) -> (result: Result<InterpolatedGrainGas1d, GrainError>)
    ensures
        ({
            let gas = interpolated(density, velocity, specific_internal_energy, neighbor_count);
            result == match interpolated_fault(gas) {
                None => Ok::<InterpolatedGrainGas1d, GrainError>(gas),
                Some(error) => Err(error),
            }
        }),
{
    let zero: Binary64 = Binary64 { bits: 0 };
    let gas: InterpolatedGrainGas1d = if zero.less(density) {
        InterpolatedGrainGas1d { density, velocity, specific_internal_energy, neighbor_count }
    } else {
        InterpolatedGrainGas1d {
            density: zero,
            velocity: zero,
            specific_internal_energy: zero,
            neighbor_count: 0,
        }
    };
    if let Err(error) = validate_result("gas_density", gas.density) {
        return Err(error);
    }
    if let Err(error) = validate_result("gas_velocity", gas.velocity) {
        return Err(error);
    }
    if let Err(error) = validate_result(
        "gas_specific_internal_energy",
        gas.specific_internal_energy,
    ) {
        return Err(error);
    }
    Ok(gas)
}

/// The fault of the inputs of a drag: grain, timestep, gas, then the parameters.
pub open spec fn drag_fault(
    grain_mass: Binary64,
    grain_velocity: Binary64,
    grain_radius: Binary64,
    gas: InterpolatedGrainGas1d,
    timestep: Binary64,
    parameters: EpsteinDragParameters,
) -> Option<GrainError> {
    first(
        input_fault("grain_mass", grain_mass, grain_mass.positive()),
        first(
            input_fault("grain_velocity", grain_velocity, grain_velocity.finite()),
            first(
                input_fault("grain_radius", grain_radius, grain_radius.positive()),
                first(
                    input_fault("timestep", timestep, timestep.nonnegative()),
                    first(
                        input_fault("gas_density", gas.density, gas.density.positive()),
                        first(
                            input_fault(
                                "gas_specific_internal_energy",
                                gas.specific_internal_energy,
                                gas.specific_internal_energy.positive(),
                            ),
                            first(
                                input_fault("gas_velocity", gas.velocity, gas.velocity.finite()),
                                first(
                                    input_fault(
                                        "gamma",
                                        parameters.gamma,
                                        parameters.gamma.finite() && parameters.gamma.rank()
                                            > ONE_BITS,
                                    ),
                                    input_fault(
                                        "grain_internal_density",
                                        parameters.grain_internal_density,
                                        parameters.grain_internal_density.positive(),
                                    ),
                                ),
                            ),
                        ),
                    ),
                ),
            ),
        ),
    )
}

/// Check the inputs of a drag.
pub fn validate_drag(
    grain_mass: Binary64,
    grain_velocity: Binary64,
    grain_radius: Binary64,
    gas: InterpolatedGrainGas1d,
    timestep: Binary64,
    parameters: EpsteinDragParameters,
) -> (result: Result<(), GrainError>)
    ensures
        result == outcome(
            drag_fault(grain_mass, grain_velocity, grain_radius, gas, timestep, parameters),
        ),
{
    if let Err(error) = validate_positive("grain_mass", grain_mass) {
        return Err(error);
    }
    if let Err(error) = validate_finite("grain_velocity", grain_velocity) {
        return Err(error);
    }
    if let Err(error) = validate_positive("grain_radius", grain_radius) {
        return Err(error);
    }
    if let Err(error) = validate_nonnegative("timestep", timestep) {
        return Err(error);
    }
    if let Err(error) = validate_positive("gas_density", gas.density) {
        return Err(error);
    }
    if let Err(error) = validate_positive(
        "gas_specific_internal_energy",
        gas.specific_internal_energy,
    ) {
        return Err(error);
    }
    if let Err(error) = validate_finite("gas_velocity", gas.velocity) {
        return Err(error);
    }
    let one: Binary64 = Binary64 { bits: ONE_BITS };
    if let Err(error) = check_input(
        "gamma",
        parameters.gamma,
        parameters.gamma.is_finite() && one.less(parameters.gamma),
    ) {
        return Err(error);
    }
    validate_positive("grain_internal_density", parameters.grain_internal_density)
}

/// How the relative speed of a grain evolves over a step.
#[derive(Clone, Copy, Debug, PartialEq, Eq, Structural)]
pub enum DragRegime {
    /// There is no step or no relative motion.
    Idle,
    /// The grain comes to follow the gas.
    Saturated,
    /// The grain is faster than the gas responds.
    Fast,
    Slow,
}

/// The regime of a drag.
pub open spec fn drag_regime(
    timestep: Binary64,
    relative_speed: Binary64,
    stopping_step: Binary64,
    dimensionless_speed: Binary64,
) -> DragRegime {
    let zero = Binary64 { bits: 0 };
    if timestep.same(zero) || relative_speed.same(zero) {
        DragRegime::Idle
    } else if !stopping_step.lt(Binary64 { bits: SATURATED_STOPPING_BITS }) {
        DragRegime::Saturated
    } else if (Binary64 { bits: ONE_BITS }).le(dimensionless_speed) {
        DragRegime::Fast
    } else {
        DragRegime::Slow
    }
}

/// Choose the regime of a drag.
pub fn choose_drag_regime(
    timestep: Binary64,
    relative_speed: Binary64,
    stopping_step: Binary64,
    dimensionless_speed: Binary64,
) -> (result: DragRegime)
    ensures
        result == drag_regime(timestep, relative_speed, stopping_step, dimensionless_speed),
        result == DragRegime::Idle <==> timestep.same(Binary64 { bits: 0 }) || relative_speed.same(
            Binary64 { bits: 0 },
        ),
        stopping_step.lt(Binary64 { bits: SATURATED_STOPPING_BITS }) ==> result
            != DragRegime::Saturated,
{
    let zero: Binary64 = Binary64 { bits: 0 };
    let saturated: Binary64 = Binary64 { bits: SATURATED_STOPPING_BITS };
    let one: Binary64 = Binary64 { bits: ONE_BITS };
    if timestep.equals(zero) || relative_speed.equals(zero) {
        DragRegime::Idle
    } else if !stopping_step.less(saturated) {
        DragRegime::Saturated
    } else if one.at_most(dimensionless_speed) {
        DragRegime::Fast
    } else {
        DragRegime::Slow
    }
}

/// The impulse of a grain without drag.
pub open spec fn no_impulse() -> EpsteinImpulse1d {
    EpsteinImpulse1d {
        inverse_stopping_time: Binary64 { bits: 0 },
        dimensionless_relative_speed: Binary64 { bits: 0 },
        velocity_relaxation_fraction: Binary64 { bits: 0 },
        grain_velocity_delta: Binary64 { bits: 0 },
        grain_momentum_delta: Binary64 { bits: 0 },
    }
}

/// The impulse of a grain without drag.
pub fn zero_epstein_impulse() -> (result: EpsteinImpulse1d)
    ensures
        result == no_impulse(),
{
    let zero: Binary64 = Binary64 { bits: 0 };
    EpsteinImpulse1d {
        inverse_stopping_time: zero,
        dimensionless_relative_speed: zero,
        velocity_relaxation_fraction: zero,
        grain_velocity_delta: zero,
        grain_momentum_delta: zero,
    }
}

/// The fault of an impulse, with the sound speed that it was computed from.
pub open spec fn impulse_fault(sound_speed: Binary64, impulse: EpsteinImpulse1d) -> Option<
    GrainError,
> {
    first(
        result_fault("sound_speed", sound_speed),
        first(
            result_fault("dimensionless_relative_speed", impulse.dimensionless_relative_speed),
            first(
                result_fault("inverse_stopping_time", impulse.inverse_stopping_time),
                first(
                    result_fault(
                        "velocity_relaxation_fraction",
                        impulse.velocity_relaxation_fraction,
                    ),
                    first(
                        result_fault("grain_velocity_delta", impulse.grain_velocity_delta),
                        result_fault("grain_momentum_delta", impulse.grain_momentum_delta),
                    ),
                ),
            ),
        ),
    )
}

/// Check an impulse.
pub fn validate_impulse(sound_speed: Binary64, impulse: EpsteinImpulse1d) -> (result: Result<
    (),
    GrainError,
>)
    ensures
        result == outcome(impulse_fault(sound_speed, impulse)),
{
    if let Err(error) = validate_result("sound_speed", sound_speed) {
        return Err(error);
    }
    if let Err(error) = validate_result(
        "dimensionless_relative_speed",
        impulse.dimensionless_relative_speed,
    ) {
        return Err(error);
    }
    if let Err(error) = validate_result("inverse_stopping_time", impulse.inverse_stopping_time) {
        return Err(error);
    }
    if let Err(error) = validate_result(
        "velocity_relaxation_fraction",
        impulse.velocity_relaxation_fraction,
    ) {
        return Err(error);
    }
    if let Err(error) = validate_result("grain_velocity_delta", impulse.grain_velocity_delta) {
        return Err(error);
    }
    validate_result("grain_momentum_delta", impulse.grain_momentum_delta)
}

/// Check the inputs of a backreaction: grain position, support, gas density, momentum, then
/// the gas.
pub fn validate_backreaction(
    grain_position: Binary64,
    smoothing_length: Binary64,
    gas_density: Binary64,
    grain_momentum_delta: Binary64,
    gas: &[GrainGasPoint1d],
    box_size: Binary64,
) -> (result: Result<(), GrainError>)
    ensures
        result == outcome(
            first(
                input_fault("grain_position", grain_position, in_box(grain_position, box_size)),
                first(
                    input_fault("smoothing_length", smoothing_length, smoothing_length.positive()),
                    first(
                        input_fault("gas_density", gas_density, gas_density.positive()),
                        first(
                            input_fault(
                                "grain_momentum_delta",
                                grain_momentum_delta,
                                grain_momentum_delta.finite(),
                            ),
                            first_fault(gas_faults(gas@, box_size), gas@.len() as int),
                        ),
                    ),
                ),
            ),
        ),
        box_size.positive() ==> (result is Ok <==> {
            &&& (Binary64 { bits: 0 }).le(grain_position) && grain_position.lt(box_size)
            &&& smoothing_length.positive() && gas_density.positive()
            &&& grain_momentum_delta.finite()
            &&& first_fault(gas_faults(gas@, box_size), gas@.len() as int) is None
        }),
{
    if let Err(error) = validate_position("grain_position", grain_position, box_size) {
        return Err(error);
    }
    if let Err(error) = validate_positive("smoothing_length", smoothing_length) {
        return Err(error);
    }
    if let Err(error) = validate_positive("gas_density", gas_density) {
        return Err(error);
    }
    if let Err(error) = validate_finite("grain_momentum_delta", grain_momentum_delta) {
        return Err(error);
    }
    validate_gas(gas, box_size)
}

/// Whether a gas point at a distance takes part of the backreaction.
pub open spec fn receives(radius: Binary64, smoothing_length: Binary64) -> bool {
    !radius.same(Binary64 { bits: 0 }) && !smoothing_length.le(radius)
}

/// Test whether a gas point takes part of the backreaction.
pub fn receives_backreaction(radius: Binary64, smoothing_length: Binary64) -> (result: bool)
    ensures
        result == receives(radius, smoothing_length),
{
    let zero: Binary64 = Binary64 { bits: 0 };
    !(radius.equals(zero) || smoothing_length.at_most(radius))
}

/// The drag goes back to exactly those gas points whose motion was interpolated.
pub proof fn law_backreaction_uses_the_stencil(
    radii: Seq<Binary64>,
    smoothing_length: Binary64,
    count: int,
    i: int,
)
    requires
        0 <= i < count <= radii.len(),
        count <= usize::MAX,
        !radii[i].nan(),
        !radii[i].negative(),
    ensures
        receives(radii[i], smoothing_length) <==> stencil(
            radii,
            smoothing_length,
            count,
        ).contains(StencilPoint { gas: i as usize, apart: true }),
    decreases count,
{
    let before = stencil(radii, smoothing_length, count - 1);
    let after = stencil(radii, smoothing_length, count);
    let point = StencilPoint { gas: i as usize, apart: true };
    lemma_stencil_range(radii, smoothing_length, count - 1);
    if i < count - 1 {
        law_backreaction_uses_the_stencil(radii, smoothing_length, count - 1, i);
        if before.contains(point) {
            let k = choose|k: int| 0 <= k < before.len() && before[k] == point;
            assert(after[k] == point);
        }
        if after.contains(point) {
            let k = choose|k: int| 0 <= k < after.len() && after[k] == point;
            if k < before.len() {
                assert(before[k] == point);
            }
        }
    } else {
        if receives(radii[i], smoothing_length) {
            assert(after[after.len() - 1] == point);
        }
        if after.contains(point) {
            let k = choose|k: int| 0 <= k < after.len() && after[k] == point;
            if k < before.len() {
                assert(before[k].gas < count - 1);
            }
        }
    }
}

proof fn lemma_stencil_range(radii: Seq<Binary64>, smoothing_length: Binary64, count: int)
    requires
        count <= radii.len(),
        count <= usize::MAX,
    ensures
        forall|k: int|
            0 <= k < stencil(radii, smoothing_length, count).len() ==> (#[trigger] stencil(
                radii,
                smoothing_length,
                count,
            )[k]).gas < count,
    decreases count,
{
    if count > 0 {
        lemma_stencil_range(radii, smoothing_length, count - 1);
        let before = stencil(radii, smoothing_length, count - 1);
        let after = stencil(radii, smoothing_length, count);
        assert forall|k: int| 0 <= k < after.len() implies (#[trigger] after[k]).gas < count by {
            if k < before.len() {
                assert(after[k] == before[k]);
            }
        }
    }
}

/// The fault of the step of a batch: box, timestep, then the gas.
pub open spec fn batch_fault(box_size: Binary64, timestep: Binary64, gas: Seq<GrainGasPoint1d>) -> Option<
    GrainError,
> {
    first(
        input_fault("box_size", box_size, box_size.positive()),
        first(
            input_fault("timestep", timestep, timestep.nonnegative()),
            first_fault(gas_faults(gas, box_size), gas.len() as int),
        ),
    )
}

/// Check the step of a batch.
pub fn validate_batch(box_size: Binary64, timestep: Binary64, gas: &[GrainGasPoint1d]) -> (result:
    Result<(), GrainError>)
    ensures
        result == outcome(batch_fault(box_size, timestep, gas@)),
{
    if let Err(error) = validate_positive("box_size", box_size) {
        return Err(error);
    }
    if let Err(error) = validate_nonnegative("timestep", timestep) {
        return Err(error);
    }
    validate_gas(gas, box_size)
}

/// The fault of a grain: position, mass, velocity, radius, then support.
pub open spec fn grain_fault(grain: GrainPoint1d, box_size: Binary64) -> Option<GrainError> {
    first(
        input_fault("grain_position", grain.position, in_box(grain.position, box_size)),
        first(
            input_fault("grain_mass", grain.mass, grain.mass.positive()),
            first(
                input_fault("grain_velocity", grain.velocity, grain.velocity.finite()),
                first(
                    input_fault("grain_radius", grain.radius, grain.radius.positive()),
                    input_fault(
                        "smoothing_length",
                        grain.smoothing_length,
                        grain.smoothing_length.positive(),
                    ),
                ),
            ),
        ),
    )
}

/// Check a grain.
pub fn validate_grain(grain: GrainPoint1d, box_size: Binary64) -> (result: Result<(), GrainError>)
    ensures
        result == outcome(grain_fault(grain, box_size)),
{
    if let Err(error) = validate_position("grain_position", grain.position, box_size) {
        return Err(error);
    }
    if let Err(error) = validate_positive("grain_mass", grain.mass) {
        return Err(error);
    }
    if let Err(error) = validate_finite("grain_velocity", grain.velocity) {
        return Err(error);
    }
    if let Err(error) = validate_positive("grain_radius", grain.radius) {
        return Err(error);
    }
    validate_positive("smoothing_length", grain.smoothing_length)
}

/// A grain that passed the check of its batch can be interpolated to.
pub proof fn law_checked_grains_can_be_interpolated(
    grain: GrainPoint1d,
    box_size: Binary64,
    timestep: Binary64,
    gas: Seq<GrainGasPoint1d>,
)
    requires
        batch_fault(box_size, timestep, gas) is None,
        grain_fault(grain, box_size) is None,
    ensures
        interpolation_fault(grain.position, grain.smoothing_length, gas, box_size) is None,
{
}

/// Whether a gas point lies at the place of a grain and inside its support.
pub open spec fn coincides(radius: Binary64, smoothing_length: Binary64) -> bool {
    radius.le(Binary64 { bits: 0 }) && radius.lt(smoothing_length)
}

/// The faults of a grain with drag: a gas point at its place, whose share of the momentum
/// would be lost.
pub open spec fn coincidence_faults(
    grain_index: usize,
    radii: Seq<Binary64>,
    smoothing_length: Binary64,
) -> spec_fn(int) -> Option<GrainError> {
    |i: int|
        if coincides(radii[i], smoothing_length) {
            Some(GrainError::CoincidentGasNeighbor { grain_index, gas_index: i as usize })
        } else {
            None
        }
}

/// Check that no gas point coincides with a grain that is dragged.
pub fn validate_separation(
    grain_index: usize,
    radii: &[Binary64],
    smoothing_length: Binary64,
    timestep: Binary64,
) -> (result: Result<(), GrainError>)
    ensures
        result == outcome(
            if (Binary64 { bits: 0 }).lt(timestep) {
                first_fault(
                    coincidence_faults(grain_index, radii@, smoothing_length),
                    radii@.len() as int,
                )
            } else {
                None
            },
        ),
        timestep.le(Binary64 { bits: 0 }) ==> result is Ok,
{
    let zero: Binary64 = Binary64 { bits: 0 };
    if !zero.less(timestep) {
        return Ok(());
    }
    let ghost faults = coincidence_faults(grain_index, radii@, smoothing_length);
    let mut index: usize = 0;
    while index < radii.len()
        invariant
            index <= radii@.len(),
            zero == (Binary64 { bits: 0 }),
            zero.lt(timestep),
            faults == coincidence_faults(grain_index, radii@, smoothing_length),
            first_fault(faults, index as int) is None,
        decreases radii@.len() - index,
    {
        let radius: Binary64 = radii[index];
        if radius.at_most(zero) && radius.less(smoothing_length) {
            assert(faults(index as int) is Some);
            proof {
                lemma_first_fault_stays(faults, index + 1, radii@.len() as int);
            }
            return Err(GrainError::CoincidentGasNeighbor { grain_index, gas_index: index });
        }
        assert(faults(index as int) is None);
        index = index + 1;
    }
    Ok(())
}

/// Separated grains lose no momentum: where no gas point coincides with a grain, every point
/// of its stencil takes part of the backreaction.
pub proof fn law_separated_stencils_receive_everything(
    grain_index: usize,
    radii: Seq<Binary64>,
    smoothing_length: Binary64,
    i: int,
)
    requires
        first_fault(
            coincidence_faults(grain_index, radii, smoothing_length),
            radii.len() as int,
        ) is None,
        smoothing_length.positive(),
        0 <= i < radii.len(),
        !radii[i].nan(),
        in_support(radii[i], smoothing_length),
    ensures
        receives(radii[i], smoothing_length),
{
    let faults = coincidence_faults(grain_index, radii, smoothing_length);
    crate::fault::law_first_fault_is_the_earliest(faults, radii.len() as int);
    assert(faults(i) is None);
}

/// Whether the drag of a grain is computed at all: there is a step and gas near it.
pub fn feels_drag(timestep: Binary64, density: Binary64) -> (result: bool)
    ensures
        result == !(timestep.same(Binary64 { bits: 0 }) || density.same(Binary64 { bits: 0 })),
        timestep.positive() && density.positive() ==> result,
        timestep.same(Binary64 { bits: 0 }) ==> !result,
        density.same(Binary64 { bits: 0 }) ==> !result,
{
    let zero: Binary64 = Binary64 { bits: 0 };
    !(timestep.equals(zero) || density.equals(zero))
}

/// Whether a grain gives momentum back to the gas.
pub fn gives_back(timestep: Binary64, density: Binary64) -> (result: bool)
    ensures
        result == !(timestep.le(Binary64 { bits: 0 }) || density.le(Binary64 { bits: 0 })),
        timestep.positive() && density.positive() ==> result,
        result && !timestep.nan() ==> (Binary64 { bits: 0 }).lt(timestep),
        result && !density.nan() ==> (Binary64 { bits: 0 }).lt(density),
{
    let zero: Binary64 = Binary64 { bits: 0 };
    !(timestep.at_most(zero) || density.at_most(zero))
}

/// The faults of new velocities.
pub open spec fn velocity_faults(field: &'static str, velocities: Seq<Binary64>) -> spec_fn(
    int,
) -> Option<GrainError> {
    |i: int| result_fault(field, velocities[i])
}

fn check_velocities(field: &'static str, velocities: &[Binary64]) -> (result: Result<(), GrainError>)
    ensures
        result == outcome(
            first_fault(velocity_faults(field, velocities@), velocities@.len() as int),
        ),
{
    let ghost faults = velocity_faults(field, velocities@);
    let mut index: usize = 0;
    while index < velocities.len()
        invariant
            index <= velocities@.len(),
            faults == velocity_faults(field, velocities@),
            first_fault(faults, index as int) is None,
        decreases velocities@.len() - index,
    {
        if let Err(error) = validate_result(field, velocities[index]) {
            assert(faults(index as int) is Some);
            proof {
                lemma_first_fault_stays(faults, index + 1, velocities@.len() as int);
            }
            return Err(error);
        }
        assert(faults(index as int) is None);
        index = index + 1;
    }
    Ok(())
}

/// The fault of an update: the velocities of the grains, then those of the gas.
pub open spec fn update_fault(grain_velocities: Seq<Binary64>, gas_velocities: Seq<Binary64>) -> Option<
    GrainError,
> {
    first(
        first_fault(
            velocity_faults("grain_velocity_new", grain_velocities),
            grain_velocities.len() as int,
        ),
        first_fault(
            velocity_faults("gas_velocity_new", gas_velocities),
            gas_velocities.len() as int,
        ),
    )
}

/// Give grains and gas their new velocities. Where one of them is not finite nothing
/// changes.
pub fn apply_epstein_drag_steps_1d(
    grains: &mut Vec<GrainPoint1d>,
    gas: &mut Vec<GrainGasPoint1d>,
    grain_velocities: &[Binary64],
    gas_velocities: &[Binary64],
) -> (result: Result<(), GrainError>)
    requires
        grain_velocities@.len() == old(grains)@.len(),
        gas_velocities@.len() == old(gas)@.len(),
    ensures
        result == outcome(update_fault(grain_velocities@, gas_velocities@)),
        match result {
            Ok(_) => {
                &&& final(grains)@ == Seq::new(
                    old(grains)@.len(),
                    |i: int| GrainPoint1d { velocity: grain_velocities@[i], ..old(grains)@[i] },
                )
                &&& final(gas)@ == Seq::new(
                    old(gas)@.len(),
                    |i: int| GrainGasPoint1d { velocity: gas_velocities@[i], ..old(gas)@[i] },
                )
            },
            Err(_) => *final(grains) == *old(grains) && *final(gas) == *old(gas),
        },
{
    if let Err(error) = check_velocities("grain_velocity_new", grain_velocities) {
        return Err(error);
    }
    if let Err(error) = check_velocities("gas_velocity_new", gas_velocities) {
        return Err(error);
    }
    let mut grain: usize = 0;
    while grain < grains.len()
        invariant
            grain <= grains@.len(),
            grains@.len() == old(grains)@.len(),
            grain_velocities@.len() == old(grains)@.len(),
            *gas == *old(gas),
            forall|i: int|
                0 <= i < grain ==> #[trigger] grains@[i] == (GrainPoint1d {
                    velocity: grain_velocities@[i],
                    ..old(grains)@[i]
                }),
            forall|i: int|
                grain <= i < grains@.len() ==> #[trigger] grains@[i] == old(grains)@[i],
        decreases grains@.len() - grain,
    {
        let updated: GrainPoint1d = GrainPoint1d {
            velocity: grain_velocities[grain],
            ..grains[grain]
        };
        grains.set(grain, updated);
        grain = grain + 1;
    }
    let mut point: usize = 0;
    while point < gas.len()
        invariant
            point <= gas@.len(),
            gas@.len() == old(gas)@.len(),
            gas_velocities@.len() == old(gas)@.len(),
            grains@ == Seq::new(
                old(grains)@.len(),
                |i: int| GrainPoint1d { velocity: grain_velocities@[i], ..old(grains)@[i] },
            ),
            forall|i: int|
                0 <= i < point ==> #[trigger] gas@[i] == (GrainGasPoint1d {
                    velocity: gas_velocities@[i],
                    ..old(gas)@[i]
                }),
            forall|i: int| point <= i < gas@.len() ==> #[trigger] gas@[i] == old(gas)@[i],
        decreases gas@.len() - point,
    {
        let updated: GrainGasPoint1d = GrainGasPoint1d {
            velocity: gas_velocities[point],
            ..gas[point]
        };
        gas.set(point, updated);
        point = point + 1;
    }
    Ok(())
}

/// A drag saturates only over a hundred stopping times or more: any shorter step decays, and
/// without a step or a relative speed there is no drag at all.
pub proof fn law_drag_regimes(
    timestep: Binary64,
    relative_speed: Binary64,
    stopping_step: Binary64,
    dimensionless_speed: Binary64,
)
    requires
        !timestep.nan(),
        !relative_speed.nan(),
        !stopping_step.nan(),
        !dimensionless_speed.nan(),
    ensures
        nearest(Binary64 { bits: SATURATED_STOPPING_BITS }, 100, 1),
        drag_regime(timestep, relative_speed, stopping_step, dimensionless_speed)
            == DragRegime::Idle <==> timestep.same(Binary64 { bits: 0 }) || relative_speed.same(
            Binary64 { bits: 0 },
        ),
        drag_regime(timestep, relative_speed, stopping_step, dimensionless_speed)
            == DragRegime::Saturated ==> (Binary64 { bits: SATURATED_STOPPING_BITS }).le(
            stopping_step,
        ),
        !timestep.same(Binary64 { bits: 0 }) && !relative_speed.same(Binary64 { bits: 0 }) ==> {
            &&& (Binary64 { bits: SATURATED_STOPPING_BITS }).le(stopping_step) ==> drag_regime(
                timestep,
                relative_speed,
                stopping_step,
                dimensionless_speed,
            ) == DragRegime::Saturated
            &&& stopping_step.lt(Binary64 { bits: SATURATED_STOPPING_BITS })
                && dimensionless_speed.lt(Binary64 { bits: ONE_BITS }) ==> drag_regime(
                timestep,
                relative_speed,
                stopping_step,
                dimensionless_speed,
            ) == DragRegime::Slow
            &&& stopping_step.lt(Binary64 { bits: SATURATED_STOPPING_BITS })
                && !dimensionless_speed.lt(Binary64 { bits: ONE_BITS }) ==> drag_regime(
                timestep,
                relative_speed,
                stopping_step,
                dimensionless_speed,
            ) == DragRegime::Fast
        },
{
    lemma2_to64();
    lemma2_to64_rest();
}

/// A longer step of the same grain never leaves saturation.
pub proof fn law_longer_drags_stay_saturated(
    timestep: Binary64,
    relative_speed: Binary64,
    shorter: Binary64,
    longer: Binary64,
    dimensionless_speed: Binary64,
)
    requires
        shorter.le(longer),
        drag_regime(timestep, relative_speed, shorter, dimensionless_speed)
            == DragRegime::Saturated,
    ensures
        drag_regime(timestep, relative_speed, longer, dimensionless_speed)
            == DragRegime::Saturated,
{
}

/// A stencil lists the gas points inside the support, each once and in order, and marks
/// those that do not lie on the grain.
pub proof fn law_stencils_list_the_support(
    radii: Seq<Binary64>,
    smoothing_length: Binary64,
    count: int,
)
    requires
        0 <= count <= radii.len(),
        count <= usize::MAX,
    ensures
        forall|a: int, b: int|
            0 <= a < b < stencil(radii, smoothing_length, count).len() ==> (#[trigger] stencil(
                radii,
                smoothing_length,
                count,
            )[a]).gas < (#[trigger] stencil(radii, smoothing_length, count)[b]).gas,
        forall|a: int|
            0 <= a < stencil(radii, smoothing_length, count).len() ==> {
                let point = #[trigger] stencil(radii, smoothing_length, count)[a];
                &&& point.gas < count
                &&& !smoothing_length.le(radii[point.gas as int])
                &&& point.apart == (Binary64 { bits: 0 }).lt(radii[point.gas as int])
            },
        forall|i: int|
            0 <= i < count && !smoothing_length.le(#[trigger] radii[i]) ==> exists|a: int|
                0 <= a < stencil(radii, smoothing_length, count).len() && (#[trigger] stencil(
                    radii,
                    smoothing_length,
                    count,
                )[a]).gas == i,
    decreases count,
{
    if count > 0 {
        law_stencils_list_the_support(radii, smoothing_length, count - 1);
        let before = stencil(radii, smoothing_length, count - 1);
        let all = stencil(radii, smoothing_length, count);
        assert forall|i: int|
            0 <= i < count && !smoothing_length.le(#[trigger] radii[i]) implies exists|a: int|
            0 <= a < all.len() && (#[trigger] all[a]).gas == i by {
            if i < count - 1 {
                let a = choose|a: int| 0 <= a < before.len() && (#[trigger] before[a]).gas == i;
                assert(all[a] == before[a]);
            } else {
                assert(all[all.len() - 1].gas == i);
            }
        }
    }
}

/// An interpolation keeps what it found where there is gas, and is empty where there is
/// none.
pub proof fn law_interpolations_without_gas_are_empty(
    density: Binary64,
    velocity: Binary64,
    specific_internal_energy: Binary64,
    neighbor_count: usize,
)
    ensures
        density.positive() ==> {
            let gas = interpolated(density, velocity, specific_internal_energy, neighbor_count);
            &&& gas.density == density && gas.velocity == velocity
            &&& gas.specific_internal_energy == specific_internal_energy
            &&& gas.neighbor_count == neighbor_count
        },
        density.le(Binary64 { bits: 0 }) || density.nan() ==> {
            let gas = interpolated(density, velocity, specific_internal_energy, neighbor_count);
            &&& gas.density.bits == 0 && gas.velocity.bits == 0
            &&& gas.specific_internal_energy.bits == 0
            &&& gas.neighbor_count == 0
        },
{
}

/// A gas point takes part in the backreaction where it lies inside the support but not on
/// the grain; a grain coincides with a point on it.
pub proof fn law_backreaction_reaches_the_support(radius: Binary64, smoothing_length: Binary64)
    requires
        !radius.nan(),
        !smoothing_length.nan(),
    ensures
        receives(radius, smoothing_length) <==> radius.lt(smoothing_length) && !radius.same(
            Binary64 { bits: 0 },
        ),
        in_support(radius, smoothing_length) <==> radius.lt(smoothing_length),
        coincides(radius, smoothing_length) <==> radius.lt(smoothing_length) && !(Binary64 {
            bits: 0,
        }).lt(radius),
        radius.nonnegative() && smoothing_length.positive() ==> coincides(radius, smoothing_length)
            != (receives(radius, smoothing_length) || smoothing_length.le(radius)),
{
}

/// A position lies in a box from zero up to, but without, its size.
pub proof fn law_boxes_are_half_open(value: Binary64, box_size: Binary64)
    requires
        !box_size.nan(),
    ensures
        in_box(value, box_size) <==> (Binary64 { bits: 0 }).le(value) && value.lt(box_size)
            && value.finite(),
        box_size.positive() ==> in_box(Binary64 { bits: 0 }, box_size),
        !in_box(box_size, box_size),
{
}

/// The gas is fit for grains exactly where every point is, and the first point that is not is
/// reported.
pub proof fn law_gas_is_fit_point_by_point(gas: Seq<GrainGasPoint1d>, box_size: Binary64)
    ensures
        first_fault(gas_faults(gas, box_size), gas.len() as int) is None <==> forall|i: int|
            0 <= i < gas.len() ==> gas_point_fault(i as usize, #[trigger] gas[i], box_size) is None,
        first_fault(gas_faults(gas, box_size), gas.len() as int) matches Some(error) ==> exists|
            i: int,
        |
            0 <= i < gas.len() && gas_point_fault(i as usize, #[trigger] gas[i], box_size) == Some(
                error,
            ) && forall|k: int|
                0 <= k < i ==> gas_point_fault(k as usize, #[trigger] gas[k], box_size) is None,
{
    let faults = gas_faults(gas, box_size);
    law_first_fault_is_the_earliest(faults, gas.len() as int);
    if first_fault(faults, gas.len() as int) is None {
        assert forall|i: int| 0 <= i < gas.len() implies gas_point_fault(
            i as usize,
            #[trigger] gas[i],
            box_size,
        ) is None by {
            assert(faults(i) is None);
        }
    } else {
        let error = first_fault(faults, gas.len() as int)->0;
        let i = choose|i: int|
            0 <= i < gas.len() && #[trigger] faults(i) == Some(error) && forall|k: int|
                0 <= k < i ==> (#[trigger] faults(k)) is None;
        assert(gas_point_fault(i as usize, gas[i], box_size) == Some(error));
        assert forall|k: int| 0 <= k < i implies gas_point_fault(
            k as usize,
            #[trigger] gas[k],
            box_size,
        ) is None by {
            assert(faults(k) is None);
        }
    }
}

/// New velocities are taken over exactly where all of them are finite.
pub proof fn law_updates_need_finite_velocities(
    grain_velocities: Seq<Binary64>,
    gas_velocities: Seq<Binary64>,
)
    ensures
        update_fault(grain_velocities, gas_velocities) is None <==> {
            &&& forall|i: int|
                0 <= i < grain_velocities.len() ==> (#[trigger] grain_velocities[i]).finite()
            &&& forall|i: int|
                0 <= i < gas_velocities.len() ==> (#[trigger] gas_velocities[i]).finite()
        },
{
    let grains = velocity_faults("grain_velocity_new", grain_velocities);
    let gas = velocity_faults("gas_velocity_new", gas_velocities);
    law_first_fault_is_the_earliest(grains, grain_velocities.len() as int);
    law_first_fault_is_the_earliest(gas, gas_velocities.len() as int);
    if update_fault(grain_velocities, gas_velocities) is None {
        assert forall|i: int| 0 <= i < grain_velocities.len() implies (
        #[trigger] grain_velocities[i]).finite() by {
            assert(grains(i) is None);
        }
        assert forall|i: int| 0 <= i < gas_velocities.len() implies (
        #[trigger] gas_velocities[i]).finite() by {
            assert(gas(i) is None);
        }
    }
}

/// A dragged grain is refused exactly where a gas point lies on it.
pub proof fn law_coincident_points_are_refused(
    grain_index: usize,
    radii: Seq<Binary64>,
    smoothing_length: Binary64,
)
    ensures
        first_fault(
            coincidence_faults(grain_index, radii, smoothing_length),
            radii.len() as int,
        ) is None <==> forall|i: int|
            0 <= i < radii.len() ==> !((#[trigger] radii[i]).le(Binary64 { bits: 0 }) && radii[i].lt(
                smoothing_length,
            )),
{
    let faults = coincidence_faults(grain_index, radii, smoothing_length);
    law_first_fault_is_the_earliest(faults, radii.len() as int);
    if first_fault(faults, radii.len() as int) is None {
        assert forall|i: int| 0 <= i < radii.len() implies !((#[trigger] radii[i]).le(
            Binary64 { bits: 0 },
        ) && radii[i].lt(smoothing_length)) by {
            assert(faults(i) is None);
        }
    }
}

/// A gas point is refused exactly where it lies outside the box, weighs nothing, has no
/// velocity or no energy, and the first of these is reported.
pub proof fn law_gas_points(
    index: usize,
    point: GrainGasPoint1d,
    box_size: Binary64,
)
    ensures
        gas_point_fault(index, point, box_size) is None <==> {
            &&& (Binary64 { bits: 0 }).le(point.position) && point.position.lt(box_size) && point.position.finite()
            &&& point.mass.positive()
            &&& point.velocity.finite()
            &&& point.specific_internal_energy.positive()
        },
        ({
            &&& !((Binary64 { bits: 0 }).le(point.position) && point.position.lt(box_size) && point.position.finite())
        }) ==> gas_point_fault(index, point, box_size) == Some(
            GrainError::InvalidGasPoint { index, field: "position", value: point.position },
        ),
        ({
            &&& (Binary64 { bits: 0 }).le(point.position) && point.position.lt(box_size) && point.position.finite()
            &&& !(point.mass.positive())
        }) ==> gas_point_fault(index, point, box_size) == Some(
            GrainError::InvalidGasPoint { index, field: "mass", value: point.mass },
        ),
        ({
            &&& (Binary64 { bits: 0 }).le(point.position) && point.position.lt(box_size) && point.position.finite()
            &&& point.mass.positive()
            &&& !(point.velocity.finite())
        }) ==> gas_point_fault(index, point, box_size) == Some(
            GrainError::InvalidGasPoint { index, field: "velocity", value: point.velocity },
        ),
        ({
            &&& (Binary64 { bits: 0 }).le(point.position) && point.position.lt(box_size) && point.position.finite()
            &&& point.mass.positive()
            &&& point.velocity.finite()
            &&& !(point.specific_internal_energy.positive())
        }) ==> gas_point_fault(index, point, box_size) == Some(
            GrainError::InvalidGasPoint { index, field: "specific_internal_energy", value: point.specific_internal_energy },
        ),
{
}

/// An interpolation is possible exactly where the grain lies in a box of positive size, has a
/// support, and the gas is fit.
pub proof fn law_interpolations_are_possible(
    grain_position: Binary64,
    smoothing_length: Binary64,
    gas: Seq<GrainGasPoint1d>,
    box_size: Binary64,
)
    ensures
        interpolation_fault(grain_position, smoothing_length, gas, box_size) is None <==> {
            &&& (Binary64 { bits: 0 }).le(grain_position) && !box_size.le(grain_position) && grain_position.finite()
            &&& smoothing_length.positive()
            &&& box_size.positive()
            &&& forall|i: int|
                0 <= i < gas.len() ==> gas_point_fault(i as usize, #[trigger] gas[i], box_size) is None
        },
        ({
            &&& !((Binary64 { bits: 0 }).le(grain_position) && !box_size.le(grain_position) && grain_position.finite())
        }) ==> interpolation_fault(grain_position, smoothing_length, gas, box_size) == Some(
            GrainError::InvalidInput { field: "grain_position", value: grain_position },
        ),
        ({
            &&& (Binary64 { bits: 0 }).le(grain_position) && !box_size.le(grain_position) && grain_position.finite()
            &&& !(smoothing_length.positive())
        }) ==> interpolation_fault(grain_position, smoothing_length, gas, box_size) == Some(
            GrainError::InvalidInput { field: "smoothing_length", value: smoothing_length },
        ),
        ({
            &&& (Binary64 { bits: 0 }).le(grain_position) && !box_size.le(grain_position) && grain_position.finite()
            &&& smoothing_length.positive()
            &&& !(box_size.positive())
        }) ==> interpolation_fault(grain_position, smoothing_length, gas, box_size) == Some(
            GrainError::InvalidInput { field: "box_size", value: box_size },
        ),
{
    law_gas_is_fit_point_by_point(gas, box_size);
}

/// A drag is computed exactly for a grain with mass, velocity and size, over a step that does
/// not go back, in gas with density, energy and velocity, for a gas that can be compressed.
pub proof fn law_drags_are_possible(
    grain_mass: Binary64,
    grain_velocity: Binary64,
    grain_radius: Binary64,
    gas: InterpolatedGrainGas1d,
    timestep: Binary64,
    parameters: EpsteinDragParameters,
)
    ensures
        drag_fault(grain_mass, grain_velocity, grain_radius, gas, timestep, parameters) is None <==> {
            &&& grain_mass.positive()
            &&& grain_velocity.finite()
            &&& grain_radius.positive()
            &&& timestep.nonnegative()
            &&& gas.density.positive()
            &&& gas.specific_internal_energy.positive()
            &&& gas.velocity.finite()
            &&& (Binary64 { bits: ONE_BITS }).lt(parameters.gamma) && parameters.gamma.finite()
            &&& parameters.grain_internal_density.positive()
        },
        ({
            &&& !(grain_mass.positive())
        }) ==> drag_fault(grain_mass, grain_velocity, grain_radius, gas, timestep, parameters) == Some(
            GrainError::InvalidInput { field: "grain_mass", value: grain_mass },
        ),
        ({
            &&& grain_mass.positive()
            &&& !(grain_velocity.finite())
        }) ==> drag_fault(grain_mass, grain_velocity, grain_radius, gas, timestep, parameters) == Some(
            GrainError::InvalidInput { field: "grain_velocity", value: grain_velocity },
        ),
        ({
            &&& grain_mass.positive()
            &&& grain_velocity.finite()
            &&& !(grain_radius.positive())
        }) ==> drag_fault(grain_mass, grain_velocity, grain_radius, gas, timestep, parameters) == Some(
            GrainError::InvalidInput { field: "grain_radius", value: grain_radius },
        ),
        ({
            &&& grain_mass.positive()
            &&& grain_velocity.finite()
            &&& grain_radius.positive()
            &&& !(timestep.nonnegative())
        }) ==> drag_fault(grain_mass, grain_velocity, grain_radius, gas, timestep, parameters) == Some(
            GrainError::InvalidInput { field: "timestep", value: timestep },
        ),
        ({
            &&& grain_mass.positive()
            &&& grain_velocity.finite()
            &&& grain_radius.positive()
            &&& timestep.nonnegative()
            &&& !(gas.density.positive())
        }) ==> drag_fault(grain_mass, grain_velocity, grain_radius, gas, timestep, parameters) == Some(
            GrainError::InvalidInput { field: "gas_density", value: gas.density },
        ),
        ({
            &&& grain_mass.positive()
            &&& grain_velocity.finite()
            &&& grain_radius.positive()
            &&& timestep.nonnegative()
            &&& gas.density.positive()
            &&& !(gas.specific_internal_energy.positive())
        }) ==> drag_fault(grain_mass, grain_velocity, grain_radius, gas, timestep, parameters) == Some(
            GrainError::InvalidInput { field: "gas_specific_internal_energy", value: gas.specific_internal_energy },
        ),
        ({
            &&& grain_mass.positive()
            &&& grain_velocity.finite()
            &&& grain_radius.positive()
            &&& timestep.nonnegative()
            &&& gas.density.positive()
            &&& gas.specific_internal_energy.positive()
            &&& !(gas.velocity.finite())
        }) ==> drag_fault(grain_mass, grain_velocity, grain_radius, gas, timestep, parameters) == Some(
            GrainError::InvalidInput { field: "gas_velocity", value: gas.velocity },
        ),
        ({
            &&& grain_mass.positive()
            &&& grain_velocity.finite()
            &&& grain_radius.positive()
            &&& timestep.nonnegative()
            &&& gas.density.positive()
            &&& gas.specific_internal_energy.positive()
            &&& gas.velocity.finite()
            &&& !((Binary64 { bits: ONE_BITS }).lt(parameters.gamma) && parameters.gamma.finite())
        }) ==> drag_fault(grain_mass, grain_velocity, grain_radius, gas, timestep, parameters) == Some(
            GrainError::InvalidInput { field: "gamma", value: parameters.gamma },
        ),
        ({
            &&& grain_mass.positive()
            &&& grain_velocity.finite()
            &&& grain_radius.positive()
            &&& timestep.nonnegative()
            &&& gas.density.positive()
            &&& gas.specific_internal_energy.positive()
            &&& gas.velocity.finite()
            &&& (Binary64 { bits: ONE_BITS }).lt(parameters.gamma) && parameters.gamma.finite()
            &&& !(parameters.grain_internal_density.positive())
        }) ==> drag_fault(grain_mass, grain_velocity, grain_radius, gas, timestep, parameters) == Some(
            GrainError::InvalidInput { field: "grain_internal_density", value: parameters.grain_internal_density },
        ),
{
}

/// An impulse is usable exactly where all its numbers are finite.
pub proof fn law_impulses_are_finite(
    sound_speed: Binary64,
    impulse: EpsteinImpulse1d,
)
    ensures
        impulse_fault(sound_speed, impulse) is None <==> {
            &&& sound_speed.finite()
            &&& impulse.dimensionless_relative_speed.finite()
            &&& impulse.inverse_stopping_time.finite()
            &&& impulse.velocity_relaxation_fraction.finite()
            &&& impulse.grain_velocity_delta.finite()
            &&& impulse.grain_momentum_delta.finite()
        },
        ({
            &&& !(sound_speed.finite())
        }) ==> impulse_fault(sound_speed, impulse) == Some(
            GrainError::NonFiniteResult { field: "sound_speed", value: sound_speed },
        ),
        ({
            &&& sound_speed.finite()
            &&& !(impulse.dimensionless_relative_speed.finite())
        }) ==> impulse_fault(sound_speed, impulse) == Some(
            GrainError::NonFiniteResult { field: "dimensionless_relative_speed", value: impulse.dimensionless_relative_speed },
        ),
        ({
            &&& sound_speed.finite()
            &&& impulse.dimensionless_relative_speed.finite()
            &&& !(impulse.inverse_stopping_time.finite())
        }) ==> impulse_fault(sound_speed, impulse) == Some(
            GrainError::NonFiniteResult { field: "inverse_stopping_time", value: impulse.inverse_stopping_time },
        ),
        ({
            &&& sound_speed.finite()
            &&& impulse.dimensionless_relative_speed.finite()
            &&& impulse.inverse_stopping_time.finite()
            &&& !(impulse.velocity_relaxation_fraction.finite())
        }) ==> impulse_fault(sound_speed, impulse) == Some(
            GrainError::NonFiniteResult { field: "velocity_relaxation_fraction", value: impulse.velocity_relaxation_fraction },
        ),
        ({
            &&& sound_speed.finite()
            &&& impulse.dimensionless_relative_speed.finite()
            &&& impulse.inverse_stopping_time.finite()
            &&& impulse.velocity_relaxation_fraction.finite()
            &&& !(impulse.grain_velocity_delta.finite())
        }) ==> impulse_fault(sound_speed, impulse) == Some(
            GrainError::NonFiniteResult { field: "grain_velocity_delta", value: impulse.grain_velocity_delta },
        ),
        ({
            &&& sound_speed.finite()
            &&& impulse.dimensionless_relative_speed.finite()
            &&& impulse.inverse_stopping_time.finite()
            &&& impulse.velocity_relaxation_fraction.finite()
            &&& impulse.grain_velocity_delta.finite()
            &&& !(impulse.grain_momentum_delta.finite())
        }) ==> impulse_fault(sound_speed, impulse) == Some(
            GrainError::NonFiniteResult { field: "grain_momentum_delta", value: impulse.grain_momentum_delta },
        ),
{
}

/// An impulse without drag changes nothing.
pub proof fn law_no_drag_changes_nothing()
    ensures
        no_impulse().dimensionless_relative_speed.same(Binary64 { bits: 0 }),
        no_impulse().inverse_stopping_time.same(Binary64 { bits: 0 }),
        no_impulse().velocity_relaxation_fraction.same(Binary64 { bits: 0 }),
        no_impulse().grain_velocity_delta.same(Binary64 { bits: 0 }),
        no_impulse().grain_momentum_delta.same(Binary64 { bits: 0 }),
{
}

/// A grain is fit exactly where it lies in the box and has mass, velocity, size and support.
pub proof fn law_grains_are_fit(
    grain: GrainPoint1d,
    box_size: Binary64,
)
    ensures
        grain_fault(grain, box_size) is None <==> {
            &&& (Binary64 { bits: 0 }).le(grain.position) && !box_size.le(grain.position) && grain.position.finite()
            &&& grain.mass.positive()
            &&& grain.velocity.finite()
            &&& grain.radius.positive()
            &&& grain.smoothing_length.positive()
        },
        ({
            &&& !((Binary64 { bits: 0 }).le(grain.position) && !box_size.le(grain.position) && grain.position.finite())
        }) ==> grain_fault(grain, box_size) == Some(
            GrainError::InvalidInput { field: "grain_position", value: grain.position },
        ),
        ({
            &&& (Binary64 { bits: 0 }).le(grain.position) && !box_size.le(grain.position) && grain.position.finite()
            &&& !(grain.mass.positive())
        }) ==> grain_fault(grain, box_size) == Some(
            GrainError::InvalidInput { field: "grain_mass", value: grain.mass },
        ),
        ({
            &&& (Binary64 { bits: 0 }).le(grain.position) && !box_size.le(grain.position) && grain.position.finite()
            &&& grain.mass.positive()
            &&& !(grain.velocity.finite())
        }) ==> grain_fault(grain, box_size) == Some(
            GrainError::InvalidInput { field: "grain_velocity", value: grain.velocity },
        ),
        ({
            &&& (Binary64 { bits: 0 }).le(grain.position) && !box_size.le(grain.position) && grain.position.finite()
            &&& grain.mass.positive()
            &&& grain.velocity.finite()
            &&& !(grain.radius.positive())
        }) ==> grain_fault(grain, box_size) == Some(
            GrainError::InvalidInput { field: "grain_radius", value: grain.radius },
        ),
        ({
            &&& (Binary64 { bits: 0 }).le(grain.position) && !box_size.le(grain.position) && grain.position.finite()
            &&& grain.mass.positive()
            &&& grain.velocity.finite()
            &&& grain.radius.positive()
            &&& !(grain.smoothing_length.positive())
        }) ==> grain_fault(grain, box_size) == Some(
            GrainError::InvalidInput { field: "smoothing_length", value: grain.smoothing_length },
        ),
{
}

/// A batch is fit exactly where box, step and gas are.
pub proof fn law_batches_are_fit(
    box_size: Binary64,
    timestep: Binary64,
    gas: Seq<GrainGasPoint1d>,
)
    ensures
        batch_fault(box_size, timestep, gas) is None <==> {
            &&& box_size.positive()
            &&& timestep.nonnegative()
            &&& forall|i: int|
                0 <= i < gas.len() ==> gas_point_fault(i as usize, #[trigger] gas[i], box_size) is None
        },
        ({
            &&& !(box_size.positive())
        }) ==> batch_fault(box_size, timestep, gas) == Some(
            GrainError::InvalidInput { field: "box_size", value: box_size },
        ),
        ({
            &&& box_size.positive()
            &&& !(timestep.nonnegative())
        }) ==> batch_fault(box_size, timestep, gas) == Some(
            GrainError::InvalidInput { field: "timestep", value: timestep },
        ),
{
    law_gas_is_fit_point_by_point(gas, box_size);
}

/// Interpolated gas is usable exactly where it is finite.
pub proof fn law_interpolated_gas_is_finite(
    gas: InterpolatedGrainGas1d,
)
    ensures
        interpolated_fault(gas) is None <==> {
            &&& gas.density.finite()
            &&& gas.velocity.finite()
            &&& gas.specific_internal_energy.finite()
        },
        ({
            &&& !(gas.density.finite())
        }) ==> interpolated_fault(gas) == Some(
            GrainError::NonFiniteResult { field: "gas_density", value: gas.density },
        ),
        ({
            &&& gas.density.finite()
            &&& !(gas.velocity.finite())
        }) ==> interpolated_fault(gas) == Some(
            GrainError::NonFiniteResult { field: "gas_velocity", value: gas.velocity },
        ),
        ({
            &&& gas.density.finite()
            &&& gas.velocity.finite()
            &&& !(gas.specific_internal_energy.finite())
        }) ==> interpolated_fault(gas) == Some(
            GrainError::NonFiniteResult { field: "gas_specific_internal_energy", value: gas.specific_internal_energy },
        ),
{
}

/// A single input is refused, by its name and value, exactly where it is not valid.
pub proof fn law_single_inputs(
    field: &'static str,
    value: Binary64,
    valid: bool,
)
    ensures
        input_fault(field, value, valid) is None <==> {
            &&& valid
        },
        ({
            &&& !(valid)
        }) ==> input_fault(field, value, valid) == Some(
            GrainError::InvalidInput { field, value },
        ),
{
}

/// A message holds every field of its error, each in its place.
pub proof fn law_messages_hold_the_fields(error: GrainError)
    ensures
        error matches GrainError::InvalidInput { field, value } ==> {
            &&& error.wording().len() == 4
            &&& error.wording()[1] == MessagePart::Text(field)
            &&& error.wording()[3] == MessagePart::Value(value)
        },
        error matches GrainError::InvalidGasPoint { index, field, value } ==> {
            &&& error.wording().len() == 6
            &&& error.wording()[1] == MessagePart::Count(index)
            &&& error.wording()[3] == MessagePart::Text(field)
            &&& error.wording()[5] == MessagePart::Value(value)
        },
        error matches GrainError::NonFiniteResult { field, value } ==> {
            &&& error.wording().len() == 4
            &&& error.wording()[1] == MessagePart::Text(field)
            &&& error.wording()[3] == MessagePart::Value(value)
        },
        error matches GrainError::CoincidentGasNeighbor { grain_index, gas_index } ==> {
            &&& error.wording().len() == 5
            &&& error.wording()[1] == MessagePart::Count(grain_index)
            &&& error.wording()[3] == MessagePart::Count(gas_index)
        },
        error is MissingBatchResult ==> error.wording().len() == 1,
        error matches GrainError::Hydro(source) ==> error.wording().skip(1) == source.wording(),
{
    if error is Hydro {
        assert(error.wording().skip(1) =~= error->Hydro_0.wording());
    }
}

/// Between the fields the message of an error always reads the same.
pub proof fn law_messages_are_fixed(error: GrainError, other: GrainError)
    ensures
        error is InvalidInput && other is InvalidInput ==> {
            &&& error.wording()[0] == other.wording()[0]
            &&& error.wording()[2] == other.wording()[2]
        },
        error is InvalidGasPoint && other is InvalidGasPoint ==> {
            &&& error.wording()[0] == other.wording()[0]
            &&& error.wording()[2] == other.wording()[2]
            &&& error.wording()[4] == other.wording()[4]
        },
        error is NonFiniteResult && other is NonFiniteResult ==> {
            &&& error.wording()[0] == other.wording()[0]
            &&& error.wording()[2] == other.wording()[2]
        },
        error is CoincidentGasNeighbor && other is CoincidentGasNeighbor ==> {
            &&& error.wording()[0] == other.wording()[0]
            &&& error.wording()[2] == other.wording()[2]
            &&& error.wording()[4] == other.wording()[4]
        },
        error is Hydro && other is Hydro ==> error.wording()[0] == other.wording()[0],
{
}

/// An update is refused for the first new grain velocity that is not finite, and only without
/// one for the first new gas velocity.
pub proof fn law_updates_are_refused_in_order(
    grain_velocities: Seq<Binary64>,
    gas_velocities: Seq<Binary64>,
    i: int,
)
    ensures
        ({
            let fault = update_fault(grain_velocities, gas_velocities);
            let grains_fit = forall|k: int|
                0 <= k < grain_velocities.len() ==> (#[trigger] grain_velocities[k]).finite();
            &&& 0 <= i < grain_velocities.len() && !grain_velocities[i].finite() && (forall|k: int|
                0 <= k < i ==> (#[trigger] grain_velocities[k]).finite()) ==> fault == Some(
                GrainError::NonFiniteResult {
                    field: "grain_velocity_new",
                    value: grain_velocities[i],
                },
            )
            &&& grains_fit && 0 <= i < gas_velocities.len() && !gas_velocities[i].finite() && (
            forall|k: int| 0 <= k < i ==> (#[trigger] gas_velocities[k]).finite()) ==> fault
                == Some(
                GrainError::NonFiniteResult {
                    field: "gas_velocity_new",
                    value: gas_velocities[i],
                },
            )
            &&& grains_fit && (forall|k: int|
                0 <= k < gas_velocities.len() ==> (#[trigger] gas_velocities[k]).finite())
                ==> fault is None
        }),
{
    let grains = velocity_faults("grain_velocity_new", grain_velocities);
    let gas = velocity_faults("gas_velocity_new", gas_velocities);
    law_first_fault_is_the_earliest(grains, grain_velocities.len() as int);
    law_first_fault_is_the_earliest(gas, gas_velocities.len() as int);
    assert forall|k: int| 0 <= k < grain_velocities.len() implies ((#[trigger] grains(k)) is None
        <==> grain_velocities[k].finite()) by {}
    assert forall|k: int| 0 <= k < gas_velocities.len() implies ((#[trigger] gas(k)) is None
        <==> gas_velocities[k].finite()) by {}
    if 0 <= i < grain_velocities.len() {
        assert(grains(i) is None <==> grain_velocities[i].finite());
    }
    if 0 <= i < gas_velocities.len() {
        assert(gas(i) is None <==> gas_velocities[i].finite());
    }
}

} // verus!
