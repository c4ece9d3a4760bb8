//! Grains in gas: the arithmetic of a caller around the decisions of the library.

use gizmo_hydro::{grain, Binary64, BoundaryMode1d, HydroError};
use gizmo_hydro::columns_1d::{image_shift, validate_displacement, ImageShift};
use gizmo_hydro::grain::{DragRegime, GrainError};
use gizmo_hydro::kernel::{
    kernel_piece, validate_kernel_input_1d, validate_kernel_value_1d, KernelPiece,
};

/// A native value with a counterpart made of bit patterns.
trait Pattern: Copy {
    type Bits;

    fn bits(self) -> Self::Bits;

    fn native(bits: Self::Bits) -> Self;
}

impl Pattern for f64 {
    type Bits = Binary64;

    fn bits(self) -> Binary64 {
        b(self)
    }

    fn native(bits: Binary64) -> Self {
        f(bits)
    }
}

fn b(value: f64) -> Binary64 {
    Binary64::from_bits(value.to_bits())
}

fn f(value: Binary64) -> f64 {
    f64::from_bits(value.to_bits())
}

fn bs<T: Pattern>(values: &[T]) -> Vec<T::Bits> {
    values.iter().map(|value| value.bits()).collect()
}

fn fs<T: Pattern>(values: Vec<T::Bits>) -> Vec<T> {
    values.into_iter().map(T::native).collect()
}

const CUBIC_1D_NORMALIZATION: f64 = 4.0 / 3.0;

#[derive(Clone, Copy, Debug, PartialEq)]
struct KernelValue {
    weight: f64,
    radial_derivative: f64,
}

fn cubic_shape(u: f64) -> (f64, f64) {
    match kernel_piece(b(u)) {
        KernelPiece::Core => (1.0 + 6.0 * (u - 1.0) * u * u, u * (18.0 * u - 12.0)),
        KernelPiece::Tail => {
            let one_minus_u = 1.0 - u;
            let squared = one_minus_u * one_minus_u;
            (2.0 * squared * one_minus_u, -6.0 * squared)
        }
        KernelPiece::Outside => (0.0, 0.0),
    }
}

fn cubic_kernel_1d(radius: f64, h: f64) -> Result<KernelValue, HydroError> {
    validate_kernel_input_1d(b(radius), b(h))?;
    let u = radius / h;
    if matches!(kernel_piece(b(u)), KernelPiece::Outside) {
        return Ok(KernelValue { weight: 0.0, radial_derivative: 0.0 });
    }
    let (shape, derivative_shape) = cubic_shape(u);
    let weight = shape * CUBIC_1D_NORMALIZATION / h;
    let radial_derivative = derivative_shape * CUBIC_1D_NORMALIZATION / (h * h);
    validate_kernel_value_1d(b(radius), b(h), b(weight), b(radial_derivative))?;
    Ok(KernelValue { weight, radial_derivative })
}

fn displacement_1d(
    x: f64,
    y: f64,
    box_size: f64,
    boundary: BoundaryMode1d,
) -> Result<f64, HydroError> {
    validate_displacement(b(x), b(y), b(box_size), boundary)?;
    let displacement = x - y;
    if boundary == BoundaryMode1d::Reflective {
        return Ok(displacement);
    }
    Ok(match image_shift(b(displacement), b(0.5 * box_size), b(-0.5 * box_size)) {
        ImageShift::Down => displacement - box_size,
        ImageShift::Keep => displacement,
        ImageShift::Up => displacement + box_size,
    })
}

fn periodic_displacement_1d(x: f64, y: f64, box_size: f64) -> Result<f64, HydroError> {
    displacement_1d(x, y, box_size, BoundaryMode1d::Periodic)
}

const EPSTEIN_SPEED_COEFFICIENT: f64 = 0.469_993;

const EPSTEIN_STOPPING_COEFFICIENT: f64 = 1.595_77;

#[derive(Clone, Copy, Debug, PartialEq)]
struct GrainGasPoint1d {
    position: f64,
    mass: f64,
    velocity: f64,
    specific_internal_energy: f64,
}

impl Pattern for GrainGasPoint1d {
    type Bits = grain::GrainGasPoint1d;

    fn bits(self) -> Self::Bits {
        grain::GrainGasPoint1d {
            position: b(self.position),
            mass: b(self.mass),
            velocity: b(self.velocity),
            specific_internal_energy: b(self.specific_internal_energy),
        }
    }

    fn native(bits: Self::Bits) -> Self {
        Self {
            position: f(bits.position),
            mass: f(bits.mass),
            velocity: f(bits.velocity),
            specific_internal_energy: f(bits.specific_internal_energy),
        }
    }
}

#[derive(Clone, Copy, Debug, PartialEq)]
struct GrainPoint1d {
    position: f64,
    mass: f64,
    velocity: f64,
    smoothing_length: f64,
    radius: f64,
}

impl Pattern for GrainPoint1d {
    type Bits = grain::GrainPoint1d;

    fn bits(self) -> Self::Bits {
        grain::GrainPoint1d {
            position: b(self.position),
            mass: b(self.mass),
            velocity: b(self.velocity),
            smoothing_length: b(self.smoothing_length),
            radius: b(self.radius),
        }
    }

    fn native(bits: Self::Bits) -> Self {
        Self {
            position: f(bits.position),
            mass: f(bits.mass),
            velocity: f(bits.velocity),
            smoothing_length: f(bits.smoothing_length),
            radius: f(bits.radius),
        }
    }
}

#[derive(Clone, Copy, Debug, PartialEq)]
struct EpsteinDragParameters {
    gamma: f64,
    grain_internal_density: f64,
}

impl Pattern for EpsteinDragParameters {
    type Bits = grain::EpsteinDragParameters;

    fn bits(self) -> Self::Bits {
        grain::EpsteinDragParameters {
            gamma: b(self.gamma),
            grain_internal_density: b(self.grain_internal_density),
        }
    }

    fn native(bits: Self::Bits) -> Self {
        Self {
            gamma: f(bits.gamma),
            grain_internal_density: f(bits.grain_internal_density),
        }
    }
}

#[derive(Clone, Copy, Debug, PartialEq)]
struct InterpolatedGrainGas1d {
    density: f64,
    velocity: f64,
    specific_internal_energy: f64,
    neighbor_count: usize,
}

impl Pattern for InterpolatedGrainGas1d {
    type Bits = grain::InterpolatedGrainGas1d;

    fn bits(self) -> Self::Bits {
        grain::InterpolatedGrainGas1d {
            density: b(self.density),
            velocity: b(self.velocity),
            specific_internal_energy: b(self.specific_internal_energy),
            neighbor_count: self.neighbor_count,
        }
    }

    fn native(bits: Self::Bits) -> Self {
        Self {
            density: f(bits.density),
            velocity: f(bits.velocity),
            specific_internal_energy: f(bits.specific_internal_energy),
            neighbor_count: bits.neighbor_count,
        }
    }
}

#[derive(Clone, Copy, Debug, PartialEq)]
struct EpsteinImpulse1d {
    inverse_stopping_time: f64,
    dimensionless_relative_speed: f64,
    velocity_relaxation_fraction: f64,
    grain_velocity_delta: f64,
    grain_momentum_delta: f64,
}

impl Pattern for EpsteinImpulse1d {
    type Bits = grain::EpsteinImpulse1d;

    fn bits(self) -> Self::Bits {
        grain::EpsteinImpulse1d {
            inverse_stopping_time: b(self.inverse_stopping_time),
            dimensionless_relative_speed: b(self.dimensionless_relative_speed),
            velocity_relaxation_fraction: b(self.velocity_relaxation_fraction),
            grain_velocity_delta: b(self.grain_velocity_delta),
            grain_momentum_delta: b(self.grain_momentum_delta),
        }
    }

    fn native(bits: Self::Bits) -> Self {
        Self {
            inverse_stopping_time: f(bits.inverse_stopping_time),
            dimensionless_relative_speed: f(bits.dimensionless_relative_speed),
            velocity_relaxation_fraction: f(bits.velocity_relaxation_fraction),
            grain_velocity_delta: f(bits.grain_velocity_delta),
            grain_momentum_delta: f(bits.grain_momentum_delta),
        }
    }
}

#[derive(Clone, Debug, PartialEq)]
struct AppliedEpsteinStep1d {
    interpolated_gas: InterpolatedGrainGas1d,
    impulse: EpsteinImpulse1d,
    gas_velocity_deltas: Vec<f64>,
    momentum_residual: f64,
}

#[derive(Clone, Copy, Debug, PartialEq)]
struct ComputedEpsteinGrain1d {
    interpolated_gas: InterpolatedGrainGas1d,
    impulse: EpsteinImpulse1d,
}

#[derive(Clone, Debug, PartialEq)]
struct ComputedEpsteinBatch1d {
    grains: Vec<ComputedEpsteinGrain1d>,
    gas_velocity_deltas: Vec<f64>,
    momentum_residual: f64,
}

fn radii(position: f64, gas: &[GrainGasPoint1d], box_size: f64) -> Result<Vec<f64>, GrainError> {
    let mut radii = Vec::new();
    for point in gas {
        radii.push(periodic_displacement_1d(position, point.position, box_size)?.abs());
    }
    Ok(radii)
}

fn interpolate_gas_to_grain_1d(
    grain_position: f64,
    smoothing_length: f64,
    gas: &[GrainGasPoint1d],
    box_size: f64,
) -> Result<InterpolatedGrainGas1d, GrainError> {
    grain::validate_interpolation(b(grain_position), b(smoothing_length), &bs(gas), b(box_size))?;
    let radii = radii(grain_position, gas, box_size)?;
    let stencil = grain::grain_stencil(&bs(&radii), b(smoothing_length));
    let (mut density, mut weighted_velocity, mut weighted_internal_energy) = (0.0, 0.0, 0.0);
    for entry in &stencil {
        let point = gas[entry.gas];
        let weight = cubic_kernel_1d(radii[entry.gas], smoothing_length)?.weight;
        let mass_weight = point.mass * weight;
        density += mass_weight;
        if entry.apart {
            weighted_velocity += mass_weight * point.velocity;
            weighted_internal_energy += mass_weight * point.specific_internal_energy;
        }
    }
    let gas = grain::interpolate_gas_to_grain_1d(
        b(density),
        b(weighted_velocity / density),
        b(weighted_internal_energy / density),
        stencil.len(),
    )?;
    Ok(Pattern::native(gas))
}

fn epstein_drag_impulse_1d(
    grain_mass: f64,
    grain_velocity: f64,
    grain_radius: f64,
    gas: InterpolatedGrainGas1d,
    timestep: f64,
    parameters: EpsteinDragParameters,
) -> Result<EpsteinImpulse1d, GrainError> {
    grain::validate_drag(
        b(grain_mass),
        b(grain_velocity),
        b(grain_radius),
        gas.bits(),
        b(timestep),
        parameters.bits(),
    )?;
    let relative_velocity = gas.velocity - grain_velocity;
    let relative_speed = relative_velocity.abs();
    let gamma = parameters.gamma;
    let sound_speed = (gamma * (gamma - 1.0) * gas.specific_internal_energy).sqrt();
    let x = EPSTEIN_SPEED_COEFFICIENT * gamma.sqrt() * relative_speed / sound_speed;
    let inverse_stopping_time =
        EPSTEIN_STOPPING_COEFFICIENT / gamma.sqrt() * gas.density * sound_speed
            / (grain_radius * parameters.grain_internal_density);
    let stopping_step = timestep * inverse_stopping_time;
    let regime =
        grain::choose_drag_regime(b(timestep), b(relative_speed), b(stopping_step), b(x));
    let final_speed = match regime {
        DragRegime::Idle => return Ok(Pattern::native(grain::zero_epstein_impulse())),
        DragRegime::Saturated => 0.0,
        DragRegime::Fast => 1.0 / (stopping_step + (1.0 / x).asinh()).sinh(),
        DragRegime::Slow => {
            let transformed_speed = x / (1.0 + x.hypot(1.0));
            let evolved_speed = transformed_speed * (-stopping_step).exp();
            2.0 * evolved_speed / (1.0 - evolved_speed * evolved_speed)
        }
    };
    let velocity_relaxation_fraction = 1.0 - final_speed / x;
    let grain_velocity_delta = velocity_relaxation_fraction * relative_velocity;
    let impulse = EpsteinImpulse1d {
        inverse_stopping_time,
        dimensionless_relative_speed: x,
        velocity_relaxation_fraction,
        grain_velocity_delta,
        grain_momentum_delta: grain_mass * grain_velocity_delta,
    };
    grain::validate_impulse(b(sound_speed), impulse.bits())?;
    Ok(impulse)
}

fn distribute_grain_backreaction_1d(
    grain_position: f64,
    smoothing_length: f64,
    gas_density: f64,
    grain_momentum_delta: f64,
    gas: &[GrainGasPoint1d],
    box_size: f64,
) -> Result<Vec<f64>, GrainError> {
    grain::validate_backreaction(
        b(grain_position),
        b(smoothing_length),
        b(gas_density),
        b(grain_momentum_delta),
        &bs(gas),
        b(box_size),
    )?;
    let mut deltas = vec![0.0; gas.len()];
    for (index, radius) in radii(grain_position, gas, box_size)?.into_iter().enumerate() {
        if grain::receives_backreaction(b(radius), b(smoothing_length)) {
            let weight = cubic_kernel_1d(radius, smoothing_length)?.weight;
            let delta = -weight * grain_momentum_delta / gas_density;
            grain::validate_result("gas_velocity_delta", b(delta))?;
            deltas[index] = delta;
        }
    }
    Ok(deltas)
}

fn apply_epstein_drag_step_1d(
    grain: &mut GrainPoint1d,
    gas: &mut [GrainGasPoint1d],
    box_size: f64,
    timestep: f64,
    parameters: EpsteinDragParameters,
) -> Result<AppliedEpsteinStep1d, GrainError> {
    let grains = std::slice::from_mut(grain);
    let mut system = apply_epstein_drag_steps_1d(grains, gas, box_size, timestep, parameters)?;
    let result = system.grains.pop().ok_or(GrainError::MissingBatchResult)?;
    Ok(AppliedEpsteinStep1d {
        interpolated_gas: result.interpolated_gas,
        impulse: result.impulse,
        gas_velocity_deltas: system.gas_velocity_deltas,
        momentum_residual: system.momentum_residual,
    })
}

fn apply_epstein_drag_steps_1d(
    grains: &mut [GrainPoint1d],
    gas: &mut [GrainGasPoint1d],
    box_size: f64,
    timestep: f64,
    parameters: EpsteinDragParameters,
) -> Result<ComputedEpsteinBatch1d, GrainError> {
    let computed = compute_epstein_drag_batch_1d(grains, gas, box_size, timestep, parameters)?;
    let grain_velocities: Vec<_> = grains
        .iter()
        .zip(&computed.grains)
        .map(|(grain, result)| b(grain.velocity + result.impulse.grain_velocity_delta))
        .collect();
    let gas_velocities: Vec<_> = gas
        .iter()
        .zip(&computed.gas_velocity_deltas)
        .map(|(point, delta)| b(point.velocity + delta))
        .collect();
    let (mut new_grains, mut new_gas) = (bs(grains), bs(gas));
    grain::apply_epstein_drag_steps_1d(
        &mut new_grains,
        &mut new_gas,
        &grain_velocities,
        &gas_velocities,
    )?;
    grains.copy_from_slice(&fs::<GrainPoint1d>(new_grains));
    gas.copy_from_slice(&fs::<GrainGasPoint1d>(new_gas));
    Ok(computed)
}

fn compute_epstein_drag_batch_1d(
    grains: &[GrainPoint1d],
    gas: &[GrainGasPoint1d],
    box_size: f64,
    timestep: f64,
    parameters: EpsteinDragParameters,
) -> Result<ComputedEpsteinBatch1d, GrainError> {
    grain::validate_batch(b(box_size), b(timestep), &bs(gas))?;
    let mut results = Vec::new();
    for (index, grain) in grains.iter().enumerate() {
        grain::validate_grain(grain.bits(), b(box_size))?;
        let interpolated_gas =
            interpolate_gas_to_grain_1d(grain.position, grain.smoothing_length, gas, box_size)?;
        let radii = bs(&radii(grain.position, gas, box_size)?);
        grain::validate_separation(index, &radii, b(grain.smoothing_length), b(timestep))?;
        let impulse = if grain::feels_drag(b(timestep), b(interpolated_gas.density)) {
            let GrainPoint1d { mass, velocity, radius, .. } = *grain;
            epstein_drag_impulse_1d(mass, velocity, radius, interpolated_gas, timestep, parameters)?
        } else {
            Pattern::native(grain::zero_epstein_impulse())
        };
        results.push(ComputedEpsteinGrain1d { interpolated_gas, impulse });
    }
    let mut gas_velocity_deltas = vec![0.0; gas.len()];
    for (grain, result) in grains.iter().zip(&results) {
        if !grain::gives_back(b(timestep), b(result.interpolated_gas.density)) {
            continue;
        }
        let contribution = distribute_grain_backreaction_1d(
            grain.position,
            grain.smoothing_length,
            result.interpolated_gas.density,
            result.impulse.grain_momentum_delta,
            gas,
            box_size,
        )?;
        for (total, delta) in gas_velocity_deltas.iter_mut().zip(contribution) {
            *total += delta;
            grain::validate_result("accumulated_gas_velocity_delta", b(*total))?;
        }
    }
    let mut grain_momentum_delta = 0.0;
    for result in &results {
        grain_momentum_delta += result.impulse.grain_momentum_delta;
    }
    let mut gas_momentum_delta = 0.0;
    for (point, velocity_delta) in gas.iter().zip(&gas_velocity_deltas) {
        gas_momentum_delta += point.mass * velocity_delta;
    }
    let momentum_residual = grain_momentum_delta + gas_momentum_delta;
    grain::validate_result("momentum_residual", b(momentum_residual))?;
    Ok(ComputedEpsteinBatch1d { grains: results, gas_velocity_deltas, momentum_residual })
}

fn assert_close(actual: f64, expected: f64, tolerance: f64) {
    assert!(
        (actual - expected).abs() <= tolerance,
        "actual={actual:.17e}, expected={expected:.17e}, tolerance={tolerance:.3e}"
    );
}

fn uniform_periodic_gas() -> Vec<GrainGasPoint1d> {
    [0.125, 0.375, 0.625, 0.875]
        .map(|position| GrainGasPoint1d {
            position,
            mass: 0.25,
            velocity: 0.25,
            specific_internal_energy: 1.0,
        })
        .to_vec()
}

#[test]
fn gas_interpolation_uses_mass_weighted_grain_kernel() {
    let gas = uniform_periodic_gas();
    let interpolated = interpolate_gas_to_grain_1d(0.0, 0.4, &gas, 1.0).unwrap();
    let near = cubic_kernel_1d(0.125, 0.4).unwrap().weight;
    let far = cubic_kernel_1d(0.375, 0.4).unwrap().weight;
    let expected_density = 0.25 * (2.0 * near + 2.0 * far);

    assert_eq!(interpolated.neighbor_count, 4);
    assert_close(interpolated.density, expected_density, 1.0e-15);
    assert_close(interpolated.velocity, 0.25, 1.0e-15);
    assert_close(interpolated.specific_internal_energy, 1.0, 1.0e-15);
}

#[test]
fn interpolation_preserves_public_c_zero_lag_semantics() {
    let gas = [GrainGasPoint1d {
        position: 0.5,
        mass: 1.0,
        velocity: 3.0,
        specific_internal_energy: 2.0,
    }];
    let interpolated = interpolate_gas_to_grain_1d(0.5, 0.25, &gas, 1.0).unwrap();

    assert!(interpolated.density > 0.0);
    assert_close(interpolated.velocity, 0.0, 0.0);
    assert_close(interpolated.specific_internal_energy, 0.0, 0.0);
}

#[test]
fn nonlinear_epstein_step_matches_public_c_reference_value() {
    let gas = InterpolatedGrainGas1d {
        density: 1.0,
        velocity: 0.0,
        specific_internal_energy: 1.0,
        neighbor_count: 4,
    };
    let impulse = epstein_drag_impulse_1d(
        1.0,
        1.0,
        1.236_08,
        gas,
        0.1,
        EpsteinDragParameters {
            gamma: 5.0 / 3.0,
            grain_internal_density: 1.0,
        },
    )
    .unwrap();

    assert_close(
        impulse.dimensionless_relative_speed,
        0.575_621_516_339_947_1,
        2.0e-15,
    );
    assert_close(
        impulse.inverse_stopping_time,
        1.054_090_956_044_137_4,
        2.0e-15,
    );
    assert_close(
        impulse.velocity_relaxation_fraction,
        0.113_012_000_620_125_51,
        2.0e-15,
    );
    assert_close(
        impulse.grain_velocity_delta,
        -0.113_012_000_620_125_51,
        2.0e-15,
    );
    assert_close(
        impulse.grain_momentum_delta,
        -0.113_012_000_620_125_51,
        2.0e-15,
    );
}

#[test]
fn stiff_epstein_step_saturates_at_the_interpolated_gas_velocity() {
    let gas = InterpolatedGrainGas1d {
        density: 1.0,
        velocity: -2.0,
        specific_internal_energy: 1.0,
        neighbor_count: 1,
    };
    let impulse = epstein_drag_impulse_1d(
        2.0,
        3.0,
        1.0e-3,
        gas,
        1.0,
        EpsteinDragParameters {
            gamma: 5.0 / 3.0,
            grain_internal_density: 1.0,
        },
    )
    .unwrap();

    assert_close(impulse.velocity_relaxation_fraction, 1.0, 0.0);
    assert_close(impulse.grain_velocity_delta, -5.0, 0.0);
    assert_close(impulse.grain_momentum_delta, -10.0, 0.0);
}

#[test]
fn epstein_transform_is_finite_at_tiny_and_huge_relative_speed() {
    let gas = InterpolatedGrainGas1d {
        density: 1.0,
        velocity: 0.0,
        specific_internal_energy: 1.0,
        neighbor_count: 1,
    };
    let parameters = EpsteinDragParameters {
        gamma: 5.0 / 3.0,
        grain_internal_density: 1.0,
    };
    let tiny = epstein_drag_impulse_1d(1.0, 1.0e-200, 1.236_08, gas, 0.1, parameters).unwrap();
    let expected_linear_fraction = 1.0 - (-0.1 * tiny.inverse_stopping_time).exp();
    assert_close(
        tiny.velocity_relaxation_fraction,
        expected_linear_fraction,
        2.0e-16,
    );
    assert!(tiny.grain_velocity_delta.is_finite());

    let huge = epstein_drag_impulse_1d(1.0, 1.0e300, 1.236_08, gas, 0.1, parameters).unwrap();
    assert!(huge.velocity_relaxation_fraction.is_finite());
    assert!(huge.velocity_relaxation_fraction > 0.99);
    assert!(huge.grain_velocity_delta.is_finite());

    let target_x = 1.0e20;
    let sound_speed = (parameters.gamma * (parameters.gamma - 1.0)).sqrt();
    let grain_velocity =
        target_x * sound_speed / (EPSTEIN_SPEED_COEFFICIENT * parameters.gamma.sqrt());
    let probe =
        epstein_drag_impulse_1d(1.0, grain_velocity, 1.236_08, gas, 1.0, parameters).unwrap();
    let tiny_stopping_step = 1.0e-20;
    let timestep = tiny_stopping_step / probe.inverse_stopping_time;
    let combined =
        epstein_drag_impulse_1d(1.0, grain_velocity, 1.236_08, gas, timestep, parameters)
            .unwrap();
    assert!(combined.velocity_relaxation_fraction.is_finite());
    assert_close(combined.velocity_relaxation_fraction, 0.5, 2.0e-15);
}

#[test]
fn backreaction_is_kernel_weighted_and_conserves_total_momentum() {
    let mut gas = uniform_periodic_gas();
    let original_internal_energy: Vec<_> = gas
        .iter()
        .map(|point| point.specific_internal_energy)
        .collect();
    let initial_gas_momentum: f64 = gas.iter().map(|point| point.mass * point.velocity).sum();
    let mut grain = GrainPoint1d {
        position: 0.0,
        mass: 0.5,
        velocity: 1.0,
        smoothing_length: 0.4,
        radius: 1.236_08,
    };
    let initial_grain_momentum = grain.mass * grain.velocity;

    let applied = apply_epstein_drag_step_1d(
        &mut grain,
        &mut gas,
        1.0,
        0.1,
        EpsteinDragParameters {
            gamma: 5.0 / 3.0,
            grain_internal_density: 1.0,
        },
    )
    .unwrap();

    assert!(applied.impulse.grain_momentum_delta < 0.0);
    assert_close(
        applied.gas_velocity_deltas[0],
        applied.gas_velocity_deltas[3],
        0.0,
    );
    assert_close(
        applied.gas_velocity_deltas[1],
        applied.gas_velocity_deltas[2],
        0.0,
    );
    assert!(
        applied.gas_velocity_deltas[0] > applied.gas_velocity_deltas[1],
        "near gas must receive a larger velocity increment"
    );

    let final_gas_momentum: f64 = gas.iter().map(|point| point.mass * point.velocity).sum();
    let final_grain_momentum = grain.mass * grain.velocity;
    assert_close(
        final_gas_momentum + final_grain_momentum,
        initial_gas_momentum + initial_grain_momentum,
        2.0e-16,
    );
    assert_close(applied.momentum_residual, 0.0, 2.0e-17);
    assert_eq!(
        gas.iter()
            .map(|point| point.specific_internal_energy)
            .collect::<Vec<_>>(),
        original_internal_energy,
        "drag must not heat the gas"
    );
}

#[test]
fn batched_operator_freezes_gas_and_is_grain_order_independent() {
    let gas_initial = uniform_periodic_gas();
    let grains_initial = [
        GrainPoint1d {
            position: 0.0,
            mass: 0.25,
            velocity: 1.0,
            smoothing_length: 0.4,
            radius: 1.236_08,
        },
        GrainPoint1d {
            position: 0.5,
            mass: 0.25,
            velocity: -0.5,
            smoothing_length: 0.4,
            radius: 1.236_08,
        },
    ];
    let parameters = EpsteinDragParameters {
        gamma: 5.0 / 3.0,
        grain_internal_density: 1.0,
    };

    let mut gas_forward = gas_initial.clone();
    let mut grains_forward = grains_initial;
    let forward = apply_epstein_drag_steps_1d(
        &mut grains_forward,
        &mut gas_forward,
        1.0,
        0.1,
        parameters,
    )
    .unwrap();

    let mut gas_reverse = gas_initial;
    let mut grains_reverse = [grains_initial[1], grains_initial[0]];
    let reverse = apply_epstein_drag_steps_1d(
        &mut grains_reverse,
        &mut gas_reverse,
        1.0,
        0.1,
        parameters,
    )
    .unwrap();

    for (forward_gas, reverse_gas) in gas_forward.iter().zip(&gas_reverse) {
        assert_close(forward_gas.velocity, reverse_gas.velocity, 2.0e-16);
        assert_close(
            forward_gas.specific_internal_energy,
            reverse_gas.specific_internal_energy,
            0.0,
        );
    }
    assert_close(grains_forward[0].velocity, grains_reverse[1].velocity, 0.0);
    assert_close(grains_forward[1].velocity, grains_reverse[0].velocity, 0.0);
    assert_close(forward.momentum_residual, 0.0, 5.0e-17);
    assert_close(reverse.momentum_residual, 0.0, 5.0e-17);
}

#[test]
fn no_neighbor_and_zero_step_paths_are_noops() {
    let mut gas = uniform_periodic_gas();
    let original_gas = gas.clone();
    let mut grain = GrainPoint1d {
        position: 0.0,
        mass: 1.0,
        velocity: 1.0,
        smoothing_length: 0.01,
        radius: 1.0,
    };
    let original_grain = grain;
    let parameters = EpsteinDragParameters {
        gamma: 5.0 / 3.0,
        grain_internal_density: 1.0,
    };
    let no_neighbors =
        apply_epstein_drag_step_1d(&mut grain, &mut gas, 1.0, 0.1, parameters).unwrap();
    assert_close(no_neighbors.interpolated_gas.density, 0.0, 0.0);
    assert_eq!(grain, original_grain);
    assert_eq!(gas, original_gas);
    assert!(apply_epstein_drag_step_1d(&mut grain, &mut gas, 1.0, -0.1, parameters).is_err());

    grain.smoothing_length = 0.4;
    let before_zero_step = grain;
    let zero_step =
        apply_epstein_drag_step_1d(&mut grain, &mut gas, 1.0, 0.0, parameters).unwrap();
    assert_close(zero_step.impulse.grain_velocity_delta, 0.0, 0.0);
    assert_eq!(grain, before_zero_step);
    assert_eq!(gas, original_gas);
}

#[test]
fn batched_operator_rejects_public_c_colocation_conservation_hole() {
    let mut gas = [GrainGasPoint1d {
        position: 0.5,
        mass: 1.0,
        velocity: 0.0,
        specific_internal_energy: 1.0,
    }];
    let mut grains = [GrainPoint1d {
        position: 0.5,
        mass: 1.0,
        velocity: 1.0,
        smoothing_length: 0.25,
        radius: 1.0,
    }];
    let error = apply_epstein_drag_steps_1d(
        &mut grains,
        &mut gas,
        1.0,
        0.1,
        EpsteinDragParameters {
            gamma: 5.0 / 3.0,
            grain_internal_density: 1.0,
        },
    )
    .unwrap_err();
    assert!(matches!(
        error,
        GrainError::CoincidentGasNeighbor {
            grain_index: 0,
            gas_index: 0
        }
    ));
}
