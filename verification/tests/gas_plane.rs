//! Gas in the plane and its hierarchy of steps: the arithmetic of a caller around the
//! decisions of the library.

use std::f64::consts::PI;
use std::ops::{Add, AddAssign, Div, Neg, Sub, SubAssign};
use gizmo_hydro::{
    batches, cell_list_2d, estimates, extremes, hierarchy_2d, hydro_evolution_2d, meshless_2d, mhd,
    riemann, smoothing, Binary64, HydroError, LEGACY_TIMEBASE_TICKS,
};
use gizmo_hydro::batches::method_index;
use gizmo_hydro::columns_1d::{image_shift, ImageShift};
use gizmo_hydro::entropic::EntropicChoice;
use gizmo_hydro::estimates::{
    DensityGeometry, MomentRegularization, MomentStep, Response, SymmetricMoment,
};
use gizmo_hydro::extremes::SlopeLimit;
use gizmo_hydro::hierarchy_2d::{
    commit_active, validate_force_inputs, CacheLengths2d, EnergyKick, ForceLengths2d, RefreshStep,
    WakeupTransition,
};
use gizmo_hydro::hydro_evolution_2d::{
    HydroEvolution2dError, ParticleRate2d, PrimitiveLengths2d, RateLengths2d,
};
use gizmo_hydro::incidence::{
    directed_neighbors, pair_incidence, required_active_neighbors, PairTerm,
};
use gizmo_hydro::individual_timeline::{
    IndividualParticleTimeline, IndividualTimelineError, TickRequest,
};
use gizmo_hydro::kernel::{
    kernel_piece, validate_kernel_input_2d, validate_kernel_value_2d, KernelPiece,
};
use gizmo_hydro::meshless_2d::{FaceGeometryPath2d, GeometryError};
use gizmo_hydro::pairs::{supported_neighbors, union_pairs};
use gizmo_hydro::riemann::{
    CentralDecision, ContactDecision, ContactEstimate, ExactIteration, ExactStep, FaceBounds,
    FluxOpening, PairDecision, PairSolvePath, PressureGuess, RiemannMethod, VacuumContact, WaveKind,
};
use gizmo_hydro::smoothing::{BracketPlacement, JumpRegime, SeedEstimate, SeedSolver, SeedStep};

/// A native value with a counterpart made of bit patterns.
trait Pattern: Copy {
    type Bits;

    fn bits(self) -> Self::Bits;

    fn native(bits: Self::Bits) -> Self;
}

impl Pattern for f64 {
    type Bits = Binary64;

    fn bits(self) -> Binary64 {
        b(self)
    }

    fn native(bits: Binary64) -> Self {
        f(bits)
    }
}

fn b(value: f64) -> Binary64 {
    Binary64::from_bits(value.to_bits())
}

fn f(value: Binary64) -> f64 {
    f64::from_bits(value.to_bits())
}

fn bs<T: Pattern>(values: &[T]) -> Vec<T::Bits> {
    values.iter().map(|value| value.bits()).collect()
}

/// Sum what the pairs contribute to every particle.
fn gather<T>(incidence: &[Vec<PairTerm>], zero: T, values: &[T]) -> Vec<T>
where
    T: Copy + Add<Output = T> + Sub<Output = T>,
{
    let enter = |sum: T, term: &PairTerm| {
        let value = values[term.pair];
        if term.added { sum + value } else { sum - value }
    };
    incidence.iter().map(|terms| terms.iter().fold(zero, enter)).collect()
}

#[derive(Clone, Copy, Debug, PartialEq)]
struct KernelValue {
    weight: f64,
    radial_derivative: f64,
}

fn cubic_shape(u: f64) -> (f64, f64) {
    match kernel_piece(b(u)) {
        KernelPiece::Core => (1.0 + 6.0 * (u - 1.0) * u * u, u * (18.0 * u - 12.0)),
        KernelPiece::Tail => {
            let one_minus_u = 1.0 - u;
            let squared = one_minus_u * one_minus_u;
            (2.0 * squared * one_minus_u, -6.0 * squared)
        }
        KernelPiece::Outside => (0.0, 0.0),
    }
}

#[derive(Clone, Copy, Debug, PartialEq)]
struct DensityEstimate {
    density: f64,
    effective_neighbors: f64,
    dhsml_factor: f64,
}

#[derive(Clone, Copy, Debug, PartialEq)]
struct AdaptiveDensityEstimate {
    smoothing_length: f64,
    estimate: DensityEstimate,
}

fn response(treatment: Response, raw: f64) -> f64 {
    match treatment {
        Response::Empty => 0.0,
        Response::Corrected => 1.0 / (1.0 + raw),
        Response::Unit => 1.0,
    }
}

fn solve_from_seed<E>(
    seed: f64,
    desired_neighbors: f64,
    base_tolerance: f64,
    dimensions: f64,
    measure: impl Fn(f64) -> Result<(DensityEstimate, f64), E>,
) -> Result<Result<AdaptiveDensityEstimate, (SeedSolver, f64)>, E> {
    let mut h = seed;
    let mut solver = SeedSolver::new();
    loop {
        let (estimate, face_closure_error) = measure(h)?;
        let neighbors = estimate.effective_neighbors;
        let iteration = solver.iteration;
        let correction = (face_closure_error / 0.35).clamp(1.0, 2.0);
        let desired = desired_neighbors * correction;
        let narrow = base_tolerance * correction;
        let tolerance = if iteration > 1 {
            let growth = (0.1 * (desired / (16.0 * narrow)).ln() * f64::from(iteration)).exp();
            (narrow * growth).min(0.25 * desired)
        } else {
            narrow
        };
        let (lower, upper) = (f(solver.lower), f(solver.upper));
        let step = solver.judge(SeedEstimate {
            length: b(h),
            neighbors: b(neighbors),
            deviation: b((neighbors - desired).abs()),
            tolerance: b(tolerance),
            shortfall: b(desired - tolerance),
            width: b(upper - lower),
            narrow_width: b(1.0e-3 * lower),
        });
        match step {
            SeedStep::Accept => {
                return Ok(Ok(AdaptiveDensityEstimate { smoothing_length: h, estimate }));
            }
            SeedStep::GiveUp => return Ok(Err((solver, neighbors))),
            SeedStep::Jump => {}
        }
        h = hsml_jump(h, estimate, desired, dimensions, iteration, solver);
    }
}

fn hsml_jump(
    h: f64,
    estimate: DensityEstimate,
    desired: f64,
    dimensions: f64,
    iteration: u32,
    solver: SeedSolver,
) -> f64 {
    let neighbors = estimate.effective_neighbors;
    let (lower, upper) = (f(solver.lower), f(solver.upper));
    let needed = (desired / neighbors).ln();
    let regime = smoothing::jump_regime(solver, b(neighbors), b(2.0 * desired), b(0.1 * desired));
    let near = match regime {
        JumpRegime::Bracketed | JumpRegime::BracketedDoubling => {
            let max_jump = if iteration > 1 { 0.2 * (upper / lower).ln() } else { 0.0 };
            let mut length = h * 2.0;
            if regime == JumpRegime::Bracketed {
                let mut jump = estimate.dhsml_factor * needed / dimensions;
                if smoothing::minimum_jump_applies(iteration, b(jump.abs()), b(max_jump)) {
                    jump = max_jump.copysign(jump);
                }
                length = h * jump.exp();
            }
            return match smoothing::place_in_bracket(solver, iteration, b(length)) {
                BracketPlacement::Inside => length,
                BracketPlacement::InsideLimited => {
                    let factor = max_jump.exp();
                    f(smoothing::limit_length(b(length), b(upper / factor), b(lower * factor)))
                }
                BracketPlacement::Outside => {
                    (length.clamp(lower, upper) * lower * upper).powf(1.0 / 3.0)
                }
            };
        }
        JumpRegime::Growing { near } | JumpRegime::Shrinking { near } => near,
    };
    let growing = matches!(regime, JumpRegime::Growing { .. });
    let mut limited =
        if smoothing::has_neighbors(b(neighbors)) { needed / dimensions } else { 1.4 };
    if !growing {
        limited = limited.max(-1.535);
    }
    if !near {
        return h * limited.exp();
    }
    let treatment = smoothing::slope_treatment(iteration, b(estimate.dhsml_factor));
    let slope = if treatment.averaged {
        0.5 * (estimate.dhsml_factor + 1.0)
    } else {
        estimate.dhsml_factor
    };
    let boost = if treatment.boosted { 10.0 } else { 1.0 };
    let jump = limited * slope * boost;
    if growing {
        h * jump.min(limited + 0.231).exp()
    } else {
        h * jump.max(limited - 0.231).exp()
    }
}

fn geometry(estimate: DensityEstimate, face_closure_error: f64) -> DensityGeometry {
    DensityGeometry {
        density: b(estimate.density),
        effective_neighbors: b(estimate.effective_neighbors),
        dhsml_factor: b(estimate.dhsml_factor),
        face_closure_error: b(face_closure_error),
    }
}

#[derive(Clone, Copy, Debug, PartialEq)]
struct FaceStates1d {
    left: f64,
    right: f64,
}

impl Pattern for FaceStates1d {
    type Bits = riemann::FaceStates1d;

    fn bits(self) -> Self::Bits {
        riemann::FaceStates1d {
            left: b(self.left),
            right: b(self.right),
        }
    }

    fn native(bits: Self::Bits) -> Self {
        Self {
            left: f(bits.left),
            right: f(bits.right),
        }
    }
}

fn slope_bounds(
    center: f64,
    minimum_delta: f64,
    maximum_delta: f64,
    shoot_tolerance: f64,
) -> (f64, f64) {
    let (smaller, larger) = extremes::sorted_sizes(b(minimum_delta), b(maximum_delta));
    let tolerated = f(smaller) + shoot_tolerance * f(larger);
    let overshoot = f(extremes::allowed_delta(b(tolerated), larger));
    let floor = extremes::positivity_floor(
        b(center),
        b(1.0e-56 * center),
        b(0.5 * (center + minimum_delta)),
        b(center - overshoot),
    );
    (overshoot, f(floor))
}

fn face_weights(
    (volume_i, volume_j): (f64, f64),
    (kernel_i, kernel_j): (f64, f64),
    volume_jump: f64,
) -> (f64, f64) {
    if riemann::uses_centered_weight(b(volume_jump)) {
        let denominator = volume_i * kernel_i + volume_j * kernel_j;
        let centered = volume_i * volume_j * (kernel_i + kernel_j) / denominator;
        (centered, centered)
    } else {
        (volume_i, volume_j)
    }
}

fn face_bounds(value_i: f64, value_j: f64, extent: f64, tolerance: f64) -> FaceBounds {
    let minimum = value_i.min(value_j);
    let maximum = value_i.max(value_j);
    let spread = maximum - minimum;
    let midpoint = 0.5 * (value_i + value_j);
    let mut effective_maximum = maximum + extent * spread;
    let mut effective_minimum = minimum - extent * spread;
    if riemann::maximum_changes_sign(b(maximum), b(effective_maximum)) {
        effective_maximum = maximum * maximum / (maximum - (effective_maximum - maximum));
    }
    if riemann::minimum_changes_sign(b(minimum), b(effective_minimum)) {
        effective_minimum = minimum * minimum / (minimum + (minimum - effective_minimum));
    }
    FaceBounds {
        effective_minimum: b(effective_minimum),
        effective_maximum: b(effective_maximum),
        midpoint_minimum: b((midpoint - tolerance * spread).max(effective_minimum)),
        midpoint_maximum: b((midpoint + tolerance * spread).min(effective_maximum)),
    }
}

const CONDITION_NUMBER_DANGER_SQUARED: f64 = 1.0e6;

const VACUUM_PRESSURE: f64 = 1.0e-56;

#[derive(Clone, Copy, Debug, PartialEq)]
struct PrimitiveState1d {
    density: f64,
    velocity: f64,
    pressure: f64,
}

impl Pattern for PrimitiveState1d {
    type Bits = riemann::PrimitiveState1d;

    fn bits(self) -> Self::Bits {
        riemann::PrimitiveState1d {
            density: b(self.density),
            velocity: b(self.velocity),
            pressure: b(self.pressure),
        }
    }

    fn native(bits: Self::Bits) -> Self {
        Self {
            density: f(bits.density),
            velocity: f(bits.velocity),
            pressure: f(bits.pressure),
        }
    }
}

#[derive(Clone, Copy, Debug, PartialEq)]
struct MfmFlux1d {
    mass: f64,
    momentum: f64,
    energy: f64,
    star_pressure: f64,
    solver_speed: f64,
    method: RiemannMethod,
}

impl MfmFlux1d {
    fn contact(star_pressure: f64, energy: f64, solver_speed: f64, method: RiemannMethod) -> Self {
        Self { mass: 0.0, momentum: star_pressure, energy, star_pressure, solver_speed, method }
    }
}

#[derive(Clone, Copy)]
struct Interface {
    left: PrimitiveState1d,
    right: PrimitiveState1d,
    gamma: f64,
    sound_left: f64,
    sound_right: f64,
    enthalpy_left: f64,
    enthalpy_right: f64,
    roe_velocity: f64,
    roe_sound: f64,
    momentum_jump_squared: f64,
}

struct Central {
    alpha: f64,
    diffusion_speed: f64,
    signal_speed: f64,
    denominator: f64,
    weighted_product: f64,
    star_pressure: f64,
    energy: f64,
}

impl Interface {
    fn new(left: PrimitiveState1d, right: PrimitiveState1d, gamma: f64) -> Self {
        let sound = |state: PrimitiveState1d| (gamma * state.pressure / state.density).sqrt();
        let enthalpy = |state: PrimitiveState1d| {
            state.pressure / state.density
                + state.pressure / ((gamma - 1.0) * state.density)
                + 0.5 * state.velocity * state.velocity
        };
        let (enthalpy_left, enthalpy_right) = (enthalpy(left), enthalpy(right));
        let (root_left, root_right) = (left.density.sqrt(), right.density.sqrt());
        let inverse_sum = (root_left + root_right).recip();
        let velocity = (root_left * left.velocity + root_right * right.velocity) * inverse_sum;
        let roe_enthalpy = (root_left * enthalpy_left + root_right * enthalpy_right) * inverse_sum;
        let roe_sound =
            ((gamma - 1.0) * (roe_enthalpy - 0.5 * velocity * velocity)).max(1.0e-30).sqrt();
        let momentum_jump = right.density * right.velocity - left.density * left.velocity;
        Self {
            left,
            right,
            gamma,
            sound_left: sound(left),
            sound_right: sound(right),
            enthalpy_left,
            enthalpy_right,
            roe_velocity: velocity,
            roe_sound,
            momentum_jump_squared: momentum_jump * momentum_jump,
        }
    }

    fn contact(&self, estimate: ContactEstimate) -> (f64, f64) {
        let Self { left, right, sound_left, sound_right, .. } = *self;
        match estimate {
            ContactEstimate::Primitive => {
                let sound_maximum = sound_left.max(sound_right);
                let wave_left = left.velocity.min(right.velocity) - sound_maximum;
                let wave_right = left.velocity.max(right.velocity) + sound_maximum;
                let weight_left = left.density * (wave_left - left.velocity);
                let weight_right = right.density * (wave_right - right.velocity);
                let contact_speed = ((right.pressure - left.pressure)
                    + weight_left * left.velocity
                    - weight_right * right.velocity)
                    / (weight_left - weight_right);
                let star_pressure = (left.pressure * weight_right - right.pressure * weight_left
                    + weight_left * weight_right * (right.velocity - left.velocity))
                    / (weight_right - weight_left);
                (star_pressure, contact_speed)
            }
            ContactEstimate::Roe => {
                let (velocity, sound) = (self.roe_velocity, self.roe_sound);
                let wave_right = (right.velocity + sound_right).max(velocity + sound);
                let wave_left = (left.velocity - sound_left).min(velocity - sound);
                let weight_right = right.density * (wave_right - right.velocity);
                let weight_left = -left.density * (wave_left - left.velocity);
                let contact_speed = (weight_right * right.velocity + weight_left * left.velocity
                    + left.pressure
                    - right.pressure)
                    / (weight_right + weight_left);
                let star_pressure = left.density
                    * (left.velocity - wave_left)
                    * (left.velocity - contact_speed)
                    + left.pressure;
                (star_pressure, contact_speed)
            }
            ContactEstimate::Acoustic => {
                let (density, sound) = (left.density + right.density, sound_left + sound_right);
                let star_pressure = 0.5
                    * (left.pressure
                        + right.pressure
                        + (left.velocity - right.velocity) * 0.25 * density * sound);
                let contact_speed = 0.5 * (right.velocity + left.velocity)
                    + 2.0 * (left.pressure - right.pressure) / (density * sound);
                let signal_speed = [
                    (left.velocity - sound_left).abs(),
                    (right.velocity - sound_right).abs(),
                    (left.velocity + sound_left).abs(),
                    (right.velocity + sound_right).abs(),
                ]
                .into_iter()
                .fold(0.0, f64::max);
                (star_pressure, contact_speed.clamp(-signal_speed, signal_speed))
            }
        }
    }

    fn resolve_contact(&self, pressure_limit: f64) -> (f64, f64, ContactDecision) {
        let mut estimate = ContactEstimate::Primitive;
        loop {
            let (star, contact) = self.contact(estimate);
            match riemann::decide_contact(estimate, b(star), b(contact), b(pressure_limit)) {
                ContactDecision::Try(next) => estimate = next,
                decision => return (star, contact, decision),
            }
        }
    }

    fn central(&self) -> Option<Central> {
        let Self { left, right, sound_left, sound_right, enthalpy_left, enthalpy_right, .. } = *self;
        let momentum_difference = right.density * right.velocity - left.density * left.velocity;
        let threshold =
            0.001 * 0.5 * (left.density + right.density) * 0.5 * (sound_left + sound_right);
        let alpha = momentum_difference.abs()
            / (threshold * threshold + self.momentum_jump_squared).sqrt();
        let wave_left = alpha * sound_left + left.velocity.abs();
        let wave_right = alpha * sound_right + right.velocity.abs();
        let diffusion_speed = wave_left.max(wave_right);
        let weighted_left = left.density * (left.velocity + diffusion_speed);
        let weighted_right = right.density * (right.velocity - diffusion_speed);
        let base = left.density * left.velocity - right.density * right.velocity
            + diffusion_speed * (left.density + right.density);
        let denominator = base.recip();
        let weighted_product = weighted_left * weighted_right;
        let energy = (diffusion_speed
            * (weighted_left * right.pressure + weighted_right * left.pressure)
            + (enthalpy_right - enthalpy_left) * weighted_product)
            * denominator;
        riemann::is_invertible(b(base)).then_some(Central {
            alpha,
            diffusion_speed,
            signal_speed: (sound_left + left.velocity.abs()).max(sound_right + right.velocity.abs()),
            denominator,
            weighted_product,
            star_pressure: (weighted_left * right.pressure - weighted_right * left.pressure)
                * denominator,
            energy,
        })
    }

    fn exact(&self) -> Result<MfmFlux1d, HydroError> {
        let Self { left, right, gamma, sound_left, sound_right, .. } = *self;
        let factor = 2.0 / (gamma - 1.0);
        let velocity_jump = right.velocity - left.velocity;
        let exact = |star_pressure: f64, energy: f64, solver_speed: f64| {
            MfmFlux1d::contact(star_pressure, energy, solver_speed, RiemannMethod::Exact)
        };
        if riemann::exact_is_vacuum(b(velocity_jump), b(factor * (sound_left + sound_right))) {
            let left_edge = left.velocity + factor * sound_left;
            let right_edge = right.velocity - factor * sound_right;
            return Ok(match riemann::vacuum_contact(b(left_edge), b(right_edge)) {
                VacuumContact::LeftEdge => exact(0.0, 0.0, left_edge),
                VacuumContact::RightEdge => exact(0.0, 0.0, right_edge),
                VacuumContact::Rest => exact(0.0, 0.0, 0.0),
            });
        }
        let mut pressure = self.pressure_guess();
        let mut iteration = ExactIteration::new();
        iteration.validate_guess(b(pressure))?;
        loop {
            let previous = pressure;
            let (left_value, left_slope) = wave_curve(previous, left, gamma, sound_left);
            let (right_value, right_slope) = wave_curve(previous, right, gamma, sound_right);
            let slope = left_slope + right_slope;
            if !iteration.can_correct(
                b(left_value),
                b(left_slope),
                b(right_value),
                b(right_slope),
                b(slope),
            ) {
                return Err(iteration.failure(b(pressure)));
            }
            let corrected =
                previous - (left_value + right_value + right.velocity - left.velocity) / slope;
            pressure = f(ExactIteration::floored(b(corrected), b(0.1 * previous)));
            let change = 2.0 * ((pressure - previous) / (pressure + previous)).abs();
            match iteration.judge(b(pressure), b(change), b(1.0e-6)) {
                ExactStep::Converged => break,
                ExactStep::Failed => return Err(iteration.failure(b(pressure))),
                ExactStep::Continue => {}
            }
        }
        let left_value = wave_curve(pressure, left, gamma, sound_left).0;
        let right_value = wave_curve(pressure, right, gamma, sound_right).0;
        let residual = left_value + right_value + right.velocity - left.velocity;
        let scale = (sound_left + sound_right + velocity_jump.abs()).max(1.0);
        iteration.validate_residual(b(residual), b(2.0e-6 * scale), b(pressure))?;
        let contact_speed =
            0.5 * (left.velocity + right.velocity) + 0.5 * (right_value - left_value);
        let energy = pressure * contact_speed;
        riemann::validate_riemann_values(&bs(&[pressure, contact_speed, energy]), "exact_flux")?;
        Ok(exact(pressure, energy, contact_speed))
    }

    fn pressure_guess(&self) -> f64 {
        let Self { left, right, gamma, sound_left, sound_right, .. } = *self;
        let minimum = left.pressure.min(right.pressure);
        let maximum = left.pressure.max(right.pressure);
        let velocity_jump = right.velocity - left.velocity;
        let primitive = 0.5 * (left.pressure + right.pressure)
            - 0.125 * velocity_jump * (left.density + right.density) * (sound_left + sound_right);
        match riemann::pressure_guess(b(maximum / minimum), b(minimum), b(maximum), b(primitive)) {
            PressureGuess::Primitive => primitive,
            PressureGuess::TwoRarefactions => {
                let exponent = (gamma - 1.0) / (2.0 * gamma);
                let numerator = sound_left + sound_right - 0.5 * (gamma - 1.0) * velocity_jump;
                let denominator = sound_left / left.pressure.powf(exponent)
                    + sound_right / right.pressure.powf(exponent);
                (numerator / denominator).powf(2.0 * gamma / (gamma - 1.0))
            }
            PressureGuess::TwoShocks => {
                let weight = |state: PrimitiveState1d| {
                    (2.0 / ((gamma + 1.0)
                        * state.density
                        * ((gamma - 1.0) * state.pressure / (gamma + 1.0) + primitive)))
                        .sqrt()
                };
                let (weight_left, weight_right) = (weight(left), weight(right));
                let two_shock = (weight_left * left.pressure + weight_right * right.pressure
                    - velocity_jump)
                    / (weight_left + weight_right);
                f(riemann::bounded_two_shock(b(two_shock), b(minimum), b(maximum)))
            }
        }
    }
}

fn wave_curve(pressure: f64, state: PrimitiveState1d, gamma: f64, sound_speed: f64) -> (f64, f64) {
    match riemann::wave_kind(b(pressure), b(state.pressure)) {
        WaveKind::Shock => {
            let coefficient = 2.0 / ((gamma + 1.0) * state.density);
            let offset = (gamma - 1.0) * state.pressure / (gamma + 1.0);
            let root = (coefficient / (pressure + offset)).sqrt();
            (
                (pressure - state.pressure) * root,
                root * (1.0 - 0.5 * (pressure - state.pressure) / (pressure + offset)),
            )
        }
        WaveKind::Rarefaction => {
            let ratio = pressure / state.pressure;
            let exponent = (gamma - 1.0) / (2.0 * gamma);
            (
                2.0 * sound_speed / (gamma - 1.0) * (ratio.powf(exponent) - 1.0),
                ratio.powf(-(gamma + 1.0) / (2.0 * gamma)) / (state.density * sound_speed),
            )
        }
    }
}

fn ideal_gas_mfm_flux_1d(
    left: PrimitiveState1d,
    right: PrimitiveState1d,
    gamma: f64,
    pressure_limit: f64,
) -> Result<MfmFlux1d, HydroError> {
    riemann::validate_flux_inputs(left.bits(), right.bits(), b(gamma), b(pressure_limit))?;
    let problem = Interface::new(left, right, gamma);
    let Interface { sound_left, sound_right, enthalpy_left, enthalpy_right, .. } = problem;
    riemann::validate_riemann_values(
        &bs(&[sound_left, sound_right, enthalpy_left, enthalpy_right]),
        "thermodynamic_state",
    )?;
    let velocity_jump = right.velocity - left.velocity;
    let threshold = 2.0 * (sound_left + sound_right) / (gamma - 1.0);
    match riemann::open_flux(b(velocity_jump), b(threshold), b(VACUUM_PRESSURE), b(pressure_limit)) {
        FluxOpening::VacuumExact => return problem.exact(),
        FluxOpening::Vacuum => {
            return Ok(MfmFlux1d::contact(VACUUM_PRESSURE, 0.0, 0.0, RiemannMethod::Vacuum));
        }
        FluxOpening::Waves => {}
    }
    let (star_pressure, contact_speed, decision) = problem.resolve_contact(pressure_limit);
    match decision {
        ContactDecision::Accept => {
            let energy = star_pressure * contact_speed;
            riemann::validate_riemann_value("hllc_energy_flux", b(energy))?;
            return Ok(MfmFlux1d::contact(star_pressure, energy, contact_speed, RiemannMethod::Hllc));
        }
        ContactDecision::NeedsExact => return problem.exact(),
        ContactDecision::NeedsKt | ContactDecision::Try(_) => {}
    }
    let Some(central) = problem.central() else {
        return problem.exact();
    };
    let star_pressure = central.star_pressure;
    match riemann::decide_central_1d(b(star_pressure), b(pressure_limit)) {
        CentralDecision::NeedsExact => return problem.exact(),
        CentralDecision::Flux | CentralDecision::ZeroFlux => {}
    }
    let momentum = (right.velocity - left.velocity) * central.weighted_product
        * central.denominator
        + star_pressure;
    let Central { alpha, diffusion_speed, signal_speed, denominator, energy, .. } = central;
    riemann::validate_riemann_values(
        &bs(&[alpha, diffusion_speed, signal_speed, denominator, momentum, energy, star_pressure]),
        "kt_flux",
    )?;
    let method = RiemannMethod::KurganovTadmor;
    Ok(MfmFlux1d { momentum, ..MfmFlux1d::contact(star_pressure, energy, signal_speed, method) })
}

fn prefers_entropic(
    speed_ratio: f64,
    (condition_i, condition_j): (f64, f64),
    (temperature_i, temperature_j): (f64, f64),
    (raw, entropic): (f64, f64),
    (work_i, work_j): (f64, f64),
) -> bool {
    let choice = EntropicChoice {
        speed_ratio: b(speed_ratio),
        neighbor_condition_squared: b(condition_j),
        condition_threshold: b(CONDITION_NUMBER_DANGER_SQUARED - condition_i),
        temperature_i: b(temperature_i),
        temperature_j: b(temperature_j),
        raw_change_i: b(raw - work_i),
        entropic_change_i: b(entropic - work_i),
        raw_change_j: b(-raw + work_j),
        entropic_change_j: b(-entropic + work_j),
    };
    choice.selects_entropic()
}

const CUBIC_2D_NORMALIZATION: f64 = 40.0 / (7.0 * PI);

const MOMENT_CONDITION_LIMIT: f64 = 1.0e4;

#[derive(Clone, Copy, Debug, Default, PartialEq)]
struct Vector2 {
    x: f64,
    y: f64,
}

impl Pattern for Vector2 {
    type Bits = meshless_2d::Vector2;

    fn bits(self) -> Self::Bits {
        meshless_2d::Vector2 {
            x: b(self.x),
            y: b(self.y),
        }
    }

    fn native(bits: Self::Bits) -> Self {
        Self {
            x: f(bits.x),
            y: f(bits.y),
        }
    }
}

impl std::ops::Add for Vector2 {
    type Output = Self;

    fn add(self, rhs: Self) -> Self {
        Self {
            x: self.x + rhs.x,
            y: self.y + rhs.y,
        }
    }
}

impl std::ops::Sub for Vector2 {
    type Output = Self;

    fn sub(self, rhs: Self) -> Self {
        Self {
            x: self.x - rhs.x,
            y: self.y - rhs.y,
        }
    }
}

impl std::ops::Mul<f64> for Vector2 {
    type Output = Self;

    fn mul(self, rhs: f64) -> Self {
        Self {
            x: self.x * rhs,
            y: self.y * rhs,
        }
    }
}

#[derive(Clone, Copy, Debug, Default, PartialEq)]
struct Matrix2 {
    xx: f64,
    xy: f64,
    yx: f64,
    yy: f64,
}

impl Pattern for Matrix2 {
    type Bits = meshless_2d::Matrix2;

    fn bits(self) -> Self::Bits {
        meshless_2d::Matrix2 {
            xx: b(self.xx),
            xy: b(self.xy),
            yx: b(self.yx),
            yy: b(self.yy),
        }
    }

    fn native(bits: Self::Bits) -> Self {
        Self {
            xx: f(bits.xx),
            xy: f(bits.xy),
            yx: f(bits.yx),
            yy: f(bits.yy),
        }
    }
}

impl Vector2 {
    const ZERO: Self = Self::new(0.0, 0.0);

    const fn new(x: f64, y: f64) -> Self {
        Self { x, y }
    }

    fn is_finite(self) -> bool {
        self.bits().is_finite()
    }

    fn dot(self, other: Self) -> f64 {
        self.x.mul_add(other.x, self.y * other.y)
    }

    fn squared_norm(self) -> f64 {
        self.dot(self)
    }

    fn norm(self) -> f64 {
        self.squared_norm().sqrt()
    }
}

impl AddAssign for Vector2 {
    fn add_assign(&mut self, rhs: Self) {
        *self = *self + rhs;
    }
}

impl SubAssign for Vector2 {
    fn sub_assign(&mut self, rhs: Self) {
        *self = *self - rhs;
    }
}

impl Div<f64> for Vector2 {
    type Output = Self;

    fn div(self, rhs: f64) -> Self {
        Self::new(self.x / rhs, self.y / rhs)
    }
}

impl Neg for Vector2 {
    type Output = Self;

    fn neg(self) -> Self {
        Self::new(-self.x, -self.y)
    }
}

impl Matrix2 {
    const ZERO: Self = Self::new(0.0, 0.0, 0.0, 0.0);

    const fn new(xx: f64, xy: f64, yx: f64, yy: f64) -> Self {
        Self { xx, xy, yx, yy }
    }

    fn is_finite(self) -> bool {
        self.bits().is_finite()
    }

    fn mul_vector(self, vector: Vector2) -> Vector2 {
        Vector2::new(
            self.xx.mul_add(vector.x, self.xy * vector.y),
            self.yx.mul_add(vector.x, self.yy * vector.y),
        )
    }
}

#[derive(Clone, Copy, Debug, PartialEq)]
struct Box2d(meshless_2d::Box2d);

impl Box2d {
    fn new(length_x: f64, length_y: f64) -> Result<Self, GeometryError> {
        meshless_2d::Box2d::new(b(length_x), b(length_y)).map(Self)
    }

    fn lengths(self) -> Vector2 {
        Vector2::native(self.0.lengths())
    }

    fn wrap(self, point: Vector2) -> Result<Vector2, GeometryError> {
        let lengths = self.lengths();
        let rest = Vector2::new(point.x.rem_euclid(lengths.x), point.y.rem_euclid(lengths.y));
        self.0.wrap(point.bits(), rest.bits()).map(Vector2::native)
    }

    fn displacement(self, to: Vector2, from: Vector2) -> Result<Vector2, GeometryError> {
        self.0.validate_wrapped(to.bits(), None)?;
        self.0.validate_wrapped(from.bits(), None)?;
        let (lengths, raw) = (self.lengths(), to - from);
        Ok(Vector2::new(minimum_image(raw.x, lengths.x), minimum_image(raw.y, lengths.y)))
    }
}

fn minimum_image(displacement: f64, length: f64) -> f64 {
    match image_shift(b(displacement), b(0.5 * length), b(-0.5 * length)) {
        ImageShift::Down => displacement - length,
        ImageShift::Keep => displacement,
        ImageShift::Up => displacement + length,
    }
}

fn cubic_kernel_2d(radius: f64, h: f64) -> Result<KernelValue, GeometryError> {
    validate_kernel_input_2d(b(radius), b(h))?;
    let u = radius / h;
    if matches!(kernel_piece(b(u)), KernelPiece::Outside) {
        return Ok(KernelValue { weight: 0.0, radial_derivative: 0.0 });
    }
    let (shape, derivative_shape) = cubic_shape(u);
    let inverse_h = h.recip();
    let weight = shape * CUBIC_2D_NORMALIZATION * inverse_h * inverse_h;
    let radial_derivative =
        derivative_shape * CUBIC_2D_NORMALIZATION * inverse_h * inverse_h * inverse_h;
    validate_kernel_value_2d(b(radius), b(h), b(weight), b(radial_derivative))?;
    Ok(KernelValue { weight, radial_derivative })
}

#[derive(Clone)]
struct CellList2d {
    positions: Vec<Vector2>,
    domain: Box2d,
    widths: Vector2,
    cells: cell_list_2d::CellList2d,
}

#[derive(Clone, Copy)]
struct Near2d {
    index: usize,
    displacement: Vector2,
    distance: f64,
}

impl CellList2d {
    fn new(
        positions: &[Vector2],
        domain: Box2d,
        search_scale: f64,
    ) -> Result<Self, GeometryError> {
        cell_list_2d::validate_search_scale(b(search_scale))?;
        meshless_2d::validate_positions(&bs(positions), domain.0)?;
        let cap = positions.len().max(1);
        let lengths = domain.lengths();
        let desired_x = (lengths.x / search_scale).floor().max(1.0).min(cap as f64);
        let desired_y = (lengths.y / search_scale).floor().max(1.0).min(cap as f64);
        let downscale = (cap as f64 / (desired_x * desired_y)).min(1.0).sqrt();
        let counts = cell_list_2d::cell_grid_shape(
            b((desired_x * downscale).floor()),
            b((desired_y * downscale).floor()),
            cap,
        );
        let widths = Vector2::new(lengths.x / counts[0] as f64, lengths.y / counts[1] as f64);
        let quotients: Vec<Vector2> =
            positions.iter().map(|&position| quotient(position, widths)).collect();
        let cells = cell_list_2d::CellList2d::new(counts, &bs(&quotients));
        Ok(Self { positions: positions.to_vec(), domain, widths, cells })
    }

    fn cell_counts(&self) -> [usize; 2] {
        self.cells.cell_counts()
    }

    fn neighbors_within(
        &self,
        target: Vector2,
        radius: f64,
    ) -> Result<Vec<usize>, GeometryError> {
        self.domain.0.validate_wrapped(target.bits(), None)?;
        cell_list_2d::validate_search_radius(b(radius))?;
        if radius == 0.0 || self.positions.is_empty() {
            return Ok(Vec::new());
        }
        let counts = self.cell_counts();
        let [center_x, center_y] =
            cell_list_2d::cell_coordinates(quotient(target, self.widths).bits(), counts);
        let axis = |center: usize, length: f64, width: f64, count: usize| {
            let span = b((radius / width).ceil());
            cell_list_2d::candidate_axis_cells(center, b(radius), b(0.5 * length), span, count)
        };
        let lengths = self.domain.lengths();
        let candidates = self.cells.particles_in(
            &axis(center_x, lengths.x, self.widths.x, counts[0]),
            &axis(center_y, lengths.y, self.widths.y, counts[1]),
        );
        let mut distances = Vec::new();
        for &index in &candidates {
            let displacement = self.domain.displacement(target, self.positions[index])?;
            distances.push(b(displacement.x.hypot(displacement.y)));
        }
        Ok(cell_list_2d::neighbors_within(&candidates, &distances, b(radius)))
    }

    fn near(&self, particle: usize, radius: f64) -> Result<Vec<Near2d>, GeometryError> {
        let target = self.positions[particle];
        let relative = |index: usize| -> Result<_, GeometryError> {
            let displacement = self.domain.displacement(target, self.positions[index])?;
            Ok(Near2d { index, displacement, distance: displacement.norm() })
        };
        self.neighbors_within(target, radius)?.into_iter().map(relative).collect()
    }
}

fn quotient(position: Vector2, widths: Vector2) -> Vector2 {
    Vector2::new((position.x / widths.x).floor(), (position.y / widths.y).floor())
}

fn index_by_support(
    positions: &[Vector2],
    smoothing_lengths: &[f64],
    domain: Box2d,
) -> Result<CellList2d, GeometryError> {
    let maximum_support = smoothing_lengths.iter().copied().fold(0.0_f64, f64::max);
    CellList2d::new(positions, domain, maximum_support)
}

#[derive(Clone, Copy, Debug, PartialEq)]
struct InteractionPair2d {
    i: usize,
    j: usize,
    displacement: Vector2,
    distance: f64,
}

fn check_geometry(positions: &[Vector2], h: &[f64], domain: Box2d) -> Result<(), GeometryError> {
    meshless_2d::validate_geometry_columns(&bs(positions), &bs(h), domain.0)
}

fn check_particles(
    positions: &[Vector2],
    masses: &[f64],
    h: &[f64],
    domain: Box2d,
) -> Result<(), GeometryError> {
    meshless_2d::validate_particle_columns(&bs(positions), &bs(masses), &bs(h), domain.0)
}

fn interacting_pairs_2d(
    positions: &[Vector2],
    smoothing_lengths: &[f64],
    domain: Box2d,
) -> Result<Vec<InteractionPair2d>, GeometryError> {
    interacting_pairs_for_targets_2d(positions, smoothing_lengths, domain, &vec![true; positions.len()])
}

fn particle_divergence_at_hsml_2d(
    positions: &[Vector2],
    velocities: &[Vector2],
    smoothing_lengths: &[f64],
    dhsml_factors: &[f64],
    domain: Box2d,
) -> Result<Vec<f64>, GeometryError> {
    particle_divergence_at_hsml_for_targets_2d(positions, velocities, smoothing_lengths, dhsml_factors, domain, &vec![true; positions.len()])
}

fn interacting_pairs_for_targets_2d(
    positions: &[Vector2],
    smoothing_lengths: &[f64],
    domain: Box2d,
    targets: &[bool],
) -> Result<Vec<InteractionPair2d>, GeometryError> {
    check_geometry(positions, smoothing_lengths, domain)?;
    meshless_2d::validate_count("targets", targets.len(), positions.len())?;
    if positions.is_empty() {
        return Ok(Vec::new());
    }
    let index = index_by_support(positions, smoothing_lengths, domain)?;
    let mut links = Vec::new();
    for (source, &support) in smoothing_lengths.iter().enumerate() {
        if !targets[source] {
            links.push(Vec::new());
            continue;
        }
        let near = index.near(source, support)?;
        let candidates: Vec<usize> = near.iter().map(|entry| entry.index).collect();
        let distances: Vec<f64> = near.iter().map(|entry| entry.distance).collect();
        links.push(supported_neighbors(source, &candidates, &bs(&distances), b(f64::INFINITY)));
    }
    let relative = |(i, j): (usize, usize)| -> Result<_, GeometryError> {
        let displacement = domain.displacement(positions[i], positions[j])?;
        Ok(InteractionPair2d { i, j, distance: displacement.norm(), displacement })
    };
    union_pairs(&links).into_iter().map(relative).collect()
}

fn kernel_sums_2d(near: &[Near2d], h: f64) -> Result<(f64, f64), GeometryError> {
    let (mut kernel_sum, mut derivative_sum) = (0.0, 0.0);
    for entry in near {
        let kernel = cubic_kernel_2d(entry.distance, h)?;
        kernel_sum += kernel.weight;
        derivative_sum +=
            -(2.0 * kernel.weight / h + (entry.distance / h) * kernel.radial_derivative);
    }
    Ok((kernel_sum, derivative_sum))
}

fn density_at_hsml_2d(
    positions: &[Vector2],
    masses: &[f64],
    smoothing_lengths: &[f64],
    domain: Box2d,
) -> Result<Vec<DensityEstimate>, GeometryError> {
    check_particles(positions, masses, smoothing_lengths, domain)?;
    if positions.is_empty() {
        return Ok(Vec::new());
    }
    let index = index_by_support(positions, smoothing_lengths, domain)?;
    let mut out = Vec::new();
    for (particle, &h) in smoothing_lengths.iter().enumerate() {
        let (kernel_sum, derivative_sum) = kernel_sums_2d(&index.near(particle, h)?, h)?;
        let raw = derivative_sum * h / (2.0 * kernel_sum);
        let estimate = DensityEstimate {
            density: masses[particle] * kernel_sum,
            effective_neighbors: PI * h * h * kernel_sum,
            dhsml_factor: response(estimates::response_to(b(kernel_sum), b(raw)), raw),
        };
        estimates::validate_density_estimate_2d(
            particle,
            b(estimate.density),
            b(estimate.effective_neighbors),
            b(estimate.dhsml_factor),
        )?;
        out.push(estimate);
    }
    Ok(out)
}

fn particle_divergence_at_hsml_for_targets_2d(
    positions: &[Vector2],
    velocities: &[Vector2],
    smoothing_lengths: &[f64],
    dhsml_factors: &[f64],
    domain: Box2d,
    targets: &[bool],
) -> Result<Vec<f64>, GeometryError> {
    check_geometry(positions, smoothing_lengths, domain)?;
    estimates::validate_divergence_columns_2d(
        &bs(velocities),
        dhsml_factors.len(),
        positions.len(),
    )?;
    meshless_2d::validate_count("targets", targets.len(), positions.len())?;
    let index = index_by_support(positions, smoothing_lengths, domain)?;
    let mut out = vec![0.0; positions.len()];
    for (particle, &h) in smoothing_lengths.iter().enumerate() {
        if !targets[particle] {
            continue;
        }
        let (mut kernel_sum, mut divergence_sum) = (0.0, 0.0);
        for entry in index.near(particle, h)? {
            let kernel = cubic_kernel_2d(entry.distance, h)?;
            kernel_sum += kernel.weight;
            if entry.distance > 0.0 {
                let difference = velocities[particle] - velocities[entry.index];
                divergence_sum -= kernel.radial_derivative * entry.displacement.dot(difference)
                    / entry.distance;
            }
        }
        if kernel_sum > 0.0 {
            out[particle] = divergence_sum / kernel_sum * dhsml_factors[particle];
        }
        estimates::validate_divergence_2d(particle, b(out[particle]))?;
    }
    Ok(out)
}

fn solve_public_c_smoothing_lengths_from_seeds_2d(
    positions: &[Vector2],
    masses: &[f64],
    seeds: &[f64],
    domain: Box2d,
    desired_neighbors: f64,
    tolerance: f64,
) -> Result<Vec<AdaptiveDensityEstimate>, GeometryError> {
    let targets = vec![true; positions.len()];
    let solved = solve_public_c_smoothing_lengths_from_seeds_for_targets_2d(
        positions,
        masses,
        seeds,
        domain,
        desired_neighbors,
        tolerance,
        &targets,
    )?;
    Ok(solved.into_iter().flatten().collect())
}

fn solve_public_c_smoothing_lengths_from_seeds_for_targets_2d(
    positions: &[Vector2],
    masses: &[f64],
    seeds: &[f64],
    domain: Box2d,
    desired_neighbors: f64,
    tolerance: f64,
    targets: &[bool],
) -> Result<Vec<Option<AdaptiveDensityEstimate>>, GeometryError> {
    check_particles(positions, masses, seeds, domain)?;
    meshless_2d::validate_neighbor_constraint(b(desired_neighbors), b(tolerance))?;
    meshless_2d::validate_count("targets", targets.len(), positions.len())?;
    if positions.is_empty() {
        return Ok(Vec::new());
    }
    let index = index_by_support(positions, seeds, domain)?;
    let mut out = vec![None; positions.len()];
    for (particle, &seed) in seeds.iter().enumerate() {
        if targets[particle] {
            let measure = |h| estimate_geometry_2d(particle, masses[particle], h, &index);
            match solve_from_seed(seed, desired_neighbors, tolerance, 2.0, measure)? {
                Ok(solved) => out[particle] = Some(solved),
                Err((solver, neighbors)) => {
                    return Err(solver.failure_2d(particle, b(neighbors)));
                }
            }
        }
    }
    Ok(out)
}

fn moments(near: &[Near2d], h: f64) -> Result<([f64; 3], Vector2), GeometryError> {
    let ([mut xx, mut xy, mut yy], mut first) = ([0.0; 3], Vector2::ZERO);
    for entry in near {
        if entry.distance != 0.0 {
            let weight = cubic_kernel_2d(entry.distance, h)?.weight;
            let Vector2 { x, y } = entry.displacement;
            xx += weight * x * x;
            xy += weight * x * y;
            yy += weight * y * y;
            first += entry.displacement * weight;
        }
    }
    Ok(([xx, xy, yy], first))
}

fn estimate_geometry_2d(
    particle: usize,
    mass: f64,
    h: f64,
    index: &CellList2d,
) -> Result<(DensityEstimate, f64), GeometryError> {
    let near = index.near(particle, h)?;
    let (kernel_sum, derivative_sum) = kernel_sums_2d(&near, h)?;
    estimates::validate_kernel_sum_2d(particle, b(kernel_sum))?;
    let raw = derivative_sum * h / (2.0 * kernel_sum);
    let estimate = DensityEstimate {
        density: mass * kernel_sum,
        effective_neighbors: PI * h * h * kernel_sum,
        dhsml_factor: response(estimates::bounded_response(b(raw)), raw),
    };
    let ([xx, xy, yy], first) = moments(&near, h)?;
    let inverse = invert_symmetric_moment(particle, xx, xy, yy)?.matrix;
    let error = closure_error(kernel_sum, xx + yy, inverse, first);
    estimates::validate_density_geometry_2d(particle, geometry(estimate, error))?;
    Ok((estimate, error))
}

fn closure_error(kernel_sum: f64, trace: f64, inverse: Matrix2, first: Vector2) -> f64 {
    let volume = kernel_sum.recip();
    let characteristic_length = (volume * trace).sqrt();
    let one_sided = inverse.mul_vector(first) * (2.0 * volume);
    (one_sided.x.abs() + one_sided.y.abs()) / (8.0 * characteristic_length)
}

#[derive(Clone, Copy, Debug, PartialEq)]
struct InverseMoment2d {
    matrix: Matrix2,
    condition_number: f64,
    diagonal_regularization: f64,
}

fn inverse_moments_2d(
    positions: &[Vector2],
    smoothing_lengths: &[f64],
    domain: Box2d,
) -> Result<Vec<InverseMoment2d>, GeometryError> {
    check_geometry(positions, smoothing_lengths, domain)?;
    if positions.is_empty() {
        return Ok(Vec::new());
    }
    let index = index_by_support(positions, smoothing_lengths, domain)?;
    let mut out = Vec::new();
    for (particle, &h) in smoothing_lengths.iter().enumerate() {
        let ([xx, xy, yy], _) = moments(&index.near(particle, h)?, h)?;
        out.push(invert_symmetric_moment(particle, xx, xy, yy)?);
    }
    Ok(out)
}

fn invert_symmetric_moment(
    index: usize,
    mut xx: f64,
    xy: f64,
    mut yy: f64,
) -> Result<InverseMoment2d, GeometryError> {
    let pattern = |xx: f64, yy: f64| SymmetricMoment { xx: b(xx), xy: b(xy), yy: b(yy) };
    let trace = xx + yy;
    let mut regularization = MomentRegularization::begin(index, pattern(xx, yy), b(trace))?;
    let mut increment = 1.05 * (trace / 2.0) / MOMENT_CONDITION_LIMIT;
    let mut total = 0.0;
    loop {
        let condition_number = symmetric_condition_number(xx, xy, yy);
        let determinant = xx.mul_add(yy, -(xy * xy));
        let (diagonal, other) = (yy / determinant, xx / determinant);
        let matrix = Matrix2::new(diagonal, -xy / determinant, -xy / determinant, other);
        match regularization.judge(b(condition_number), matrix.bits()) {
            MomentStep::Accept => {
                return Ok(InverseMoment2d {
                    matrix,
                    condition_number,
                    diagonal_regularization: total,
                });
            }
            MomentStep::Singular => return Err(regularization.failure(index, pattern(xx, yy))),
            MomentStep::Regularize => {
                xx += increment;
                yy += increment;
                total += increment;
                increment *= 1.2;
            }
        }
    }
}

fn symmetric_condition_number(xx: f64, xy: f64, yy: f64) -> f64 {
    let trace = xx + yy;
    let discriminant = (xx - yy).hypot(2.0 * xy);
    let largest = 0.5 * (trace + discriminant);
    let smallest = 0.5 * (trace - discriminant);
    if smallest > 0.0 {
        largest / smallest
    } else {
        f64::INFINITY
    }
}

fn scalar_gradients_batch_with_moments_2d(
    positions: &[Vector2],
    fields: &[&[f64]],
    smoothing_lengths: &[f64],
    domain: Box2d,
    moments: &[InverseMoment2d],
) -> Result<Vec<Vec<Vector2>>, GeometryError> {
    check_geometry(positions, smoothing_lengths, domain)?;
    meshless_2d::validate_count("inverse_moments", moments.len(), positions.len())?;
    for field in fields {
        meshless_2d::validate_values(&bs(field), positions.len(), "scalar_values")?;
    }
    if positions.is_empty() {
        return Ok(vec![Vec::new(); fields.len()]);
    }
    let index = index_by_support(positions, smoothing_lengths, domain)?;
    let mut gradients = vec![vec![Vector2::ZERO; positions.len()]; fields.len()];
    for (center, &h) in smoothing_lengths.iter().enumerate() {
        for entry in index.near(center, h)? {
            if entry.index != center {
                let weight = cubic_kernel_2d(entry.distance, h)?.weight;
                for (numerators, values) in gradients.iter_mut().zip(fields) {
                    let delta = values[entry.index] - values[center];
                    numerators[center].x -= weight * entry.displacement.x * delta;
                    numerators[center].y -= weight * entry.displacement.y * delta;
                }
            }
        }
    }
    for field in &mut gradients {
        for (index, (value, moment)) in field.iter_mut().zip(moments).enumerate() {
            *value = moment.matrix.mul_vector(*value);
            estimates::validate_scalar_gradient(index, value.bits())?;
        }
    }
    Ok(gradients)
}

#[derive(Clone, Copy, Debug, PartialEq)]
struct MeshlessPoint2d {
    position: Vector2,
    mass: f64,
    density: f64,
    smoothing_length: f64,
    inverse_moment: Matrix2,
    condition_number: f64,
}

impl Pattern for MeshlessPoint2d {
    type Bits = meshless_2d::MeshlessPoint2d;

    fn bits(self) -> Self::Bits {
        meshless_2d::MeshlessPoint2d {
            position: self.position.bits(),
            mass: b(self.mass),
            density: b(self.density),
            smoothing_length: b(self.smoothing_length),
            inverse_moment: self.inverse_moment.bits(),
            condition_number: b(self.condition_number),
        }
    }

    fn native(bits: Self::Bits) -> Self {
        Self {
            position: Pattern::native(bits.position),
            mass: f(bits.mass),
            density: f(bits.density),
            smoothing_length: f(bits.smoothing_length),
            inverse_moment: Pattern::native(bits.inverse_moment),
            condition_number: f(bits.condition_number),
        }
    }
}

#[derive(Clone, Copy, Debug, PartialEq)]
struct MeshlessFace2d {
    area_vector: Vector2,
    area: f64,
    unit_normal: Vector2,
    offset_from_i: Vector2,
    offset_from_j: Vector2,
    path: FaceGeometryPath2d,
}

fn meshless_face_geometry_2d(
    i: MeshlessPoint2d,
    j: MeshlessPoint2d,
    domain: Box2d,
) -> Result<MeshlessFace2d, GeometryError> {
    meshless_2d::validate_meshless_point("i", i.bits(), domain.0)?;
    meshless_2d::validate_meshless_point("j", j.bits(), domain.0)?;
    let displacement = domain.displacement(i.position, j.position)?;
    let distance = displacement.norm();
    meshless_2d::validate_face_pair(b(distance), b(i.smoothing_length), b(j.smoothing_length))?;
    let kernel_i = cubic_kernel_2d(distance, i.smoothing_length)?;
    let kernel_j = cubic_kernel_2d(distance, j.smoothing_length)?;
    let volume_i = i.mass / i.density;
    let volume_j = j.mass / j.density;
    let jump = (volume_i - volume_j).abs() / volume_i.min(volume_j) / 2.0;
    let kernels = (kernel_i.weight, kernel_j.weight);
    let (weight_i, weight_j) = face_weights((volume_i, volume_j), kernels, jump);
    let mut area_vector = i.inverse_moment.mul_vector(displacement) * (kernel_i.weight * weight_i)
        + j.inverse_moment.mul_vector(displacement) * (kernel_j.weight * weight_j);
    let condition_sum = i
        .condition_number
        .mul_add(i.condition_number, j.condition_number * j.condition_number);
    let alignment = area_vector.dot(displacement);
    let path = meshless_2d::face_geometry_path(b(condition_sum), b(1.0e12 + 1.0e6), b(alignment));
    if path == FaceGeometryPath2d::RsphFallback {
        let radial_factor = -(weight_i * volume_i * kernel_i.radial_derivative
            + weight_j * volume_j * kernel_j.radial_derivative)
            / distance;
        area_vector = displacement * radial_factor;
    }
    let area = area_vector.norm();
    meshless_2d::validate_face(
        b(volume_i),
        b(volume_j),
        b(weight_i),
        b(weight_j),
        area_vector.bits(),
        b(area),
    )?;
    Ok(MeshlessFace2d {
        area_vector,
        area,
        unit_normal: area_vector / area,
        offset_from_i: displacement * -0.5,
        offset_from_j: displacement * 0.5,
        path,
    })
}

#[derive(Clone, Copy, Debug, Default, PartialEq)]
struct FaceClosure2d {
    net_area_vector: Vector2,
    summed_face_area: f64,
    relative_net_area: f64,
    legacy_dimensionless_leak: f64,
}

fn face_closure_diagnostics_2d(
    positions: &[Vector2],
    masses: &[f64],
    smoothing_lengths: &[f64],
    domain: Box2d,
) -> Result<Vec<FaceClosure2d>, GeometryError> {
    check_particles(positions, masses, smoothing_lengths, domain)?;
    if positions.is_empty() {
        return Ok(Vec::new());
    }
    let density = density_at_hsml_2d(positions, masses, smoothing_lengths, domain)?;
    let inverses = inverse_moments_2d(positions, smoothing_lengths, domain)?;
    let (mut pairs, mut vectors, mut areas) = (vec![], vec![], vec![]);
    for pair in interacting_pairs_2d(positions, smoothing_lengths, domain)? {
        let point = |index: usize| MeshlessPoint2d {
            position: positions[index],
            mass: masses[index],
            density: density[index].density,
            smoothing_length: smoothing_lengths[index],
            inverse_moment: inverses[index].matrix,
            condition_number: inverses[index].condition_number,
        };
        let face = meshless_face_geometry_2d(point(pair.i), point(pair.j), domain)?;
        pairs.push((pair.i, pair.j));
        vectors.push(face.area_vector);
        areas.push(face.area);
    }
    let incidence = pair_incidence(&pairs, positions.len());
    let net_area = gather(&incidence, Vector2::ZERO, &vectors);
    let mut diagnostics = vec![FaceClosure2d::default(); positions.len()];
    let index = index_by_support(positions, smoothing_lengths, domain)?;
    for (particle, &h) in smoothing_lengths.iter().enumerate() {
        let (mut kernel_sum, mut first, mut trace) = (0.0, Vector2::ZERO, 0.0);
        for entry in index.near(particle, h)? {
            let weight = cubic_kernel_2d(entry.distance, h)?.weight;
            kernel_sum += weight;
            if entry.displacement.squared_norm() > 0.0 {
                first += entry.displacement * weight;
                trace += weight * entry.displacement.squared_norm();
            }
        }
        estimates::validate_closure_moments(particle, b(kernel_sum), b(trace))?;
        let entry = &mut diagnostics[particle];
        entry.net_area_vector = net_area[particle];
        for term in &incidence[particle] {
            entry.summed_face_area += areas[term.pair];
        }
        entry.legacy_dimensionless_leak =
            closure_error(kernel_sum, trace, inverses[particle].matrix, first);
        if entry.summed_face_area > 0.0 {
            entry.relative_net_area = entry.net_area_vector.norm() / entry.summed_face_area;
        }
    }
    Ok(diagnostics)
}

type Primitive = IdealMhdPrimitive1d;

type Flux = IdealMhdFlux1d;

#[derive(Clone, Copy, Debug, Default, PartialEq)]
struct Vector3 {
    x: f64,
    y: f64,
    z: f64,
}

impl Pattern for Vector3 {
    type Bits = mhd::Vector3;

    fn bits(self) -> Self::Bits {
        mhd::Vector3 {
            x: b(self.x),
            y: b(self.y),
            z: b(self.z),
        }
    }

    fn native(bits: Self::Bits) -> Self {
        Self {
            x: f(bits.x),
            y: f(bits.y),
            z: f(bits.z),
        }
    }
}

impl std::ops::Add for Vector3 {
    type Output = Self;

    fn add(self, rhs: Self) -> Self {
        Self {
            x: self.x + rhs.x,
            y: self.y + rhs.y,
            z: self.z + rhs.z,
        }
    }
}

impl std::ops::Sub for Vector3 {
    type Output = Self;

    fn sub(self, rhs: Self) -> Self {
        Self {
            x: self.x - rhs.x,
            y: self.y - rhs.y,
            z: self.z - rhs.z,
        }
    }
}

impl std::ops::Mul<f64> for Vector3 {
    type Output = Self;

    fn mul(self, rhs: f64) -> Self {
        Self {
            x: self.x * rhs,
            y: self.y * rhs,
            z: self.z * rhs,
        }
    }
}

impl Vector3 {
    const ZERO: Self = Self::new(0.0, 0.0, 0.0);

    const fn new(x: f64, y: f64, z: f64) -> Self {
        Self { x, y, z }
    }

    fn dot(self, other: Self) -> f64 {
        self.x.mul_add(other.x, self.y.mul_add(other.y, self.z * other.z))
    }

    fn squared_norm(self) -> f64 {
        self.dot(self)
    }

    fn is_finite(self) -> bool {
        self.bits().is_finite()
    }
}

impl Div<f64> for Vector3 {
    type Output = Self;

    fn div(self, rhs: f64) -> Self {
        Self::new(self.x / rhs, self.y / rhs, self.z / rhs)
    }
}

impl Neg for Vector3 {
    type Output = Self;

    fn neg(self) -> Self {
        Self::new(-self.x, -self.y, -self.z)
    }
}

#[derive(Clone, Copy, Debug, PartialEq)]
struct IdealMhdPrimitive1d {
    density: f64,
    velocity: Vector3,
    gas_pressure: f64,
    magnetic: Vector3,
    cleaning_scalar: f64,
}

impl Pattern for IdealMhdPrimitive1d {
    type Bits = mhd::IdealMhdPrimitive1d;

    fn bits(self) -> Self::Bits {
        mhd::IdealMhdPrimitive1d {
            density: b(self.density),
            velocity: self.velocity.bits(),
            gas_pressure: b(self.gas_pressure),
            magnetic: self.magnetic.bits(),
            cleaning_scalar: b(self.cleaning_scalar),
        }
    }

    fn native(bits: Self::Bits) -> Self {
        Self {
            density: f(bits.density),
            velocity: Pattern::native(bits.velocity),
            gas_pressure: f(bits.gas_pressure),
            magnetic: Pattern::native(bits.magnetic),
            cleaning_scalar: f(bits.cleaning_scalar),
        }
    }
}

#[derive(Clone, Copy, Debug, Default, PartialEq)]
struct IdealMhdFlux1d {
    mass: f64,
    momentum: Vector3,
    total_energy: f64,
    magnetic: Vector3,
}

impl Pattern for IdealMhdFlux1d {
    type Bits = mhd::IdealMhdFlux1d;

    fn bits(self) -> Self::Bits {
        mhd::IdealMhdFlux1d {
            mass: b(self.mass),
            momentum: self.momentum.bits(),
            total_energy: b(self.total_energy),
            magnetic: self.magnetic.bits(),
        }
    }

    fn native(bits: Self::Bits) -> Self {
        Self {
            mass: f(bits.mass),
            momentum: Pattern::native(bits.momentum),
            total_energy: f(bits.total_energy),
            magnetic: Pattern::native(bits.magnetic),
        }
    }
}

impl std::ops::Add for IdealMhdFlux1d {
    type Output = Self;

    fn add(self, rhs: Self) -> Self {
        Self {
            mass: self.mass + rhs.mass,
            momentum: self.momentum + rhs.momentum,
            total_energy: self.total_energy + rhs.total_energy,
            magnetic: self.magnetic + rhs.magnetic,
        }
    }
}

impl std::ops::Sub for IdealMhdFlux1d {
    type Output = Self;

    fn sub(self, rhs: Self) -> Self {
        Self {
            mass: self.mass - rhs.mass,
            momentum: self.momentum - rhs.momentum,
            total_energy: self.total_energy - rhs.total_energy,
            magnetic: self.magnetic - rhs.magnetic,
        }
    }
}

impl std::ops::Mul<f64> for IdealMhdFlux1d {
    type Output = Self;

    fn mul(self, rhs: f64) -> Self {
        Self {
            mass: self.mass * rhs,
            momentum: self.momentum * rhs,
            total_energy: self.total_energy * rhs,
            magnetic: self.magnetic * rhs,
        }
    }
}

impl Flux {
    fn is_finite(self) -> bool {
        self.bits().is_finite()
    }
}

/// Physical times on a timeline that counts ticks.
trait PhysicalTime {
    /// The two ends and the current tick.
    fn span(&self) -> (f64, f64, u64);

    fn duration_for_ticks(&self, ticks: u64) -> f64 {
        let (begin, end, _) = self.span();
        (end - begin) / LEGACY_TIMEBASE_TICKS as f64 * ticks as f64
    }

    fn time_at(&self, tick: u64) -> f64 {
        self.span().0 + self.duration_for_ticks(tick)
    }

    fn current_time(&self) -> f64 {
        self.time_at(self.span().2)
    }

    /// A step of a physical length, in ticks.
    fn request(&self, bound: f64) -> TickRequest {
        TickRequest { bound: b(bound), ticks: b((bound / self.duration_for_ticks(1)).floor()) }
    }
}

impl PhysicalTime for IndividualParticleTimeline {
    fn span(&self) -> (f64, f64, u64) {
        (f(self.time_begin()), f(self.time_max()), self.current_tick())
    }
}

fn requests(
    timeline: &IndividualParticleTimeline,
    physical_bounds: &[Option<f64>],
) -> Vec<Option<TickRequest>> {
    physical_bounds.iter().map(|bound| bound.map(|bound| timeline.request(bound))).collect()
}

const MIN_REAL_NUMBER: f64 = 1.0e-56;

type Euler = EulerPrimitive2d;

type State = HydroMfmState2d;

type Rates = HydroMfmRates2d;

type Columns = HydroPrimitiveColumns2d;

type Outcome<T> = Result<T, HydroEvolution2dError>;

#[derive(Clone, Copy, Debug, PartialEq)]
struct EulerPrimitive2d {
    density: f64,
    velocity: Vector3,
    pressure: f64,
}

impl Pattern for EulerPrimitive2d {
    type Bits = hydro_evolution_2d::EulerPrimitive2d;

    fn bits(self) -> Self::Bits {
        hydro_evolution_2d::EulerPrimitive2d {
            density: b(self.density),
            velocity: self.velocity.bits(),
            pressure: b(self.pressure),
        }
    }

    fn native(bits: Self::Bits) -> Self {
        Self {
            density: f(bits.density),
            velocity: Pattern::native(bits.velocity),
            pressure: f(bits.pressure),
        }
    }
}

#[derive(Clone, Copy, Debug, PartialEq)]
struct EulerMfmFlux2d {
    mass: f64,
    momentum: Vector3,
    total_energy: f64,
    star_pressure: f64,
    solver_speed: f64,
    method: RiemannMethod,
}

#[derive(Clone, Debug, PartialEq)]
struct HydroMfmState2d {
    positions: Vec<Vector2>,
    masses: Vec<f64>,
    velocities: Vec<Vector3>,
    specific_internal_energy: Vec<f64>,
    smoothing_lengths: Vec<f64>,
    domain: Box2d,
    gamma: f64,
}

#[derive(Clone, Debug, PartialEq)]
struct HydroPrimitiveColumns2d {
    density: Vec<f64>,
    dhsml_factor: Vec<f64>,
    pressure: Vec<f64>,
}

impl Columns {
    fn lengths(&self) -> PrimitiveLengths2d {
        PrimitiveLengths2d {
            density: self.density.len(),
            dhsml_factor: self.dhsml_factor.len(),
            pressure: self.pressure.len(),
        }
    }
}

#[derive(Clone, Debug, PartialEq)]
struct HydroMfmRates2d {
    momentum: Vec<Vector3>,
    total_energy: Vec<f64>,
    acceleration: Vec<Vector3>,
    specific_internal_energy: Vec<f64>,
    maximum_signal_speed: Vec<f64>,
    velocity_divergence: Vec<f64>,
    pair_count: usize,
    entropic_pair_count: usize,
    hllc_pair_count: usize,
    kt_pair_count: usize,
    exact_pair_count: usize,
    vacuum_pair_count: usize,
}

impl Rates {
    fn lengths(&self) -> RateLengths2d {
        RateLengths2d {
            momentum: self.momentum.len(),
            total_energy: self.total_energy.len(),
            acceleration: self.acceleration.len(),
            specific_internal_energy: self.specific_internal_energy.len(),
            maximum_signal_speed: self.maximum_signal_speed.len(),
            velocity_divergence: self.velocity_divergence.len(),
        }
    }

    fn zero(count: usize) -> Self {
        Self {
            momentum: vec![Vector3::ZERO; count],
            total_energy: vec![0.0; count],
            acceleration: vec![Vector3::ZERO; count],
            specific_internal_energy: vec![0.0; count],
            maximum_signal_speed: vec![0.0; count],
            velocity_divergence: vec![0.0; count],
            pair_count: 0,
            entropic_pair_count: 0,
            hllc_pair_count: 0,
            kt_pair_count: 0,
            exact_pair_count: 0,
            vacuum_pair_count: 0,
        }
    }

    fn count_methods(&mut self, methods: &[RiemannMethod]) {
        let counts = batches::count_methods(methods);
        self.hllc_pair_count = counts.hllc;
        self.kt_pair_count = counts.kurganov_tadmor;
        self.exact_pair_count = counts.exact;
        self.vacuum_pair_count = counts.vacuum;
    }
}

#[derive(Clone, Debug, PartialEq)]
struct HydroKdkResult2d {
    state: State,
    rates: Rates,
}

#[derive(Clone, Copy, Debug, PartialEq)]
struct PublicHydroTimestepBounds2d {
    acceleration: f64,
    courant: f64,
    velocity_divergence: f64,
    selected: f64,
}

impl Pattern for PublicHydroTimestepBounds2d {
    type Bits = hydro_evolution_2d::PublicHydroTimestepBounds2d;

    fn bits(self) -> Self::Bits {
        hydro_evolution_2d::PublicHydroTimestepBounds2d {
            acceleration: b(self.acceleration),
            courant: b(self.courant),
            velocity_divergence: b(self.velocity_divergence),
            selected: b(self.selected),
        }
    }

    fn native(bits: Self::Bits) -> Self {
        Self {
            acceleration: f(bits.acceleration),
            courant: f(bits.courant),
            velocity_divergence: f(bits.velocity_divergence),
            selected: f(bits.selected),
        }
    }
}

#[derive(Clone, Copy, Debug, PartialEq)]
struct PublicHydroInitialTimebin2d {
    bounded_timestep: f64,
    raw_ticks: u64,
    ticks: u64,
    time_bin: u32,
    duration: f64,
}

impl Pattern for PublicHydroInitialTimebin2d {
    type Bits = hydro_evolution_2d::PublicHydroInitialTimebin2d;

    fn bits(self) -> Self::Bits {
        hydro_evolution_2d::PublicHydroInitialTimebin2d {
            bounded_timestep: b(self.bounded_timestep),
            raw_ticks: self.raw_ticks,
            ticks: self.ticks,
            time_bin: self.time_bin,
            duration: b(self.duration),
        }
    }

    fn native(bits: Self::Bits) -> Self {
        Self {
            bounded_timestep: f(bits.bounded_timestep),
            raw_ticks: bits.raw_ticks,
            ticks: bits.ticks,
            time_bin: bits.time_bin,
            duration: f(bits.duration),
        }
    }
}

#[derive(Clone, Debug, PartialEq)]
struct PublicHydroActiveRateResult2d {
    rates: Rates,
    wakeup: Vec<bool>,
}

impl State {
    fn from_primitive(
        positions: Vec<Vector2>,
        masses: Vec<f64>,
        velocities: Vec<Vector3>,
        specific_internal_energy: Vec<f64>,
        smoothing_lengths: Vec<f64>,
        domain: Box2d,
        gamma: f64,
    ) -> Outcome<Self> {
        let state = Self {
            positions,
            masses,
            velocities,
            specific_internal_energy,
            smoothing_lengths,
            domain,
            gamma,
        };
        state.validate()?;
        Ok(state)
    }

    fn bits(&self) -> hydro_evolution_2d::HydroMfmState2d {
        hydro_evolution_2d::HydroMfmState2d {
            positions: bs(&self.positions),
            masses: bs(&self.masses),
            velocities: bs(&self.velocities),
            specific_internal_energy: bs(&self.specific_internal_energy),
            smoothing_lengths: bs(&self.smoothing_lengths),
            domain: self.domain.0,
            gamma: b(self.gamma),
        }
    }

    fn validate(&self) -> Outcome<()> {
        self.bits().validate()
    }

    fn primitive_columns(&self) -> Outcome<Columns> {
        self.validate()?;
        let hsml = &self.smoothing_lengths;
        let estimates = density_at_hsml_2d(&self.positions, &self.masses, hsml, self.domain)?;
        let density: Vec<f64> = estimates.iter().map(|value| value.density).collect();
        let pressure: Vec<f64> = density
            .iter()
            .zip(&self.specific_internal_energy)
            .map(|(&rho, &internal)| (self.gamma - 1.0) * rho * internal)
            .collect();
        hydro_evolution_2d::validate_pressures(&bs(&pressure))?;
        let dhsml_factor = estimates.iter().map(|value| value.dhsml_factor).collect();
        Ok(Columns { density, dhsml_factor, pressure })
    }

    fn total_momentum(&self) -> Vector3 {
        let terms = self.masses.iter().zip(&self.velocities);
        terms.fold(Vector3::ZERO, |sum, (&mass, &velocity)| sum + velocity * mass)
    }

    fn total_energy(&self) -> f64 {
        self.extensive().1.into_iter().sum()
    }

    fn extensive(&self) -> (Vec<Vector3>, Vec<f64>) {
        let momentum = self.masses.iter().zip(&self.velocities).map(|(&m, &v)| v * m).collect();
        let energy = |i: usize| {
            let kinetic = 0.5 * self.velocities[i].squared_norm();
            self.masses[i] * (self.specific_internal_energy[i] + kinetic)
        };
        (momentum, (0..self.masses.len()).map(energy).collect())
    }
}

fn global_hydro_courant_timestep_2d(
    state: &State,
    rates: &Rates,
    courant_factor: f64,
) -> Outcome<f64> {
    hydro_evolution_2d::validate_courant_inputs(&state.bits(), rates.lengths(), b(courant_factor))?;
    let primitive = state.primitive_columns()?;
    let candidate = |(i, &density): (usize, &f64)| {
        let particle_size = (state.masses[i] / density).sqrt();
        b(courant_factor * particle_size / (0.5 * rates.maximum_signal_speed[i]))
    };
    let candidates: Vec<_> = primitive.density.iter().enumerate().map(candidate).collect();
    Ok(f(hydro_evolution_2d::global_hydro_courant_timestep_2d(&candidates)?))
}

fn quantize_public_hydro_initial_timebins_2d(
    bounds: &[PublicHydroTimestepBounds2d],
    time_begin: f64,
    time_max: f64,
    maximum_timestep: f64,
) -> Outcome<Vec<PublicHydroInitialTimebin2d>> {
    let tick_duration = (time_max - time_begin) / gizmo_hydro::LEGACY_TIMEBASE_TICKS as f64;
    let selected: Vec<f64> = bounds.iter().map(|bound| bound.selected).collect();
    let requested: Vec<f64> = selected
        .iter()
        .map(|&step| (step.min(maximum_timestep) / tick_duration).trunc())
        .collect();
    let steps = hydro_evolution_2d::quantize_public_hydro_initial_timebins_2d(
        &bs(&selected),
        &bs(&requested),
        b(time_begin),
        b(time_max),
        b(maximum_timestep),
    )?;
    let timed = |step: hydro_evolution_2d::QuantizedStep| PublicHydroInitialTimebin2d {
        bounded_timestep: f(step.bounded_timestep),
        raw_ticks: step.raw_ticks,
        ticks: step.ticks,
        time_bin: step.time_bin,
        duration: step.ticks as f64 * tick_duration,
    };
    Ok(steps.into_iter().map(timed).collect())
}

fn euler_mfm_flux_2d(
    left: Euler,
    right: Euler,
    unit_normal: Vector2,
    interface_velocity: Vector3,
    gamma: f64,
    pressure_limit: f64,
) -> Outcome<EulerMfmFlux2d> {
    let normal_length = unit_normal.norm();
    hydro_evolution_2d::validate_planar_face(
        left.bits(),
        right.bits(),
        unit_normal.bits(),
        b(normal_length),
        b((normal_length - 1.0).abs()),
        b(128.0 * f64::EPSILON),
        interface_velocity.bits(),
    )?;
    let relative = |state: Euler| Euler {
        velocity: state.velocity - interface_velocity,
        ..state
    };
    let mut flux =
        vector_mfm_flux(relative(left), relative(right), unit_normal, gamma, pressure_limit)?;
    flux.total_energy += interface_velocity.dot(flux.momentum);
    hydro_evolution_2d::validate_face_flux(b(flux.mass), flux.momentum.bits(), b(flux.total_energy))?;
    Ok(flux)
}

fn vector_mfm_flux(
    left: Euler,
    right: Euler,
    unit_normal: Vector2,
    gamma: f64,
    pressure_limit: f64,
) -> Outcome<EulerMfmFlux2d> {
    let normal = Vector3::new(unit_normal.x, unit_normal.y, 0.0);
    let line = |state: Euler| PrimitiveState1d {
        density: state.density,
        velocity: planar_dot(state.velocity, unit_normal),
        pressure: state.pressure,
    };
    let problem = planar_interface(left, right, line(left), line(right), normal, gamma);
    let Interface { left: scalar_left, right: scalar_right, sound_left, sound_right, .. } = problem;
    let velocity_jump = scalar_right.velocity - scalar_left.velocity;
    let threshold = 2.0 * (sound_left + sound_right) / (gamma - 1.0);
    let limit = b(pressure_limit);
    if riemann::open_flux(b(velocity_jump), b(threshold), b(MIN_REAL_NUMBER), limit)
        != FluxOpening::Waves
    {
        let flux = ideal_gas_mfm_flux_1d(scalar_left, scalar_right, gamma, pressure_limit)?;
        return along_normal(flux, normal);
    }
    let forced = || {
        let flux = ideal_gas_mfm_flux_1d(scalar_left, scalar_right, gamma, MIN_REAL_NUMBER)?;
        along_normal(flux, normal)
    };
    let (star_pressure, contact_speed, decision) = problem.resolve_contact(pressure_limit);
    match decision {
        ContactDecision::Accept => {
            return Ok(EulerMfmFlux2d {
                mass: 0.0,
                momentum: normal * star_pressure,
                total_energy: star_pressure * contact_speed,
                star_pressure,
                solver_speed: contact_speed,
                method: RiemannMethod::Hllc,
            });
        }
        ContactDecision::NeedsExact => return forced(),
        ContactDecision::NeedsKt | ContactDecision::Try(_) => {}
    }
    let Some(central) = problem.central() else {
        return forced();
    };
    let star_pressure = central.star_pressure;
    let mut flux = EulerMfmFlux2d {
        mass: 0.0,
        momentum: Vector3::ZERO,
        total_energy: 0.0,
        star_pressure,
        solver_speed: central.signal_speed,
        method: RiemannMethod::KurganovTadmor,
    };
    match riemann::decide_central_2d(b(star_pressure), limit) {
        CentralDecision::NeedsExact => return forced(),
        CentralDecision::ZeroFlux => return Ok(flux),
        CentralDecision::Flux => {}
    }
    let Central { alpha, diffusion_speed, signal_speed, denominator, energy, .. } = central;
    flux.momentum = (right.velocity - left.velocity) * (central.weighted_product * denominator)
        + normal * star_pressure;
    flux.total_energy = energy;
    hydro_evolution_2d::validate_central_flux(
        &bs(&[alpha, diffusion_speed, signal_speed, denominator, energy, star_pressure]),
        flux.momentum.bits(),
    )?;
    Ok(flux)
}

fn planar_interface(
    left: Euler,
    right: Euler,
    scalar_left: PrimitiveState1d,
    scalar_right: PrimitiveState1d,
    normal: Vector3,
    gamma: f64,
) -> Interface {
    let enthalpy = |state: Euler| {
        state.pressure / state.density
            + state.pressure / ((gamma - 1.0) * state.density)
            + 0.5 * state.velocity.squared_norm()
    };
    let (enthalpy_left, enthalpy_right) = (enthalpy(left), enthalpy(right));
    let (root_left, root_right) = (left.density.sqrt(), right.density.sqrt());
    let inverse_sum = (root_left + root_right).recip();
    let velocity = (left.velocity * root_left + right.velocity * root_right) * inverse_sum;
    let roe_enthalpy = (root_left * enthalpy_left + root_right * enthalpy_right) * inverse_sum;
    let momentum_jump = right.velocity * right.density - left.velocity * left.density;
    Interface {
        enthalpy_left,
        enthalpy_right,
        roe_velocity: velocity.dot(normal),
        roe_sound: ((gamma - 1.0) * (roe_enthalpy - 0.5 * velocity.squared_norm()).max(1.0e-30))
            .sqrt(),
        momentum_jump_squared: momentum_jump.squared_norm(),
        ..Interface::new(scalar_left, scalar_right, gamma)
    }
}

fn along_normal(flux: MfmFlux1d, normal: Vector3) -> Outcome<EulerMfmFlux2d> {
    hydro_evolution_2d::validate_forced_method(flux.method)?;
    Ok(EulerMfmFlux2d {
        mass: flux.mass,
        momentum: normal * flux.momentum,
        total_energy: flux.energy,
        star_pressure: flux.star_pressure,
        solver_speed: flux.solver_speed,
        method: flux.method,
    })
}

fn planar_dot(vector: Vector3, direction: Vector2) -> f64 {
    vector.x.mul_add(direction.x, vector.y * direction.y)
}

fn planar(vector: Vector3) -> Vector2 {
    Vector2::new(vector.x, vector.y)
}

#[derive(Clone, Debug, PartialEq)]
struct PrimitiveGradients2d {
    density: Vec<Vector2>,
    pressure: Vec<Vector2>,
    velocity: [Vec<Vector2>; 3],
}

#[derive(Clone, Copy)]
struct Fields<'a> {
    state: &'a State,
    cache: &'a Prepared,
}

struct PairRates {
    momentum: Vector3,
    energy: f64,
    signal: f64,
    entropic: bool,
    method: RiemannMethod,
}

impl Fields<'_> {
    fn sound(&self, i: usize) -> f64 {
        (self.state.gamma * self.cache.primitive.pressure[i] / self.cache.primitive.density[i]).sqrt()
    }

    fn pair(&self, i: usize, j: usize) -> Outcome<PairRates> {
        let state = self.state;
        let point = |i: usize| MeshlessPoint2d {
            position: state.positions[i],
            mass: state.masses[i],
            density: self.cache.primitive.density[i],
            smoothing_length: state.smoothing_lengths[i],
            inverse_moment: self.cache.moments[i].matrix,
            condition_number: self.cache.moments[i].condition_number,
        };
        let face = meshless_face_geometry_2d(point(i), point(j), state.domain)?;
        let displacement = state.domain.displacement(state.positions[i], state.positions[j])?;
        let radial = displacement / displacement.norm();
        let flux = self.solve_pair(i, j, face, radial)?;
        let (energy, entropic) = self.pair_energy(i, j, flux, face, displacement)?;
        let approach = planar_dot(state.velocities[i] - state.velocities[j], radial).min(0.0);
        Ok(PairRates {
            momentum: flux.momentum * face.area,
            energy,
            signal: self.sound(i) + self.sound(j) - approach,
            entropic,
            method: flux.method,
        })
    }

    fn at(&self, i: usize) -> Euler {
        Euler {
            density: self.cache.primitive.density[i],
            velocity: self.state.velocities[i],
            pressure: self.cache.primitive.pressure[i],
        }
    }

    fn closure_leak(&self, i: usize, j: usize) -> f64 {
        0.5 * (self.cache.closure[i].legacy_dimensionless_leak
            + self.cache.closure[j].legacy_dimensionless_leak)
    }

    fn solve_pair(
        &self,
        i: usize,
        j: usize,
        face: MeshlessFace2d,
        radial: Vector2,
    ) -> Outcome<EulerMfmFlux2d> {
        let (p, q) = (self.at(i), self.at(j));
        let interface_velocity = (p.velocity + q.velocity) * 0.5;
        let n = face.unit_normal;
        let difference = p.velocity - q.velocity;
        let face_approach = planar_dot(difference, n).min(0.0);
        let approach = face_approach.min(0.0).min(planar_dot(difference, radial).min(0.0));
        let limit = |state: Euler| state.pressure + state.density * (approach * approach);
        let pressure_limit = 1.1 * limit(p).max(limit(q));
        hydro_evolution_2d::validate_pair_pressure_limit(b(pressure_limit))?;
        let solve = |left: Euler, right: Euler, limit: f64| {
            euler_mfm_flux_2d(left, right, n, interface_velocity, self.state.gamma, limit)
        };
        let quiet = |state: Euler| Euler {
            velocity: interface_velocity,
            ..state
        };
        let mut path = riemann::first_attempt(b(self.closure_leak(i, j)));
        loop {
            let solved = match path {
                PairSolvePath::Reconstructed => {
                    let (left, right) =
                        self.reconstruct(j, i, face.offset_from_j, face.offset_from_i);
                    solve(left, right, pressure_limit)
                }
                PairSolvePath::Centered => solve(q, p, 1.4 * pressure_limit),
                PairSolvePath::ZeroRelativeVelocity => {
                    solve(quiet(q), quiet(p), 2.0 * pressure_limit)
                }
            };
            let star = solved.as_ref().ok().map(|flux| b(flux.star_pressure));
            match riemann::decide_pair(path, star, b(1.4 * pressure_limit)) {
                PairDecision::Retry(next) => path = next,
                PairDecision::Accept | PairDecision::Fail => return solved,
            }
        }
    }

    fn reconstruct(
        &self,
        left: usize,
        right: usize,
        offset_left: Vector2,
        offset_right: Vector2,
    ) -> (Euler, Euler) {
        let (p, q) = (self.at(left), self.at(right));
        let field = |value_left: f64, value_right: f64, gradients: &[Vector2]| {
            face_values(
                (value_left, gradients[left].dot(offset_left)),
                (value_right, gradients[right].dot(offset_right)),
            )
        };
        let density = field(p.density, q.density, &self.cache.gradients.density);
        let pressure = field(p.pressure, q.pressure, &self.cache.gradients.pressure);
        let x = field(p.velocity.x, q.velocity.x, &self.cache.gradients.velocity[0]);
        let y = field(p.velocity.y, q.velocity.y, &self.cache.gradients.velocity[1]);
        let z = field(p.velocity.z, q.velocity.z, &self.cache.gradients.velocity[2]);
        let state = |density, x, y, z, pressure| Euler {
            density,
            velocity: Vector3::new(x, y, z),
            pressure,
        };
        (
            state(density.0, x.0, y.0, z.0, pressure.0),
            state(density.1, x.1, y.1, z.1, pressure.1),
        )
    }

    fn pair_energy(
        &self,
        i: usize,
        j: usize,
        flux: EulerMfmFlux2d,
        face: MeshlessFace2d,
        displacement: Vector2,
    ) -> Outcome<(f64, bool)> {
        let (state, primitive) = (self.state, &self.cache.primitive);
        let raw_energy = flux.total_energy * face.area;
        let face_velocity_i = planar_dot(state.velocities[i], face.unit_normal);
        let face_velocity_j = planar_dot(state.velocities[j], face.unit_normal);
        let face_velocity = 0.5 * (face_velocity_i + face_velocity_j);
        let speed_ratio = flux.solver_speed.abs() / self.sound(i).min(self.sound(j));
        if hydro_evolution_2d::keeps_raw_energy(b(speed_ratio), b(self.closure_leak(i, j))) {
            return Ok((raw_energy, false));
        }
        let distance = displacement.norm();
        let radial = displacement / distance;
        let pressure_area = flux.star_pressure * face.area;
        let pdv_factor =
            flux.star_pressure * planar_dot(state.velocities[i] - state.velocities[j], radial);
        let pdv = |i: usize| -> Outcome<f64> {
            let kernel = cubic_kernel_2d(distance, state.smoothing_lengths[i])?;
            let volume = state.masses[i] / primitive.density[i];
            Ok(kernel.radial_derivative * volume * volume * primitive.dhsml_factor[i] * pdv_factor)
        };
        let old_energy = pressure_area * (flux.solver_speed + face_velocity);
        let new_energy =
            0.5 * (pdv(i)? - pdv(j)? + pressure_area * (face_velocity_i + face_velocity_j));
        hydro_evolution_2d::validate_candidate_energies(i, b(old_energy), b(new_energy))?;
        let condition = |i: usize| self.cache.moments[i].condition_number.powi(2);
        let temperature = |i: usize| primitive.pressure[i] / primitive.density[i];
        let entropic = prefers_entropic(
            speed_ratio,
            (condition(i), condition(j)),
            (temperature(i), temperature(j)),
            (old_energy, new_energy),
            (pressure_area * face_velocity_i, pressure_area * face_velocity_j),
        );
        let energy = if entropic { raw_energy + new_energy - old_energy } else { raw_energy };
        hydro_evolution_2d::validate_pair_energy(i, b(energy))?;
        Ok((energy, entropic))
    }
}

fn face_values((value_i, change_i): (f64, f64), (value_j, change_j): (f64, f64)) -> (f64, f64) {
    if b(value_i).equals(b(value_j)) {
        return (value_i, value_i);
    }
    let bounds = face_bounds(value_i, value_j, 0.5, 0.375);
    assert!(bounds.is_proper(), "face bounds are out of order");
    let raw = riemann::FaceStates1d { left: b(value_j + change_j), right: b(value_i + change_i) };
    let states = riemann::bound_face_states(b(value_i), b(value_j), raw, bounds);
    (f(states.right), f(states.left))
}

fn primitive_gradients(
    state: &State,
    primitive: &Columns,
    moments: &[InverseMoment2d],
) -> Outcome<PrimitiveGradients2d> {
    let component = |pick: fn(&Vector3) -> f64| state.velocities.iter().map(pick).collect();
    let x: Vec<f64> = component(|velocity| velocity.x);
    let y: Vec<f64> = component(|velocity| velocity.y);
    let z: Vec<f64> = component(|velocity| velocity.z);
    let fields: [&[f64]; 5] = [&primitive.density, &primitive.pressure, &x, &y, &z];
    let hsml = &state.smoothing_lengths;
    let raw =
        scalar_gradients_batch_with_moments_2d(&state.positions, &fields, hsml, state.domain, moments)?;
    let pairs = interacting_pairs_2d(&state.positions, hsml, state.domain)?;
    let indices: Vec<(usize, usize)> = pairs.iter().map(|pair| (pair.i, pair.j)).collect();
    let distances: Vec<f64> = pairs.iter().map(|pair| pair.distance).collect();
    let farthest =
        extremes::raise_by_pairs(&vec![b(0.0); hsml.len()], &indices, &bs(&distances));
    let limit = |field: usize, positive: bool, tolerance: f64| -> Vec<Vector2> {
        let values = fields[field];
        let deltas: Vec<f64> = indices.iter().map(|&(i, j)| values[j] - values[i]).collect();
        let extent = extremes::delta_extremes(hsml.len(), &indices, &bs(&deltas));
        let limited = |i: usize| {
            let gradient = raw[field][i];
            let condition = moments[i].condition_number;
            let grown = 0.25 + 0.25 * (condition - 100.0) / 100.0;
            let fraction = f(extremes::limiter_fraction(b(condition), b(grown)));
            let length = hsml[i].max(f(farthest[i]));
            let (minimum, maximum) = (f(extent.minima[i]), f(extent.maxima[i]));
            let (allowed, floor) = slope_bounds(values[i], minimum, maximum, tolerance);
            let magnitude = gradient.norm();
            let correction = b(allowed / (fraction * length * magnitude));
            let positivity = positive.then(|| b((values[i] - floor) / (length * magnitude)));
            match extremes::local_slope_limiter(b(magnitude), correction, positivity) {
                SlopeLimit::Keep => gradient,
                SlopeLimit::Scale(factor) => gradient * f(factor),
            }
        };
        (0..values.len()).map(limited).collect()
    };
    Ok(PrimitiveGradients2d {
        density: limit(0, true, 0.0),
        pressure: limit(1, true, 0.1),
        velocity: [limit(2, false, 0.1), limit(3, false, 0.1), limit(4, false, 0.1)],
    })
}

#[derive(Clone, Debug, PartialEq)]
struct Prepared {
    primitive: Columns,
    moments: Vec<InverseMoment2d>,
    closure: Vec<FaceClosure2d>,
    gradients: PrimitiveGradients2d,
}

impl Prepared {
    fn new(state: &State) -> Outcome<Self> {
        let State { positions, masses, smoothing_lengths, domain, .. } = state;
        let primitive = state.primitive_columns()?;
        let moments = inverse_moments_2d(positions, smoothing_lengths, *domain)?;
        let closure = face_closure_diagnostics_2d(positions, masses, smoothing_lengths, *domain)?;
        let gradients = primitive_gradients(state, &primitive, &moments)?;
        Ok(Self { primitive, moments, closure, gradients })
    }
}

fn hydro_mfm_spatial_rates_2d(state: &State) -> Outcome<Rates> {
    state.validate()?;
    let prepared = Prepared::new(state)?;
    let fields = Fields { state, cache: &prepared };
    let State { positions, smoothing_lengths, domain, .. } = state;
    let velocities: Vec<Vector2> = state.velocities.iter().copied().map(planar).collect();
    let count = positions.len();
    let mut rates = Rates::zero(count);
    rates.velocity_divergence = particle_divergence_at_hsml_2d(
        positions,
        &velocities,
        smoothing_lengths,
        &prepared.primitive.dhsml_factor,
        *domain,
    )?;
    let pairs = interacting_pairs_2d(positions, smoothing_lengths, *domain)?;
    let (mut indices, mut signals, mut methods) = (vec![], vec![], vec![]);
    let (mut forces, mut powers) = (vec![], vec![]);
    for pair in &pairs {
        let term = fields.pair(pair.i, pair.j)?;
        forces.push(term.momentum);
        powers.push(term.energy);
        rates.entropic_pair_count += usize::from(term.entropic);
        indices.push((pair.i, pair.j));
        signals.push(term.signal);
        methods.push(term.method);
    }
    let incidence = pair_incidence(&indices, count);
    rates.momentum = gather(&incidence, Vector3::ZERO, &forces);
    rates.total_energy = gather(&incidence, 0.0, &powers);
    let at_rest: Vec<f64> = (0..count).map(|i| fields.sound(i)).collect();
    let raised = extremes::raise_by_pairs(&bs(&at_rest), &indices, &bs(&signals));
    rates.maximum_signal_speed = raised.into_iter().map(f).collect();
    rates.pair_count = pairs.len();
    rates.count_methods(&methods);
    for i in 0..count {
        let inverse_mass = 1.0 / state.masses[i];
        rates.acceleration[i] = rates.momentum[i] * inverse_mass;
        rates.specific_internal_energy[i] = (rates.total_energy[i]
            - state.velocities[i].dot(rates.momentum[i]))
            * inverse_mass;
        let internal_rate = b(rates.specific_internal_energy[i]);
        hydro_evolution_2d::validate_primitive_rate(i, rates.acceleration[i].bits(), internal_rate)?;
    }
    Ok(rates)
}

fn hydro_mfm_directed_spatial_rates_2d(state: &State) -> Outcome<Rates> {
    state.validate()?;
    let prepared = Prepared::new(state)?;
    let count = state.positions.len();
    let retained = Rates::zero(count);
    Ok(active_target_rates(Fields { state, cache: &prepared }, &retained, &vec![true; count])?.rates)
}

#[derive(Debug, PartialEq)]
struct TargetBatch {
    target: usize,
    momentum: Vector3,
    total_energy: f64,
    maximum_signal_speed: f64,
    wakeup_neighbors: Vec<usize>,
    entropic_pair_count: usize,
    methods: Vec<RiemannMethod>,
}

fn evaluate_target(
    fields: Fields<'_>,
    retained: &Rates,
    active: &[bool],
    target: usize,
    neighbors: &[(usize, usize)],
) -> Result<TargetBatch, (usize, HydroEvolution2dError)> {
    let mut batch = TargetBatch {
        target,
        momentum: Vector3::ZERO,
        total_energy: 0.0,
        maximum_signal_speed: fields.sound(target),
        wakeup_neighbors: Vec::new(),
        entropic_pair_count: 0,
        methods: Vec::new(),
    };
    for &(neighbor, ordinal) in neighbors {
        let term = fields.pair(target, neighbor).map_err(|error| (ordinal, error))?;
        batch.momentum = batch.momentum + term.momentum;
        batch.total_energy += term.energy;
        batch.maximum_signal_speed = batch.maximum_signal_speed.max(term.signal);
        batch.entropic_pair_count += usize::from(term.entropic);
        batch.methods.push(term.method);
        let threshold = 4.1 * retained.maximum_signal_speed[neighbor];
        if hydro_evolution_2d::asks_for_wakeup(active[neighbor], b(term.signal), b(threshold)) {
            batch.wakeup_neighbors.push(neighbor);
        }
    }
    Ok(batch)
}

fn evaluate_targets(
    fields: Fields<'_>,
    retained: &Rates,
    active: &[bool],
    pairs: &[InteractionPair2d],
    requested_workers: usize,
) -> Outcome<Vec<TargetBatch>> {
    let indices: Vec<(usize, usize)> = pairs.iter().map(|pair| (pair.i, pair.j)).collect();
    let neighbors = directed_neighbors(&indices, active);
    let chunks = batches::target_chunks(&batches::active_targets(active), requested_workers);
    let mut results = Vec::new();
    for chunk in chunks {
        for target in chunk {
            results.push(evaluate_target(fields, retained, active, target, &neighbors[target]));
        }
    }
    let ordinals: Vec<Option<usize>> =
        results.iter().map(|result| result.as_ref().err().map(|failure| failure.0)).collect();
    match batches::earliest_failure(&ordinals) {
        Some(at) => Err(results.swap_remove(at).err().expect("the entry is a failure").1),
        None => Ok(results.into_iter().flatten().collect()),
    }
}

fn active_target_rates(
    fields: Fields<'_>,
    retained: &Rates,
    active: &[bool],
) -> Outcome<PublicHydroActiveRateResult2d> {
    let Fields { state, cache: Prepared { primitive, moments, closure, .. } } = fields;
    let columns = ForceLengths2d {
        active_mask: active.len(),
        primitive: primitive.lengths(),
        inverse_moments: moments.len(),
        face_closure: closure.len(),
    };
    validate_force_inputs(&state.bits(), retained.lengths(), columns)?;
    let State { positions, smoothing_lengths, domain, .. } = state;
    let velocities: Vec<Vector2> = state.velocities.iter().copied().map(planar).collect();
    let divergence = particle_divergence_at_hsml_for_targets_2d(
        positions,
        &velocities,
        smoothing_lengths,
        &primitive.dhsml_factor,
        *domain,
        active,
    )?;
    let pairs = interacting_pairs_for_targets_2d(positions, smoothing_lengths, *domain, active)?;
    let mut rates = Rates::zero(active.len());
    let (mut methods, mut woken) = (Vec::new(), Vec::new());
    for batch in evaluate_targets(fields, retained, active, &pairs, 3)? {
        let i = batch.target;
        rates.momentum[i] = batch.momentum;
        rates.total_energy[i] = batch.total_energy;
        rates.maximum_signal_speed[i] = batch.maximum_signal_speed;
        rates.acceleration[i] = batch.momentum / state.masses[i];
        rates.specific_internal_energy[i] =
            (batch.total_energy - state.velocities[i].dot(batch.momentum)) / state.masses[i];
        rates.pair_count += batch.methods.len();
        rates.entropic_pair_count += batch.entropic_pair_count;
        methods.extend(batch.methods);
        woken.extend(batch.wakeup_neighbors);
    }
    rates.count_methods(&methods);
    let keep = |fresh: &[f64], old: &[f64]| commit_active(active, fresh, old);
    rates.momentum = commit_active(active, &rates.momentum, &retained.momentum);
    rates.total_energy = keep(&rates.total_energy, &retained.total_energy);
    rates.acceleration = commit_active(active, &rates.acceleration, &retained.acceleration);
    rates.specific_internal_energy =
        keep(&rates.specific_internal_energy, &retained.specific_internal_energy);
    rates.maximum_signal_speed = keep(&rates.maximum_signal_speed, &retained.maximum_signal_speed);
    rates.velocity_divergence = keep(&divergence, &retained.velocity_divergence);
    Ok(PublicHydroActiveRateResult2d { rates, wakeup: batches::mark_wakeups(active.len(), &woken) })
}

fn advance_hydro_kdk_2d(
    state: &State,
    old_rates: &Rates,
    timestep: f64,
    minimum_specific_internal_energy: f64,
) -> Outcome<HydroKdkResult2d> {
    advance_kdk(state, old_rates, timestep, minimum_specific_internal_energy, None)
}

fn advance_hydro_kdk_adaptive_2d(
    state: &State,
    old_rates: &Rates,
    timestep: f64,
    minimum_specific_internal_energy: f64,
    desired_neighbors: f64,
    neighbor_tolerance: f64,
) -> Outcome<HydroKdkResult2d> {
    let adaptive = Some((desired_neighbors, neighbor_tolerance));
    advance_kdk(state, old_rates, timestep, minimum_specific_internal_energy, adaptive)
}

fn advance_kdk(
    state: &State,
    old_rates: &Rates,
    timestep: f64,
    floor: f64,
    adaptive: Option<(f64, f64)>,
) -> Outcome<HydroKdkResult2d> {
    hydro_evolution_2d::validate_kdk_inputs(&state.bits(), old_rates.lengths(), b(timestep), b(floor))?;
    let (momentum, total_energy) = state.extensive();
    let half = 0.5 * timestep;
    let half_momentum = kick_vectors(&momentum, &old_rates.momentum, half);
    let half_energy = kick_scalars(&total_energy, &old_rates.total_energy, half);
    let mut moved = state.clone();
    for i in 0..moved.positions.len() {
        let velocity = half_momentum[i] / state.masses[i];
        let drifted = state.positions[i] + planar(velocity) * timestep;
        moved.positions[i] = state.domain.wrap(drifted)?;
    }
    if let Some((desired, tolerance)) = adaptive {
        let solved = solve_public_c_smoothing_lengths_from_seeds_2d(
            &moved.positions,
            &state.masses,
            &state.smoothing_lengths,
            state.domain,
            desired,
            tolerance,
        )?;
        moved.smoothing_lengths = solved.iter().map(|value| value.smoothing_length).collect();
    }
    let half_state = recover(moved, &half_momentum, &half_energy, floor)?;
    let rates = hydro_mfm_spatial_rates_2d(&half_state)?;
    let momentum = kick_vectors(&half_momentum, &rates.momentum, half);
    let energy = kick_scalars(&half_energy, &rates.total_energy, half);
    Ok(HydroKdkResult2d { state: recover(half_state, &momentum, &energy, floor)?, rates })
}

fn recover(
    mut state: State,
    momentum: &[Vector3],
    total_energy: &[f64],
    floor: f64,
) -> Outcome<State> {
    hydro_evolution_2d::validate_conserved_lengths(state.masses.len(), momentum.len(), total_energy.len())?;
    for i in 0..state.masses.len() {
        let velocity = momentum[i] / state.masses[i];
        state.velocities[i] = velocity;
        state.specific_internal_energy[i] =
            total_energy[i] / state.masses[i] - 0.5 * velocity.squared_norm();
    }
    hydro_evolution_2d::validate_recovered_energies(&bs(&state.specific_internal_energy), b(floor))?;
    state.validate()?;
    Ok(state)
}

fn kick_vectors(values: &[Vector3], rates: &[Vector3], duration: f64) -> Vec<Vector3> {
    values.iter().zip(rates).map(|(&value, &rate)| value + rate * duration).collect()
}

fn kick_scalars(values: &[f64], rates: &[f64], duration: f64) -> Vec<f64> {
    values.iter().zip(rates).map(|(&value, &rate)| rate.mul_add(duration, value)).collect()
}

/// Carry out pending wakeups: the rescheduled timeline, at the same tick and of the same
/// length, and what was rescheduled.
type Wakeups<'a> = &'a dyn Fn(
    &IndividualParticleTimeline,
    &[bool],
) -> Result<
    (IndividualParticleTimeline, Vec<WakeupTransition>),
    IndividualTimelineError,
>;

#[derive(Clone, Debug, PartialEq)]
struct PublicHydroDriftState2d {
    positions: Vec<Vector2>,
    actual_velocities: Vec<Vector3>,
    predicted_velocities: Vec<Vector3>,
    predicted_specific_internal_energy: Vec<f64>,
    predicted_density: Vec<f64>,
    predicted_smoothing_lengths: Vec<f64>,
}

#[derive(Clone, Debug, PartialEq)]
struct PublicHydroHierarchySync2d {
    tick: u64,
    time: f64,
    active: Vec<bool>,
    drift: PublicHydroDriftState2d,
}

#[derive(Clone, Debug, PartialEq)]
struct PublicHydroHierarchyKickResult2d {
    state: State,
    rates: Rates,
    wakeup: Vec<bool>,
}

#[derive(Clone, Debug, PartialEq)]
struct PublicHydroInitialHierarchy2d {
    phases: hierarchy_2d::PublicHydroInitialHierarchy2d,
    start: State,
    old_rates: Rates,
    actual_internal_energy: Vec<f64>,
    drift: PublicHydroDriftState2d,
    cache: Prepared,
    floor: f64,
}

fn begin_public_hydro_initial_hierarchy_2d(
    state: &State,
    old_rates: &Rates,
    timebins: &[PublicHydroInitialTimebin2d],
    time_begin: f64,
    time_max: f64,
    minimum_specific_internal_energy: f64,
) -> Outcome<PublicHydroInitialHierarchy2d> {
    let tick_duration = (time_max - time_begin) / LEGACY_TIMEBASE_TICKS as f64;
    let requested: Vec<f64> =
        timebins.iter().map(|bin| (bin.bounded_timestep / tick_duration).trunc()).collect();
    let durations: Vec<f64> =
        timebins.iter().map(|bin| tick_duration * bin.ticks as f64).collect();
    let floor = minimum_specific_internal_energy;
    let phases = hierarchy_2d::begin_public_hydro_initial_hierarchy_2d(
        &state.bits(),
        old_rates.lengths(),
        &bs(timebins),
        &bs(&requested),
        &bs(&durations),
        b(time_begin),
        b(time_max),
        b(floor),
    )?;
    let cache = Prepared::new(state)?;
    let mut hierarchy = PublicHydroInitialHierarchy2d {
        phases,
        start: state.clone(),
        old_rates: old_rates.clone(),
        actual_internal_energy: state.specific_internal_energy.clone(),
        drift: PublicHydroDriftState2d {
            positions: state.positions.clone(),
            actual_velocities: state.velocities.clone(),
            predicted_velocities: state.velocities.clone(),
            predicted_specific_internal_energy: state.specific_internal_energy.clone(),
            predicted_density: cache.primitive.density.clone(),
            predicted_smoothing_lengths: state.smoothing_lengths.clone(),
        },
        cache,
        floor,
    };
    hierarchy.half_kick(&vec![true; state.positions.len()])?;
    Ok(hierarchy)
}

impl PublicHydroInitialHierarchy2d {
    fn current_tick(&self) -> u64 {
        self.phases.current_tick()
    }

    fn current_time(&self) -> f64 {
        self.phases.timeline().current_time()
    }

    fn duration(&self, ticks: u64) -> f64 {
        self.phases.timeline().duration_for_ticks(ticks)
    }

    fn now(&self) -> Binary64 {
        b(self.current_time())
    }

    fn active_mask(&self) -> Vec<bool> {
        self.phases.active_mask()
    }

    fn physical_time(&self, tick: u64) -> Result<Binary64, IndividualTimelineError> {
        if tick > LEGACY_TIMEBASE_TICKS {
            return Err(IndividualTimelineError::BeyondTimelineEnd);
        }
        Ok(b(self.phases.timeline().time_at(tick)))
    }

    fn prepare_next_drift(
        &mut self,
        active_bounds: &[Option<f64>],
        wakeups: Wakeups<'_>,
    ) -> Outcome<u64> {
        let mut next = self.clone();
        next.prepare_first_kicks(active_bounds, Some(wakeups))?;
        let tick = next.phases.next_sync_tick()?;
        *self = next;
        Ok(tick)
    }

    fn drift_prepared_to_output_tick(
        &mut self,
        output_tick: u64,
    ) -> Outcome<PublicHydroDriftState2d> {
        let mut next = self.clone();
        let time = next.physical_time(output_tick);
        next.phases.check_output_drift(output_tick, time, next.now())?;
        for i in 0..next.start.positions.len() {
            next.drift_particle(i, output_tick)?;
        }
        *self = next;
        Ok(self.drift.clone())
    }

    fn finish_prepared_next_sync(&mut self) -> Outcome<PublicHydroHierarchySync2d> {
        let mut next = self.clone();
        let sync = next.arrive()?;
        *self = next;
        Ok(sync)
    }

    fn arrive(&mut self) -> Outcome<PublicHydroHierarchySync2d> {
        let now = self.now();
        let arriving = self.phases.open_next_sync(now)?;
        self.drift_selected(&arriving)?;
        self.phases.close_next_sync();
        Ok(self.sync(arriving))
    }

    fn predictor_ticks(&self) -> &[u64] {
        self.phases.predictor_ticks()
    }

    fn drift_to_first_sync(&mut self) -> Outcome<PublicHydroHierarchySync2d> {
        let now = self.now();
        let arriving = self.phases.open_first_sync(now)?;
        self.drift_selected(&arriving)?;
        self.phases.close_first_sync();
        Ok(self.sync(arriving))
    }

    fn drift_selected(&mut self, selected: &[bool]) -> Outcome<()> {
        for (i, &wanted) in selected.iter().enumerate() {
            if wanted {
                self.drift_particle(i, self.current_tick())?;
            }
        }
        Ok(())
    }

    fn state_with(
        &self,
        velocities: &[Vector3],
        specific_internal_energy: &[f64],
    ) -> Outcome<State> {
        let state = State {
            positions: self.drift.positions.clone(),
            masses: self.start.masses.clone(),
            velocities: velocities.to_vec(),
            specific_internal_energy: specific_internal_energy.to_vec(),
            smoothing_lengths: self.drift.predicted_smoothing_lengths.clone(),
            domain: self.start.domain,
            gamma: self.start.gamma,
        };
        state.validate()?;
        Ok(state)
    }

    fn predicted_state(&self) -> Outcome<State> {
        let drift = &self.drift;
        self.state_with(&drift.predicted_velocities, &drift.predicted_specific_internal_energy)
    }

    fn search_state(&self) -> Outcome<State> {
        let mut state = self.predicted_state()?;
        for (i, lag) in self.phases.search_lags(self.now())?.into_iter().enumerate() {
            if lag != 0 {
                let segment = self.duration(lag);
                let moved = state.positions[i] + planar(self.drift.actual_velocities[i]) * segment;
                state.positions[i] = state.domain.wrap(moved)?;
                state.smoothing_lengths[i] *= (0.5 * self.expansion(i, segment)).exp();
            }
        }
        state.validate()?;
        Ok(state)
    }

    fn expansion(&self, i: usize, segment: f64) -> f64 {
        (self.old_rates.velocity_divergence[i] * segment).clamp(-0.3, 0.3)
    }

    fn required_neighbors(&self, active: &[bool]) -> Outcome<Vec<bool>> {
        let State { positions, smoothing_lengths, domain, .. } = self.search_state()?;
        let pairs =
            interacting_pairs_for_targets_2d(&positions, &smoothing_lengths, domain, active)?;
        let indices: Vec<(usize, usize)> = pairs.iter().map(|pair| (pair.i, pair.j)).collect();
        Ok(required_active_neighbors(active, &indices))
    }

    fn refresh_arriving_active_caches(
        &mut self,
        desired_neighbors: f64,
        neighbor_tolerance: f64,
    ) -> Outcome<()> {
        let now = self.now();
        let active = self.phases.open_refresh(now)?;
        for pass in 0.. {
            let required = self.required_neighbors(&active)?;
            self.drift_selected(&required)?;
            let mut state = self.search_state()?;
            let before = bs(&state.smoothing_lengths);
            self.refresh_cache(&mut state, &active, desired_neighbors, neighbor_tolerance)?;
            let drift = &mut self.drift;
            drift.predicted_density = hierarchy_2d::commit_active(
                &active,
                &self.cache.primitive.density,
                &drift.predicted_density,
            );
            drift.predicted_smoothing_lengths = hierarchy_2d::commit_active(
                &active,
                &state.smoothing_lengths,
                &drift.predicted_smoothing_lengths,
            );
            let after = bs(&state.smoothing_lengths);
            let required = self.required_neighbors(&active)?;
            if self.phases.judge_refresh(pass, &before, &after, &required, now)? == RefreshStep::Done
            {
                break;
            }
        }
        Ok(())
    }

    fn refresh_cache(
        &mut self,
        state: &mut State,
        active: &[bool],
        desired_neighbors: f64,
        neighbor_tolerance: f64,
    ) -> Outcome<()> {
        let Prepared { primitive, moments, closure, gradients } = &mut self.cache;
        let columns = CacheLengths2d {
            active_mask: active.len(),
            primitive: primitive.lengths(),
            gradient_density: gradients.density.len(),
            gradient_pressure: gradients.pressure.len(),
            gradient_velocity_x: gradients.velocity[0].len(),
            gradient_velocity_y: gradients.velocity[1].len(),
            gradient_velocity_z: gradients.velocity[2].len(),
            inverse_moments: moments.len(),
            face_closure: closure.len(),
        };
        hierarchy_2d::validate_cache_lengths(columns, state.positions.len())?;
        let solved = solve_public_c_smoothing_lengths_from_seeds_for_targets_2d(
            &state.positions,
            &state.masses,
            &state.smoothing_lengths,
            state.domain,
            desired_neighbors,
            neighbor_tolerance,
            active,
        )?;
        let found: Vec<bool> = solved.iter().map(Option::is_some).collect();
        hierarchy_2d::validate_active_estimates(active, &found)?;
        for (i, estimate) in solved.into_iter().enumerate() {
            if let Some(solved) = estimate.filter(|_| active[i]) {
                state.smoothing_lengths[i] = solved.smoothing_length;
                primitive.density[i] = solved.estimate.density;
                primitive.dhsml_factor[i] = solved.estimate.dhsml_factor;
                primitive.pressure[i] =
                    (state.gamma - 1.0) * primitive.density[i] * state.specific_internal_energy[i];
            }
        }
        let (positions, hsml, domain) = (&state.positions, &state.smoothing_lengths, state.domain);
        let fresh = inverse_moments_2d(positions, hsml, domain)?;
        *moments = hierarchy_2d::commit_active(active, &fresh, moments);
        let fresh = face_closure_diagnostics_2d(positions, &state.masses, hsml, domain)?;
        *closure = hierarchy_2d::commit_active(active, &fresh, closure);
        let fresh = primitive_gradients(state, primitive, moments)?;
        gradients.density = hierarchy_2d::commit_active(active, &fresh.density, &gradients.density);
        gradients.pressure = hierarchy_2d::commit_active(active, &fresh.pressure, &gradients.pressure);
        for (retained, fresh) in gradients.velocity.iter_mut().zip(&fresh.velocity) {
            *retained = hierarchy_2d::commit_active(active, fresh, retained);
        }
        Ok(())
    }

    fn evaluate_arriving_active_rates(&self) -> Outcome<PublicHydroActiveRateResult2d> {
        self.phases.check_refreshed(self.now())?;
        let state = self.search_state()?;
        let fields = Fields { state: &state, cache: &self.cache };
        active_target_rates(fields, &self.old_rates, &self.active_mask())
    }

    fn energy_kick(&self, i: usize, rates: &Rates, duration: f64) -> EnergyKick {
        let previous = self.actual_internal_energy[i];
        EnergyKick {
            duration: b(duration),
            candidate: b(previous + rates.specific_internal_energy[i] * duration),
            half_previous: b(0.5 * previous),
        }
    }

    fn half_kicks(&self, rates: &Rates) -> (Vec<f64>, Vec<EnergyKick>) {
        let half = |&ticks: &u64| 0.5 * self.duration(ticks);
        let halves: Vec<f64> = self.phases.timeline().step_ticks().iter().map(half).collect();
        let kicks =
            halves.iter().enumerate().map(|(i, &half)| self.energy_kick(i, rates, half)).collect();
        (halves, kicks)
    }

    fn half_kick(&mut self, active: &[bool]) -> Outcome<()> {
        let (halves, kicks) = self.half_kicks(&self.old_rates);
        let energies = hierarchy_2d::kick_energies(active, &kicks, b(self.floor))?;
        for (i, energy) in energies.into_iter().enumerate() {
            if let Some(energy) = energy {
                let kick = self.old_rates.acceleration[i] * halves[i];
                self.drift.actual_velocities[i] = self.drift.actual_velocities[i] + kick;
                self.actual_internal_energy[i] = f(energy);
            }
        }
        Ok(())
    }

    fn predict_from_actual(&mut self, i: usize) {
        self.drift.predicted_velocities[i] = self.drift.actual_velocities[i];
        self.drift.predicted_specific_internal_energy[i] = self.actual_internal_energy[i];
        let primitive = &mut self.cache.primitive;
        primitive.pressure[i] =
            (self.start.gamma - 1.0) * primitive.density[i] * self.actual_internal_energy[i];
    }

    fn finish_arriving_active_kicks(
        &mut self,
        endpoint: PublicHydroActiveRateResult2d,
    ) -> Outcome<PublicHydroHierarchyKickResult2d> {
        let mut next = self.clone();
        let PublicHydroActiveRateResult2d { rates, wakeup } = endpoint;
        next.phases.check_second_kicks(rates.lengths(), wakeup.len(), next.now())?;
        let active = next.active_mask();
        let (halves, kicks) = next.half_kicks(&rates);
        let energies = hierarchy_2d::second_kick_energies(
            &active,
            &particle_rates(&rates),
            &particle_rates(&next.old_rates),
            &kicks,
            b(next.floor),
        )?;
        for (i, energy) in energies.into_iter().enumerate() {
            if let Some(energy) = energy {
                let kick = rates.acceleration[i] * halves[i];
                next.drift.actual_velocities[i] = next.drift.actual_velocities[i] + kick;
                next.actual_internal_energy[i] = f(energy);
                next.predict_from_actual(i);
            }
        }
        let state =
            next.state_with(&next.drift.actual_velocities, &next.actual_internal_energy)?;
        next.old_rates = rates.clone();
        next.phases.record_second_kicks(wakeup.clone());
        *self = next;
        Ok(PublicHydroHierarchyKickResult2d { state, rates, wakeup })
    }

    fn begin_next_sync(
        &mut self,
        active_bounds: &[Option<f64>],
        wakeups: Wakeups<'_>,
    ) -> Outcome<PublicHydroHierarchySync2d> {
        self.begin_sync(active_bounds, Some(wakeups))
    }

    fn begin_sync(
        &mut self,
        active_bounds: &[Option<f64>],
        wakeups: Option<Wakeups<'_>>,
    ) -> Outcome<PublicHydroHierarchySync2d> {
        let mut next = self.clone();
        next.prepare_first_kicks(active_bounds, wakeups)?;
        let sync = next.arrive()?;
        *self = next;
        Ok(sync)
    }

    fn prepare_first_kicks(
        &mut self,
        active_bounds: &[Option<f64>],
        wakeups: Option<Wakeups<'_>>,
    ) -> Outcome<()> {
        let now = self.now();
        let requests = requests(self.phases.timeline(), active_bounds);
        let active = self.phases.open_first_kicks(&requests, now)?;
        if let Some(carry_out) = wakeups {
            let (timeline, transitions) =
                carry_out(self.phases.timeline(), self.phases.pending_wakeup())?;
            assert_eq!(timeline.current_tick(), self.current_tick());
            assert_eq!(timeline.step_ticks().len(), active.len());
            self.phases.settle_wakeups(timeline);
            for transition in transitions {
                self.take_back_kick(transition)?;
            }
        } else {
            self.phases.reject_wakeups(now)?;
        }
        self.half_kick(&active)?;
        self.phases.record_first_kicks();
        Ok(())
    }

    fn take_back_kick(&mut self, transition: WakeupTransition) -> Outcome<()> {
        let i = transition.index;
        assert!(i < self.start.positions.len());
        if let Some(ticks) = self.phases.reversed_ticks(transition, self.now())? {
            let duration = -self.duration(ticks);
            let kick = self.energy_kick(i, &self.old_rates, duration);
            let energy = hydro_evolution_2d::limited_internal_energy_update_signed_public_2d(
                kick.candidate,
                kick.half_previous,
                b(self.floor),
            )?;
            self.drift.actual_velocities[i] =
                self.drift.actual_velocities[i] + self.old_rates.acceleration[i] * duration;
            self.actual_internal_energy[i] = f(energy);
            self.predict_from_actual(i);
        }
        Ok(())
    }

    fn drift_particle(&mut self, i: usize, target: u64) -> Outcome<()> {
        let ticks = self.phases.plan_drift(i, target, self.physical_time(target))?;
        let segment = self.duration(ticks);
        if b(segment).equals(b(0.0)) {
            return Ok(());
        }
        let previous = self.drift.predicted_specific_internal_energy[i];
        let rate = self.old_rates.specific_internal_energy[i];
        let position =
            self.drift.positions[i] + planar(self.drift.actual_velocities[i]) * segment;
        self.drift.positions[i] = self.start.domain.wrap(position)?;
        let energy = hydro_evolution_2d::limited_internal_energy_update_2d(
            b(segment),
            b(previous + rate * segment),
            b(0.5 * previous),
            b(self.floor),
        )?;
        let expansion = self.expansion(i, segment);
        let drift = &mut self.drift;
        drift.predicted_velocities[i] =
            drift.predicted_velocities[i] + self.old_rates.acceleration[i] * segment;
        drift.predicted_specific_internal_energy[i] = f(energy);
        drift.predicted_density[i] *= (-expansion).exp();
        drift.predicted_smoothing_lengths[i] *= (0.5 * expansion).exp();
        let primitive = &mut self.cache.primitive;
        primitive.density[i] = drift.predicted_density[i];
        primitive.pressure[i] = (self.start.gamma - 1.0) * primitive.density[i] * f(energy);
        self.phases.record_drift(i, target, b(segment));
        Ok(())
    }

    fn sync(&self, active: Vec<bool>) -> PublicHydroHierarchySync2d {
        PublicHydroHierarchySync2d {
            tick: self.current_tick(),
            time: self.current_time(),
            active,
            drift: self.drift.clone(),
        }
    }
}

fn particle_rates(rates: &Rates) -> Vec<ParticleRate2d> {
    let rate = |i: usize| ParticleRate2d {
        momentum: rates.momentum[i].bits(),
        total_energy: b(rates.total_energy[i]),
        acceleration: rates.acceleration[i].bits(),
        specific_internal_energy: b(rates.specific_internal_energy[i]),
        maximum_signal_speed: b(rates.maximum_signal_speed[i]),
        velocity_divergence: b(rates.velocity_divergence[i]),
    };
    (0..rates.momentum.len()).map(rate).collect()
}

/// Every flagged particle that is in the middle of a step gives it up at once.
fn wake_now(
    timeline: &IndividualParticleTimeline,
    pending: &[bool],
) -> Result<(IndividualParticleTimeline, Vec<WakeupTransition>), IndividualTimelineError> {
    let active = timeline.active_mask();
    let transitions = (0..pending.len())
        .filter(|&i| pending[i] && !active[i])
        .map(|index| WakeupTransition {
            index,
            old_endpoint_tick: timeline.begin_ticks()[index] + timeline.step_ticks()[index],
            new_step_active_at_current: true,
        })
        .collect();
    Ok((timeline.clone(), transitions))
}

/// The tick at a time on the timeline from zero to one.
fn unit_time_tick(time: f64) -> u64 {
    (time * LEGACY_TIMEBASE_TICKS as f64) as u64
}

fn same_particle_rate(left: &HydroMfmRates2d, right: &HydroMfmRates2d, i: usize) -> bool {
    hydro_evolution_2d::same_particle_rate(particle_rates(left)[i], particle_rates(right)[i])
}

fn method_counts(batch: &TargetBatch) -> [usize; 4] {
    let counts = batches::count_methods(&batch.methods);
    [counts.hllc, counts.kurganov_tadmor, counts.exact, counts.vacuum]
}



fn assert_close(actual: f64, expected: f64, tolerance: f64) {
    assert!(
        (actual - expected).abs() <= tolerance,
        "{actual:.17e} != {expected:.17e} within {tolerance:.3e}"
    );
}

fn lattice_state(side: usize, boost: Vector3) -> HydroMfmState2d {
    let domain = Box2d::new(1.0, 1.0).unwrap();
    let count = side * side;
    let mass = 1.0 / count as f64;
    let mut positions = Vec::with_capacity(count);
    let mut velocities = Vec::with_capacity(count);
    let mut internal = Vec::with_capacity(count);
    for y in 0..side {
        for x in 0..side {
            let position = Vector2::new(
                (x as f64 + 0.5) / side as f64,
                (y as f64 + 0.5) / side as f64,
            );
            let offset = position - Vector2::new(0.5, 0.5);
            let radius = offset.norm();
            let azimuthal = if radius < 0.2 {
                5.0 * radius
            } else if radius < 0.4 {
                2.0 - 5.0 * radius
            } else {
                0.0
            };
            let pressure = if radius < 0.2 {
                5.0 + 12.5 * radius * radius
            } else if radius < 0.4 {
                9.0 + 12.5 * radius * radius - 20.0 * radius + 4.0 * (5.0 * radius).ln()
            } else {
                3.0 + 4.0 * 2.0_f64.ln()
            };
            let tangent = if radius > 0.0 {
                Vector3::new(-offset.y / radius, offset.x / radius, 0.0)
            } else {
                Vector3::ZERO
            };
            positions.push(position);
            velocities.push(tangent * azimuthal + boost);
            internal.push(pressure / 0.4);
        }
    }
    HydroMfmState2d {
        positions,
        masses: vec![mass; count],
        velocities,
        specific_internal_energy: internal,
        smoothing_lengths: vec![0.32; count],
        domain,
        gamma: 1.4,
    }
}

#[test]
fn arbitrary_normal_face_uses_hllc_and_is_covariant_under_boost() {
    let normal = Vector2::new(0.6, 0.8);
    let velocity = Vector3::new(0.7, -0.2, 0.35);
    let primitive = EulerPrimitive2d {
        density: 1.0,
        velocity,
        pressure: 0.6,
    };
    let flux =
        euler_mfm_flux_2d(primitive, primitive, normal, velocity, 5.0 / 3.0, 1.0).unwrap();
    assert_eq!(flux.method, RiemannMethod::Hllc);
    assert_close(flux.mass, 0.0, 0.0);
    assert_close(flux.momentum.x, 0.36, 1.0e-15);
    assert_close(flux.momentum.y, 0.48, 1.0e-15);
    assert_close(
        flux.total_energy,
        0.6 * planar_dot(velocity, normal),
        1.0e-15,
    );

    let boost = Vector3::new(3.0, -4.0, 2.5);
    let boosted = EulerPrimitive2d {
        velocity: velocity + boost,
        ..primitive
    };
    let boosted_flux =
        euler_mfm_flux_2d(boosted, boosted, normal, velocity + boost, 5.0 / 3.0, 1.0).unwrap();
    assert_eq!(boosted_flux.momentum, flux.momentum);
    assert_close(
        boosted_flux.total_energy - flux.total_energy,
        boost.dot(flux.momentum),
        2.0e-15,
    );
}

#[test]
fn arbitrary_normal_face_preserves_corrected_kt_fallback() {
    let normal = Vector2::new(0.8, 0.6);
    let normal3 = Vector3::new(normal.x, normal.y, 0.0);
    let gamma = 5.0 / 3.0;
    let left = EulerPrimitive2d {
        density: 1.0,
        velocity: normal3 * -1.0 + Vector3::new(0.0, 0.0, 0.5),
        pressure: 0.6,
    };
    let right = EulerPrimitive2d {
        velocity: normal3 + Vector3::new(0.0, 0.0, -0.25),
        ..left
    };
    let flux = euler_mfm_flux_2d(left, right, normal, Vector3::ZERO, gamma, 1.0).unwrap();
    assert_eq!(flux.method, RiemannMethod::KurganovTadmor);

    // The numerator of alpha is the normal momentum jump; its denominator holds the norm
    // of the jump in all three components.
    let normal_left = left.velocity.dot(normal3);
    let normal_right = right.velocity.dot(normal3);
    let sound_left = (gamma * left.pressure / left.density).sqrt();
    let sound_right = (gamma * right.pressure / right.density).sqrt();
    let momentum_jump = right.velocity * right.density - left.velocity * left.density;
    let normal_jump = right.density * normal_right - left.density * normal_left;
    let threshold =
        0.001 * 0.5 * (left.density + right.density) * 0.5 * (sound_left + sound_right);
    let alpha =
        normal_jump.abs() / (threshold * threshold + momentum_jump.squared_norm()).sqrt();
    let diffusion =
        (alpha * sound_left + normal_left.abs()).max(alpha * sound_right + normal_right.abs());
    let weighted_left = left.density * (normal_left + diffusion);
    let weighted_right = right.density * (normal_right - diffusion);
    let denominator = (left.density * normal_left - right.density * normal_right
        + diffusion * (left.density + right.density))
        .recip();
    let product = weighted_left * weighted_right;
    let expected_pressure =
        (weighted_left * right.pressure - weighted_right * left.pressure) * denominator;
    let expected_momentum = (right.velocity - left.velocity) * (product * denominator)
        + normal3 * expected_pressure;
    let enthalpy = |value: EulerPrimitive2d| {
        value.pressure / value.density
            + value.pressure / ((gamma - 1.0) * value.density)
            + 0.5 * value.velocity.squared_norm()
    };
    let expected_energy = (diffusion
        * (weighted_left * right.pressure + weighted_right * left.pressure)
        + (enthalpy(right) - enthalpy(left)) * product)
        * denominator;
    assert_close(flux.star_pressure, expected_pressure, 2.0e-15);
    assert_close(flux.momentum.x, expected_momentum.x, 2.0e-15);
    assert_close(flux.momentum.y, expected_momentum.y, 2.0e-15);
    assert_close(flux.momentum.z, expected_momentum.z, 2.0e-15);
    assert_close(flux.total_energy, expected_energy, 2.0e-15);
}

#[test]
fn collinear_vector_flux_preserves_scalar_solver_parity() {
    let normal = Vector2::new(0.6, 0.8);
    let normal3 = Vector3::new(normal.x, normal.y, 0.0);
    let gamma = 1.4;
    let left = EulerPrimitive2d {
        density: 0.7,
        velocity: normal3 * -0.3,
        pressure: 0.9,
    };
    let right = EulerPrimitive2d {
        density: 1.2,
        velocity: normal3 * 0.15,
        pressure: 0.4,
    };
    let vector = euler_mfm_flux_2d(left, right, normal, Vector3::ZERO, gamma, 2.0).unwrap();
    let scalar = ideal_gas_mfm_flux_1d(
        PrimitiveState1d {
            density: left.density,
            velocity: -0.3,
            pressure: left.pressure,
        },
        PrimitiveState1d {
            density: right.density,
            velocity: 0.15,
            pressure: right.pressure,
        },
        gamma,
        2.0,
    )
    .unwrap();
    assert_eq!(vector.method, scalar.method);
    assert_close(vector.star_pressure, scalar.star_pressure, 2.0e-15);
    assert_close(vector.solver_speed, scalar.solver_speed, 2.0e-15);
    assert_close(vector.momentum.dot(normal3), scalar.momentum, 2.0e-15);
    assert_close(vector.total_energy, scalar.energy, 2.0e-15);
}

#[test]
fn gresho_operator_is_conservative_and_galilean_covariant() {
    let state = lattice_state(8, Vector3::ZERO);
    let rates = hydro_mfm_spatial_rates_2d(&state).unwrap();
    assert!(rates.pair_count > state.positions.len());
    let momentum_sum = rates
        .momentum
        .iter()
        .copied()
        .fold(Vector3::ZERO, |sum, value| sum + value);
    let energy_sum: f64 = rates.total_energy.iter().sum();
    assert!(momentum_sum.squared_norm().sqrt() < 2.0e-13);
    assert!(energy_sum.abs() < 2.0e-13);

    let boost = Vector3::new(3.0, -1.25, 0.75);
    let boosted = lattice_state(8, boost);
    let boosted_rates = hydro_mfm_spatial_rates_2d(&boosted).unwrap();
    for i in 0..state.positions.len() {
        assert_close(
            boosted_rates.acceleration[i].x,
            rates.acceleration[i].x,
            5.0e-11,
        );
        assert_close(
            boosted_rates.acceleration[i].y,
            rates.acceleration[i].y,
            5.0e-11,
        );
        assert_close(
            boosted_rates.acceleration[i].z,
            rates.acceleration[i].z,
            5.0e-11,
        );
        assert_close(
            boosted_rates.specific_internal_energy[i],
            rates.specific_internal_energy[i],
            2.0e-10,
        );
    }
}

#[test]
fn adaptive_kdk_moves_vortex_and_conserves_extensive_totals() {
    let state = lattice_state(8, Vector3::ZERO);
    let rates = hydro_mfm_spatial_rates_2d(&state).unwrap();
    let courant = global_hydro_courant_timestep_2d(&state, &rates, 0.025).unwrap();
    assert!(courant.is_finite() && courant > 0.0);
    let initial_momentum = state.total_momentum();
    let initial_energy = state.total_energy();
    let result = advance_hydro_kdk_adaptive_2d(&state, &rates, 1.0e-4, 0.0, 20.0, 0.5).unwrap();
    assert!(
        result
            .state
            .positions
            .iter()
            .zip(&state.positions)
            .any(|(&after, &before)| after != before)
    );
    assert!(
        result
            .state
            .smoothing_lengths
            .iter()
            .all(|value| value.is_finite() && *value > 0.0)
    );
    assert!(
        (result.state.total_momentum() - initial_momentum)
            .squared_norm()
            .sqrt()
            < 2.0e-13
    );
    assert_close(result.state.total_energy(), initial_energy, 2.0e-13);
}

#[test]
fn non_equilibrium_planar_perturbation_has_nonzero_rates_and_evolves() {
    let mut state = lattice_state(8, Vector3::ZERO);
    state.specific_internal_energy[9] *= 1.2;
    state.velocities[18].z = 0.35;
    let rates = hydro_mfm_spatial_rates_2d(&state).unwrap();
    assert!(
        rates
            .acceleration
            .iter()
            .any(|rate| rate.squared_norm() > 1.0e-16)
    );
    assert!(
        rates
            .specific_internal_energy
            .iter()
            .any(|rate| rate.abs() > 1.0e-12)
    );
    let result = advance_hydro_kdk_2d(&state, &rates, 1.0e-5, 0.0).unwrap();
    assert_ne!(result.state.positions, state.positions);
    assert_ne!(result.state.velocities, state.velocities);
    assert_ne!(
        result.state.specific_internal_energy,
        state.specific_internal_energy
    );
}

fn alternating_timebins(count: usize) -> Vec<PublicHydroInitialTimebin2d> {
    let bounds = (0..count)
        .map(|i| {
            let selected = if i % 2 == 0 { 0.125 } else { 0.25 };
            PublicHydroTimestepBounds2d {
                acceleration: selected,
                courant: selected,
                velocity_divergence: selected,
                selected,
            }
        })
        .collect::<Vec<_>>();
    quantize_public_hydro_initial_timebins_2d(&bounds, 0.0, 1.0, 0.5).unwrap()
}

#[test]
fn hierarchy_keeps_inactive_predictors_and_caches_lazy() {
    let state = lattice_state(8, Vector3::new(0.0, 0.0, 0.25));
    let rates = hydro_mfm_spatial_rates_2d(&state).unwrap();
    let bins = alternating_timebins(state.positions.len());
    let mut hierarchy =
        begin_public_hydro_initial_hierarchy_2d(&state, &rates, &bins, 0.0, 1.0, 0.0).unwrap();
    let sync = hierarchy.drift_to_first_sync().unwrap();
    assert!(sync.active.iter().any(|&active| active));
    assert!(sync.active.iter().any(|&active| !active));
    for (i, &active) in sync.active.iter().enumerate() {
        assert_eq!(
            hierarchy.predictor_ticks()[i],
            if active { sync.tick } else { 0 }
        );
    }
    let old_gradients = hierarchy.cache.gradients.clone();
    let old_moments = hierarchy.cache.moments.clone();
    let old_closure = hierarchy.cache.closure.clone();
    hierarchy.refresh_arriving_active_caches(20.0, 0.5).unwrap();
    for (i, &active) in sync.active.iter().enumerate() {
        if !active {
            assert_eq!(
                hierarchy.cache.primitive.density[i].to_bits(),
                hierarchy.drift.predicted_density[i].to_bits()
            );
            assert_eq!(
                hierarchy.cache.gradients.density[i],
                old_gradients.density[i]
            );
            assert_eq!(hierarchy.cache.moments[i], old_moments[i]);
            assert_eq!(hierarchy.cache.closure[i], old_closure[i]);
        }
    }
}

#[test]
fn active_force_retains_inactive_rates_and_flags_wakeups() {
    let state = lattice_state(8, Vector3::ZERO);
    let rates = hydro_mfm_spatial_rates_2d(&state).unwrap();
    let bins = alternating_timebins(state.positions.len());
    let mut hierarchy =
        begin_public_hydro_initial_hierarchy_2d(&state, &rates, &bins, 0.0, 1.0, 0.0).unwrap();
    let sync = hierarchy.drift_to_first_sync().unwrap();
    for (i, &active) in sync.active.iter().enumerate() {
        if !active {
            hierarchy.old_rates.maximum_signal_speed[i] = 1.0e-6;
        }
    }
    hierarchy.refresh_arriving_active_caches(20.0, 0.5).unwrap();
    let endpoint = hierarchy.evaluate_arriving_active_rates().unwrap();
    for (i, &active) in sync.active.iter().enumerate() {
        if !active {
            assert!(same_particle_rate(&endpoint.rates, &hierarchy.old_rates, i));
        }
    }
    assert!(
        endpoint
            .wakeup
            .iter()
            .zip(&sync.active)
            .any(|(&wakeup, &active)| wakeup && !active)
    );
}

#[test]
fn wakeup_reverses_the_inactive_particles_old_half_kick() {
    let state = lattice_state(8, Vector3::ZERO);
    let rates = hydro_mfm_spatial_rates_2d(&state).unwrap();
    let bins = alternating_timebins(state.positions.len());
    let mut hierarchy =
        begin_public_hydro_initial_hierarchy_2d(&state, &rates, &bins, 0.0, 1.0, 0.0).unwrap();
    let sync = hierarchy.drift_to_first_sync().unwrap();
    for (i, &active) in sync.active.iter().enumerate() {
        if !active {
            hierarchy.old_rates.maximum_signal_speed[i] = 1.0e-6;
        }
    }
    hierarchy.refresh_arriving_active_caches(20.0, 0.5).unwrap();
    let endpoint = hierarchy.evaluate_arriving_active_rates().unwrap();
    let woken = endpoint
        .wakeup
        .iter()
        .zip(&sync.active)
        .position(|(&wakeup, &active)| wakeup && !active)
        .unwrap();
    hierarchy.finish_arriving_active_kicks(endpoint).unwrap();
    let before = hierarchy.drift.actual_velocities[woken];
    let old_acceleration = hierarchy.old_rates.acceleration[woken];
    let reverse_duration = -0.125;
    let bounds = sync
        .active
        .iter()
        .map(|&active| active.then_some(0.0625))
        .collect::<Vec<_>>();
    hierarchy.begin_next_sync(&bounds, &wake_now).unwrap();
    assert_eq!(
        hierarchy.drift.actual_velocities[woken],
        before + old_acceleration * reverse_duration
    );
}

#[test]
fn active_target_batches_are_bitwise_deterministic_across_worker_counts() {
    let state = lattice_state(8, Vector3::new(0.1, -0.2, 0.3));
    let retained = hydro_mfm_spatial_rates_2d(&state).unwrap();
    let cache = Prepared::new(&state).unwrap();
    let fields = Fields { state: &state, cache: &cache };
    let active = (0..state.positions.len())
        .map(|i| i % 3 != 1)
        .collect::<Vec<_>>();
    let pairs = interacting_pairs_for_targets_2d(
        &state.positions,
        &state.smoothing_lengths,
        state.domain,
        &active,
    )
    .unwrap();
    let serial = evaluate_targets(fields, &retained, &active, &pairs, 1).unwrap();
    let threaded = evaluate_targets(fields, &retained, &active, &pairs, 4).unwrap();
    assert_eq!(threaded, serial);
}

#[test]
fn production_directed_operator_solves_each_target_orientation() {
    let mut state = lattice_state(8, Vector3::ZERO);
    let retained = hydro_mfm_spatial_rates_2d(&state).unwrap();
    let pairs =
        interacting_pairs_2d(&state.positions, &state.smoothing_lengths, state.domain).unwrap();
    let pair = pairs[0];
    // Put this pair close to the pressure/retry machinery and add 2.5-D
    // shear. The assertion below compares each target against its own
    // directed solve, never against a negated canonical solve.
    state.specific_internal_energy[pair.i] = 0.08;
    state.specific_internal_energy[pair.j] = 4.0;
    state.velocities[pair.i] = Vector3::new(0.017, -0.004, 0.009);
    state.velocities[pair.j] = Vector3::new(-0.012, 0.006, -0.007);
    let cache = Prepared::new(&state).unwrap();
    let fields = Fields { state: &state, cache: &cache };
    let active = vec![false; state.positions.len()];

    let directed = |target: usize, neighbor: usize| {
        evaluate_target(fields, &retained, &active, target, &[(neighbor, 0)]).unwrap()
    };
    let forward = directed(pair.i, pair.j);
    let reverse = directed(pair.j, pair.i);

    let direct_flux = |target: usize, neighbor: usize| {
        let point = |i: usize| MeshlessPoint2d {
            position: state.positions[i],
            mass: state.masses[i],
            density: cache.primitive.density[i],
            smoothing_length: state.smoothing_lengths[i],
            inverse_moment: cache.moments[i].matrix,
            condition_number: cache.moments[i].condition_number,
        };
        let face =
            meshless_face_geometry_2d(point(target), point(neighbor), state.domain).unwrap();
        let displacement = state
            .domain
            .displacement(state.positions[target], state.positions[neighbor])
            .unwrap();
        let radial = displacement / displacement.norm();
        let flux = fields.solve_pair(target, neighbor, face, radial).unwrap();
        let energy = fields.pair_energy(target, neighbor, flux, face, displacement).unwrap().0;
        (flux.momentum * face.area, energy, flux.method)
    };
    let expected_forward = direct_flux(pair.i, pair.j);
    let expected_reverse = direct_flux(pair.j, pair.i);
    assert_eq!(forward.momentum, expected_forward.0);
    assert_eq!(forward.total_energy.to_bits(), expected_forward.1.to_bits());
    assert_eq!(method_counts(&forward)[method_index(expected_forward.2)], 1);
    assert_eq!(reverse.momentum, expected_reverse.0);
    assert_eq!(reverse.total_energy.to_bits(), expected_reverse.1.to_bits());
    assert_eq!(method_counts(&reverse)[method_index(expected_reverse.2)], 1);

    let production = hydro_mfm_directed_spatial_rates_2d(&state).unwrap();
    let conservative = hydro_mfm_spatial_rates_2d(&state).unwrap();
    assert_eq!(production.pair_count, 2 * conservative.pair_count);
    assert!(
        production.momentum != conservative.momentum
            || production.total_energy != conservative.total_energy,
        "the directed operator must not collapse to unordered antisymmetry"
    );
}

#[test]
fn active_target_refresh_retains_every_inactive_rate_slot() {
    let state = lattice_state(8, Vector3::new(0.1, -0.2, 0.3));
    let retained = hydro_mfm_spatial_rates_2d(&state).unwrap();
    let cache = Prepared::new(&state).unwrap();
    let fields = Fields { state: &state, cache: &cache };
    let active = (0..state.positions.len())
        .map(|i| i % 7 == 0)
        .collect::<Vec<_>>();
    let updated = active_target_rates(fields, &retained, &active).unwrap();
    for (i, &is_active) in active.iter().enumerate() {
        if !is_active {
            assert!(same_particle_rate(&updated.rates, &retained, i));
        }
    }
}

#[test]
fn next_scheduled_drift_uses_the_next_half_step_velocity() {
    let state = HydroMfmState2d::from_primitive(
        vec![Vector2::new(0.25, 0.25)],
        vec![1.0],
        vec![Vector3::ZERO],
        vec![1.0],
        vec![0.5],
        Box2d::new(1.0, 1.0).unwrap(),
        5.0 / 3.0,
    )
    .unwrap();
    let rates = HydroMfmRates2d {
        momentum: vec![Vector3::new(2.0, 0.0, 0.0)],
        total_energy: vec![0.0],
        acceleration: vec![Vector3::new(2.0, 0.0, 0.0)],
        specific_internal_energy: vec![-100.0],
        maximum_signal_speed: vec![1.0],
        velocity_divergence: vec![10.0],
        pair_count: 0,
        entropic_pair_count: 0,
        hllc_pair_count: 0,
        kt_pair_count: 0,
        exact_pair_count: 0,
        vacuum_pair_count: 0,
    };
    let bins = quantize_public_hydro_initial_timebins_2d(
        &[PublicHydroTimestepBounds2d {
            acceleration: 0.25,
            courant: 0.25,
            velocity_divergence: 0.25,
            selected: 0.25,
        }],
        0.0,
        1.0,
        0.5,
    )
    .unwrap();
    let primitive = state.primitive_columns().unwrap();
    let timeline =
        IndividualParticleTimeline::from_initial_steps(b(0.0), b(1.0), &[bins[0].ticks]).unwrap();
    let mut hierarchy = PublicHydroInitialHierarchy2d {
        phases: hierarchy_2d::PublicHydroInitialHierarchy2d::begin(timeline),
        start: state.clone(),
        old_rates: rates.clone(),
        actual_internal_energy: vec![1.0],
        drift: PublicHydroDriftState2d {
            positions: state.positions.clone(),
            actual_velocities: vec![Vector3::new(0.25, 0.0, 0.0)],
            predicted_velocities: state.velocities.clone(),
            predicted_specific_internal_energy: vec![1.0],
            predicted_density: primitive.density.clone(),
            predicted_smoothing_lengths: state.smoothing_lengths.clone(),
        },
        cache: Prepared {
            primitive,
            gradients: PrimitiveGradients2d {
                density: vec![Vector2::ZERO],
                pressure: vec![Vector2::ZERO],
                velocity: [vec![Vector2::ZERO], vec![Vector2::ZERO], vec![Vector2::ZERO]],
            },
            moments: vec![InverseMoment2d {
                matrix: Matrix2::ZERO,
                condition_number: 1.0,
                diagonal_regularization: 0.0,
            }],
            closure: vec![FaceClosure2d::default()],
        },
        floor: 0.0,
    };
    hierarchy.drift_to_first_sync().unwrap();
    hierarchy
        .finish_arriving_active_kicks(PublicHydroActiveRateResult2d {
            rates: rates.clone(),
            wakeup: vec![false],
        })
        .unwrap();
    let integer_velocity = hierarchy.drift.actual_velocities[0];
    assert_eq!(integer_velocity.x.to_bits(), 0.5_f64.to_bits());
    let before = hierarchy.clone();
    let mut phase_correct = hierarchy.clone();
    assert!(phase_correct.prepare_next_drift(&[None], &wake_now).is_err());
    assert_eq!(phase_correct, hierarchy);
    let next_tick = phase_correct.prepare_next_drift(&[Some(0.25)], &wake_now).unwrap();
    assert_eq!(next_tick, bins[0].ticks * 2);
    let output_tick = unit_time_tick(0.375);
    let projected = phase_correct
        .drift_prepared_to_output_tick(output_tick)
        .unwrap();
    assert_eq!(hierarchy, before);
    assert_eq!(
        projected.actual_velocities[0].x.to_bits(),
        0.75_f64.to_bits()
    );
    assert_eq!(
        projected.predicted_velocities[0].x.to_bits(),
        0.75_f64.to_bits()
    );
    // x=0.25 + 0.25*0.25 for the first drift, then 0.75*0.125.
    assert_eq!(projected.positions[0].x.to_bits(), 0.40625_f64.to_bits());
    let integer_velocity_position = 0.3125 + integer_velocity.x * 0.125;
    assert_ne!(
        projected.positions[0].x.to_bits(),
        integer_velocity_position.to_bits()
    );

    let mut segmented = before.clone();
    let unchanged_next_tick = segmented.prepare_next_drift(&[Some(0.25)], &wake_now).unwrap();
    let first_output_tick = unit_time_tick(0.3125);
    let second_output_tick = unit_time_tick(0.375);
    segmented
        .drift_prepared_to_output_tick(first_output_tick)
        .unwrap();
    assert_eq!(segmented.predictor_ticks(), &[first_output_tick]);
    let first_internal = segmented.drift.predicted_specific_internal_energy[0];
    let first_density = segmented.drift.predicted_density[0];
    let first_h = segmented.drift.predicted_smoothing_lengths[0];
    segmented
        .drift_prepared_to_output_tick(second_output_tick)
        .unwrap();
    assert_eq!(segmented.predictor_ticks(), &[second_output_tick]);
    assert_eq!(
        segmented.drift.predicted_specific_internal_energy[0].to_bits(),
        (0.5 * first_internal).to_bits()
    );
    assert_eq!(
        segmented.drift.predicted_density[0].to_bits(),
        (first_density * (-0.3_f64).exp()).to_bits()
    );
    assert_eq!(
        segmented.drift.predicted_smoothing_lengths[0].to_bits(),
        (first_h * 0.15_f64.exp()).to_bits()
    );
    let resumed = segmented.finish_prepared_next_sync().unwrap();
    assert_eq!(resumed.tick, unchanged_next_tick);
    assert_eq!(resumed.tick, bins[0].ticks * 2);
}
