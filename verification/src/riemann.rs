//! Decisions of the one-dimensional Riemann solvers and of the pair flux.

use vstd::prelude::*;

use crate::binary64::Binary64;
use crate::hydro_error::HydroError;
use crate::neighbors_1d::BoundaryMode1d;

verus! {

use crate::binary64::{nearest, NAN_BITS, ONE_BITS, TWO_BITS};
use crate::columns_1d::adiabatic;
use crate::fault::{first, outcome};
use vstd::arithmetic::power2::{lemma2_to64, lemma2_to64_rest};

/// The solver that produced a flux.
#[derive(Clone, Copy, Debug, PartialEq, Eq, Structural)]
pub enum RiemannMethod {
    Hllc,
    KurganovTadmor,
    Exact,
    Vacuum,
}

/// The order of a face reconstruction.
#[derive(Clone, Copy, Debug, PartialEq, Eq, Structural)]
pub enum ReconstructionOrder {
    Zeroth,
    First,
}

/// The attempt that produced a pair flux, in the order in which they are made.
#[derive(Clone, Copy, Debug, PartialEq, Eq, Structural)]
pub enum PairSolvePath {
    /// Reconstructed face states.
    Reconstructed,
    /// Particle-centered states.
    Centered,
    /// Particle-centered states without relative velocity.
    ZeroRelativeVelocity,
}

/// A primitive fluid state.
#[derive(Clone, Copy, Debug, PartialEq, Eq, Structural)]
pub struct PrimitiveState1d {
    pub density: Binary64,
    pub velocity: Binary64,
    pub pressure: Binary64,
}

/// The fault of a primitive state: density, velocity, then pressure.
pub open spec fn riemann_state_fault(side: &'static str, state: PrimitiveState1d) -> Option<
    HydroError,
> {
    if !state.density.positive() {
        Some(HydroError::InvalidRiemannState { side, field: "density", value: state.density })
    } else if !state.velocity.finite() {
        Some(HydroError::InvalidRiemannState { side, field: "velocity", value: state.velocity })
    } else if !state.pressure.positive() {
        Some(HydroError::InvalidRiemannState { side, field: "pressure", value: state.pressure })
    } else {
        None
    }
}

/// Check a primitive state.
pub fn validate_riemann_state(side: &'static str, state: PrimitiveState1d) -> (result: Result<
    (),
    HydroError,
>)
    ensures
        result == outcome(riemann_state_fault(side, state)),
{
    if !state.density.is_positive() {
        return Err(
            HydroError::InvalidRiemannState { side, field: "density", value: state.density },
        );
    }
    if !state.velocity.is_finite() {
        return Err(
            HydroError::InvalidRiemannState { side, field: "velocity", value: state.velocity },
        );
    }
    if !state.pressure.is_positive() {
        return Err(
            HydroError::InvalidRiemannState { side, field: "pressure", value: state.pressure },
        );
    }
    Ok(())
}

/// The fault of the inputs of a face problem.
pub open spec fn flux_inputs_fault(
    left: PrimitiveState1d,
    right: PrimitiveState1d,
    gamma: Binary64,
    pressure_limit: Binary64,
) -> Option<HydroError> {
    first(
        riemann_state_fault("left", left),
        first(
            riemann_state_fault("right", right),
            if !adiabatic(gamma) {
                Some(HydroError::InvalidRiemannParameter { field: "gamma", value: gamma })
            } else if !pressure_limit.positive() {
                Some(
                    HydroError::InvalidRiemannParameter {
                        field: "pressure_limit",
                        value: pressure_limit,
                    },
                )
            } else {
                None
            },
        ),
    )
}

/// Check the inputs of a face problem.
pub fn validate_flux_inputs(
    left: PrimitiveState1d,
    right: PrimitiveState1d,
    gamma: Binary64,
    pressure_limit: Binary64,
) -> (result: Result<(), HydroError>)
    ensures
        result == outcome(flux_inputs_fault(left, right, gamma, pressure_limit)),
{
    if let Err(error) = validate_riemann_state("left", left) {
        return Err(error);
    }
    if let Err(error) = validate_riemann_state("right", right) {
        return Err(error);
    }
    let one: Binary64 = Binary64 { bits: ONE_BITS };
    if !(gamma.is_finite() && one.less(gamma)) {
        return Err(HydroError::InvalidRiemannParameter { field: "gamma", value: gamma });
    }
    if !pressure_limit.is_positive() {
        return Err(
            HydroError::InvalidRiemannParameter { field: "pressure_limit", value: pressure_limit },
        );
    }
    Ok(())
}

/// Whether all numbers of a list are finite.
pub open spec fn all_finite(values: Seq<Binary64>) -> bool {
    forall|k: int| 0 <= k < values.len() ==> (#[trigger] values[k]).finite()
}

/// Whether all numbers of a list are finite.
pub fn are_finite(values: &[Binary64]) -> (result: bool)
    ensures
        result == all_finite(values@),
{
    let mut index: usize = 0;
    while index < values.len()
        invariant
            index <= values@.len(),
            forall|k: int| 0 <= k < index ==> (#[trigger] values@[k]).finite(),
        decreases values@.len() - index,
    {
        if !values[index].is_finite() {
            assert(!values@[index as int].finite());
            return false;
        }
        index = index + 1;
    }
    true
}

/// Check computed numbers; a failure is reported under one name without a value.
pub fn validate_riemann_values(values: &[Binary64], field: &'static str) -> (result: Result<
    (),
    HydroError,
>)
    ensures
        result == outcome(
            if all_finite(values@) {
                None
            } else {
                Some(
                    HydroError::NonFiniteRiemannResult { field, value: Binary64 { bits: NAN_BITS } },
                )
            },
        ),
        result is Ok <==> forall|i: int| 0 <= i < values@.len() ==> (#[trigger] values@[i]).finite(),
{
    if are_finite(values) {
        Ok(())
    } else {
        Err(HydroError::NonFiniteRiemannResult { field, value: Binary64 { bits: NAN_BITS } })
    }
}

/// How a face problem is opened.
#[derive(Clone, Copy, Debug, PartialEq, Eq, Structural)]
pub enum FluxOpening {
    /// The states separate faster than the gas can follow.
    Vacuum,
    /// As before, but the vacuum pressure is above the limit: solve exactly.
    VacuumExact,
    /// The approximate solvers apply.
    Waves,
}

/// Choose how a face problem is opened.
pub fn open_flux(
    velocity_jump: Binary64,
    vacuum_threshold: Binary64,
    vacuum_pressure: Binary64,
    pressure_limit: Binary64,
) -> (result: FluxOpening)
    ensures
        result == if vacuum_threshold.lt(velocity_jump) {
            if pressure_limit.lt(vacuum_pressure) {
                FluxOpening::VacuumExact
            } else {
                FluxOpening::Vacuum
            }
        } else {
            FluxOpening::Waves
        },
        result == FluxOpening::Waves ==> !vacuum_threshold.lt(velocity_jump),
        velocity_jump.le(vacuum_threshold) ==> result == FluxOpening::Waves,
        result == FluxOpening::Vacuum && !pressure_limit.nan() && !vacuum_pressure.nan()
            ==> vacuum_pressure.le(pressure_limit),
        result == FluxOpening::VacuumExact ==> !vacuum_pressure.le(pressure_limit),
{
    if vacuum_threshold.less(velocity_jump) {
        if pressure_limit.less(vacuum_pressure) {
            FluxOpening::VacuumExact
        } else {
            FluxOpening::Vacuum
        }
    } else {
        FluxOpening::Waves
    }
}

/// The contact estimates in the order in which they are tried.
#[derive(Clone, Copy, Debug, PartialEq, Eq, Structural)]
pub enum ContactEstimate {
    /// From the extreme velocities and the larger sound speed.
    Primitive,
    /// From the density-weighted average.
    Roe,
    /// From the linearized acoustic equations.
    Acoustic,
}

/// What follows from a contact estimate.
#[derive(Clone, Copy, Debug, PartialEq, Eq, Structural)]
pub enum ContactDecision {
    /// Use the estimate.
    Accept,
    /// Make another estimate.
    Try(ContactEstimate),
    /// Solve with central differences.
    NeedsKt,
    /// Solve exactly.
    NeedsExact,
}

/// Whether an estimate is usable: finite, with a pressure above zero and within the limit.
pub open spec fn star_accepted(star: Binary64, contact: Binary64, limit: Binary64) -> bool {
    star.positive() && contact.finite() && star.le(limit)
}

/// Whether an estimate is usable.
pub fn valid_star(star: Binary64, contact: Binary64, limit: Binary64) -> (result: bool)
    ensures
        result == star_accepted(star, contact, limit),
        result ==> (Binary64 { bits: 0 }).lt(star) && star.le(limit) && contact.finite(),
{
    star.is_positive() && contact.is_finite() && star.at_most(limit)
}

/// The decision after an estimate.
pub open spec fn contact_decision(
    estimate: ContactEstimate,
    star: Binary64,
    contact: Binary64,
    limit: Binary64,
) -> ContactDecision {
    match estimate {
        ContactEstimate::Primitive => if star_accepted(star, contact, limit) {
            ContactDecision::Accept
        } else {
            ContactDecision::Try(ContactEstimate::Roe)
        },
        ContactEstimate::Roe => if star_accepted(star, contact, limit) {
            ContactDecision::Accept
        } else {
            ContactDecision::Try(ContactEstimate::Acoustic)
        },
        ContactEstimate::Acoustic => if !star.finite() || !contact.finite() || star.rank() < 0 {
            ContactDecision::NeedsKt
        } else if limit.lt(star) {
            ContactDecision::NeedsExact
        } else {
            ContactDecision::Accept
        },
    }
}

/// Decide what follows from a contact estimate.
pub fn decide_contact(
    estimate: ContactEstimate,
    star: Binary64,
    contact: Binary64,
    limit: Binary64,
) -> (result: ContactDecision)
    ensures
        result == contact_decision(estimate, star, contact, limit),
{
    let zero: Binary64 = Binary64 { bits: 0 };
    match estimate {
        ContactEstimate::Primitive => if valid_star(star, contact, limit) {
            ContactDecision::Accept
        } else {
            ContactDecision::Try(ContactEstimate::Roe)
        },
        ContactEstimate::Roe => if valid_star(star, contact, limit) {
            ContactDecision::Accept
        } else {
            ContactDecision::Try(ContactEstimate::Acoustic)
        },
        ContactEstimate::Acoustic => if !star.is_finite() || !contact.is_finite() || star.less(zero) {
            ContactDecision::NeedsKt
        } else if limit.less(star) {
            ContactDecision::NeedsExact
        } else {
            ContactDecision::Accept
        },
    }
}

/// Every accepted estimate is finite and has a pressure from zero to the limit.
pub proof fn law_accepted_contacts_respect_the_limit(
    estimate: ContactEstimate,
    star: Binary64,
    contact: Binary64,
    limit: Binary64,
)
    requires
        contact_decision(estimate, star, contact, limit) == ContactDecision::Accept,
        !limit.nan(),
    ensures
        star.nonnegative(),
        contact.finite(),
        star.le(limit),
{
}

/// Whether the denominator of the central flux can be inverted.
pub fn is_invertible(denominator: Binary64) -> (result: bool)
    ensures
        result == (denominator.finite() && denominator.rank() != 0),
        result <==> denominator.finite() && !denominator.same(Binary64 { bits: 0 }),
{
    let zero: Binary64 = Binary64 { bits: 0 };
    denominator.is_finite() && !denominator.equals(zero)
}

/// What follows from the pressure of the central flux on a collinear face.
#[derive(Clone, Copy, Debug, PartialEq, Eq, Structural)]
pub enum CentralDecision {
    /// Evaluate the flux.
    Flux,
    /// The flux vanishes.
    ZeroFlux,
    /// Solve exactly.
    NeedsExact,
}

/// Decide what follows from the pressure of the one-dimensional central flux.
pub fn decide_central_1d(star: Binary64, limit: Binary64) -> (result: CentralDecision)
    ensures
        result == if star.positive() && !limit.lt(star) {
            CentralDecision::Flux
        } else {
            CentralDecision::NeedsExact
        },
        !limit.nan() ==> (result == CentralDecision::Flux <==> (Binary64 { bits: 0 }).lt(star)
            && star.finite() && star.le(limit)),
        result != CentralDecision::ZeroFlux,
{
    if star.is_positive() && !limit.less(star) {
        CentralDecision::Flux
    } else {
        CentralDecision::NeedsExact
    }
}

/// Decide what follows from the pressure of the planar central flux, which may vanish.
pub fn decide_central_2d(star: Binary64, limit: Binary64) -> (result: CentralDecision)
    ensures
        result == if !star.nonnegative() || limit.lt(star) {
            CentralDecision::NeedsExact
        } else if star.rank() == 0 {
            CentralDecision::ZeroFlux
        } else {
            CentralDecision::Flux
        },
        result == CentralDecision::ZeroFlux ==> star.same(Binary64 { bits: 0 }),
        result == CentralDecision::Flux ==> (Binary64 { bits: 0 }).lt(star) && !limit.lt(star),
        star.le(limit) && (Binary64 { bits: 0 }).lt(star) && star.finite() ==> result
            == CentralDecision::Flux,
        star.lt(Binary64 { bits: 0 }) || limit.lt(star) || !star.finite() ==> result
            == CentralDecision::NeedsExact,
{
    let zero: Binary64 = Binary64 { bits: 0 };
    if !star.is_nonnegative() || limit.less(star) {
        CentralDecision::NeedsExact
    } else if star.equals(zero) {
        CentralDecision::ZeroFlux
    } else {
        CentralDecision::Flux
    }
}

/// Whether a scalar solution can be turned into a planar flux.
pub fn is_forced_method(method: RiemannMethod) -> (result: bool)
    ensures
        result == (method != RiemannMethod::KurganovTadmor),
        !result <==> method == RiemannMethod::KurganovTadmor,
{
    match method {
        RiemannMethod::Hllc => true,
        RiemannMethod::Exact => true,
        RiemannMethod::Vacuum => true,
        RiemannMethod::KurganovTadmor => false,
    }
}

/// Where the face lies in an exact vacuum solution.
#[derive(Clone, Copy, Debug, PartialEq, Eq, Structural)]
pub enum VacuumContact {
    LeftEdge,
    RightEdge,
    Rest,
}

/// Whether the exact solution contains a vacuum.
pub fn exact_is_vacuum(velocity_jump: Binary64, vacuum_threshold: Binary64) -> (result: bool)
    ensures
        result == vacuum_threshold.le(velocity_jump),
        velocity_jump.lt(vacuum_threshold) ==> !result,
        velocity_jump.same(vacuum_threshold) ==> result,
{
    vacuum_threshold.at_most(velocity_jump)
}

/// Choose the speed of the face in an exact vacuum solution.
pub fn vacuum_contact(left_edge: Binary64, right_edge: Binary64) -> (result: VacuumContact)
    ensures
        result == if (Binary64 { bits: 0 }).le(left_edge) {
            VacuumContact::LeftEdge
        } else if right_edge.le(Binary64 { bits: 0 }) {
            VacuumContact::RightEdge
        } else {
            VacuumContact::Rest
        },
        result == VacuumContact::LeftEdge ==> !left_edge.lt(Binary64 { bits: 0 }),
        result == VacuumContact::RightEdge ==> !(Binary64 { bits: 0 }).lt(right_edge),
        left_edge.lt(Binary64 { bits: 0 }) && (Binary64 { bits: 0 }).lt(right_edge) ==> result
            == VacuumContact::Rest,
{
    let zero: Binary64 = Binary64 { bits: 0 };
    if zero.at_most(left_edge) {
        VacuumContact::LeftEdge
    } else if right_edge.at_most(zero) {
        VacuumContact::RightEdge
    } else {
        VacuumContact::Rest
    }
}

/// The wave that connects a state to a pressure.
#[derive(Clone, Copy, Debug, PartialEq, Eq, Structural)]
pub enum WaveKind {
    Shock,
    Rarefaction,
}

/// Choose the wave that connects a state to a star pressure.
pub fn wave_kind(star: Binary64, state_pressure: Binary64) -> (result: WaveKind)
    ensures
        result == if state_pressure.lt(star) {
            WaveKind::Shock
        } else {
            WaveKind::Rarefaction
        },
        star.le(state_pressure) ==> result == WaveKind::Rarefaction,
        result == WaveKind::Shock ==> !star.le(state_pressure),
{
    if state_pressure.less(star) {
        WaveKind::Shock
    } else {
        WaveKind::Rarefaction
    }
}

/// The formula for the starting pressure of the exact solution.
#[derive(Clone, Copy, Debug, PartialEq, Eq, Structural)]
pub enum PressureGuess {
    Primitive,
    TwoRarefactions,
    TwoShocks,
}

/// Choose the formula for the starting pressure.
pub fn pressure_guess(
    pressure_ratio: Binary64,
    minimum: Binary64,
    maximum: Binary64,
    primitive: Binary64,
) -> (result: PressureGuess)
    ensures
        result == if pressure_ratio.le(Binary64 { bits: TWO_BITS }) && minimum.le(primitive)
            && primitive.le(maximum) {
            PressureGuess::Primitive
        } else if primitive.lt(minimum) {
            PressureGuess::TwoRarefactions
        } else {
            PressureGuess::TwoShocks
        },
        result == PressureGuess::Primitive ==> !(Binary64 { bits: TWO_BITS }).lt(pressure_ratio)
            && !primitive.lt(minimum) && !maximum.lt(primitive),
        result == PressureGuess::TwoRarefactions ==> !minimum.le(primitive),
        primitive.lt(minimum) ==> result == PressureGuess::TwoRarefactions,
        maximum.lt(primitive) && minimum.le(primitive) ==> result == PressureGuess::TwoShocks,
        (Binary64 { bits: TWO_BITS }).lt(pressure_ratio) && minimum.le(primitive) ==> result
            == PressureGuess::TwoShocks,
{
    let two: Binary64 = Binary64 { bits: TWO_BITS };
    if pressure_ratio.at_most(two) && minimum.at_most(primitive) && primitive.at_most(maximum) {
        PressureGuess::Primitive
    } else if primitive.less(minimum) {
        PressureGuess::TwoRarefactions
    } else {
        PressureGuess::TwoShocks
    }
}

/// The two-shock pressure where it lies between the two pressures, the smaller otherwise.
pub fn bounded_two_shock(two_shock: Binary64, minimum: Binary64, maximum: Binary64) -> (result:
    Binary64)
    ensures
        result == if two_shock.lt(minimum) || maximum.lt(two_shock) {
            minimum
        } else {
            two_shock
        },
        minimum.le(maximum) && !two_shock.nan() ==> minimum.le(result) && result.le(maximum),
        minimum.le(two_shock) && two_shock.le(maximum) ==> result == two_shock,
        result == two_shock || result == minimum,
{
    if two_shock.less(minimum) || maximum.less(two_shock) {
        minimum
    } else {
        two_shock
    }
}

/// How many corrections the exact solution may take.
pub const EXACT_ITERATION_LIMIT: u32 = 1000;

/// What follows from one correction of the exact solution.
#[derive(Clone, Copy, Debug, PartialEq, Eq, Structural)]
pub enum ExactStep {
    Converged,
    Failed,
    Continue,
}

/// The corrections of the exact solution.
#[derive(Clone, Copy, Debug, PartialEq, Eq, Structural)]
pub struct ExactIteration {
    pub iterations: u32,
}

impl ExactIteration {
    /// An iteration before its first correction.
    pub fn new() -> (result: Self)
        ensures
            result.iterations == 0,
    {
        ExactIteration { iterations: 0 }
    }

    /// Whether a correction can be made: iterations are left, both wave curves are finite and
    /// the summed slope is positive.
    pub fn can_correct(
        self,
        left_value: Binary64,
        left_slope: Binary64,
        right_value: Binary64,
        right_slope: Binary64,
        slope: Binary64,
    ) -> (result: bool)
        ensures
            result == (self.iterations < EXACT_ITERATION_LIMIT && left_value.finite()
                && left_slope.finite() && right_value.finite() && right_slope.finite()
                && slope.positive()),
            result ==> self.iterations < 1000 && (Binary64 { bits: 0 }).lt(slope) && slope.finite(),
            self.iterations == 1000 ==> !result,
    {
        self.iterations < EXACT_ITERATION_LIMIT && left_value.is_finite() && left_slope.is_finite()
            && right_value.is_finite() && right_slope.is_finite() && slope.is_positive()
    }

    /// Keep a corrected pressure from falling below a tenth of the previous one.
    pub fn floored(corrected: Binary64, tenth: Binary64) -> (result: Binary64)
        ensures
            result == if corrected.lt(tenth) {
                tenth
            } else {
                corrected
            },
            !corrected.nan() && !tenth.nan() ==> tenth.le(result) && corrected.le(result),
            result == corrected || result == tenth,
    {
        if corrected.less(tenth) {
            tenth
        } else {
            corrected
        }
    }

    /// Count a correction and judge it by the relative change of the pressure.
    pub fn judge(&mut self, pressure: Binary64, change: Binary64, tolerance: Binary64) -> (result:
        ExactStep)
        requires
            old(self).iterations < EXACT_ITERATION_LIMIT,
        ensures
            final(self).iterations == old(self).iterations + 1,
            result == if !pressure.positive() || !change.finite() {
                ExactStep::Failed
            } else if change.le(tolerance) {
                ExactStep::Converged
            } else if final(self).iterations == EXACT_ITERATION_LIMIT {
                ExactStep::Failed
            } else {
                ExactStep::Continue
            },
            result == ExactStep::Converged ==> (Binary64 { bits: 0 }).lt(pressure) && pressure.finite()
                && !tolerance.lt(change),
            result == ExactStep::Continue ==> old(self).iterations < 999 && !change.le(tolerance),
            pressure.positive() && change.finite() && change.le(tolerance) ==> result
                == ExactStep::Converged,
    {
        self.iterations = self.iterations + 1;
        if !pressure.is_positive() || !change.is_finite() {
            return ExactStep::Failed;
        }
        if change.at_most(tolerance) {
            return ExactStep::Converged;
        }
        if self.iterations == EXACT_ITERATION_LIMIT {
            ExactStep::Failed
        } else {
            ExactStep::Continue
        }
    }

    /// Check the residual of a converged solution.
    pub fn validate_residual(
        self,
        residual: Binary64,
        allowed: Binary64,
        pressure: Binary64,
    ) -> (result: Result<(), HydroError>)
        ensures
            result == outcome(
                if residual.finite() && !allowed.lt(Binary64 { bits: residual.magnitude() as u64 }) {
                    None
                } else {
                    Some(
                        HydroError::ExactRiemannSolverDidNotConverge {
                            iterations: self.iterations,
                            pressure,
                        },
                    )
                },
            ),
            !allowed.nan() ==> (result is Ok <==> residual.finite() && residual.magnitude()
                <= allowed.rank()),
    {
        if !residual.is_finite() || allowed.less(residual.abs()) {
            Err(
                HydroError::ExactRiemannSolverDidNotConverge {
                    iterations: self.iterations,
                    pressure,
                },
            )
        } else {
            Ok(())
        }
    }
}

/// The geometry of a one-dimensional face.
#[derive(Clone, Copy, Debug, PartialEq, Eq, Structural)]
pub struct MeshlessFace1d {
    pub signed_area: Binary64,
    pub area: Binary64,
    pub distance_from_i: Binary64,
    pub distance_from_j: Binary64,
}

impl MeshlessFace1d {
    /// Whether the parts of a face agree: a nonzero area with its absolute value, and two
    /// finite offsets that point to the face from opposite sides and cancel up to rounding.
    pub open spec fn consistent(self, offset_sum: Binary64, offset_tolerance: Binary64) -> bool {
        &&& self.signed_area.finite()
        &&& self.signed_area.rank() != 0
        &&& self.area.same(Binary64 { bits: self.signed_area.magnitude() as u64 })
        &&& self.distance_from_i.finite()
        &&& self.distance_from_j.finite()
        &&& !self.distance_from_i.same(self.distance_from_j)
        &&& self.distance_from_i.negative() != self.signed_area.negative()
        &&& self.distance_from_j.negative() == self.signed_area.negative()
        &&& !offset_tolerance.lt(offset_sum)
    }

    /// Check that the parts of a face agree. `offset_sum` is the absolute sum of the two
    /// offsets and `offset_tolerance` what rounding allows for it.
    pub fn validate_pair_face(self, offset_sum: Binary64, offset_tolerance: Binary64) -> (result:
        Result<(), HydroError>)
        ensures
            result == outcome(
                if self.consistent(offset_sum, offset_tolerance) {
                    None
                } else {
                    Some(
                        HydroError::InvalidFaceInput {
                            side: "pair",
                            field: "signed_area",
                            value: self.signed_area,
                        },
                    )
                },
            ),
    {
        let zero: Binary64 = Binary64 { bits: 0 };
        if !self.signed_area.is_finite() || self.signed_area.equals(zero) || !self.area.equals(
            self.signed_area.abs(),
        ) || !self.distance_from_i.is_finite() || !self.distance_from_j.is_finite()
            || self.distance_from_i.equals(self.distance_from_j)
            || self.distance_from_i.is_negative() == self.signed_area.is_negative()
            || self.distance_from_j.is_negative() != self.signed_area.is_negative()
            || offset_tolerance.less(offset_sum) {
            return Err(
                HydroError::InvalidFaceInput {
                    side: "pair",
                    field: "signed_area",
                    value: self.signed_area,
                },
            );
        }
        Ok(())
    }
}

/// Check the closure errors of the two sides of a pair and their mean.
pub fn validate_closure(error_i: Binary64, error_j: Binary64, mean: Binary64) -> (result: Result<
    (),
    HydroError,
>)
    ensures
        result == outcome(
            if !error_i.nonnegative() {
                Some(
                    HydroError::InvalidReconstructionInput {
                        field: "i_face_closure_error",
                        value: error_i,
                    },
                )
            } else if !error_j.nonnegative() {
                Some(
                    HydroError::InvalidReconstructionInput {
                        field: "j_face_closure_error",
                        value: error_j,
                    },
                )
            } else if !mean.finite() {
                Some(HydroError::InvalidReconstructionInput { field: "closure_leak", value: mean })
            } else {
                None
            },
        ),
        result is Ok <==> (Binary64 { bits: 0 }).le(error_i) && error_i.finite() && (Binary64 {
            bits: 0,
        }).le(error_j) && error_j.finite() && mean.finite(),
{
    if !error_i.is_nonnegative() {
        return Err(
            HydroError::InvalidReconstructionInput { field: "i_face_closure_error", value: error_i },
        );
    }
    if !error_j.is_nonnegative() {
        return Err(
            HydroError::InvalidReconstructionInput { field: "j_face_closure_error", value: error_j },
        );
    }
    if !mean.is_finite() {
        return Err(HydroError::InvalidReconstructionInput { field: "closure_leak", value: mean });
    }
    Ok(())
}

/// The first attempt at a pair flux: reconstruction only where the faces close.
pub open spec fn first_path(closure_leak: Binary64) -> PairSolvePath {
    if closure_leak.le(Binary64 { bits: ONE_BITS }) {
        PairSolvePath::Reconstructed
    } else {
        PairSolvePath::Centered
    }
}

/// Choose the first attempt at a pair flux.
pub fn first_attempt(closure_leak: Binary64) -> (result: PairSolvePath)
    ensures
        result == first_path(closure_leak),
{
    let one: Binary64 = Binary64 { bits: ONE_BITS };
    if closure_leak.at_most(one) {
        PairSolvePath::Reconstructed
    } else {
        PairSolvePath::Centered
    }
}

/// Choose the order of reconstruction from the closure of a pair.
pub fn reconstruction_order(closure_leak: Binary64) -> (result: ReconstructionOrder)
    ensures
        result == if closure_leak.le(Binary64 { bits: ONE_BITS }) {
            ReconstructionOrder::First
        } else {
            ReconstructionOrder::Zeroth
        },
        (Binary64 { bits: ONE_BITS }).lt(closure_leak) ==> result == ReconstructionOrder::Zeroth,
        result == ReconstructionOrder::First ==> !(Binary64 { bits: ONE_BITS }).lt(closure_leak),
{
    let one: Binary64 = Binary64 { bits: ONE_BITS };
    if closure_leak.at_most(one) {
        ReconstructionOrder::First
    } else {
        ReconstructionOrder::Zeroth
    }
}

/// What follows from an attempt at a pair flux.
#[derive(Clone, Copy, Debug, PartialEq, Eq, Structural)]
pub enum PairDecision {
    Accept,
    Retry(PairSolvePath),
    Fail,
}

/// The decision after an attempt that gave a star pressure, or failed.
pub open spec fn pair_decision(
    path: PairSolvePath,
    star_pressure: Option<Binary64>,
    retry_limit: Binary64,
) -> PairDecision {
    match path {
        PairSolvePath::Reconstructed => match star_pressure {
            Some(star) if star.le(retry_limit) => PairDecision::Accept,
            _ => PairDecision::Retry(PairSolvePath::Centered),
        },
        PairSolvePath::Centered => match star_pressure {
            Some(_) => PairDecision::Accept,
            None => PairDecision::Retry(PairSolvePath::ZeroRelativeVelocity),
        },
        PairSolvePath::ZeroRelativeVelocity => match star_pressure {
            Some(_) => PairDecision::Accept,
            None => PairDecision::Fail,
        },
    }
}

/// Decide what follows from an attempt at a pair flux.
pub fn decide_pair(
    path: PairSolvePath,
    star_pressure: Option<Binary64>,
    retry_limit: Binary64,
) -> (result: PairDecision)
    ensures
        result == pair_decision(path, star_pressure, retry_limit),
{
    match path {
        PairSolvePath::Reconstructed => {
            if let Some(star) = star_pressure {
                if star.at_most(retry_limit) {
                    return PairDecision::Accept;
                }
            }
            PairDecision::Retry(PairSolvePath::Centered)
        },
        PairSolvePath::Centered => match star_pressure {
            Some(_) => PairDecision::Accept,
            None => PairDecision::Retry(PairSolvePath::ZeroRelativeVelocity),
        },
        PairSolvePath::ZeroRelativeVelocity => match star_pressure {
            Some(_) => PairDecision::Accept,
            None => PairDecision::Fail,
        },
    }
}

impl PairSolvePath {
    /// How many attempts may still follow.
    pub open spec fn attempts_left(self) -> int {
        match self {
            PairSolvePath::Reconstructed => 2,
            PairSolvePath::Centered => 1,
            PairSolvePath::ZeroRelativeVelocity => 0,
        }
    }
}

/// Every retry leaves fewer attempts, and only the last attempt can fail the pair.
pub proof fn law_pair_attempts_end(
    path: PairSolvePath,
    star_pressure: Option<Binary64>,
    retry_limit: Binary64,
)
    ensures
        pair_decision(path, star_pressure, retry_limit) matches PairDecision::Retry(next)
            ==> next.attempts_left() < path.attempts_left(),
        pair_decision(path, star_pressure, retry_limit) == PairDecision::Fail ==> path
            == PairSolvePath::ZeroRelativeVelocity && star_pressure is None,
{
}

/// A pair whose faces do not close is never solved from reconstructed states.
pub proof fn law_leaking_pairs_are_not_reconstructed(closure_leak: Binary64)
    requires
        (Binary64 { bits: ONE_BITS }).lt(closure_leak),
    ensures
        first_path(closure_leak) != PairSolvePath::Reconstructed,
{
}

/// Check the pressure limit of a pair.
pub fn validate_pair_limit(pressure_limit: Binary64) -> (result: Result<(), HydroError>)
    ensures
        result == outcome(
            if pressure_limit.positive() {
                None
            } else {
                Some(
                    HydroError::InvalidRiemannParameter {
                        field: "pair_pressure_limit",
                        value: pressure_limit,
                    },
                )
            },
        ),
        result is Ok <==> (Binary64 { bits: 0 }).lt(pressure_limit) && pressure_limit.finite(),
{
    if pressure_limit.is_positive() {
        Ok(())
    } else {
        Err(
            HydroError::InvalidRiemannParameter {
                field: "pair_pressure_limit",
                value: pressure_limit,
            },
        )
    }
}

/// The inputs of a face reconstruction.
#[derive(Clone, Copy, Debug, PartialEq, Eq, Structural)]
pub struct ReconstructionInput {
    pub value_i: Binary64,
    pub gradient_i: Binary64,
    pub value_j: Binary64,
    pub gradient_j: Binary64,
    pub face: MeshlessFace1d,
}

/// An input of a reconstruction that is not finite.
pub open spec fn reconstruction_fault(field: &'static str, value: Binary64) -> Option<HydroError> {
    if value.finite() {
        None
    } else {
        Some(HydroError::InvalidReconstructionInput { field, value })
    }
}

/// The fault of the inputs of a reconstruction.
pub open spec fn reconstruction_inputs_fault(input: ReconstructionInput) -> Option<HydroError> {
    first(
        reconstruction_fault("value_i", input.value_i),
        first(
            reconstruction_fault("gradient_i", input.gradient_i),
            first(
                reconstruction_fault("value_j", input.value_j),
                first(
                    reconstruction_fault("gradient_j", input.gradient_j),
                    first(
                        reconstruction_fault("signed_area", input.face.signed_area),
                        first(
                            reconstruction_fault("area", input.face.area),
                            first(
                                reconstruction_fault("distance_from_i", input.face.distance_from_i),
                                first(
                                    reconstruction_fault(
                                        "distance_from_j",
                                        input.face.distance_from_j,
                                    ),
                                    if input.face.area.positive() {
                                        None
                                    } else {
                                        Some(
                                            HydroError::InvalidReconstructionInput {
                                                field: "area",
                                                value: input.face.area,
                                            },
                                        )
                                    },
                                ),
                            ),
                        ),
                    ),
                ),
            ),
        ),
    )
}

fn check_reconstruction_value(field: &'static str, value: Binary64) -> (result: Result<
    (),
    HydroError,
>)
    ensures
        result == outcome(reconstruction_fault(field, value)),
{
    if value.is_finite() {
        Ok(())
    } else {
        Err(HydroError::InvalidReconstructionInput { field, value })
    }
}

/// Check the inputs of a reconstruction.
pub fn validate_reconstruction_inputs(input: ReconstructionInput) -> (result: Result<
    (),
    HydroError,
>)
    ensures
        result == outcome(reconstruction_inputs_fault(input)),
{
    if let Err(error) = check_reconstruction_value("value_i", input.value_i) {
        return Err(error);
    }
    if let Err(error) = check_reconstruction_value("gradient_i", input.gradient_i) {
        return Err(error);
    }
    if let Err(error) = check_reconstruction_value("value_j", input.value_j) {
        return Err(error);
    }
    if let Err(error) = check_reconstruction_value("gradient_j", input.gradient_j) {
        return Err(error);
    }
    if let Err(error) = check_reconstruction_value("signed_area", input.face.signed_area) {
        return Err(error);
    }
    if let Err(error) = check_reconstruction_value("area", input.face.area) {
        return Err(error);
    }
    if let Err(error) = check_reconstruction_value("distance_from_i", input.face.distance_from_i) {
        return Err(error);
    }
    if let Err(error) = check_reconstruction_value("distance_from_j", input.face.distance_from_j) {
        return Err(error);
    }
    if !input.face.area.is_positive() {
        return Err(
            HydroError::InvalidReconstructionInput { field: "area", value: input.face.area },
        );
    }
    Ok(())
}

/// The two states at a face.
#[derive(Clone, Copy, Debug, PartialEq, Eq, Structural)]
pub struct FaceStates1d {
    pub left: Binary64,
    pub right: Binary64,
}

/// The states at a face that need no slopes: the particle values, where the order is zeroth
/// or the values agree.
pub fn unsloped_states(input: ReconstructionInput, order: ReconstructionOrder) -> (result: Option<
    FaceStates1d,
>)
    ensures
        result == if order == ReconstructionOrder::Zeroth || input.value_i.same(input.value_j) {
            Some(FaceStates1d { left: input.value_j, right: input.value_i })
        } else {
            None
        },
        result is None <==> order != ReconstructionOrder::Zeroth && !input.value_i.same(
            input.value_j,
        ),
        result matches Some(states) ==> states.left == input.value_j && states.right
            == input.value_i,
{
    if order == ReconstructionOrder::Zeroth || input.value_i.equals(input.value_j) {
        Some(FaceStates1d { left: input.value_j, right: input.value_i })
    } else {
        None
    }
}

/// The bounds between which extrapolated face states are kept.
#[derive(Clone, Copy, Debug, PartialEq, Eq, Structural)]
pub struct FaceBounds {
    pub effective_minimum: Binary64,
    pub effective_maximum: Binary64,
    pub midpoint_minimum: Binary64,
    pub midpoint_maximum: Binary64,
}

impl FaceBounds {
    /// Whether both ranges are proper.
    pub open spec fn proper(self) -> bool {
        self.effective_minimum.le(self.midpoint_maximum) && self.midpoint_minimum.le(
            self.effective_maximum,
        )
    }

    /// Whether both ranges are proper.
    pub fn is_proper(self) -> (result: bool)
        ensures
            result == self.proper(),
    {
        self.effective_minimum.at_most(self.midpoint_maximum) && self.midpoint_minimum.at_most(
            self.effective_maximum,
        )
    }
}

/// A number kept between two bounds.
pub open spec fn clamped(value: Binary64, lower: Binary64, upper: Binary64) -> Binary64 {
    if value.lt(lower) {
        lower
    } else if upper.lt(value) {
        upper
    } else {
        value
    }
}

/// Keep a number between two bounds.
pub fn clamp(value: Binary64, lower: Binary64, upper: Binary64) -> (result: Binary64)
    requires
        lower.le(upper),
    ensures
        result == clamped(value, lower, upper),
{
    if value.less(lower) {
        lower
    } else if upper.less(value) {
        upper
    } else {
        value
    }
}

/// The face states after clamping: the side with the smaller value stays below the upper
/// midpoint bound, the other above the lower one.
pub open spec fn bounded_states(
    value_i: Binary64,
    value_j: Binary64,
    raw: FaceStates1d,
    bounds: FaceBounds,
) -> FaceStates1d {
    if value_i.lt(value_j) {
        FaceStates1d {
            left: clamped(raw.left, bounds.midpoint_minimum, bounds.effective_maximum),
            right: clamped(raw.right, bounds.effective_minimum, bounds.midpoint_maximum),
        }
    } else {
        FaceStates1d {
            left: clamped(raw.left, bounds.effective_minimum, bounds.midpoint_maximum),
            right: clamped(raw.right, bounds.midpoint_minimum, bounds.effective_maximum),
        }
    }
}

/// Keep extrapolated face states between their bounds.
pub fn bound_face_states(
    value_i: Binary64,
    value_j: Binary64,
    raw: FaceStates1d,
    bounds: FaceBounds,
) -> (result: FaceStates1d)
    requires
        bounds.proper(),
    ensures
        result == bounded_states(value_i, value_j, raw, bounds),
{
    if value_i.less(value_j) {
        FaceStates1d {
            left: clamp(raw.left, bounds.midpoint_minimum, bounds.effective_maximum),
            right: clamp(raw.right, bounds.effective_minimum, bounds.midpoint_maximum),
        }
    } else {
        FaceStates1d {
            left: clamp(raw.left, bounds.effective_minimum, bounds.midpoint_maximum),
            right: clamp(raw.right, bounds.midpoint_minimum, bounds.effective_maximum),
        }
    }
}

/// Exchanging the two particles exchanges the two face states.
pub proof fn law_face_states_exchange(
    value_i: Binary64,
    value_j: Binary64,
    raw: FaceStates1d,
    bounds: FaceBounds,
)
    requires
        !value_i.nan(),
        !value_j.nan(),
        !value_i.same(value_j),
    ensures
        bounded_states(
            value_j,
            value_i,
            FaceStates1d { left: raw.right, right: raw.left },
            bounds,
        ) == (FaceStates1d {
            left: bounded_states(value_i, value_j, raw, bounds).right,
            right: bounded_states(value_i, value_j, raw, bounds).left,
        }),
{
}

/// Bounded face states lie between the outer bounds.
pub proof fn law_face_states_stay_in_bounds(
    value_i: Binary64,
    value_j: Binary64,
    raw: FaceStates1d,
    bounds: FaceBounds,
)
    requires
        bounds.proper(),
        bounds.effective_minimum.le(bounds.midpoint_minimum),
        bounds.midpoint_maximum.le(bounds.effective_maximum),
        !raw.left.nan(),
        !raw.right.nan(),
    ensures
        bounds.effective_minimum.le(bounded_states(value_i, value_j, raw, bounds).left),
        bounded_states(value_i, value_j, raw, bounds).left.le(bounds.effective_maximum),
        bounds.effective_minimum.le(bounded_states(value_i, value_j, raw, bounds).right),
        bounded_states(value_i, value_j, raw, bounds).right.le(bounds.effective_maximum),
{
}

/// The geometry of one side of a face.
#[derive(Clone, Copy, Debug, PartialEq, Eq, Structural)]
pub struct MeshlessPoint1d {
    pub position: Binary64,
    pub mass: Binary64,
    pub density: Binary64,
    pub smoothing_length: Binary64,
    pub inverse_moment: Binary64,
}

/// Whether a coordinate is finite, not negative and not beyond the box.
pub open spec fn not_beyond(position: Binary64, box_size: Binary64, boundary: BoundaryMode1d) -> bool {
    &&& position.nonnegative()
    &&& match boundary {
        BoundaryMode1d::Periodic => !box_size.le(position),
        BoundaryMode1d::Reflective => !box_size.lt(position),
    }
}

/// The fault of one side of a face.
pub open spec fn meshless_point_fault(
    side: &'static str,
    point: MeshlessPoint1d,
    box_size: Binary64,
    boundary: BoundaryMode1d,
) -> Option<HydroError> {
    if !not_beyond(point.position, box_size, boundary) {
        Some(HydroError::InvalidFaceInput { side, field: "position", value: point.position })
    } else if !point.mass.positive() {
        Some(HydroError::InvalidFaceInput { side, field: "mass", value: point.mass })
    } else if !point.density.positive() {
        Some(HydroError::InvalidFaceInput { side, field: "density", value: point.density })
    } else if !point.smoothing_length.positive() {
        Some(
            HydroError::InvalidFaceInput {
                side,
                field: "smoothing_length",
                value: point.smoothing_length,
            },
        )
    } else if !point.inverse_moment.positive() {
        Some(
            HydroError::InvalidFaceInput {
                side,
                field: "inverse_moment",
                value: point.inverse_moment,
            },
        )
    } else {
        None
    }
}

/// Check one side of a face.
pub fn validate_meshless_point(
    side: &'static str,
    point: MeshlessPoint1d,
    box_size: Binary64,
    boundary: BoundaryMode1d,
) -> (result: Result<(), HydroError>)
    ensures
        result == outcome(meshless_point_fault(side, point, box_size, boundary)),
{
    let beyond: bool = match boundary {
        BoundaryMode1d::Periodic => box_size.at_most(point.position),
        BoundaryMode1d::Reflective => box_size.less(point.position),
    };
    if !point.position.is_nonnegative() || beyond {
        return Err(HydroError::InvalidFaceInput { side, field: "position", value: point.position });
    }
    if !point.mass.is_positive() {
        return Err(HydroError::InvalidFaceInput { side, field: "mass", value: point.mass });
    }
    if !point.density.is_positive() {
        return Err(HydroError::InvalidFaceInput { side, field: "density", value: point.density });
    }
    if !point.smoothing_length.is_positive() {
        return Err(
            HydroError::InvalidFaceInput {
                side,
                field: "smoothing_length",
                value: point.smoothing_length,
            },
        );
    }
    if !point.inverse_moment.is_positive() {
        return Err(
            HydroError::InvalidFaceInput {
                side,
                field: "inverse_moment",
                value: point.inverse_moment,
            },
        );
    }
    Ok(())
}

/// Check that two points interact: apart from each other and within one of the supports.
pub fn validate_face_pair(distance: Binary64, hsml_i: Binary64, hsml_j: Binary64) -> (result:
    Result<(), HydroError>)
    ensures
        result == outcome(
            if distance.le(Binary64 { bits: 0 }) || (hsml_i.le(distance) && hsml_j.le(distance)) {
                Some(HydroError::InvalidFacePair { distance, hsml_i, hsml_j })
            } else {
                None
            },
        ),
        !distance.nan() && !hsml_i.nan() && !hsml_j.nan() ==> (result is Ok <==> (Binary64 {
            bits: 0,
        }).lt(distance) && (distance.lt(hsml_i) || distance.lt(hsml_j))),
{
    let zero: Binary64 = Binary64 { bits: 0 };
    if distance.at_most(zero) || (hsml_i.at_most(distance) && hsml_j.at_most(distance)) {
        Err(HydroError::InvalidFacePair { distance, hsml_i, hsml_j })
    } else {
        Ok(())
    }
}

/// The relative jump of two volumes above which a face weights both sides alike.
pub const VOLUME_JUMP_BITS: u64 = 0x3ff4_0000_0000_0000;

/// Whether a face weights both sides by a common centered volume.
pub fn uses_centered_weight(volume_jump: Binary64) -> (result: bool)
    ensures
        result == (Binary64 { bits: VOLUME_JUMP_BITS }).lt(volume_jump),
        volume_jump.le(Binary64 { bits: VOLUME_JUMP_BITS }) ==> !result,
{
    let limit: Binary64 = Binary64 { bits: VOLUME_JUMP_BITS };
    limit.less(volume_jump)
}

/// Check a computed one-dimensional face: everything finite and a positive area.
pub fn validate_face_1d(
    volume_i: Binary64,
    volume_j: Binary64,
    weight_i: Binary64,
    weight_j: Binary64,
    signed_area: Binary64,
) -> (result: Result<(), HydroError>)
    ensures
        result == outcome(
            if volume_i.finite() && volume_j.finite() && weight_i.finite() && weight_j.finite()
                && signed_area.finite() && signed_area.rank() != 0 {
                None
            } else {
                Some(HydroError::NonFiniteFaceGeometry { signed_area, volume_i, volume_j })
            },
        ),
        result is Ok <==> volume_i.finite() && volume_j.finite() && weight_i.finite()
            && weight_j.finite() && signed_area.finite() && !signed_area.same(Binary64 { bits: 0 }),
{
    let zero: Binary64 = Binary64 { bits: 0 };
    if !volume_i.is_finite() || !volume_j.is_finite() || !weight_i.is_finite()
        || !weight_j.is_finite() || !signed_area.is_finite() || signed_area.equals(zero) {
        return Err(HydroError::NonFiniteFaceGeometry { signed_area, volume_i, volume_j });
    }
    Ok(())
}

/// Whether the extended range of two negative values reaches above zero.
pub fn maximum_changes_sign(maximum: Binary64, extended: Binary64) -> (result: bool)
    ensures
        result == (maximum.lt(Binary64 { bits: 0 }) && (Binary64 { bits: 0 }).lt(extended)),
        result ==> !(Binary64 { bits: 0 }).le(maximum) && !extended.le(Binary64 { bits: 0 }),
{
    let zero: Binary64 = Binary64 { bits: 0 };
    maximum.less(zero) && zero.less(extended)
}

/// Whether the extended range of two positive values reaches below zero.
pub fn minimum_changes_sign(minimum: Binary64, extended: Binary64) -> (result: bool)
    ensures
        result == ((Binary64 { bits: 0 }).lt(minimum) && extended.lt(Binary64 { bits: 0 })),
        result ==> !minimum.le(Binary64 { bits: 0 }) && !(Binary64 { bits: 0 }).le(extended),
{
    let zero: Binary64 = Binary64 { bits: 0 };
    zero.less(minimum) && extended.less(zero)
}

/// Check the values of a face reconstruction.
pub fn validate_reconstruction(values: &[Binary64], states: FaceStates1d) -> (result: Result<
    (),
    HydroError,
>)
    ensures
        result == outcome(
            if forall|i: int| 0 <= i < values@.len() ==> (#[trigger] values@[i]).finite() {
                None
            } else {
                Some(HydroError::NonFiniteReconstruction { left: states.left, right: states.right })
            },
        ),
        (exists|i: int| 0 <= i < values@.len() && !(#[trigger] values@[i]).finite()) ==> result is Err,
{
    if are_finite(values) {
        Ok(())
    } else {
        Err(HydroError::NonFiniteReconstruction { left: states.left, right: states.right })
    }
}

/// Check one value of a face problem.
pub fn validate_riemann_value(field: &'static str, value: Binary64) -> (result: Result<
    (),
    HydroError,
>)
    ensures
        result == outcome(
            if value.finite() {
                None
            } else {
                Some(HydroError::NonFiniteRiemannResult { field, value })
            },
        ),
        result is Ok <==> value.finite(),
{
    if value.is_finite() {
        Ok(())
    } else {
        Err(HydroError::NonFiniteRiemannResult { field, value })
    }
}

impl ExactIteration {
    /// Check the starting pressure.
    pub fn validate_guess(self, pressure: Binary64) -> (result: Result<(), HydroError>)
        ensures
            result == outcome(
                if pressure.positive() {
                    None
                } else {
                    Some(
                        HydroError::ExactRiemannSolverDidNotConverge {
                            iterations: self.iterations,
                            pressure,
                        },
                    )
                },
            ),
            result is Ok <==> (Binary64 { bits: 0 }).lt(pressure) && pressure.finite(),
    {
        if pressure.is_positive() {
            Ok(())
        } else {
            Err(self.failure(pressure))
        }
    }

    /// The error of an iteration that ends at a pressure without converging.
    pub fn failure(self, pressure: Binary64) -> (result: HydroError)
        ensures
            result == (HydroError::ExactRiemannSolverDidNotConverge {
                iterations: self.iterations,
                pressure,
            }),
    {
        HydroError::ExactRiemannSolverDidNotConverge { iterations: self.iterations, pressure }
    }
}

/// A state of a face problem is refused exactly where density or pressure is not positive or
/// the velocity is not finite; the first of these is reported.
pub proof fn law_face_problem_states(
    side: &'static str,
    state: PrimitiveState1d,
)
    ensures
        riemann_state_fault(side, state) is None <==> {
            &&& (Binary64 { bits: 0 }).lt(state.density) && state.density.finite()
            &&& state.velocity.finite()
            &&& (Binary64 { bits: 0 }).lt(state.pressure) && state.pressure.finite()
        },
        ({
            &&& !((Binary64 { bits: 0 }).lt(state.density) && state.density.finite())
        }) ==> riemann_state_fault(side, state) == Some(
            HydroError::InvalidRiemannState { side, field: "density", value: state.density },
        ),
        ({
            &&& (Binary64 { bits: 0 }).lt(state.density) && state.density.finite()
            &&& !(state.velocity.finite())
        }) ==> riemann_state_fault(side, state) == Some(
            HydroError::InvalidRiemannState { side, field: "velocity", value: state.velocity },
        ),
        ({
            &&& (Binary64 { bits: 0 }).lt(state.density) && state.density.finite()
            &&& state.velocity.finite()
            &&& !((Binary64 { bits: 0 }).lt(state.pressure) && state.pressure.finite())
        }) ==> riemann_state_fault(side, state) == Some(
            HydroError::InvalidRiemannState { side, field: "pressure", value: state.pressure },
        ),
{
}

/// A face problem is posed exactly where both states are fit, the gas can be compressed and
/// the pressure limit is positive; the left state is looked at first.
pub proof fn law_face_problems(
    left: PrimitiveState1d,
    right: PrimitiveState1d,
    gamma: Binary64,
    pressure_limit: Binary64,
)
    ensures
        flux_inputs_fault(left, right, gamma, pressure_limit) is None <==> {
            &&& left.density.positive() && left.pressure.positive() && left.velocity.finite()
            &&& right.density.positive() && right.pressure.positive() && right.velocity.finite()
            &&& (Binary64 { bits: ONE_BITS }).lt(gamma) && gamma.finite()
            &&& (Binary64 { bits: 0 }).lt(pressure_limit) && pressure_limit.finite()
        },
        riemann_state_fault("left", left) is Some ==> flux_inputs_fault(
            left,
            right,
            gamma,
            pressure_limit,
        ) == riemann_state_fault("left", left),
        riemann_state_fault("left", left) is None && riemann_state_fault("right", right) is Some
            ==> flux_inputs_fault(left, right, gamma, pressure_limit) == riemann_state_fault(
            "right",
            right,
        ),
{
}

/// An estimate of a contact is usable exactly where its pressure is positive and within the
/// limit and its speed is finite; a higher limit refuses nothing that a lower one accepts.
pub proof fn law_usable_stars(
    star: Binary64,
    contact: Binary64,
    limit: Binary64,
    higher: Binary64,
)
    ensures
        star_accepted(star, contact, limit) ==> (Binary64 { bits: 0 }).lt(star) && star.le(limit)
            && contact.finite(),
        (Binary64 { bits: 0 }).lt(star) && star.finite() && star.le(limit) && contact.finite()
            ==> star_accepted(star, contact, limit),
        star_accepted(star, contact, limit) && limit.le(higher) ==> star_accepted(
            star,
            contact,
            higher,
        ),
{
}

/// Contact estimates are tried in order: the first usable one is accepted, an unusable one is
/// followed by the next, and after the last only a finite pressure that is not negative
/// counts: within the limit it is accepted, above it the exact solver is asked.
pub proof fn law_contact_estimates(star: Binary64, contact: Binary64, limit: Binary64)
    requires
        !limit.nan(),
    ensures
        star.positive() && contact.finite() && star.le(limit) ==> {
            &&& contact_decision(ContactEstimate::Primitive, star, contact, limit)
                == ContactDecision::Accept
            &&& contact_decision(ContactEstimate::Roe, star, contact, limit)
                == ContactDecision::Accept
            &&& contact_decision(ContactEstimate::Acoustic, star, contact, limit)
                == ContactDecision::Accept
        },
        !(star.positive() && contact.finite() && star.le(limit)) ==> {
            &&& contact_decision(ContactEstimate::Primitive, star, contact, limit)
                == ContactDecision::Try(ContactEstimate::Roe)
            &&& contact_decision(ContactEstimate::Roe, star, contact, limit)
                == ContactDecision::Try(ContactEstimate::Acoustic)
        },
        contact_decision(ContactEstimate::Acoustic, star, contact, limit)
            == ContactDecision::NeedsKt <==> !star.finite() || !contact.finite() || star.lt(
            Binary64 { bits: 0 },
        ),
        contact_decision(ContactEstimate::Acoustic, star, contact, limit)
            == ContactDecision::NeedsExact <==> (Binary64 { bits: 0 }).le(star) && star.finite()
            && contact.finite() && limit.lt(star),
{
}

/// The parts of a face agree exactly where its area is the size of the signed one and does
/// not vanish, both offsets are finite and differ, the one from the first particle points
/// against the face and the other along it, and their sum is within rounding.
pub proof fn law_consistent_faces(
    face: MeshlessFace1d,
    offset_sum: Binary64,
    offset_tolerance: Binary64,
)
    requires
        !offset_sum.nan(),
        !offset_tolerance.nan(),
    ensures
        face.consistent(offset_sum, offset_tolerance) <==> {
            &&& face.signed_area.finite() && !face.signed_area.same(Binary64 { bits: 0 })
            &&& !face.area.nan() && face.area.rank() == face.signed_area.magnitude()
            &&& face.distance_from_i.finite() && face.distance_from_j.finite()
            &&& !face.distance_from_i.same(face.distance_from_j)
            &&& face.distance_from_i.negative() <==> !face.signed_area.negative()
            &&& face.distance_from_j.negative() <==> face.signed_area.negative()
            &&& offset_sum.le(offset_tolerance)
        },
{
}

/// Pairs on faces that leak no more than one are reconstructed first, all others start from
/// centered states.
pub proof fn law_first_attempts(closure_leak: Binary64)
    requires
        !closure_leak.nan(),
    ensures
        first_path(closure_leak) == PairSolvePath::Reconstructed <==> closure_leak.le(
            Binary64 { bits: ONE_BITS },
        ),
        first_path(closure_leak) == PairSolvePath::Centered <==> (Binary64 { bits: ONE_BITS }).lt(
            closure_leak,
        ),
{
}

/// A reconstructed pair is accepted only within the retry limit, a simpler attempt wherever
/// it was solved; a failed attempt is followed by the next simpler one, and only the last one
/// fails.
pub proof fn law_pair_decisions(star: Binary64, retry_limit: Binary64)
    requires
        !star.nan(),
        !retry_limit.nan(),
    ensures
        pair_decision(PairSolvePath::Reconstructed, Some(star), retry_limit)
            == PairDecision::Accept <==> !retry_limit.lt(star),
        retry_limit.lt(star) ==> pair_decision(
            PairSolvePath::Reconstructed,
            Some(star),
            retry_limit,
        ) == PairDecision::Retry(PairSolvePath::Centered),
        pair_decision(PairSolvePath::Reconstructed, None, retry_limit) == PairDecision::Retry(
            PairSolvePath::Centered,
        ),
        pair_decision(PairSolvePath::Centered, Some(star), retry_limit) == PairDecision::Accept,
        pair_decision(PairSolvePath::Centered, None, retry_limit) == PairDecision::Retry(
            PairSolvePath::ZeroRelativeVelocity,
        ),
        pair_decision(PairSolvePath::ZeroRelativeVelocity, Some(star), retry_limit)
            == PairDecision::Accept,
        pair_decision(PairSolvePath::ZeroRelativeVelocity, None, retry_limit)
            == PairDecision::Fail,
{
}

/// A clamped number lies between the bounds, is the number itself where that does, and the
/// bound that it crossed where it does not.
pub proof fn law_clamped_numbers(value: Binary64, lower: Binary64, upper: Binary64)
    requires
        !value.nan(),
        lower.le(upper),
    ensures
        lower.le(clamped(value, lower, upper)) && clamped(value, lower, upper).le(upper),
        lower.le(value) && value.le(upper) ==> clamped(value, lower, upper) == value,
        value.lt(lower) ==> clamped(value, lower, upper) == lower,
        upper.lt(value) ==> clamped(value, lower, upper) == upper,
{
}

/// The state next to a particle stays on the side of the midpoint on which that particle's
/// value lies: with the smaller value first, the left state does not fall below the midpoint
/// and the right one does not rise above it.
pub proof fn law_face_states_keep_their_sides(
    value_i: Binary64,
    value_j: Binary64,
    raw: FaceStates1d,
    bounds: FaceBounds,
)
    requires
        bounds.proper(),
        !raw.left.nan(),
        !raw.right.nan(),
    ensures
        value_i.lt(value_j) ==> {
            let states = bounded_states(value_i, value_j, raw, bounds);
            &&& bounds.midpoint_minimum.le(states.left) && states.left.le(bounds.effective_maximum)
            &&& bounds.effective_minimum.le(states.right) && states.right.le(
                bounds.midpoint_maximum,
            )
        },
        !value_i.lt(value_j) ==> {
            let states = bounded_states(value_i, value_j, raw, bounds);
            &&& bounds.effective_minimum.le(states.left) && states.left.le(bounds.midpoint_maximum)
            &&& bounds.midpoint_minimum.le(states.right) && states.right.le(
                bounds.effective_maximum,
            )
        },
        value_i.lt(value_j) && bounds.midpoint_minimum.le(raw.left) && raw.left.le(
            bounds.effective_maximum,
        ) ==> bounded_states(value_i, value_j, raw, bounds).left == raw.left,
        value_i.lt(value_j) && bounds.effective_minimum.le(raw.right) && raw.right.le(
            bounds.midpoint_maximum,
        ) ==> bounded_states(value_i, value_j, raw, bounds).right == raw.right,
        !value_i.lt(value_j) && bounds.effective_minimum.le(raw.left) && raw.left.le(
            bounds.midpoint_maximum,
        ) ==> bounded_states(value_i, value_j, raw, bounds).left == raw.left,
        !value_i.lt(value_j) && bounds.midpoint_minimum.le(raw.right) && raw.right.le(
            bounds.effective_maximum,
        ) ==> bounded_states(value_i, value_j, raw, bounds).right == raw.right,
        bounds.effective_minimum.le(bounds.midpoint_maximum),
        bounds.midpoint_minimum.le(bounds.effective_maximum),
{
}

/// A position of a face is accepted from zero up to the box size, which itself belongs to a
/// reflective box and not to a periodic one.
pub proof fn law_face_positions(position: Binary64, box_size: Binary64)
    requires
        box_size.positive(),
    ensures
        not_beyond(position, box_size, BoundaryMode1d::Periodic) <==> (Binary64 { bits: 0 }).le(
            position,
        ) && position.lt(box_size),
        not_beyond(position, box_size, BoundaryMode1d::Reflective) <==> (Binary64 { bits: 0 }).le(
            position,
        ) && position.le(box_size),
        not_beyond(box_size, box_size, BoundaryMode1d::Reflective),
        !not_beyond(box_size, box_size, BoundaryMode1d::Periodic),
{
}

/// All numbers of a list are finite exactly where none is not.
pub proof fn law_finite_lists(values: Seq<Binary64>)
    ensures
        all_finite(values) <==> !exists|k: int|
            0 <= k < values.len() && !(#[trigger] values[k]).finite(),
{
}

/// The limits of the face problems: a thousand corrections, and a volume jump of five
/// quarters.
pub proof fn law_face_problem_constants()
    ensures
        EXACT_ITERATION_LIMIT == 1000,
        nearest(Binary64 { bits: VOLUME_JUMP_BITS }, 5, 4),
{
    lemma2_to64();
    lemma2_to64_rest();
}

/// A reconstruction is possible exactly where values, slopes and the face are finite and the
/// area is positive; the first that is not so is reported.
pub proof fn law_reconstruction_inputs(
    input: ReconstructionInput,
)
    ensures
        reconstruction_inputs_fault(input) is None <==> {
            &&& input.value_i.finite()
            &&& input.gradient_i.finite()
            &&& input.value_j.finite()
            &&& input.gradient_j.finite()
            &&& input.face.signed_area.finite()
            &&& input.face.area.finite()
            &&& input.face.distance_from_i.finite()
            &&& input.face.distance_from_j.finite()
            &&& (Binary64 { bits: 0 }).lt(input.face.area)
        },
        ({
            &&& !(input.value_i.finite())
        }) ==> reconstruction_inputs_fault(input) == Some(
            HydroError::InvalidReconstructionInput { field: "value_i", value: input.value_i },
        ),
        ({
            &&& input.value_i.finite()
            &&& !(input.gradient_i.finite())
        }) ==> reconstruction_inputs_fault(input) == Some(
            HydroError::InvalidReconstructionInput { field: "gradient_i", value: input.gradient_i },
        ),
        ({
            &&& input.value_i.finite()
            &&& input.gradient_i.finite()
            &&& !(input.value_j.finite())
        }) ==> reconstruction_inputs_fault(input) == Some(
            HydroError::InvalidReconstructionInput { field: "value_j", value: input.value_j },
        ),
        ({
            &&& input.value_i.finite()
            &&& input.gradient_i.finite()
            &&& input.value_j.finite()
            &&& !(input.gradient_j.finite())
        }) ==> reconstruction_inputs_fault(input) == Some(
            HydroError::InvalidReconstructionInput { field: "gradient_j", value: input.gradient_j },
        ),
        ({
            &&& input.value_i.finite()
            &&& input.gradient_i.finite()
            &&& input.value_j.finite()
            &&& input.gradient_j.finite()
            &&& !(input.face.signed_area.finite())
        }) ==> reconstruction_inputs_fault(input) == Some(
            HydroError::InvalidReconstructionInput { field: "signed_area", value: input.face.signed_area },
        ),
        ({
            &&& input.value_i.finite()
            &&& input.gradient_i.finite()
            &&& input.value_j.finite()
            &&& input.gradient_j.finite()
            &&& input.face.signed_area.finite()
            &&& !(input.face.area.finite())
        }) ==> reconstruction_inputs_fault(input) == Some(
            HydroError::InvalidReconstructionInput { field: "area", value: input.face.area },
        ),
        ({
            &&& input.value_i.finite()
            &&& input.gradient_i.finite()
            &&& input.value_j.finite()
            &&& input.gradient_j.finite()
            &&& input.face.signed_area.finite()
            &&& input.face.area.finite()
            &&& !(input.face.distance_from_i.finite())
        }) ==> reconstruction_inputs_fault(input) == Some(
            HydroError::InvalidReconstructionInput { field: "distance_from_i", value: input.face.distance_from_i },
        ),
        ({
            &&& input.value_i.finite()
            &&& input.gradient_i.finite()
            &&& input.value_j.finite()
            &&& input.gradient_j.finite()
            &&& input.face.signed_area.finite()
            &&& input.face.area.finite()
            &&& input.face.distance_from_i.finite()
            &&& !(input.face.distance_from_j.finite())
        }) ==> reconstruction_inputs_fault(input) == Some(
            HydroError::InvalidReconstructionInput { field: "distance_from_j", value: input.face.distance_from_j },
        ),
        ({
            &&& input.value_i.finite()
            &&& input.gradient_i.finite()
            &&& input.value_j.finite()
            &&& input.gradient_j.finite()
            &&& input.face.signed_area.finite()
            &&& input.face.area.finite()
            &&& input.face.distance_from_i.finite()
            &&& input.face.distance_from_j.finite()
            &&& !((Binary64 { bits: 0 }).lt(input.face.area))
        }) ==> reconstruction_inputs_fault(input) == Some(
            HydroError::InvalidReconstructionInput { field: "area", value: input.face.area },
        ),
{
}

/// One side of a face is refused exactly where it lies outside the box, or one of its
/// quantities is not positive; the first of these is reported.
pub proof fn law_face_points(
    side: &'static str,
    point: MeshlessPoint1d,
    box_size: Binary64,
    boundary: BoundaryMode1d,
)
    ensures
        meshless_point_fault(side, point, box_size, boundary) is None <==> {
            &&& not_beyond(point.position, box_size, boundary)
            &&& (Binary64 { bits: 0 }).lt(point.mass) && point.mass.finite()
            &&& (Binary64 { bits: 0 }).lt(point.density) && point.density.finite()
            &&& (Binary64 { bits: 0 }).lt(point.smoothing_length) && point.smoothing_length.finite()
            &&& (Binary64 { bits: 0 }).lt(point.inverse_moment) && point.inverse_moment.finite()
        },
        ({
            &&& !(not_beyond(point.position, box_size, boundary))
        }) ==> meshless_point_fault(side, point, box_size, boundary) == Some(
            HydroError::InvalidFaceInput { side, field: "position", value: point.position },
        ),
        ({
            &&& not_beyond(point.position, box_size, boundary)
            &&& !((Binary64 { bits: 0 }).lt(point.mass) && point.mass.finite())
        }) ==> meshless_point_fault(side, point, box_size, boundary) == Some(
            HydroError::InvalidFaceInput { side, field: "mass", value: point.mass },
        ),
        ({
            &&& not_beyond(point.position, box_size, boundary)
            &&& (Binary64 { bits: 0 }).lt(point.mass) && point.mass.finite()
            &&& !((Binary64 { bits: 0 }).lt(point.density) && point.density.finite())
        }) ==> meshless_point_fault(side, point, box_size, boundary) == Some(
            HydroError::InvalidFaceInput { side, field: "density", value: point.density },
        ),
        ({
            &&& not_beyond(point.position, box_size, boundary)
            &&& (Binary64 { bits: 0 }).lt(point.mass) && point.mass.finite()
            &&& (Binary64 { bits: 0 }).lt(point.density) && point.density.finite()
            &&& !((Binary64 { bits: 0 }).lt(point.smoothing_length) && point.smoothing_length.finite())
        }) ==> meshless_point_fault(side, point, box_size, boundary) == Some(
            HydroError::InvalidFaceInput { side, field: "smoothing_length", value: point.smoothing_length },
        ),
        ({
            &&& not_beyond(point.position, box_size, boundary)
            &&& (Binary64 { bits: 0 }).lt(point.mass) && point.mass.finite()
            &&& (Binary64 { bits: 0 }).lt(point.density) && point.density.finite()
            &&& (Binary64 { bits: 0 }).lt(point.smoothing_length) && point.smoothing_length.finite()
            &&& !((Binary64 { bits: 0 }).lt(point.inverse_moment) && point.inverse_moment.finite())
        }) ==> meshless_point_fault(side, point, box_size, boundary) == Some(
            HydroError::InvalidFaceInput { side, field: "inverse_moment", value: point.inverse_moment },
        ),
{
}

/// The inputs of a flux are refused in order: the left state, the right one, the adiabatic
/// index, and the limit of the pressure.
pub proof fn law_flux_inputs_are_refused_in_order(
    left: PrimitiveState1d,
    right: PrimitiveState1d,
    gamma: Binary64,
    pressure_limit: Binary64,
)
    ensures
        ({
            let fault = flux_inputs_fault(left, right, gamma, pressure_limit);
            let fit_left = riemann_state_fault("left", left) is None;
            let fit_right = riemann_state_fault("right", right) is None;
            let compressible = (Binary64 { bits: ONE_BITS }).lt(gamma) && gamma.finite();
            let limited = (Binary64 { bits: 0 }).lt(pressure_limit) && pressure_limit.finite();
            &&& fault is None <==> fit_left && fit_right && compressible && limited
            &&& !fit_left ==> fault == riemann_state_fault("left", left)
            &&& fit_left && !fit_right ==> fault == riemann_state_fault("right", right)
            &&& fit_left && fit_right && !compressible ==> fault == Some(
                HydroError::InvalidRiemannParameter { field: "gamma", value: gamma },
            )
            &&& fit_left && fit_right && compressible && !limited ==> fault == Some(
                HydroError::InvalidRiemannParameter {
                    field: "pressure_limit",
                    value: pressure_limit,
                },
            )
        }),
{
}

/// The bounds are proper exactly where neither range ends before it begins; a range of one
/// value is proper.
pub proof fn law_proper_bounds(bounds: FaceBounds)
    requires
        !bounds.effective_minimum.nan(),
        !bounds.effective_maximum.nan(),
        !bounds.midpoint_minimum.nan(),
        !bounds.midpoint_maximum.nan(),
    ensures
        bounds.proper() <==> !bounds.midpoint_maximum.lt(bounds.effective_minimum)
            && !bounds.effective_maximum.lt(bounds.midpoint_minimum),
        bounds.effective_minimum == bounds.midpoint_maximum && bounds.midpoint_minimum
            == bounds.effective_maximum ==> bounds.proper(),
{
}

} // verus!
