//! Choice of the entropic pair energy.

use vstd::prelude::*;

use crate::binary64::Binary64;
use crate::hydro_error::HydroError;
use crate::riemann::RiemannMethod;

verus! {

use crate::binary64::{nearest, HALF_BITS, NAN_BITS, ONE_BITS};
use vstd::arithmetic::power2::{lemma2_to64, lemma2_to64_rest};
use crate::fault::{first, outcome};

/// The pattern of one thousandth, the speed ratio up to which the entropic energy is used
/// without a further test.
pub const SMALL_RATIO_BITS: u64 = 0x3f50_624d_d2f1_a9fc;

/// One side of an entropic pair.
#[derive(Clone, Copy, Debug, PartialEq, Eq, Structural)]
pub struct EntropicPoint1d {
    pub velocity: Binary64,
    pub density: Binary64,
    pub pressure: Binary64,
    pub sound_speed: Binary64,
    pub volume: Binary64,
    pub dhsml_factor: Binary64,
    pub kernel_radial_derivative: Binary64,
    pub condition_number: Binary64,
    pub face_closure_error: Binary64,
}

/// A state value that does not satisfy its condition.
pub open spec fn side_fault(
    side: &'static str,
    field: &'static str,
    value: Binary64,
    valid: bool,
) -> Option<HydroError> {
    if valid {
        None
    } else {
        Some(HydroError::InvalidRiemannState { side, field, value })
    }
}

/// The fault of one side of an entropic pair.
pub open spec fn entropic_point_fault(side: &'static str, point: EntropicPoint1d) -> Option<
    HydroError,
> {
    first(
        side_fault(side, "density", point.density, point.density.positive()),
        first(
            side_fault(side, "pressure", point.pressure, point.pressure.positive()),
            first(
                side_fault(side, "sound_speed", point.sound_speed, point.sound_speed.positive()),
                first(
                    side_fault(side, "volume", point.volume, point.volume.positive()),
                    first(
                        side_fault(
                            side,
                            "dhsml_factor",
                            point.dhsml_factor,
                            point.dhsml_factor.positive(),
                        ),
                        first(
                            side_fault(side, "velocity", point.velocity, point.velocity.finite()),
                            first(
                                side_fault(
                                    side,
                                    "kernel_radial_derivative",
                                    point.kernel_radial_derivative,
                                    point.kernel_radial_derivative.finite()
                                        && point.kernel_radial_derivative.rank() <= 0,
                                ),
                                first(
                                    side_fault(
                                        side,
                                        "condition_number",
                                        point.condition_number,
                                        point.condition_number.nonnegative(),
                                    ),
                                    side_fault(
                                        side,
                                        "face_closure_error",
                                        point.face_closure_error,
                                        point.face_closure_error.nonnegative(),
                                    ),
                                ),
                            ),
                        ),
                    ),
                ),
            ),
        ),
    )
}

/// Check one side of an entropic pair.
pub fn validate_entropic_point(side: &'static str, point: EntropicPoint1d) -> (result: Result<
    (),
    HydroError,
>)
    ensures
        result == outcome(entropic_point_fault(side, point)),
{
    let zero: Binary64 = Binary64 { bits: 0 };
    if !point.density.is_positive() {
        return Err(
            HydroError::InvalidRiemannState { side, field: "density", value: point.density },
        );
    }
    if !point.pressure.is_positive() {
        return Err(
            HydroError::InvalidRiemannState { side, field: "pressure", value: point.pressure },
        );
    }
    if !point.sound_speed.is_positive() {
        return Err(
            HydroError::InvalidRiemannState { side, field: "sound_speed", value: point.sound_speed },
        );
    }
    if !point.volume.is_positive() {
        return Err(HydroError::InvalidRiemannState { side, field: "volume", value: point.volume });
    }
    if !point.dhsml_factor.is_positive() {
        return Err(
            HydroError::InvalidRiemannState {
                side,
                field: "dhsml_factor",
                value: point.dhsml_factor,
            },
        );
    }
    if !point.velocity.is_finite() {
        return Err(
            HydroError::InvalidRiemannState { side, field: "velocity", value: point.velocity },
        );
    }
    if !point.kernel_radial_derivative.is_finite() || zero.less(point.kernel_radial_derivative) {
        return Err(
            HydroError::InvalidRiemannState {
                side,
                field: "kernel_radial_derivative",
                value: point.kernel_radial_derivative,
            },
        );
    }
    if !point.condition_number.is_nonnegative() {
        return Err(
            HydroError::InvalidRiemannState {
                side,
                field: "condition_number",
                value: point.condition_number,
            },
        );
    }
    if !point.face_closure_error.is_nonnegative() {
        return Err(
            HydroError::InvalidRiemannState {
                side,
                field: "face_closure_error",
                value: point.face_closure_error,
            },
        );
    }
    Ok(())
}

/// A pair flux with the values that it has to agree with.
#[derive(Clone, Copy, Debug, PartialEq, Eq, Structural)]
pub struct SourceFlux {
    pub mass: Binary64,
    pub momentum: Binary64,
    pub energy: Binary64,
    pub star_pressure: Binary64,
    pub interface_velocity: Binary64,
    pub solver_speed: Binary64,
    pub closure_leak: Binary64,
    pub method: RiemannMethod,
    /// The mean of the two particle velocities.
    pub midpoint_velocity: Binary64,
    /// The momentum that the star pressure exerts on the face.
    pub expected_momentum: Binary64,
}

/// A flux value that is not finite.
pub open spec fn flux_value_fault(field: &'static str, value: Binary64) -> Option<HydroError> {
    if value.finite() {
        None
    } else {
        Some(HydroError::NonFiniteRiemannResult { field, value })
    }
}

/// The fault of a pair flux that is about to be corrected: its values, a negative star
/// pressure, then a flux that does not stem from the pair.
pub open spec fn source_flux_fault(flux: SourceFlux) -> Option<HydroError> {
    first(
        flux_value_fault("mass", flux.mass),
        first(
            flux_value_fault("momentum", flux.momentum),
            first(
                flux_value_fault("energy", flux.energy),
                first(
                    flux_value_fault("star_pressure", flux.star_pressure),
                    first(
                        flux_value_fault("interface_velocity", flux.interface_velocity),
                        first(
                            flux_value_fault("solver_speed", flux.solver_speed),
                            first(
                                flux_value_fault("closure_leak", flux.closure_leak),
                                if flux.star_pressure.rank() < 0 {
                                    Some(
                                        HydroError::InvalidRiemannParameter {
                                            field: "star_pressure",
                                            value: flux.star_pressure,
                                        },
                                    )
                                } else if flux.mass.rank() == 0 && flux.interface_velocity.same(
                                    flux.midpoint_velocity,
                                ) && (flux.method == RiemannMethod::KurganovTadmor
                                    || flux.momentum.same(flux.expected_momentum)) {
                                    None
                                } else {
                                    Some(
                                        HydroError::InvalidRiemannParameter {
                                            field: "entropic_source_flux",
                                            value: flux.momentum,
                                        },
                                    )
                                },
                            ),
                        ),
                    ),
                ),
            ),
        ),
    )
}

fn check_flux_value(field: &'static str, value: Binary64) -> (result: Result<(), HydroError>)
    ensures
        result == outcome(flux_value_fault(field, value)),
{
    if value.is_finite() {
        Ok(())
    } else {
        Err(HydroError::NonFiniteRiemannResult { field, value })
    }
}

/// Check a pair flux before its energy is corrected.
pub fn validate_source_flux(flux: SourceFlux) -> (result: Result<(), HydroError>)
    ensures
        result == outcome(source_flux_fault(flux)),
{
    let zero: Binary64 = Binary64 { bits: 0 };
    if let Err(error) = check_flux_value("mass", flux.mass) {
        return Err(error);
    }
    if let Err(error) = check_flux_value("momentum", flux.momentum) {
        return Err(error);
    }
    if let Err(error) = check_flux_value("energy", flux.energy) {
        return Err(error);
    }
    if let Err(error) = check_flux_value("star_pressure", flux.star_pressure) {
        return Err(error);
    }
    if let Err(error) = check_flux_value("interface_velocity", flux.interface_velocity) {
        return Err(error);
    }
    if let Err(error) = check_flux_value("solver_speed", flux.solver_speed) {
        return Err(error);
    }
    if let Err(error) = check_flux_value("closure_leak", flux.closure_leak) {
        return Err(error);
    }
    if flux.star_pressure.less(zero) {
        return Err(
            HydroError::InvalidRiemannParameter {
                field: "star_pressure",
                value: flux.star_pressure,
            },
        );
    }
    let momentum_matches: bool = flux.method == RiemannMethod::KurganovTadmor
        || flux.momentum.equals(flux.expected_momentum);
    if !flux.mass.equals(zero) || !flux.interface_velocity.equals(flux.midpoint_velocity)
        || !momentum_matches {
        return Err(
            HydroError::InvalidRiemannParameter {
                field: "entropic_source_flux",
                value: flux.momentum,
            },
        );
    }
    Ok(())
}

/// Whether the raw energy is kept without looking further: a fast contact on faces that
/// close.
pub open spec fn keeps_raw_energy(speed_ratio: Binary64, closure_leak: Binary64) -> bool {
    (Binary64 { bits: HALF_BITS }).le(speed_ratio) && closure_leak.le(Binary64 { bits: ONE_BITS })
}

/// Whether the entropic correction of a pair has to be evaluated.
///
/// `closure_leak` is the mean closure error, and has to be the one of the flux.
pub fn needs_correction(flux_leak: Binary64, speed_ratio: Binary64, closure_leak: Binary64) -> (result:
    Result<bool, HydroError>)
    ensures
        match result {
            Ok(evaluate) => flux_leak.same(closure_leak) && speed_ratio.finite()
                && closure_leak.finite() && evaluate == !keeps_raw_energy(
                speed_ratio,
                closure_leak,
            ),
            Err(error) => if !flux_leak.same(closure_leak) {
                error == (HydroError::InvalidRiemannParameter {
                    field: "closure_leak",
                    value: flux_leak,
                })
            } else {
                (!speed_ratio.finite() || !closure_leak.finite()) && error
                    == (HydroError::NonFiniteRiemannResult {
                    field: "entropic_gate",
                    value: Binary64 { bits: NAN_BITS },
                })
            },
        },
        result matches Ok(evaluate) ==> (speed_ratio.lt(Binary64 { bits: HALF_BITS }) || (Binary64 {
            bits: ONE_BITS,
        }).lt(closure_leak) ==> evaluate),
        result is Ok <==> flux_leak.same(closure_leak) && speed_ratio.finite()
            && closure_leak.finite(),
{
    let one: Binary64 = Binary64 { bits: ONE_BITS };
    let half: Binary64 = Binary64 { bits: HALF_BITS };
    if !flux_leak.equals(closure_leak) {
        return Err(
            HydroError::InvalidRiemannParameter { field: "closure_leak", value: flux_leak },
        );
    }
    if !speed_ratio.is_finite() || !closure_leak.is_finite() {
        return Err(
            HydroError::NonFiniteRiemannResult {
                field: "entropic_gate",
                value: Binary64 { bits: NAN_BITS },
            },
        );
    }
    Ok(!(half.at_most(speed_ratio) && closure_leak.at_most(one)))
}

/// What the choice between the raw and the entropic energy depends on.
#[derive(Clone, Copy, Debug, PartialEq, Eq, Structural)]
pub struct EntropicChoice {
    /// The contact speed in units of the smaller sound speed.
    pub speed_ratio: Binary64,
    /// The squared condition number of the second particle.
    pub neighbor_condition_squared: Binary64,
    /// What the squared condition number of the first particle leaves of the limit.
    pub condition_threshold: Binary64,
    /// Pressure over density of the first particle.
    pub temperature_i: Binary64,
    /// Pressure over density of the second particle.
    pub temperature_j: Binary64,
    /// The thermal change of the first particle by the raw energy.
    pub raw_change_i: Binary64,
    /// The thermal change of the first particle by the entropic energy.
    pub entropic_change_i: Binary64,
    /// The thermal change of the second particle by the raw energy.
    pub raw_change_j: Binary64,
    /// The thermal change of the second particle by the entropic energy.
    pub entropic_change_j: Binary64,
}

/// Whether the raw energy treats the colder particle acceptably: it heats it, or cools it
/// less than the entropic energy would.
pub open spec fn spares_the_colder(raw: Binary64, entropic: Binary64) -> bool {
    let zero = Binary64 { bits: 0 };
    zero.lt(raw) || (raw.lt(zero) && entropic.lt(raw))
}

fn is_sparing(raw: Binary64, entropic: Binary64) -> (result: bool)
    ensures
        result == spares_the_colder(raw, entropic),
{
    let zero: Binary64 = Binary64 { bits: 0 };
    zero.less(raw) || (raw.less(zero) && entropic.less(raw))
}

impl EntropicChoice {
    /// Whether the moments are too ill conditioned to trust the raw energy.
    pub open spec fn ill_conditioned(self) -> bool {
        self.condition_threshold.le(self.neighbor_condition_squared)
    }

    /// Whether the moments are conditioned well enough to trust the raw energy.
    pub open spec fn well_conditioned(self) -> bool {
        self.neighbor_condition_squared.lt(self.condition_threshold)
    }

    /// Whether the raw energy may be kept: a contact that is not slow, well-conditioned
    /// moments, unequal temperatures, and a colder particle that is spared.
    pub open spec fn raw_allowed(self) -> bool {
        &&& (Binary64 { bits: SMALL_RATIO_BITS }).lt(self.speed_ratio)
        &&& self.well_conditioned()
        &&& !self.temperature_i.same(self.temperature_j)
        &&& if self.temperature_j.lt(self.temperature_i) {
            spares_the_colder(self.raw_change_j, self.entropic_change_j)
        } else {
            spares_the_colder(self.raw_change_i, self.entropic_change_i)
        }
    }

    /// Choose the entropic energy.
    pub fn selects_entropic(self) -> (result: bool)
        ensures
            result == !self.raw_allowed(),
    {
        let small: Binary64 = Binary64 { bits: SMALL_RATIO_BITS };
        let mut entropic: bool = true;
        if small.less(self.speed_ratio) && self.neighbor_condition_squared.less(
            self.condition_threshold,
        ) && !self.temperature_i.equals(self.temperature_j) {
            if self.temperature_j.less(self.temperature_i) {
                if is_sparing(self.raw_change_j, self.entropic_change_j) {
                    entropic = false;
                }
            } else if is_sparing(self.raw_change_i, self.entropic_change_i) {
                entropic = false;
            }
        }
        if self.condition_threshold.at_most(self.neighbor_condition_squared) {
            entropic = true;
        }
        entropic
    }

    /// The choice seen from the other particle, whose conditioning test has numbers of its
    /// own.
    pub open spec fn exchanged(
        self,
        neighbor_condition_squared: Binary64,
        condition_threshold: Binary64,
    ) -> EntropicChoice {
        EntropicChoice {
            speed_ratio: self.speed_ratio,
            neighbor_condition_squared,
            condition_threshold,
            temperature_i: self.temperature_j,
            temperature_j: self.temperature_i,
            raw_change_i: self.raw_change_j,
            entropic_change_i: self.entropic_change_j,
            raw_change_j: self.raw_change_i,
            entropic_change_j: self.entropic_change_i,
        }
    }
}

/// Ill-conditioned moments force the entropic energy.
pub proof fn law_ill_conditioning_forces_the_entropic_energy(choice: EntropicChoice)
    requires
        choice.ill_conditioned(),
    ensures
        !choice.raw_allowed(),
{
}

/// A slow contact always takes the entropic energy.
pub proof fn law_slow_contacts_are_entropic(choice: EntropicChoice)
    requires
        choice.speed_ratio.le(Binary64 { bits: SMALL_RATIO_BITS }),
    ensures
        !choice.raw_allowed(),
{
}

/// The choice does not depend on which particle comes first, wherever the conditioning test
/// gives the same answer from both sides.
pub proof fn law_entropic_choice_is_symmetric(
    choice: EntropicChoice,
    neighbor_condition_squared: Binary64,
    condition_threshold: Binary64,
)
    requires
        !choice.temperature_i.nan(),
        !choice.temperature_j.nan(),
        choice.well_conditioned() == choice.exchanged(
            neighbor_condition_squared,
            condition_threshold,
        ).well_conditioned(),
    ensures
        choice.exchanged(neighbor_condition_squared, condition_threshold).raw_allowed()
            == choice.raw_allowed(),
{
}

/// Check the squared condition numbers of a pair. `larger` is the larger condition number.
pub fn validate_conditions(
    condition_i_squared: Binary64,
    condition_j_squared: Binary64,
    larger: Binary64,
) -> (result: Result<(), HydroError>)
    ensures
        result == outcome(
            if condition_i_squared.finite() && condition_j_squared.finite() {
                None
            } else {
                Some(
                    HydroError::InvalidRiemannParameter {
                        field: "condition_number",
                        value: larger,
                    },
                )
            },
        ),
        result is Ok <==> condition_i_squared.finite() && condition_j_squared.finite(),
{
    if condition_i_squared.is_finite() && condition_j_squared.is_finite() {
        Ok(())
    } else {
        Err(HydroError::InvalidRiemannParameter { field: "condition_number", value: larger })
    }
}

/// One side of an entropic pair is refused exactly where a quantity that must be positive is
/// not, the kernel grows outward, or another number is not finite; the first of these is
/// reported.
pub proof fn law_entropic_points(
    side: &'static str,
    point: EntropicPoint1d,
)
    ensures
        entropic_point_fault(side, point) is None <==> {
            &&& (Binary64 { bits: 0 }).lt(point.density) && point.density.finite()
            &&& (Binary64 { bits: 0 }).lt(point.pressure) && point.pressure.finite()
            &&& (Binary64 { bits: 0 }).lt(point.sound_speed) && point.sound_speed.finite()
            &&& (Binary64 { bits: 0 }).lt(point.volume) && point.volume.finite()
            &&& (Binary64 { bits: 0 }).lt(point.dhsml_factor) && point.dhsml_factor.finite()
            &&& point.velocity.finite()
            &&& point.kernel_radial_derivative.le(Binary64 { bits: 0 }) && point.kernel_radial_derivative.finite()
            &&& (Binary64 { bits: 0 }).le(point.condition_number) && point.condition_number.finite()
            &&& (Binary64 { bits: 0 }).le(point.face_closure_error) && point.face_closure_error.finite()
        },
        ({
            &&& !((Binary64 { bits: 0 }).lt(point.density) && point.density.finite())
        }) ==> entropic_point_fault(side, point) == Some(
            HydroError::InvalidRiemannState { side, field: "density", value: point.density },
        ),
        ({
            &&& (Binary64 { bits: 0 }).lt(point.density) && point.density.finite()
            &&& !((Binary64 { bits: 0 }).lt(point.pressure) && point.pressure.finite())
        }) ==> entropic_point_fault(side, point) == Some(
            HydroError::InvalidRiemannState { side, field: "pressure", value: point.pressure },
        ),
        ({
            &&& (Binary64 { bits: 0 }).lt(point.density) && point.density.finite()
            &&& (Binary64 { bits: 0 }).lt(point.pressure) && point.pressure.finite()
            &&& !((Binary64 { bits: 0 }).lt(point.sound_speed) && point.sound_speed.finite())
        }) ==> entropic_point_fault(side, point) == Some(
            HydroError::InvalidRiemannState { side, field: "sound_speed", value: point.sound_speed },
        ),
        ({
            &&& (Binary64 { bits: 0 }).lt(point.density) && point.density.finite()
            &&& (Binary64 { bits: 0 }).lt(point.pressure) && point.pressure.finite()
            &&& (Binary64 { bits: 0 }).lt(point.sound_speed) && point.sound_speed.finite()
            &&& !((Binary64 { bits: 0 }).lt(point.volume) && point.volume.finite())
        }) ==> entropic_point_fault(side, point) == Some(
            HydroError::InvalidRiemannState { side, field: "volume", value: point.volume },
        ),
        ({
            &&& (Binary64 { bits: 0 }).lt(point.density) && point.density.finite()
            &&& (Binary64 { bits: 0 }).lt(point.pressure) && point.pressure.finite()
            &&& (Binary64 { bits: 0 }).lt(point.sound_speed) && point.sound_speed.finite()
            &&& (Binary64 { bits: 0 }).lt(point.volume) && point.volume.finite()
            &&& !((Binary64 { bits: 0 }).lt(point.dhsml_factor) && point.dhsml_factor.finite())
        }) ==> entropic_point_fault(side, point) == Some(
            HydroError::InvalidRiemannState { side, field: "dhsml_factor", value: point.dhsml_factor },
        ),
        ({
            &&& (Binary64 { bits: 0 }).lt(point.density) && point.density.finite()
            &&& (Binary64 { bits: 0 }).lt(point.pressure) && point.pressure.finite()
            &&& (Binary64 { bits: 0 }).lt(point.sound_speed) && point.sound_speed.finite()
            &&& (Binary64 { bits: 0 }).lt(point.volume) && point.volume.finite()
            &&& (Binary64 { bits: 0 }).lt(point.dhsml_factor) && point.dhsml_factor.finite()
            &&& !(point.velocity.finite())
        }) ==> entropic_point_fault(side, point) == Some(
            HydroError::InvalidRiemannState { side, field: "velocity", value: point.velocity },
        ),
        ({
            &&& (Binary64 { bits: 0 }).lt(point.density) && point.density.finite()
            &&& (Binary64 { bits: 0 }).lt(point.pressure) && point.pressure.finite()
            &&& (Binary64 { bits: 0 }).lt(point.sound_speed) && point.sound_speed.finite()
            &&& (Binary64 { bits: 0 }).lt(point.volume) && point.volume.finite()
            &&& (Binary64 { bits: 0 }).lt(point.dhsml_factor) && point.dhsml_factor.finite()
            &&& point.velocity.finite()
            &&& !(point.kernel_radial_derivative.le(Binary64 { bits: 0 }) && point.kernel_radial_derivative.finite())
        }) ==> entropic_point_fault(side, point) == Some(
            HydroError::InvalidRiemannState { side, field: "kernel_radial_derivative", value: point.kernel_radial_derivative },
        ),
        ({
            &&& (Binary64 { bits: 0 }).lt(point.density) && point.density.finite()
            &&& (Binary64 { bits: 0 }).lt(point.pressure) && point.pressure.finite()
            &&& (Binary64 { bits: 0 }).lt(point.sound_speed) && point.sound_speed.finite()
            &&& (Binary64 { bits: 0 }).lt(point.volume) && point.volume.finite()
            &&& (Binary64 { bits: 0 }).lt(point.dhsml_factor) && point.dhsml_factor.finite()
            &&& point.velocity.finite()
            &&& point.kernel_radial_derivative.le(Binary64 { bits: 0 }) && point.kernel_radial_derivative.finite()
            &&& !((Binary64 { bits: 0 }).le(point.condition_number) && point.condition_number.finite())
        }) ==> entropic_point_fault(side, point) == Some(
            HydroError::InvalidRiemannState { side, field: "condition_number", value: point.condition_number },
        ),
        ({
            &&& (Binary64 { bits: 0 }).lt(point.density) && point.density.finite()
            &&& (Binary64 { bits: 0 }).lt(point.pressure) && point.pressure.finite()
            &&& (Binary64 { bits: 0 }).lt(point.sound_speed) && point.sound_speed.finite()
            &&& (Binary64 { bits: 0 }).lt(point.volume) && point.volume.finite()
            &&& (Binary64 { bits: 0 }).lt(point.dhsml_factor) && point.dhsml_factor.finite()
            &&& point.velocity.finite()
            &&& point.kernel_radial_derivative.le(Binary64 { bits: 0 }) && point.kernel_radial_derivative.finite()
            &&& (Binary64 { bits: 0 }).le(point.condition_number) && point.condition_number.finite()
            &&& !((Binary64 { bits: 0 }).le(point.face_closure_error) && point.face_closure_error.finite())
        }) ==> entropic_point_fault(side, point) == Some(
            HydroError::InvalidRiemannState { side, field: "face_closure_error", value: point.face_closure_error },
        ),
{
}

/// A pair flux can be corrected exactly where it is finite, its star pressure is not negative,
/// no mass flows, the interface moves with the midpoint, and its momentum is that of the star
/// pressure unless the central solver gave it.
pub proof fn law_source_fluxes(
    flux: SourceFlux,
)
    ensures
        source_flux_fault(flux) is None <==> {
            &&& flux.mass.finite()
            &&& flux.momentum.finite()
            &&& flux.energy.finite()
            &&& flux.star_pressure.finite()
            &&& flux.interface_velocity.finite()
            &&& flux.solver_speed.finite()
            &&& flux.closure_leak.finite()
            &&& !flux.star_pressure.lt(Binary64 { bits: 0 })
            &&& flux.mass.same(Binary64 { bits: 0 }) && flux.interface_velocity.same(flux.midpoint_velocity) && (flux.method == RiemannMethod::KurganovTadmor || flux.momentum.same(flux.expected_momentum))
        },
        ({
            &&& !(flux.mass.finite())
        }) ==> source_flux_fault(flux) == Some(
            HydroError::NonFiniteRiemannResult { field: "mass", value: flux.mass },
        ),
        ({
            &&& flux.mass.finite()
            &&& !(flux.momentum.finite())
        }) ==> source_flux_fault(flux) == Some(
            HydroError::NonFiniteRiemannResult { field: "momentum", value: flux.momentum },
        ),
        ({
            &&& flux.mass.finite()
            &&& flux.momentum.finite()
            &&& !(flux.energy.finite())
        }) ==> source_flux_fault(flux) == Some(
            HydroError::NonFiniteRiemannResult { field: "energy", value: flux.energy },
        ),
        ({
            &&& flux.mass.finite()
            &&& flux.momentum.finite()
            &&& flux.energy.finite()
            &&& !(flux.star_pressure.finite())
        }) ==> source_flux_fault(flux) == Some(
            HydroError::NonFiniteRiemannResult { field: "star_pressure", value: flux.star_pressure },
        ),
        ({
            &&& flux.mass.finite()
            &&& flux.momentum.finite()
            &&& flux.energy.finite()
            &&& flux.star_pressure.finite()
            &&& !(flux.interface_velocity.finite())
        }) ==> source_flux_fault(flux) == Some(
            HydroError::NonFiniteRiemannResult { field: "interface_velocity", value: flux.interface_velocity },
        ),
        ({
            &&& flux.mass.finite()
            &&& flux.momentum.finite()
            &&& flux.energy.finite()
            &&& flux.star_pressure.finite()
            &&& flux.interface_velocity.finite()
            &&& !(flux.solver_speed.finite())
        }) ==> source_flux_fault(flux) == Some(
            HydroError::NonFiniteRiemannResult { field: "solver_speed", value: flux.solver_speed },
        ),
        ({
            &&& flux.mass.finite()
            &&& flux.momentum.finite()
            &&& flux.energy.finite()
            &&& flux.star_pressure.finite()
            &&& flux.interface_velocity.finite()
            &&& flux.solver_speed.finite()
            &&& !(flux.closure_leak.finite())
        }) ==> source_flux_fault(flux) == Some(
            HydroError::NonFiniteRiemannResult { field: "closure_leak", value: flux.closure_leak },
        ),
        ({
            &&& flux.mass.finite()
            &&& flux.momentum.finite()
            &&& flux.energy.finite()
            &&& flux.star_pressure.finite()
            &&& flux.interface_velocity.finite()
            &&& flux.solver_speed.finite()
            &&& flux.closure_leak.finite()
            &&& !(!flux.star_pressure.lt(Binary64 { bits: 0 }))
        }) ==> source_flux_fault(flux) == Some(
            HydroError::InvalidRiemannParameter { field: "star_pressure", value: flux.star_pressure },
        ),
        ({
            &&& flux.mass.finite()
            &&& flux.momentum.finite()
            &&& flux.energy.finite()
            &&& flux.star_pressure.finite()
            &&& flux.interface_velocity.finite()
            &&& flux.solver_speed.finite()
            &&& flux.closure_leak.finite()
            &&& !flux.star_pressure.lt(Binary64 { bits: 0 })
            &&& !(flux.mass.same(Binary64 { bits: 0 }) && flux.interface_velocity.same(flux.midpoint_velocity) && (flux.method == RiemannMethod::KurganovTadmor || flux.momentum.same(flux.expected_momentum)))
        }) ==> source_flux_fault(flux) == Some(
            HydroError::InvalidRiemannParameter { field: "entropic_source_flux", value: flux.momentum },
        ),
{
}

/// The raw energy is kept at once only for a contact at half the sound speed or more, on
/// faces that leak no more than one; a slower contact or a larger leak is looked into.
pub proof fn law_fast_closed_contacts_keep_the_raw_energy(
    speed_ratio: Binary64,
    closure_leak: Binary64,
)
    requires
        !speed_ratio.nan(),
        !closure_leak.nan(),
    ensures
        speed_ratio.lt(Binary64 { bits: HALF_BITS }) ==> !keeps_raw_energy(
            speed_ratio,
            closure_leak,
        ),
        (Binary64 { bits: ONE_BITS }).lt(closure_leak) ==> !keeps_raw_energy(
            speed_ratio,
            closure_leak,
        ),
        !speed_ratio.lt(Binary64 { bits: HALF_BITS }) && !(Binary64 { bits: ONE_BITS }).lt(
            closure_leak,
        ) ==> keeps_raw_energy(speed_ratio, closure_leak),
{
}

/// The raw energy spares the colder particle where it heats it, or cools it by less than the
/// entropic energy would.
pub proof fn law_colder_particles_are_spared(raw: Binary64, entropic: Binary64)
    requires
        !raw.nan(),
        !entropic.nan(),
    ensures
        (Binary64 { bits: 0 }).lt(raw) ==> spares_the_colder(raw, entropic),
        raw.same(Binary64 { bits: 0 }) ==> !spares_the_colder(raw, entropic),
        raw.lt(Binary64 { bits: 0 }) ==> (spares_the_colder(raw, entropic) <==> entropic.lt(raw)),
{
}

/// The raw energy is allowed exactly where the contact is not slow, the moments are well
/// conditioned, and the particle that is colder than the other is spared.
pub proof fn law_raw_energies(choice: EntropicChoice)
    requires
        !choice.speed_ratio.nan(),
        !choice.neighbor_condition_squared.nan(),
        !choice.condition_threshold.nan(),
        !choice.temperature_i.nan(),
        !choice.temperature_j.nan(),
    ensures
        choice.raw_allowed() <==> {
            &&& !choice.speed_ratio.le(Binary64 { bits: SMALL_RATIO_BITS })
            &&& !choice.condition_threshold.le(choice.neighbor_condition_squared)
            &&& {
                ||| choice.temperature_j.lt(choice.temperature_i) && spares_the_colder(
                    choice.raw_change_j,
                    choice.entropic_change_j,
                )
                ||| choice.temperature_i.lt(choice.temperature_j) && spares_the_colder(
                    choice.raw_change_i,
                    choice.entropic_change_i,
                )
            }
        },
        choice.ill_conditioned() != choice.well_conditioned(),
        choice.ill_conditioned() <==> !choice.neighbor_condition_squared.lt(
            choice.condition_threshold,
        ),
        nearest(Binary64 { bits: SMALL_RATIO_BITS }, 1, 1000),
{
    lemma2_to64();
    lemma2_to64_rest();
}

} // verus!
