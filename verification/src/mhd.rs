//! Decisions of the one-dimensional ideal-MHD Riemann solver.
//!
//! The normal direction is the local `x` direction. The wave speeds and states are
//! computed elsewhere; what is decided from them stands here: which inputs are physical,
//! which wave-speed estimate is accepted, when the contact fan is abandoned, and which
//! state of the fan a face samples.

use vstd::prelude::*;

use crate::binary64::Binary64;
use crate::message::MessagePart;

verus! {

use crate::binary64::{NAN_BITS, ONE_BITS, SIGNIFICAND_UNIT};

/// A Cartesian three-vector.
#[derive(Clone, Copy, Debug, PartialEq, Eq, Structural)]
pub struct Vector3 {
    pub x: Binary64,
    pub y: Binary64,
    pub z: Binary64,
}

impl Vector3 {
    /// All components finite.
    pub open spec fn finite(self) -> bool {
        self.x.finite() && self.y.finite() && self.z.finite()
    }

    /// All components numerically equal.
    pub open spec fn same(self, other: Vector3) -> bool {
        self.x.same(other.x) && self.y.same(other.y) && self.z.same(other.z)
    }

    /// A vector from its components.
    pub fn new(x: Binary64, y: Binary64, z: Binary64) -> (result: Self)
        ensures
            result == (Vector3 { x, y, z }),
    {
        Vector3 { x, y, z }
    }

    /// Whether all components are finite.
    pub fn is_finite(self) -> (result: bool)
        ensures
            result == self.finite(),
    {
        self.x.is_finite() && self.y.is_finite() && self.z.is_finite()
    }

    /// Whether all components are numerically equal.
    pub fn equals(self, other: Vector3) -> (result: bool)
        ensures
            result == self.same(other),
    {
        self.x.equals(other.x) && self.y.equals(other.y) && self.z.equals(other.z)
    }
}

/// Errors of the ideal-MHD core.
#[derive(Clone, Copy, Debug, PartialEq)]
pub enum MhdError {
    InvalidGamma(Binary64),
    InvalidPrimitiveState { side: &'static str, field: &'static str, value: Binary64 },
    InvalidConservedState,
    /// No physical contact fan exists. A caller with fixed particle masses has to retry its
    /// reconstruction: a two-wave flux would carry mass through the face.
    NoAdmissibleContactFlux,
    InvalidDednerParameter { field: &'static str, value: Binary64 },
    NonFiniteResult(&'static str),
}

impl MhdError {
    /// The wording of the error.
    pub open spec fn wording(self) -> Seq<MessagePart> {
        match self {
            MhdError::InvalidGamma(gamma) => seq![
                MessagePart::Text("invalid ideal-gas gamma "),
                MessagePart::Value(gamma),
            ],
            MhdError::InvalidPrimitiveState { side, field, value } => seq![
                MessagePart::Text("invalid MHD "),
                MessagePart::Text(side),
                MessagePart::Text(" "),
                MessagePart::Text(field),
                MessagePart::Text("="),
                MessagePart::Value(value),
            ],
            MhdError::InvalidConservedState => seq![
                MessagePart::Text("invalid conservative MHD state"),
            ],
            MhdError::NoAdmissibleContactFlux => seq![
                MessagePart::Text("HLLD has no admissible fixed-mass contact flux"),
            ],
            MhdError::InvalidDednerParameter { field, value } => seq![
                MessagePart::Text("invalid Dedner parameter "),
                MessagePart::Text(field),
                MessagePart::Text("="),
                MessagePart::Value(value),
            ],
            MhdError::NonFiniteResult(stage) => seq![
                MessagePart::Text("non-finite MHD result in "),
                MessagePart::Text(stage),
            ],
        }
    }

    /// The message of the error, part by part.
    pub fn message(&self) -> (result: Vec<MessagePart>)
        ensures
            result@ == self.wording(),
    {
        match *self {
            MhdError::InvalidGamma(gamma) => vec![
                MessagePart::Text("invalid ideal-gas gamma "),
                MessagePart::Value(gamma),
            ],
            MhdError::InvalidPrimitiveState { side, field, value } => vec![
                MessagePart::Text("invalid MHD "),
                MessagePart::Text(side),
                MessagePart::Text(" "),
                MessagePart::Text(field),
                MessagePart::Text("="),
                MessagePart::Value(value),
            ],
            MhdError::InvalidConservedState => vec![
                MessagePart::Text("invalid conservative MHD state"),
            ],
            MhdError::NoAdmissibleContactFlux => vec![
                MessagePart::Text("HLLD has no admissible fixed-mass contact flux"),
            ],
            MhdError::InvalidDednerParameter { field, value } => vec![
                MessagePart::Text("invalid Dedner parameter "),
                MessagePart::Text(field),
                MessagePart::Text("="),
                MessagePart::Value(value),
            ],
            MhdError::NonFiniteResult(stage) => vec![
                MessagePart::Text("non-finite MHD result in "),
                MessagePart::Text(stage),
            ],
        }
    }
}

/// A primitive ideal-MHD state in a frame whose normal is `x`.
#[derive(Clone, Copy, Debug, PartialEq, Eq, Structural)]
pub struct IdealMhdPrimitive1d {
    pub density: Binary64,
    pub velocity: Vector3,
    pub gas_pressure: Binary64,
    pub magnetic: Vector3,
    /// Divergence-cleaning scalar.
    pub cleaning_scalar: Binary64,
}

/// A conservative ideal-MHD state.
#[derive(Clone, Copy, Debug, PartialEq, Eq, Structural)]
pub struct IdealMhdConserved1d {
    pub density: Binary64,
    pub momentum: Vector3,
    pub total_energy: Binary64,
    pub magnetic: Vector3,
    pub cleaning_scalar: Binary64,
}

/// A conservative flux through a face normal to `x`.
#[derive(Clone, Copy, Debug, PartialEq, Eq, Structural)]
pub struct IdealMhdFlux1d {
    pub mass: Binary64,
    pub momentum: Vector3,
    pub total_energy: Binary64,
    pub magnetic: Vector3,
}

impl IdealMhdConserved1d {
    /// All components finite.
    pub open spec fn finite(self) -> bool {
        self.density.finite() && self.momentum.finite() && self.total_energy.finite()
            && self.magnetic.finite() && self.cleaning_scalar.finite()
    }

    /// Whether all components are finite.
    pub fn is_finite(self) -> (result: bool)
        ensures
            result == self.finite(),
    {
        self.density.is_finite() && self.momentum.is_finite() && self.total_energy.is_finite()
            && self.magnetic.is_finite() && self.cleaning_scalar.is_finite()
    }

    /// Accept a finite result, or name the stage it came from.
    pub fn validate_stage(self, stage: &'static str) -> (result: Result<(), MhdError>)
        ensures
            result is Ok <==> self.finite(),
            result matches Err(error) ==> error == MhdError::NonFiniteResult(stage),
    {
        if self.is_finite() {
            Ok(())
        } else {
            Err(MhdError::NonFiniteResult(stage))
        }
    }

    /// Check that a primitive state can be recovered: all components finite and a positive
    /// density.
    pub fn validate_recoverable(self) -> (result: Result<(), MhdError>)
        ensures
            result is Ok <==> self.finite() && self.density.positive(),
            result matches Err(error) ==> error == MhdError::InvalidConservedState,
    {
        if self.is_finite() && self.density.is_positive() {
            Ok(())
        } else {
            Err(MhdError::InvalidConservedState)
        }
    }
}

impl IdealMhdFlux1d {
    /// All components finite.
    pub open spec fn finite(self) -> bool {
        self.mass.finite() && self.momentum.finite() && self.total_energy.finite()
            && self.magnetic.finite()
    }

    /// Whether all components are finite.
    pub fn is_finite(self) -> (result: bool)
        ensures
            result == self.finite(),
    {
        self.mass.is_finite() && self.momentum.is_finite() && self.total_energy.is_finite()
            && self.magnetic.is_finite()
    }

    /// Accept a finite result, or name the stage it came from.
    pub fn validate_stage(self, stage: &'static str) -> (result: Result<(), MhdError>)
        ensures
            result is Ok <==> self.finite(),
            result matches Err(error) ==> error == MhdError::NonFiniteResult(stage),
    {
        if self.is_finite() {
            Ok(())
        } else {
            Err(MhdError::NonFiniteResult(stage))
        }
    }

    /// The components of a conservative state that a moving face carries with it.
    pub fn from_conserved(state: IdealMhdConserved1d) -> (result: Self)
        ensures
            result == (IdealMhdFlux1d {
                mass: state.density,
                momentum: state.momentum,
                total_energy: state.total_energy,
                magnetic: state.magnetic,
            }),
            result.mass == state.density && result.momentum == state.momentum && result.total_energy
                == state.total_energy && result.magnetic == state.magnetic,
    {
        IdealMhdFlux1d {
            mass: state.density,
            momentum: state.momentum,
            total_energy: state.total_energy,
            magnetic: state.magnetic,
        }
    }
}

/// The first unphysical component of a primitive state, if there is one.
pub open spec fn primitive_fault(side: &'static str, state: IdealMhdPrimitive1d) -> Option<
    MhdError,
> {
    let nan = Binary64 { bits: NAN_BITS };
    if !state.density.positive() {
        Some(MhdError::InvalidPrimitiveState { side, field: "density", value: state.density })
    } else if !state.gas_pressure.positive() {
        Some(
            MhdError::InvalidPrimitiveState {
                side,
                field: "gas_pressure",
                value: state.gas_pressure,
            },
        )
    } else if !state.velocity.finite() {
        Some(MhdError::InvalidPrimitiveState { side, field: "velocity", value: nan })
    } else if !state.magnetic.finite() {
        Some(MhdError::InvalidPrimitiveState { side, field: "magnetic", value: nan })
    } else if !state.cleaning_scalar.finite() {
        Some(
            MhdError::InvalidPrimitiveState {
                side,
                field: "cleaning_scalar",
                value: state.cleaning_scalar,
            },
        )
    } else {
        None
    }
}

/// Check a primitive state.
pub fn validate_primitive(side: &'static str, state: IdealMhdPrimitive1d) -> (result: Result<
    (),
    MhdError,
>)
    ensures
        match result {
            Ok(_) => primitive_fault(side, state) is None,
            Err(error) => primitive_fault(side, state) == Some(error),
        },
{
    let nan: Binary64 = Binary64 { bits: NAN_BITS };
    if !state.density.is_positive() {
        return Err(
            MhdError::InvalidPrimitiveState { side, field: "density", value: state.density },
        );
    }
    if !state.gas_pressure.is_positive() {
        return Err(
            MhdError::InvalidPrimitiveState {
                side,
                field: "gas_pressure",
                value: state.gas_pressure,
            },
        );
    }
    if !state.velocity.is_finite() {
        return Err(MhdError::InvalidPrimitiveState { side, field: "velocity", value: nan });
    }
    if !state.magnetic.is_finite() {
        return Err(MhdError::InvalidPrimitiveState { side, field: "magnetic", value: nan });
    }
    if !state.cleaning_scalar.is_finite() {
        return Err(
            MhdError::InvalidPrimitiveState {
                side,
                field: "cleaning_scalar",
                value: state.cleaning_scalar,
            },
        );
    }
    Ok(())
}

/// Whether an adiabatic index is finite and above one.
pub open spec fn gamma_valid(gamma: Binary64) -> bool {
    gamma.finite() && gamma.rank() > ONE_BITS
}

/// Check an adiabatic index.
pub fn validate_gamma(gamma: Binary64) -> (result: Result<(), MhdError>)
    ensures
        result is Ok <==> gamma_valid(gamma),
        result matches Err(error) ==> error == MhdError::InvalidGamma(gamma),
        result is Ok <==> (Binary64 { bits: ONE_BITS }).lt(gamma) && gamma.finite(),
{
    let one: Binary64 = Binary64 { bits: ONE_BITS };
    if gamma.is_finite() && one.less(gamma) {
        Ok(())
    } else {
        Err(MhdError::InvalidGamma(gamma))
    }
}

/// Check a cleaning parameter that must not be negative.
pub fn validate_nonnegative_dedner(field: &'static str, value: Binary64) -> (result: Result<
    (),
    MhdError,
>)
    ensures
        result is Ok <==> value.nonnegative(),
        result matches Err(error) ==> error == (MhdError::InvalidDednerParameter { field, value }),
        result is Ok <==> (Binary64 { bits: 0 }).le(value) && value.finite(),
{
    if value.is_nonnegative() {
        Ok(())
    } else {
        Err(MhdError::InvalidDednerParameter { field, value })
    }
}

/// Check the arguments of the hyperbolic cleaning source, in order: speed, coefficient,
/// divergence.
pub fn validate_hyperbolic_source(
    divergence_b: Binary64,
    cleaning_speed: Binary64,
    hyperbolic_sigma: Binary64,
) -> (result: Result<(), MhdError>)
    ensures
        match result {
            Ok(_) => cleaning_speed.nonnegative() && hyperbolic_sigma.nonnegative()
                && divergence_b.finite(),
            Err(error) => error == if !cleaning_speed.nonnegative() {
                MhdError::InvalidDednerParameter { field: "cleaning_speed", value: cleaning_speed }
            } else if !hyperbolic_sigma.nonnegative() {
                MhdError::InvalidDednerParameter {
                    field: "hyperbolic_sigma",
                    value: hyperbolic_sigma,
                }
            } else {
                MhdError::InvalidDednerParameter { field: "divergence_b", value: divergence_b }
            } && !(cleaning_speed.nonnegative() && hyperbolic_sigma.nonnegative()
                && divergence_b.finite()),
        },
        result is Ok <==> (Binary64 { bits: 0 }).le(cleaning_speed) && cleaning_speed.finite()
            && (Binary64 { bits: 0 }).le(hyperbolic_sigma) && hyperbolic_sigma.finite()
            && divergence_b.finite(),
{
    if let Err(error) = validate_nonnegative_dedner("cleaning_speed", cleaning_speed) {
        return Err(error);
    }
    if let Err(error) = validate_nonnegative_dedner("hyperbolic_sigma", hyperbolic_sigma) {
        return Err(error);
    }
    if !divergence_b.is_finite() {
        return Err(
            MhdError::InvalidDednerParameter { field: "divergence_b", value: divergence_b },
        );
    }
    Ok(())
}

/// The first invalid argument of the parabolic cleaning source, if there is one.
pub open spec fn parabolic_fault(
    cleaning_scalar: Binary64,
    signal_speed: Binary64,
    length: Binary64,
    parabolic_sigma: Binary64,
) -> Option<MhdError> {
    if !cleaning_scalar.finite() {
        Some(MhdError::InvalidDednerParameter { field: "cleaning_scalar", value: cleaning_scalar })
    } else if !signal_speed.nonnegative() {
        Some(MhdError::InvalidDednerParameter { field: "signal_speed", value: signal_speed })
    } else if !parabolic_sigma.nonnegative() {
        Some(MhdError::InvalidDednerParameter { field: "parabolic_sigma", value: parabolic_sigma })
    } else if !length.positive() {
        Some(MhdError::InvalidDednerParameter { field: "length", value: length })
    } else {
        None
    }
}

/// Check the arguments of the parabolic cleaning source.
pub fn validate_parabolic_source(
    cleaning_scalar: Binary64,
    signal_speed: Binary64,
    length: Binary64,
    parabolic_sigma: Binary64,
) -> (result: Result<(), MhdError>)
    ensures
        match result {
            Ok(_) => parabolic_fault(cleaning_scalar, signal_speed, length, parabolic_sigma)
                is None,
            Err(error) => parabolic_fault(cleaning_scalar, signal_speed, length, parabolic_sigma)
                == Some(error),
        },
        result is Ok <==> cleaning_scalar.finite() && signal_speed.nonnegative()
            && parabolic_sigma.nonnegative() && length.positive(),
{
    if !cleaning_scalar.is_finite() {
        return Err(
            MhdError::InvalidDednerParameter { field: "cleaning_scalar", value: cleaning_scalar },
        );
    }
    if let Err(error) = validate_nonnegative_dedner("signal_speed", signal_speed) {
        return Err(error);
    }
    if let Err(error) = validate_nonnegative_dedner("parabolic_sigma", parabolic_sigma) {
        return Err(error);
    }
    if !length.is_positive() {
        return Err(MhdError::InvalidDednerParameter { field: "length", value: length });
    }
    Ok(())
}

/// Whether the cleaning correction exceeds its limit and has to be scaled down.
pub fn correction_is_limited(correction: Binary64, limit: Binary64) -> (result: bool)
    requires
        !correction.negative(),
    ensures
        result == (limit.lt(correction) && correction.rank() > 0),
        correction.le(limit) ==> !result,
        correction.same(Binary64 { bits: 0 }) ==> !result,
        limit.lt(correction) && correction.positive() ==> result,
{
    let zero: Binary64 = Binary64 { bits: 0 };
    limit.less(correction) && zero.less(correction)
}

/// The frame in which a flux is returned.
#[derive(Clone, Copy, Debug, PartialEq, Eq, Structural)]
pub enum FluxFrame1d {
    /// A face at rest.
    Eulerian,
    /// A face that moves with the contact wave and so carries no mass.
    Contact,
}

impl Default for FluxFrame1d {
    fn default() -> (result: Self)
        ensures
            result == FluxFrame1d::Eulerian,
    {
        FluxFrame1d::Eulerian
    }
}

/// The branch that produced a flux.
#[derive(Clone, Copy, Debug, PartialEq, Eq, Structural)]
pub enum MhdRiemannMethod {
    /// The five-wave fan.
    Hlld,
    /// The two-wave fallback that encloses all waves.
    Hlle,
}

/// Whether a total star pressure is unusable: not positive, or above the guard.
pub open spec fn pressure_bad(pressure: Binary64, guard: Option<Binary64>) -> bool {
    !pressure.positive() || (guard matches Some(limit) && limit.lt(pressure))
}

/// Whether a total star pressure is unusable.
pub fn pressure_is_bad(pressure: Binary64, guard: Option<Binary64>) -> (result: bool)
    ensures
        result == pressure_bad(pressure, guard),
{
    if !pressure.is_positive() {
        return true;
    }
    match guard {
        Some(limit) => limit.less(pressure),
        None => false,
    }
}

/// Check the guard on the star pressure.
pub fn validate_pressure_guard(guard: Option<Binary64>) -> (result: Result<(), MhdError>)
    ensures
        match guard {
            None => result is Ok,
            Some(limit) => (result is Ok <==> limit.positive()) && (result matches Err(error)
                ==> error == (MhdError::InvalidPrimitiveState {
                side: "interface",
                field: "maximum_star_total_pressure",
                value: limit,
            })),
        },
        guard matches Some(limit) ==> (limit.finite() && (Binary64 { bits: 0 }).lt(limit)
            <==> result is Ok),
{
    if let Some(limit) = guard {
        if !limit.is_positive() {
            return Err(
                MhdError::InvalidPrimitiveState {
                    side: "interface",
                    field: "maximum_star_total_pressure",
                    value: limit,
                },
            );
        }
    }
    Ok(())
}

/// The estimates of the outer wave speeds, in the order in which they are tried.
#[derive(Clone, Copy, Debug, PartialEq, Eq, Structural)]
pub enum WaveEstimate {
    /// From the extreme velocities and the larger fast speed.
    Primitive,
    /// From the density-weighted average.
    Roe,
    /// Symmetric about zero.
    Symmetric,
}

/// The estimate to try after one that gave `pressure`, or nothing where that is kept.
pub open spec fn estimate_after(
    estimate: WaveEstimate,
    pressure: Binary64,
    guard: Option<Binary64>,
) -> Option<WaveEstimate> {
    if !pressure_bad(pressure, guard) {
        None
    } else {
        match estimate {
            WaveEstimate::Primitive => Some(WaveEstimate::Roe),
            WaveEstimate::Roe => Some(WaveEstimate::Symmetric),
            WaveEstimate::Symmetric => None,
        }
    }
}

/// Choose the estimate to try next.
pub fn next_wave_estimate(
    estimate: WaveEstimate,
    pressure: Binary64,
    guard: Option<Binary64>,
) -> (result: Option<WaveEstimate>)
    ensures
        result == estimate_after(estimate, pressure, guard),
{
    if !pressure_is_bad(pressure, guard) {
        return None;
    }
    match estimate {
        WaveEstimate::Primitive => Some(WaveEstimate::Roe),
        WaveEstimate::Roe => Some(WaveEstimate::Symmetric),
        WaveEstimate::Symmetric => None,
    }
}

/// The ladder of estimates stops with a usable pressure or at its last rung.
pub proof fn law_estimates_end_usable_or_exhausted(
    estimate: WaveEstimate,
    pressure: Binary64,
    guard: Option<Binary64>,
)
    requires
        estimate_after(estimate, pressure, guard) is None,
    ensures
        !pressure_bad(pressure, guard) || estimate == WaveEstimate::Symmetric,
{
}

/// What the outer waves and the contact wave came to.
#[derive(Clone, Copy, Debug, PartialEq, Eq, Structural)]
pub struct ContactSolution {
    pub denominator: Binary64,
    pub contact_speed: Binary64,
    pub star_total_pressure: Binary64,
    pub wave_left: Binary64,
    pub wave_right: Binary64,
}

/// The smallest positive normal number.
pub const MIN_POSITIVE_BITS: u64 = 0x0010_0000_0000_0000;

impl ContactSolution {
    /// Whether a contact fan can be built: a usable denominator and pressure, and a contact
    /// wave strictly between the outer waves.
    pub open spec fn admissible(self, guard: Option<Binary64>) -> bool {
        &&& self.denominator.finite()
        &&& self.denominator.magnitude() > MIN_POSITIVE_BITS
        &&& self.contact_speed.finite()
        &&& !pressure_bad(self.star_total_pressure, guard)
        &&& !self.contact_speed.le(self.wave_left)
        &&& !self.wave_right.le(self.contact_speed)
    }

    /// Whether a contact fan can be built.
    pub fn is_admissible(self, guard: Option<Binary64>) -> (result: bool)
        ensures
            result == self.admissible(guard),
    {
        let smallest: Binary64 = Binary64 { bits: MIN_POSITIVE_BITS };
        self.denominator.is_finite() && smallest.less(self.denominator.abs())
            && self.contact_speed.is_finite() && !pressure_is_bad(self.star_total_pressure, guard)
            && !self.contact_speed.at_most(self.wave_left) && !self.wave_right.at_most(
            self.contact_speed,
        )
    }

    /// The star pressure that is reported: not negative, and zero where it is not finite.
    pub fn reported_pressure(self) -> (result: Binary64)
        ensures
            result == if self.star_total_pressure.finite() {
                self.star_total_pressure.greater(Binary64 { bits: 0 })
            } else {
                Binary64 { bits: 0 }
            },
            (Binary64 { bits: 0 }).le(result) && result.finite(),
            self.star_total_pressure.positive() ==> result == self.star_total_pressure,
            !self.star_total_pressure.positive() ==> result.same(Binary64 { bits: 0 }),
    {
        let zero: Binary64 = Binary64 { bits: 0 };
        if self.star_total_pressure.is_finite() {
            self.star_total_pressure.max(zero)
        } else {
            zero
        }
    }
}

/// Accept computed numbers that are all finite, or name the stage they came from.
pub fn validate_stage(values: &[Binary64], stage: &'static str) -> (result: Result<(), MhdError>)
    ensures
        result is Ok <==> forall|i: int| 0 <= i < values@.len() ==> (#[trigger] values@[i]).finite(),
        result matches Err(error) ==> error == MhdError::NonFiniteResult(stage),
{
    let mut index: usize = 0;
    while index < values.len()
        invariant
            index <= values@.len(),
            forall|i: int| 0 <= i < index ==> (#[trigger] values@[i]).finite(),
        decreases values@.len() - index,
    {
        if !values[index].is_finite() {
            return Err(MhdError::NonFiniteResult(stage));
        }
        index += 1;
    }
    Ok(())
}

/// The sum of two fast speeds weighs the interface means, so it must be positive.
pub fn validate_wave_speed_sum(sum: Binary64) -> (result: Result<(), MhdError>)
    ensures
        result is Ok <==> sum.positive(),
        result matches Err(error) ==> error == MhdError::NonFiniteResult("Dedner wave speeds"),
        result is Ok <==> (Binary64 { bits: 0 }).lt(sum) && sum.finite(),
{
    if sum.is_positive() {
        Ok(())
    } else {
        Err(MhdError::NonFiniteResult("Dedner wave speeds"))
    }
}

/// A fan that cannot be built: a fixed face falls back to the two-wave flux,
/// but a face that follows the contact would let mass through and is refused.
pub fn fan_fallback(frame: FluxFrame1d) -> (result: Result<(), MhdError>)
    ensures
        result is Err <==> frame == FluxFrame1d::Contact,
        result matches Err(error) ==> error == MhdError::NoAdmissibleContactFlux,
        result is Ok <==> frame != FluxFrame1d::Contact,
{
    match frame {
        FluxFrame1d::Contact => Err(MhdError::NoAdmissibleContactFlux),
        FluxFrame1d::Eulerian => Ok(()),
    }
}

/// The states of the fan from left to right.
#[derive(Clone, Copy, Debug, PartialEq, Eq, Structural)]
pub enum FanRegion {
    Left,
    StarLeft,
    DoubleStarLeft,
    DoubleStarRight,
    StarRight,
    Right,
}

impl FanRegion {
    /// The place of a region in the fan.
    pub open spec fn place(self) -> int {
        match self {
            FanRegion::Left => 0,
            FanRegion::StarLeft => 1,
            FanRegion::DoubleStarLeft => 2,
            FanRegion::DoubleStarRight => 3,
            FanRegion::StarRight => 4,
            FanRegion::Right => 5,
        }
    }
}

/// The five waves of the fan.
#[derive(Clone, Copy, Debug, PartialEq, Eq, Structural)]
pub struct FanWaves {
    pub wave_left: Binary64,
    pub alfven_left: Binary64,
    pub contact: Binary64,
    pub alfven_right: Binary64,
    pub wave_right: Binary64,
}

impl FanWaves {
    /// Whether the Alfven waves are finite and in place.
    pub open spec fn ordered(self) -> bool {
        &&& self.alfven_left.finite()
        &&& self.alfven_right.finite()
        &&& !self.alfven_left.lt(self.wave_left)
        &&& !self.contact.lt(self.alfven_left)
        &&& !self.alfven_right.lt(self.contact)
        &&& !self.wave_right.lt(self.alfven_right)
    }

    /// Whether the Alfven waves are finite and in place.
    pub fn is_ordered(self) -> (result: bool)
        ensures
            result == self.ordered(),
    {
        self.alfven_left.is_finite() && self.alfven_right.is_finite() && !self.alfven_left.less(
            self.wave_left,
        ) && !self.contact.less(self.alfven_left) && !self.alfven_right.less(self.contact)
            && !self.wave_right.less(self.alfven_right)
    }

    /// The region that a face of a given velocity samples: the first whose right edge is not
    /// behind the face.
    pub open spec fn region(self, face: Binary64) -> FanRegion {
        if face.le(self.wave_left) {
            FanRegion::Left
        } else if face.le(self.alfven_left) {
            FanRegion::StarLeft
        } else if face.le(self.contact) {
            FanRegion::DoubleStarLeft
        } else if face.le(self.alfven_right) {
            FanRegion::DoubleStarRight
        } else if face.le(self.wave_right) {
            FanRegion::StarRight
        } else {
            FanRegion::Right
        }
    }

    /// Choose the region that a face samples.
    pub fn sample(self, face: Binary64) -> (result: FanRegion)
        ensures
            result == self.region(face),
    {
        if face.at_most(self.wave_left) {
            FanRegion::Left
        } else if face.at_most(self.alfven_left) {
            FanRegion::StarLeft
        } else if face.at_most(self.contact) {
            FanRegion::DoubleStarLeft
        } else if face.at_most(self.alfven_right) {
            FanRegion::DoubleStarRight
        } else if face.at_most(self.wave_right) {
            FanRegion::StarRight
        } else {
            FanRegion::Right
        }
    }
}

/// A faster face samples the same region or one further to the right.
pub proof fn law_faster_faces_sample_further_right(waves: FanWaves, slow: Binary64, fast: Binary64)
    requires
        slow.le(fast),
    ensures
        waves.region(slow).place() <= waves.region(fast).place(),
{
}

/// A face that moves with the contact wave samples a state left of the contact, and never
/// the unperturbed state where the contact lies inside the fan.
pub proof fn law_contact_face_samples_left_of_contact(waves: FanWaves)
    requires
        waves.contact.finite(),
        !waves.contact.le(waves.wave_left),
    ensures
        waves.region(waves.contact) == FanRegion::StarLeft || waves.region(waves.contact)
            == FanRegion::DoubleStarLeft,
{
}

/// Whether the normal field is dynamically negligible, so that the Alfven waves coincide
/// with the contact.
pub fn normal_field_is_negligible(magnetic_pressure: Binary64, threshold: Binary64) -> (result: bool)
    ensures
        result == magnetic_pressure.lt(threshold),
        threshold.le(magnetic_pressure) ==> !result,
{
    magnetic_pressure.less(threshold)
}

/// The star region that a face samples where only the contact separates the two.
pub fn sample_contact(face: Binary64, contact: Binary64) -> (result: FanRegion)
    ensures
        result == if face.le(contact) {
            FanRegion::StarLeft
        } else {
            FanRegion::StarRight
        },
        contact.lt(face) ==> result == FanRegion::StarRight,
        result == FanRegion::StarLeft ==> !contact.lt(face),
{
    if face.at_most(contact) {
        FanRegion::StarLeft
    } else {
        FanRegion::StarRight
    }
}

/// The states of the two-wave solution.
#[derive(Clone, Copy, Debug, PartialEq, Eq, Structural)]
pub enum TwoWaveRegion {
    Left,
    Middle,
    Right,
}

/// Choose the state of the two-wave solution that a face samples.
pub fn sample_two_wave(face: Binary64, wave_left: Binary64, wave_right: Binary64) -> (result:
    TwoWaveRegion)
    ensures
        result == if face.le(wave_left) {
            TwoWaveRegion::Left
        } else if wave_right.le(face) {
            TwoWaveRegion::Right
        } else {
            TwoWaveRegion::Middle
        },
        result == TwoWaveRegion::Left ==> !wave_left.lt(face),
        result == TwoWaveRegion::Middle && !face.nan() && !wave_left.nan() && !wave_right.nan()
            ==> wave_left.lt(face) && face.lt(wave_right),
        wave_left.lt(face) && wave_right.le(face) ==> result == TwoWaveRegion::Right,
{
    if face.at_most(wave_left) {
        TwoWaveRegion::Left
    } else if wave_right.at_most(face) {
        TwoWaveRegion::Right
    } else {
        TwoWaveRegion::Middle
    }
}

/// Whether a star state is physical: finite, with positive density and positive recovered
/// pressure.
pub fn star_is_physical(
    state: IdealMhdConserved1d,
    internal_energy: Binary64,
    pressure: Binary64,
) -> (result: bool)
    ensures
        result == (state.finite() && state.density.positive() && internal_energy.finite() && (
        Binary64 { bits: 0 }).lt(pressure)),
        result ==> state.density.positive() && !pressure.le(Binary64 { bits: 0 })
            && internal_energy.finite() && state.momentum.finite() && state.magnetic.finite()
            && state.total_energy.finite(),
{
    let zero: Binary64 = Binary64 { bits: 0 };
    state.is_finite() && state.density.is_positive() && internal_energy.is_finite() && zero.less(
        pressure,
    )
}

/// A primitive state is refused exactly where density or pressure is not positive, or a
/// velocity, field or cleaning scalar is not finite; the first of these is reported.
pub proof fn law_primitive_states(
    side: &'static str,
    state: IdealMhdPrimitive1d,
)
    ensures
        primitive_fault(side, state) is None <==> {
            &&& state.density.positive()
            &&& state.gas_pressure.positive()
            &&& state.velocity.x.finite() && state.velocity.y.finite() && state.velocity.z.finite()
            &&& state.magnetic.x.finite() && state.magnetic.y.finite() && state.magnetic.z.finite()
            &&& state.cleaning_scalar.finite()
        },
        ({
            &&& !(state.density.positive())
        }) ==> primitive_fault(side, state) == Some(
            MhdError::InvalidPrimitiveState { side, field: "density", value: state.density },
        ),
        ({
            &&& state.density.positive()
            &&& !(state.gas_pressure.positive())
        }) ==> primitive_fault(side, state) == Some(
            MhdError::InvalidPrimitiveState { side, field: "gas_pressure", value: state.gas_pressure },
        ),
        ({
            &&& state.density.positive()
            &&& state.gas_pressure.positive()
            &&& !(state.velocity.x.finite() && state.velocity.y.finite() && state.velocity.z.finite())
        }) ==> primitive_fault(side, state) == Some(
            MhdError::InvalidPrimitiveState { side, field: "velocity", value: Binary64 { bits: NAN_BITS } },
        ),
        ({
            &&& state.density.positive()
            &&& state.gas_pressure.positive()
            &&& state.velocity.x.finite() && state.velocity.y.finite() && state.velocity.z.finite()
            &&& !(state.magnetic.x.finite() && state.magnetic.y.finite() && state.magnetic.z.finite())
        }) ==> primitive_fault(side, state) == Some(
            MhdError::InvalidPrimitiveState { side, field: "magnetic", value: Binary64 { bits: NAN_BITS } },
        ),
        ({
            &&& state.density.positive()
            &&& state.gas_pressure.positive()
            &&& state.velocity.x.finite() && state.velocity.y.finite() && state.velocity.z.finite()
            &&& state.magnetic.x.finite() && state.magnetic.y.finite() && state.magnetic.z.finite()
            &&& !(state.cleaning_scalar.finite())
        }) ==> primitive_fault(side, state) == Some(
            MhdError::InvalidPrimitiveState { side, field: "cleaning_scalar", value: state.cleaning_scalar },
        ),
{
}

/// A parabolic source is evaluated exactly for a finite cleaning scalar, a signal speed and a
/// coefficient that are not negative, and a positive length; the first argument that is not so
/// is reported.
pub proof fn law_parabolic_sources(
    cleaning_scalar: Binary64,
    signal_speed: Binary64,
    length: Binary64,
    parabolic_sigma: Binary64,
)
    ensures
        parabolic_fault(cleaning_scalar, signal_speed, length, parabolic_sigma) is None <==> {
            &&& cleaning_scalar.finite()
            &&& (Binary64 { bits: 0 }).le(signal_speed) && signal_speed.finite()
            &&& (Binary64 { bits: 0 }).le(parabolic_sigma) && parabolic_sigma.finite()
            &&& (Binary64 { bits: 0 }).lt(length) && length.finite()
        },
        ({
            &&& !(cleaning_scalar.finite())
        }) ==> parabolic_fault(cleaning_scalar, signal_speed, length, parabolic_sigma) == Some(
            MhdError::InvalidDednerParameter { field: "cleaning_scalar", value: cleaning_scalar },
        ),
        ({
            &&& cleaning_scalar.finite()
            &&& !((Binary64 { bits: 0 }).le(signal_speed) && signal_speed.finite())
        }) ==> parabolic_fault(cleaning_scalar, signal_speed, length, parabolic_sigma) == Some(
            MhdError::InvalidDednerParameter { field: "signal_speed", value: signal_speed },
        ),
        ({
            &&& cleaning_scalar.finite()
            &&& (Binary64 { bits: 0 }).le(signal_speed) && signal_speed.finite()
            &&& !((Binary64 { bits: 0 }).le(parabolic_sigma) && parabolic_sigma.finite())
        }) ==> parabolic_fault(cleaning_scalar, signal_speed, length, parabolic_sigma) == Some(
            MhdError::InvalidDednerParameter { field: "parabolic_sigma", value: parabolic_sigma },
        ),
        ({
            &&& cleaning_scalar.finite()
            &&& (Binary64 { bits: 0 }).le(signal_speed) && signal_speed.finite()
            &&& (Binary64 { bits: 0 }).le(parabolic_sigma) && parabolic_sigma.finite()
            &&& !((Binary64 { bits: 0 }).lt(length) && length.finite())
        }) ==> parabolic_fault(cleaning_scalar, signal_speed, length, parabolic_sigma) == Some(
            MhdError::InvalidDednerParameter { field: "length", value: length },
        ),
{
}

/// The cleaning scalar is a signed field: a parabolic source is evaluated for it exactly
/// where it is for its negation.
pub proof fn law_cleaning_has_no_sign(
    cleaning_scalar: Binary64,
    signal_speed: Binary64,
    length: Binary64,
    parabolic_sigma: Binary64,
)
    ensures
        parabolic_fault(cleaning_scalar, signal_speed, length, parabolic_sigma) is None
            <==> parabolic_fault(cleaning_scalar.negated(), signal_speed, length, parabolic_sigma)
            is None,
{
}

/// An adiabatic index is usable exactly above one.
pub proof fn law_adiabatic_indices(gamma: Binary64)
    ensures
        gamma_valid(gamma) <==> (Binary64 { bits: ONE_BITS }).lt(gamma) && gamma.finite(),
{
}

/// Vectors and states are finite where all their components are, and equal where all their
/// components are.
pub proof fn law_components(
    vector: Vector3,
    other: Vector3,
    state: IdealMhdConserved1d,
    flux: IdealMhdFlux1d,
)
    ensures
        vector.finite() <==> vector.x.finite() && vector.y.finite() && vector.z.finite(),
        vector.same(other) <==> !vector.x.nan() && !vector.y.nan() && !vector.z.nan()
            && !other.x.nan() && !other.y.nan() && !other.z.nan() && vector.x.rank()
            == other.x.rank() && vector.y.rank() == other.y.rank() && vector.z.rank()
            == other.z.rank(),
        state.finite() <==> {
            &&& state.density.finite() && state.total_energy.finite()
                && state.cleaning_scalar.finite()
            &&& state.momentum.x.finite() && state.momentum.y.finite() && state.momentum.z.finite()
            &&& state.magnetic.x.finite() && state.magnetic.y.finite() && state.magnetic.z.finite()
        },
        flux.finite() <==> {
            &&& flux.mass.finite() && flux.total_energy.finite()
            &&& flux.momentum.x.finite() && flux.momentum.y.finite() && flux.momentum.z.finite()
            &&& flux.magnetic.x.finite() && flux.magnetic.y.finite() && flux.magnetic.z.finite()
        },
{
}

/// A star pressure is unusable where it is not positive or above its guard; a looser guard
/// refuses nothing that a tighter one accepts.
pub proof fn law_star_pressures(pressure: Binary64, guard: Option<Binary64>, looser: Binary64)
    ensures
        pressure.le(Binary64 { bits: 0 }) || !pressure.finite() ==> pressure_bad(pressure, guard),
        pressure.positive() && guard is None ==> !pressure_bad(pressure, guard),
        guard matches Some(limit) ==> pressure.positive() && pressure.le(limit) ==> !pressure_bad(
            pressure,
            guard,
        ),
        guard matches Some(limit) ==> limit.lt(pressure) ==> pressure_bad(pressure, guard),
        guard matches Some(limit) ==> limit.le(looser) && !pressure_bad(pressure, guard)
            ==> !pressure_bad(pressure, Some(looser)),
{
}

/// Wave estimates are tried in order, each only after the one before gave an unusable
/// pressure, and the last is not followed by another.
pub proof fn law_estimates_are_tried_in_order(
    estimate: WaveEstimate,
    pressure: Binary64,
    guard: Option<Binary64>,
)
    ensures
        pressure.positive() && (guard matches Some(limit) ==> pressure.le(limit))
            ==> estimate_after(estimate, pressure, guard) is None,
        !pressure.positive() ==> {
            &&& estimate == WaveEstimate::Primitive ==> estimate_after(estimate, pressure, guard)
                == Some(WaveEstimate::Roe)
            &&& estimate == WaveEstimate::Roe ==> estimate_after(estimate, pressure, guard) == Some(
                WaveEstimate::Symmetric,
            )
        },
        guard matches Some(limit) ==> limit.lt(pressure) ==> {
            &&& estimate == WaveEstimate::Primitive ==> estimate_after(estimate, pressure, guard)
                == Some(WaveEstimate::Roe)
            &&& estimate == WaveEstimate::Roe ==> estimate_after(estimate, pressure, guard) == Some(
                WaveEstimate::Symmetric,
            )
        },
        estimate == WaveEstimate::Symmetric ==> estimate_after(estimate, pressure, guard) is None,
{
}

/// A contact fan is built exactly where its numbers are finite, its denominator does not
/// vanish, its pressure is usable and the contact lies strictly between the outer waves.
pub proof fn law_admissible_contacts(solution: ContactSolution, guard: Option<Binary64>)
    requires
        !solution.wave_left.nan(),
        !solution.wave_right.nan(),
    ensures
        solution.admissible(guard) <==> {
            &&& solution.denominator.finite()
            &&& (Binary64 { bits: MIN_POSITIVE_BITS }).lt(
                Binary64 { bits: solution.denominator.magnitude() as u64 },
            )
            &&& solution.contact_speed.finite()
            &&& solution.star_total_pressure.positive()
            &&& guard matches Some(limit) ==> !limit.lt(solution.star_total_pressure)
            &&& solution.wave_left.lt(solution.contact_speed)
            &&& solution.contact_speed.lt(solution.wave_right)
        },
        (Binary64 { bits: MIN_POSITIVE_BITS }).exponent() == 1,
        (Binary64 { bits: MIN_POSITIVE_BITS }).significand() == SIGNIFICAND_UNIT,
{
}

/// The waves of a fan are in place exactly where they follow one another from left to right.
pub proof fn law_ordered_fans(waves: FanWaves)
    requires
        !waves.wave_left.nan(),
        !waves.contact.nan(),
        !waves.wave_right.nan(),
    ensures
        waves.ordered() <==> {
            &&& waves.alfven_left.finite() && waves.alfven_right.finite()
            &&& waves.wave_left.le(waves.alfven_left)
            &&& waves.alfven_left.le(waves.contact)
            &&& waves.contact.le(waves.alfven_right)
            &&& waves.alfven_right.le(waves.wave_right)
        },
{
}

/// In a fan whose waves are in place, a face samples the region between the two waves around
/// it: it lies right of the wave that bounds the region on the left, and not right of the one
/// that bounds it on the right.
pub proof fn law_faces_sample_between_waves(waves: FanWaves, face: Binary64)
    requires
        waves.ordered(),
        !face.nan(),
        !waves.wave_left.nan(),
        !waves.contact.nan(),
        !waves.wave_right.nan(),
    ensures
        waves.region(face) == FanRegion::Left <==> face.le(waves.wave_left),
        waves.region(face) == FanRegion::StarLeft <==> waves.wave_left.lt(face) && face.le(
            waves.alfven_left,
        ),
        waves.region(face) == FanRegion::DoubleStarLeft <==> waves.alfven_left.lt(face) && face.le(
            waves.contact,
        ),
        waves.region(face) == FanRegion::DoubleStarRight <==> waves.contact.lt(face) && face.le(
            waves.alfven_right,
        ),
        waves.region(face) == FanRegion::StarRight <==> waves.alfven_right.lt(face) && face.le(
            waves.wave_right,
        ),
        waves.region(face) == FanRegion::Right <==> waves.wave_right.lt(face),
{
}

/// A message holds every field of its error, each in its place.
pub proof fn law_messages_hold_the_fields(error: MhdError)
    ensures
        error matches MhdError::InvalidGamma(gamma) ==> {
            &&& error.wording().len() == 2
            &&& error.wording()[1] == MessagePart::Value(gamma)
        },
        error matches MhdError::InvalidPrimitiveState { side, field, value } ==> {
            &&& error.wording().len() == 6
            &&& error.wording()[1] == MessagePart::Text(side)
            &&& error.wording()[3] == MessagePart::Text(field)
            &&& error.wording()[5] == MessagePart::Value(value)
        },
        error is InvalidConservedState ==> error.wording().len() == 1,
        error is NoAdmissibleContactFlux ==> error.wording().len() == 1,
        error matches MhdError::InvalidDednerParameter { field, value } ==> {
            &&& error.wording().len() == 4
            &&& error.wording()[1] == MessagePart::Text(field)
            &&& error.wording()[3] == MessagePart::Value(value)
        },
        error matches MhdError::NonFiniteResult(stage) ==> {
            &&& error.wording().len() == 2
            &&& error.wording()[1] == MessagePart::Text(stage)
        },
{
}

/// Between the fields the message of an error always reads the same.
pub proof fn law_messages_are_fixed(error: MhdError, other: MhdError)
    ensures
        error is InvalidGamma && other is InvalidGamma ==> error.wording()[0] == other.wording()[0],
        error is InvalidPrimitiveState && other is InvalidPrimitiveState ==> {
            &&& error.wording()[0] == other.wording()[0]
            &&& error.wording()[2] == other.wording()[2]
            &&& error.wording()[4] == other.wording()[4]
        },
        error is InvalidDednerParameter && other is InvalidDednerParameter ==> {
            &&& error.wording()[0] == other.wording()[0]
            &&& error.wording()[2] == other.wording()[2]
        },
        error is NonFiniteResult && other is NonFiniteResult
            ==> error.wording()[0] == other.wording()[0],
{
}

/// The six regions of the fan lie next to each other from left to right.
pub proof fn law_fan_places(region: FanRegion)
    ensures
        0 <= region.place() <= 5,
        FanRegion::Left.place() + 1 == FanRegion::StarLeft.place(),
        FanRegion::StarLeft.place() + 1 == FanRegion::DoubleStarLeft.place(),
        FanRegion::DoubleStarLeft.place() + 1 == FanRegion::DoubleStarRight.place(),
        FanRegion::DoubleStarRight.place() + 1 == FanRegion::StarRight.place(),
        FanRegion::StarRight.place() + 1 == FanRegion::Right.place(),
{
}

} // verus!
