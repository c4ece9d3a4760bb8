//! Decisions of the one-dimensional magnetized evolution.

use vstd::prelude::*;

use crate::binary64::Binary64;
use crate::hydro_error::HydroError;
use crate::message::MessagePart;
use crate::mhd::{MhdError, MhdRiemannMethod, Vector3};

verus! {

use crate::binary64::{nearest, HALF_BITS, INFINITY_BITS, NAN_BITS, ONE_BITS};
use crate::fault::{
    first, first_fault, law_first_fault_is_the_earliest, lemma_first_fault_stays, outcome,
};
use vstd::arithmetic::power2::{lemma2_to64, lemma2_to64_rest};

/// The default strength of the parabolic cleaning.
pub const PARABOLIC_SIGMA_BITS: u64 = 0x3fc9_9999_9999_999a;

/// The default limit of the implicit cleaning.
pub const IMPLICIT_LIMITER_BITS: u64 = 0x3fe8_0000_0000_0000;

/// Errors of the magnetized evolution.
#[allow(inconsistent_fields)]
#[derive(Clone, Copy, Debug, PartialEq)]
pub enum MhdEvolutionError {
    Hydro(HydroError),
    Mhd(MhdError),
    InvalidState { index: Option<usize>, field: &'static str, value: Binary64 },
    MismatchedLength { field: &'static str, expected: usize, actual: usize },
}

impl MhdEvolutionError {
    /// The wording of the error.
    pub open spec fn wording(self) -> Seq<MessagePart> {
        match self {
            MhdEvolutionError::Hydro(error) => error.wording(),
            MhdEvolutionError::Mhd(error) => error.wording(),
            MhdEvolutionError::InvalidState { index, field, value } => seq![
                MessagePart::Text("invalid MHD state "),
                MessagePart::Text(field),
                MessagePart::Text("="),
                MessagePart::Value(value),
                MessagePart::Text(" at "),
                MessagePart::OptionalCount(index),
            ],
            MhdEvolutionError::MismatchedLength { field, expected, actual } => seq![
                MessagePart::Text(field),
                MessagePart::Text(" has length "),
                MessagePart::Count(actual),
                MessagePart::Text(", expected "),
                MessagePart::Count(expected),
            ],
        }
    }

    /// The message of the error, part by part.
    pub fn message(&self) -> (result: Vec<MessagePart>)
        ensures
            result@ == self.wording(),
    {
        match *self {
            MhdEvolutionError::Hydro(error) => error.message(),
            MhdEvolutionError::Mhd(error) => error.message(),
            MhdEvolutionError::InvalidState { index, field, value } => vec![
                MessagePart::Text("invalid MHD state "),
                MessagePart::Text(field),
                MessagePart::Text("="),
                MessagePart::Value(value),
                MessagePart::Text(" at "),
                MessagePart::OptionalCount(index),
            ],
            MhdEvolutionError::MismatchedLength { field, expected, actual } => vec![
                MessagePart::Text(field),
                MessagePart::Text(" has length "),
                MessagePart::Count(actual),
                MessagePart::Text(", expected "),
                MessagePart::Count(expected),
            ],
        }
    }
}

impl From<HydroError> for MhdEvolutionError {
    fn from(error: HydroError) -> (result: Self) {
        MhdEvolutionError::Hydro(error)
    }
}

impl vstd::std_specs::convert::FromSpecImpl<HydroError> for MhdEvolutionError {
    open spec fn obeys_from_spec() -> bool {
        true
    }

    open spec fn from_spec(error: HydroError) -> Self {
        MhdEvolutionError::Hydro(error)
    }
}

impl From<MhdError> for MhdEvolutionError {
    fn from(error: MhdError) -> (result: Self) {
        MhdEvolutionError::Mhd(error)
    }
}

impl vstd::std_specs::convert::FromSpecImpl<MhdError> for MhdEvolutionError {
    open spec fn obeys_from_spec() -> bool {
        true
    }

    open spec fn from_spec(error: MhdError) -> Self {
        MhdEvolutionError::Mhd(error)
    }
}

/// How the divergence of the magnetic field is controlled.
#[derive(Clone, Copy, Debug, PartialEq, Eq, Structural)]
pub struct DivergenceControl1d {
    pub powell: bool,
    pub dedner: bool,
    pub hyperbolic_sigma: Binary64,
    pub parabolic_sigma: Binary64,
    pub implicit_limiter: Binary64,
}

impl Default for DivergenceControl1d {
    fn default() -> (result: Self)
        ensures
            result == (DivergenceControl1d {
                powell: true,
                dedner: true,
                hyperbolic_sigma: Binary64 { bits: ONE_BITS },
                parabolic_sigma: Binary64 { bits: PARABOLIC_SIGMA_BITS },
                implicit_limiter: Binary64 { bits: IMPLICIT_LIMITER_BITS },
            }),
    {
        DivergenceControl1d {
            powell: true,
            dedner: true,
            hyperbolic_sigma: Binary64 { bits: ONE_BITS },
            parabolic_sigma: Binary64 { bits: PARABOLIC_SIGMA_BITS },
            implicit_limiter: Binary64 { bits: IMPLICIT_LIMITER_BITS },
        }
    }
}

/// A column whose length differs from what is expected.
pub open spec fn length_faults(expected: usize, columns: Seq<(&'static str, usize)>) -> spec_fn(
    int,
) -> Option<MhdEvolutionError> {
    |i: int|
        if columns[i].1 != expected {
            Some(
                MhdEvolutionError::MismatchedLength {
                    field: columns[i].0,
                    expected,
                    actual: columns[i].1,
                },
            )
        } else {
            None
        }
}

/// Check the lengths of several columns, in order.
pub fn validate_lengths(expected: usize, columns: &[(&'static str, usize)]) -> (result: Result<
    (),
    MhdEvolutionError,
>)
    ensures
        result == outcome(first_fault(length_faults(expected, columns@), columns@.len() as int)),
{
    let ghost faults = length_faults(expected, columns@);
    let mut index: usize = 0;
    while index < columns.len()
        invariant
            index <= columns@.len(),
            faults == length_faults(expected, columns@),
            first_fault(faults, index as int) is None,
        decreases columns@.len() - index,
    {
        let (field, actual) = columns[index];
        if actual != expected {
            assert(faults(index as int) is Some);
            proof {
                lemma_first_fault_stays(faults, index + 1, columns@.len() as int);
            }
            return Err(MhdEvolutionError::MismatchedLength { field, expected, actual });
        }
        assert(faults(index as int) is None);
        index = index + 1;
    }
    Ok(())
}

/// A state value that does not satisfy its condition.
pub open spec fn state_fault(
    index: Option<usize>,
    field: &'static str,
    value: Binary64,
    valid: bool,
) -> Option<MhdEvolutionError> {
    if valid {
        None
    } else {
        Some(MhdEvolutionError::InvalidState { index, field, value })
    }
}

fn check_state(index: Option<usize>, field: &'static str, value: Binary64, valid: bool) -> (result:
    Result<(), MhdEvolutionError>)
    ensures
        result == outcome(state_fault(index, field, value, valid)),
{
    if valid {
        Ok(())
    } else {
        Err(MhdEvolutionError::InvalidState { index, field, value })
    }
}

/// The particle columns of a magnetized state.
#[derive(Clone, Debug, PartialEq)]
pub struct MhdMfmState1d {
    pub positions: Vec<Binary64>,
    pub masses: Vec<Binary64>,
    pub velocities: Vec<Vector3>,
    pub specific_internal_energy: Vec<Binary64>,
    pub smoothing_lengths: Vec<Binary64>,
    /// The conserved magnetic flux, volume times field.
    pub magnetic_volume: Vec<Vector3>,
    /// The conserved cleaning scalar, mass times scalar.
    pub cleaning_mass: Vec<Binary64>,
    pub box_size: Binary64,
    pub gamma: Binary64,
}

impl MhdMfmState1d {
    /// The columns that must match the positions, with their lengths.
    pub open spec fn columns(self) -> Seq<(&'static str, usize)> {
        seq![
            ("masses", self.masses@.len() as usize),
            ("velocities", self.velocities@.len() as usize),
            ("specific_internal_energy", self.specific_internal_energy@.len() as usize),
            ("smoothing_lengths", self.smoothing_lengths@.len() as usize),
            ("magnetic_volume", self.magnetic_volume@.len() as usize),
            ("cleaning_mass", self.cleaning_mass@.len() as usize),
        ]
    }

    /// The fault of a particle: its scalars, its place in the box, its vectors.
    pub open spec fn particle_fault(self, i: int) -> Option<MhdEvolutionError> {
        let at = Some(i as usize);
        let nan = Binary64 { bits: NAN_BITS };
        first(
            state_fault(at, "position", self.positions@[i], self.positions@[i].finite()),
            first(
                state_fault(at, "mass", self.masses@[i], self.masses@[i].positive()),
                first(
                    state_fault(
                        at,
                        "specific_internal_energy",
                        self.specific_internal_energy@[i],
                        self.specific_internal_energy@[i].positive(),
                    ),
                    first(
                        state_fault(
                            at,
                            "smoothing_length",
                            self.smoothing_lengths@[i],
                            self.smoothing_lengths@[i].positive(),
                        ),
                        first(
                            state_fault(
                                at,
                                "cleaning_mass",
                                self.cleaning_mass@[i],
                                self.cleaning_mass@[i].finite(),
                            ),
                            first(
                                state_fault(
                                    at,
                                    "position",
                                    self.positions@[i],
                                    self.positions@[i].rank() >= 0 && self.positions@[i].lt(
                                        self.box_size,
                                    ),
                                ),
                                first(
                                    state_fault(at, "velocity", nan, self.velocities@[i].finite()),
                                    state_fault(
                                        at,
                                        "magnetic_volume",
                                        nan,
                                        self.magnetic_volume@[i].finite(),
                                    ),
                                ),
                            ),
                        ),
                    ),
                ),
            ),
        )
    }

    /// The faults of the particles.
    pub open spec fn particle_faults(self) -> spec_fn(int) -> Option<MhdEvolutionError> {
        |i: int| self.particle_fault(i)
    }

    /// The fault of the state: lengths, box, adiabatic index, then particle by particle.
    pub open spec fn fault(self) -> Option<MhdEvolutionError> {
        first(
            first_fault(length_faults(self.positions@.len() as usize, self.columns()), 6),
            first(
                state_fault(None, "box_size", self.box_size, self.box_size.positive()),
                first(
                    state_fault(
                        None,
                        "gamma",
                        self.gamma,
                        self.gamma.finite() && self.gamma.rank() > ONE_BITS,
                    ),
                    first_fault(self.particle_faults(), self.positions@.len() as int),
                ),
            ),
        )
    }

    fn check_particle(&self, i: usize) -> (result: Result<(), MhdEvolutionError>)
        requires
            i < self.positions@.len(),
            self.masses@.len() == self.positions@.len(),
            self.velocities@.len() == self.positions@.len(),
            self.specific_internal_energy@.len() == self.positions@.len(),
            self.smoothing_lengths@.len() == self.positions@.len(),
            self.magnetic_volume@.len() == self.positions@.len(),
            self.cleaning_mass@.len() == self.positions@.len(),
        ensures
            result == outcome(self.particle_fault(i as int)),
    {
        let at: Option<usize> = Some(i);
        let zero: Binary64 = Binary64 { bits: 0 };
        let nan: Binary64 = Binary64 { bits: NAN_BITS };
        let position: Binary64 = self.positions[i];
        let mass: Binary64 = self.masses[i];
        let energy: Binary64 = self.specific_internal_energy[i];
        let support: Binary64 = self.smoothing_lengths[i];
        let cleaning: Binary64 = self.cleaning_mass[i];
        if let Err(error) = check_state(at, "position", position, position.is_finite()) {
            return Err(error);
        }
        if let Err(error) = check_state(at, "mass", mass, mass.is_positive()) {
            return Err(error);
        }
        if let Err(error) = check_state(
            at,
            "specific_internal_energy",
            energy,
            energy.is_positive(),
        ) {
            return Err(error);
        }
        if let Err(error) = check_state(at, "smoothing_length", support, support.is_positive()) {
            return Err(error);
        }
        if let Err(error) = check_state(at, "cleaning_mass", cleaning, cleaning.is_finite()) {
            return Err(error);
        }
        if let Err(error) = check_state(
            at,
            "position",
            position,
            zero.at_most(position) && position.less(self.box_size),
        ) {
            return Err(error);
        }
        if let Err(error) = check_state(at, "velocity", nan, self.velocities[i].is_finite()) {
            return Err(error);
        }
        check_state(at, "magnetic_volume", nan, self.magnetic_volume[i].is_finite())
    }

    /// Check a complete state.
    pub fn validate(&self) -> (result: Result<(), MhdEvolutionError>)
        ensures
            result == outcome(self.fault()),
    {
        let count: usize = self.positions.len();
        let fields: [(&'static str, usize); 6] = [
            ("masses", self.masses.len()),
            ("velocities", self.velocities.len()),
            ("specific_internal_energy", self.specific_internal_energy.len()),
            ("smoothing_lengths", self.smoothing_lengths.len()),
            ("magnetic_volume", self.magnetic_volume.len()),
            ("cleaning_mass", self.cleaning_mass.len()),
        ];
        assert(fields@ =~= self.columns());
        if let Err(error) = validate_lengths(count, &fields) {
            return Err(error);
        }
        proof {
            let faults = length_faults(count, self.columns());
            law_first_fault_is_the_earliest(faults, 6);
            assert(faults(0) is None && faults(1) is None && faults(2) is None);
            assert(faults(3) is None && faults(4) is None && faults(5) is None);
        }
        let one: Binary64 = Binary64 { bits: ONE_BITS };
        if let Err(error) = check_state(
            None,
            "box_size",
            self.box_size,
            self.box_size.is_positive(),
        ) {
            return Err(error);
        }
        if let Err(error) = check_state(
            None,
            "gamma",
            self.gamma,
            self.gamma.is_finite() && one.less(self.gamma),
        ) {
            return Err(error);
        }
        let ghost faults = self.particle_faults();
        let mut i: usize = 0;
        while i < count
            invariant
                i <= count,
                self.positions@.len() == count,
                self.masses@.len() == count,
                self.velocities@.len() == count,
                self.specific_internal_energy@.len() == count,
                self.smoothing_lengths@.len() == count,
                self.magnetic_volume@.len() == count,
                self.cleaning_mass@.len() == count,
                faults == self.particle_faults(),
                first_fault(faults, i as int) is None,
                self.fault() == first_fault(faults, count as int),
            decreases count - i,
        {
            if let Err(error) = self.check_particle(i) {
                assert(faults(i as int) == Some(error));
                proof {
                    lemma_first_fault_stays(faults, i + 1, count as int);
                }
                return Err(error);
            }
            assert(faults(i as int) is None);
            i = i + 1;
        }
        Ok(())
    }
}

/// The lengths of the primitive columns that a state is built from.
#[derive(Clone, Copy, Debug, PartialEq, Eq, Structural)]
pub struct MhdPrimitiveLengths1d {
    pub masses: usize,
    pub velocities: usize,
    pub specific_internal_energy: usize,
    pub smoothing_lengths: usize,
    pub magnetic: usize,
    pub cleaning_scalar: usize,
}

impl MhdPrimitiveLengths1d {
    /// The columns with their lengths.
    pub open spec fn columns(self) -> Seq<(&'static str, usize)> {
        seq![
            ("masses", self.masses),
            ("velocities", self.velocities),
            ("specific_internal_energy", self.specific_internal_energy),
            ("smoothing_lengths", self.smoothing_lengths),
            ("magnetic", self.magnetic),
            ("cleaning_scalar", self.cleaning_scalar),
        ]
    }
}

/// Check the columns that a state is built from.
pub fn validate_primitive_lengths(columns: MhdPrimitiveLengths1d, expected: usize) -> (result: Result<
    (),
    MhdEvolutionError,
>)
    ensures
        result == outcome(first_fault(length_faults(expected, columns.columns()), 6)),
{
    let fields: [(&'static str, usize); 6] = [
        ("masses", columns.masses),
        ("velocities", columns.velocities),
        ("specific_internal_energy", columns.specific_internal_energy),
        ("smoothing_lengths", columns.smoothing_lengths),
        ("magnetic", columns.magnetic),
        ("cleaning_scalar", columns.cleaning_scalar),
    ];
    assert(fields@ =~= columns.columns());
    validate_lengths(expected, &fields)
}

/// The fault of the controls: neither strength nor limit may be negative.
pub open spec fn controls_fault(controls: DivergenceControl1d) -> Option<MhdEvolutionError> {
    first(
        state_fault(
            None,
            "hyperbolic_sigma",
            controls.hyperbolic_sigma,
            controls.hyperbolic_sigma.nonnegative(),
        ),
        first(
            state_fault(
                None,
                "parabolic_sigma",
                controls.parabolic_sigma,
                controls.parabolic_sigma.nonnegative(),
            ),
            state_fault(
                None,
                "implicit_limiter",
                controls.implicit_limiter,
                controls.implicit_limiter.nonnegative(),
            ),
        ),
    )
}

/// Check the controls.
pub fn validate_controls(controls: DivergenceControl1d) -> (result: Result<(), MhdEvolutionError>)
    ensures
        result == outcome(controls_fault(controls)),
{
    if let Err(error) = check_state(
        None,
        "hyperbolic_sigma",
        controls.hyperbolic_sigma,
        controls.hyperbolic_sigma.is_nonnegative(),
    ) {
        return Err(error);
    }
    if let Err(error) = check_state(
        None,
        "parabolic_sigma",
        controls.parabolic_sigma,
        controls.parabolic_sigma.is_nonnegative(),
    ) {
        return Err(error);
    }
    check_state(
        None,
        "implicit_limiter",
        controls.implicit_limiter,
        controls.implicit_limiter.is_nonnegative(),
    )
}

/// Check the inputs of the spatial rates: the state, then the controls.
pub fn validate_rate_inputs(state: &MhdMfmState1d, controls: DivergenceControl1d) -> (result: Result<
    (),
    MhdEvolutionError,
>)
    ensures
        result == outcome(first(state.fault(), controls_fault(controls))),
{
    if let Err(error) = state.validate() {
        return Err(error);
    }
    validate_controls(controls)
}

/// The default controls pass the check.
pub proof fn law_default_controls_are_valid()
    ensures
        controls_fault(
            DivergenceControl1d {
                powell: true,
                dedner: true,
                hyperbolic_sigma: Binary64 { bits: ONE_BITS },
                parabolic_sigma: Binary64 { bits: PARABOLIC_SIGMA_BITS },
                implicit_limiter: Binary64 { bits: IMPLICIT_LIMITER_BITS },
            },
        ) is None,
{
}

/// The lengths of the rate columns.
#[derive(Clone, Copy, Debug, PartialEq, Eq, Structural)]
pub struct MhdRateLengths1d {
    pub momentum: usize,
    pub total_energy: usize,
    pub magnetic_volume: usize,
    pub cleaning_mass: usize,
    pub acceleration: usize,
    pub specific_internal_energy: usize,
    pub maximum_signal_speed: usize,
    pub velocity_divergence: usize,
    pub magnetic_divergence: usize,
}

impl MhdRateLengths1d {
    /// The columns with their lengths.
    pub open spec fn columns(self) -> Seq<(&'static str, usize)> {
        seq![
            ("momentum_rates", self.momentum),
            ("total_energy_rates", self.total_energy),
            ("magnetic_volume_rates", self.magnetic_volume),
            ("cleaning_mass_rates", self.cleaning_mass),
            ("acceleration", self.acceleration),
            ("specific_internal_energy_rates", self.specific_internal_energy),
            ("maximum_signal_speed", self.maximum_signal_speed),
            ("velocity_divergence", self.velocity_divergence),
            ("magnetic_divergence", self.magnetic_divergence),
        ]
    }
}

/// Check the lengths of the rate columns.
pub fn validate_rate_lengths(rates: MhdRateLengths1d, expected: usize) -> (result: Result<
    (),
    MhdEvolutionError,
>)
    ensures
        result == outcome(first_fault(length_faults(expected, rates.columns()), 9)),
{
    let fields: [(&'static str, usize); 9] = [
        ("momentum_rates", rates.momentum),
        ("total_energy_rates", rates.total_energy),
        ("magnetic_volume_rates", rates.magnetic_volume),
        ("cleaning_mass_rates", rates.cleaning_mass),
        ("acceleration", rates.acceleration),
        ("specific_internal_energy_rates", rates.specific_internal_energy),
        ("maximum_signal_speed", rates.maximum_signal_speed),
        ("velocity_divergence", rates.velocity_divergence),
        ("magnetic_divergence", rates.magnetic_divergence),
    ];
    assert(fields@ =~= rates.columns());
    validate_lengths(expected, &fields)
}

/// What follows from a flux between two magnetized particles.
#[derive(Clone, Copy, Debug, PartialEq)]
pub enum MhdPairDecision {
    /// The flux carries no mass beyond rounding and is used without its mass.
    Accept,
    /// The flux is computed again from particle-centered states.
    RetryCentered,
    Fail(MhdError),
}

/// The result of a Riemann solution as far as its acceptance depends on it.
#[derive(Clone, Copy, Debug, PartialEq)]
pub enum MhdPairAttempt {
    Solved { method: MhdRiemannMethod, mass_flux: Binary64, mass_roundoff: Binary64 },
    Failed(MhdError),
}

/// The decision after a flux. A fixed-mass method cannot use a flux of another method, or
/// one that carries mass.
pub open spec fn mhd_pair_decision(centered: bool, attempt: MhdPairAttempt) -> MhdPairDecision {
    match attempt {
        MhdPairAttempt::Failed(error) => if error == MhdError::NoAdmissibleContactFlux
            && !centered {
            MhdPairDecision::RetryCentered
        } else {
            MhdPairDecision::Fail(error)
        },
        MhdPairAttempt::Solved { method, mass_flux, mass_roundoff } => if method
            == MhdRiemannMethod::Hlld && !mass_roundoff.lt(
            Binary64 { bits: mass_flux.magnitude() as u64 },
        ) {
            MhdPairDecision::Accept
        } else {
            MhdPairDecision::Fail(MhdError::NoAdmissibleContactFlux)
        },
    }
}

/// Decide what follows from a flux. `centered` says that it was computed from
/// particle-centered states.
pub fn decide_mhd_pair(centered: bool, attempt: MhdPairAttempt) -> (result: MhdPairDecision)
    ensures
        result == mhd_pair_decision(centered, attempt),
{
    match attempt {
        MhdPairAttempt::Failed(error) => {
            if matches!(error, MhdError::NoAdmissibleContactFlux) && !centered {
                MhdPairDecision::RetryCentered
            } else {
                MhdPairDecision::Fail(error)
            }
        },
        MhdPairAttempt::Solved { method, mass_flux, mass_roundoff } => {
            let admissible: bool = matches!(method, MhdRiemannMethod::Hlld);
            if !admissible || mass_roundoff.less(mass_flux.abs()) {
                MhdPairDecision::Fail(MhdError::NoAdmissibleContactFlux)
            } else {
                MhdPairDecision::Accept
            }
        },
    }
}

/// A pair is tried at most twice, and only a flux without mass is ever used.
pub proof fn law_mhd_pairs_are_tried_twice(centered: bool, attempt: MhdPairAttempt)
    ensures
        mhd_pair_decision(centered, attempt) == MhdPairDecision::RetryCentered ==> !centered,
        mhd_pair_decision(centered, attempt) == MhdPairDecision::Accept ==> match attempt {
            MhdPairAttempt::Failed(_) => false,
            MhdPairAttempt::Solved { method, mass_flux, mass_roundoff } => method
                == MhdRiemannMethod::Hlld && (!mass_flux.nan() && !mass_roundoff.nan()
                ==> mass_flux.magnitude() <= mass_roundoff.rank()),
        },
{
}

/// Whether the accumulated cleaning correction of a particle is scaled down: it exceeds its
/// limit, and both it and what it is measured by are above zero.
pub fn correction_is_scaled(correction: Binary64, limit: Binary64, uncorrected: Binary64) -> (result:
    bool)
    ensures
        result == (limit.lt(correction) && (Binary64 { bits: 0 }).lt(correction) && (Binary64 {
            bits: 0,
        }).lt(uncorrected)),
        correction.le(limit) || correction.le(Binary64 { bits: 0 }) || uncorrected.le(
            Binary64 { bits: 0 },
        ) ==> !result,
        limit.lt(correction) && correction.positive() && uncorrected.positive() ==> result,
{
    let zero: Binary64 = Binary64 { bits: 0 };
    limit.less(correction) && zero.less(correction) && zero.less(uncorrected)
}

/// Check the particle-wise rates that follow from the accumulated conserved rates.
pub fn validate_primitive_rate(index: usize, acceleration: Vector3, internal_rate: Binary64) -> (result:
    Result<(), MhdEvolutionError>)
    ensures
        result == outcome(
            state_fault(
                Some(index),
                "primitive_rate",
                Binary64 { bits: NAN_BITS },
                acceleration.finite() && internal_rate.finite(),
            ),
        ),
        result is Ok <==> acceleration.finite() && internal_rate.finite(),
{
    check_state(
        Some(index),
        "primitive_rate",
        Binary64 { bits: NAN_BITS },
        acceleration.is_finite() && internal_rate.is_finite(),
    )
}

/// Check the inputs of the global Courant bound: state, factor, then the signal speeds.
pub fn validate_courant_inputs(
    state: &MhdMfmState1d,
    courant_factor: Binary64,
    signal_speeds: usize,
) -> (result: Result<(), MhdEvolutionError>)
    ensures
        result == outcome(
            first(
                state.fault(),
                first(
                    state_fault(
                        None,
                        "courant_factor",
                        courant_factor,
                        courant_factor.positive() && courant_factor.rank() <= HALF_BITS,
                    ),
                    if signal_speeds != state.positions@.len() {
                        Some(
                            MhdEvolutionError::MismatchedLength {
                                field: "maximum_signal_speed",
                                expected: state.positions@.len() as usize,
                                actual: signal_speeds,
                            },
                        )
                    } else {
                        None
                    },
                ),
            ),
        ),
        result is Ok <==> {
            &&& state.fault() is None
            &&& (Binary64 { bits: 0 }).lt(courant_factor) && courant_factor.le(
                Binary64 { bits: HALF_BITS },
            )
            &&& signal_speeds == state.positions@.len()
        },
{
    if let Err(error) = state.validate() {
        return Err(error);
    }
    let half: Binary64 = Binary64 { bits: HALF_BITS };
    if let Err(error) = check_state(
        None,
        "courant_factor",
        courant_factor,
        courant_factor.is_positive() && courant_factor.at_most(half),
    ) {
        return Err(error);
    }
    if signal_speeds != state.positions.len() {
        return Err(
            MhdEvolutionError::MismatchedLength {
                field: "maximum_signal_speed",
                expected: state.positions.len(),
                actual: signal_speeds,
            },
        );
    }
    Ok(())
}

/// The shortest of the first `count` Courant candidates, or the first that cannot be used.
/// Without a particle there is no bound.
pub open spec fn shortest_courant(candidates: Seq<Binary64>, count: int) -> Result<
    Binary64,
    MhdEvolutionError,
>
    decreases count,
{
    if count <= 0 {
        Ok(Binary64 { bits: INFINITY_BITS })
    } else {
        match shortest_courant(candidates, count - 1) {
            Err(error) => Err(error),
            Ok(timestep) => if candidates[count - 1].positive() {
                Ok(timestep.lesser(candidates[count - 1]))
            } else {
                Err(
                    MhdEvolutionError::InvalidState {
                        index: Some((count - 1) as usize),
                        field: "courant_timestep",
                        value: candidates[count - 1],
                    },
                )
            },
        }
    }
}

proof fn lemma_courant_fault_stays(candidates: Seq<Binary64>, count: int, longer: int)
    requires
        count <= longer,
        shortest_courant(candidates, count) is Err,
    ensures
        shortest_courant(candidates, longer) == shortest_courant(candidates, count),
    decreases longer - count,
{
    if count < longer {
        lemma_courant_fault_stays(candidates, count, longer - 1);
    }
}

/// The global Courant timestep: the shortest candidate.
pub fn global_mhd_courant_timestep_1d(candidates: &[Binary64]) -> (result: Result<
    Binary64,
    MhdEvolutionError,
>)
    ensures
        result == shortest_courant(candidates@, candidates@.len() as int),
        result matches Ok(timestep) ==> forall|i: int|
            0 <= i < candidates@.len() ==> timestep.le(#[trigger] candidates@[i]),
{
    let mut timestep: Binary64 = Binary64 { bits: INFINITY_BITS };
    let mut index: usize = 0;
    while index < candidates.len()
        invariant
            index <= candidates@.len(),
            shortest_courant(candidates@, index as int) == Ok::<Binary64, MhdEvolutionError>(
                timestep,
            ),
        decreases candidates@.len() - index,
    {
        let candidate: Binary64 = candidates[index];
        if !candidate.is_positive() {
            proof {
                lemma_courant_fault_stays(candidates@, index + 1, candidates@.len() as int);
            }
            return Err(
                MhdEvolutionError::InvalidState {
                    index: Some(index),
                    field: "courant_timestep",
                    value: candidate,
                },
            );
        }
        timestep = timestep.min(candidate);
        index = index + 1;
    }
    proof {
        law_global_timestep_is_the_least(candidates@, candidates@.len() as int);
    }
    Ok(timestep)
}

/// The global timestep is not longer than any candidate.
pub proof fn law_global_timestep_is_a_bound(candidates: Seq<Binary64>, count: int, i: int)
    requires
        0 <= i < count <= candidates.len(),
    ensures
        shortest_courant(candidates, count) matches Ok(timestep) ==> timestep.le(candidates[i])
            && timestep.positive(),
    decreases count,
{
    if i < count - 1 {
        law_global_timestep_is_a_bound(candidates, count - 1, i);
    } else if count > 1 {
        law_global_timestep_is_a_bound(candidates, count - 1, 0);
    } else {
        assert(shortest_courant(candidates, 0) == Ok::<Binary64, MhdEvolutionError>(
            Binary64 { bits: INFINITY_BITS },
        ));
    }
}

/// Check the inputs of a step: state, rates, timestep, then the energy floor.
pub fn validate_kdk_inputs(
    state: &MhdMfmState1d,
    rates: MhdRateLengths1d,
    timestep: Binary64,
    minimum_specific_internal_energy: Binary64,
) -> (result: Result<(), MhdEvolutionError>)
    ensures
        result == outcome(
            first(
                state.fault(),
                first(
                    first_fault(
                        length_faults(state.positions@.len() as usize, rates.columns()),
                        9,
                    ),
                    first(
                        state_fault(None, "timestep", timestep, timestep.positive()),
                        state_fault(
                            None,
                            "minimum_specific_internal_energy",
                            minimum_specific_internal_energy,
                            minimum_specific_internal_energy.nonnegative(),
                        ),
                    ),
                ),
            ),
        ),
        result is Ok ==> state.fault() is None && (Binary64 { bits: 0 }).lt(timestep)
            && timestep.finite() && (Binary64 { bits: 0 }).le(minimum_specific_internal_energy)
            && minimum_specific_internal_energy.finite(),
        state.fault() is None && first_fault(
            length_faults(state.positions@.len() as usize, rates.columns()),
            9,
        ) is None && timestep.positive() && minimum_specific_internal_energy.nonnegative()
            ==> result is Ok,
{
    if let Err(error) = state.validate() {
        return Err(error);
    }
    if let Err(error) = validate_rate_lengths(rates, state.positions.len()) {
        return Err(error);
    }
    if let Err(error) = check_state(None, "timestep", timestep, timestep.is_positive()) {
        return Err(error);
    }
    check_state(
        None,
        "minimum_specific_internal_energy",
        minimum_specific_internal_energy,
        minimum_specific_internal_energy.is_nonnegative(),
    )
}

/// The faults of recovered energies: each must be finite and not below the floor.
pub open spec fn recovery_faults(energies: Seq<Binary64>, minimum: Binary64) -> spec_fn(
    int,
) -> Option<MhdEvolutionError> {
    |i: int|
        state_fault(
            Some(i as usize),
            "recovered_specific_internal_energy",
            energies[i],
            energies[i].finite() && !energies[i].lt(minimum),
        )
}

/// Check the energies recovered from a conserved state.
pub fn validate_recovered_energies(energies: &[Binary64], minimum: Binary64) -> (result: Result<
    (),
    MhdEvolutionError,
>)
    ensures
        result == outcome(
            first_fault(recovery_faults(energies@, minimum), energies@.len() as int),
        ),
{
    let ghost faults = recovery_faults(energies@, minimum);
    let mut index: usize = 0;
    while index < energies.len()
        invariant
            index <= energies@.len(),
            faults == recovery_faults(energies@, minimum),
            first_fault(faults, index as int) is None,
        decreases energies@.len() - index,
    {
        let energy: Binary64 = energies[index];
        if let Err(error) = check_state(
            Some(index),
            "recovered_specific_internal_energy",
            energy,
            energy.is_finite() && !energy.less(minimum),
        ) {
            assert(faults(index as int) is Some);
            proof {
                lemma_first_fault_stays(faults, index + 1, energies@.len() as int);
            }
            return Err(error);
        }
        assert(faults(index as int) is None);
        index = index + 1;
    }
    Ok(())
}

/// A particle is refused exactly where it lies outside the box, or mass, energy or support is
/// not positive, or another number is not finite; the first of these is reported.
pub proof fn law_particles_are_fit(
    state: MhdMfmState1d,
    i: int,
)
    ensures
        state.particle_fault(i) is None <==> {
            &&& state.positions@[i].finite()
            &&& state.masses@[i].positive()
            &&& state.specific_internal_energy@[i].positive()
            &&& state.smoothing_lengths@[i].positive()
            &&& state.cleaning_mass@[i].finite()
            &&& (Binary64 { bits: 0 }).le(state.positions@[i]) && state.positions@[i].lt(state.box_size)
            &&& state.velocities@[i].x.finite() && state.velocities@[i].y.finite() && state.velocities@[i].z.finite()
            &&& state.magnetic_volume@[i].x.finite() && state.magnetic_volume@[i].y.finite() && state.magnetic_volume@[i].z.finite()
        },
        ({
            &&& !(state.positions@[i].finite())
        }) ==> state.particle_fault(i) == Some(
            MhdEvolutionError::InvalidState { index: Some(i as usize), field: "position", value: state.positions@[i] },
        ),
        ({
            &&& state.positions@[i].finite()
            &&& !(state.masses@[i].positive())
        }) ==> state.particle_fault(i) == Some(
            MhdEvolutionError::InvalidState { index: Some(i as usize), field: "mass", value: state.masses@[i] },
        ),
        ({
            &&& state.positions@[i].finite()
            &&& state.masses@[i].positive()
            &&& !(state.specific_internal_energy@[i].positive())
        }) ==> state.particle_fault(i) == Some(
            MhdEvolutionError::InvalidState { index: Some(i as usize), field: "specific_internal_energy", value: state.specific_internal_energy@[i] },
        ),
        ({
            &&& state.positions@[i].finite()
            &&& state.masses@[i].positive()
            &&& state.specific_internal_energy@[i].positive()
            &&& !(state.smoothing_lengths@[i].positive())
        }) ==> state.particle_fault(i) == Some(
            MhdEvolutionError::InvalidState { index: Some(i as usize), field: "smoothing_length", value: state.smoothing_lengths@[i] },
        ),
        ({
            &&& state.positions@[i].finite()
            &&& state.masses@[i].positive()
            &&& state.specific_internal_energy@[i].positive()
            &&& state.smoothing_lengths@[i].positive()
            &&& !(state.cleaning_mass@[i].finite())
        }) ==> state.particle_fault(i) == Some(
            MhdEvolutionError::InvalidState { index: Some(i as usize), field: "cleaning_mass", value: state.cleaning_mass@[i] },
        ),
        ({
            &&& state.positions@[i].finite()
            &&& state.masses@[i].positive()
            &&& state.specific_internal_energy@[i].positive()
            &&& state.smoothing_lengths@[i].positive()
            &&& state.cleaning_mass@[i].finite()
            &&& !((Binary64 { bits: 0 }).le(state.positions@[i]) && state.positions@[i].lt(state.box_size))
        }) ==> state.particle_fault(i) == Some(
            MhdEvolutionError::InvalidState { index: Some(i as usize), field: "position", value: state.positions@[i] },
        ),
        ({
            &&& state.positions@[i].finite()
            &&& state.masses@[i].positive()
            &&& state.specific_internal_energy@[i].positive()
            &&& state.smoothing_lengths@[i].positive()
            &&& state.cleaning_mass@[i].finite()
            &&& (Binary64 { bits: 0 }).le(state.positions@[i]) && state.positions@[i].lt(state.box_size)
            &&& !(state.velocities@[i].x.finite() && state.velocities@[i].y.finite() && state.velocities@[i].z.finite())
        }) ==> state.particle_fault(i) == Some(
            MhdEvolutionError::InvalidState { index: Some(i as usize), field: "velocity", value: Binary64 { bits: NAN_BITS } },
        ),
        ({
            &&& state.positions@[i].finite()
            &&& state.masses@[i].positive()
            &&& state.specific_internal_energy@[i].positive()
            &&& state.smoothing_lengths@[i].positive()
            &&& state.cleaning_mass@[i].finite()
            &&& (Binary64 { bits: 0 }).le(state.positions@[i]) && state.positions@[i].lt(state.box_size)
            &&& state.velocities@[i].x.finite() && state.velocities@[i].y.finite() && state.velocities@[i].z.finite()
            &&& !(state.magnetic_volume@[i].x.finite() && state.magnetic_volume@[i].y.finite() && state.magnetic_volume@[i].z.finite())
        }) ==> state.particle_fault(i) == Some(
            MhdEvolutionError::InvalidState { index: Some(i as usize), field: "magnetic_volume", value: Binary64 { bits: NAN_BITS } },
        ),
{
}

/// A state is fit exactly where its columns have one length, box and adiabatic index are
/// usable, and every particle is fit.
pub proof fn law_states_are_fit(state: MhdMfmState1d)
    ensures
        state.fault() is None <==> {
            &&& state.masses@.len() == state.positions@.len()
                && state.velocities@.len() == state.positions@.len()
                && state.specific_internal_energy@.len() == state.positions@.len()
                && state.smoothing_lengths@.len() == state.positions@.len()
                && state.magnetic_volume@.len() == state.positions@.len()
                && state.cleaning_mass@.len() == state.positions@.len()
            &&& state.box_size.positive()
            &&& (Binary64 { bits: ONE_BITS }).lt(state.gamma) && state.gamma.finite()
            &&& forall|i: int|
                0 <= i < state.positions@.len() ==> (#[trigger] state.particle_fault(i)) is None
        },
{
    let lengths = length_faults(state.positions@.len() as usize, state.columns());
    let particles = state.particle_faults();
    law_first_fault_is_the_earliest(lengths, 6);
    law_first_fault_is_the_earliest(particles, state.positions@.len() as int);
    assert(state.masses.len() == state.masses@.len());
    assert(state.velocities.len() == state.velocities@.len());
    assert(state.specific_internal_energy.len() == state.specific_internal_energy@.len());
    assert(state.smoothing_lengths.len() == state.smoothing_lengths@.len());
    assert(state.magnetic_volume.len() == state.magnetic_volume@.len());
    assert(state.cleaning_mass.len() == state.cleaning_mass@.len());
    assert(state.positions.len() == state.positions@.len());
    if first_fault(lengths, 6) is None {
        assert(lengths(0) is None);
        assert(lengths(1) is None);
        assert(lengths(2) is None);
        assert(lengths(3) is None);
        assert(lengths(4) is None);
        assert(lengths(5) is None);
    }
    if first_fault(particles, state.positions@.len() as int) is None {
        assert forall|i: int| 0 <= i < state.positions@.len() implies (
        #[trigger] state.particle_fault(i)) is None by {
            assert(particles(i) is None);
        }
    }
}

/// Cleaning controls are refused exactly where a coefficient is negative or not finite.
pub proof fn law_controls_are_fit(
    controls: DivergenceControl1d,
)
    ensures
        controls_fault(controls) is None <==> {
            &&& (Binary64 { bits: 0 }).le(controls.hyperbolic_sigma) && controls.hyperbolic_sigma.finite()
            &&& (Binary64 { bits: 0 }).le(controls.parabolic_sigma) && controls.parabolic_sigma.finite()
            &&& (Binary64 { bits: 0 }).le(controls.implicit_limiter) && controls.implicit_limiter.finite()
        },
        ({
            &&& !((Binary64 { bits: 0 }).le(controls.hyperbolic_sigma) && controls.hyperbolic_sigma.finite())
        }) ==> controls_fault(controls) == Some(
            MhdEvolutionError::InvalidState { index: None, field: "hyperbolic_sigma", value: controls.hyperbolic_sigma },
        ),
        ({
            &&& (Binary64 { bits: 0 }).le(controls.hyperbolic_sigma) && controls.hyperbolic_sigma.finite()
            &&& !((Binary64 { bits: 0 }).le(controls.parabolic_sigma) && controls.parabolic_sigma.finite())
        }) ==> controls_fault(controls) == Some(
            MhdEvolutionError::InvalidState { index: None, field: "parabolic_sigma", value: controls.parabolic_sigma },
        ),
        ({
            &&& (Binary64 { bits: 0 }).le(controls.hyperbolic_sigma) && controls.hyperbolic_sigma.finite()
            &&& (Binary64 { bits: 0 }).le(controls.parabolic_sigma) && controls.parabolic_sigma.finite()
            &&& !((Binary64 { bits: 0 }).le(controls.implicit_limiter) && controls.implicit_limiter.finite())
        }) ==> controls_fault(controls) == Some(
            MhdEvolutionError::InvalidState { index: None, field: "implicit_limiter", value: controls.implicit_limiter },
        ),
{
}

/// The columns of primitive values and of rates are named after what they hold.
pub proof fn law_column_names(primitive: MhdPrimitiveLengths1d, rates: MhdRateLengths1d)
    ensures
        primitive.columns().len() == 6,
        rates.columns().len() == 9,
        primitive.columns()[0] == ("masses", primitive.masses),
        primitive.columns()[1] == ("velocities", primitive.velocities),
        primitive.columns()[2] == ("specific_internal_energy", primitive.specific_internal_energy),
        primitive.columns()[3] == ("smoothing_lengths", primitive.smoothing_lengths),
        primitive.columns()[4] == ("magnetic", primitive.magnetic),
        primitive.columns()[5] == ("cleaning_scalar", primitive.cleaning_scalar),
        rates.columns()[0] == ("momentum_rates", rates.momentum),
        rates.columns()[1] == ("total_energy_rates", rates.total_energy),
        rates.columns()[2] == ("magnetic_volume_rates", rates.magnetic_volume),
        rates.columns()[3] == ("cleaning_mass_rates", rates.cleaning_mass),
        rates.columns()[4] == ("acceleration", rates.acceleration),
        rates.columns()[5] == ("specific_internal_energy_rates", rates.specific_internal_energy),
        rates.columns()[6] == ("maximum_signal_speed", rates.maximum_signal_speed),
        rates.columns()[7] == ("velocity_divergence", rates.velocity_divergence),
        rates.columns()[8] == ("magnetic_divergence", rates.magnetic_divergence),
{
}

/// Lengths are accepted exactly where all of them are the expected one, and the first that
/// is not is reported.
pub proof fn law_lengths_agree(
    expected: usize,
    columns: Seq<(&'static str, usize)>,
)
    ensures
        first_fault(length_faults(expected, columns), columns.len() as int) is None <==> forall|
            i: int,
        |
            0 <= i < columns.len() ==> (#[trigger] columns[i]).1 == expected,
        first_fault(length_faults(expected, columns), columns.len() as int) matches Some(error)
            ==> exists|i: int|
            0 <= i < columns.len() && (#[trigger] columns[i]).1 != expected && error == (
            MhdEvolutionError::MismatchedLength {
                field: columns[i].0,
                expected,
                actual: columns[i].1,
            }) && forall|k: int| 0 <= k < i ==> (#[trigger] columns[k]).1 == expected,
{
    let faults = length_faults(expected, columns);
    law_first_fault_is_the_earliest(faults, columns.len() as int);
    if first_fault(faults, columns.len() as int) is None {
        assert forall|i: int| 0 <= i < columns.len() implies (#[trigger] columns[i]).1
            == expected by {
            assert(faults(i) is None);
        }
    } else {
        let error = first_fault(faults, columns.len() as int)->0;
        let i = choose|i: int|
            0 <= i < columns.len() && #[trigger] faults(i) == Some(error) && forall|k: int|
                0 <= k < i ==> (#[trigger] faults(k)) is None;
        assert(columns[i].1 != expected);
        assert forall|k: int| 0 <= k < i implies (#[trigger] columns[k]).1 == expected by {
            assert(faults(k) is None);
        }
    }
}

/// A magnetized pair is accepted only where the five-wave solver let no mass through beyond
/// rounding, is tried once more from centered states only where the contact flux was not
/// admissible, and fails otherwise with the reason.
pub proof fn law_mhd_pair_decisions(
    centered: bool,
    error: MhdError,
    method: MhdRiemannMethod,
    mass_flux: Binary64,
    mass_roundoff: Binary64,
)
    requires
        !mass_flux.nan(),
        !mass_roundoff.nan(),
    ensures
        mhd_pair_decision(
            centered,
            MhdPairAttempt::Solved { method, mass_flux, mass_roundoff },
        ) == MhdPairDecision::Accept <==> method == MhdRiemannMethod::Hlld && (Binary64 {
            bits: mass_flux.magnitude() as u64,
        }).le(mass_roundoff),
        mhd_pair_decision(
            centered,
            MhdPairAttempt::Solved { method, mass_flux, mass_roundoff },
        ) != MhdPairDecision::Accept ==> mhd_pair_decision(
            centered,
            MhdPairAttempt::Solved { method, mass_flux, mass_roundoff },
        ) == MhdPairDecision::Fail(MhdError::NoAdmissibleContactFlux),
        mhd_pair_decision(centered, MhdPairAttempt::Failed(error)) == MhdPairDecision::RetryCentered
            <==> error == MhdError::NoAdmissibleContactFlux && !centered,
        centered || error != MhdError::NoAdmissibleContactFlux ==> mhd_pair_decision(
            centered,
            MhdPairAttempt::Failed(error),
        ) == MhdPairDecision::Fail(error),
{
}

/// The global timestep of usable candidates is the least of them; without candidates nothing
/// limits it; the first unusable candidate is reported.
pub proof fn law_global_timestep_is_the_least(candidates: Seq<Binary64>, count: int)
    requires
        0 <= count <= candidates.len(),
    ensures
        (forall|i: int| 0 <= i < count ==> (#[trigger] candidates[i]).positive()) <==> (
        shortest_courant(candidates, count) is Ok),
        count == 0 ==> shortest_courant(candidates, count) == Ok::<Binary64, MhdEvolutionError>(
            Binary64 { bits: INFINITY_BITS },
        ),
        shortest_courant(candidates, count) matches Ok(timestep) ==> {
            &&& forall|i: int| 0 <= i < count ==> timestep.le(#[trigger] candidates[i])
            &&& count > 0 ==> exists|i: int| 0 <= i < count && #[trigger] candidates[i] == timestep
        },
        shortest_courant(candidates, count) matches Err(error) ==> exists|i: int|
            0 <= i < count && !(#[trigger] candidates[i]).positive() && error == (
            MhdEvolutionError::InvalidState {
                index: Some(i as usize),
                field: "courant_timestep",
                value: candidates[i],
            }) && forall|k: int| 0 <= k < i ==> (#[trigger] candidates[k]).positive(),
    decreases count,
{
    if count > 0 {
        law_global_timestep_is_the_least(candidates, count - 1);
        let last = candidates[count - 1];
        if shortest_courant(candidates, count - 1) is Ok {
            if last.positive() {
                let before = shortest_courant(candidates, count - 1)->Ok_0;
                let timestep = before.lesser(last);
                assert(!before.nan()) by {
                    if count > 1 {
                        assert(before.le(candidates[0]));
                    }
                }
                assert(last == candidates[count - 1]);
                if count == 1 {
                    assert(candidates[0] == timestep);
                }
                assert forall|i: int| 0 <= i < count implies timestep.le(
                    #[trigger] candidates[i],
                ) by {
                    if i < count - 1 {
                        assert(before.le(candidates[i]));
                    }
                }
            } else {
                assert(!candidates[count - 1].positive());
            }
        } else {
            let i = choose|i: int|
                0 <= i < count - 1 && !(#[trigger] candidates[i]).positive()
                    && shortest_courant(candidates, count - 1) == Err::<Binary64, MhdEvolutionError>(
                    MhdEvolutionError::InvalidState {
                        index: Some(i as usize),
                        field: "courant_timestep",
                        value: candidates[i],
                    },
                ) && forall|k: int| 0 <= k < i ==> (#[trigger] candidates[k]).positive();
            assert(!candidates[i].positive());
        }
    }
}

/// Recovered energies are accepted exactly where all of them are finite and none is below the
/// minimum.
pub proof fn law_recovered_energies(energies: Seq<Binary64>, minimum: Binary64)
    requires
        !minimum.nan(),
    ensures
        first_fault(recovery_faults(energies, minimum), energies.len() as int) is None <==> forall|
            i: int,
        |
            0 <= i < energies.len() ==> (#[trigger] energies[i]).finite() && minimum.le(
                energies[i],
            ),
{
    let faults = recovery_faults(energies, minimum);
    law_first_fault_is_the_earliest(faults, energies.len() as int);
    if first_fault(faults, energies.len() as int) is None {
        assert forall|i: int| 0 <= i < energies.len() implies (#[trigger] energies[i]).finite()
            && minimum.le(energies[i]) by {
            assert(faults(i) is None);
        }
    }
}

/// The default coefficients of the cleaning: one fifth and three quarters.
pub proof fn law_cleaning_constants()
    ensures
        nearest(Binary64 { bits: PARABOLIC_SIGMA_BITS }, 1, 5),
        nearest(Binary64 { bits: IMPLICIT_LIMITER_BITS }, 3, 4),
{
    lemma2_to64();
    lemma2_to64_rest();
}

/// A message holds every field of its error, each in its place.
pub proof fn law_messages_hold_the_fields(error: MhdEvolutionError)
    ensures
        error matches MhdEvolutionError::Hydro(inner) ==> error.wording() == inner.wording(),
        error matches MhdEvolutionError::Mhd(inner) ==> error.wording() == inner.wording(),
        error matches MhdEvolutionError::InvalidState { index, field, value } ==> {
            &&& error.wording().len() == 6
            &&& error.wording()[1] == MessagePart::Text(field)
            &&& error.wording()[3] == MessagePart::Value(value)
            &&& error.wording()[5] == MessagePart::OptionalCount(index)
        },
        error matches MhdEvolutionError::MismatchedLength { field, expected, actual } ==> {
            &&& error.wording().len() == 5
            &&& error.wording()[0] == MessagePart::Text(field)
            &&& error.wording()[2] == MessagePart::Count(actual)
            &&& error.wording()[4] == MessagePart::Count(expected)
        },
{
}

/// Between the fields the message of an error always reads the same.
pub proof fn law_messages_are_fixed(error: MhdEvolutionError, other: MhdEvolutionError)
    ensures
        error is InvalidState && other is InvalidState ==> {
            &&& error.wording()[0] == other.wording()[0]
            &&& error.wording()[2] == other.wording()[2]
            &&& error.wording()[4] == other.wording()[4]
        },
        error is MismatchedLength && other is MismatchedLength ==> {
            &&& error.wording()[1] == other.wording()[1]
            &&& error.wording()[3] == other.wording()[3]
        },
{
}

/// A state is refused for its lengths, then the box, then the adiabatic index, and then its
/// first unfit particle.
pub proof fn law_magnetized_states_are_refused_in_order(state: MhdMfmState1d)
    ensures
        ({
            let fault = state.fault();
            let lengths = first_fault(
                length_faults(state.positions@.len() as usize, state.columns()),
                6,
            );
            let boxed = state.box_size.finite() && (Binary64 { bits: 0 }).lt(state.box_size);
            let compressible = (Binary64 { bits: ONE_BITS }).lt(state.gamma)
                && state.gamma.finite();
            &&& state.columns().len() == 6
            &&& lengths is Some ==> fault == lengths
            &&& lengths is None && !boxed ==> fault == Some(
                MhdEvolutionError::InvalidState {
                    index: None,
                    field: "box_size",
                    value: state.box_size,
                },
            )
            &&& lengths is None && boxed && !compressible ==> fault == Some(
                MhdEvolutionError::InvalidState { index: None, field: "gamma", value: state.gamma },
            )
            &&& lengths is None && boxed && compressible ==> fault == first_fault(
                state.particle_faults(),
                state.positions@.len() as int,
            )
        }),
{
}

/// A recovered energy is refused exactly where it is not finite or below the minimum.
pub proof fn law_refused_energies(energies: Seq<Binary64>, minimum: Binary64, i: int)
    requires
        0 <= i < energies.len(),
        energies.len() <= usize::MAX,
    ensures
        recovery_faults(energies, minimum)(i) is None <==> energies[i].finite() && !energies[i].lt(
            minimum,
        ),
        !energies[i].finite() || energies[i].lt(minimum) ==> recovery_faults(energies, minimum)(i)
            == Some(
            MhdEvolutionError::InvalidState {
                index: Some(i as usize),
                field: "recovered_specific_internal_energy",
                value: energies[i],
            },
        ),
{
}

} // verus!
