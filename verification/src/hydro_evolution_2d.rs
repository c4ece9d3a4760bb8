//! Decisions of the two-dimensional nonmagnetic evolution.

use vstd::prelude::*;

use crate::binary64::Binary64;
use crate::hydro_error::HydroError;
use crate::individual_timeline::{IndividualTimelineError, TickRequest};
use crate::meshless_2d::{Box2d, GeometryError, Vector2};
use crate::message::MessagePart;
use crate::mhd::Vector3;
use crate::riemann::{are_finite, is_forced_method, RiemannMethod};
use crate::ticks::{synchronized_floor, LEGACY_TIMEBASE_TICKS};

pub use crate::batches::method_index;

verus! {

use crate::binary64::{HALF_BITS, INFINITY_BITS, NAN_BITS, ONE_BITS};
use crate::fault::{
    first, first_fault, law_first_fault_is_the_earliest, lemma_first_fault_stays, outcome,
};
use crate::meshless_2d::wrap_fault;
use crate::individual_timeline::valid_span;
use crate::ticks::is_largest_bin;
use vstd::arithmetic::power2::pow2;

/// Errors of the two-dimensional evolution.
#[allow(inconsistent_fields)]
#[derive(Clone, Copy, Debug, PartialEq)]
pub enum HydroEvolution2dError {
    MismatchedLength { field: &'static str, expected: usize, actual: usize },
    InvalidState { index: Option<usize>, field: &'static str, value: Binary64 },
    Geometry(GeometryError),
    Riemann(HydroError),
    Timeline(IndividualTimelineError),
}

impl HydroEvolution2dError {
    /// The wording of the error.
    pub open spec fn wording(self) -> Seq<MessagePart> {
        match self {
            HydroEvolution2dError::MismatchedLength { field, expected, actual } => seq![
                MessagePart::Text("2-D hydro column `"),
                MessagePart::Text(field),
                MessagePart::Text("` has length "),
                MessagePart::Count(actual),
                MessagePart::Text(", expected "),
                MessagePart::Count(expected),
            ],
            HydroEvolution2dError::InvalidState { index, field, value } => seq![
                MessagePart::Text("invalid 2-D hydro `"),
                MessagePart::Text(field),
                MessagePart::Text("` at "),
                MessagePart::OptionalCount(index),
                MessagePart::Text(": "),
                MessagePart::Value(value),
            ],
            HydroEvolution2dError::Geometry(error) => error.wording(),
            HydroEvolution2dError::Riemann(error) => error.wording(),
            HydroEvolution2dError::Timeline(error) => error.wording(),
        }
    }

    /// The message of the error, part by part.
    pub fn message(&self) -> (result: Vec<MessagePart>)
        ensures
            result@ == self.wording(),
    {
        match *self {
            HydroEvolution2dError::MismatchedLength { field, expected, actual } => vec![
                MessagePart::Text("2-D hydro column `"),
                MessagePart::Text(field),
                MessagePart::Text("` has length "),
                MessagePart::Count(actual),
                MessagePart::Text(", expected "),
                MessagePart::Count(expected),
            ],
            HydroEvolution2dError::InvalidState { index, field, value } => vec![
                MessagePart::Text("invalid 2-D hydro `"),
                MessagePart::Text(field),
                MessagePart::Text("` at "),
                MessagePart::OptionalCount(index),
                MessagePart::Text(": "),
                MessagePart::Value(value),
            ],
            HydroEvolution2dError::Geometry(error) => error.message(),
            HydroEvolution2dError::Riemann(error) => error.message(),
            HydroEvolution2dError::Timeline(error) => error.message(),
        }
    }
}

impl From<GeometryError> for HydroEvolution2dError {
    fn from(error: GeometryError) -> (result: Self) {
        HydroEvolution2dError::Geometry(error)
    }
}

impl vstd::std_specs::convert::FromSpecImpl<GeometryError> for HydroEvolution2dError {
    open spec fn obeys_from_spec() -> bool {
        true
    }

    open spec fn from_spec(error: GeometryError) -> Self {
        HydroEvolution2dError::Geometry(error)
    }
}

impl From<HydroError> for HydroEvolution2dError {
    fn from(error: HydroError) -> (result: Self) {
        HydroEvolution2dError::Riemann(error)
    }
}

impl vstd::std_specs::convert::FromSpecImpl<HydroError> for HydroEvolution2dError {
    open spec fn obeys_from_spec() -> bool {
        true
    }

    open spec fn from_spec(error: HydroError) -> Self {
        HydroEvolution2dError::Riemann(error)
    }
}

impl From<IndividualTimelineError> for HydroEvolution2dError {
    fn from(error: IndividualTimelineError) -> (result: Self) {
        HydroEvolution2dError::Timeline(error)
    }
}

impl vstd::std_specs::convert::FromSpecImpl<IndividualTimelineError> for HydroEvolution2dError {
    open spec fn obeys_from_spec() -> bool {
        true
    }

    open spec fn from_spec(error: IndividualTimelineError) -> Self {
        HydroEvolution2dError::Timeline(error)
    }
}

/// A column whose length differs from what is expected.
pub open spec fn length_faults(expected: usize, fields: Seq<(&'static str, usize)>) -> spec_fn(
    int,
) -> Option<HydroEvolution2dError> {
    |i: int|
        if fields[i].1 != expected {
            Some(
                HydroEvolution2dError::MismatchedLength {
                    field: fields[i].0,
                    expected,
                    actual: fields[i].1,
                },
            )
        } else {
            None
        }
}

/// Check the lengths of several columns, in order.
pub fn validate_lengths(expected: usize, fields: &[(&'static str, usize)]) -> (result: Result<
    (),
    HydroEvolution2dError,
>)
    ensures
        result == outcome(first_fault(length_faults(expected, fields@), fields@.len() as int)),
{
    let ghost faults = length_faults(expected, fields@);
    let mut index: usize = 0;
    while index < fields.len()
        invariant
            index <= fields@.len(),
            faults == length_faults(expected, fields@),
            first_fault(faults, index as int) is None,
        decreases fields@.len() - index,
    {
        let (field, actual) = fields[index];
        if actual != expected {
            assert(faults(index as int) is Some);
            proof {
                lemma_first_fault_stays(faults, index + 1, fields@.len() as int);
            }
            return Err(HydroEvolution2dError::MismatchedLength { field, expected, actual });
        }
        assert(faults(index as int) is None);
        index = index + 1;
    }
    Ok(())
}

/// A state value that does not satisfy its condition.
pub open spec fn state_fault(
    index: Option<usize>,
    field: &'static str,
    value: Binary64,
    valid: bool,
) -> Option<HydroEvolution2dError> {
    if valid {
        None
    } else {
        Some(HydroEvolution2dError::InvalidState { index, field, value })
    }
}

/// Check a value against a condition that has been tested.
pub fn check_state(index: Option<usize>, field: &'static str, value: Binary64, valid: bool) -> (result:
    Result<(), HydroEvolution2dError>)
    ensures
        result == outcome(state_fault(index, field, value, valid)),
{
    if valid {
        Ok(())
    } else {
        Err(HydroEvolution2dError::InvalidState { index, field, value })
    }
}

/// The particle columns of a two-dimensional state.
#[derive(Clone, Debug, PartialEq)]
pub struct HydroMfmState2d {
    pub positions: Vec<Vector2>,
    pub masses: Vec<Binary64>,
    pub velocities: Vec<Vector3>,
    pub specific_internal_energy: Vec<Binary64>,
    /// Full compact-support radii.
    pub smoothing_lengths: Vec<Binary64>,
    pub domain: Box2d,
    pub gamma: Binary64,
}

impl HydroMfmState2d {
    /// The columns that must match the positions, with their lengths.
    pub open spec fn columns(self) -> Seq<(&'static str, usize)> {
        seq![
            ("masses", self.masses@.len() as usize),
            ("velocities", self.velocities@.len() as usize),
            ("specific_internal_energy", self.specific_internal_energy@.len() as usize),
            ("smoothing_lengths", self.smoothing_lengths@.len() as usize),
        ]
    }

    /// The faults of the particles: position, velocity, mass, internal energy, then
    /// smoothing length.
    pub open spec fn particle_faults(self) -> spec_fn(int) -> Option<HydroEvolution2dError> {
        let nan = Binary64 { bits: NAN_BITS };
        |i: int|
            first(
                state_fault(
                    Some(i as usize),
                    "position",
                    nan,
                    wrap_fault(self.positions@[i], self.domain.sides(), None) is None,
                ),
                first(
                    state_fault(
                        Some(i as usize),
                        "velocity",
                        nan,
                        self.velocities@[i].finite(),
                    ),
                    first(
                        state_fault(
                            Some(i as usize),
                            "mass",
                            self.masses@[i],
                            self.masses@[i].positive(),
                        ),
                        first(
                            state_fault(
                                Some(i as usize),
                                "specific_internal_energy",
                                self.specific_internal_energy@[i],
                                self.specific_internal_energy@[i].positive(),
                            ),
                            state_fault(
                                Some(i as usize),
                                "smoothing_length",
                                self.smoothing_lengths@[i],
                                self.smoothing_lengths@[i].positive(),
                            ),
                        ),
                    ),
                ),
            )
    }

    /// Construct and validate a state.
    pub fn from_primitive(
        positions: Vec<Vector2>,
        masses: Vec<Binary64>,
        velocities: Vec<Vector3>,
        specific_internal_energy: Vec<Binary64>,
        smoothing_lengths: Vec<Binary64>,
        domain: Box2d,
        gamma: Binary64,
    ) -> (result: Result<Self, HydroEvolution2dError>)
        ensures
            ({
                let state = HydroMfmState2d {
                    positions,
                    masses,
                    velocities,
                    specific_internal_energy,
                    smoothing_lengths,
                    domain,
                    gamma,
                };
                match state.fault() {
                    None => result == Ok::<HydroMfmState2d, HydroEvolution2dError>(state),
                    Some(error) => result == Err::<HydroMfmState2d, HydroEvolution2dError>(error),
                }
            }),
            result matches Ok(state) ==> state.positions == positions && state.masses == masses
                && state.velocities == velocities && state.specific_internal_energy
                == specific_internal_energy && state.smoothing_lengths == smoothing_lengths && state.gamma
                == gamma,
    {
        let state: HydroMfmState2d = HydroMfmState2d {
            positions,
            masses,
            velocities,
            specific_internal_energy,
            smoothing_lengths,
            domain,
            gamma,
        };
        if let Err(error) = state.validate() {
            return Err(error);
        }
        Ok(state)
    }

    /// The fault of the state: lengths, adiabatic index, then particle by particle.
    pub open spec fn fault(self) -> Option<HydroEvolution2dError> {
        first(
            first_fault(
                length_faults(self.positions@.len() as usize, self.columns()),
                4,
            ),
            first(
                state_fault(
                    None,
                    "gamma",
                    self.gamma,
                    self.gamma.finite() && self.gamma.rank() > ONE_BITS,
                ),
                first_fault(self.particle_faults(), self.positions@.len() as int),
            ),
        )
    }

    /// Check a complete state.
    pub fn validate(&self) -> (result: Result<(), HydroEvolution2dError>)
        ensures
            result == outcome(self.fault()),
    {
        let count: usize = self.positions.len();
        let fields: [(&'static str, usize); 4] = [
            ("masses", self.masses.len()),
            ("velocities", self.velocities.len()),
            ("specific_internal_energy", self.specific_internal_energy.len()),
            ("smoothing_lengths", self.smoothing_lengths.len()),
        ];
        assert(fields@ =~= self.columns());
        let lengths: Result<(), HydroEvolution2dError> = validate_lengths(count, &fields);
        if let Err(error) = lengths {
            return Err(error);
        }
        proof {
            crate::fault::law_first_fault_is_the_earliest(
                length_faults(count, self.columns()),
                4,
            );
            assert(length_faults(count, self.columns())(0) is None);
            assert(length_faults(count, self.columns())(1) is None);
            assert(length_faults(count, self.columns())(2) is None);
            assert(length_faults(count, self.columns())(3) is None);
        }
        let one: Binary64 = Binary64 { bits: ONE_BITS };
        if !self.gamma.is_finite() || self.gamma.at_most(one) {
            return Err(
                HydroEvolution2dError::InvalidState {
                    index: None,
                    field: "gamma",
                    value: self.gamma,
                },
            );
        }
        let nan: Binary64 = Binary64 { bits: NAN_BITS };
        let ghost faults = self.particle_faults();
        let mut i: usize = 0;
        while i < count
            invariant
                i <= count,
                nan == (Binary64 { bits: NAN_BITS }),
                self.positions@.len() == count,
                self.masses@.len() == count,
                self.velocities@.len() == count,
                self.specific_internal_energy@.len() == count,
                self.smoothing_lengths@.len() == count,
                faults == self.particle_faults(),
                first_fault(faults, i as int) is None,
                self.fault() == first_fault(faults, count as int),
            decreases count - i,
        {
            let index: Option<usize> = Some(i);
            let mut found: Option<HydroEvolution2dError> = None;
            if !self.domain.contains(self.positions[i]) {
                found =
                Some(HydroEvolution2dError::InvalidState { index, field: "position", value: nan });
            } else if !self.velocities[i].is_finite() {
                found =
                Some(HydroEvolution2dError::InvalidState { index, field: "velocity", value: nan });
            } else if !self.masses[i].is_positive() {
                found =
                Some(
                    HydroEvolution2dError::InvalidState {
                        index,
                        field: "mass",
                        value: self.masses[i],
                    },
                );
            } else if !self.specific_internal_energy[i].is_positive() {
                found =
                Some(
                    HydroEvolution2dError::InvalidState {
                        index,
                        field: "specific_internal_energy",
                        value: self.specific_internal_energy[i],
                    },
                );
            } else if !self.smoothing_lengths[i].is_positive() {
                found =
                Some(
                    HydroEvolution2dError::InvalidState {
                        index,
                        field: "smoothing_length",
                        value: self.smoothing_lengths[i],
                    },
                );
            }
            assert(found == faults(i as int));
            if let Some(error) = found {
                proof {
                    lemma_first_fault_stays(faults, i + 1, count as int);
                }
                return Err(error);
            }
            i = i + 1;
        }
        Ok(())
    }
}

/// The lengths of the rate columns of a state.
#[derive(Clone, Copy, Debug, PartialEq, Eq, Structural)]
pub struct RateLengths2d {
    pub momentum: usize,
    pub total_energy: usize,
    pub acceleration: usize,
    pub specific_internal_energy: usize,
    pub maximum_signal_speed: usize,
    pub velocity_divergence: usize,
}

impl RateLengths2d {
    /// The columns with their lengths.
    pub open spec fn columns(self) -> Seq<(&'static str, usize)> {
        seq![
            ("rate.momentum", self.momentum),
            ("rate.total_energy", self.total_energy),
            ("rate.acceleration", self.acceleration),
            ("rate.specific_internal_energy", self.specific_internal_energy),
            ("rate.maximum_signal_speed", self.maximum_signal_speed),
            ("rate.velocity_divergence", self.velocity_divergence),
        ]
    }
}

/// Check the lengths of the rate columns.
pub fn validate_rate_lengths(rates: RateLengths2d, expected: usize) -> (result: Result<
    (),
    HydroEvolution2dError,
>)
    ensures
        result == outcome(first_fault(length_faults(expected, rates.columns()), 6)),
{
    let fields: [(&'static str, usize); 6] = [
        ("rate.momentum", rates.momentum),
        ("rate.total_energy", rates.total_energy),
        ("rate.acceleration", rates.acceleration),
        ("rate.specific_internal_energy", rates.specific_internal_energy),
        ("rate.maximum_signal_speed", rates.maximum_signal_speed),
        ("rate.velocity_divergence", rates.velocity_divergence),
    ];
    assert(fields@ =~= rates.columns());
    validate_lengths(expected, &fields)
}

/// A primitive fluid state in the plane.
#[derive(Clone, Copy, Debug, PartialEq, Eq, Structural)]
pub struct EulerPrimitive2d {
    pub density: Binary64,
    pub velocity: Vector3,
    pub pressure: Binary64,
}

/// The fault of a primitive state: density, velocity, then pressure.
pub open spec fn primitive_fault(value: EulerPrimitive2d) -> Option<HydroEvolution2dError> {
    first(
        state_fault(None, "density", value.density, value.density.positive()),
        first(
            state_fault(
                None,
                "velocity",
                Binary64 { bits: NAN_BITS },
                value.velocity.finite(),
            ),
            state_fault(None, "pressure", value.pressure, value.pressure.positive()),
        ),
    )
}

/// Check a primitive state.
pub fn validate_primitive(value: EulerPrimitive2d) -> (result: Result<(), HydroEvolution2dError>)
    ensures
        result == outcome(primitive_fault(value)),
{
    if let Err(error) = check_state(None, "density", value.density, value.density.is_positive()) {
        return Err(error);
    }
    if let Err(error) = check_state(
        None,
        "velocity",
        Binary64 { bits: NAN_BITS },
        value.velocity.is_finite(),
    ) {
        return Err(error);
    }
    check_state(None, "pressure", value.pressure, value.pressure.is_positive())
}

/// Check the frame of a planar face problem: both states, a unit normal, and a finite
/// interface velocity. `deviation` is how far the length of the normal is from one.
pub fn validate_planar_face(
    left: EulerPrimitive2d,
    right: EulerPrimitive2d,
    normal: Vector2,
    normal_length: Binary64,
    deviation: Binary64,
    tolerance: Binary64,
    interface_velocity: Vector3,
) -> (result: Result<(), HydroEvolution2dError>)
    ensures
        result == outcome(
            first(
                primitive_fault(left),
                first(
                    primitive_fault(right),
                    first(
                        state_fault(
                            None,
                            "unit_normal",
                            normal_length,
                            normal.finite() && normal_length.finite() && !tolerance.lt(deviation),
                        ),
                        state_fault(
                            None,
                            "interface_velocity",
                            Binary64 { bits: NAN_BITS },
                            interface_velocity.finite(),
                        ),
                    ),
                ),
            ),
        ),
        !tolerance.nan() && !deviation.nan() ==> (result is Ok <==> primitive_fault(left) is None
            && primitive_fault(right) is None && normal.finite() && normal_length.finite()
            && deviation.le(tolerance) && interface_velocity.finite()),
{
    if let Err(error) = validate_primitive(left) {
        return Err(error);
    }
    if let Err(error) = validate_primitive(right) {
        return Err(error);
    }
    if let Err(error) = check_state(
        None,
        "unit_normal",
        normal_length,
        normal.is_finite() && normal_length.is_finite() && !tolerance.less(deviation),
    ) {
        return Err(error);
    }
    check_state(
        None,
        "interface_velocity",
        Binary64 { bits: NAN_BITS },
        interface_velocity.is_finite(),
    )
}

/// The timestep criteria of one particle.
#[derive(Clone, Copy, Debug, PartialEq, Eq, Structural)]
pub struct PublicHydroTimestepBounds2d {
    pub acceleration: Binary64,
    pub courant: Binary64,
    pub velocity_divergence: Binary64,
    pub selected: Binary64,
}

/// A criterion that is a NaN or not above zero. An infinite one does not limit.
pub open spec fn criterion_valid(value: Binary64) -> bool {
    !value.nan() && value.rank() > 0
}

fn is_criterion(value: Binary64) -> (result: bool)
    ensures
        result == criterion_valid(value),
{
    let zero: Binary64 = Binary64 { bits: 0 };
    zero.less(value)
}

/// The three timestep criteria of a particle.
#[derive(Clone, Copy, Debug, PartialEq, Eq, Structural)]
pub struct TimestepCriteria2d {
    pub acceleration: Binary64,
    pub courant: Binary64,
    pub velocity_divergence: Binary64,
}

impl TimestepCriteria2d {
    /// The shortest criterion.
    pub open spec fn shortest(self) -> Binary64 {
        self.acceleration.lesser(self.courant).lesser(self.velocity_divergence)
    }

    /// The fault of the criteria: each in turn, then the shortest, which must be finite.
    pub open spec fn fault(self, index: usize) -> Option<HydroEvolution2dError> {
        first(
            state_fault(
                Some(index),
                "acceleration_timestep",
                self.acceleration,
                criterion_valid(self.acceleration),
            ),
            first(
                state_fault(
                    Some(index),
                    "courant_timestep",
                    self.courant,
                    criterion_valid(self.courant),
                ),
                first(
                    state_fault(
                        Some(index),
                        "velocity_divergence_timestep",
                        self.velocity_divergence,
                        criterion_valid(self.velocity_divergence),
                    ),
                    state_fault(
                        Some(index),
                        "public_hydro_timestep",
                        self.shortest(),
                        self.shortest().positive(),
                    ),
                ),
            ),
        )
    }

    /// The bounds that follow from the criteria.
    pub open spec fn bounds(self) -> PublicHydroTimestepBounds2d {
        PublicHydroTimestepBounds2d {
            acceleration: self.acceleration,
            courant: self.courant,
            velocity_divergence: self.velocity_divergence,
            selected: self.shortest(),
        }
    }
}

/// The faults of a list of criteria.
pub open spec fn criteria_faults(criteria: Seq<TimestepCriteria2d>) -> spec_fn(int) -> Option<
    HydroEvolution2dError,
> {
    |i: int| criteria[i].fault(i as usize)
}

/// Combine the three timestep criteria of a particle into the shortest.
fn select_particle_bound(index: usize, criteria: TimestepCriteria2d) -> (result: Result<
    PublicHydroTimestepBounds2d,
    HydroEvolution2dError,
>)
    ensures
        match criteria.fault(index) {
            None => result == Ok::<PublicHydroTimestepBounds2d, HydroEvolution2dError>(
                criteria.bounds(),
            ),
            Some(error) => result == Err::<PublicHydroTimestepBounds2d, HydroEvolution2dError>(
                error,
            ),
        },
{
    let at: Option<usize> = Some(index);
    let acceleration: Binary64 = criteria.acceleration;
    let courant: Binary64 = criteria.courant;
    let velocity_divergence: Binary64 = criteria.velocity_divergence;
    let selected: Binary64 = acceleration.min(courant).min(velocity_divergence);
    if let Err(error) = check_state(
        at,
        "acceleration_timestep",
        acceleration,
        is_criterion(acceleration),
    ) {
        return Err(error);
    }
    if let Err(error) = check_state(at, "courant_timestep", courant, is_criterion(courant)) {
        return Err(error);
    }
    if let Err(error) = check_state(
        at,
        "velocity_divergence_timestep",
        velocity_divergence,
        is_criterion(velocity_divergence),
    ) {
        return Err(error);
    }
    if let Err(error) = check_state(at, "public_hydro_timestep", selected, selected.is_positive()) {
        return Err(error);
    }
    Ok(PublicHydroTimestepBounds2d { acceleration, courant, velocity_divergence, selected })
}

/// The timestep bounds of every particle from its criteria.
pub fn public_hydro_particle_timestep_bounds_from_primitive_2d(
    criteria: &[TimestepCriteria2d],
) -> (result: Result<Vec<PublicHydroTimestepBounds2d>, HydroEvolution2dError>)
    ensures
        match first_fault(criteria_faults(criteria@), criteria@.len() as int) {
            None => result matches Ok(bounds) && bounds@ == Seq::new(
                criteria@.len(),
                |i: int| criteria@[i].bounds(),
            ),
            Some(error) => result matches Err(reported) && reported == error,
        },
        result matches Ok(bounds) ==> bounds@.len() == criteria@.len(),
{
    let ghost faults = criteria_faults(criteria@);
    let mut bounds: Vec<PublicHydroTimestepBounds2d> = Vec::with_capacity(criteria.len());
    let mut index: usize = 0;
    while index < criteria.len()
        invariant
            index <= criteria@.len(),
            faults == criteria_faults(criteria@),
            first_fault(faults, index as int) is None,
            bounds@ == Seq::new(index as nat, |i: int| criteria@[i].bounds()),
        decreases criteria@.len() - index,
    {
        match select_particle_bound(index, criteria[index]) {
            Ok(bound) => {
                assert(faults(index as int) is None);
                bounds.push(bound);
            },
            Err(error) => {
                assert(faults(index as int) == Some(error));
                proof {
                    lemma_first_fault_stays(faults, index + 1, criteria@.len() as int);
                }
                return Err(error);
            },
        }
        index = index + 1;
    }
    Ok(bounds)
}

/// The selected bound is the shortest of the three criteria, and is one of them.
pub proof fn law_selected_bound_is_the_shortest(criteria: TimestepCriteria2d, index: usize)
    requires
        criteria.fault(index) is None,
    ensures
        criteria.shortest().le(criteria.acceleration),
        criteria.shortest().le(criteria.courant),
        criteria.shortest().le(criteria.velocity_divergence),
        criteria.shortest() == criteria.acceleration || criteria.shortest() == criteria.courant
            || criteria.shortest() == criteria.velocity_divergence,
{
}

/// The quantized first step of a particle.
#[derive(Clone, Copy, Debug, PartialEq, Eq, Structural)]
pub struct PublicHydroInitialTimebin2d {
    pub bounded_timestep: Binary64,
    pub raw_ticks: u64,
    pub ticks: u64,
    pub time_bin: u32,
    /// The physical duration of the ticks.
    pub duration: Binary64,
}

/// The fault of the span of the timeline and the largest timestep.
pub open spec fn initial_timeline_fault(
    time_begin: Binary64,
    time_max: Binary64,
    maximum_timestep: Binary64,
) -> Option<HydroEvolution2dError> {
    state_fault(
        None,
        "public_hydro_timeline",
        time_max,
        valid_span(time_begin, time_max) && maximum_timestep.positive(),
    )
}

fn validate_initial_timeline(
    time_begin: Binary64,
    time_max: Binary64,
    maximum_timestep: Binary64,
) -> (result: Result<(), HydroEvolution2dError>)
    ensures
        result == outcome(initial_timeline_fault(time_begin, time_max, maximum_timestep)),
{
    let valid: bool = time_begin.is_finite() && time_max.is_finite() && time_begin.less(time_max)
        && maximum_timestep.is_positive();
    check_state(None, "public_hydro_timeline", time_max, valid)
}

/// A quantized step before its physical duration is known.
#[derive(Clone, Copy, Debug, PartialEq, Eq, Structural)]
pub struct QuantizedStep {
    pub bounded_timestep: Binary64,
    pub raw_ticks: u64,
    pub ticks: u64,
    pub time_bin: u32,
}

/// The whole ticks of a timestep: at least two.
pub open spec fn raw_ticks_of(bounded_timestep: Binary64, requested: Binary64) -> int {
    (TickRequest { bound: bounded_timestep, ticks: requested }).integer()
}

/// The fault of one request: the bound itself, then its ticks, which must lie on the
/// timeline.
pub open spec fn quantization_fault(
    index: usize,
    selected: Binary64,
    maximum: Binary64,
    requested: Binary64,
) -> Option<HydroEvolution2dError> {
    first(
        state_fault(Some(index), "public_hydro_timestep", selected, selected.positive()),
        state_fault(
            Some(index),
            "public_hydro_timestep_ticks",
            requested,
            requested.nonnegative() && raw_ticks_of(selected.lesser(maximum), requested)
                < LEGACY_TIMEBASE_TICKS,
        ),
    )
}

/// Whether a step is the quantized request of a particle: its whole ticks rounded down to a
/// power of two.
pub open spec fn quantized(
    step: QuantizedStep,
    selected: Binary64,
    maximum: Binary64,
    requested: Binary64,
) -> bool {
    &&& step.bounded_timestep == selected.lesser(maximum)
    &&& step.raw_ticks == raw_ticks_of(step.bounded_timestep, requested)
    &&& step.time_bin < 64
    &&& step.ticks == pow2(step.time_bin as nat)
    &&& is_largest_bin(0, step.raw_ticks as int, step.time_bin as nat)
}

/// The faults of a list of requests.
pub open spec fn quantization_faults(
    selected: Seq<Binary64>,
    maximum: Binary64,
    requested: Seq<Binary64>,
) -> spec_fn(int) -> Option<HydroEvolution2dError> {
    |i: int| quantization_fault(i as usize, selected[i], maximum, requested[i])
}

fn quantize_initial_timebin(
    index: usize,
    selected: Binary64,
    maximum: Binary64,
    requested: Binary64,
) -> (result: Result<QuantizedStep, HydroEvolution2dError>)
    ensures
        match result {
            Ok(step) => quantization_fault(index, selected, maximum, requested) is None
                && quantized(step, selected, maximum, requested),
            Err(error) => quantization_fault(index, selected, maximum, requested) == Some(error),
        },
{
    if let Err(error) = check_state(
        Some(index),
        "public_hydro_timestep",
        selected,
        selected.is_positive(),
    ) {
        return Err(error);
    }
    let bounded_timestep: Binary64 = selected.min(maximum);
    let whole: u64 = requested.to_u64();
    let raw_ticks: u64 = if whole < 2 {
        2
    } else {
        whole
    };
    if !requested.is_nonnegative() || raw_ticks >= LEGACY_TIMEBASE_TICKS {
        return Err(
            HydroEvolution2dError::InvalidState {
                index: Some(index),
                field: "public_hydro_timestep_ticks",
                value: requested,
            },
        );
    }
    let step: (u64, u8) = synchronized_floor(0, raw_ticks);
    Ok(QuantizedStep { bounded_timestep, raw_ticks, ticks: step.0, time_bin: step.1 as u32 })
}

/// Quantize the selected bounds of all particles on the power-of-two timeline. `requested`
/// holds, for every particle, its bounded timestep in ticks, truncated.
pub fn quantize_public_hydro_initial_timebins_2d(
    selected: &[Binary64],
    requested: &[Binary64],
    time_begin: Binary64,
    time_max: Binary64,
    maximum_timestep: Binary64,
) -> (result: Result<Vec<QuantizedStep>, HydroEvolution2dError>)
    requires
        requested@.len() == selected@.len(),
    ensures
        match first(
            initial_timeline_fault(time_begin, time_max, maximum_timestep),
            first_fault(
                quantization_faults(selected@, maximum_timestep, requested@),
                selected@.len() as int,
            ),
        ) {
            None => result matches Ok(steps) && steps@.len() == selected@.len() && forall|i: int|
                0 <= i < steps@.len() ==> quantized(
                    #[trigger] steps@[i],
                    selected@[i],
                    maximum_timestep,
                    requested@[i],
                ),
            Some(error) => result matches Err(reported) && reported == error,
        },
{
    if let Err(error) = validate_initial_timeline(time_begin, time_max, maximum_timestep) {
        return Err(error);
    }
    let ghost faults = quantization_faults(selected@, maximum_timestep, requested@);
    let mut steps: Vec<QuantizedStep> = Vec::with_capacity(selected.len());
    let mut index: usize = 0;
    while index < selected.len()
        invariant
            index <= selected@.len(),
            requested@.len() == selected@.len(),
            initial_timeline_fault(time_begin, time_max, maximum_timestep) is None,
            faults == quantization_faults(selected@, maximum_timestep, requested@),
            first_fault(faults, index as int) is None,
            steps@.len() == index,
            forall|i: int|
                0 <= i < index ==> quantized(
                    #[trigger] steps@[i],
                    selected@[i],
                    maximum_timestep,
                    requested@[i],
                ),
        decreases selected@.len() - index,
    {
        match quantize_initial_timebin(
            index,
            selected[index],
            maximum_timestep,
            requested[index],
        ) {
            Ok(step) => {
                assert(faults(index as int) is None);
                steps.push(step);
            },
            Err(error) => {
                assert(faults(index as int) == Some(error));
                proof {
                    lemma_first_fault_stays(faults, index + 1, selected@.len() as int);
                }
                return Err(error);
            },
        }
        index = index + 1;
    }
    Ok(steps)
}

/// Whether a timebin agrees with the timeline: its ticks are the power of two of its bin and
/// the floor of its raw ticks, which stem from its timestep, and its duration is theirs.
pub open spec fn timebin_consistent(
    bin: PublicHydroInitialTimebin2d,
    requested: Binary64,
    duration: Binary64,
) -> bool {
    &&& bin.time_bin < 64
    &&& bin.ticks == pow2(bin.time_bin as nat)
    &&& bin.bounded_timestep.positive()
    &&& requested.nonnegative()
    &&& bin.raw_ticks == raw_ticks_of(bin.bounded_timestep, requested)
    &&& bin.ticks <= bin.raw_ticks < 2 * bin.ticks
    &&& bin.duration.same(duration)
}

/// Check a timebin of a power-of-two step. `requested` is its timestep in ticks, truncated,
/// and `duration` what its ticks come to.
pub fn validate_initial_timebin(
    index: usize,
    bin: PublicHydroInitialTimebin2d,
    requested: Binary64,
    duration: Binary64,
) -> (result: Result<(), HydroEvolution2dError>)
    requires
        exists|step: nat| step < 60 && bin.ticks == #[trigger] pow2(step),
    ensures
        result == outcome(
            state_fault(
                Some(index),
                "initial_timebin",
                bin.duration,
                timebin_consistent(bin, requested, duration),
            ),
        ),
{
    let whole: u64 = requested.to_u64();
    let expected_raw: u64 = if !requested.is_nonnegative() {
        0
    } else if whole < 2 {
        2
    } else {
        whole
    };
    let step: u8 = crate::ticks::bin_for_step(bin.ticks);
    proof {
        let exponent = choose|exponent: nat| exponent < 60 && bin.ticks == #[trigger] pow2(exponent);
        assert(step == exponent);
        crate::ticks::lemma_timebase_synchronized(exponent);
        if bin.time_bin < 64 && bin.ticks == pow2(bin.time_bin as nat) {
            assert(step == bin.time_bin);
        }
    }
    let valid: bool = bin.time_bin == step as u32 && bin.bounded_timestep.is_positive()
        && requested.is_nonnegative() && bin.raw_ticks == expected_raw && bin.raw_ticks >= bin.ticks
        && bin.raw_ticks < 2 * bin.ticks && bin.duration.equals(duration);
    check_state(Some(index), "initial_timebin", bin.duration, valid)
}

/// A quantized step is consistent with the timeline that it was quantized on.
pub proof fn law_quantized_steps_are_consistent(
    step: QuantizedStep,
    index: usize,
    selected: Binary64,
    maximum: Binary64,
    requested: Binary64,
    duration: Binary64,
)
    requires
        maximum.positive(),
        quantization_fault(index, selected, maximum, requested) is None,
        quantized(step, selected, maximum, requested),
        !duration.nan(),
    ensures
        timebin_consistent(
            PublicHydroInitialTimebin2d {
                bounded_timestep: step.bounded_timestep,
                raw_ticks: step.raw_ticks,
                ticks: step.ticks,
                time_bin: step.time_bin,
                duration,
            },
            requested,
            duration,
        ),
{
    let larger = (step.time_bin + 1) as nat;
    vstd::arithmetic::power2::lemma_pow2_unfold(larger);
    vstd::arithmetic::power2::lemma_pow2_pos(larger);
    vstd::arithmetic::div_mod::lemma_small_mod(0, pow2(larger));
    if pow2(larger) <= step.raw_ticks {
        assert(crate::ticks::bin_synchronized(0, larger));
    }
}

/// An updated energy of the planar evolution: at least half the previous one, and at least
/// the floor.
pub open spec fn limited_energy_2d(
    candidate: Binary64,
    half_previous: Binary64,
    floor: Binary64,
) -> Binary64 {
    candidate.greater(half_previous).greater(floor)
}

/// Limit an updated energy, which must come out positive. A kick of negative duration is
/// admitted where a previous one is taken back.
pub fn limited_internal_energy_update_signed_public_2d(
    candidate: Binary64,
    half_previous: Binary64,
    floor: Binary64,
) -> (result: Result<Binary64, HydroEvolution2dError>)
    ensures
        match result {
            Ok(value) => value == limited_energy_2d(candidate, half_previous, floor)
                && value.positive(),
            Err(error) => {
                &&& !limited_energy_2d(candidate, half_previous, floor).positive()
                &&& error == (HydroEvolution2dError::InvalidState {
                    index: None,
                    field: "specific_internal_energy",
                    value: limited_energy_2d(candidate, half_previous, floor),
                })
            },
        },
        result matches Ok(value) ==> (Binary64 { bits: 0 }).lt(value) && (!candidate.nan()
            ==> candidate.le(value)) && (!half_previous.nan() ==> half_previous.le(value)) && (
        !floor.nan() ==> floor.le(value)),
{
    let value: Binary64 = candidate.max(half_previous).max(floor);
    if !value.is_positive() {
        return Err(
            HydroEvolution2dError::InvalidState {
                index: None,
                field: "specific_internal_energy",
                value,
            },
        );
    }
    Ok(value)
}

/// Limit an updated energy after a kick whose duration must not be negative.
pub fn limited_internal_energy_update_2d(
    duration: Binary64,
    candidate: Binary64,
    half_previous: Binary64,
    floor: Binary64,
) -> (result: Result<Binary64, HydroEvolution2dError>)
    ensures
        match result {
            Ok(value) => duration.nonnegative() && value == limited_energy_2d(
                candidate,
                half_previous,
                floor,
            ) && value.positive(),
            Err(error) => if !duration.nonnegative() {
                error == (HydroEvolution2dError::InvalidState {
                    index: None,
                    field: "internal_energy_kick_duration",
                    value: duration,
                })
            } else {
                &&& !limited_energy_2d(candidate, half_previous, floor).positive()
                &&& error == (HydroEvolution2dError::InvalidState {
                    index: None,
                    field: "specific_internal_energy",
                    value: limited_energy_2d(candidate, half_previous, floor),
                })
            },
        },
        result matches Ok(value) ==> (Binary64 { bits: 0 }).lt(value) && (!candidate.nan()
            ==> candidate.le(value)) && (!half_previous.nan() ==> half_previous.le(value)) && (
        !floor.nan() ==> floor.le(value)) && duration.nonnegative(),
{
    if !duration.is_nonnegative() {
        return Err(
            HydroEvolution2dError::InvalidState {
                index: None,
                field: "internal_energy_kick_duration",
                value: duration,
            },
        );
    }
    limited_internal_energy_update_signed_public_2d(candidate, half_previous, floor)
}

/// The rates of one particle.
#[derive(Clone, Copy, Debug, PartialEq, Eq, Structural)]
pub struct ParticleRate2d {
    pub momentum: Vector3,
    pub total_energy: Binary64,
    pub acceleration: Vector3,
    pub specific_internal_energy: Binary64,
    pub maximum_signal_speed: Binary64,
    pub velocity_divergence: Binary64,
}

/// Whether two rates agree: vectors in value, scalars bit by bit.
pub open spec fn same_rate(left: ParticleRate2d, right: ParticleRate2d) -> bool {
    &&& left.momentum.same(right.momentum)
    &&& left.total_energy == right.total_energy
    &&& left.acceleration.same(right.acceleration)
    &&& left.specific_internal_energy == right.specific_internal_energy
    &&& left.maximum_signal_speed == right.maximum_signal_speed
    &&& left.velocity_divergence == right.velocity_divergence
}

/// Whether two rates agree.
pub fn same_particle_rate(left: ParticleRate2d, right: ParticleRate2d) -> (result: bool)
    ensures
        result == same_rate(left, right),
{
    left.momentum.equals(right.momentum) && left.total_energy.bits == right.total_energy.bits
        && left.acceleration.equals(right.acceleration) && left.specific_internal_energy.bits
        == right.specific_internal_energy.bits && left.maximum_signal_speed.bits
        == right.maximum_signal_speed.bits && left.velocity_divergence.bits
        == right.velocity_divergence.bits
}

/// Whether a contact asks to wake an inactive neighbor: its signal is above `threshold`, a
/// multiple of what the neighbor last saw.
pub fn asks_for_wakeup(neighbor_active: bool, signal: Binary64, threshold: Binary64) -> (result: bool)
    ensures
        result == (!neighbor_active && threshold.lt(signal)),
        neighbor_active || signal.le(threshold) ==> !result,
        !neighbor_active && threshold.lt(signal) ==> result,
{
    !neighbor_active && threshold.less(signal)
}

/// Whether the minimum over Courant candidates exists: the smallest of the usable
/// candidates, or the first that cannot be used.
pub open spec fn shortest_courant(candidates: Seq<Binary64>, count: int) -> Result<
    Binary64,
    HydroEvolution2dError,
>
    decreases count,
{
    if count <= 0 {
        Ok(Binary64 { bits: INFINITY_BITS })
    } else {
        match shortest_courant(candidates, count - 1) {
            Err(error) => Err(error),
            Ok(timestep) => if candidates[count - 1].positive() {
                Ok(timestep.lesser(candidates[count - 1]))
            } else {
                Err(
                    HydroEvolution2dError::InvalidState {
                        index: Some((count - 1) as usize),
                        field: "courant_timestep",
                        value: candidates[count - 1],
                    },
                )
            },
        }
    }
}

proof fn lemma_courant_fault_stays(candidates: Seq<Binary64>, count: int, longer: int)
    requires
        count <= longer,
        shortest_courant(candidates, count) is Err,
    ensures
        shortest_courant(candidates, longer) == shortest_courant(candidates, count),
    decreases longer - count,
{
    if count < longer {
        lemma_courant_fault_stays(candidates, count, longer - 1);
    }
}

/// The global Courant timestep: the shortest candidate, which must exist.
pub fn global_hydro_courant_timestep_2d(candidates: &[Binary64]) -> (result: Result<
    Binary64,
    HydroEvolution2dError,
>)
    ensures
        result == match shortest_courant(candidates@, candidates@.len() as int) {
            Err(error) => Err(error),
            Ok(timestep) => if timestep.finite() {
                Ok::<Binary64, HydroEvolution2dError>(timestep)
            } else {
                Err(
                    HydroEvolution2dError::InvalidState {
                        index: None,
                        field: "courant_timestep",
                        value: timestep,
                    },
                )
            },
        },
        result matches Ok(timestep) ==> {
            &&& forall|i: int| 0 <= i < candidates@.len() ==> timestep.le(#[trigger] candidates@[i])
            &&& exists|i: int| 0 <= i < candidates@.len() && #[trigger] candidates@[i] == timestep
        },
        result is Ok <==> candidates@.len() > 0 && forall|i: int|
            0 <= i < candidates@.len() ==> (#[trigger] candidates@[i]).positive(),
{
    let mut timestep: Binary64 = Binary64 { bits: INFINITY_BITS };
    let mut index: usize = 0;
    while index < candidates.len()
        invariant
            index <= candidates@.len(),
            shortest_courant(candidates@, index as int) == Ok::<Binary64, HydroEvolution2dError>(
                timestep,
            ),
        decreases candidates@.len() - index,
    {
        let candidate: Binary64 = candidates[index];
        if !candidate.is_positive() {
            proof {
                lemma_courant_fault_stays(candidates@, index + 1, candidates@.len() as int);
            }
            assert(!candidates@[index as int].positive());
            return Err(
                HydroEvolution2dError::InvalidState {
                    index: Some(index),
                    field: "courant_timestep",
                    value: candidate,
                },
            );
        }
        timestep = timestep.min(candidate);
        index = index + 1;
    }
    proof {
        law_global_timestep_is_the_least(candidates@, candidates@.len() as int);
    }
    if !timestep.is_finite() {
        return Err(
            HydroEvolution2dError::InvalidState {
                index: None,
                field: "courant_timestep",
                value: timestep,
            },
        );
    }
    Ok(timestep)
}

/// The fault of a Courant factor: it must lie above zero and not above one half.
pub open spec fn courant_factor_fault(factor: Binary64) -> Option<HydroEvolution2dError> {
    state_fault(
        None,
        "courant_factor",
        factor,
        factor.positive() && factor.rank() <= HALF_BITS,
    )
}

fn validate_courant_factor(factor: Binary64) -> (result: Result<(), HydroEvolution2dError>)
    ensures
        result == outcome(courant_factor_fault(factor)),
{
    let half: Binary64 = Binary64 { bits: HALF_BITS };
    check_state(None, "courant_factor", factor, factor.is_positive() && factor.at_most(half))
}

/// The fault of a state together with its rates.
pub open spec fn evolving_fault(state: HydroMfmState2d, rates: RateLengths2d) -> Option<
    HydroEvolution2dError,
> {
    first(
        state.fault(),
        first_fault(
            length_faults(state.positions@.len() as usize, rates.columns()),
            6,
        ),
    )
}

/// Check a state together with its rates.
pub fn validate_evolving(state: &HydroMfmState2d, rates: RateLengths2d) -> (result: Result<
    (),
    HydroEvolution2dError,
>)
    ensures
        result == outcome(evolving_fault(*state, rates)),
{
    if let Err(error) = state.validate() {
        return Err(error);
    }
    validate_rate_lengths(rates, state.positions.len())
}

/// Check the inputs of the global Courant bound: state, rates, then the factor.
pub fn validate_courant_inputs(
    state: &HydroMfmState2d,
    rates: RateLengths2d,
    courant_factor: Binary64,
) -> (result: Result<(), HydroEvolution2dError>)
    ensures
        result == outcome(
            first(evolving_fault(*state, rates), courant_factor_fault(courant_factor)),
        ),
        result is Ok <==> evolving_fault(*state, rates) is None && (Binary64 { bits: 0 }).lt(
            courant_factor,
        ) && courant_factor.le(Binary64 { bits: HALF_BITS }),
{
    if let Err(error) = validate_evolving(state, rates) {
        return Err(error);
    }
    validate_courant_factor(courant_factor)
}

/// The lengths of the primitive columns of a state.
#[derive(Clone, Copy, Debug, PartialEq, Eq, Structural)]
pub struct PrimitiveLengths2d {
    pub density: usize,
    pub dhsml_factor: usize,
    pub pressure: usize,
}

impl PrimitiveLengths2d {
    /// The columns with their lengths.
    pub open spec fn columns(self) -> Seq<(&'static str, usize)> {
        seq![
            ("primitive_density", self.density),
            ("primitive_dhsml_factor", self.dhsml_factor),
            ("primitive_pressure", self.pressure),
        ]
    }
}

/// Check the inputs of the particle bounds: state, rates, primitive columns, the Courant
/// factor, then the integration accuracy.
pub fn validate_particle_bound_inputs(
    state: &HydroMfmState2d,
    rates: RateLengths2d,
    primitive: PrimitiveLengths2d,
    courant_factor: Binary64,
    integration_accuracy: Binary64,
) -> (result: Result<(), HydroEvolution2dError>)
    ensures
        result == outcome(
            first(
                evolving_fault(*state, rates),
                first(
                    first_fault(
                        length_faults(state.positions@.len() as usize, primitive.columns()),
                        3,
                    ),
                    first(
                        courant_factor_fault(courant_factor),
                        state_fault(
                            None,
                            "integration_accuracy",
                            integration_accuracy,
                            integration_accuracy.positive(),
                        ),
                    ),
                ),
            ),
        ),
{
    if let Err(error) = validate_evolving(state, rates) {
        return Err(error);
    }
    let fields: [(&'static str, usize); 3] = [
        ("primitive_density", primitive.density),
        ("primitive_dhsml_factor", primitive.dhsml_factor),
        ("primitive_pressure", primitive.pressure),
    ];
    assert(fields@ =~= primitive.columns());
    if let Err(error) = validate_lengths(state.positions.len(), &fields) {
        return Err(error);
    }
    if let Err(error) = validate_courant_factor(courant_factor) {
        return Err(error);
    }
    check_state(
        None,
        "integration_accuracy",
        integration_accuracy,
        integration_accuracy.is_positive(),
    )
}

/// Whether the velocity divergence of a particle limits its timestep at all.
pub fn divergence_limits(velocity_divergence: Binary64) -> (result: bool)
    ensures
        result == !velocity_divergence.same(Binary64 { bits: 0 }),
        velocity_divergence.rank() == 0 && !velocity_divergence.nan() ==> !result,
        velocity_divergence.rank() != 0 ==> result,
{
    let zero: Binary64 = Binary64 { bits: 0 };
    !velocity_divergence.equals(zero)
}

/// The fault of a floor of the internal energy.
pub open spec fn floor_fault(minimum_specific_internal_energy: Binary64) -> Option<
    HydroEvolution2dError,
> {
    state_fault(
        None,
        "minimum_specific_internal_energy",
        minimum_specific_internal_energy,
        minimum_specific_internal_energy.nonnegative(),
    )
}

/// Check the inputs of a synchronized step: state, rates, timestep, then the energy floor.
pub fn validate_kdk_inputs(
    state: &HydroMfmState2d,
    rates: RateLengths2d,
    timestep: Binary64,
    minimum_specific_internal_energy: Binary64,
) -> (result: Result<(), HydroEvolution2dError>)
    ensures
        result == outcome(
            first(
                evolving_fault(*state, rates),
                first(
                    state_fault(None, "timestep", timestep, timestep.positive()),
                    floor_fault(minimum_specific_internal_energy),
                ),
            ),
        ),
        result is Ok <==> evolving_fault(*state, rates) is None && (Binary64 { bits: 0 }).lt(timestep)
            && timestep.finite() && (Binary64 { bits: 0 }).le(minimum_specific_internal_energy)
            && minimum_specific_internal_energy.finite(),
{
    if let Err(error) = validate_evolving(state, rates) {
        return Err(error);
    }
    if let Err(error) = check_state(None, "timestep", timestep, timestep.is_positive()) {
        return Err(error);
    }
    check_state(
        None,
        "minimum_specific_internal_energy",
        minimum_specific_internal_energy,
        minimum_specific_internal_energy.is_nonnegative(),
    )
}

/// The faults of a column of pressures.
pub open spec fn pressure_faults(pressures: Seq<Binary64>) -> spec_fn(int) -> Option<
    HydroEvolution2dError,
> {
    |i: int| state_fault(Some(i as usize), "pressure", pressures[i], pressures[i].positive())
}

/// Check recomputed pressures, particle by particle.
pub fn validate_pressures(pressures: &[Binary64]) -> (result: Result<(), HydroEvolution2dError>)
    ensures
        result == outcome(
            first_fault(pressure_faults(pressures@), pressures@.len() as int),
        ),
{
    let ghost faults = pressure_faults(pressures@);
    let mut index: usize = 0;
    while index < pressures.len()
        invariant
            index <= pressures@.len(),
            faults == pressure_faults(pressures@),
            first_fault(faults, index as int) is None,
        decreases pressures@.len() - index,
    {
        let pressure: Binary64 = pressures[index];
        if let Err(error) = check_state(
            Some(index),
            "pressure",
            pressure,
            pressure.is_positive(),
        ) {
            assert(faults(index as int) is Some);
            proof {
                lemma_first_fault_stays(faults, index + 1, pressures@.len() as int);
            }
            return Err(error);
        }
        assert(faults(index as int) is None);
        index = index + 1;
    }
    Ok(())
}

/// Check the particle-wise rates that follow from the accumulated conserved rates.
pub fn validate_primitive_rate(index: usize, acceleration: Vector3, internal_rate: Binary64) -> (result:
    Result<(), HydroEvolution2dError>)
    ensures
        result == outcome(
            state_fault(
                Some(index),
                "primitive_rate",
                Binary64 { bits: NAN_BITS },
                acceleration.finite() && internal_rate.finite(),
            ),
        ),
        result is Ok <==> acceleration.finite() && internal_rate.finite(),
{
    check_state(
        Some(index),
        "primitive_rate",
        Binary64 { bits: NAN_BITS },
        acceleration.is_finite() && internal_rate.is_finite(),
    )
}

/// Check a face flux.
pub fn validate_face_flux(mass: Binary64, momentum: Vector3, total_energy: Binary64) -> (result:
    Result<(), HydroEvolution2dError>)
    ensures
        result == outcome(
            state_fault(
                None,
                "face_flux",
                Binary64 { bits: NAN_BITS },
                momentum.finite() && total_energy.finite() && mass.finite(),
            ),
        ),
        result is Ok <==> mass.finite() && momentum.finite() && total_energy.finite(),
{
    check_state(
        None,
        "face_flux",
        Binary64 { bits: NAN_BITS },
        momentum.is_finite() && total_energy.is_finite() && mass.is_finite(),
    )
}

/// Check the intermediate values and the momentum of a central flux.
pub fn validate_central_flux(values: &[Binary64], momentum: Vector3) -> (result: Result<
    (),
    HydroEvolution2dError,
>)
    ensures
        result == outcome(
            state_fault(
                None,
                "kt_flux",
                Binary64 { bits: NAN_BITS },
                (forall|i: int| 0 <= i < values@.len() ==> (#[trigger] values@[i]).finite())
                    && momentum.finite(),
            ),
        ),
{
    check_state(
        None,
        "kt_flux",
        Binary64 { bits: NAN_BITS },
        are_finite(values) && momentum.is_finite(),
    )
}

/// Check the method of a scalar flux that is turned into a vector: a central flux has no
/// vector form.
pub fn validate_forced_method(method: RiemannMethod) -> (result: Result<(), HydroEvolution2dError>)
    ensures
        result == outcome(
            state_fault(
                None,
                "forced_exact_method",
                Binary64 { bits: NAN_BITS },
                method != RiemannMethod::KurganovTadmor,
            ),
        ),
        result is Err <==> method == RiemannMethod::KurganovTadmor,
{
    check_state(
        None,
        "forced_exact_method",
        Binary64 { bits: NAN_BITS },
        is_forced_method(method),
    )
}

/// Check the pressure limit of a planar pair.
pub fn validate_pair_pressure_limit(pressure_limit: Binary64) -> (result: Result<
    (),
    HydroEvolution2dError,
>)
    ensures
        result == outcome(
            state_fault(
                None,
                "pair_pressure_limit",
                pressure_limit,
                pressure_limit.positive(),
            ),
        ),
        result is Ok <==> (Binary64 { bits: 0 }).lt(pressure_limit) && pressure_limit.finite(),
{
    check_state(None, "pair_pressure_limit", pressure_limit, pressure_limit.is_positive())
}

/// Whether a pair keeps its raw energy without further tests: a fast contact between faces
/// that close.
pub fn keeps_raw_energy(speed_ratio: Binary64, closure_leak: Binary64) -> (result: bool)
    ensures
        result == crate::entropic::keeps_raw_energy(speed_ratio, closure_leak),
        speed_ratio.lt(Binary64 { bits: HALF_BITS }) || (Binary64 { bits: ONE_BITS }).lt(closure_leak)
            ==> !result,
{
    let half: Binary64 = Binary64 { bits: HALF_BITS };
    let one: Binary64 = Binary64 { bits: ONE_BITS };
    half.at_most(speed_ratio) && closure_leak.at_most(one)
}

/// Check the two candidate energies of a pair.
pub fn validate_candidate_energies(index: usize, raw: Binary64, entropic: Binary64) -> (result:
    Result<(), HydroEvolution2dError>)
    ensures
        result == outcome(
            state_fault(
                Some(index),
                "entropic_pair_energy",
                Binary64 { bits: NAN_BITS },
                raw.finite() && entropic.finite(),
            ),
        ),
        result is Ok <==> raw.finite() && entropic.finite(),
{
    check_state(
        Some(index),
        "entropic_pair_energy",
        Binary64 { bits: NAN_BITS },
        raw.is_finite() && entropic.is_finite(),
    )
}

/// Check the energy that a pair exchanges.
pub fn validate_pair_energy(index: usize, energy: Binary64) -> (result: Result<
    (),
    HydroEvolution2dError,
>)
    ensures
        result == outcome(
            state_fault(Some(index), "entropic_pair_energy", energy, energy.finite()),
        ),
        result is Ok <==> energy.finite(),
{
    check_state(Some(index), "entropic_pair_energy", energy, energy.is_finite())
}

/// The faults of the energies recovered from conserved quantities: each must be finite and
/// not below the floor.
pub open spec fn recovery_faults(energies: Seq<Binary64>, minimum: Binary64) -> spec_fn(
    int,
) -> Option<HydroEvolution2dError> {
    |i: int|
        state_fault(
            Some(i as usize),
            "recovered_internal_energy",
            energies[i],
            energies[i].finite() && !energies[i].lt(minimum),
        )
}

/// Check the columns of a conserved state against the masses.
pub fn validate_conserved_lengths(masses: usize, momentum: usize, total_energy: usize) -> (result:
    Result<(), HydroEvolution2dError>)
    ensures
        result == if momentum == masses && total_energy == masses {
            Ok::<(), HydroEvolution2dError>(())
        } else {
            Err(
                HydroEvolution2dError::MismatchedLength {
                    field: "conserved_state",
                    expected: masses,
                    actual: if momentum <= total_energy {
                        momentum
                    } else {
                        total_energy
                    },
                },
            )
        },
        result is Ok <==> momentum == masses && total_energy == masses,
        result matches Err(HydroEvolution2dError::MismatchedLength { field, expected, actual })
            ==> expected == masses && actual <= momentum && actual <= total_energy,
{
    if momentum != masses || total_energy != masses {
        let actual: usize = if momentum <= total_energy {
            momentum
        } else {
            total_energy
        };
        return Err(
            HydroEvolution2dError::MismatchedLength {
                field: "conserved_state",
                expected: masses,
                actual,
            },
        );
    }
    Ok(())
}

/// Check the energies recovered from a conserved state.
pub fn validate_recovered_energies(energies: &[Binary64], minimum: Binary64) -> (result: Result<
    (),
    HydroEvolution2dError,
>)
    ensures
        result == outcome(
            first_fault(recovery_faults(energies@, minimum), energies@.len() as int),
        ),
{
    let ghost faults = recovery_faults(energies@, minimum);
    let mut index: usize = 0;
    while index < energies.len()
        invariant
            index <= energies@.len(),
            faults == recovery_faults(energies@, minimum),
            first_fault(faults, index as int) is None,
        decreases energies@.len() - index,
    {
        let energy: Binary64 = energies[index];
        if let Err(error) = check_state(
            Some(index),
            "recovered_internal_energy",
            energy,
            energy.is_finite() && !energy.less(minimum),
        ) {
            assert(faults(index as int) is Some);
            proof {
                lemma_first_fault_stays(faults, index + 1, energies@.len() as int);
            }
            return Err(error);
        }
        assert(faults(index as int) is None);
        index = index + 1;
    }
    Ok(())
}

/// The global timestep of usable candidates is the least of them; without candidates nothing
/// limits it; the first unusable candidate is reported.
pub proof fn law_global_timestep_is_the_least(candidates: Seq<Binary64>, count: int)
    requires
        0 <= count <= candidates.len(),
    ensures
        (forall|i: int| 0 <= i < count ==> (#[trigger] candidates[i]).positive()) <==> (
        shortest_courant(candidates, count) is Ok),
        count == 0 ==> shortest_courant(candidates, count) == Ok::<Binary64, HydroEvolution2dError>(
            Binary64 { bits: INFINITY_BITS },
        ),
        shortest_courant(candidates, count) matches Ok(timestep) ==> {
            &&& forall|i: int| 0 <= i < count ==> timestep.le(#[trigger] candidates[i])
            &&& count > 0 ==> exists|i: int| 0 <= i < count && #[trigger] candidates[i] == timestep
        },
        shortest_courant(candidates, count) matches Err(error) ==> exists|i: int|
            0 <= i < count && !(#[trigger] candidates[i]).positive() && error == (
            HydroEvolution2dError::InvalidState {
                index: Some(i as usize),
                field: "courant_timestep",
                value: candidates[i],
            }) && forall|k: int| 0 <= k < i ==> (#[trigger] candidates[k]).positive(),
    decreases count,
{
    if count > 0 {
        law_global_timestep_is_the_least(candidates, count - 1);
        let last = candidates[count - 1];
        if shortest_courant(candidates, count - 1) is Ok {
            if last.positive() {
                let before = shortest_courant(candidates, count - 1)->Ok_0;
                let timestep = before.lesser(last);
                assert(!before.nan()) by {
                    if count > 1 {
                        assert(before.le(candidates[0]));
                    }
                }
                assert(last == candidates[count - 1]);
                if count == 1 {
                    assert(candidates[0] == timestep);
                }
                assert forall|i: int| 0 <= i < count implies timestep.le(
                    #[trigger] candidates[i],
                ) by {
                    if i < count - 1 {
                        assert(before.le(candidates[i]));
                    }
                }
            } else {
                assert(!candidates[count - 1].positive());
            }
        } else {
            let i = choose|i: int|
                0 <= i < count - 1 && !(#[trigger] candidates[i]).positive()
                    && shortest_courant(candidates, count - 1) == Err::<Binary64, HydroEvolution2dError>(
                    HydroEvolution2dError::InvalidState {
                        index: Some(i as usize),
                        field: "courant_timestep",
                        value: candidates[i],
                    },
                ) && forall|k: int| 0 <= k < i ==> (#[trigger] candidates[k]).positive();
            assert(!candidates[i].positive());
        }
    }
}


/// Recovered energies are accepted exactly where all of them are finite and none is below the
/// minimum.
pub proof fn law_recovered_energies(energies: Seq<Binary64>, minimum: Binary64)
    requires
        !minimum.nan(),
    ensures
        first_fault(recovery_faults(energies, minimum), energies.len() as int) is None <==> forall|
            i: int,
        |
            0 <= i < energies.len() ==> (#[trigger] energies[i]).finite() && minimum.le(
                energies[i],
            ),
{
    let faults = recovery_faults(energies, minimum);
    law_first_fault_is_the_earliest(faults, energies.len() as int);
    if first_fault(faults, energies.len() as int) is None {
        assert forall|i: int| 0 <= i < energies.len() implies (#[trigger] energies[i]).finite()
            && minimum.le(energies[i]) by {
            assert(faults(i) is None);
        }
    }
}


/// Lengths are accepted exactly where all of them are the expected one, and the first that
/// is not is reported.
pub proof fn law_lengths_agree(
    expected: usize,
    columns: Seq<(&'static str, usize)>,
)
    ensures
        first_fault(length_faults(expected, columns), columns.len() as int) is None <==> forall|
            i: int,
        |
            0 <= i < columns.len() ==> (#[trigger] columns[i]).1 == expected,
        first_fault(length_faults(expected, columns), columns.len() as int) matches Some(error)
            ==> exists|i: int|
            0 <= i < columns.len() && (#[trigger] columns[i]).1 != expected && error == (
            HydroEvolution2dError::MismatchedLength {
                field: columns[i].0,
                expected,
                actual: columns[i].1,
            }) && forall|k: int| 0 <= k < i ==> (#[trigger] columns[k]).1 == expected,
{
    let faults = length_faults(expected, columns);
    law_first_fault_is_the_earliest(faults, columns.len() as int);
    if first_fault(faults, columns.len() as int) is None {
        assert forall|i: int| 0 <= i < columns.len() implies (#[trigger] columns[i]).1
            == expected by {
            assert(faults(i) is None);
        }
    } else {
        let error = first_fault(faults, columns.len() as int)->0;
        let i = choose|i: int|
            0 <= i < columns.len() && #[trigger] faults(i) == Some(error) && forall|k: int|
                0 <= k < i ==> (#[trigger] faults(k)) is None;
        assert(columns[i].1 != expected);
        assert forall|k: int| 0 <= k < i implies (#[trigger] columns[k]).1 == expected by {
            assert(faults(k) is None);
        }
    }
}


/// A particle is refused exactly where it lies outside the domain, its velocity is not finite,
/// or mass, energy or support is not positive; the first of these is reported.
pub proof fn law_planar_particles_are_fit(
    state: HydroMfmState2d,
    i: int,
)
    ensures
        (state.particle_faults())(i) is None <==> {
            &&& wrap_fault(state.positions@[i], state.domain.sides(), None) is None
            &&& state.velocities@[i].x.finite() && state.velocities@[i].y.finite() && state.velocities@[i].z.finite()
            &&& (Binary64 { bits: 0 }).lt(state.masses@[i]) && state.masses@[i].finite()
            &&& (Binary64 { bits: 0 }).lt(state.specific_internal_energy@[i]) && state.specific_internal_energy@[i].finite()
            &&& (Binary64 { bits: 0 }).lt(state.smoothing_lengths@[i]) && state.smoothing_lengths@[i].finite()
        },
        ({
            &&& !(wrap_fault(state.positions@[i], state.domain.sides(), None) is None)
        }) ==> (state.particle_faults())(i) == Some(
            HydroEvolution2dError::InvalidState { index: Some(i as usize), field: "position", value: Binary64 { bits: NAN_BITS } },
        ),
        ({
            &&& wrap_fault(state.positions@[i], state.domain.sides(), None) is None
            &&& !(state.velocities@[i].x.finite() && state.velocities@[i].y.finite() && state.velocities@[i].z.finite())
        }) ==> (state.particle_faults())(i) == Some(
            HydroEvolution2dError::InvalidState { index: Some(i as usize), field: "velocity", value: Binary64 { bits: NAN_BITS } },
        ),
        ({
            &&& wrap_fault(state.positions@[i], state.domain.sides(), None) is None
            &&& state.velocities@[i].x.finite() && state.velocities@[i].y.finite() && state.velocities@[i].z.finite()
            &&& !((Binary64 { bits: 0 }).lt(state.masses@[i]) && state.masses@[i].finite())
        }) ==> (state.particle_faults())(i) == Some(
            HydroEvolution2dError::InvalidState { index: Some(i as usize), field: "mass", value: state.masses@[i] },
        ),
        ({
            &&& wrap_fault(state.positions@[i], state.domain.sides(), None) is None
            &&& state.velocities@[i].x.finite() && state.velocities@[i].y.finite() && state.velocities@[i].z.finite()
            &&& (Binary64 { bits: 0 }).lt(state.masses@[i]) && state.masses@[i].finite()
            &&& !((Binary64 { bits: 0 }).lt(state.specific_internal_energy@[i]) && state.specific_internal_energy@[i].finite())
        }) ==> (state.particle_faults())(i) == Some(
            HydroEvolution2dError::InvalidState { index: Some(i as usize), field: "specific_internal_energy", value: state.specific_internal_energy@[i] },
        ),
        ({
            &&& wrap_fault(state.positions@[i], state.domain.sides(), None) is None
            &&& state.velocities@[i].x.finite() && state.velocities@[i].y.finite() && state.velocities@[i].z.finite()
            &&& (Binary64 { bits: 0 }).lt(state.masses@[i]) && state.masses@[i].finite()
            &&& (Binary64 { bits: 0 }).lt(state.specific_internal_energy@[i]) && state.specific_internal_energy@[i].finite()
            &&& !((Binary64 { bits: 0 }).lt(state.smoothing_lengths@[i]) && state.smoothing_lengths@[i].finite())
        }) ==> (state.particle_faults())(i) == Some(
            HydroEvolution2dError::InvalidState { index: Some(i as usize), field: "smoothing_length", value: state.smoothing_lengths@[i] },
        ),
{
}

/// A state is fit exactly where its columns have one length, the gas can be compressed, and
/// every particle is fit.
pub proof fn law_planar_states_are_fit(state: HydroMfmState2d)
    ensures
        state.fault() is None <==> {
            &&& state.masses@.len() == state.positions@.len()
                && state.velocities@.len() == state.positions@.len()
                && state.specific_internal_energy@.len() == state.positions@.len()
                && state.smoothing_lengths@.len() == state.positions@.len()
            &&& (Binary64 { bits: ONE_BITS }).lt(state.gamma) && state.gamma.finite()
            &&& forall|i: int|
                0 <= i < state.positions@.len() ==> (#[trigger] (state.particle_faults())(i))
                    is None
        },
{
    let lengths = length_faults(state.positions@.len() as usize, state.columns());
    let particles = state.particle_faults();
    law_first_fault_is_the_earliest(lengths, 4);
    law_first_fault_is_the_earliest(particles, state.positions@.len() as int);
    assert(state.masses.len() == state.masses@.len());
    assert(state.velocities.len() == state.velocities@.len());
    assert(state.specific_internal_energy.len() == state.specific_internal_energy@.len());
    assert(state.smoothing_lengths.len() == state.smoothing_lengths@.len());
    assert(state.positions.len() == state.positions@.len());
    if first_fault(lengths, 4) is None {
        assert(lengths(0) is None);
        assert(lengths(1) is None);
        assert(lengths(2) is None);
        assert(lengths(3) is None);
    }
}

/// The columns of rates and primitive values are named after what they hold.
pub proof fn law_planar_column_names(rates: RateLengths2d, primitive: PrimitiveLengths2d)
    ensures
        rates.columns().len() == 6,
        primitive.columns().len() == 3,
        rates.columns()[0] == ("rate.momentum", rates.momentum),
        rates.columns()[1] == ("rate.total_energy", rates.total_energy),
        rates.columns()[2] == ("rate.acceleration", rates.acceleration),
        rates.columns()[3] == ("rate.specific_internal_energy", rates.specific_internal_energy),
        rates.columns()[4] == ("rate.maximum_signal_speed", rates.maximum_signal_speed),
        rates.columns()[5] == ("rate.velocity_divergence", rates.velocity_divergence),
        primitive.columns()[0] == ("primitive_density", primitive.density),
        primitive.columns()[1] == ("primitive_dhsml_factor", primitive.dhsml_factor),
        primitive.columns()[2] == ("primitive_pressure", primitive.pressure),
{
}

/// A primitive state is refused exactly where density or pressure is not positive or the
/// velocity is not finite; the first of these is reported.
pub proof fn law_planar_primitive_states(
    value: EulerPrimitive2d,
)
    ensures
        primitive_fault(value) is None <==> {
            &&& (Binary64 { bits: 0 }).lt(value.density) && value.density.finite()
            &&& value.velocity.x.finite() && value.velocity.y.finite() && value.velocity.z.finite()
            &&& (Binary64 { bits: 0 }).lt(value.pressure) && value.pressure.finite()
        },
        ({
            &&& !((Binary64 { bits: 0 }).lt(value.density) && value.density.finite())
        }) ==> primitive_fault(value) == Some(
            HydroEvolution2dError::InvalidState { index: None, field: "density", value: value.density },
        ),
        ({
            &&& (Binary64 { bits: 0 }).lt(value.density) && value.density.finite()
            &&& !(value.velocity.x.finite() && value.velocity.y.finite() && value.velocity.z.finite())
        }) ==> primitive_fault(value) == Some(
            HydroEvolution2dError::InvalidState { index: None, field: "velocity", value: Binary64 { bits: NAN_BITS } },
        ),
        ({
            &&& (Binary64 { bits: 0 }).lt(value.density) && value.density.finite()
            &&& value.velocity.x.finite() && value.velocity.y.finite() && value.velocity.z.finite()
            &&& !((Binary64 { bits: 0 }).lt(value.pressure) && value.pressure.finite())
        }) ==> primitive_fault(value) == Some(
            HydroEvolution2dError::InvalidState { index: None, field: "pressure", value: value.pressure },
        ),
{
}

/// The criteria of a particle are usable exactly where each is a positive number and the
/// shortest is finite; the first that is not so is reported.
pub proof fn law_criteria_are_usable(
    criteria: TimestepCriteria2d,
    index: usize,
)
    ensures
        criteria.fault(index) is None <==> {
            &&& !criteria.acceleration.nan() && (Binary64 { bits: 0 }).lt(criteria.acceleration)
            &&& !criteria.courant.nan() && (Binary64 { bits: 0 }).lt(criteria.courant)
            &&& !criteria.velocity_divergence.nan() && (Binary64 { bits: 0 }).lt(criteria.velocity_divergence)
            &&& criteria.acceleration.finite() || criteria.courant.finite() || criteria.velocity_divergence.finite()
        },
        ({
            &&& !(!criteria.acceleration.nan() && (Binary64 { bits: 0 }).lt(criteria.acceleration))
        }) ==> criteria.fault(index) == Some(
            HydroEvolution2dError::InvalidState { index: Some(index), field: "acceleration_timestep", value: criteria.acceleration },
        ),
        ({
            &&& !criteria.acceleration.nan() && (Binary64 { bits: 0 }).lt(criteria.acceleration)
            &&& !(!criteria.courant.nan() && (Binary64 { bits: 0 }).lt(criteria.courant))
        }) ==> criteria.fault(index) == Some(
            HydroEvolution2dError::InvalidState { index: Some(index), field: "courant_timestep", value: criteria.courant },
        ),
        ({
            &&& !criteria.acceleration.nan() && (Binary64 { bits: 0 }).lt(criteria.acceleration)
            &&& !criteria.courant.nan() && (Binary64 { bits: 0 }).lt(criteria.courant)
            &&& !(!criteria.velocity_divergence.nan() && (Binary64 { bits: 0 }).lt(criteria.velocity_divergence))
        }) ==> criteria.fault(index) == Some(
            HydroEvolution2dError::InvalidState { index: Some(index), field: "velocity_divergence_timestep", value: criteria.velocity_divergence },
        ),
        ({
            &&& !criteria.acceleration.nan() && (Binary64 { bits: 0 }).lt(criteria.acceleration)
            &&& !criteria.courant.nan() && (Binary64 { bits: 0 }).lt(criteria.courant)
            &&& !criteria.velocity_divergence.nan() && (Binary64 { bits: 0 }).lt(criteria.velocity_divergence)
            &&& !(criteria.acceleration.finite() || criteria.courant.finite() || criteria.velocity_divergence.finite())
        }) ==> criteria.fault(index) == Some(
            HydroEvolution2dError::InvalidState { index: Some(index), field: "public_hydro_timestep", value: criteria.shortest() },
        ),
{
}

/// The bounds of a particle repeat its criteria and select the shortest.
pub proof fn law_bounds_repeat_the_criteria(criteria: TimestepCriteria2d)
    ensures
        criteria.bounds().acceleration == criteria.acceleration,
        criteria.bounds().courant == criteria.courant,
        criteria.bounds().velocity_divergence == criteria.velocity_divergence,
        criteria.bounds().selected == criteria.acceleration || criteria.bounds().selected
            == criteria.courant || criteria.bounds().selected == criteria.velocity_divergence,
        !criteria.acceleration.nan() && !criteria.courant.nan()
            && !criteria.velocity_divergence.nan() ==> criteria.bounds().selected.le(
            criteria.acceleration,
        ) && criteria.bounds().selected.le(criteria.courant) && criteria.bounds().selected.le(
            criteria.velocity_divergence,
        ),
{
}

/// A limited energy is not below the candidate, half of the previous energy or the floor, and
/// is one of the three.
pub proof fn law_planar_energies_are_limited(
    candidate: Binary64,
    half_previous: Binary64,
    floor: Binary64,
)
    ensures
        limited_energy_2d(candidate, half_previous, floor) == candidate || limited_energy_2d(
            candidate,
            half_previous,
            floor,
        ) == half_previous || limited_energy_2d(candidate, half_previous, floor) == floor,
        !candidate.nan() ==> candidate.le(limited_energy_2d(candidate, half_previous, floor)),
        !half_previous.nan() ==> half_previous.le(
            limited_energy_2d(candidate, half_previous, floor),
        ),
        !floor.nan() ==> floor.le(limited_energy_2d(candidate, half_previous, floor)),
{
}

/// Two rates agree exactly where their vectors are numerically equal and all other numbers
/// have the same patterns.
pub proof fn law_equal_rates(left: ParticleRate2d, right: ParticleRate2d)
    ensures
        same_rate(left, right) <==> {
            &&& left.momentum.x.same(right.momentum.x) && left.momentum.y.same(right.momentum.y)
                && left.momentum.z.same(right.momentum.z)
            &&& left.acceleration.x.same(right.acceleration.x) && left.acceleration.y.same(
                right.acceleration.y,
            ) && left.acceleration.z.same(right.acceleration.z)
            &&& left.total_energy.bits == right.total_energy.bits
            &&& left.specific_internal_energy.bits == right.specific_internal_energy.bits
            &&& left.maximum_signal_speed.bits == right.maximum_signal_speed.bits
            &&& left.velocity_divergence.bits == right.velocity_divergence.bits
        },
{
}

/// The ticks of a bound are its request cut down to whole ticks, but never fewer than two.
pub proof fn law_raw_ticks(bounded_timestep: Binary64, requested: Binary64)
    ensures
        raw_ticks_of(bounded_timestep, requested) >= 2,
        requested.truncated() >= 2 ==> raw_ticks_of(bounded_timestep, requested)
            == requested.truncated(),
        requested.truncated() < 2 ==> raw_ticks_of(bounded_timestep, requested) == 2,
{
}

/// A step can be quantized exactly where it is positive, its request is not negative, and its
/// ticks fit on the timeline.
pub proof fn law_quantizable_steps(
    index: usize,
    selected: Binary64,
    maximum: Binary64,
    requested: Binary64,
)
    ensures
        quantization_fault(index, selected, maximum, requested) is None <==> {
            &&& (Binary64 { bits: 0 }).lt(selected) && selected.finite()
            &&& (Binary64 { bits: 0 }).le(requested) && requested.finite() && requested.truncated() < LEGACY_TIMEBASE_TICKS
        },
        ({
            &&& !((Binary64 { bits: 0 }).lt(selected) && selected.finite())
        }) ==> quantization_fault(index, selected, maximum, requested) == Some(
            HydroEvolution2dError::InvalidState { index: Some(index), field: "public_hydro_timestep", value: selected },
        ),
        ({
            &&& (Binary64 { bits: 0 }).lt(selected) && selected.finite()
            &&& !((Binary64 { bits: 0 }).le(requested) && requested.finite() && requested.truncated() < LEGACY_TIMEBASE_TICKS)
        }) ==> quantization_fault(index, selected, maximum, requested) == Some(
            HydroEvolution2dError::InvalidState { index: Some(index), field: "public_hydro_timestep_ticks", value: requested },
        ),
{
}

/// A quantized step is the largest power of two of ticks that does not exceed the request,
/// and its bound is not longer than the selected step nor than the maximum.
pub proof fn law_quantized_steps(
    step: QuantizedStep,
    selected: Binary64,
    maximum: Binary64,
    requested: Binary64,
    larger: nat,
)
    requires
        quantized(step, selected, maximum, requested),
        selected.positive(),
        maximum.positive(),
    ensures
        step.bounded_timestep.le(selected) && step.bounded_timestep.le(maximum),
        step.bounded_timestep == selected || step.bounded_timestep == maximum,
        step.raw_ticks == requested.truncated() || (step.raw_ticks == 2 && requested.truncated()
            < 2),
        step.ticks == pow2(step.time_bin as nat),
        step.ticks <= step.raw_ticks,
        step.time_bin < larger ==> pow2(larger) > step.raw_ticks,
{
    if step.time_bin < larger {
        vstd::arithmetic::power2::lemma_pow2_pos(larger);
        assert(crate::ticks::bin_synchronized(0, larger)) by {
            assert(0int % (pow2(larger) as int) == 0) by (nonlinear_arith)
                requires
                    pow2(larger) > 0,
            ;
        }
        if pow2(larger) <= step.raw_ticks {
            assert(!crate::ticks::bin_synchronized(0, larger));
        }
    }
}

/// A timebin is consistent exactly where its ticks are the power of two of its bin, its raw
/// ticks are the request of a positive timestep and lie from its ticks up to twice as many,
/// and its duration is what its ticks come to.
pub proof fn law_consistent_timebins(
    bin: PublicHydroInitialTimebin2d,
    requested: Binary64,
    duration: Binary64,
)
    ensures
        timebin_consistent(bin, requested, duration) ==> {
            &&& bin.time_bin < 64 && bin.ticks == pow2(bin.time_bin as nat)
            &&& (Binary64 { bits: 0 }).lt(bin.bounded_timestep)
            &&& (Binary64 { bits: 0 }).le(requested)
            &&& bin.raw_ticks == requested.truncated() || (bin.raw_ticks == 2
                && requested.truncated() < 2)
            &&& bin.ticks <= bin.raw_ticks && bin.raw_ticks < bin.ticks + bin.ticks
            &&& !bin.duration.lt(duration) && !duration.lt(bin.duration)
        },
        ({
            &&& bin.time_bin < 64 && bin.ticks == pow2(bin.time_bin as nat)
            &&& bin.bounded_timestep.positive() && requested.nonnegative()
            &&& requested.truncated() >= 2 && bin.raw_ticks == requested.truncated()
            &&& bin.ticks <= bin.raw_ticks && bin.raw_ticks < bin.ticks + bin.ticks
            &&& !bin.duration.nan() && bin.duration == duration
        }) ==> timebin_consistent(bin, requested, duration),
{
}

/// An initial timeline is accepted exactly where its ends are finite and in order and the
/// maximum timestep is positive.
pub proof fn law_initial_timelines(
    time_begin: Binary64,
    time_max: Binary64,
    maximum_timestep: Binary64,
)
    ensures
        initial_timeline_fault(time_begin, time_max, maximum_timestep) is None <==> {
            &&& time_begin.finite() && time_max.finite() && time_begin.lt(time_max) && (Binary64 { bits: 0 }).lt(maximum_timestep) && maximum_timestep.finite()
        },
        ({
            &&& !(time_begin.finite() && time_max.finite() && time_begin.lt(time_max) && (Binary64 { bits: 0 }).lt(maximum_timestep) && maximum_timestep.finite())
        }) ==> initial_timeline_fault(time_begin, time_max, maximum_timestep) == Some(
            HydroEvolution2dError::InvalidState { index: None, field: "public_hydro_timeline", value: time_max },
        ),
{
}

/// A Courant factor is accepted exactly above zero and up to one half.
pub proof fn law_courant_factors(
    factor: Binary64,
)
    ensures
        courant_factor_fault(factor) is None <==> {
            &&& (Binary64 { bits: 0 }).lt(factor) && factor.le(Binary64 { bits: HALF_BITS })
        },
        ({
            &&& !((Binary64 { bits: 0 }).lt(factor) && factor.le(Binary64 { bits: HALF_BITS }))
        }) ==> courant_factor_fault(factor) == Some(
            HydroEvolution2dError::InvalidState { index: None, field: "courant_factor", value: factor },
        ),
{
}

/// An energy floor is accepted exactly where it is not negative.
pub proof fn law_energy_floors(
    minimum_specific_internal_energy: Binary64,
)
    ensures
        floor_fault(minimum_specific_internal_energy) is None <==> {
            &&& (Binary64 { bits: 0 }).le(minimum_specific_internal_energy) && minimum_specific_internal_energy.finite()
        },
        ({
            &&& !((Binary64 { bits: 0 }).le(minimum_specific_internal_energy) && minimum_specific_internal_energy.finite())
        }) ==> floor_fault(minimum_specific_internal_energy) == Some(
            HydroEvolution2dError::InvalidState { index: None, field: "minimum_specific_internal_energy", value: minimum_specific_internal_energy },
        ),
{
}

/// A value is refused, by its place and name, exactly where it is not valid.
pub proof fn law_checked_states(
    index: Option<usize>,
    field: &'static str,
    value: Binary64,
    valid: bool,
)
    ensures
        state_fault(index, field, value, valid) is None <==> {
            &&& valid
        },
        ({
            &&& !(valid)
        }) ==> state_fault(index, field, value, valid) == Some(
            HydroEvolution2dError::InvalidState { index, field, value },
        ),
{
}

/// A state can evolve exactly where it is fit and has one rate of each kind per particle.
pub proof fn law_evolving_states(state: HydroMfmState2d, rates: RateLengths2d)
    ensures
        evolving_fault(state, rates) is None <==> {
            &&& state.fault() is None
            &&& rates.momentum == state.positions@.len()
            &&& rates.total_energy == state.positions@.len()
            &&& rates.acceleration == state.positions@.len()
            &&& rates.specific_internal_energy == state.positions@.len()
            &&& rates.maximum_signal_speed == state.positions@.len()
            &&& rates.velocity_divergence == state.positions@.len()
        },
        state.fault() is Some ==> evolving_fault(state, rates) == state.fault(),
{
    let faults = length_faults(state.positions@.len() as usize, rates.columns());
    law_first_fault_is_the_earliest(faults, 6);
    assert(state.positions.len() == state.positions@.len());
    if first_fault(faults, 6) is None {
        assert(faults(0) is None);
        assert(faults(1) is None);
        assert(faults(2) is None);
        assert(faults(3) is None);
        assert(faults(4) is None);
        assert(faults(5) is None);
    }
}

/// Pressures are accepted exactly where all of them are positive.
pub proof fn law_recomputed_pressures(pressures: Seq<Binary64>)
    ensures
        first_fault(pressure_faults(pressures), pressures.len() as int) is None <==> forall|i: int|
            0 <= i < pressures.len() ==> (Binary64 { bits: 0 }).lt(#[trigger] pressures[i])
                && pressures[i].finite(),
{
    let faults = pressure_faults(pressures);
    law_first_fault_is_the_earliest(faults, pressures.len() as int);
    if first_fault(faults, pressures.len() as int) is None {
        assert forall|i: int| 0 <= i < pressures.len() implies (Binary64 { bits: 0 }).lt(
            #[trigger] pressures[i],
        ) && pressures[i].finite() by {
            assert(faults(i) is None);
        }
    }
}

/// A message holds every field of its error, each in its place.
pub proof fn law_messages_hold_the_fields(error: HydroEvolution2dError)
    ensures
        error matches HydroEvolution2dError::MismatchedLength { field, expected, actual } ==> {
            &&& error.wording().len() == 6
            &&& error.wording()[1] == MessagePart::Text(field)
            &&& error.wording()[3] == MessagePart::Count(actual)
            &&& error.wording()[5] == MessagePart::Count(expected)
        },
        error matches HydroEvolution2dError::InvalidState { index, field, value } ==> {
            &&& error.wording().len() == 6
            &&& error.wording()[1] == MessagePart::Text(field)
            &&& error.wording()[3] == MessagePart::OptionalCount(index)
            &&& error.wording()[5] == MessagePart::Value(value)
        },
        error matches HydroEvolution2dError::Geometry(inner) ==> error.wording() == inner.wording(),
        error matches HydroEvolution2dError::Riemann(inner) ==> error.wording() == inner.wording(),
        error matches HydroEvolution2dError::Timeline(inner) ==> error.wording() == inner.wording(),
{
}

/// Between the fields the message of an error always reads the same.
pub proof fn law_messages_are_fixed(error: HydroEvolution2dError, other: HydroEvolution2dError)
    ensures
        error is MismatchedLength && other is MismatchedLength ==> {
            &&& error.wording()[0] == other.wording()[0]
            &&& error.wording()[2] == other.wording()[2]
            &&& error.wording()[4] == other.wording()[4]
        },
        error is InvalidState && other is InvalidState ==> {
            &&& error.wording()[0] == other.wording()[0]
            &&& error.wording()[2] == other.wording()[2]
            &&& error.wording()[4] == other.wording()[4]
        },
{
}

/// A state is refused for its lengths, then the adiabatic index, and then its first unfit
/// particle; its columns are checked under their own names.
pub proof fn law_planar_states_are_refused_in_order(state: HydroMfmState2d)
    ensures
        state.columns().len() == 4,
        state.columns()[0] == ("masses", state.masses@.len() as usize),
        state.columns()[1] == ("velocities", state.velocities@.len() as usize),
        state.columns()[2] == (
            "specific_internal_energy",
            state.specific_internal_energy@.len() as usize,
        ),
        state.columns()[3] == ("smoothing_lengths", state.smoothing_lengths@.len() as usize),
        ({
            let fault = state.fault();
            let lengths = first_fault(
                length_faults(state.positions@.len() as usize, state.columns()),
                state.columns().len() as int,
            );
            let compressible = (Binary64 { bits: ONE_BITS }).lt(state.gamma)
                && state.gamma.finite();
            &&& lengths is Some ==> fault == lengths
            &&& lengths is None && !compressible ==> fault == Some(
                HydroEvolution2dError::InvalidState {
                    index: None,
                    field: "gamma",
                    value: state.gamma,
                },
            )
            &&& lengths is None && compressible ==> fault == first_fault(
                state.particle_faults(),
                state.positions@.len() as int,
            )
        }),
{
}

/// A recovered energy is refused exactly where it is not finite or below the minimum.
pub proof fn law_refused_energies(energies: Seq<Binary64>, minimum: Binary64, i: int)
    requires
        0 <= i < energies.len(),
        energies.len() <= usize::MAX,
    ensures
        recovery_faults(energies, minimum)(i) is None <==> energies[i].finite() && !energies[i].lt(
            minimum,
        ),
        !energies[i].finite() || energies[i].lt(minimum) ==> recovery_faults(energies, minimum)(i)
            == Some(
            HydroEvolution2dError::InvalidState {
                index: Some(i as usize),
                field: "recovered_internal_energy",
                value: energies[i],
            },
        ),
{
}

} // verus!
