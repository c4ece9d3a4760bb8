//! Checks and regimes of the kernel sums: density, response, moments, closure and divergence.

use vstd::prelude::*;

use crate::binary64::Binary64;
use crate::hydro_error::HydroError;
use crate::meshless_2d::{GeometryError, Matrix2, Vector2};

verus! {

use crate::binary64::{nearest, NAN_BITS};
use crate::fault::{
    first, first_fault, law_first_fault_is_the_earliest, lemma_first_fault_stays, outcome,
};
use vstd::arithmetic::power2::{lemma2_to64, lemma2_to64_rest};

/// The smallest response of the density to the smoothing length that is corrected for.
pub const RESPONSE_LIMIT_BITS: u64 = 0xbfec_cccc_cccc_cccd;

/// The condition number from which a moment matrix is regularized.
pub const MOMENT_CONDITION_BITS: u64 = 0x40c3_8800_0000_0000;

/// How often a moment matrix is regularized.
pub const MOMENT_ATTEMPTS: u32 = 256;

/// How the density responds to the smoothing length.
#[derive(Clone, Copy, Debug, PartialEq, Eq, Structural)]
pub enum Response {
    /// There is no neighbor to respond to: the factor is zero.
    Empty,
    /// The factor is the inverse of one plus the response.
    Corrected,
    /// The response is too negative to correct for: the factor is one.
    Unit,
}

/// The regime of a response.
pub open spec fn response_regime(response: Binary64) -> Response {
    if (Binary64 { bits: RESPONSE_LIMIT_BITS }).lt(response) {
        Response::Corrected
    } else {
        Response::Unit
    }
}

/// Choose the regime of a response where a neighbor is known to exist.
pub fn bounded_response(response: Binary64) -> (result: Response)
    ensures
        result == response_regime(response),
{
    let limit: Binary64 = Binary64 { bits: RESPONSE_LIMIT_BITS };
    if limit.less(response) {
        Response::Corrected
    } else {
        Response::Unit
    }
}

/// Choose the regime of a response to a kernel sum.
pub fn response_to(kernel_sum: Binary64, response: Binary64) -> (result: Response)
    ensures
        result == if (Binary64 { bits: 0 }).lt(kernel_sum) {
            response_regime(response)
        } else {
            Response::Empty
        },
        result == Response::Empty <==> !(Binary64 { bits: 0 }).lt(kernel_sum),
        kernel_sum.positive() ==> result == response_regime(response),
{
    let zero: Binary64 = Binary64 { bits: 0 };
    if zero.less(kernel_sum) {
        bounded_response(response)
    } else {
        Response::Empty
    }
}

/// Whether a neighbor enters the moments of a particle: inside its support, but not at its
/// place.
pub fn enters_moments(distance: Binary64, support: Binary64) -> (result: bool)
    ensures
        result == ((Binary64 { bits: 0 }).lt(distance) && distance.lt(support)),
        support.le(distance) || distance.le(Binary64 { bits: 0 }) ==> !result,
        distance.positive() && distance.lt(support) ==> result,
{
    let zero: Binary64 = Binary64 { bits: 0 };
    zero.less(distance) && distance.less(support)
}

/// A density estimate that is not finite.
pub open spec fn density_fault(index: usize, field: &'static str, value: Binary64) -> Option<
    HydroError,
> {
    if value.finite() {
        None
    } else {
        Some(HydroError::NonFiniteDensityEstimate { index, field, value })
    }
}

fn check_density(index: usize, field: &'static str, value: Binary64) -> (result: Result<
    (),
    HydroError,
>)
    ensures
        result == outcome(density_fault(index, field, value)),
{
    if value.is_finite() {
        Ok(())
    } else {
        Err(HydroError::NonFiniteDensityEstimate { index, field, value })
    }
}

/// Check the sums of a density estimate and the density.
pub fn validate_density_sums_1d(
    index: usize,
    kernel_sum: Binary64,
    derivative_sum: Binary64,
    density: Binary64,
) -> (result: Result<(), HydroError>)
    ensures
        result == outcome(
            first(
                density_fault(index, "kernel_sum", kernel_sum),
                first(
                    density_fault(index, "derivative_sum", derivative_sum),
                    density_fault(index, "density", density),
                ),
            ),
        ),
        result is Ok <==> kernel_sum.finite() && derivative_sum.finite() && density.finite(),
{
    if let Err(error) = check_density(index, "kernel_sum", kernel_sum) {
        return Err(error);
    }
    if let Err(error) = check_density(index, "derivative_sum", derivative_sum) {
        return Err(error);
    }
    check_density(index, "density", density)
}

/// A density estimate together with its closure error.
#[derive(Clone, Copy, Debug, PartialEq, Eq, Structural)]
pub struct DensityGeometry {
    pub density: Binary64,
    pub effective_neighbors: Binary64,
    pub dhsml_factor: Binary64,
    pub face_closure_error: Binary64,
}

/// Check a density estimate of the adaptive solution.
pub fn validate_density_geometry_1d(index: usize, geometry: DensityGeometry) -> (result: Result<
    (),
    HydroError,
>)
    ensures
        result == outcome(
            first(
                density_fault(index, "density", geometry.density),
                first(
                    density_fault(index, "effective_neighbors", geometry.effective_neighbors),
                    first(
                        density_fault(index, "dhsml_factor", geometry.dhsml_factor),
                        density_fault(index, "face_closure_error", geometry.face_closure_error),
                    ),
                ),
            ),
        ),
        result is Ok <==> geometry.density.finite() && geometry.effective_neighbors.finite()
            && geometry.dhsml_factor.finite() && geometry.face_closure_error.finite(),
{
    if let Err(error) = check_density(index, "density", geometry.density) {
        return Err(error);
    }
    if let Err(error) = check_density(index, "effective_neighbors", geometry.effective_neighbors) {
        return Err(error);
    }
    if let Err(error) = check_density(index, "dhsml_factor", geometry.dhsml_factor) {
        return Err(error);
    }
    check_density(index, "face_closure_error", geometry.face_closure_error)
}

/// Check a one-dimensional moment and its inverse.
pub fn validate_moment_1d(index: usize, moment: Binary64, inverse: Binary64) -> (result: Result<
    (),
    HydroError,
>)
    ensures
        result == outcome(
            if !moment.positive() {
                Some(HydroError::SingularGradientMoment { index, moment })
            } else if !inverse.finite() {
                Some(
                    HydroError::NonFiniteGradient {
                        index,
                        field: "inverse_moment",
                        value: inverse,
                    },
                )
            } else {
                None
            },
        ),
        result is Ok <==> (Binary64 { bits: 0 }).lt(moment) && moment.finite() && inverse.finite(),
{
    if !moment.is_positive() {
        return Err(HydroError::SingularGradientMoment { index, moment });
    }
    if !inverse.is_finite() {
        return Err(
            HydroError::NonFiniteGradient { index, field: "inverse_moment", value: inverse },
        );
    }
    Ok(())
}

/// Check the divergence of a particle and the sums it is made of.
pub fn validate_divergence_1d(
    index: usize,
    kernel_sum: Binary64,
    numerator: Binary64,
    divergence: Binary64,
) -> (result: Result<(), HydroError>)
    ensures
        result == outcome(
            if kernel_sum.positive() && numerator.finite() && divergence.finite() {
                None
            } else {
                Some(
                    HydroError::NonFiniteDensityEstimate {
                        index,
                        field: "particle_divergence",
                        value: divergence,
                    },
                )
            },
        ),
        result is Ok <==> (Binary64 { bits: 0 }).lt(kernel_sum) && kernel_sum.finite()
            && numerator.finite() && divergence.finite(),
{
    if !kernel_sum.is_positive() || !numerator.is_finite() || !divergence.is_finite() {
        return Err(
            HydroError::NonFiniteDensityEstimate {
                index,
                field: "particle_divergence",
                value: divergence,
            },
        );
    }
    Ok(())
}

/// Check the closure error of a particle and the sums it is made of.
pub fn validate_closure_error_1d(
    index: usize,
    kernel_sum: Binary64,
    first_moment: Binary64,
    closure_error: Binary64,
) -> (result: Result<(), HydroError>)
    ensures
        result == outcome(
            if kernel_sum.positive() && first_moment.finite() && closure_error.finite() {
                None
            } else {
                Some(
                    HydroError::NonFiniteGradient {
                        index,
                        field: "face_closure_error",
                        value: closure_error,
                    },
                )
            },
        ),
        result is Ok <==> (Binary64 { bits: 0 }).lt(kernel_sum) && kernel_sum.finite()
            && first_moment.finite() && closure_error.finite(),
{
    if !kernel_sum.is_positive() || !first_moment.is_finite() || !closure_error.is_finite() {
        return Err(
            HydroError::NonFiniteGradient {
                index,
                field: "face_closure_error",
                value: closure_error,
            },
        );
    }
    Ok(())
}

/// Check the rates of a particle in one dimension.
pub fn validate_spatial_rate(
    momentum: Binary64,
    total_energy: Binary64,
    acceleration: Binary64,
    internal_energy_rate: Binary64,
) -> (result: Result<(), HydroError>)
    ensures
        result == outcome(
            if momentum.finite() && total_energy.finite() && acceleration.finite()
                && internal_energy_rate.finite() {
                None
            } else {
                Some(
                    HydroError::NonFiniteRiemannResult {
                        field: "spatial_rate",
                        value: Binary64 { bits: NAN_BITS },
                    },
                )
            },
        ),
        result is Ok <==> momentum.finite() && total_energy.finite() && acceleration.finite()
            && internal_energy_rate.finite(),
{
    if !momentum.is_finite() || !total_energy.is_finite() || !acceleration.is_finite()
        || !internal_energy_rate.is_finite() {
        return Err(
            HydroError::NonFiniteRiemannResult {
                field: "spatial_rate",
                value: Binary64 { bits: NAN_BITS },
            },
        );
    }
    Ok(())
}

/// A planar result that is not usable.
pub open spec fn result_fault(
    index: usize,
    field: &'static str,
    value: Binary64,
    usable: bool,
) -> Option<GeometryError> {
    if usable {
        None
    } else {
        Some(GeometryError::NonFiniteResult { index, field, value })
    }
}

fn check_result(index: usize, field: &'static str, value: Binary64, usable: bool) -> (result: Result<
    (),
    GeometryError,
>)
    ensures
        result == outcome(result_fault(index, field, value, usable)),
{
    if usable {
        Ok(())
    } else {
        Err(GeometryError::NonFiniteResult { index, field, value })
    }
}

/// Check a planar density estimate.
pub fn validate_density_estimate_2d(
    index: usize,
    density: Binary64,
    effective_neighbors: Binary64,
    dhsml_factor: Binary64,
) -> (result: Result<(), GeometryError>)
    ensures
        result == outcome(
            result_fault(
                index,
                "density estimate",
                Binary64 { bits: NAN_BITS },
                density.finite() && effective_neighbors.finite() && dhsml_factor.finite(),
            ),
        ),
        result is Ok <==> density.finite() && effective_neighbors.finite() && dhsml_factor.finite(),
{
    check_result(
        index,
        "density estimate",
        Binary64 { bits: NAN_BITS },
        density.is_finite() && effective_neighbors.is_finite() && dhsml_factor.is_finite(),
    )
}

/// Check a planar kernel sum of the adaptive solution: it must not be zero or less.
pub fn validate_kernel_sum_2d(index: usize, kernel_sum: Binary64) -> (result: Result<
    (),
    GeometryError,
>)
    ensures
        result == outcome(
            result_fault(
                index,
                "kernel sum",
                kernel_sum,
                !kernel_sum.le(Binary64 { bits: 0 }),
            ),
        ),
        !kernel_sum.nan() ==> (result is Ok <==> (Binary64 { bits: 0 }).lt(kernel_sum)),
{
    let zero: Binary64 = Binary64 { bits: 0 };
    check_result(index, "kernel sum", kernel_sum, !kernel_sum.at_most(zero))
}

/// Check a planar density estimate of the adaptive solution.
pub fn validate_density_geometry_2d(index: usize, geometry: DensityGeometry) -> (result: Result<
    (),
    GeometryError,
>)
    ensures
        result == outcome(
            first(
                result_fault(index, "density", geometry.density, geometry.density.finite()),
                first(
                    result_fault(
                        index,
                        "effective neighbors",
                        geometry.effective_neighbors,
                        geometry.effective_neighbors.finite(),
                    ),
                    first(
                        result_fault(
                            index,
                            "smoothing-length factor",
                            geometry.dhsml_factor,
                            geometry.dhsml_factor.finite(),
                        ),
                        result_fault(
                            index,
                            "face closure error",
                            geometry.face_closure_error,
                            geometry.face_closure_error.finite(),
                        ),
                    ),
                ),
            ),
        ),
        result is Ok <==> geometry.density.finite() && geometry.effective_neighbors.finite()
            && geometry.dhsml_factor.finite() && geometry.face_closure_error.finite(),
{
    if let Err(error) = check_result(
        index,
        "density",
        geometry.density,
        geometry.density.is_finite(),
    ) {
        return Err(error);
    }
    if let Err(error) = check_result(
        index,
        "effective neighbors",
        geometry.effective_neighbors,
        geometry.effective_neighbors.is_finite(),
    ) {
        return Err(error);
    }
    if let Err(error) = check_result(
        index,
        "smoothing-length factor",
        geometry.dhsml_factor,
        geometry.dhsml_factor.is_finite(),
    ) {
        return Err(error);
    }
    check_result(
        index,
        "face closure error",
        geometry.face_closure_error,
        geometry.face_closure_error.is_finite(),
    )
}

/// The faults of a column of planar velocities.
pub open spec fn planar_velocity_faults(velocities: Seq<Vector2>) -> spec_fn(int) -> Option<
    GeometryError,
> {
    |i: int|
        result_fault(
            i as usize,
            "velocity",
            Binary64 { bits: NAN_BITS },
            velocities[i].finite(),
        )
}

/// Check the columns of a planar divergence beyond the geometry: lengths, then velocities.
pub fn validate_divergence_columns_2d(velocities: &[Vector2], factors: usize, expected: usize) -> (result:
    Result<(), GeometryError>)
    ensures
        result == outcome(
            if velocities@.len() != expected {
                Some(
                    GeometryError::MismatchedLength {
                        field: "velocities",
                        expected,
                        actual: velocities@.len() as usize,
                    },
                )
            } else if factors != expected {
                Some(
                    GeometryError::MismatchedLength {
                        field: "dhsml_factors",
                        expected,
                        actual: factors,
                    },
                )
            } else {
                first_fault(planar_velocity_faults(velocities@), velocities@.len() as int)
            },
        ),
        result is Ok ==> velocities@.len() == expected && factors == expected,
{
    if velocities.len() != expected {
        return Err(
            GeometryError::MismatchedLength {
                field: "velocities",
                expected,
                actual: velocities.len(),
            },
        );
    }
    if factors != expected {
        return Err(
            GeometryError::MismatchedLength { field: "dhsml_factors", expected, actual: factors },
        );
    }
    let ghost faults = planar_velocity_faults(velocities@);
    let mut index: usize = 0;
    while index < velocities.len()
        invariant
            index <= velocities@.len(),
            velocities@.len() == expected,
            factors == expected,
            faults == planar_velocity_faults(velocities@),
            first_fault(faults, index as int) is None,
        decreases velocities@.len() - index,
    {
        if let Err(error) = check_result(
            index,
            "velocity",
            Binary64 { bits: NAN_BITS },
            velocities[index].is_finite(),
        ) {
            assert(faults(index as int) is Some);
            proof {
                lemma_first_fault_stays(faults, index + 1, velocities@.len() as int);
            }
            return Err(error);
        }
        assert(faults(index as int) is None);
        index = index + 1;
    }
    Ok(())
}

/// Check a planar divergence.
pub fn validate_divergence_2d(index: usize, divergence: Binary64) -> (result: Result<
    (),
    GeometryError,
>)
    ensures
        result == outcome(
            result_fault(
                index,
                "particle velocity divergence",
                divergence,
                divergence.finite(),
            ),
        ),
        result is Ok <==> divergence.finite(),
{
    check_result(index, "particle velocity divergence", divergence, divergence.is_finite())
}

/// The faults of a column of planar vector values.
pub open spec fn vector_value_faults(values: Seq<Vector2>) -> spec_fn(int) -> Option<GeometryError> {
    |i: int|
        if values[i].finite() {
            None
        } else {
            Some(
                GeometryError::InvalidPoint {
                    index: Some(i as usize),
                    field: "vector_value",
                    value: Binary64 { bits: NAN_BITS },
                },
            )
        }
}

/// Check the values of a planar vector gradient.
pub fn validate_vector_values(values: &[Vector2], expected: usize) -> (result: Result<
    (),
    GeometryError,
>)
    ensures
        result == outcome(
            if values@.len() != expected {
                Some(
                    GeometryError::MismatchedLength {
                        field: "vector_values",
                        expected,
                        actual: values@.len() as usize,
                    },
                )
            } else {
                first_fault(vector_value_faults(values@), values@.len() as int)
            },
        ),
        result is Ok ==> values@.len() == expected,
{
    if values.len() != expected {
        return Err(
            GeometryError::MismatchedLength {
                field: "vector_values",
                expected,
                actual: values.len(),
            },
        );
    }
    let ghost faults = vector_value_faults(values@);
    let mut index: usize = 0;
    while index < values.len()
        invariant
            index <= values@.len(),
            values@.len() == expected,
            faults == vector_value_faults(values@),
            first_fault(faults, index as int) is None,
        decreases values@.len() - index,
    {
        if !values[index].is_finite() {
            assert(faults(index as int) is Some);
            proof {
                lemma_first_fault_stays(faults, index + 1, values@.len() as int);
            }
            return Err(
                GeometryError::InvalidPoint {
                    index: Some(index),
                    field: "vector_value",
                    value: Binary64 { bits: NAN_BITS },
                },
            );
        }
        assert(faults(index as int) is None);
        index = index + 1;
    }
    Ok(())
}

/// Check a planar gradient or numerator whose components were tested together.
pub fn validate_components(index: usize, field: &'static str, components: Matrix2) -> (result: Result<
    (),
    GeometryError,
>)
    ensures
        result == outcome(
            result_fault(index, field, Binary64 { bits: NAN_BITS }, components.finite()),
        ),
        result is Ok <==> components.xx.finite() && components.xy.finite() && components.yx.finite()
            && components.yy.finite(),
{
    check_result(index, field, Binary64 { bits: NAN_BITS }, components.is_finite())
}

/// Check a planar scalar gradient.
pub fn validate_scalar_gradient(index: usize, gradient: Vector2) -> (result: Result<
    (),
    GeometryError,
>)
    ensures
        result == outcome(
            result_fault(
                index,
                "scalar gradient",
                Binary64 { bits: NAN_BITS },
                gradient.finite(),
            ),
        ),
        result is Ok <==> gradient.x.finite() && gradient.y.finite(),
{
    check_result(index, "scalar gradient", Binary64 { bits: NAN_BITS }, gradient.is_finite())
}

/// Check the sums of a planar closure error: neither may be zero or less.
pub fn validate_closure_moments(index: usize, kernel_sum: Binary64, trace: Binary64) -> (result:
    Result<(), GeometryError>)
    ensures
        result == outcome(
            result_fault(
                index,
                "closure moments",
                kernel_sum.lesser(trace),
                !kernel_sum.le(Binary64 { bits: 0 }) && !trace.le(Binary64 { bits: 0 }),
            ),
        ),
        !kernel_sum.nan() && !trace.nan() ==> (result is Ok <==> (Binary64 { bits: 0 }).lt(kernel_sum)
            && (Binary64 { bits: 0 }).lt(trace)),
{
    let zero: Binary64 = Binary64 { bits: 0 };
    check_result(
        index,
        "closure moments",
        kernel_sum.min(trace),
        !kernel_sum.at_most(zero) && !trace.at_most(zero),
    )
}

/// The entries of a symmetric moment matrix.
#[derive(Clone, Copy, Debug, PartialEq, Eq, Structural)]
pub struct SymmetricMoment {
    pub xx: Binary64,
    pub xy: Binary64,
    pub yy: Binary64,
}

/// What follows from a look at a moment matrix.
#[derive(Clone, Copy, Debug, PartialEq, Eq, Structural)]
pub enum MomentStep {
    /// The inverse can be used.
    Accept,
    /// The diagonal is increased, and the matrix is looked at again.
    Regularize,
    /// The diagonal was increased as often as allowed.
    Singular,
}

/// The regularization of a moment matrix.
#[derive(Clone, Copy, Debug, PartialEq, Eq, Structural)]
pub struct MomentRegularization {
    /// How often the diagonal was increased.
    pub increments: u32,
}

impl MomentRegularization {
    /// Begin with a moment matrix, whose trace must be positive.
    pub fn begin(index: usize, moment: SymmetricMoment, trace: Binary64) -> (result: Result<
        Self,
        GeometryError,
    >)
        ensures
            result == if trace.positive() && moment.xy.finite() {
                Ok::<MomentRegularization, GeometryError>(MomentRegularization { increments: 0 })
            } else {
                Err(
                    GeometryError::SingularMoment {
                        index,
                        xx: moment.xx,
                        xy: moment.xy,
                        yy: moment.yy,
                    },
                )
            },
            result is Ok <==> (Binary64 { bits: 0 }).lt(trace) && trace.finite() && moment.xy.finite(),
            result matches Ok(state) ==> state.increments == 0,
    {
        if !trace.is_positive() || !moment.xy.is_finite() {
            return Err(
                GeometryError::SingularMoment {
                    index,
                    xx: moment.xx,
                    xy: moment.xy,
                    yy: moment.yy,
                },
            );
        }
        Ok(MomentRegularization { increments: 0 })
    }

    /// Whether a matrix with this condition number and inverse can be used.
    pub open spec fn usable(condition: Binary64, inverse: Matrix2) -> bool {
        condition.finite() && condition.lt(Binary64 { bits: MOMENT_CONDITION_BITS })
            && inverse.finite()
    }

    /// What follows from a look at the matrix.
    pub open spec fn step(self, condition: Binary64, inverse: Matrix2) -> MomentStep {
        if self.increments >= MOMENT_ATTEMPTS {
            MomentStep::Singular
        } else if Self::usable(condition, inverse) {
            MomentStep::Accept
        } else {
            MomentStep::Regularize
        }
    }

    /// Look at the matrix. A matrix that has been regularized as often as allowed is not
    /// looked at again.
    pub fn judge(&mut self, condition: Binary64, inverse: Matrix2) -> (result: MomentStep)
        ensures
            result == old(self).step(condition, inverse),
            final(self).increments == if result == MomentStep::Regularize {
                old(self).increments + 1
            } else {
                old(self).increments as int
            },
            result == MomentStep::Regularize <==> final(self).increments == old(self).increments + 1,
    {
        if self.increments >= MOMENT_ATTEMPTS {
            return MomentStep::Singular;
        }
        let limit: Binary64 = Binary64 { bits: MOMENT_CONDITION_BITS };
        if condition.is_finite() && condition.less(limit) && inverse.is_finite() {
            return MomentStep::Accept;
        }
        self.increments = self.increments + 1;
        MomentStep::Regularize
    }
}

/// Regularization ends: every further increment leaves fewer, and an accepted inverse is
/// finite and well conditioned.
pub proof fn law_regularization_ends(
    state: MomentRegularization,
    condition: Binary64,
    inverse: Matrix2,
)
    ensures
        state.step(condition, inverse) == MomentStep::Regularize ==> state.increments
            < MOMENT_ATTEMPTS,
        state.step(condition, inverse) == MomentStep::Accept ==> inverse.finite()
            && condition.lt(Binary64 { bits: MOMENT_CONDITION_BITS }),
        state.step(condition, inverse) == MomentStep::Singular <==> state.increments
            >= MOMENT_ATTEMPTS,
{
}

impl MomentRegularization {
    /// The error of a moment matrix that stays singular.
    pub fn failure(self, index: usize, moment: SymmetricMoment) -> (result: GeometryError)
        ensures
            result == (GeometryError::SingularMoment {
                index,
                xx: moment.xx,
                xy: moment.xy,
                yy: moment.yy,
            }),
    {
        GeometryError::SingularMoment { index, xx: moment.xx, xy: moment.xy, yy: moment.yy }
    }
}

/// A response is corrected exactly above minus nine tenths, and left at one below.
pub proof fn law_responses(response: Binary64)
    requires
        !response.nan(),
    ensures
        response_regime(response) == Response::Corrected <==> !response.le(
            Binary64 { bits: RESPONSE_LIMIT_BITS },
        ),
        response_regime(response) == Response::Unit <==> response.le(
            Binary64 { bits: RESPONSE_LIMIT_BITS },
        ),
        nearest((Binary64 { bits: RESPONSE_LIMIT_BITS }).negated(), 9, 10),
        nearest(Binary64 { bits: MOMENT_CONDITION_BITS }, 10000, 1),
        MOMENT_ATTEMPTS == 256,
{
    lemma2_to64();
    lemma2_to64_rest();
}

/// An inverse is accepted exactly where it is finite and its condition number below ten
/// thousand; a matrix that is not yet so is regularized until the attempts are used up.
pub proof fn law_accepted_inverses(
    state: MomentRegularization,
    condition: Binary64,
    inverse: Matrix2,
)
    requires
        !condition.negative(),
    ensures
        state.increments < 256 ==> (state.step(condition, inverse) == MomentStep::Accept <==> {
            &&& inverse.xx.finite() && inverse.xy.finite() && inverse.yx.finite()
                && inverse.yy.finite()
            &&& condition.lt(Binary64 { bits: MOMENT_CONDITION_BITS })
        }),
        state.increments < 256 && state.step(condition, inverse) != MomentStep::Accept
            ==> state.step(condition, inverse) == MomentStep::Regularize,
        state.increments >= 256 ==> state.step(condition, inverse) == MomentStep::Singular,
{
}

/// Velocities and values in the plane are fit exactly where all are finite.
pub proof fn law_planar_values(values: Seq<Vector2>)
    ensures
        first_fault(planar_velocity_faults(values), values.len() as int) is None <==> forall|i: int|
            0 <= i < values.len() ==> (#[trigger] values[i]).x.finite() && values[i].y.finite(),
        first_fault(vector_value_faults(values), values.len() as int) is None <==> forall|i: int|
            0 <= i < values.len() ==> (#[trigger] values[i]).x.finite() && values[i].y.finite(),
{
    let velocities = planar_velocity_faults(values);
    let others = vector_value_faults(values);
    law_first_fault_is_the_earliest(velocities, values.len() as int);
    law_first_fault_is_the_earliest(others, values.len() as int);
    if first_fault(velocities, values.len() as int) is None {
        assert forall|i: int| 0 <= i < values.len() implies (#[trigger] values[i]).x.finite()
            && values[i].y.finite() by {
            assert(velocities(i) is None);
        }
    }
    if first_fault(others, values.len() as int) is None {
        assert forall|i: int| 0 <= i < values.len() implies (#[trigger] values[i]).x.finite()
            && values[i].y.finite() by {
            assert(others(i) is None);
        }
    }
}

/// A number of a density estimate is refused exactly where it is not finite.
pub proof fn law_density_values(
    index: usize,
    field: &'static str,
    value: Binary64,
)
    ensures
        density_fault(index, field, value) is None <==> {
            &&& value.finite()
        },
        ({
            &&& !(value.finite())
        }) ==> density_fault(index, field, value) == Some(
            HydroError::NonFiniteDensityEstimate { index, field, value },
        ),
{
}

/// A planar result is refused exactly where it is not usable.
pub proof fn law_planar_results(
    index: usize,
    field: &'static str,
    value: Binary64,
    usable: bool,
)
    ensures
        result_fault(index, field, value, usable) is None <==> {
            &&& usable
        },
        ({
            &&& !(usable)
        }) ==> result_fault(index, field, value, usable) == Some(
            GeometryError::NonFiniteResult { index, field, value },
        ),
{
}

/// A planar velocity or vector value is refused exactly where it is not finite, under its own
/// name and index.
pub proof fn law_refused_vectors(values: Seq<Vector2>, i: int)
    requires
        0 <= i < values.len(),
        values.len() <= usize::MAX,
    ensures
        planar_velocity_faults(values)(i) is None <==> values[i].x.finite() && values[i].y.finite(),
        vector_value_faults(values)(i) is None <==> values[i].x.finite() && values[i].y.finite(),
        !values[i].x.finite() || !values[i].y.finite() ==> planar_velocity_faults(values)(i)
            == Some(
            GeometryError::NonFiniteResult {
                index: i as usize,
                field: "velocity",
                value: Binary64 { bits: NAN_BITS },
            },
        ),
        !values[i].x.finite() || !values[i].y.finite() ==> vector_value_faults(values)(i) == Some(
            GeometryError::InvalidPoint {
                index: Some(i as usize),
                field: "vector_value",
                value: Binary64 { bits: NAN_BITS },
            },
        ),
{
}

} // verus!
