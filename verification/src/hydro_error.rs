//! Errors of the one-dimensional hydrodynamic operators.

use vstd::prelude::*;

use crate::binary64::Binary64;
use crate::message::MessagePart;

verus! {

/// Invalid input to, or a failed computation of, a hydrodynamic operator.
#[derive(Clone, Copy, Debug, PartialEq)]
pub enum HydroError {
    InvalidKernelInput { radius: Binary64, hsml: Binary64 },
    NonFiniteKernelResult { radius: Binary64, hsml: Binary64 },
    InvalidPeriodicInput { a: Binary64, b: Binary64, box_size: Binary64 },
    InvalidBoxSize(Binary64),
    MismatchedLength { field: &'static str, expected: usize, actual: usize },
    InvalidParticle { index: usize, field: &'static str, value: Binary64 },
    InvalidNeighborConstraint { desired: Binary64, tolerance: Binary64 },
    DegenerateTreeDomain { minimum: Binary64, maximum: Binary64 },
    InvalidGradientTolerance(Binary64),
    SmoothingLengthDidNotConverge {
        index: usize,
        lower: Option<Binary64>,
        upper: Option<Binary64>,
        effective_neighbors: Binary64,
    },
    NonFiniteDensityEstimate { index: usize, field: &'static str, value: Binary64 },
    SingularGradientMoment { index: usize, moment: Binary64 },
    NonFiniteGradient { index: usize, field: &'static str, value: Binary64 },
    InvalidFaceInput { side: &'static str, field: &'static str, value: Binary64 },
    InvalidFacePair { distance: Binary64, hsml_i: Binary64, hsml_j: Binary64 },
    NonFiniteFaceGeometry { signed_area: Binary64, volume_i: Binary64, volume_j: Binary64 },
    InvalidReconstructionInput { field: &'static str, value: Binary64 },
    NonFiniteReconstruction { left: Binary64, right: Binary64 },
    InvalidRiemannState { side: &'static str, field: &'static str, value: Binary64 },
    InvalidRiemannParameter { field: &'static str, value: Binary64 },
    NonFiniteRiemannResult { field: &'static str, value: Binary64 },
    ExactRiemannSolverRequired { star_pressure: Binary64, pressure_limit: Binary64 },
    ExactRiemannSolverDidNotConverge { iterations: u32, pressure: Binary64 },
}

impl HydroError {
    /// The wording of the error.
    pub open spec fn wording(self) -> Seq<MessagePart> {
        match self {
            HydroError::InvalidKernelInput { radius, hsml } => seq![
                MessagePart::Text("invalid kernel inputs radius="),
                MessagePart::Value(radius),
                MessagePart::Text(", hsml="),
                MessagePart::Value(hsml),
            ],
            HydroError::NonFiniteKernelResult { radius, hsml } => seq![
                MessagePart::Text("kernel result is non-finite for radius="),
                MessagePart::Value(radius),
                MessagePart::Text(", hsml="),
                MessagePart::Value(hsml),
            ],
            HydroError::InvalidPeriodicInput { a, b, box_size } => seq![
                MessagePart::Text("invalid periodic inputs a="),
                MessagePart::Value(a),
                MessagePart::Text(", b="),
                MessagePart::Value(b),
                MessagePart::Text(", box="),
                MessagePart::Value(box_size),
            ],
            HydroError::InvalidBoxSize(value) => seq![
                MessagePart::Text("invalid periodic box size "),
                MessagePart::Value(value),
            ],
            HydroError::MismatchedLength { field, expected, actual } => seq![
                MessagePart::Text(field),
                MessagePart::Text(" has length "),
                MessagePart::Count(actual),
                MessagePart::Text(", expected "),
                MessagePart::Count(expected),
            ],
            HydroError::InvalidParticle { index, field, value } => seq![
                MessagePart::Text("particle "),
                MessagePart::Count(index),
                MessagePart::Text(" has invalid "),
                MessagePart::Text(field),
                MessagePart::Text(" "),
                MessagePart::Value(value),
            ],
            HydroError::InvalidNeighborConstraint { desired, tolerance } => seq![
                MessagePart::Text("invalid neighbor constraint desired="),
                MessagePart::Value(desired),
                MessagePart::Text(", tolerance="),
                MessagePart::Value(tolerance),
            ],
            HydroError::DegenerateTreeDomain { minimum, maximum } => seq![
                MessagePart::Text("cannot build a tree for degenerate position extent "),
                MessagePart::Value(minimum),
                MessagePart::Text(".."),
                MessagePart::Value(maximum),
            ],
            HydroError::InvalidGradientTolerance(tolerance) => seq![
                MessagePart::Text("invalid gradient shoot tolerance "),
                MessagePart::Value(tolerance),
            ],
            HydroError::SmoothingLengthDidNotConverge {
                index,
                lower,
                upper,
                effective_neighbors,
            } => seq![
                MessagePart::Text("particle "),
                MessagePart::Count(index),
                MessagePart::Text(" did not converge on smoothing length: bounds="),
                MessagePart::OptionalValue(lower),
                MessagePart::Text(".."),
                MessagePart::OptionalValue(upper),
                MessagePart::Text(", effective neighbors="),
                MessagePart::Value(effective_neighbors),
            ],
            HydroError::NonFiniteDensityEstimate { index, field, value } => seq![
                MessagePart::Text("particle "),
                MessagePart::Count(index),
                MessagePart::Text(" produced non-finite density accumulator `"),
                MessagePart::Text(field),
                MessagePart::Text("`="),
                MessagePart::Value(value),
            ],
            HydroError::SingularGradientMoment { index, moment } => seq![
                MessagePart::Text("particle "),
                MessagePart::Count(index),
                MessagePart::Text(" has singular gradient moment "),
                MessagePart::Value(moment),
            ],
            HydroError::NonFiniteGradient { index, field, value } => seq![
                MessagePart::Text("particle "),
                MessagePart::Count(index),
                MessagePart::Text(" produced non-finite gradient `"),
                MessagePart::Text(field),
                MessagePart::Text("`="),
                MessagePart::Value(value),
            ],
            HydroError::InvalidFaceInput { side, field, value } => seq![
                MessagePart::Text("face particle "),
                MessagePart::Text(side),
                MessagePart::Text(" has invalid "),
                MessagePart::Text(field),
                MessagePart::Text(" "),
                MessagePart::Value(value),
            ],
            HydroError::InvalidFacePair { distance, hsml_i, hsml_j } => seq![
                MessagePart::Text("invalid face pair distance="),
                MessagePart::Value(distance),
                MessagePart::Text(", hsml_i="),
                MessagePart::Value(hsml_i),
                MessagePart::Text(", hsml_j="),
                MessagePart::Value(hsml_j),
            ],
            HydroError::NonFiniteFaceGeometry { signed_area, volume_i, volume_j } => seq![
                MessagePart::Text("invalid face geometry area="),
                MessagePart::Value(signed_area),
                MessagePart::Text(", volumes="),
                MessagePart::Value(volume_i),
                MessagePart::Text("/"),
                MessagePart::Value(volume_j),
            ],
            HydroError::InvalidReconstructionInput { field, value } => seq![
                MessagePart::Text("invalid reconstruction input "),
                MessagePart::Text(field),
                MessagePart::Text("="),
                MessagePart::Value(value),
            ],
            HydroError::NonFiniteReconstruction { left, right } => seq![
                MessagePart::Text("non-finite reconstructed states left="),
                MessagePart::Value(left),
                MessagePart::Text(", right="),
                MessagePart::Value(right),
            ],
            HydroError::InvalidRiemannState { side, field, value } => seq![
                MessagePart::Text("Riemann "),
                MessagePart::Text(side),
                MessagePart::Text(" state has invalid "),
                MessagePart::Text(field),
                MessagePart::Text(" "),
                MessagePart::Value(value),
            ],
            HydroError::InvalidRiemannParameter { field, value } => seq![
                MessagePart::Text("invalid Riemann parameter "),
                MessagePart::Text(field),
                MessagePart::Text("="),
                MessagePart::Value(value),
            ],
            HydroError::NonFiniteRiemannResult { field, value } => seq![
                MessagePart::Text("Riemann solver produced non-finite "),
                MessagePart::Text(field),
                MessagePart::Text("="),
                MessagePart::Value(value),
            ],
            HydroError::ExactRiemannSolverRequired { star_pressure, pressure_limit } => seq![
                MessagePart::Text("Riemann star pressure "),
                MessagePart::Value(star_pressure),
                MessagePart::Text(" is outside the accepted range (0, "),
                MessagePart::Value(pressure_limit),
                MessagePart::Text("]; exact Riemann solver is required"),
            ],
            HydroError::ExactRiemannSolverDidNotConverge { iterations, pressure } => seq![
                MessagePart::Text("exact Riemann solver did not converge after "),
                MessagePart::Count(iterations as usize),
                MessagePart::Text(" iterations; last pressure="),
                MessagePart::Value(pressure),
            ],
        }
    }

    /// The message of the error, part by part.
    pub fn message(&self) -> (result: Vec<MessagePart>)
        ensures
            result@ == self.wording(),
    {
        match *self {
            HydroError::InvalidKernelInput { radius, hsml } => vec![
                MessagePart::Text("invalid kernel inputs radius="),
                MessagePart::Value(radius),
                MessagePart::Text(", hsml="),
                MessagePart::Value(hsml),
            ],
            HydroError::NonFiniteKernelResult { radius, hsml } => vec![
                MessagePart::Text("kernel result is non-finite for radius="),
                MessagePart::Value(radius),
                MessagePart::Text(", hsml="),
                MessagePart::Value(hsml),
            ],
            HydroError::InvalidPeriodicInput { a, b, box_size } => vec![
                MessagePart::Text("invalid periodic inputs a="),
                MessagePart::Value(a),
                MessagePart::Text(", b="),
                MessagePart::Value(b),
                MessagePart::Text(", box="),
                MessagePart::Value(box_size),
            ],
            HydroError::InvalidBoxSize(value) => vec![
                MessagePart::Text("invalid periodic box size "),
                MessagePart::Value(value),
            ],
            HydroError::MismatchedLength { field, expected, actual } => vec![
                MessagePart::Text(field),
                MessagePart::Text(" has length "),
                MessagePart::Count(actual),
                MessagePart::Text(", expected "),
                MessagePart::Count(expected),
            ],
            HydroError::InvalidParticle { index, field, value } => vec![
                MessagePart::Text("particle "),
                MessagePart::Count(index),
                MessagePart::Text(" has invalid "),
                MessagePart::Text(field),
                MessagePart::Text(" "),
                MessagePart::Value(value),
            ],
            HydroError::InvalidNeighborConstraint { desired, tolerance } => vec![
                MessagePart::Text("invalid neighbor constraint desired="),
                MessagePart::Value(desired),
                MessagePart::Text(", tolerance="),
                MessagePart::Value(tolerance),
            ],
            HydroError::DegenerateTreeDomain { minimum, maximum } => vec![
                MessagePart::Text("cannot build a tree for degenerate position extent "),
                MessagePart::Value(minimum),
                MessagePart::Text(".."),
                MessagePart::Value(maximum),
            ],
            HydroError::InvalidGradientTolerance(tolerance) => vec![
                MessagePart::Text("invalid gradient shoot tolerance "),
                MessagePart::Value(tolerance),
            ],
            HydroError::SmoothingLengthDidNotConverge {
                index,
                lower,
                upper,
                effective_neighbors,
            } => vec![
                MessagePart::Text("particle "),
                MessagePart::Count(index),
                MessagePart::Text(" did not converge on smoothing length: bounds="),
                MessagePart::OptionalValue(lower),
                MessagePart::Text(".."),
                MessagePart::OptionalValue(upper),
                MessagePart::Text(", effective neighbors="),
                MessagePart::Value(effective_neighbors),
            ],
            HydroError::NonFiniteDensityEstimate { index, field, value } => vec![
                MessagePart::Text("particle "),
                MessagePart::Count(index),
                MessagePart::Text(" produced non-finite density accumulator `"),
                MessagePart::Text(field),
                MessagePart::Text("`="),
                MessagePart::Value(value),
            ],
            HydroError::SingularGradientMoment { index, moment } => vec![
                MessagePart::Text("particle "),
                MessagePart::Count(index),
                MessagePart::Text(" has singular gradient moment "),
                MessagePart::Value(moment),
            ],
            HydroError::NonFiniteGradient { index, field, value } => vec![
                MessagePart::Text("particle "),
                MessagePart::Count(index),
                MessagePart::Text(" produced non-finite gradient `"),
                MessagePart::Text(field),
                MessagePart::Text("`="),
                MessagePart::Value(value),
            ],
            HydroError::InvalidFaceInput { side, field, value } => vec![
                MessagePart::Text("face particle "),
                MessagePart::Text(side),
                MessagePart::Text(" has invalid "),
                MessagePart::Text(field),
                MessagePart::Text(" "),
                MessagePart::Value(value),
            ],
            HydroError::InvalidFacePair { distance, hsml_i, hsml_j } => vec![
                MessagePart::Text("invalid face pair distance="),
                MessagePart::Value(distance),
                MessagePart::Text(", hsml_i="),
                MessagePart::Value(hsml_i),
                MessagePart::Text(", hsml_j="),
                MessagePart::Value(hsml_j),
            ],
            HydroError::NonFiniteFaceGeometry { signed_area, volume_i, volume_j } => vec![
                MessagePart::Text("invalid face geometry area="),
                MessagePart::Value(signed_area),
                MessagePart::Text(", volumes="),
                MessagePart::Value(volume_i),
                MessagePart::Text("/"),
                MessagePart::Value(volume_j),
            ],
            HydroError::InvalidReconstructionInput { field, value } => vec![
                MessagePart::Text("invalid reconstruction input "),
                MessagePart::Text(field),
                MessagePart::Text("="),
                MessagePart::Value(value),
            ],
            HydroError::NonFiniteReconstruction { left, right } => vec![
                MessagePart::Text("non-finite reconstructed states left="),
                MessagePart::Value(left),
                MessagePart::Text(", right="),
                MessagePart::Value(right),
            ],
            HydroError::InvalidRiemannState { side, field, value } => vec![
                MessagePart::Text("Riemann "),
                MessagePart::Text(side),
                MessagePart::Text(" state has invalid "),
                MessagePart::Text(field),
                MessagePart::Text(" "),
                MessagePart::Value(value),
            ],
            HydroError::InvalidRiemannParameter { field, value } => vec![
                MessagePart::Text("invalid Riemann parameter "),
                MessagePart::Text(field),
                MessagePart::Text("="),
                MessagePart::Value(value),
            ],
            HydroError::NonFiniteRiemannResult { field, value } => vec![
                MessagePart::Text("Riemann solver produced non-finite "),
                MessagePart::Text(field),
                MessagePart::Text("="),
                MessagePart::Value(value),
            ],
            HydroError::ExactRiemannSolverRequired { star_pressure, pressure_limit } => vec![
                MessagePart::Text("Riemann star pressure "),
                MessagePart::Value(star_pressure),
                MessagePart::Text(" is outside the accepted range (0, "),
                MessagePart::Value(pressure_limit),
                MessagePart::Text("]; exact Riemann solver is required"),
            ],
            HydroError::ExactRiemannSolverDidNotConverge { iterations, pressure } => vec![
                MessagePart::Text("exact Riemann solver did not converge after "),
                MessagePart::Count(iterations as usize),
                MessagePart::Text(" iterations; last pressure="),
                MessagePart::Value(pressure),
            ],
        }
    }
}

/// A message holds every field of its error, each in its place.
pub proof fn law_messages_hold_the_fields(error: HydroError)
    ensures
        error matches HydroError::InvalidKernelInput { radius, hsml } ==> {
            &&& error.wording().len() == 4
            &&& error.wording()[1] == MessagePart::Value(radius)
            &&& error.wording()[3] == MessagePart::Value(hsml)
        },
        error matches HydroError::NonFiniteKernelResult { radius, hsml } ==> {
            &&& error.wording().len() == 4
            &&& error.wording()[1] == MessagePart::Value(radius)
            &&& error.wording()[3] == MessagePart::Value(hsml)
        },
        error matches HydroError::InvalidPeriodicInput { a, b, box_size } ==> {
            &&& error.wording().len() == 6
            &&& error.wording()[1] == MessagePart::Value(a)
            &&& error.wording()[3] == MessagePart::Value(b)
            &&& error.wording()[5] == MessagePart::Value(box_size)
        },
        error matches HydroError::InvalidBoxSize(value) ==> {
            &&& error.wording().len() == 2
            &&& error.wording()[1] == MessagePart::Value(value)
        },
        error matches HydroError::MismatchedLength { field, expected, actual } ==> {
            &&& error.wording().len() == 5
            &&& error.wording()[0] == MessagePart::Text(field)
            &&& error.wording()[2] == MessagePart::Count(actual)
            &&& error.wording()[4] == MessagePart::Count(expected)
        },
        error matches HydroError::InvalidParticle { index, field, value } ==> {
            &&& error.wording().len() == 6
            &&& error.wording()[1] == MessagePart::Count(index)
            &&& error.wording()[3] == MessagePart::Text(field)
            &&& error.wording()[5] == MessagePart::Value(value)
        },
        error matches HydroError::InvalidNeighborConstraint { desired, tolerance } ==> {
            &&& error.wording().len() == 4
            &&& error.wording()[1] == MessagePart::Value(desired)
            &&& error.wording()[3] == MessagePart::Value(tolerance)
        },
        error matches HydroError::DegenerateTreeDomain { minimum, maximum } ==> {
            &&& error.wording().len() == 4
            &&& error.wording()[1] == MessagePart::Value(minimum)
            &&& error.wording()[3] == MessagePart::Value(maximum)
        },
        error matches HydroError::InvalidGradientTolerance(tolerance) ==> {
            &&& error.wording().len() == 2
            &&& error.wording()[1] == MessagePart::Value(tolerance)
        },
        error matches HydroError::SmoothingLengthDidNotConverge {
            index,
            lower,
            upper,
            effective_neighbors,
        } ==> {
            &&& error.wording().len() == 8
            &&& error.wording()[1] == MessagePart::Count(index)
            &&& error.wording()[3] == MessagePart::OptionalValue(lower)
            &&& error.wording()[5] == MessagePart::OptionalValue(upper)
            &&& error.wording()[7] == MessagePart::Value(effective_neighbors)
        },
        error matches HydroError::NonFiniteDensityEstimate { index, field, value } ==> {
            &&& error.wording().len() == 6
            &&& error.wording()[1] == MessagePart::Count(index)
            &&& error.wording()[3] == MessagePart::Text(field)
            &&& error.wording()[5] == MessagePart::Value(value)
        },
        error matches HydroError::SingularGradientMoment { index, moment } ==> {
            &&& error.wording().len() == 4
            &&& error.wording()[1] == MessagePart::Count(index)
            &&& error.wording()[3] == MessagePart::Value(moment)
        },
        error matches HydroError::NonFiniteGradient { index, field, value } ==> {
            &&& error.wording().len() == 6
            &&& error.wording()[1] == MessagePart::Count(index)
            &&& error.wording()[3] == MessagePart::Text(field)
            &&& error.wording()[5] == MessagePart::Value(value)
        },
        error matches HydroError::InvalidFaceInput { side, field, value } ==> {
            &&& error.wording().len() == 6
            &&& error.wording()[1] == MessagePart::Text(side)
            &&& error.wording()[3] == MessagePart::Text(field)
            &&& error.wording()[5] == MessagePart::Value(value)
        },
        error matches HydroError::InvalidFacePair { distance, hsml_i, hsml_j } ==> {
            &&& error.wording().len() == 6
            &&& error.wording()[1] == MessagePart::Value(distance)
            &&& error.wording()[3] == MessagePart::Value(hsml_i)
            &&& error.wording()[5] == MessagePart::Value(hsml_j)
        },
        error matches HydroError::NonFiniteFaceGeometry { signed_area, volume_i, volume_j } ==> {
            &&& error.wording().len() == 6
            &&& error.wording()[1] == MessagePart::Value(signed_area)
            &&& error.wording()[3] == MessagePart::Value(volume_i)
            &&& error.wording()[5] == MessagePart::Value(volume_j)
        },
        error matches HydroError::InvalidReconstructionInput { field, value } ==> {
            &&& error.wording().len() == 4
            &&& error.wording()[1] == MessagePart::Text(field)
            &&& error.wording()[3] == MessagePart::Value(value)
        },
        error matches HydroError::NonFiniteReconstruction { left, right } ==> {
            &&& error.wording().len() == 4
            &&& error.wording()[1] == MessagePart::Value(left)
            &&& error.wording()[3] == MessagePart::Value(right)
        },
        error matches HydroError::InvalidRiemannState { side, field, value } ==> {
            &&& error.wording().len() == 6
            &&& error.wording()[1] == MessagePart::Text(side)
            &&& error.wording()[3] == MessagePart::Text(field)
            &&& error.wording()[5] == MessagePart::Value(value)
        },
        error matches HydroError::InvalidRiemannParameter { field, value } ==> {
            &&& error.wording().len() == 4
            &&& error.wording()[1] == MessagePart::Text(field)
            &&& error.wording()[3] == MessagePart::Value(value)
        },
        error matches HydroError::NonFiniteRiemannResult { field, value } ==> {
            &&& error.wording().len() == 4
            &&& error.wording()[1] == MessagePart::Text(field)
            &&& error.wording()[3] == MessagePart::Value(value)
        },
        error matches HydroError::ExactRiemannSolverRequired { star_pressure, pressure_limit } ==> {
            &&& error.wording().len() == 5
            &&& error.wording()[1] == MessagePart::Value(star_pressure)
            &&& error.wording()[3] == MessagePart::Value(pressure_limit)
        },
        error matches HydroError::ExactRiemannSolverDidNotConverge { iterations, pressure } ==> {
            &&& error.wording().len() == 4
            &&& error.wording()[1] == MessagePart::Count(iterations as usize)
            &&& error.wording()[3] == MessagePart::Value(pressure)
        },
{
}

/// Between the fields the message of an error always reads the same.
pub proof fn law_messages_are_fixed(error: HydroError, other: HydroError)
    ensures
        error is InvalidKernelInput && other is InvalidKernelInput ==> {
            &&& error.wording()[0] == other.wording()[0]
            &&& error.wording()[2] == other.wording()[2]
        },
        error is NonFiniteKernelResult && other is NonFiniteKernelResult ==> {
            &&& error.wording()[0] == other.wording()[0]
            &&& error.wording()[2] == other.wording()[2]
        },
        error is InvalidPeriodicInput && other is InvalidPeriodicInput ==> {
            &&& error.wording()[0] == other.wording()[0]
            &&& error.wording()[2] == other.wording()[2]
            &&& error.wording()[4] == other.wording()[4]
        },
        error is InvalidBoxSize && other is InvalidBoxSize
            ==> error.wording()[0] == other.wording()[0],
        error is MismatchedLength && other is MismatchedLength ==> {
            &&& error.wording()[1] == other.wording()[1]
            &&& error.wording()[3] == other.wording()[3]
        },
        error is InvalidParticle && other is InvalidParticle ==> {
            &&& error.wording()[0] == other.wording()[0]
            &&& error.wording()[2] == other.wording()[2]
            &&& error.wording()[4] == other.wording()[4]
        },
        error is InvalidNeighborConstraint && other is InvalidNeighborConstraint ==> {
            &&& error.wording()[0] == other.wording()[0]
            &&& error.wording()[2] == other.wording()[2]
        },
        error is DegenerateTreeDomain && other is DegenerateTreeDomain ==> {
            &&& error.wording()[0] == other.wording()[0]
            &&& error.wording()[2] == other.wording()[2]
        },
        error is InvalidGradientTolerance && other is InvalidGradientTolerance
            ==> error.wording()[0] == other.wording()[0],
        error is SmoothingLengthDidNotConverge && other is SmoothingLengthDidNotConverge ==> {
            &&& error.wording()[0] == other.wording()[0]
            &&& error.wording()[2] == other.wording()[2]
            &&& error.wording()[4] == other.wording()[4]
            &&& error.wording()[6] == other.wording()[6]
        },
        error is NonFiniteDensityEstimate && other is NonFiniteDensityEstimate ==> {
            &&& error.wording()[0] == other.wording()[0]
            &&& error.wording()[2] == other.wording()[2]
            &&& error.wording()[4] == other.wording()[4]
        },
        error is SingularGradientMoment && other is SingularGradientMoment ==> {
            &&& error.wording()[0] == other.wording()[0]
            &&& error.wording()[2] == other.wording()[2]
        },
        error is NonFiniteGradient && other is NonFiniteGradient ==> {
            &&& error.wording()[0] == other.wording()[0]
            &&& error.wording()[2] == other.wording()[2]
            &&& error.wording()[4] == other.wording()[4]
        },
        error is InvalidFaceInput && other is InvalidFaceInput ==> {
            &&& error.wording()[0] == other.wording()[0]
            &&& error.wording()[2] == other.wording()[2]
            &&& error.wording()[4] == other.wording()[4]
        },
        error is InvalidFacePair && other is InvalidFacePair ==> {
            &&& error.wording()[0] == other.wording()[0]
            &&& error.wording()[2] == other.wording()[2]
            &&& error.wording()[4] == other.wording()[4]
        },
        error is NonFiniteFaceGeometry && other is NonFiniteFaceGeometry ==> {
            &&& error.wording()[0] == other.wording()[0]
            &&& error.wording()[2] == other.wording()[2]
            &&& error.wording()[4] == other.wording()[4]
        },
        error is InvalidReconstructionInput && other is InvalidReconstructionInput ==> {
            &&& error.wording()[0] == other.wording()[0]
            &&& error.wording()[2] == other.wording()[2]
        },
        error is NonFiniteReconstruction && other is NonFiniteReconstruction ==> {
            &&& error.wording()[0] == other.wording()[0]
            &&& error.wording()[2] == other.wording()[2]
        },
        error is InvalidRiemannState && other is InvalidRiemannState ==> {
            &&& error.wording()[0] == other.wording()[0]
            &&& error.wording()[2] == other.wording()[2]
            &&& error.wording()[4] == other.wording()[4]
        },
        error is InvalidRiemannParameter && other is InvalidRiemannParameter ==> {
            &&& error.wording()[0] == other.wording()[0]
            &&& error.wording()[2] == other.wording()[2]
        },
        error is NonFiniteRiemannResult && other is NonFiniteRiemannResult ==> {
            &&& error.wording()[0] == other.wording()[0]
            &&& error.wording()[2] == other.wording()[2]
        },
        error is ExactRiemannSolverRequired && other is ExactRiemannSolverRequired ==> {
            &&& error.wording()[0] == other.wording()[0]
            &&& error.wording()[2] == other.wording()[2]
            &&& error.wording()[4] == other.wording()[4]
        },
        error is ExactRiemannSolverDidNotConverge && other is ExactRiemannSolverDidNotConverge ==> {
            &&& error.wording()[0] == other.wording()[0]
            &&& error.wording()[2] == other.wording()[2]
        },
{
}

} // verus!
