//! Two-dimensional rectangular-periodic meshless geometry.

use vstd::prelude::*;

use crate::binary64::Binary64;
use crate::message::MessagePart;

verus! {

use crate::binary64::{NAN_BITS, ONE_BITS};

/// A Cartesian vector in the simulated plane.
#[derive(Clone, Copy, Debug, PartialEq, Eq, Structural)]
pub struct Vector2 {
    pub x: Binary64,
    pub y: Binary64,
}

impl Vector2 {
    /// Both components finite.
    pub open spec fn finite(self) -> bool {
        self.x.finite() && self.y.finite()
    }

    /// A vector from its components.
    pub fn new(x: Binary64, y: Binary64) -> (result: Self)
        ensures
            result.x == x,
            result.y == y,
    {
        Vector2 { x, y }
    }

    /// Whether both components are finite.
    pub fn is_finite(self) -> (result: bool)
        ensures
            result == self.finite(),
    {
        self.x.is_finite() && self.y.is_finite()
    }
}

/// A row-major two-dimensional matrix.
#[derive(Clone, Copy, Debug, PartialEq, Eq, Structural)]
pub struct Matrix2 {
    pub xx: Binary64,
    pub xy: Binary64,
    pub yx: Binary64,
    pub yy: Binary64,
}

impl Matrix2 {
    /// All entries finite.
    pub open spec fn finite(self) -> bool {
        self.xx.finite() && self.xy.finite() && self.yx.finite() && self.yy.finite()
    }

    /// A matrix from its entries.
    pub fn new(xx: Binary64, xy: Binary64, yx: Binary64, yy: Binary64) -> (result: Self)
        ensures
            result == (Matrix2 { xx, xy, yx, yy }),
    {
        Matrix2 { xx, xy, yx, yy }
    }

    /// Whether all entries are finite.
    pub fn is_finite(self) -> (result: bool)
        ensures
            result == self.finite(),
    {
        self.xx.is_finite() && self.xy.is_finite() && self.yx.is_finite() && self.yy.is_finite()
    }

    /// The matrix with its off-diagonal entries exchanged.
    pub open spec fn transposed(self) -> Matrix2 {
        Matrix2 { xx: self.xx, xy: self.yx, yx: self.xy, yy: self.yy }
    }

    /// The transposed matrix.
    pub fn transpose(self) -> (result: Self)
        ensures
            result == self.transposed(),
    {
        Matrix2 { xx: self.xx, xy: self.yx, yx: self.xy, yy: self.yy }
    }
}

/// Transposing twice gives the matrix back.
pub proof fn law_transpose_is_an_involution(matrix: Matrix2)
    ensures
        matrix.transposed().transposed() == matrix,
{
}

/// Errors of the two-dimensional geometry.
#[allow(inconsistent_fields)]
#[derive(Clone, Copy, Debug, PartialEq)]
pub enum GeometryError {
    InvalidBoxLength { axis: &'static str, value: Binary64 },
    InvalidPoint { index: Option<usize>, field: &'static str, value: Binary64 },
    InvalidKernelInput { radius: Binary64, hsml: Binary64 },
    NonFiniteKernelResult { radius: Binary64, hsml: Binary64 },
    InvalidSearchRadius(Binary64),
    MismatchedLength { field: &'static str, expected: usize, actual: usize },
    InvalidNeighborConstraint { desired: Binary64, tolerance: Binary64 },
    SmoothingLengthDidNotConverge {
        index: usize,
        lower: Option<Binary64>,
        upper: Option<Binary64>,
        effective_neighbors: Binary64,
    },
    SingularMoment { index: usize, xx: Binary64, xy: Binary64, yy: Binary64 },
    NonFiniteResult { index: usize, field: &'static str, value: Binary64 },
    InvalidFaceInput { side: &'static str, field: &'static str, value: Binary64 },
    InvalidFacePair { distance: Binary64, hsml_i: Binary64, hsml_j: Binary64 },
    NonFiniteFaceGeometry { area_vector: Vector2, volume_i: Binary64, volume_j: Binary64 },
}

impl GeometryError {
    /// The wording of the error.
    pub open spec fn wording(self) -> Seq<MessagePart> {
        match self {
            GeometryError::InvalidBoxLength { axis, value } => seq![
                MessagePart::Text("invalid 2-D box "),
                MessagePart::Text(axis),
                MessagePart::Text(" length "),
                MessagePart::Value(value),
            ],
            GeometryError::InvalidPoint { index, field, value } => seq![
                MessagePart::Text("invalid "),
                MessagePart::Text(field),
                MessagePart::Text("="),
                MessagePart::Value(value),
                MessagePart::Text(" at particle "),
                MessagePart::OptionalCount(index),
            ],
            GeometryError::InvalidKernelInput { radius, hsml } => seq![
                MessagePart::Text("invalid 2-D kernel radius="),
                MessagePart::Value(radius),
                MessagePart::Text(", hsml="),
                MessagePart::Value(hsml),
            ],
            GeometryError::NonFiniteKernelResult { radius, hsml } => seq![
                MessagePart::Text("non-finite 2-D kernel result for radius="),
                MessagePart::Value(radius),
                MessagePart::Text(", hsml="),
                MessagePart::Value(hsml),
            ],
            GeometryError::InvalidSearchRadius(value) => seq![
                MessagePart::Text("invalid 2-D neighbor search radius "),
                MessagePart::Value(value),
            ],
            GeometryError::MismatchedLength { field, expected, actual } => seq![
                MessagePart::Text(field),
                MessagePart::Text(" has length "),
                MessagePart::Count(actual),
                MessagePart::Text(", expected particle count "),
                MessagePart::Count(expected),
            ],
            GeometryError::InvalidNeighborConstraint { desired, tolerance } => seq![
                MessagePart::Text("invalid 2-D neighbor constraint desired="),
                MessagePart::Value(desired),
                MessagePart::Text(", tolerance="),
                MessagePart::Value(tolerance),
            ],
            GeometryError::SmoothingLengthDidNotConverge {
                index,
                lower,
                upper,
                effective_neighbors,
            } => seq![
                MessagePart::Text("particle "),
                MessagePart::Count(index),
                MessagePart::Text(" did not converge on 2-D smoothing length: bounds="),
                MessagePart::OptionalValue(lower),
                MessagePart::Text(".."),
                MessagePart::OptionalValue(upper),
                MessagePart::Text(", effective neighbors="),
                MessagePart::Value(effective_neighbors),
            ],
            GeometryError::SingularMoment { index, xx, xy, yy } => seq![
                MessagePart::Text("singular 2-D MLS moment at particle "),
                MessagePart::Count(index),
                MessagePart::Text(": ["),
                MessagePart::Value(xx),
                MessagePart::Text(", "),
                MessagePart::Value(xy),
                MessagePart::Text("; "),
                MessagePart::Value(xy),
                MessagePart::Text(", "),
                MessagePart::Value(yy),
                MessagePart::Text("]"),
            ],
            GeometryError::NonFiniteResult { index, field, value } => seq![
                MessagePart::Text("non-finite 2-D geometry result "),
                MessagePart::Text(field),
                MessagePart::Text("="),
                MessagePart::Value(value),
                MessagePart::Text(" at particle "),
                MessagePart::Count(index),
            ],
            GeometryError::InvalidFaceInput { side, field, value } => seq![
                MessagePart::Text("invalid 2-D face input "),
                MessagePart::Text(side),
                MessagePart::Text("."),
                MessagePart::Text(field),
                MessagePart::Text("="),
                MessagePart::Value(value),
            ],
            GeometryError::InvalidFacePair { distance, hsml_i, hsml_j } => seq![
                MessagePart::Text("invalid 2-D face pair r="),
                MessagePart::Value(distance),
                MessagePart::Text(", H_i="),
                MessagePart::Value(hsml_i),
                MessagePart::Text(", H_j="),
                MessagePart::Value(hsml_j),
            ],
            GeometryError::NonFiniteFaceGeometry { area_vector, volume_i, volume_j } => seq![
                MessagePart::Text("invalid 2-D face A="),
                MessagePart::Vector(area_vector),
                MessagePart::Text(", V_i="),
                MessagePart::Value(volume_i),
                MessagePart::Text(", V_j="),
                MessagePart::Value(volume_j),
            ],
        }
    }

    /// The message of the error, part by part.
    pub fn message(&self) -> (result: Vec<MessagePart>)
        ensures
            result@ == self.wording(),
    {
        match *self {
            GeometryError::InvalidBoxLength { axis, value } => vec![
                MessagePart::Text("invalid 2-D box "),
                MessagePart::Text(axis),
                MessagePart::Text(" length "),
                MessagePart::Value(value),
            ],
            GeometryError::InvalidPoint { index, field, value } => vec![
                MessagePart::Text("invalid "),
                MessagePart::Text(field),
                MessagePart::Text("="),
                MessagePart::Value(value),
                MessagePart::Text(" at particle "),
                MessagePart::OptionalCount(index),
            ],
            GeometryError::InvalidKernelInput { radius, hsml } => vec![
                MessagePart::Text("invalid 2-D kernel radius="),
                MessagePart::Value(radius),
                MessagePart::Text(", hsml="),
                MessagePart::Value(hsml),
            ],
            GeometryError::NonFiniteKernelResult { radius, hsml } => vec![
                MessagePart::Text("non-finite 2-D kernel result for radius="),
                MessagePart::Value(radius),
                MessagePart::Text(", hsml="),
                MessagePart::Value(hsml),
            ],
            GeometryError::InvalidSearchRadius(value) => vec![
                MessagePart::Text("invalid 2-D neighbor search radius "),
                MessagePart::Value(value),
            ],
            GeometryError::MismatchedLength { field, expected, actual } => vec![
                MessagePart::Text(field),
                MessagePart::Text(" has length "),
                MessagePart::Count(actual),
                MessagePart::Text(", expected particle count "),
                MessagePart::Count(expected),
            ],
            GeometryError::InvalidNeighborConstraint { desired, tolerance } => vec![
                MessagePart::Text("invalid 2-D neighbor constraint desired="),
                MessagePart::Value(desired),
                MessagePart::Text(", tolerance="),
                MessagePart::Value(tolerance),
            ],
            GeometryError::SmoothingLengthDidNotConverge {
                index,
                lower,
                upper,
                effective_neighbors,
            } => vec![
                MessagePart::Text("particle "),
                MessagePart::Count(index),
                MessagePart::Text(" did not converge on 2-D smoothing length: bounds="),
                MessagePart::OptionalValue(lower),
                MessagePart::Text(".."),
                MessagePart::OptionalValue(upper),
                MessagePart::Text(", effective neighbors="),
                MessagePart::Value(effective_neighbors),
            ],
            GeometryError::SingularMoment { index, xx, xy, yy } => vec![
                MessagePart::Text("singular 2-D MLS moment at particle "),
                MessagePart::Count(index),
                MessagePart::Text(": ["),
                MessagePart::Value(xx),
                MessagePart::Text(", "),
                MessagePart::Value(xy),
                MessagePart::Text("; "),
                MessagePart::Value(xy),
                MessagePart::Text(", "),
                MessagePart::Value(yy),
                MessagePart::Text("]"),
            ],
            GeometryError::NonFiniteResult { index, field, value } => vec![
                MessagePart::Text("non-finite 2-D geometry result "),
                MessagePart::Text(field),
                MessagePart::Text("="),
                MessagePart::Value(value),
                MessagePart::Text(" at particle "),
                MessagePart::Count(index),
            ],
            GeometryError::InvalidFaceInput { side, field, value } => vec![
                MessagePart::Text("invalid 2-D face input "),
                MessagePart::Text(side),
                MessagePart::Text("."),
                MessagePart::Text(field),
                MessagePart::Text("="),
                MessagePart::Value(value),
            ],
            GeometryError::InvalidFacePair { distance, hsml_i, hsml_j } => vec![
                MessagePart::Text("invalid 2-D face pair r="),
                MessagePart::Value(distance),
                MessagePart::Text(", H_i="),
                MessagePart::Value(hsml_i),
                MessagePart::Text(", H_j="),
                MessagePart::Value(hsml_j),
            ],
            GeometryError::NonFiniteFaceGeometry { area_vector, volume_i, volume_j } => vec![
                MessagePart::Text("invalid 2-D face A="),
                MessagePart::Vector(area_vector),
                MessagePart::Text(", V_i="),
                MessagePart::Value(volume_i),
                MessagePart::Text(", V_j="),
                MessagePart::Value(volume_j),
            ],
        }
    }
}

/// The side lengths of a rectangular periodic domain.
#[derive(Clone, Copy, Debug, PartialEq, Eq, Structural)]
pub struct Box2d {
    lengths: Vector2,
}

/// The first component in which a point leaves the half-open domain, if it does.
pub open spec fn wrap_fault(
    point: Vector2,
    lengths: Vector2,
    index: Option<usize>,
) -> Option<GeometryError> {
    if !(point.x.nonnegative() && point.x.lt(lengths.x)) {
        Some(GeometryError::InvalidPoint { index, field: "position.x", value: point.x })
    } else if !(point.y.nonnegative() && point.y.lt(lengths.y)) {
        Some(GeometryError::InvalidPoint { index, field: "position.y", value: point.y })
    } else {
        None
    }
}

impl Box2d {
    /// The side lengths.
    pub closed spec fn sides(self) -> Vector2 {
        self.lengths
    }

    /// The invariant of every box: both sides are finite and positive.
    pub open spec fn wf(self) -> bool {
        self.sides().x.positive() && self.sides().y.positive()
    }

    /// Validate and construct a box.
    pub fn new(length_x: Binary64, length_y: Binary64) -> (result: Result<Self, GeometryError>)
        ensures
            match result {
                Ok(domain) => {
                    &&& length_x.positive() && length_y.positive()
                    &&& domain.wf()
                    &&& domain.sides() == (Vector2 { x: length_x, y: length_y })
                },
                Err(error) => if !length_x.positive() {
                    error == (GeometryError::InvalidBoxLength { axis: "x", value: length_x })
                } else {
                    &&& !length_y.positive()
                    &&& error == (GeometryError::InvalidBoxLength { axis: "y", value: length_y })
                },
            },
            result is Ok <==> length_x.finite() && length_y.finite() && (Binary64 { bits: 0 }).lt(
                length_x,
            ) && (Binary64 { bits: 0 }).lt(length_y),
    {
        if !length_x.is_positive() {
            return Err(GeometryError::InvalidBoxLength { axis: "x", value: length_x });
        }
        if !length_y.is_positive() {
            return Err(GeometryError::InvalidBoxLength { axis: "y", value: length_y });
        }
        Ok(Box2d { lengths: Vector2 { x: length_x, y: length_y } })
    }

    /// The side lengths.
    pub fn lengths(self) -> (result: Vector2)
        ensures
            result == self.sides(),
    {
        self.lengths
    }

    /// Whether a point lies in the half-open domain.
    pub fn contains(self, point: Vector2) -> (result: bool)
        ensures
            result == (wrap_fault(point, self.sides(), None) is None),
            result <==> (Binary64 { bits: 0 }).le(point.x) && point.x.lt(self.sides().x)
                && point.x.finite() && (Binary64 { bits: 0 }).le(point.y) && point.y.lt(self.sides().y)
                && point.y.finite(),
    {
        point.x.is_nonnegative() && point.x.less(self.lengths.x) && point.y.is_nonnegative()
            && point.y.less(self.lengths.y)
    }

    /// Wrap a finite point into the half-open domain. `remainder` holds the Euclidean
    /// remainders of its coordinates by the side lengths.
    pub fn wrap(self, point: Vector2, remainder: Vector2) -> (result: Result<
        Vector2,
        GeometryError,
    >)
        ensures
            match result {
                Ok(wrapped) => {
                    &&& point.finite()
                    &&& wrapped.x == wrapped_coordinate(remainder.x, self.sides().x)
                    &&& wrapped.y == wrapped_coordinate(remainder.y, self.sides().y)
                    &&& self.wf() && remainder.x.nonnegative() && remainder.y.nonnegative()
                        ==> wrap_fault(wrapped, self.sides(), None) is None
                },
                Err(error) => !point.finite() && error == (GeometryError::InvalidPoint {
                    index: None,
                    field: "position",
                    value: Binary64 { bits: NAN_BITS },
                }),
            },
            result is Ok <==> point.x.finite() && point.y.finite(),
    {
        if !point.is_finite() {
            return Err(
                GeometryError::InvalidPoint {
                    index: None,
                    field: "position",
                    value: Binary64 { bits: NAN_BITS },
                },
            );
        }
        let zero: Binary64 = Binary64 { bits: 0 };
        let x: Binary64 = if remainder.x.less(self.lengths.x) {
            remainder.x
        } else {
            zero
        };
        let y: Binary64 = if remainder.y.less(self.lengths.y) {
            remainder.y
        } else {
            zero
        };
        Ok(Vector2 { x, y })
    }

    /// Check that a point lies in the half-open domain.
    pub fn validate_wrapped(self, point: Vector2, index: Option<usize>) -> (result: Result<
        (),
        GeometryError,
    >)
        ensures
            match result {
                Ok(_) => wrap_fault(point, self.sides(), index) is None,
                Err(error) => wrap_fault(point, self.sides(), index) == Some(error),
            },
    {
        if !(point.x.is_nonnegative() && point.x.less(self.lengths.x)) {
            return Err(GeometryError::InvalidPoint { index, field: "position.x", value: point.x });
        }
        if !(point.y.is_nonnegative() && point.y.less(self.lengths.y)) {
            return Err(GeometryError::InvalidPoint { index, field: "position.y", value: point.y });
        }
        Ok(())
    }
}

/// The coordinate that a remainder of a side length stands for. A remainder that was rounded
/// up to the side length is the image of zero.
pub open spec fn wrapped_coordinate(remainder: Binary64, length: Binary64) -> Binary64 {
    if remainder.lt(length) {
        remainder
    } else {
        Binary64 { bits: 0 }
    }
}

/// The first particle outside the domain, if there is one.
pub open spec fn position_fault(
    positions: Seq<Vector2>,
    lengths: Vector2,
    i: int,
) -> Option<GeometryError> {
    wrap_fault(positions[i], lengths, Some(i as usize))
}

/// Check that all positions lie in the domain.
pub fn validate_positions(positions: &[Vector2], domain: Box2d) -> (result: Result<
    (),
    GeometryError,
>)
    ensures
        match result {
            Ok(_) => positions_valid(positions@, domain.sides()),
            Err(error) => first_position_fault(positions@, domain.sides(), error),
        },
        result is Ok ==> forall|k: int|
            0 <= k < positions@.len() ==> (#[trigger] positions@[k]).x.lt(domain.sides().x)
                && positions@[k].y.lt(domain.sides().y) && !positions@[k].x.lt(Binary64 { bits: 0 })
                && !positions@[k].y.lt(Binary64 { bits: 0 }),
{
    let mut index: usize = 0;
    while index < positions.len()
        invariant
            index <= positions@.len(),
            forall|k: int|
                0 <= k < index ==> (#[trigger] position_fault(positions@, domain.sides(), k))
                    is None,
        decreases positions@.len() - index,
    {
        match domain.validate_wrapped(positions[index], Some(index)) {
            Ok(_) => {},
            Err(error) => {
                assert(position_fault(positions@, domain.sides(), index as int) == Some(error));
                return Err(error);
            },
        }
        assert(position_fault(positions@, domain.sides(), index as int) is None);
        index = index + 1;
    }
    assert forall|k: int| 0 <= k < positions@.len() implies (#[trigger] positions@[k]).x.lt(
        domain.sides().x,
    ) && positions@[k].y.lt(domain.sides().y) && !positions@[k].x.lt(Binary64 { bits: 0 })
        && !positions@[k].y.lt(Binary64 { bits: 0 }) by {
        assert(position_fault(positions@, domain.sides(), k) is None);
    }
    Ok(())
}

/// Whether all positions lie in the domain.
pub open spec fn positions_valid(positions: Seq<Vector2>, lengths: Vector2) -> bool {
    forall|k: int|
        0 <= k < positions.len() ==> (#[trigger] position_fault(positions, lengths, k)) is None
}

/// Whether `error` reports the first position outside the domain.
pub open spec fn first_position_fault(
    positions: Seq<Vector2>,
    lengths: Vector2,
    error: GeometryError,
) -> bool {
    exists|i: int|
        0 <= i < positions.len() && #[trigger] position_fault(positions, lengths, i) == Some(error)
            && forall|k: int|
            0 <= k < i ==> (#[trigger] position_fault(positions, lengths, k)) is None
}

/// Whether all values of a column are finite and positive.
pub open spec fn column_positive(values: Seq<Binary64>) -> bool {
    forall|k: int| 0 <= k < values.len() ==> (#[trigger] values[k]).positive()
}

/// Whether `error` reports the first value of a column that is not positive.
pub open spec fn first_not_positive(
    values: Seq<Binary64>,
    field: &'static str,
    error: GeometryError,
) -> bool {
    exists|i: int|
        0 <= i < values.len() && !(#[trigger] values[i]).positive() && error
            == (GeometryError::InvalidPoint {
            index: Some(i as usize),
            field,
            value: values[i],
        }) && forall|k: int| 0 <= k < i ==> (#[trigger] values[k]).positive()
}

fn validate_positive_column(values: &[Binary64], field: &'static str) -> (result: Result<
    (),
    GeometryError,
>)
    ensures
        match result {
            Ok(_) => column_positive(values@),
            Err(error) => first_not_positive(values@, field, error),
        },
{
    let mut index: usize = 0;
    while index < values.len()
        invariant
            index <= values@.len(),
            forall|k: int| 0 <= k < index ==> (#[trigger] values@[k]).positive(),
        decreases values@.len() - index,
    {
        if !values[index].is_positive() {
            let error: GeometryError = GeometryError::InvalidPoint {
                index: Some(index),
                field,
                value: values[index],
            };
            assert(!values@[index as int].positive());
            return Err(error);
        }
        index = index + 1;
    }
    Ok(())
}

/// Whether positions and smoothing lengths are usable together.
pub open spec fn geometry_valid(
    positions: Seq<Vector2>,
    smoothing_lengths: Seq<Binary64>,
    lengths: Vector2,
) -> bool {
    &&& positions_valid(positions, lengths)
    &&& smoothing_lengths.len() == positions.len()
    &&& column_positive(smoothing_lengths)
}

/// The error of unusable positions or smoothing lengths: positions first, then the length
/// of the column, then its values.
pub open spec fn geometry_error(
    positions: Seq<Vector2>,
    smoothing_lengths: Seq<Binary64>,
    lengths: Vector2,
    error: GeometryError,
) -> bool {
    if !positions_valid(positions, lengths) {
        first_position_fault(positions, lengths, error)
    } else if smoothing_lengths.len() != positions.len() {
        error == (GeometryError::MismatchedLength {
            field: "smoothing_lengths",
            expected: positions.len() as usize,
            actual: smoothing_lengths.len() as usize,
        })
    } else {
        first_not_positive(smoothing_lengths, "smoothing_length", error)
    }
}

/// Check positions and smoothing lengths.
pub fn validate_geometry_columns(
    positions: &[Vector2],
    smoothing_lengths: &[Binary64],
    domain: Box2d,
) -> (result: Result<(), GeometryError>)
    ensures
        match result {
            Ok(_) => geometry_valid(positions@, smoothing_lengths@, domain.sides()),
            Err(error) => !geometry_valid(positions@, smoothing_lengths@, domain.sides())
                && geometry_error(positions@, smoothing_lengths@, domain.sides(), error),
        },
        result is Ok ==> smoothing_lengths@.len() == positions@.len() && forall|k: int|
            0 <= k < smoothing_lengths@.len() ==> (Binary64 { bits: 0 }).lt(
                #[trigger] smoothing_lengths@[k],
            ),
{
    if let Err(error) = validate_positions(positions, domain) {
        return Err(error);
    }
    if smoothing_lengths.len() != positions.len() {
        return Err(
            GeometryError::MismatchedLength {
                field: "smoothing_lengths",
                expected: positions.len(),
                actual: smoothing_lengths.len(),
            },
        );
    }
    validate_positive_column(smoothing_lengths, "smoothing_length")
}

/// Check positions, smoothing lengths and masses, in that order.
pub fn validate_particle_columns(
    positions: &[Vector2],
    masses: &[Binary64],
    smoothing_lengths: &[Binary64],
    domain: Box2d,
) -> (result: Result<(), GeometryError>)
    ensures
        match result {
            Ok(_) => {
                &&& geometry_valid(positions@, smoothing_lengths@, domain.sides())
                &&& masses@.len() == positions@.len()
                &&& column_positive(masses@)
            },
            Err(error) => if !geometry_valid(positions@, smoothing_lengths@, domain.sides()) {
                geometry_error(positions@, smoothing_lengths@, domain.sides(), error)
            } else if masses@.len() != positions@.len() {
                error == (GeometryError::MismatchedLength {
                    field: "masses",
                    expected: positions@.len() as usize,
                    actual: masses@.len() as usize,
                })
            } else {
                first_not_positive(masses@, "mass", error)
            },
        },
        result is Ok ==> masses@.len() == positions@.len() && forall|k: int|
            0 <= k < masses@.len() ==> (Binary64 { bits: 0 }).lt(#[trigger] masses@[k]),
{
    if let Err(error) = validate_geometry_columns(positions, smoothing_lengths, domain) {
        return Err(error);
    }
    if masses.len() != positions.len() {
        return Err(
            GeometryError::MismatchedLength {
                field: "masses",
                expected: positions.len(),
                actual: masses.len(),
            },
        );
    }
    validate_positive_column(masses, "mass")
}

/// Check that a column has the expected length and finite values.
pub fn validate_values(values: &[Binary64], expected: usize, field: &'static str) -> (result:
    Result<(), GeometryError>)
    ensures
        match result {
            Ok(_) => values@.len() == expected && forall|k: int|
                0 <= k < values@.len() ==> (#[trigger] values@[k]).finite(),
            Err(error) => if values@.len() != expected {
                error == (GeometryError::MismatchedLength {
                    field,
                    expected,
                    actual: values@.len() as usize,
                })
            } else {
                exists|i: int|
                    0 <= i < values@.len() && !(#[trigger] values@[i]).finite() && error
                        == (GeometryError::InvalidPoint {
                        index: Some(i as usize),
                        field,
                        value: values@[i],
                    }) && forall|k: int| 0 <= k < i ==> (#[trigger] values@[k]).finite()
            },
        },
        values@.len() != expected ==> result is Err,
{
    if values.len() != expected {
        return Err(GeometryError::MismatchedLength { field, expected, actual: values.len() });
    }
    let mut index: usize = 0;
    while index < values.len()
        invariant
            index <= values@.len(),
            values@.len() == expected,
            forall|k: int| 0 <= k < index ==> (#[trigger] values@[k]).finite(),
        decreases values@.len() - index,
    {
        if !values[index].is_finite() {
            assert(!values@[index as int].finite());
            return Err(
                GeometryError::InvalidPoint { index: Some(index), field, value: values[index] },
            );
        }
        index = index + 1;
    }
    Ok(())
}

/// Check a neighbor constraint: both numbers positive and the tolerance the smaller.
pub fn validate_neighbor_constraint(desired: Binary64, tolerance: Binary64) -> (result: Result<
    (),
    GeometryError,
>)
    ensures
        result is Ok <==> desired.positive() && tolerance.positive() && tolerance.lt(desired),
        result matches Err(error) ==> error == (GeometryError::InvalidNeighborConstraint {
            desired,
            tolerance,
        }),
        result is Ok ==> (Binary64 { bits: 0 }).lt(tolerance) && !desired.le(tolerance),
{
    if !desired.is_positive() || !tolerance.is_positive() || desired.at_most(tolerance) {
        return Err(GeometryError::InvalidNeighborConstraint { desired, tolerance });
    }
    Ok(())
}

/// Particle geometry of one side of a face.
#[derive(Clone, Copy, Debug, PartialEq, Eq, Structural)]
pub struct MeshlessPoint2d {
    pub position: Vector2,
    pub mass: Binary64,
    pub density: Binary64,
    pub smoothing_length: Binary64,
    pub inverse_moment: Matrix2,
    /// Spectral condition number of the moment.
    pub condition_number: Binary64,
}

/// Why a point cannot be a side of a face, if there is a reason.
pub open spec fn meshless_point_fault(
    side: &'static str,
    point: MeshlessPoint2d,
    lengths: Vector2,
) -> Option<GeometryError> {
    if wrap_fault(point.position, lengths, None) is Some {
        wrap_fault(point.position, lengths, None)
    } else if !point.mass.positive() {
        Some(GeometryError::InvalidFaceInput { side, field: "mass", value: point.mass })
    } else if !point.density.positive() {
        Some(GeometryError::InvalidFaceInput { side, field: "density", value: point.density })
    } else if !point.smoothing_length.positive() {
        Some(
            GeometryError::InvalidFaceInput {
                side,
                field: "smoothing_length",
                value: point.smoothing_length,
            },
        )
    } else if !point.inverse_moment.finite() {
        Some(
            GeometryError::InvalidFaceInput {
                side,
                field: "inverse_moment",
                value: Binary64 { bits: NAN_BITS },
            },
        )
    } else if !point.condition_number.finite() || point.condition_number.rank() < ONE_BITS {
        Some(
            GeometryError::InvalidFaceInput {
                side,
                field: "condition_number",
                value: point.condition_number,
            },
        )
    } else {
        None
    }
}

/// Check one side of a face.
pub fn validate_meshless_point(side: &'static str, point: MeshlessPoint2d, domain: Box2d) -> (result:
    Result<(), GeometryError>)
    ensures
        match result {
            Ok(_) => meshless_point_fault(side, point, domain.sides()) is None,
            Err(error) => meshless_point_fault(side, point, domain.sides()) == Some(error),
        },
{
    if let Err(error) = domain.validate_wrapped(point.position, None) {
        return Err(error);
    }
    if !point.mass.is_positive() {
        return Err(GeometryError::InvalidFaceInput { side, field: "mass", value: point.mass });
    }
    if !point.density.is_positive() {
        return Err(GeometryError::InvalidFaceInput { side, field: "density", value: point.density });
    }
    if !point.smoothing_length.is_positive() {
        return Err(
            GeometryError::InvalidFaceInput {
                side,
                field: "smoothing_length",
                value: point.smoothing_length,
            },
        );
    }
    if !point.inverse_moment.is_finite() {
        return Err(
            GeometryError::InvalidFaceInput {
                side,
                field: "inverse_moment",
                value: Binary64 { bits: NAN_BITS },
            },
        );
    }
    let one: Binary64 = Binary64 { bits: ONE_BITS };
    if !point.condition_number.is_finite() || point.condition_number.less(one) {
        return Err(
            GeometryError::InvalidFaceInput {
                side,
                field: "condition_number",
                value: point.condition_number,
            },
        );
    }
    Ok(())
}

/// How a face vector was obtained.
#[derive(Clone, Copy, Debug, PartialEq, Eq, Structural)]
pub enum FaceGeometryPath2d {
    /// The consistent moving-least-squares face.
    Mls,
    /// The radial fallback.
    RsphFallback,
}

/// Check that two points interact: apart from each other and within one of the supports.
pub fn validate_face_pair(distance: Binary64, hsml_i: Binary64, hsml_j: Binary64) -> (result:
    Result<(), GeometryError>)
    ensures
        result is Err <==> distance.le(Binary64 { bits: 0 }) || (hsml_i.le(distance) && hsml_j.le(
            distance,
        )),
        result matches Err(error) ==> error == (GeometryError::InvalidFacePair {
            distance,
            hsml_i,
            hsml_j,
        }),
        !distance.nan() && !hsml_i.nan() && !hsml_j.nan() ==> (result is Ok <==> (Binary64 {
            bits: 0,
        }).lt(distance) && (distance.lt(hsml_i) || distance.lt(hsml_j))),
{
    let zero: Binary64 = Binary64 { bits: 0 };
    if distance.at_most(zero) || (hsml_i.at_most(distance) && hsml_j.at_most(distance)) {
        return Err(GeometryError::InvalidFacePair { distance, hsml_i, hsml_j });
    }
    Ok(())
}

/// Choose between the least-squares face and the radial fallback: the fallback where the
/// summed squared condition numbers exceed their limit, or where the face would point away
/// from the displacement.
pub fn face_geometry_path(
    condition_sum: Binary64,
    condition_limit: Binary64,
    alignment: Binary64,
) -> (result: FaceGeometryPath2d)
    ensures
        result == FaceGeometryPath2d::RsphFallback <==> condition_limit.lt(condition_sum)
            || alignment.lt(Binary64 { bits: 0 }),
        condition_sum.le(condition_limit) && (Binary64 { bits: 0 }).le(alignment) ==> result
            != FaceGeometryPath2d::RsphFallback,
{
    let zero: Binary64 = Binary64 { bits: 0 };
    if condition_limit.less(condition_sum) || alignment.less(zero) {
        FaceGeometryPath2d::RsphFallback
    } else {
        FaceGeometryPath2d::Mls
    }
}

/// Check a computed face: everything finite and a positive area.
pub fn validate_face(
    volume_i: Binary64,
    volume_j: Binary64,
    weight_i: Binary64,
    weight_j: Binary64,
    area_vector: Vector2,
    area: Binary64,
) -> (result: Result<(), GeometryError>)
    ensures
        result is Ok <==> volume_i.finite() && volume_j.finite() && weight_i.finite()
            && weight_j.finite() && area_vector.finite() && area.positive(),
        result matches Err(error) ==> error == (GeometryError::NonFiniteFaceGeometry {
            area_vector,
            volume_i,
            volume_j,
        }),
        result is Ok ==> (Binary64 { bits: 0 }).lt(area),
{
    if !volume_i.is_finite() || !volume_j.is_finite() || !weight_i.is_finite()
        || !weight_j.is_finite() || !area_vector.is_finite() || !area.is_positive() {
        return Err(GeometryError::NonFiniteFaceGeometry { area_vector, volume_i, volume_j });
    }
    Ok(())
}

/// Check that a column belongs to the points one for one.
pub fn validate_count(field: &'static str, actual: usize, expected: usize) -> (result: Result<
    (),
    GeometryError,
>)
    ensures
        result is Ok <==> actual == expected,
        result matches Err(error) ==> error == (GeometryError::MismatchedLength {
            field,
            expected,
            actual,
        }),
{
    if actual == expected {
        Ok(())
    } else {
        Err(GeometryError::MismatchedLength { field, expected, actual })
    }
}

/// A point lies in the domain from zero up to, but without, the side lengths; the first
/// coordinate is looked at first.
pub proof fn law_points_in_the_domain(
    point: Vector2,
    lengths: Vector2,
    index: Option<usize>,
)
    ensures
        wrap_fault(point, lengths, index) is None <==> {
            &&& (Binary64 { bits: 0 }).le(point.x) && point.x.lt(lengths.x) && point.x.finite()
            &&& (Binary64 { bits: 0 }).le(point.y) && point.y.lt(lengths.y) && point.y.finite()
        },
        ({
            &&& !((Binary64 { bits: 0 }).le(point.x) && point.x.lt(lengths.x) && point.x.finite())
        }) ==> wrap_fault(point, lengths, index) == Some(
            GeometryError::InvalidPoint { index: index, field: "position.x", value: point.x },
        ),
        ({
            &&& (Binary64 { bits: 0 }).le(point.x) && point.x.lt(lengths.x) && point.x.finite()
            &&& !((Binary64 { bits: 0 }).le(point.y) && point.y.lt(lengths.y) && point.y.finite())
        }) ==> wrap_fault(point, lengths, index) == Some(
            GeometryError::InvalidPoint { index: index, field: "position.y", value: point.y },
        ),
{
}

/// One side of a planar face is refused exactly where it lies outside the domain, mass, density
/// or support is not positive, the inverse moment is not finite, or its condition number is
/// below one.
pub proof fn law_planar_face_points(
    side: &'static str,
    point: MeshlessPoint2d,
    lengths: Vector2,
)
    ensures
        meshless_point_fault(side, point, lengths) is None <==> {
            &&& wrap_fault(point.position, lengths, None) is None
            &&& (Binary64 { bits: 0 }).lt(point.mass) && point.mass.finite()
            &&& (Binary64 { bits: 0 }).lt(point.density) && point.density.finite()
            &&& (Binary64 { bits: 0 }).lt(point.smoothing_length) && point.smoothing_length.finite()
            &&& point.inverse_moment.xx.finite() && point.inverse_moment.xy.finite() && point.inverse_moment.yx.finite() && point.inverse_moment.yy.finite()
            &&& (Binary64 { bits: ONE_BITS }).le(point.condition_number) && point.condition_number.finite()
        },
        ({
            &&& wrap_fault(point.position, lengths, None) is None
            &&& !((Binary64 { bits: 0 }).lt(point.mass) && point.mass.finite())
        }) ==> meshless_point_fault(side, point, lengths) == Some(
            GeometryError::InvalidFaceInput { side, field: "mass", value: point.mass },
        ),
        ({
            &&& wrap_fault(point.position, lengths, None) is None
            &&& (Binary64 { bits: 0 }).lt(point.mass) && point.mass.finite()
            &&& !((Binary64 { bits: 0 }).lt(point.density) && point.density.finite())
        }) ==> meshless_point_fault(side, point, lengths) == Some(
            GeometryError::InvalidFaceInput { side, field: "density", value: point.density },
        ),
        ({
            &&& wrap_fault(point.position, lengths, None) is None
            &&& (Binary64 { bits: 0 }).lt(point.mass) && point.mass.finite()
            &&& (Binary64 { bits: 0 }).lt(point.density) && point.density.finite()
            &&& !((Binary64 { bits: 0 }).lt(point.smoothing_length) && point.smoothing_length.finite())
        }) ==> meshless_point_fault(side, point, lengths) == Some(
            GeometryError::InvalidFaceInput { side, field: "smoothing_length", value: point.smoothing_length },
        ),
        ({
            &&& wrap_fault(point.position, lengths, None) is None
            &&& (Binary64 { bits: 0 }).lt(point.mass) && point.mass.finite()
            &&& (Binary64 { bits: 0 }).lt(point.density) && point.density.finite()
            &&& (Binary64 { bits: 0 }).lt(point.smoothing_length) && point.smoothing_length.finite()
            &&& !(point.inverse_moment.xx.finite() && point.inverse_moment.xy.finite() && point.inverse_moment.yx.finite() && point.inverse_moment.yy.finite())
        }) ==> meshless_point_fault(side, point, lengths) == Some(
            GeometryError::InvalidFaceInput { side, field: "inverse_moment", value: Binary64 { bits: NAN_BITS } },
        ),
        ({
            &&& wrap_fault(point.position, lengths, None) is None
            &&& (Binary64 { bits: 0 }).lt(point.mass) && point.mass.finite()
            &&& (Binary64 { bits: 0 }).lt(point.density) && point.density.finite()
            &&& (Binary64 { bits: 0 }).lt(point.smoothing_length) && point.smoothing_length.finite()
            &&& point.inverse_moment.xx.finite() && point.inverse_moment.xy.finite() && point.inverse_moment.yx.finite() && point.inverse_moment.yy.finite()
            &&& !((Binary64 { bits: ONE_BITS }).le(point.condition_number) && point.condition_number.finite())
        }) ==> meshless_point_fault(side, point, lengths) == Some(
            GeometryError::InvalidFaceInput { side, field: "condition_number", value: point.condition_number },
        ),
{
}

/// A point outside the domain is reported as such before anything else of it.
pub proof fn law_planar_face_points_lie_in_the_domain(
    side: &'static str,
    point: MeshlessPoint2d,
    lengths: Vector2,
)
    requires
        wrap_fault(point.position, lengths, None) is Some,
    ensures
        meshless_point_fault(side, point, lengths) == wrap_fault(point.position, lengths, None),
{
}

/// Vectors and matrices are finite where all their entries are, and transposing exchanges the
/// entries off the diagonal.
pub proof fn law_planar_components(vector: Vector2, matrix: Matrix2)
    ensures
        vector.finite() <==> vector.x.finite() && vector.y.finite(),
        matrix.finite() <==> matrix.xx.finite() && matrix.xy.finite() && matrix.yx.finite()
            && matrix.yy.finite(),
        matrix.transposed().xx == matrix.xx && matrix.transposed().yy == matrix.yy,
        matrix.transposed().xy == matrix.yx && matrix.transposed().yx == matrix.xy,
{
}

/// A remainder below the side length is the wrapped coordinate; any other wraps to zero. What
/// is wrapped once stays.
pub proof fn law_wrapped_coordinates(remainder: Binary64, length: Binary64)
    requires
        length.positive(),
        remainder.nonnegative(),
    ensures
        remainder.lt(length) ==> wrapped_coordinate(remainder, length) == remainder,
        length.le(remainder) ==> wrapped_coordinate(remainder, length).same(Binary64 { bits: 0 }),
        wrapped_coordinate(remainder, length).lt(length),
        wrapped_coordinate(wrapped_coordinate(remainder, length), length) == wrapped_coordinate(
            remainder,
            length,
        ),
{
}

/// Positions and supports are fit exactly where every point lies in the domain, there is one
/// support for each, and every support is positive.
pub proof fn law_planar_geometry(
    positions: Seq<Vector2>,
    smoothing_lengths: Seq<Binary64>,
    lengths: Vector2,
)
    ensures
        geometry_valid(positions, smoothing_lengths, lengths) <==> {
            &&& smoothing_lengths.len() == positions.len()
            &&& forall|i: int|
                0 <= i < positions.len() ==> (Binary64 { bits: 0 }).le(
                    (#[trigger] positions[i]).x,
                ) && positions[i].x.lt(lengths.x) && positions[i].x.finite() && (Binary64 {
                    bits: 0,
                }).le(positions[i].y) && positions[i].y.lt(lengths.y) && positions[i].y.finite()
            &&& forall|i: int|
                0 <= i < smoothing_lengths.len() ==> (Binary64 { bits: 0 }).lt(
                    #[trigger] smoothing_lengths[i],
                ) && smoothing_lengths[i].finite()
        },
{
    if positions_valid(positions, lengths) {
        assert forall|i: int| 0 <= i < positions.len() implies (Binary64 { bits: 0 }).le(
            (#[trigger] positions[i]).x,
        ) && positions[i].x.lt(lengths.x) && positions[i].x.finite() && (Binary64 { bits: 0 }).le(
            positions[i].y,
        ) && positions[i].y.lt(lengths.y) && positions[i].y.finite() by {
            assert(position_fault(positions, lengths, i) is None);
        }
    }
    if column_positive(smoothing_lengths) {
        assert forall|i: int| 0 <= i < smoothing_lengths.len() implies (Binary64 { bits: 0 }).lt(
            #[trigger] smoothing_lengths[i],
        ) && smoothing_lengths[i].finite() by {
            assert(smoothing_lengths[i].positive());
        }
    }
}

/// Geometry that is not fit is reported by its first fault: a position before the number of
/// supports, and that before a support.
pub proof fn law_planar_geometry_errors(
    positions: Seq<Vector2>,
    smoothing_lengths: Seq<Binary64>,
    lengths: Vector2,
    error: GeometryError,
)
    requires
        geometry_error(positions, smoothing_lengths, lengths, error),
        !geometry_valid(positions, smoothing_lengths, lengths),
    ensures
        ({
            ||| exists|i: int|
                0 <= i < positions.len() && wrap_fault(
                    #[trigger] positions[i],
                    lengths,
                    Some(i as usize),
                ) == Some(error) && forall|k: int|
                    0 <= k < i ==> wrap_fault(#[trigger] positions[k], lengths, Some(k as usize))
                        is None
            ||| error == (GeometryError::MismatchedLength {
                field: "smoothing_lengths",
                expected: positions.len() as usize,
                actual: smoothing_lengths.len() as usize,
            }) && smoothing_lengths.len() != positions.len()
            ||| exists|i: int|
                0 <= i < smoothing_lengths.len() && !(#[trigger] smoothing_lengths[i]).positive()
                    && error == (GeometryError::InvalidPoint {
                    index: Some(i as usize),
                    field: "smoothing_length",
                    value: smoothing_lengths[i],
                })
        }),
{
    if !positions_valid(positions, lengths) {
        let i = choose|i: int|
            0 <= i < positions.len() && #[trigger] position_fault(positions, lengths, i) == Some(
                error,
            ) && forall|k: int|
                0 <= k < i ==> (#[trigger] position_fault(positions, lengths, k)) is None;
        assert(wrap_fault(positions[i], lengths, Some(i as usize)) == Some(error));
        assert forall|k: int| 0 <= k < i implies wrap_fault(
            #[trigger] positions[k],
            lengths,
            Some(k as usize),
        ) is None by {
            assert(position_fault(positions, lengths, k) is None);
        }
    }
}

/// A message holds every field of its error, each in its place.
pub proof fn law_messages_hold_the_fields(error: GeometryError)
    ensures
        error matches GeometryError::InvalidBoxLength { axis, value } ==> {
            &&& error.wording().len() == 4
            &&& error.wording()[1] == MessagePart::Text(axis)
            &&& error.wording()[3] == MessagePart::Value(value)
        },
        error matches GeometryError::InvalidPoint { index, field, value } ==> {
            &&& error.wording().len() == 6
            &&& error.wording()[1] == MessagePart::Text(field)
            &&& error.wording()[3] == MessagePart::Value(value)
            &&& error.wording()[5] == MessagePart::OptionalCount(index)
        },
        error matches GeometryError::InvalidKernelInput { radius, hsml } ==> {
            &&& error.wording().len() == 4
            &&& error.wording()[1] == MessagePart::Value(radius)
            &&& error.wording()[3] == MessagePart::Value(hsml)
        },
        error matches GeometryError::NonFiniteKernelResult { radius, hsml } ==> {
            &&& error.wording().len() == 4
            &&& error.wording()[1] == MessagePart::Value(radius)
            &&& error.wording()[3] == MessagePart::Value(hsml)
        },
        error matches GeometryError::InvalidSearchRadius(value) ==> {
            &&& error.wording().len() == 2
            &&& error.wording()[1] == MessagePart::Value(value)
        },
        error matches GeometryError::MismatchedLength { field, expected, actual } ==> {
            &&& error.wording().len() == 5
            &&& error.wording()[0] == MessagePart::Text(field)
            &&& error.wording()[2] == MessagePart::Count(actual)
            &&& error.wording()[4] == MessagePart::Count(expected)
        },
        error matches GeometryError::InvalidNeighborConstraint { desired, tolerance } ==> {
            &&& error.wording().len() == 4
            &&& error.wording()[1] == MessagePart::Value(desired)
            &&& error.wording()[3] == MessagePart::Value(tolerance)
        },
        error matches GeometryError::SmoothingLengthDidNotConverge {
            index,
            lower,
            upper,
            effective_neighbors,
        } ==> {
            &&& error.wording().len() == 8
            &&& error.wording()[1] == MessagePart::Count(index)
            &&& error.wording()[3] == MessagePart::OptionalValue(lower)
            &&& error.wording()[5] == MessagePart::OptionalValue(upper)
            &&& error.wording()[7] == MessagePart::Value(effective_neighbors)
        },
        error matches GeometryError::SingularMoment { index, xx, xy, yy } ==> {
            &&& error.wording().len() == 11
            &&& error.wording()[1] == MessagePart::Count(index)
            &&& error.wording()[3] == MessagePart::Value(xx)
            &&& error.wording()[5] == MessagePart::Value(xy)
            &&& error.wording()[7] == MessagePart::Value(xy)
            &&& error.wording()[9] == MessagePart::Value(yy)
        },
        error matches GeometryError::NonFiniteResult { index, field, value } ==> {
            &&& error.wording().len() == 6
            &&& error.wording()[1] == MessagePart::Text(field)
            &&& error.wording()[3] == MessagePart::Value(value)
            &&& error.wording()[5] == MessagePart::Count(index)
        },
        error matches GeometryError::InvalidFaceInput { side, field, value } ==> {
            &&& error.wording().len() == 6
            &&& error.wording()[1] == MessagePart::Text(side)
            &&& error.wording()[3] == MessagePart::Text(field)
            &&& error.wording()[5] == MessagePart::Value(value)
        },
        error matches GeometryError::InvalidFacePair { distance, hsml_i, hsml_j } ==> {
            &&& error.wording().len() == 6
            &&& error.wording()[1] == MessagePart::Value(distance)
            &&& error.wording()[3] == MessagePart::Value(hsml_i)
            &&& error.wording()[5] == MessagePart::Value(hsml_j)
        },
        error matches GeometryError::NonFiniteFaceGeometry { area_vector, volume_i, volume_j } ==> {
            &&& error.wording().len() == 6
            &&& error.wording()[1] == MessagePart::Vector(area_vector)
            &&& error.wording()[3] == MessagePart::Value(volume_i)
            &&& error.wording()[5] == MessagePart::Value(volume_j)
        },
{
}

/// Between the fields the message of an error always reads the same.
pub proof fn law_messages_are_fixed(error: GeometryError, other: GeometryError)
    ensures
        error is InvalidBoxLength && other is InvalidBoxLength ==> {
            &&& error.wording()[0] == other.wording()[0]
            &&& error.wording()[2] == other.wording()[2]
        },
        error is InvalidPoint && other is InvalidPoint ==> {
            &&& error.wording()[0] == other.wording()[0]
            &&& error.wording()[2] == other.wording()[2]
            &&& error.wording()[4] == other.wording()[4]
        },
        error is InvalidKernelInput && other is InvalidKernelInput ==> {
            &&& error.wording()[0] == other.wording()[0]
            &&& error.wording()[2] == other.wording()[2]
        },
        error is NonFiniteKernelResult && other is NonFiniteKernelResult ==> {
            &&& error.wording()[0] == other.wording()[0]
            &&& error.wording()[2] == other.wording()[2]
        },
        error is InvalidSearchRadius && other is InvalidSearchRadius
            ==> error.wording()[0] == other.wording()[0],
        error is MismatchedLength && other is MismatchedLength ==> {
            &&& error.wording()[1] == other.wording()[1]
            &&& error.wording()[3] == other.wording()[3]
        },
        error is InvalidNeighborConstraint && other is InvalidNeighborConstraint ==> {
            &&& error.wording()[0] == other.wording()[0]
            &&& error.wording()[2] == other.wording()[2]
        },
        error is SmoothingLengthDidNotConverge && other is SmoothingLengthDidNotConverge ==> {
            &&& error.wording()[0] == other.wording()[0]
            &&& error.wording()[2] == other.wording()[2]
            &&& error.wording()[4] == other.wording()[4]
            &&& error.wording()[6] == other.wording()[6]
        },
        error is SingularMoment && other is SingularMoment ==> {
            &&& error.wording()[0] == other.wording()[0]
            &&& error.wording()[2] == other.wording()[2]
            &&& error.wording()[4] == other.wording()[4]
            &&& error.wording()[6] == other.wording()[6]
            &&& error.wording()[8] == other.wording()[8]
            &&& error.wording()[10] == other.wording()[10]
        },
        error is NonFiniteResult && other is NonFiniteResult ==> {
            &&& error.wording()[0] == other.wording()[0]
            &&& error.wording()[2] == other.wording()[2]
            &&& error.wording()[4] == other.wording()[4]
        },
        error is InvalidFaceInput && other is InvalidFaceInput ==> {
            &&& error.wording()[0] == other.wording()[0]
            &&& error.wording()[2] == other.wording()[2]
            &&& error.wording()[4] == other.wording()[4]
        },
        error is InvalidFacePair && other is InvalidFacePair ==> {
            &&& error.wording()[0] == other.wording()[0]
            &&& error.wording()[2] == other.wording()[2]
            &&& error.wording()[4] == other.wording()[4]
        },
        error is NonFiniteFaceGeometry && other is NonFiniteFaceGeometry ==> {
            &&& error.wording()[0] == other.wording()[0]
            &&& error.wording()[2] == other.wording()[2]
            &&& error.wording()[4] == other.wording()[4]
        },
{
}

/// The reported position or value is the first unfit one, so each fault leaves only one error to
/// report; positions come before the length of the column, and that before its values.
pub proof fn law_geometry_errors(
    positions: Seq<Vector2>,
    smoothing_lengths: Seq<Binary64>,
    lengths: Vector2,
    error: GeometryError,
    i: int,
)
    requires
        geometry_error(positions, smoothing_lengths, lengths, error),
        positions.len() <= usize::MAX,
        smoothing_lengths.len() <= usize::MAX,
    ensures
        0 <= i < positions.len() && wrap_fault(positions[i], lengths, Some(i as usize)) is Some && (
        forall|k: int|
            0 <= k < i ==> wrap_fault(#[trigger] positions[k], lengths, Some(k as usize)) is None)
            ==> wrap_fault(positions[i], lengths, Some(i as usize)) == Some(error),
        positions_valid(positions, lengths) && smoothing_lengths.len() != positions.len() ==> error
            == (GeometryError::MismatchedLength {
            field: "smoothing_lengths",
            expected: positions.len() as usize,
            actual: smoothing_lengths.len() as usize,
        }),
        positions_valid(positions, lengths) && smoothing_lengths.len() == positions.len() && 0 <= i
            < smoothing_lengths.len() && !smoothing_lengths[i].positive() && (forall|k: int|
            0 <= k < i ==> (#[trigger] smoothing_lengths[k]).positive()) ==> error
            == (GeometryError::InvalidPoint {
            index: Some(i as usize),
            field: "smoothing_length",
            value: smoothing_lengths[i],
        }),
{
    if 0 <= i < positions.len() && wrap_fault(positions[i], lengths, Some(i as usize)) is Some && (
    forall|k: int|
        0 <= k < i ==> wrap_fault(#[trigger] positions[k], lengths, Some(k as usize)) is None) {
        assert(position_fault(positions, lengths, i) is Some);
        let j = choose|j: int|
            0 <= j < positions.len() && #[trigger] position_fault(positions, lengths, j) == Some(
                error,
            ) && forall|k: int|
                0 <= k < j ==> (#[trigger] position_fault(positions, lengths, k)) is None;
        assert(wrap_fault(positions[j], lengths, Some(j as usize)) is Some);
        assert(j == i);
    }
}

} // verus!
