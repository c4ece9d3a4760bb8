//! Orientation of planar faces for the magnetized Riemann problem.

use vstd::prelude::*;

use crate::binary64::Binary64;
use crate::message::MessagePart;
use crate::mhd::MhdError;

verus! {

use crate::binary64::law_negation;

/// Errors of the planar interface of the Riemann solver.
#[derive(Clone, Copy, Debug, PartialEq)]
pub enum Mhd2dError {
    InvalidNormal { normal_x: Binary64, normal_y: Binary64 },
    Riemann(MhdError),
}

impl Mhd2dError {
    /// The wording of the error.
    pub open spec fn wording(self) -> Seq<MessagePart> {
        match self {
            Mhd2dError::InvalidNormal { normal_x, normal_y } => seq![
                MessagePart::Text("invalid planar face normal ("),
                MessagePart::Value(normal_x),
                MessagePart::Text(", "),
                MessagePart::Value(normal_y),
                MessagePart::Text(")"),
            ],
            Mhd2dError::Riemann(error) => error.wording(),
        }
    }

    /// The message of the error, part by part.
    pub fn message(&self) -> (result: Vec<MessagePart>)
        ensures
            result@ == self.wording(),
    {
        match *self {
            Mhd2dError::InvalidNormal { normal_x, normal_y } => vec![
                MessagePart::Text("invalid planar face normal ("),
                MessagePart::Value(normal_x),
                MessagePart::Text(", "),
                MessagePart::Value(normal_y),
                MessagePart::Text(")"),
            ],
            Mhd2dError::Riemann(error) => error.message(),
        }
    }
}

impl From<MhdError> for Mhd2dError {
    fn from(error: MhdError) -> (result: Self) {
        Mhd2dError::Riemann(error)
    }
}

impl vstd::std_specs::convert::FromSpecImpl<MhdError> for Mhd2dError {
    open spec fn obeys_from_spec() -> bool {
        true
    }

    open spec fn from_spec(error: MhdError) -> Self {
        Mhd2dError::Riemann(error)
    }
}

/// An orthonormal basis of the plane that belongs to a face normal.
#[derive(Clone, Copy, Debug, PartialEq, Eq, Structural)]
pub struct PlanarBasis {
    normal_x: Binary64,
    normal_y: Binary64,
}

/// Whether a vector can serve as a face normal.
pub open spec fn valid_normal(normal_x: Binary64, normal_y: Binary64, norm: Binary64) -> bool {
    normal_x.finite() && normal_y.finite() && norm.finite() && norm.rank() != 0
}

impl PlanarBasis {
    /// The components of the normal.
    pub closed spec fn components(self) -> (Binary64, Binary64) {
        (self.normal_x, self.normal_y)
    }

    /// The components of the tangent: the normal after a quarter turn.
    pub open spec fn turned(self) -> (Binary64, Binary64) {
        (self.components().1.negated(), self.components().0)
    }

    /// A basis from a vector, its length and its quotients by the length.
    pub fn from_normal(
        normal_x: Binary64,
        normal_y: Binary64,
        norm: Binary64,
        unit_x: Binary64,
        unit_y: Binary64,
    ) -> (result: Result<Self, Mhd2dError>)
        ensures
            match result {
                Ok(basis) => valid_normal(normal_x, normal_y, norm) && basis.components() == (
                    unit_x,
                    unit_y,
                ),
                Err(error) => !valid_normal(normal_x, normal_y, norm) && error
                    == (Mhd2dError::InvalidNormal { normal_x, normal_y }),
            },
            result is Ok ==> normal_x.finite() && normal_y.finite() && norm.finite() && !norm.same(
                Binary64 { bits: 0 },
            ),
    {
        let zero: Binary64 = Binary64 { bits: 0 };
        if !normal_x.is_finite() || !normal_y.is_finite() || !norm.is_finite() || norm.equals(
            zero,
        ) {
            return Err(Mhd2dError::InvalidNormal { normal_x, normal_y });
        }
        Ok(PlanarBasis { normal_x: unit_x, normal_y: unit_y })
    }

    /// The normal.
    pub fn normal(self) -> (result: [Binary64; 2])
        ensures
            result@ == seq![self.components().0, self.components().1],
    {
        [self.normal_x, self.normal_y]
    }

    /// The tangent.
    pub fn tangent(self) -> (result: [Binary64; 2])
        ensures
            result@ == seq![self.turned().0, self.turned().1],
    {
        [self.normal_y.neg(), self.normal_x]
    }
}

/// Two quarter turns reverse the normal, and the sizes of its components only change places
/// on the way.
pub proof fn law_quarter_turns(basis: PlanarBasis, next: PlanarBasis)
    requires
        next.components() == basis.turned(),
    ensures
        next.turned() == (basis.components().0.negated(), basis.components().1.negated()),
        next.components().0.magnitude() == basis.components().1.magnitude(),
        next.components().1.magnitude() == basis.components().0.magnitude(),
{
    law_negation(basis.components().0);
    law_negation(basis.components().1);
}

/// A vector can be a face normal exactly where it is finite and does not vanish.
pub proof fn law_face_normals(normal_x: Binary64, normal_y: Binary64, norm: Binary64)
    ensures
        valid_normal(normal_x, normal_y, norm) <==> {
            &&& normal_x.finite() && normal_y.finite()
            &&& norm.finite() && !norm.same(Binary64 { bits: 0 })
        },
{
}

/// The tangent is the normal turned by a quarter to the left: a normal along the first axis
/// has its tangent along the second.
pub proof fn law_tangents(basis: PlanarBasis)
    ensures
        basis.turned().1 == basis.components().0,
        basis.turned().0.rank() == -basis.components().1.rank(),
        basis.turned().0.magnitude() == basis.components().1.magnitude(),
{
}

/// A message holds every field of its error, each in its place.
pub proof fn law_messages_hold_the_fields(error: Mhd2dError)
    ensures
        error matches Mhd2dError::InvalidNormal { normal_x, normal_y } ==> {
            &&& error.wording().len() == 5
            &&& error.wording()[1] == MessagePart::Value(normal_x)
            &&& error.wording()[3] == MessagePart::Value(normal_y)
        },
        error matches Mhd2dError::Riemann(inner) ==> error.wording() == inner.wording(),
{
}

/// Between the fields the message of an error always reads the same.
pub proof fn law_messages_are_fixed(error: Mhd2dError, other: Mhd2dError)
    ensures
        error is InvalidNormal && other is InvalidNormal ==> {
            &&& error.wording()[0] == other.wording()[0]
            &&& error.wording()[2] == other.wording()[2]
            &&& error.wording()[4] == other.wording()[4]
        },
{
}

} // verus!
