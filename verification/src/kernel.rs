//! Domain and pieces of the compact cubic spline.

use vstd::prelude::*;

use crate::binary64::Binary64;
use crate::hydro_error::HydroError;
use crate::meshless_2d::GeometryError;

verus! {

use crate::fault::outcome;

use crate::binary64::{HALF_BITS, ONE_BITS};

/// The piece of the cubic spline that applies at a scaled radius.
#[derive(Clone, Copy, Debug, PartialEq, Eq, Structural)]
pub enum KernelPiece {
    /// Below one half.
    Core,
    /// From one half to the support.
    Tail,
    /// At the support or beyond, where the kernel vanishes.
    Outside,
}

/// Whether the kernel is defined: a finite radius that is not negative and a positive
/// support.
pub open spec fn kernel_defined(radius: Binary64, hsml: Binary64) -> bool {
    radius.nonnegative() && hsml.positive()
}

/// Check the inputs of the one-dimensional kernel.
pub fn validate_kernel_input_1d(radius: Binary64, hsml: Binary64) -> (result: Result<
    (),
    HydroError,
>)
    ensures
        result is Ok <==> kernel_defined(radius, hsml),
        result matches Err(error) ==> error == (HydroError::InvalidKernelInput { radius, hsml }),
        result is Ok <==> (Binary64 { bits: 0 }).le(radius) && radius.finite() && (Binary64 {
            bits: 0,
        }).lt(hsml) && hsml.finite(),
{
    if radius.is_nonnegative() && hsml.is_positive() {
        Ok(())
    } else {
        Err(HydroError::InvalidKernelInput { radius, hsml })
    }
}

/// Check the inputs of the two-dimensional kernel.
pub fn validate_kernel_input_2d(radius: Binary64, hsml: Binary64) -> (result: Result<
    (),
    GeometryError,
>)
    ensures
        result is Ok <==> kernel_defined(radius, hsml),
        result matches Err(error) ==> error == (GeometryError::InvalidKernelInput { radius, hsml }),
        result is Ok <==> (Binary64 { bits: 0 }).le(radius) && radius.finite() && (Binary64 {
            bits: 0,
        }).lt(hsml) && hsml.finite(),
{
    if radius.is_nonnegative() && hsml.is_positive() {
        Ok(())
    } else {
        Err(GeometryError::InvalidKernelInput { radius, hsml })
    }
}

/// The piece of the spline at `radius / hsml`.
pub open spec fn piece_at(scaled: Binary64) -> KernelPiece {
    if (Binary64 { bits: ONE_BITS }).le(scaled) {
        KernelPiece::Outside
    } else if scaled.lt(Binary64 { bits: HALF_BITS }) {
        KernelPiece::Core
    } else {
        KernelPiece::Tail
    }
}

/// Check a one-dimensional kernel value.
pub fn validate_kernel_value_1d(
    radius: Binary64,
    hsml: Binary64,
    weight: Binary64,
    radial_derivative: Binary64,
) -> (result: Result<(), HydroError>)
    ensures
        result == outcome(
            if weight.finite() && radial_derivative.finite() {
                None
            } else {
                Some(HydroError::NonFiniteKernelResult { radius, hsml })
            },
        ),
        result is Ok <==> weight.finite() && radial_derivative.finite(),
{
    if weight.is_finite() && radial_derivative.is_finite() {
        Ok(())
    } else {
        Err(HydroError::NonFiniteKernelResult { radius, hsml })
    }
}

/// Check a planar kernel value.
pub fn validate_kernel_value_2d(
    radius: Binary64,
    hsml: Binary64,
    weight: Binary64,
    radial_derivative: Binary64,
) -> (result: Result<(), GeometryError>)
    ensures
        result == outcome(
            if weight.finite() && radial_derivative.finite() {
                None
            } else {
                Some(GeometryError::NonFiniteKernelResult { radius, hsml })
            },
        ),
        result is Ok <==> weight.finite() && radial_derivative.finite(),
{
    if weight.is_finite() && radial_derivative.is_finite() {
        Ok(())
    } else {
        Err(GeometryError::NonFiniteKernelResult { radius, hsml })
    }
}

/// Choose the piece of the spline at a scaled radius.
pub fn kernel_piece(scaled: Binary64) -> (result: KernelPiece)
    ensures
        result == piece_at(scaled),
{
    let one: Binary64 = Binary64 { bits: ONE_BITS };
    let half: Binary64 = Binary64 { bits: HALF_BITS };
    if one.at_most(scaled) {
        KernelPiece::Outside
    } else if scaled.less(half) {
        KernelPiece::Core
    } else {
        KernelPiece::Tail
    }
}

/// The pieces follow one another outward: from the core over the tail to the outside.
pub proof fn law_pieces_follow_outward(inner: Binary64, outer: Binary64)
    requires
        inner.le(outer),
    ensures
        piece_at(inner) == KernelPiece::Outside ==> piece_at(outer) == KernelPiece::Outside,
        piece_at(outer) == KernelPiece::Core ==> piece_at(inner) == KernelPiece::Core,
{
}

/// The kernel is defined for every distance and every positive support.
pub proof fn law_kernel_arguments(radius: Binary64, hsml: Binary64)
    ensures
        kernel_defined(radius, hsml) <==> (Binary64 { bits: 0 }).le(radius) && radius.finite() && (
        Binary64 { bits: 0 }).lt(hsml) && hsml.finite(),
{
}

/// The core of the spline reaches up to half the support, its tail up to the support, and
/// beyond it there is nothing.
pub proof fn law_pieces(scaled: Binary64)
    requires
        !scaled.nan(),
    ensures
        piece_at(scaled) == KernelPiece::Core <==> scaled.lt(Binary64 { bits: HALF_BITS }),
        piece_at(scaled) == KernelPiece::Tail <==> (Binary64 { bits: HALF_BITS }).le(scaled)
            && scaled.lt(Binary64 { bits: ONE_BITS }),
        piece_at(scaled) == KernelPiece::Outside <==> (Binary64 { bits: ONE_BITS }).le(scaled),
{
}

} // verus!
