//! Trigonometric primitives from an outside fixed-point library.
//!
//! The cone geometry needs the arc-cosine of a clamped dot product and the
//! sine of an interpolation angle. Both come from the `cordic` crate on
//! 64-bit fixed-point numbers with 32 fractional bits — the same
//! representation as the library's `Real` — so the wrappers only move bits
//! between the two types. Each result is a pure function of its argument,
//! named here by an uninterpreted spec function; every range or clamping
//! fact the callers rely on is established in verified code around these
//! calls, never assumed of them.

use vstd::prelude::*;

verus! {

/// The value `cordic::acos` returns for the given fixed-point input bits.
pub uninterp spec fn acos_of(x: int) -> int;

/// The value `cordic::sin` returns for the given fixed-point input bits.
pub uninterp spec fn sin_of(x: int) -> int;

/// Relies on `cordic::acos` over 32.32 fixed point: the result depends on
/// the input bits alone. Inputs are kept in `[0, 1]`, the function's domain,
/// where its internal iteration cannot overflow.
#[verifier::external_body]
pub(crate) fn acos_fixed(x: i64) -> (r: i64)
    requires
        0 <= x <= crate::math::SCALE,
    ensures
        r as int == acos_of(x as int),
{
    cordic::acos(fixed::types::I32F32::from_bits(x)).to_bits()
}

/// Relies on `cordic::sin` over 32.32 fixed point: the result depends on
/// the input bits alone. Inputs are kept in `[0, pi]`, where the function's
/// argument reduction and iteration cannot overflow.
#[verifier::external_body]
pub(crate) fn sin_fixed(x: i64) -> (r: i64)
    requires
        0 <= x <= crate::math::PI,
    ensures
        r as int == sin_of(x as int),
{
    cordic::sin(fixed::types::I32F32::from_bits(x)).to_bits()
}

} // verus!
