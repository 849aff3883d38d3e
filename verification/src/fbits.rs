//! An exact model of the IEEE 754 binary64 values that weights are made of,
//! stated over their bit patterns.
//!
//! A binary64 value is held in a `u64`: bit 63 is the sign, bits 62..52 the
//! exponent, bits 51..0 the significand.  Everything the selector needs from
//! floating point — magnitude (absolute value), the test against zero, the
//! ordered comparison `<` — is a function of the bit pattern alone and is
//! defined and verified here as plain integer logic.  Only addition, whose
//! rounding takes more than a few lines to state, is named and performed by an
//! outside soft-float implementation (see [`add_bits`]).

use vstd::prelude::*;
use rustc_apfloat::Float;

verus! {

/// Bit pattern of +0.0.
pub const POS_ZERO: u64 = 0;

/// Bit pattern of -0.0: the sign bit alone.
pub const NEG_ZERO: u64 = 0x8000_0000_0000_0000;

/// Magnitude bits of an infinity: exponent all ones, significand zero.
/// Magnitudes above this are NaNs; magnitudes below it are finite.
pub const INF_MAG: u64 = 0x7FF0_0000_0000_0000;

/// The magnitude of a value: its bit pattern with the sign bit cleared.
/// This is exactly what `abs` returns for a binary64 value, NaNs included.
pub open spec fn mag(b: u64) -> u64 {
    b % 0x8000_0000_0000_0000
}

/// Whether the sign bit is set.
pub open spec fn is_neg(b: u64) -> bool {
    b >= 0x8000_0000_0000_0000
}

/// A NaN: exponent all ones and a non-zero significand, of either sign.
pub open spec fn is_nan_bits(b: u64) -> bool {
    mag(b) > INF_MAG
}

/// A finite value (neither a NaN nor an infinity), of either sign.
pub open spec fn is_finite_bits(b: u64) -> bool {
    mag(b) < INF_MAG
}

/// Whether the value equals 0.0; true of both +0.0 and -0.0.
pub open spec fn is_zero_bits(b: u64) -> bool {
    mag(b) == 0
}

/// The place of a value on the number line, as an integer that orders bit
/// patterns exactly as `<` orders the values they denote: negative values
/// by descending magnitude, then both zeros at 0, then positive values by
/// ascending magnitude.  NaNs are given a place too, but [`flt`] never
/// compares them.
pub open spec fn key(b: u64) -> int {
    if is_neg(b) {
        -(mag(b) as int)
    } else {
        mag(b) as int
    }
}

/// The ordered comparison `<` on binary64 values: false whenever either side
/// is a NaN, and otherwise the order of the values, with -0.0 equal to +0.0.
pub open spec fn flt(a: u64, b: u64) -> bool {
    !is_nan_bits(a) && !is_nan_bits(b) && key(a) < key(b)
}

/// The bit pattern that binary64 addition, as [`add_bits`] performs it,
/// produces for the given operand bit patterns.
pub uninterp spec fn sum_bits(a: u64, b: u64) -> u64;

/// The magnitude of a value, executable: `abs` on bit patterns.
pub fn abs_bits(b: u64) -> (r: u64)
    ensures
        r == mag(b),
{
    b % 0x8000_0000_0000_0000
}

/// Whether the bit pattern denotes a NaN, executable.
pub fn nan_bits(b: u64) -> (r: bool)
    ensures
        r == is_nan_bits(b),
{
    b % 0x8000_0000_0000_0000 > INF_MAG
}

/// Whether the value equals 0.0, executable.
pub fn zero_bits(b: u64) -> (r: bool)
    ensures
        r == is_zero_bits(b),
{
    b % 0x8000_0000_0000_0000 == 0
}

/// The comparison `<` on binary64 values, executable on bit patterns.
pub fn lt_bits(a: u64, b: u64) -> (r: bool)
    ensures
        r == flt(a, b),
{
    let ma: u64 = a % 0x8000_0000_0000_0000;
    let mb: u64 = b % 0x8000_0000_0000_0000;
    if ma > INF_MAG || mb > INF_MAG {
        false
    } else {
        let na = a >= 0x8000_0000_0000_0000;
        let nb = b >= 0x8000_0000_0000_0000;
        if na && nb {
            mb < ma
        } else if na {
            ma > 0 || mb > 0
        } else if nb {
            false
        } else {
            ma < mb
        }
    }
}

/// Binary64 addition on bit patterns.
///
/// Relies on `rustc_apfloat::ieee::Double`: `add_r` with round to nearest,
/// ties to even, is IEEE 754 binary64 addition, a pure function of the two
/// operand bit patterns.  It agrees with hardware addition on every operand
/// pair, except that where the sum is a NaN the standard leaves the NaN's
/// payload open; which NaN stands for such a sum never shows in which value
/// a draw selects.  The second clause is the identity IEEE 754 gives for a
/// +0.0 left operand: the exact sum is the right operand itself, which every
/// rounding returns unchanged (for a -0.0 right operand the sum is +0.0
/// under this rounding, so that case is left out).  The third clause is the
/// sign rule: two operands with clear sign bits — non-negative values, or
/// NaNs, which pass their sign through — sum to a result with a clear sign
/// bit.
#[verifier::external_body]
pub(crate) fn add_bits(a: u64, b: u64) -> (r: u64)
    ensures
        r == sum_bits(a, b),
        a == POS_ZERO && !is_nan_bits(b) && b != NEG_ZERO ==> r == b,
        !is_neg(a) && !is_neg(b) ==> !is_neg(r),
{
    let x = rustc_apfloat::ieee::Double::from_bits(a as u128);
    let y = rustc_apfloat::ieee::Double::from_bits(b as u128);
    let s = x.add_r(y, rustc_apfloat::Round::NearestTiesToEven).value;
    s.to_bits() as u64
}

} // verus!
