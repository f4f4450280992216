//! IEEE-754 binary64 arithmetic on raw bit patterns.
//!
//! A number is a `u64` holding the bit pattern of a binary64 value.  The
//! rounding arithmetic operations are performed by the `rustc_apfloat`
//! software implementation of IEEE-754, which computes on bit patterns and is
//! deterministic: each operation is named here by an uninterpreted spec
//! function of the operand patterns, and a trusted wrapper ties the call to
//! its name.  Absolute value and negation act on the sign bit alone, so they
//! are defined directly and verified.

use vstd::prelude::*;
use rustc_apfloat::Float;
use rustc_apfloat::ieee::Double;

verus! {

/// Bit pattern of positive zero.
pub const ZERO_BITS: u64 = 0x0000000000000000;
/// Bit pattern of one.
pub const ONE_BITS: u64 = 0x3ff0000000000000;
/// Bit pattern of minus one.
pub const NEG_ONE_BITS: u64 = 0xbff0000000000000;
/// Bit pattern of two.
pub const TWO_BITS: u64 = 0x4000000000000000;
/// Bit pattern of one half.
pub const HALF_BITS: u64 = 0x3fe0000000000000;
/// Bit pattern of the machine epsilon of binary64, two to the minus fifty-two.
pub const EPSILON_BITS: u64 = 0x3cb0000000000000;

/// What binary64 addition, rounded to nearest even, makes of two patterns.
pub uninterp spec fn add_bits(a: u64, b: u64) -> u64;

/// What binary64 subtraction, rounded to nearest even, makes of two patterns.
pub uninterp spec fn sub_bits(a: u64, b: u64) -> u64;

/// What binary64 multiplication, rounded to nearest even, makes of two patterns.
pub uninterp spec fn mul_bits(a: u64, b: u64) -> u64;

/// What binary64 division, rounded to nearest even, makes of two patterns.
pub uninterp spec fn div_bits(a: u64, b: u64) -> u64;

/// Whether the value of `a` is ordered strictly below the value of `b`.
pub uninterp spec fn lt_bits(a: u64, b: u64) -> bool;

/// Whether the value of `a` is ordered below or equal to the value of `b`.
pub uninterp spec fn le_bits(a: u64, b: u64) -> bool;

/// Strictly greater: IEEE-754 comparison is antisymmetric, `a` compares
/// greater than `b` exactly when `b` compares less than `a`.
pub open spec fn gt_bits(a: u64, b: u64) -> bool {
    lt_bits(b, a)
}

/// Greater or equal, by the same antisymmetry.
pub open spec fn ge_bits(a: u64, b: u64) -> bool {
    le_bits(b, a)
}

/// The absolute value of a binary64 number clears the sign bit and changes
/// nothing else, whatever the value (zeroes, infinities and NaNs included).
pub open spec fn abs_bits(a: u64) -> u64 {
    a & 0x7fff_ffff_ffff_ffff
}

/// The negation of a binary64 number flips the sign bit and changes nothing
/// else, whatever the value.
pub open spec fn neg_bits(a: u64) -> u64 {
    a ^ 0x8000_0000_0000_0000
}

/// Relies on rustc_apfloat's IEEE binary64 addition (`Float::add_r`, round to
/// nearest ties to even): the result depends on the operand patterns alone.
#[verifier::external_body]
pub fn fadd(a: u64, b: u64) -> (r: u64)
    ensures
        r == add_bits(a, b),
{
    (Double::from_bits(a as u128) + Double::from_bits(b as u128)).value.to_bits() as u64
}

/// Relies on rustc_apfloat's IEEE binary64 subtraction (`Float::sub_r`, round
/// to nearest ties to even): the result depends on the operand patterns alone.
#[verifier::external_body]
pub fn fsub(a: u64, b: u64) -> (r: u64)
    ensures
        r == sub_bits(a, b),
{
    (Double::from_bits(a as u128) - Double::from_bits(b as u128)).value.to_bits() as u64
}

/// Relies on rustc_apfloat's IEEE binary64 multiplication (`Float::mul_r`,
/// round to nearest ties to even): the result depends on the operand patterns
/// alone.
#[verifier::external_body]
pub fn fmul(a: u64, b: u64) -> (r: u64)
    ensures
        r == mul_bits(a, b),
{
    (Double::from_bits(a as u128) * Double::from_bits(b as u128)).value.to_bits() as u64
}

/// Relies on rustc_apfloat's IEEE binary64 division (`Float::div_r`, round to
/// nearest ties to even): the result depends on the operand patterns alone.
#[verifier::external_body]
pub fn fdiv(a: u64, b: u64) -> (r: u64)
    ensures
        r == div_bits(a, b),
{
    (Double::from_bits(a as u128) / Double::from_bits(b as u128)).value.to_bits() as u64
}

/// Relies on rustc_apfloat's `PartialOrd` for IEEE binary64: strict ordered
/// less-than, false whenever either operand is a NaN.
#[verifier::external_body]
pub fn flt(a: u64, b: u64) -> (r: bool)
    ensures
        r == lt_bits(a, b),
{
    Double::from_bits(a as u128) < Double::from_bits(b as u128)
}

/// Relies on rustc_apfloat's `PartialOrd` for IEEE binary64: ordered
/// less-or-equal, false whenever either operand is a NaN.
#[verifier::external_body]
pub fn fle(a: u64, b: u64) -> (r: bool)
    ensures
        r == le_bits(a, b),
{
    Double::from_bits(a as u128) <= Double::from_bits(b as u128)
}

/// Strict ordered greater-than, written through `flt` with the operands
/// exchanged.
pub fn fgt(a: u64, b: u64) -> (r: bool)
    ensures
        r == gt_bits(a, b),
{
    flt(b, a)
}

/// Ordered greater-or-equal, written through `fle` with the operands
/// exchanged.
pub fn fge(a: u64, b: u64) -> (r: bool)
    ensures
        r == ge_bits(a, b),
{
    fle(b, a)
}

/// Absolute value: clear the sign bit.
pub fn fabs(a: u64) -> (r: u64)
    ensures
        r == abs_bits(a),
{
    a & 0x7fff_ffff_ffff_ffff
}

/// Negation: flip the sign bit.
pub fn fneg(a: u64) -> (r: u64)
    ensures
        r == neg_bits(a),
{
    a ^ 0x8000_0000_0000_0000
}

} // verus!
