//! Numbers as ordered integers.
//!
//! A number reaches this library as the 64 bits of a binary64 value: one sign
//! bit, then eleven exponent bits and fifty-two fraction bits, which
//! together, read as an integer, are the number's magnitude. Among the
//! patterns that stand for a number (all but those whose magnitude lies above
//! that of infinity), the numeric order is the order of the signed magnitudes,
//! and the two zeros are equal. `order_key` maps a pattern to an unsigned
//! integer that keeps this order, so that numbers can be compared as
//! integers. A pattern that stands for no number has no key, written `None`,
//! and every comparison with it fails.

use vstd::prelude::*;

verus! {

/// The sign bit of a pattern.
pub const SIGN_BIT: u64 = 0x8000_0000_0000_0000;

/// The bits of a pattern below its sign bit.
pub const MAGNITUDE_MASK: u64 = 0x7fff_ffff_ffff_ffff;

/// The magnitude of infinity, the largest that stands for a number.
pub const INFINITY_BITS: u64 = 0x7ff0_0000_0000_0000;

/// The pattern of the number one.
pub const ONE_BITS: u64 = 0x3ff0_0000_0000_0000;

/// The order key of zero.
pub const ZERO_KEY: u64 = 0x8000_0000_0000_0000;

/// The order key of one.
pub const ONE_KEY: u64 = 0xbff0_0000_0000_0000;

/// The pattern without its sign.
pub open spec fn magnitude(bits: u64) -> u64 {
    bits & MAGNITUDE_MASK
}

/// Whether the sign bit is set.
pub open spec fn negative(bits: u64) -> bool {
    bits & SIGN_BIT != 0
}

/// Whether the pattern stands for a number, infinite or not.
pub open spec fn is_number(bits: u64) -> bool {
    magnitude(bits) <= INFINITY_BITS
}

/// The signed magnitude of a pattern: its place in the numeric order.
pub open spec fn rank(bits: u64) -> int {
    if negative(bits) {
        -(magnitude(bits) as int)
    } else {
        magnitude(bits) as int
    }
}

/// The order key of a pattern: `None` where it stands for no number, else its
/// signed magnitude moved up by 2^63, so that it is unsigned. Keys therefore
/// compare as the numbers do.
pub fn order_key(bits: u64) -> (key: Option<u64>)
    ensures
        key is Some <==> is_number(bits),
        key matches Some(k) ==> k == rank(bits) + SIGN_BIT,
{
    let mag: u64 = bits & MAGNITUDE_MASK;
    if mag > INFINITY_BITS {
        None
    } else if bits & SIGN_BIT != 0 {
        Some(SIGN_BIT - mag)
    } else {
        Some(SIGN_BIT + mag)
    }
}

/// Whether `a` is less than `b`.
pub open spec fn below(a: Option<u64>, b: Option<u64>) -> bool {
    a is Some && b is Some && a.unwrap() < b.unwrap()
}

/// Whether `x` is greater than zero.
pub open spec fn positive(x: Option<u64>) -> bool {
    below(Some(ZERO_KEY), x)
}

/// Whether `x` is zero or greater.
pub open spec fn non_negative(x: Option<u64>) -> bool {
    x is Some && x.unwrap() >= ZERO_KEY
}

/// Whether `t` lies strictly between `t_min` and `t_max`.
pub open spec fn inside(t: Option<u64>, t_min: Option<u64>, t_max: Option<u64>) -> bool {
    below(t_min, t) && below(t, t_max)
}

/// Tests whether `a` is less than `b`.
pub fn is_below(a: Option<u64>, b: Option<u64>) -> (r: bool)
    ensures
        r == below(a, b),
{
    match (a, b) {
        (Some(x), Some(y)) => x < y,
        _ => false,
    }
}

/// Tests whether `x` is greater than zero.
pub fn is_positive(x: Option<u64>) -> (r: bool)
    ensures
        r == positive(x),
{
    is_below(Some(ZERO_KEY), x)
}

/// Tests whether `x` is zero or greater.
pub fn is_non_negative(x: Option<u64>) -> (r: bool)
    ensures
        r == non_negative(x),
{
    match x {
        Some(k) => k >= ZERO_KEY,
        None => false,
    }
}

/// Tests whether `t` lies strictly between `t_min` and `t_max`.
pub fn is_inside(t: Option<u64>, t_min: Option<u64>, t_max: Option<u64>) -> (r: bool)
    ensures
        r == inside(t, t_min, t_max),
{
    is_below(t_min, t) && is_below(t, t_max)
}

/// `ZERO_KEY` and `ONE_KEY` are the keys of the patterns of zero and one, and
/// a key is that of a number above zero exactly when the pattern has a
/// magnitude and no sign.
pub proof fn lemma_key_constants(bits: u64)
    ensures
        is_number(0) && rank(0) + SIGN_BIT == ZERO_KEY,
        is_number(ONE_BITS) && rank(ONE_BITS) + SIGN_BIT == ONE_KEY,
        rank(bits) + SIGN_BIT > ZERO_KEY <==> !negative(bits) && magnitude(bits) != 0,
        rank(bits) + SIGN_BIT >= ZERO_KEY <==> !negative(bits) || magnitude(bits) == 0,
{
    assert(0u64 & 0x7fff_ffff_ffff_ffffu64 == 0 && 0u64 & 0x8000_0000_0000_0000u64 == 0)
        by (bit_vector);
    assert(0x3ff0_0000_0000_0000u64 & 0x7fff_ffff_ffff_ffffu64 == 0x3ff0_0000_0000_0000u64
        && 0x3ff0_0000_0000_0000u64 & 0x8000_0000_0000_0000u64 == 0) by (bit_vector);
}

/// The two zeros share one key, and patterns with equal keys differ at most
/// in the sign of a zero.
pub proof fn lemma_key_zero(a: u64, b: u64)
    requires
        is_number(a),
        is_number(b),
        rank(a) == rank(b),
    ensures
        a == b || (magnitude(a) == 0 && magnitude(b) == 0),
{
    assert(a & 0x7fff_ffff_ffff_ffffu64 == b & 0x7fff_ffff_ffff_ffffu64 && ((a
        & 0x8000_0000_0000_0000u64 != 0) == (b & 0x8000_0000_0000_0000u64 != 0)) ==> a == b)
        by (bit_vector);
}

} // verus!
