//! The order of single-precision numbers, read off their bit patterns.
//!
//! A number reaches the library as the 32 bits of its IEEE 754 single
//! format: one sign bit, then exponent and fraction. The library never
//! calculates with such numbers; it compares them, and the comparisons here
//! are those of the format: the two zeros are equal, and what is not a
//! number is neither below, nor above, nor equal to anything.

use vstd::prelude::*;

verus! {

/// The sign bit; also the pattern of negative zero.
pub const SIGN: u32 = 0x8000_0000;

pub const ZERO: u32 = 0;

pub const ONE: u32 = 0x3F80_0000;

pub const INFINITY: u32 = 0x7F80_0000;

pub const NEG_INFINITY: u32 = 0xFF80_0000;

/// The pattern without its sign: the absolute value.
pub open spec fn magnitude(bits: u32) -> u32 {
    if bits >= SIGN {
        (bits - SIGN) as u32
    } else {
        bits
    }
}

/// The pattern is not that of a number.
pub open spec fn is_nan(bits: u32) -> bool {
    magnitude(bits) > INFINITY
}

/// The place of a number among all numbers of the format, counted from
/// zero: the numbers above zero have the places 1, 2, 3 and so on up to
/// infinity, the numbers below zero the places -1, -2, -3 and so on down.
/// A larger number has a larger place.
pub open spec fn place(bits: u32) -> int {
    if bits >= SIGN {
        -(bits - SIGN)
    } else {
        bits as int
    }
}

pub open spec fn lt(a: u32, b: u32) -> bool {
    !is_nan(a) && !is_nan(b) && place(a) < place(b)
}

pub open spec fn le(a: u32, b: u32) -> bool {
    !is_nan(a) && !is_nan(b) && place(a) <= place(b)
}

pub open spec fn gt(a: u32, b: u32) -> bool {
    lt(b, a)
}

pub open spec fn ge(a: u32, b: u32) -> bool {
    le(b, a)
}

/// The smaller of two numbers. What is not a number gives way to the
/// other; of two equal numbers the first is taken.
pub open spec fn smaller(a: u32, b: u32) -> u32 {
    if is_nan(a) {
        b
    } else if is_nan(b) {
        a
    } else if place(b) < place(a) {
        b
    } else {
        a
    }
}

/// The larger of two numbers, on the same terms.
pub open spec fn larger(a: u32, b: u32) -> u32 {
    if is_nan(a) {
        b
    } else if is_nan(b) {
        a
    } else if place(b) > place(a) {
        b
    } else {
        a
    }
}

/// A number held to the range from `lo` to `hi`. What is not a number
/// stays what it is.
pub open spec fn clamped(x: u32, lo: u32, hi: u32) -> u32 {
    if lt(x, lo) {
        lo
    } else if gt(x, hi) {
        hi
    } else {
        x
    }
}

/// The number with the opposite sign.
pub open spec fn negated(bits: u32) -> u32 {
    if bits >= SIGN {
        (bits - SIGN) as u32
    } else {
        (bits + SIGN) as u32
    }
}

/// The absolute value.
pub fn abs(bits: u32) -> (m: u32)
    ensures
        m == magnitude(bits),
{
    if bits >= SIGN {
        bits - SIGN
    } else {
        bits
    }
}

pub fn nan(bits: u32) -> (n: bool)
    ensures
        n == is_nan(bits),
{
    abs(bits) > INFINITY
}

fn place_of(bits: u32) -> (p: i64)
    ensures
        p == place(bits),
{
    if bits >= SIGN {
        -((bits - SIGN) as i64)
    } else {
        bits as i64
    }
}

/// `a < b`.
pub fn less(a: u32, b: u32) -> (r: bool)
    ensures
        r == lt(a, b),
{
    !nan(a) && !nan(b) && place_of(a) < place_of(b)
}

/// `a <= b`.
pub fn less_eq(a: u32, b: u32) -> (r: bool)
    ensures
        r == le(a, b),
{
    !nan(a) && !nan(b) && place_of(a) <= place_of(b)
}

/// `a > b`.
pub fn greater(a: u32, b: u32) -> (r: bool)
    ensures
        r == gt(a, b),
{
    less(b, a)
}

/// `a >= b`.
pub fn greater_eq(a: u32, b: u32) -> (r: bool)
    ensures
        r == ge(a, b),
{
    less_eq(b, a)
}

/// `a > 0`.
pub fn is_positive(a: u32) -> (r: bool)
    ensures
        r == gt(a, ZERO),
        r == (0 < a <= INFINITY),
{
    greater(a, ZERO)
}

/// The minimum of two numbers.
pub fn min(a: u32, b: u32) -> (m: u32)
    ensures
        m == smaller(a, b),
{
    if nan(a) {
        b
    } else if nan(b) {
        a
    } else if place_of(b) < place_of(a) {
        b
    } else {
        a
    }
}

/// The maximum of two numbers.
pub fn max(a: u32, b: u32) -> (m: u32)
    ensures
        m == larger(a, b),
{
    if nan(a) {
        b
    } else if nan(b) {
        a
    } else if place_of(b) > place_of(a) {
        b
    } else {
        a
    }
}

/// Holds a number to the range from `lo` to `hi`.
pub fn clamp(x: u32, lo: u32, hi: u32) -> (r: u32)
    requires
        le(lo, hi),
    ensures
        r == clamped(x, lo, hi),
        !is_nan(x) ==> le(lo, r) && le(r, hi),
        is_nan(x) ==> r == x,
{
    if less(x, lo) {
        lo
    } else if greater(x, hi) {
        hi
    } else {
        x
    }
}

/// Holds a number to the range from zero to one.
pub fn clamp_unit(x: u32) -> (r: u32)
    ensures
        r == clamped(x, ZERO, ONE),
        !is_nan(x) ==> ge(r, ZERO) && le(r, ONE),
        is_nan(x) ==> r == x,
{
    clamp(x, ZERO, ONE)
}

/// Changes the sign of a number.
pub fn negate(bits: u32) -> (r: u32)
    ensures
        r == negated(bits),
        magnitude(r) == magnitude(bits),
        !is_nan(bits) ==> place(r) == -place(bits),
{
    if bits >= SIGN {
        bits - SIGN
    } else {
        bits + SIGN
    }
}

/// Among numbers, the order is total: of two numbers one is below the
/// other, or they are equal in value.
pub proof fn lemma_order_is_total(a: u32, b: u32)
    requires
        !is_nan(a),
        !is_nan(b),
    ensures
        lt(a, b) || lt(b, a) || place(a) == place(b),
        lt(a, b) <==> !ge(a, b),
        le(a, b) <==> !gt(a, b),
{
}

/// The order is transitive.
pub proof fn lemma_order_is_transitive(a: u32, b: u32, c: u32)
    ensures
        lt(a, b) && lt(b, c) ==> lt(a, c),
        le(a, b) && le(b, c) ==> le(a, c),
        lt(a, b) && le(b, c) ==> lt(a, c),
        le(a, b) && lt(b, c) ==> lt(a, c),
{
}

/// Minimum and maximum are one of their arguments, and bound both where
/// both are numbers.
pub proof fn lemma_smaller_and_larger(a: u32, b: u32)
    ensures
        smaller(a, b) == a || smaller(a, b) == b,
        larger(a, b) == a || larger(a, b) == b,
        !is_nan(a) && !is_nan(b) ==> le(smaller(a, b), a) && le(smaller(a, b), b),
        !is_nan(a) && !is_nan(b) ==> ge(larger(a, b), a) && ge(larger(a, b), b),
        is_nan(smaller(a, b)) <==> is_nan(a) && is_nan(b),
        is_nan(larger(a, b)) <==> is_nan(a) && is_nan(b),
{
}

} // verus!
