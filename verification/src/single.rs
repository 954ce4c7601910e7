//! Reading single-precision numbers by their bit patterns.
//!
//! A pattern has a sign bit, eight bits of exponent and 23 bits of fraction. An
//! exponent of all ones marks an infinity, where the fraction is zero, and
//! a value that is not a number otherwise. Among the others the patterns of the
//! numbers of one sign grow with the size of the number, so that numbers can be
//! told apart and put in order without any arithmetic on them.

use vstd::prelude::*;
use crate::protocol::Region;

verus! {

/// The pattern without its sign bit: the size of the number.
pub open spec fn magnitude(bits: u32) -> u32 {
    bits & 0x7FFF_FFFF
}

/// Whether the sign bit is set.
pub open spec fn sign_set(bits: u32) -> bool {
    bits & 0x8000_0000 != 0
}

/// Whether the pattern stands for a number that is neither infinite nor
/// undefined.
pub open spec fn is_finite(bits: u32) -> bool {
    magnitude(bits) < 0x7F80_0000
}

/// Whether the pattern stands for no number at all.
pub open spec fn is_nan(bits: u32) -> bool {
    magnitude(bits) > 0x7F80_0000
}

/// The place of a pattern in the order of the numbers: the size, counted
/// downwards from zero where the sign bit is set. Both zeros have place 0.
pub open spec fn rank(bits: u32) -> int {
    if sign_set(bits) {
        -(magnitude(bits) as int)
    } else {
        magnitude(bits) as int
    }
}

/// Whether the number of pattern `a` is less than that of pattern `b`. Nothing
/// is less or more than a pattern that stands for no number.
pub open spec fn less(a: u32, b: u32) -> bool {
    !is_nan(a) && !is_nan(b) && rank(a) < rank(b)
}

/// Whether a view can be rendered and moved: all four bounds are finite, and on
/// each axis the lower bound is less than the upper one.
pub open spec fn usable(r: Region) -> bool {
    &&& is_finite(r.re0) && is_finite(r.re1) && is_finite(r.im0) && is_finite(r.im1)
    &&& less(r.re0, r.re1)
    &&& less(r.im0, r.im1)
}

/// Whether the pattern stands for a finite number.
pub fn finite(bits: u32) -> (yes: bool)
    ensures
        yes == is_finite(bits),
{
    (bits & 0x7FFF_FFFF) < 0x7F80_0000
}

/// Whether the number of pattern `a` is less than that of pattern `b`.
pub fn less_than(a: u32, b: u32) -> (yes: bool)
    ensures
        yes == less(a, b),
{
    let size_a: u32 = a & 0x7FFF_FFFF;
    let size_b: u32 = b & 0x7FFF_FFFF;
    if size_a > 0x7F80_0000 || size_b > 0x7F80_0000 {
        return false;
    }
    let down_a: bool = a & 0x8000_0000 != 0;
    let down_b: bool = b & 0x8000_0000 != 0;
    if down_a {
        if down_b {
            size_b < size_a
        } else {
            size_a != 0 || size_b != 0
        }
    } else {
        if down_b {
            false
        } else {
            size_a < size_b
        }
    }
}

/// Whether the view can be rendered and moved.
pub fn region_usable(r: Region) -> (yes: bool)
    ensures
        yes == usable(r),
{
    finite(r.re0) && finite(r.re1) && finite(r.im0) && finite(r.im1) && less_than(r.re0, r.re1)
        && less_than(r.im0, r.im1)
}

/// The view that an engine starts with can be rendered and moved.
pub proof fn lemma_initial_region_usable()
    ensures
        usable(Region::initial()),
{
    assert(0xBFB3_3333u32 & 0x7FFF_FFFF == 0x3FB3_3333u32) by (bit_vector);
    assert(0xBFB3_3333u32 & 0x8000_0000 != 0) by (bit_vector);
    assert(0x3F19_999Au32 & 0x7FFF_FFFF == 0x3F19_999Au32) by (bit_vector);
    assert(0x3F19_999Au32 & 0x8000_0000 == 0) by (bit_vector);
    assert(0xBF80_0000u32 & 0x7FFF_FFFF == 0x3F80_0000u32) by (bit_vector);
    assert(0xBF80_0000u32 & 0x8000_0000 != 0) by (bit_vector);
    assert(0x3F80_0000u32 & 0x7FFF_FFFF == 0x3F80_0000u32) by (bit_vector);
    assert(0x3F80_0000u32 & 0x8000_0000 == 0) by (bit_vector);
}

/// The order is strict: no number is less than itself, and of two numbers at
/// most one is less than the other. It is transitive.
pub proof fn lemma_less_is_strict(a: u32, b: u32, c: u32)
    ensures
        !less(a, a),
        less(a, b) ==> !less(b, a),
        less(a, b) && less(b, c) ==> less(a, c),
{
}

} // verus!
