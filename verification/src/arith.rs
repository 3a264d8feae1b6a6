//! Arithmetic on 32-bit sequence numbers, which wraps around.

use vstd::arithmetic::div_mod::lemma_mod_multiples_vanish;
use vstd::prelude::*;

verus! {

/// The number of values of a 32-bit integer.
pub open spec fn two_to_32() -> int {
    0x1_0000_0000
}

/// The signed 32-bit integer that has the low 32 bits of `x`.
pub open spec fn wrap_i32(x: int) -> int {
    let m = x % two_to_32();
    if m >= 0x8000_0000 {
        m - two_to_32()
    } else {
        m
    }
}

/// The remainder of `a` by a positive `b`, with the sign of `a`.
pub open spec fn rem_toward_zero(a: int, b: int) -> int {
    if a >= 0 {
        a % b
    } else {
        -((-a) % b)
    }
}

/// A value within the range of 32-bit integers wraps to itself.
pub proof fn lemma_wrap_in_range(x: int)
    requires
        -0x8000_0000 <= x < 0x8000_0000,
    ensures
        wrap_i32(x) == x,
{
    if x < 0 {
        lemma_mod_multiples_vanish(1, x, two_to_32());
        assert((x + two_to_32()) % two_to_32() == x + two_to_32());
    }
}

/// Wraps a value to 32 bits.
pub(crate) fn wrap_to_i32(v: i128) -> (r: i32)
    requires
        -0x1000_0000_0000_0000 <= v < 0x1000_0000_0000_0000_0000,
    ensures
        r == wrap_i32(v as int),
{
    let shifted: i128 = v + 0x1000_0000_0000_0000;
    proof {
        assert(0x1000_0000_0000_0000int == two_to_32() * 0x1000_0000);
        lemma_mod_multiples_vanish(0x1000_0000, v as int, two_to_32());
    }
    let m: i128 = shifted % 0x1_0000_0000;
    if m >= 0x8000_0000 {
        (m - 0x1_0000_0000) as i32
    } else {
        m as i32
    }
}

/// The remainder of `a` by one hundred, with the sign of `a`.
pub(crate) fn rem_100(a: i32) -> (r: i32)
    ensures
        r == rem_toward_zero(a as int, 100),
        -100 < r < 100,
{
    if a >= 0 {
        a % 100
    } else {
        let p: i64 = (-(a as i64)) % 100;
        (-p) as i32
    }
}

} // verus!
