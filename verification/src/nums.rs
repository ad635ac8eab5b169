//! Saturating arithmetic on `u32` extents.
//!
//! Every geometric quantity in the engine is a `u32`. Insufficient space
//! never raises an error: quantities are clamped to the `u32` range, so an
//! exhausted budget yields a zero extent and an oversized one stops at the
//! maximum.

use vstd::prelude::*;

verus! {

/// Clamp a mathematical integer into the `u32` range.
pub open spec fn sat32(x: int) -> u32 {
    if x > u32::MAX {
        u32::MAX
    } else if x < 0 {
        0u32
    } else {
        x as u32
    }
}

/// `a + b`, clamped to the `u32` range.
pub fn sat_add32(a: u32, b: u32) -> (r: u32)
    ensures
        r == sat32(a + b),
{
    if a <= u32::MAX - b {
        a + b
    } else {
        u32::MAX
    }
}

/// `a - b`, clamped at zero.
pub fn sat_sub32(a: u32, b: u32) -> (r: u32)
    ensures
        r == sat32(a - b),
{
    if a >= b {
        a - b
    } else {
        0
    }
}

/// `a + amount` for a wide amount, clamped to the `u32` range.
pub fn sat_add_wide(a: u32, amount: u128) -> (r: u32)
    ensures
        r == sat32(a + amount),
{
    if amount >= u32::MAX as u128 {
        u32::MAX
    } else if a <= u32::MAX - (amount as u32) {
        a + (amount as u32)
    } else {
        u32::MAX
    }
}

/// `a - amount` for a wide amount, clamped at zero.
pub fn sat_sub_wide(a: u32, amount: u128) -> (r: u32)
    ensures
        r == sat32(a - amount),
{
    if amount >= a as u128 {
        0
    } else {
        a - (amount as u32)
    }
}

/// A wide amount, clamped to the `u32` range.
pub fn sat_wide(amount: u128) -> (r: u32)
    ensures
        r == sat32(amount as int),
{
    if amount >= u32::MAX as u128 {
        u32::MAX
    } else {
        amount as u32
    }
}

/// `a * b` for wide values small enough that the product cannot overflow.
pub fn mul_wide(a: u128, b: u128) -> (r: u128)
    requires
        a < 0x1_0000_0000_0000_0000,
        b < 0x1_0000_0000_0000_0000,
    ensures
        r == a * b,
{
    proof {
        assert(a * b < 0x1_0000_0000_0000_0000 * 0x1_0000_0000_0000_0000) by (nonlinear_arith)
            requires
                a < 0x1_0000_0000_0000_0000,
                b < 0x1_0000_0000_0000_0000,
        ;
    }
    a * b
}

/// The larger of two extents.
pub fn max32(a: u32, b: u32) -> (r: u32)
    ensures
        r == spec_max32(a, b),
{
    if a >= b {
        a
    } else {
        b
    }
}

/// The larger of two extents, in specifications.
pub open spec fn spec_max32(a: u32, b: u32) -> u32 {
    if a >= b {
        a
    } else {
        b
    }
}

} // verus!
