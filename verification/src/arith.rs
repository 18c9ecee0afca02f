//! Checked integer arithmetic.

use vstd::arithmetic::power::pow;
use vstd::prelude::*;
use crate::ct::remainder_fits;

verus! {

/// A number that fits in 64 bits.
pub open spec fn fit(n: int) -> Option<i64> {
    if i64::MIN <= n <= i64::MAX {
        Some(n as i64)
    } else {
        None
    }
}

/// A power that fits in 64 bits. Only exponents of 32 bits have one.
pub open spec fn fit_power(a: i64, b: i64) -> Option<i64> {
    if 0 <= b <= u32::MAX {
        fit(pow(a as int, b as nat))
    } else {
        None
    }
}

/// The Euclidean quotient, if it fits.
pub open spec fn fit_quotient(a: i64, b: i64) -> Option<i64> {
    if b == 0 {
        None
    } else {
        fit(a as int / b as int)
    }
}

/// The Euclidean remainder, if the quotient fits.
pub open spec fn fit_remainder(a: i64, b: i64) -> Option<i64> {
    if b == 0 || (a == i64::MIN && b == -1) {
        None
    } else {
        fit(a as int % b as int)
    }
}

pub fn checked_sum(a: i64, b: i64) -> (r: Option<i64>)
    ensures
        r == fit(a + b),
{
    a.checked_add(b)
}

pub fn checked_difference(a: i64, b: i64) -> (r: Option<i64>)
    ensures
        r == fit(a - b),
{
    a.checked_sub(b)
}

pub fn checked_product(a: i64, b: i64) -> (r: Option<i64>)
    ensures
        r == fit(a * b),
{
    a.checked_mul(b)
}

pub fn checked_quotient(a: i64, b: i64) -> (r: Option<i64>)
    ensures
        r == fit_quotient(a, b),
{
    a.checked_div_euclid(b)
}

pub fn checked_remainder(a: i64, b: i64) -> (r: Option<i64>)
    ensures
        r == fit_remainder(a, b),
{
    proof {
        remainder_fits(a, b);
    }
    a.checked_rem_euclid(b)
}

pub fn checked_power(a: i64, b: i64) -> (r: Option<i64>)
    ensures
        r == fit_power(a, b),
{
    if 0 <= b && b <= 0xFFFF_FFFF {
        a.checked_pow(b as u32)
    } else {
        None
    }
}

} // verus!
