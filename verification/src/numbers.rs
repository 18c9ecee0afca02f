//! The integers of running programs: floor division, unsigned arithmetic and lanes of a
//! fixed width.

use crate::arith::fit;
use crate::ast::{Dtype, InfixOp};
use vstd::arithmetic::div_mod::{lemma_add_mod_noop, lemma_mul_mod_noop_general, lemma_sub_mod_noop};
use vstd::arithmetic::power::pow;
use vstd::prelude::*;

verus! {

/// `u64::checked_pow` gives the power when it fits in 64 bits, and nothing otherwise.
pub assume_specification[ u64::checked_pow ](base: u64, exp: u32) -> (r: std::option::Option<u64>)
    ensures
        r == fit_unsigned(pow(base as int, exp as nat)),
;

/// The quotient rounded toward negative infinity.
pub open spec fn floor_quotient(x: int, y: int) -> int {
    if y > 0 {
        x / y
    } else {
        (-x) / (-y)
    }
}

/// The remainder of floor division, which takes the sign of the divisor.
pub open spec fn floor_remainder(x: int, y: int) -> int {
    if y > 0 {
        x % y
    } else {
        -((-x) % (-y))
    }
}

/// Quotient and remainder make up the dividend, and the remainder lies between zero and
/// the divisor.
pub proof fn floor_division_is_division(x: int, y: int)
    requires
        y != 0,
    ensures
        x == floor_quotient(x, y) * y + floor_remainder(x, y),
        y > 0 ==> 0 <= floor_remainder(x, y) < y,
        y < 0 ==> y < floor_remainder(x, y) <= 0,
{
    if y > 0 {
        vstd::arithmetic::div_mod::lemma_fundamental_div_mod(x, y);
        assert(y * (x / y) == (x / y) * y) by (nonlinear_arith);
    } else {
        let d = -y;
        vstd::arithmetic::div_mod::lemma_fundamental_div_mod(-x, d);
        let q = (-x) / d;
        assert(d * q == -(q * y)) by (nonlinear_arith)
            requires
                d == -y,
        ;
    }
}

/// A number of 64 bits without sign.
pub open spec fn fit_unsigned(n: int) -> Option<u64> {
    if 0 <= n <= u64::MAX {
        Some(n as u64)
    } else {
        None
    }
}

/// See [`floor_quotient`].
pub fn floor_div(x: i64, y: i64) -> (r: Option<i64>)
    requires
        y != 0,
    ensures
        r == fit(floor_quotient(x as int, y as int)),
{
    let (a, b): (i128, i128) = if y > 0 {
        (x as i128, y as i128)
    } else {
        (0 - x as i128, 0 - y as i128)
    };
    proof {
        quotient_fits(a as int, b as int);
    }
    match a.checked_div_euclid(b) {
        Some(q) => if -0x8000_0000_0000_0000 <= q && q <= 0x7fff_ffff_ffff_ffff {
            Some(q as i64)
        } else {
            None
        },
        None => None,
    }
}

proof fn quotient_fits(a: int, b: int)
    requires
        -0x8000_0000_0000_0000 <= a <= 0x8000_0000_0000_0000,
        0 < b,
    ensures
        -0x8000_0000_0000_0000 <= a / b <= 0x8000_0000_0000_0000,
{
    vstd::arithmetic::div_mod::lemma_fundamental_div_mod(a, b);
    let q = a / b;
    assert(q <= 0x8000_0000_0000_0000) by (nonlinear_arith)
        requires
            a == b * q + a % b,
            0 <= a % b,
            a <= 0x8000_0000_0000_0000,
            0 < b,
    ;
    assert(-0x8000_0000_0000_0000 <= q) by (nonlinear_arith)
        requires
            a == b * q + a % b,
            a % b < b,
            -0x8000_0000_0000_0000 <= a,
            0 < b,
    ;
}

/// See [`floor_remainder`].
pub fn floor_mod(x: i64, y: i64) -> (r: i64)
    requires
        y != 0,
    ensures
        r == floor_remainder(x as int, y as int),
{
    let (a, b): (i128, i128) = if y > 0 {
        (x as i128, y as i128)
    } else {
        (0 - x as i128, 0 - y as i128)
    };
    let m: i128 = remainder_of(a, b);
    if y > 0 {
        m as i64
    } else {
        (0 - m) as i64
    }
}

fn remainder_of(a: i128, m: i128) -> (r: i128)
    requires
        0 < m,
    ensures
        r == a as int % m as int,
        0 <= r < m,
{
    match a.checked_rem_euclid(m) {
        Some(r) => r,
        None => 0,
    }
}

/// The sum of two numbers without sign, if it fits.
pub fn unsigned_sum(a: u64, b: u64) -> (r: Option<u64>)
    ensures
        r == fit_unsigned(a + b),
{
    a.checked_add(b)
}

/// The difference of two numbers without sign, if it fits.
pub fn unsigned_difference(a: u64, b: u64) -> (r: Option<u64>)
    ensures
        r == fit_unsigned(a - b),
{
    a.checked_sub(b)
}

/// The product of two numbers without sign, if it fits.
pub fn unsigned_product(a: u64, b: u64) -> (r: Option<u64>)
    ensures
        r == fit_unsigned(a * b),
{
    proof {
        assert(0 <= a * b) by (nonlinear_arith);
    }
    a.checked_mul(b)
}

/// A power of a number without sign, if it fits.
pub fn unsigned_power(a: u64, b: u32) -> (r: Option<u64>)
    ensures
        r == fit_unsigned(pow(a as int, b as nat)),
{
    a.checked_pow(b)
}

/// How many values a lane of an integer type has.
pub open spec fn lane_values(dtype: Dtype) -> Option<int> {
    match dtype {
        Dtype::Int8 | Dtype::UInt8 => Some(0x100),
        Dtype::Int16 | Dtype::UInt16 => Some(0x1_0000),
        Dtype::Int32 | Dtype::UInt32 => Some(0x1_0000_0000),
        Dtype::Int64 | Dtype::UInt64 => Some(0x1_0000_0000_0000_0000),
        _ => None,
    }
}

/// Whether a lane has negative values.
pub open spec fn lane_signed(dtype: Dtype) -> bool {
    dtype is Int8 || dtype is Int16 || dtype is Int32 || dtype is Int64
}

/// The value of a lane that a number wraps around to.
pub open spec fn wrapped(dtype: Dtype, n: int) -> int {
    match lane_values(dtype) {
        Some(m) => {
            let rest = n % m;
            if lane_signed(dtype) && rest >= m / 2 {
                rest - m
            } else {
                rest
            }
        },
        None => n,
    }
}

/// Wrapping keeps a value that the lane has.
pub proof fn wrapping_keeps_values(dtype: Dtype, n: int)
    requires
        lane_values(dtype) is Some,
        lane_signed(dtype) ==> -(lane_values(dtype)->0 / 2) <= n < lane_values(dtype)->0 / 2,
        !lane_signed(dtype) ==> 0 <= n < lane_values(dtype)->0,
    ensures
        wrapped(dtype, n) == n,
{
    let m = lane_values(dtype)->0;
    if n < 0 {
        vstd::arithmetic::div_mod::lemma_mod_add_multiples_vanish(n, m);
        vstd::arithmetic::div_mod::lemma_small_mod((n + m) as nat, m as nat);
    } else {
        vstd::arithmetic::div_mod::lemma_small_mod(n as nat, m as nat);
    }
}

fn modulus(dtype: Dtype) -> (r: i128)
    ensures
        r > 0 ==> lane_values(dtype) == Some(r as int) && r <= 0x1_0000_0000_0000_0000,
        r == 0 <==> lane_values(dtype) is None,
        r >= 0,
        r % 2 == 0,
{
    match dtype {
        Dtype::Int8 | Dtype::UInt8 => 0x100,
        Dtype::Int16 | Dtype::UInt16 => 0x1_0000,
        Dtype::Int32 | Dtype::UInt32 => 0x1_0000_0000,
        Dtype::Int64 | Dtype::UInt64 => 0x1_0000_0000_0000_0000,
        Dtype::Float32 | Dtype::Float64 | Dtype::Bool => 0,
    }
}

fn is_signed(dtype: Dtype) -> (r: bool)
    ensures
        r == lane_signed(dtype),
{
    match dtype {
        Dtype::Int8 | Dtype::Int16 | Dtype::Int32 | Dtype::Int64 => true,
        _ => false,
    }
}

fn lane_of(dtype: Dtype, rest: i128, m: i128) -> (r: i128)
    requires
        lane_values(dtype) == Some(m as int),
        0 <= rest < m <= 0x1_0000_0000_0000_0000,
        m % 2 == 0,
    ensures
        r == (if lane_signed(dtype) && rest >= m as int / 2 {
            rest - m
        } else {
            rest as int
        }),
{
    let half: i128 = match m.checked_div_euclid(2) {
        Some(h) => h,
        None => 0,
    };
    if is_signed(dtype) && rest >= half {
        rest - m
    } else {
        rest
    }
}

/// See [`wrapped`].
pub fn wrap(dtype: Dtype, v: i128) -> (r: i128)
    ensures
        r == wrapped(dtype, v as int),
{
    let m: i128 = modulus(dtype);
    if m == 0 {
        v
    } else {
        lane_of(dtype, remainder_of(v, m), m)
    }
}

/// What an operator makes of two lanes before it is wrapped. Only addition, subtraction and
/// multiplication are defined on lanes.
pub open spec fn lane_operation(op: InfixOp, a: int, b: int) -> int {
    match op {
        InfixOp::Add => a + b,
        InfixOp::Sub => a - b,
        InfixOp::Mul => a * b,
        _ => 0,
    }
}

/// What an operator makes of two lanes of an integer type.
pub open spec fn lane_result(op: InfixOp, dtype: Dtype, a: int, b: int) -> int {
    if lane_values(dtype) is Some {
        wrapped(dtype, lane_operation(op, a, b))
    } else {
        0
    }
}

/// See [`lane_result`].
pub fn int_lane(op: InfixOp, dtype: Dtype, a: i128, b: i128) -> (r: i128)
    ensures
        r == lane_result(op, dtype, a as int, b as int),
{
    let m: i128 = modulus(dtype);
    if m == 0 {
        return 0;
    }
    let x: i128 = remainder_of(a, m);
    let y: i128 = remainder_of(b, m);
    let rest: i128 = match op {
        InfixOp::Add => {
            proof {
                lemma_add_mod_noop(a as int, b as int, m as int);
            }
            remainder_of(x + y, m)
        },
        InfixOp::Sub => {
            proof {
                lemma_sub_mod_noop(a as int, b as int, m as int);
            }
            remainder_of(x - y, m)
        },
        InfixOp::Mul => {
            proof {
                lemma_mul_mod_noop_general(a as int, b as int, m as int);
                assert(0 <= x * y < 0x1_0000_0000_0000_0000_0000_0000_0000_0000) by (nonlinear_arith)
                    requires
                        0 <= x < 0x1_0000_0000_0000_0000,
                        0 <= y < 0x1_0000_0000_0000_0000,
                ;
            }
            let product: u128 = (x as u128) * (y as u128);
            let small: u128 = product % (m as u128);
            small as i128
        },
        _ => 0,
    };
    proof {
        if !(op is Add || op is Sub || op is Mul) {
            vstd::arithmetic::div_mod::lemma_small_mod(0, m as nat);
        }
    }
    lane_of(dtype, rest, m)
}

/// What a comparison says of two numbers; any other operator says no.
pub open spec fn comparison(op: InfixOp, a: int, b: int) -> bool {
    match op {
        InfixOp::Eq => a == b,
        InfixOp::Ne => a != b,
        InfixOp::Lt => a < b,
        InfixOp::Gt => a > b,
        InfixOp::Le => a <= b,
        InfixOp::Ge => a >= b,
        _ => false,
    }
}

/// See [`comparison`].
pub fn int_comparison(op: InfixOp, a: i128, b: i128) -> (r: bool)
    ensures
        r == comparison(op, a as int, b as int),
{
    match op {
        InfixOp::Eq => a == b,
        InfixOp::Ne => a != b,
        InfixOp::Lt => a < b,
        InfixOp::Gt => a > b,
        InfixOp::Le => a <= b,
        InfixOp::Ge => a >= b,
        _ => false,
    }
}

} // verus!
