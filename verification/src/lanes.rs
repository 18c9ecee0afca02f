//! What operators do to the lanes of a vector.

use crate::ast::{Dtype, InfixOp};
use crate::flatten::following_index;
use crate::numbers::{lane_operation, lane_result, lane_values, wrapped};
use crate::simd::{
    as_int_lanes, int_lane_operator, ints_zipped, lane_operator, lane_operator_on, shape_of,
};
use crate::values::{
    dtype_is_float, lanes_counted, operator_on, orders, KnownView, SimdLanesView, ValueView,
};
use vstd::prelude::*;

verus! {

/// The least and the greatest number in a lane of an integer type.
pub open spec fn bounds(dtype: Dtype) -> Option<(int, int)> {
    match dtype {
        Dtype::Int8 => Some((-128, 127)),
        Dtype::Int16 => Some((-32768, 32767)),
        Dtype::Int32 => Some((-2147483648, 2147483647)),
        Dtype::Int64 => Some((-9223372036854775808, 9223372036854775807)),
        Dtype::UInt8 => Some((0, 255)),
        Dtype::UInt16 => Some((0, 65535)),
        Dtype::UInt32 => Some((0, 4294967295)),
        Dtype::UInt64 => Some((0, 18446744073709551615)),
        _ => None,
    }
}

/// Whether a lane holds what a number comes to there: a number the lane has, which differs by
/// whole turns.
pub open spec fn comes_to(dtype: Dtype, lane: int, n: int) -> bool {
    match bounds(dtype) {
        Some((low, high)) => low <= lane <= high && (lane - n) % (high - low + 1) == 0,
        None => false,
    }
}

/// A vector of integers.
pub open spec fn ints(dtype: Dtype, lanes: Seq<i128>) -> ValueView {
    ValueView::Simd { dtype, lanes: SimdLanesView::Int(lanes) }
}

/// A number wraps around to the one number of the lane that differs from it by whole turns.
pub proof fn wrapping_comes_to(dtype: Dtype, n: int)
    requires
        bounds(dtype) is Some,
    ensures
        comes_to(dtype, wrapped(dtype, n), n),
{
    let m = lane_values(dtype)->0;
    let (low, high) = bounds(dtype)->0;
    assert(m == high - low + 1);
    let rest = n % m;
    vstd::arithmetic::div_mod::lemma_fundamental_div_mod(n, m);
    let q = n / m;
    assert(n == m * q + rest);
    let lane = wrapped(dtype, n);
    if lane == rest {
        assert(lane - n == (-q) * m) by (nonlinear_arith)
            requires
                n == m * q + rest,
                lane == rest,
        ;
        vstd::arithmetic::div_mod::lemma_mod_multiples_basic(-q, m);
    } else {
        assert(lane - n == (-q - 1) * m) by (nonlinear_arith)
            requires
                n == m * q + rest,
                lane == rest - m,
        ;
        vstd::arithmetic::div_mod::lemma_mod_multiples_basic(-q - 1, m);
    }
}

proof fn zipped(
    xs: Seq<i128>,
    ys: Seq<i128>,
    op: InfixOp,
    dtype: Dtype,
    i: nat,
    out: Seq<i128>,
)
    requires
        i == out.len() <= xs.len() == ys.len() <= usize::MAX,
    ensures
        ({
            let made = ints_zipped(xs, ys, op, dtype, i, out, i as usize);
            &&& made.len() == xs.len()
            &&& made.take(i as int) == out
            &&& forall|k: int|
                i <= k < xs.len() ==> #[trigger] made[k] == lane_result(
                    op,
                    dtype,
                    xs[k] as int,
                    ys[k] as int,
                ) as i128
        }),
    decreases xs.len() - i,
{
    if i < xs.len() {
        let next = out.push(lane_result(op, dtype, xs[i as int] as int, ys[i as int] as int) as i128);
        zipped(xs, ys, op, dtype, i + 1, next);
        reveal(following_index);
        let made = ints_zipped(xs, ys, op, dtype, i, out, i as usize);
        assert(made == ints_zipped(xs, ys, op, dtype, i + 1, next, (i + 1) as usize));
        assert(made.take(i as int) =~= made.take(i as int + 1).take(i as int));
        assert(next.take(i as int) =~= out);
        assert(made[i as int] == made.take(i as int + 1)[i as int]);
    } else {
        assert(out.take(i as int) =~= out);
    }
}

/// Sums, differences and products of vectors are those of their lanes, wrapped around.
pub proof fn lanes_are_computed(
    op: InfixOp,
    dtype: Dtype,
    xs: Seq<i128>,
    ys: Seq<i128>,
    known: Seq<KnownView>,
    k: int,
)
    requires
        bounds(dtype) is Some,
        op is Add || op is Sub || op is Mul,
        0 <= k < xs.len() == ys.len() <= usize::MAX,
    ensures
        operator_on(op, ints(dtype, xs), ints(dtype, ys), known) matches Ok(
            ValueView::Simd { dtype: kind, lanes: SimdLanesView::Int(made) },
        ) && kind == dtype && made.len() == xs.len() && comes_to(
            dtype,
            made[k] as int,
            match op {
                InfixOp::Add => xs[k] + ys[k],
                InfixOp::Sub => xs[k] - ys[k],
                _ => xs[k] * ys[k],
            },
        ),
{
    reveal(operator_on);
    reveal(lane_operator);
    reveal(lane_operator_on);
    reveal(shape_of);
    reveal(lanes_counted);
    reveal(dtype_is_float);
    reveal(int_lane_operator);
    reveal(as_int_lanes);
    reveal(orders);
    zipped(xs, ys, op, dtype, 0, Seq::empty());
    wrapping_comes_to(dtype, lane_operation(op, xs[k] as int, ys[k] as int));
    let made = ints_zipped(xs, ys, op, dtype, 0, Seq::empty(), 0);
    assert(made[k] == lane_result(op, dtype, xs[k] as int, ys[k] as int) as i128);
}

} // verus!
