//! Vectors of numbers, and how values are printed.

use crate::ast::{Dtype, InfixOp};
use crate::evaluator::Closure;
use crate::flatten::{following_index, next_index};
use crate::numbers::{comparison, int_comparison, int_lane, lane_result, wrap, wrapped};
use crate::text::{
    cat3, cat4, cat5, cat6, cat7, copy_vec, decimal, quote, quoted_form, show_i64, show_u64,
    show_usize, signed_decimal,
};
use crate::values::{
    EvalError, EvalErrorView, Known, KnownView, Question, QuestionView, SimdLanes, SimdLanesView,
    Value, ValueView, asked_bits, asked_flag, asked_text, bits_asked, bounds_check,
    clone_simd_lanes, clone_value, dtype_is_float, failed_type, field_value_list_view, flag_asked,
    index_within, is_float_dtype, is_ordering, known_list_view, lanes_counted, orders, show_lane,
    simd_width, text_asked, type_failure, type_shown, unfold_value, value_list_view,
    value_type_name,
};
use vstd::prelude::*;

verus! {

fn repeated<T: Copy>(x: T, n: usize) -> (r: Vec<T>)
    ensures
        r@ == Seq::new(n as nat, |i: int| x),
{
    let mut v: Vec<T> = Vec::new();
    let mut i: usize = 0;
    while i < n
        invariant
            i <= n,
            v@ == Seq::new(i as nat, |k: int| x),
        decreases n - i,
    {
        v.push(x);
        i = i + 1;
        assert(v@ =~= Seq::new(i as nat, |k: int| x));
    }
    v
}

/// One integer in so many lanes.
pub fn repeated_ints(x: i128, n: usize) -> (r: Vec<i128>)
    ensures
        r@ == Seq::new(n as nat, |i: int| x),
{
    repeated(x, n)
}

/// One float in so many lanes.
pub fn repeated_bits(x: u64, n: usize) -> (r: Vec<u64>)
    ensures
        r@ == Seq::new(n as nat, |i: int| x),
{
    repeated(x, n)
}

/// One flag in so many lanes.
pub fn repeated_flags(x: bool, n: usize) -> (r: Vec<bool>)
    ensures
        r@ == Seq::new(n as nat, |i: int| x),
{
    repeated(x, n)
}


/// A float as a lane holds it: one of single precision is rounded to it.
#[verifier::opaque]
pub open spec fn lane_rounded(
    dtype: Dtype,
    bits: u64,
    known: Seq<KnownView>,
) -> Result<u64, EvalErrorView> {
    match dtype {
        Dtype::Float32 => bits_asked(known, QuestionView::Single(bits)),
        _ => Ok(bits),
    }
}

/// See [`lane_rounded`].
pub fn round_lane(dtype: Dtype, bits: u64, known: &Vec<Known>) -> (r: Result<u64, EvalError>)
    ensures
        (
            match r { Ok(v) => Ok(v), Err(v) => Err(v@) }
        ) == lane_rounded(dtype, bits, known_list_view(known@)),
{
    proof { reveal(lane_rounded); }
    match dtype {
        Dtype::Float32 => asked_bits(known, Question::Single(bits)),
        _ => Ok(bits),
    }
}

/// A vector as a value. One double lane is a float.
#[verifier::opaque]
pub open spec fn vector_value(dtype: Dtype, lanes: SimdLanesView) -> ValueView {
    match lanes {
        SimdLanesView::Float(v) => if (dtype matches Dtype::Float64) && v.len() == 1 {
            ValueView::Float64(v[0])
        } else {
            ValueView::Simd { dtype, lanes }
        },
        _ => ValueView::Simd { dtype, lanes },
    }
}

/// See [`vector_value`].
pub fn simd_value(dtype: Dtype, lanes: SimdLanes) -> (r: Value)
    ensures
        r@ == vector_value(dtype, lanes@),
{
    proof { reveal(vector_value); }
    match &lanes {
        SimdLanes::Float(v) => {
            if matches!(dtype, Dtype::Float64) && v.len() == 1 {
                let value = Value::Float64(v[0]);
                proof { unfold_value(value); }
                value
            } else {
                let value2 = Value::Simd { dtype, lanes: clone_simd_lanes(&lanes) };
                proof { unfold_value(value2); }
                value2
            }
        },
        _ => {
            assert(!(lanes@ is Float));
            let value3 = Value::Simd { dtype, lanes: clone_simd_lanes(&lanes) };
            proof { unfold_value(value3); }
            value3
        },
    }
}

#[verifier::opaque]
pub open spec fn lane_unfit(value: ValueView, what: Seq<char>) -> EvalErrorView {
    type_failure("cannot use "@ + type_shown(value) + " as "@ + what + " SIMD element"@)
}

/// See [`lane_unfit`].
pub fn no_lane(value: &Value, what: &str) -> (r: EvalError)
    ensures
        r@ == lane_unfit(value@, what@),
{
    proof { reveal(lane_unfit); }
    failed_type(cat5("cannot use ", value_type_name(value).as_str(), " as ", what, " SIMD element"))
}

/// A scalar as an integer lane.
#[verifier::opaque]
pub open spec fn int_of_value(value: ValueView) -> Result<i128, EvalErrorView> {
    match value {
        ValueView::Int(n) => Ok(n as i128),
        ValueView::UInt(n) => Ok(n as i128),
        ValueView::Bool(b) => if b {
            Ok(1)
        } else {
            Ok(0)
        },
        ValueView::Simd { lanes, .. } => int_of_single(value, lanes),
        _ => Err(lane_unfit(value, "an integer"@)),
    }
}

/// See [`int_of_value`].
pub fn value_to_int(value: &Value) -> (r: Result<i128, EvalError>)
    ensures
        (match r { Ok(v) => Ok(v), Err(v) => Err(v@) }) == int_of_value(value@),
{
    proof { reveal(int_of_value); }
    proof { unfold_value(*value); }
    match value {
        Value::Int(n) => Ok(*n as i128),
        Value::UInt(n) => Ok(*n as i128),
        Value::Bool(b) => {
            if *b {
                Ok(1)
            } else {
                Ok(0)
            }
        },
        Value::Simd { lanes, .. } => single_int(value, lanes),
        _ => {
            assert(!(value@ is Int));
            assert(!(value@ is UInt));
            assert(!(value@ is Bool));
            assert(!(value@ is Simd));
            Err(no_lane(value, "an integer"))
        },
    }
}

#[verifier::opaque]
pub open spec fn int_of_single(
    value: ValueView,
    lanes: SimdLanesView,
) -> Result<i128, EvalErrorView> {
    match lanes {
        SimdLanesView::Int(l) => if l.len() == 1 {
            Ok(l[0])
        } else {
            Err(lane_unfit(value, "an integer"@))
        },
        _ => Err(lane_unfit(value, "an integer"@)),
    }
}

/// See [`int_of_single`].
pub fn single_int(value: &Value, lanes: &SimdLanes) -> (r: Result<i128, EvalError>)
    ensures
        (match r { Ok(v) => Ok(v), Err(v) => Err(v@) }) == int_of_single(value@, lanes@),
{
    proof { reveal(int_of_single); }
    match lanes {
        SimdLanes::Int(l) => {
            if l.len() == 1 {
                Ok(l[0])
            } else {
                Err(no_lane(value, "an integer"))
            }
        },
        _ => {
            assert(!(lanes@ is Int));
            Err(no_lane(value, "an integer"))
        },
    }
}

/// A scalar as a float lane.
#[verifier::opaque]
pub open spec fn float_of_value(
    value: ValueView,
    known: Seq<KnownView>,
) -> Result<u64, EvalErrorView> {
    match value {
        ValueView::Int(n) => bits_asked(known, QuestionView::FromInt(n)),
        ValueView::Float64(bits) => Ok(bits),
        ValueView::Simd { lanes, .. } => float_of_single(value, lanes),
        _ => Err(lane_unfit(value, "a float"@)),
    }
}

/// See [`float_of_value`].
pub fn value_to_float(value: &Value, known: &Vec<Known>) -> (r: Result<u64, EvalError>)
    ensures
        (
            match r { Ok(v) => Ok(v), Err(v) => Err(v@) }
        ) == float_of_value(value@, known_list_view(known@)),
{
    proof { reveal(float_of_value); }
    proof { unfold_value(*value); }
    match value {
        Value::Int(n) => asked_bits(known, Question::FromInt(*n)),
        Value::Float64(bits) => Ok(*bits),
        Value::Simd { lanes, .. } => single_float(value, lanes),
        _ => {
            assert(!(value@ is Int));
            assert(!(value@ is Float64));
            assert(!(value@ is Simd));
            Err(no_lane(value, "a float"))
        },
    }
}

#[verifier::opaque]
pub open spec fn float_of_single(
    value: ValueView,
    lanes: SimdLanesView,
) -> Result<u64, EvalErrorView> {
    match lanes {
        SimdLanesView::Float(l) => if l.len() == 1 {
            Ok(l[0])
        } else {
            Err(lane_unfit(value, "a float"@))
        },
        _ => Err(lane_unfit(value, "a float"@)),
    }
}

/// See [`float_of_single`].
pub fn single_float(value: &Value, lanes: &SimdLanes) -> (r: Result<u64, EvalError>)
    ensures
        (match r { Ok(v) => Ok(v), Err(v) => Err(v@) }) == float_of_single(value@, lanes@),
{
    proof { reveal(float_of_single); }
    match lanes {
        SimdLanes::Float(l) => {
            if l.len() == 1 {
                Ok(l[0])
            } else {
                Err(no_lane(value, "a float"))
            }
        },
        _ => {
            assert(!(lanes@ is Float));
            Err(no_lane(value, "a float"))
        },
    }
}

/// A scalar as a lane of `bool`.
#[verifier::opaque]
pub open spec fn flag_of_value(value: ValueView) -> Result<bool, EvalErrorView> {
    match value {
        ValueView::Bool(b) => Ok(b),
        ValueView::Simd { lanes, .. } => flag_of_single(value, lanes),
        _ => Err(lane_unfit(value, "a bool"@)),
    }
}

/// See [`flag_of_value`].
pub fn value_to_bool_lane(value: &Value) -> (r: Result<bool, EvalError>)
    ensures
        (match r { Ok(v) => Ok(v), Err(v) => Err(v@) }) == flag_of_value(value@),
{
    proof { reveal(flag_of_value); }
    proof { unfold_value(*value); }
    match value {
        Value::Bool(b) => Ok(*b),
        Value::Simd { lanes, .. } => single_bool(value, lanes),
        _ => {
            assert(!(value@ is Bool));
            assert(!(value@ is Simd));
            Err(no_lane(value, "a bool"))
        },
    }
}

#[verifier::opaque]
pub open spec fn flag_of_single(
    value: ValueView,
    lanes: SimdLanesView,
) -> Result<bool, EvalErrorView> {
    match lanes {
        SimdLanesView::Bool(l) => if l.len() == 1 {
            Ok(l[0])
        } else {
            Err(lane_unfit(value, "a bool"@))
        },
        _ => Err(lane_unfit(value, "a bool"@)),
    }
}

/// See [`flag_of_single`].
pub fn single_bool(value: &Value, lanes: &SimdLanes) -> (r: Result<bool, EvalError>)
    ensures
        (match r { Ok(v) => Ok(v), Err(v) => Err(v@) }) == flag_of_single(value@, lanes@),
{
    proof { reveal(flag_of_single); }
    match lanes {
        SimdLanes::Bool(l) => {
            if l.len() == 1 {
                Ok(l[0])
            } else {
                Err(no_lane(value, "a bool"))
            }
        },
        _ => {
            assert(!(lanes@ is Bool));
            Err(no_lane(value, "a bool"))
        },
    }
}

/// One lane of a vector, as a scalar of the same element type.
#[verifier::opaque]
pub open spec fn lane_read(
    dtype: Dtype,
    lanes: SimdLanesView,
    i: i64,
) -> Result<ValueView, EvalErrorView> {
    match index_within(i, lanes_counted(lanes), "SIMD lane"@) {
        Ok(out) => {
            let idx = out;
            Ok(lane_value_at(dtype, lanes, idx))
        },
        Err(error) => Err(error),
    }
}

/// See [`lane_read`].
pub fn read_simd_lane(dtype: Dtype, lanes: &SimdLanes, i: i64) -> (r: Result<Value, EvalError>)
    ensures
        (match r { Ok(v) => Ok(v@), Err(v) => Err(v@) }) == lane_read(dtype, lanes@, i),
{
    proof { reveal(lane_read); }
    let idx: usize = match bounds_check(i, simd_width(lanes), "SIMD lane") {
        Ok(done) => done,
        Err(error) => {
            return Err(error);
        },
    };
    Ok(lane_at(dtype, lanes, idx))
}

#[verifier::opaque]
pub open spec fn lane_value_at(dtype: Dtype, lanes: SimdLanesView, idx: usize) -> ValueView {
    match lanes {
        SimdLanesView::Int(v) => if idx < v.len() {
            vector_value(dtype, SimdLanesView::Int(seq![v[idx as int]]))
        } else {
            ValueView::NoneValue
        },
        SimdLanesView::Float(v) => if idx < v.len() {
            vector_value(dtype, SimdLanesView::Float(seq![v[idx as int]]))
        } else {
            ValueView::NoneValue
        },
        SimdLanesView::Bool(v) => if idx < v.len() {
            vector_value(dtype, SimdLanesView::Bool(seq![v[idx as int]]))
        } else {
            ValueView::NoneValue
        },
    }
}

/// See [`lane_value_at`].
pub fn lane_at(dtype: Dtype, lanes: &SimdLanes, idx: usize) -> (r: Value)
    ensures
        r@ == lane_value_at(dtype, lanes@, idx),
{
    proof { reveal(lane_value_at); }
    match lanes {
        SimdLanes::Int(v) => {
            if idx < v.len() {
                let item = v[idx];
                let ghost seen = item;
                let list = vec![item];
                assert(list@ =~= seq![seen]);
                simd_value(dtype, SimdLanes::Int(list))
            } else {
                Value::NoneValue
            }
        },
        SimdLanes::Float(v) => {
            if idx < v.len() {
                let item2 = v[idx];
                let ghost seen2 = item2;
                let list2 = vec![item2];
                assert(list2@ =~= seq![seen2]);
                simd_value(dtype, SimdLanes::Float(list2))
            } else {
                Value::NoneValue
            }
        },
        SimdLanes::Bool(v) => {
            if idx < v.len() {
                let item3 = v[idx];
                let ghost seen3 = item3;
                let list3 = vec![item3];
                assert(list3@ =~= seq![seen3]);
                simd_value(dtype, SimdLanes::Bool(list3))
            } else {
                Value::NoneValue
            }
        },
    }
}

pub open spec fn int_lanes_with(
    v: Seq<i128>,
    at: usize,
    x: i128,
    i: nat,
    out: Seq<i128>,
    k: usize,
) -> Seq<i128>
    decreases v, (v.len() - i) as nat,
{
    if i >= v.len() {
        out
    } else {
        let old_lane = v[i as int];
        let out = if k == at {
            let out = out.push(x);
            out
        } else {
            let out = out.push(old_lane);
            out
        };
        let k = following_index(k);
        int_lanes_with(v, at, x, i + 1, out, k)
    }
}

/// See [`int_lanes_with`].
pub fn ints_with(v: &Vec<i128>, at: usize, x: i128) -> (r: Vec<i128>)
    ensures
        r@ == int_lanes_with(v@, at, x, 0, Seq::<i128>::empty(), 0),
    decreases v@, 0nat,
{
    let mut out: Vec<i128> = Vec::new();
    let mut k: usize = 0;
    let ghost goal = int_lanes_with(v@, at, x, 0, Seq::<i128>::empty(), 0);
    let mut i: usize = 0;
    while i < v.len()
        invariant
            i <= v@.len(),
            int_lanes_with(v@, at, x, i as nat, out@, k) == goal,
            goal == int_lanes_with(v@, at, x, 0, Seq::<i128>::empty(), 0),
        decreases v@.len() - i,
    {
        let old_lane = &v[i];
        if k == at {
            out.push(x);
        } else {
            out.push(*old_lane);
        }
        k = next_index(k);
        i = i + 1;
    }
    out
}

pub open spec fn float_lanes_with(
    v: Seq<u64>,
    at: usize,
    x: u64,
    i: nat,
    out: Seq<u64>,
    k: usize,
) -> Seq<u64>
    decreases v, (v.len() - i) as nat,
{
    if i >= v.len() {
        out
    } else {
        let old_lane = v[i as int];
        let out = if k == at {
            let out = out.push(x);
            out
        } else {
            let out = out.push(old_lane);
            out
        };
        let k = following_index(k);
        float_lanes_with(v, at, x, i + 1, out, k)
    }
}

/// See [`float_lanes_with`].
pub fn bits_with(v: &Vec<u64>, at: usize, x: u64) -> (r: Vec<u64>)
    ensures
        r@ == float_lanes_with(v@, at, x, 0, Seq::<u64>::empty(), 0),
    decreases v@, 0nat,
{
    let mut out: Vec<u64> = Vec::new();
    let mut k: usize = 0;
    let ghost goal = float_lanes_with(v@, at, x, 0, Seq::<u64>::empty(), 0);
    let mut i: usize = 0;
    while i < v.len()
        invariant
            i <= v@.len(),
            float_lanes_with(v@, at, x, i as nat, out@, k) == goal,
            goal == float_lanes_with(v@, at, x, 0, Seq::<u64>::empty(), 0),
        decreases v@.len() - i,
    {
        let old_lane = &v[i];
        if k == at {
            out.push(x);
        } else {
            out.push(*old_lane);
        }
        k = next_index(k);
        i = i + 1;
    }
    out
}

pub open spec fn bool_lanes_with(
    v: Seq<bool>,
    at: usize,
    x: bool,
    i: nat,
    out: Seq<bool>,
    k: usize,
) -> Seq<bool>
    decreases v, (v.len() - i) as nat,
{
    if i >= v.len() {
        out
    } else {
        let old_lane = v[i as int];
        let out = if k == at {
            let out = out.push(x);
            out
        } else {
            let out = out.push(old_lane);
            out
        };
        let k = following_index(k);
        bool_lanes_with(v, at, x, i + 1, out, k)
    }
}

/// See [`bool_lanes_with`].
pub fn flags_with(v: &Vec<bool>, at: usize, x: bool) -> (r: Vec<bool>)
    ensures
        r@ == bool_lanes_with(v@, at, x, 0, Seq::<bool>::empty(), 0),
    decreases v@, 0nat,
{
    let mut out: Vec<bool> = Vec::new();
    let mut k: usize = 0;
    let ghost goal = bool_lanes_with(v@, at, x, 0, Seq::<bool>::empty(), 0);
    let mut i: usize = 0;
    while i < v.len()
        invariant
            i <= v@.len(),
            bool_lanes_with(v@, at, x, i as nat, out@, k) == goal,
            goal == bool_lanes_with(v@, at, x, 0, Seq::<bool>::empty(), 0),
        decreases v@.len() - i,
    {
        let old_lane = &v[i];
        if k == at {
            out.push(x);
        } else {
            out.push(*old_lane);
        }
        k = next_index(k);
        i = i + 1;
    }
    out
}

/// A vector with one lane replaced, in the way that a lane is built.
#[verifier::opaque]
pub open spec fn lane_set(
    dtype: Dtype,
    lanes: SimdLanesView,
    i: i64,
    value: ValueView,
    known: Seq<KnownView>,
) -> Result<SimdLanesView, EvalErrorView> {
    match index_within(i, lanes_counted(lanes), "SIMD lane"@) {
        Ok(out) => {
            let idx = out;
            match lanes {
                SimdLanesView::Int(v) => match int_of_value(value) {
                    Ok(out) => {
                        let n = out;
                        Ok(
                            SimdLanesView::Int(
                                int_lanes_with(
                                    v,
                                    idx,
                                    (wrapped(dtype, n as int) as i128),
                                    0,
                                    Seq::empty(),
                                    0,
                                )
                            )
                        )
                    },
                    Err(error) => Err(error),
                },
                SimdLanesView::Float(v) => match float_of_value(value, known) {
                    Ok(out) => {
                        let bits = out;
                        match lane_rounded(dtype, bits, known) {
                            Ok(out) => {
                                let rounded = out;
                                Ok(
                                    SimdLanesView::Float(
                                        float_lanes_with(v, idx, rounded, 0, Seq::empty(), 0)
                                    )
                                )
                            },
                            Err(error) => Err(error),
                        }
                    },
                    Err(error) => Err(error),
                },
                SimdLanesView::Bool(v) => match flag_of_value(value) {
                    Ok(out) => {
                        let flag = out;
                        Ok(SimdLanesView::Bool(bool_lanes_with(v, idx, flag, 0, Seq::empty(), 0)))
                    },
                    Err(error) => Err(error),
                },
            }
        },
        Err(error) => Err(error),
    }
}

/// See [`lane_set`].
pub fn set_simd_lane(
    dtype: Dtype,
    lanes: &SimdLanes,
    i: i64,
    value: &Value,
    known: &Vec<Known>,
) -> (r: Result<SimdLanes, EvalError>)
    ensures
        (match r { Ok(v) => Ok(v@), Err(v) => Err(v@) }) == lane_set(
            dtype,
            lanes@,
            i,
            value@,
            known_list_view(known@),
        ),
{
    proof { reveal(lane_set); }
    let idx: usize = match bounds_check(i, simd_width(lanes), "SIMD lane") {
        Ok(done) => done,
        Err(error) => {
            return Err(error);
        },
    };
    match lanes {
        SimdLanes::Int(v) => {
            let n: i128 = match value_to_int(value) {
                Ok(done) => done,
                Err(error) => {
                    return Err(error);
                },
            };
            Ok(SimdLanes::Int(ints_with(v, idx, wrap(dtype, n))))
        },
        SimdLanes::Float(v) => {
            let bits: u64 = match value_to_float(value, known) {
                Ok(done) => done,
                Err(error) => {
                    return Err(error);
                },
            };
            let rounded: u64 = match round_lane(dtype, bits, known) {
                Ok(done) => done,
                Err(error) => {
                    return Err(error);
                },
            };
            Ok(SimdLanes::Float(bits_with(v, idx, rounded)))
        },
        SimdLanes::Bool(v) => {
            let flag = match value_to_bool_lane(value) {
                Ok(done) => done,
                Err(error) => {
                    return Err(error);
                },
            };
            Ok(SimdLanes::Bool(flags_with(v, idx, flag)))
        },
    }
}

/// The element type and the width of a vector.
#[verifier::opaque]
pub open spec fn shape_of(value: ValueView) -> Option<(Dtype, usize)> {
    match value {
        ValueView::Simd { dtype, lanes } => Some((dtype, lanes_counted(lanes))),
        _ => None,
    }
}

/// See [`shape_of`].
pub fn simd_shape(value: &Value) -> (r: Option<(Dtype, usize)>)
    ensures
        r == shape_of(value@),
{
    proof { reveal(shape_of); }
    proof { unfold_value(*value); }
    match value {
        Value::Simd { dtype, lanes } => Some((*dtype, simd_width(lanes))),
        _ => {
            assert(!(value@ is Simd));
            None
        },
    }
}

/// An operand as integer lanes: its own, or the scalar in all of them.
#[verifier::opaque]
pub open spec fn as_int_lanes(
    value: ValueView,
    dtype: Dtype,
    width: usize,
) -> Result<Seq<i128>, EvalErrorView> {
    match value {
        ValueView::Simd { lanes, .. } => match lanes {
            SimdLanesView::Int(l) => Ok(l),
            _ => int_in_lanes(value, dtype, width),
        },
        _ => int_in_lanes(value, dtype, width),
    }
}

/// See [`as_int_lanes`].
pub fn to_int_lanes(
    value: &Value,
    dtype: Dtype,
    width: usize,
) -> (r: Result<Vec<i128>, EvalError>)
    ensures
        (match r { Ok(v) => Ok(v@), Err(v) => Err(v@) }) == as_int_lanes(value@, dtype, width),
{
    proof { reveal(as_int_lanes); }
    proof { unfold_value(*value); }
    match value {
        Value::Simd { lanes, .. } => {
            match lanes {
                SimdLanes::Int(l) => Ok(copy_vec(l)),
                _ => {
                    assert(!(lanes@ is Int));
                    splat_int(value, dtype, width)
                },
            }
        },
        _ => {
            assert(!(value@ is Simd));
            splat_int(value, dtype, width)
        },
    }
}

#[verifier::opaque]
pub open spec fn int_in_lanes(
    value: ValueView,
    dtype: Dtype,
    width: usize,
) -> Result<Seq<i128>, EvalErrorView> {
    match int_of_value(value) {
        Ok(out) => {
            let n = out;
            Ok(Seq::new(width as nat, |i: int| (wrapped(dtype, n as int) as i128)))
        },
        Err(error) => Err(error),
    }
}

/// See [`int_in_lanes`].
pub fn splat_int(value: &Value, dtype: Dtype, width: usize) -> (r: Result<Vec<i128>, EvalError>)
    ensures
        (match r { Ok(v) => Ok(v@), Err(v) => Err(v@) }) == int_in_lanes(value@, dtype, width),
{
    proof { reveal(int_in_lanes); }
    let n: i128 = match value_to_int(value) {
        Ok(done) => done,
        Err(error) => {
            return Err(error);
        },
    };
    Ok(repeated_ints(wrap(dtype, n), width))
}

#[verifier::opaque]
pub open spec fn as_float_lanes(
    value: ValueView,
    dtype: Dtype,
    width: usize,
    known: Seq<KnownView>,
) -> Result<Seq<u64>, EvalErrorView> {
    match value {
        ValueView::Simd { lanes, .. } => match lanes {
            SimdLanesView::Float(l) => Ok(l),
            _ => float_in_lanes(value, dtype, width, known),
        },
        _ => float_in_lanes(value, dtype, width, known),
    }
}

/// See [`as_float_lanes`].
pub fn to_float_lanes(
    value: &Value,
    dtype: Dtype,
    width: usize,
    known: &Vec<Known>,
) -> (r: Result<Vec<u64>, EvalError>)
    ensures
        (
            match r { Ok(v) => Ok(v@), Err(v) => Err(v@) }
        ) == as_float_lanes(value@, dtype, width, known_list_view(known@)),
{
    proof { reveal(as_float_lanes); }
    proof { unfold_value(*value); }
    match value {
        Value::Simd { lanes, .. } => {
            match lanes {
                SimdLanes::Float(l) => Ok(copy_vec(l)),
                _ => {
                    assert(!(lanes@ is Float));
                    splat_float(value, dtype, width, known)
                },
            }
        },
        _ => {
            assert(!(value@ is Simd));
            splat_float(value, dtype, width, known)
        },
    }
}

#[verifier::opaque]
pub open spec fn float_in_lanes(
    value: ValueView,
    dtype: Dtype,
    width: usize,
    known: Seq<KnownView>,
) -> Result<Seq<u64>, EvalErrorView> {
    match float_of_value(value, known) {
        Ok(out) => {
            let bits = out;
            match lane_rounded(dtype, bits, known) {
                Ok(out) => {
                    let rounded = out;
                    Ok(Seq::new(width as nat, |i: int| rounded))
                },
                Err(error) => Err(error),
            }
        },
        Err(error) => Err(error),
    }
}

/// See [`float_in_lanes`].
pub fn splat_float(
    value: &Value,
    dtype: Dtype,
    width: usize,
    known: &Vec<Known>,
) -> (r: Result<Vec<u64>, EvalError>)
    ensures
        (
            match r { Ok(v) => Ok(v@), Err(v) => Err(v@) }
        ) == float_in_lanes(value@, dtype, width, known_list_view(known@)),
{
    proof { reveal(float_in_lanes); }
    let bits: u64 = match value_to_float(value, known) {
        Ok(done) => done,
        Err(error) => {
            return Err(error);
        },
    };
    let rounded: u64 = match round_lane(dtype, bits, known) {
        Ok(done) => done,
        Err(error) => {
            return Err(error);
        },
    };
    Ok(repeated_bits(rounded, width))
}

#[verifier::opaque]
pub open spec fn as_bool_lanes(
    value: ValueView,
    width: usize,
) -> Result<Seq<bool>, EvalErrorView> {
    match value {
        ValueView::Simd { lanes, .. } => match lanes {
            SimdLanesView::Bool(l) => Ok(l),
            _ => flag_in_lanes(value, width),
        },
        _ => flag_in_lanes(value, width),
    }
}

/// See [`as_bool_lanes`].
pub fn to_bool_lanes(value: &Value, width: usize) -> (r: Result<Vec<bool>, EvalError>)
    ensures
        (match r { Ok(v) => Ok(v@), Err(v) => Err(v@) }) == as_bool_lanes(value@, width),
{
    proof { reveal(as_bool_lanes); }
    proof { unfold_value(*value); }
    match value {
        Value::Simd { lanes, .. } => {
            match lanes {
                SimdLanes::Bool(l) => Ok(copy_vec(l)),
                _ => {
                    assert(!(lanes@ is Bool));
                    splat_bool(value, width)
                },
            }
        },
        _ => {
            assert(!(value@ is Simd));
            splat_bool(value, width)
        },
    }
}

#[verifier::opaque]
pub open spec fn flag_in_lanes(
    value: ValueView,
    width: usize,
) -> Result<Seq<bool>, EvalErrorView> {
    match flag_of_value(value) {
        Ok(out) => {
            let flag = out;
            Ok(Seq::new(width as nat, |i: int| flag))
        },
        Err(error) => Err(error),
    }
}

/// See [`flag_in_lanes`].
pub fn splat_bool(value: &Value, width: usize) -> (r: Result<Vec<bool>, EvalError>)
    ensures
        (match r { Ok(v) => Ok(v@), Err(v) => Err(v@) }) == flag_in_lanes(value@, width),
{
    proof { reveal(flag_in_lanes); }
    let flag = match value_to_bool_lane(value) {
        Ok(done) => done,
        Err(error) => {
            return Err(error);
        },
    };
    Ok(repeated_flags(flag, width))
}

#[verifier::opaque]
pub open spec fn bool_lane_result(op: InfixOp, a: bool, b: bool) -> bool {
    match op {
        InfixOp::Eq => a == b,
        InfixOp::Ne => a != b,
        _ => false,
    }
}

/// See [`bool_lane_result`].
pub fn bool_lane(op: InfixOp, a: bool, b: bool) -> (r: bool)
    ensures
        r == bool_lane_result(op, a, b),
{
    proof { reveal(bool_lane_result); }
    match op {
        InfixOp::Eq => a == b,
        InfixOp::Ne => a != b,
        _ => false,
    }
}

pub open spec fn bools_zipped(
    xs: Seq<bool>,
    ys: Seq<bool>,
    op: InfixOp,
    i: nat,
    out: Seq<bool>,
    k: usize,
) -> Seq<bool>
    decreases xs, (xs.len() - i) as nat,
{
    if i >= xs.len() {
        out
    } else {
        let x = xs[i as int];
        if k >= ys.len() {
            out
        } else {
            let out = out.push(bool_lane_result(op, x, ys[k as int]));
            let k = following_index(k);
            bools_zipped(xs, ys, op, i + 1, out, k)
        }
    }
}

/// See [`bools_zipped`].
pub fn zip_bools(xs: &Vec<bool>, ys: &Vec<bool>, op: InfixOp) -> (r: Vec<bool>)
    ensures
        r@ == bools_zipped(xs@, ys@, op, 0, Seq::<bool>::empty(), 0),
    decreases xs@, 0nat,
{
    let mut out: Vec<bool> = Vec::new();
    let mut k: usize = 0;
    let ghost goal = bools_zipped(xs@, ys@, op, 0, Seq::<bool>::empty(), 0);
    let mut i: usize = 0;
    while i < xs.len()
        invariant
            i <= xs@.len(),
            bools_zipped(xs@, ys@, op, i as nat, out@, k) == goal,
            goal == bools_zipped(xs@, ys@, op, 0, Seq::<bool>::empty(), 0),
        decreases xs@.len() - i,
    {
        let x = &xs[i];
        if k >= ys.len() {
            return out;
        }
        out.push(bool_lane(op, *x, ys[k]));
        k = next_index(k);
        i = i + 1;
    }
    out
}

pub open spec fn ints_zipped(
    xs: Seq<i128>,
    ys: Seq<i128>,
    op: InfixOp,
    dtype: Dtype,
    i: nat,
    out: Seq<i128>,
    k: usize,
) -> Seq<i128>
    decreases xs, (xs.len() - i) as nat,
{
    if i >= xs.len() {
        out
    } else {
        let x = xs[i as int];
        if k >= ys.len() {
            out
        } else {
            let out = out.push((lane_result(op, dtype, x as int, ys[k as int] as int) as i128));
            let k = following_index(k);
            ints_zipped(xs, ys, op, dtype, i + 1, out, k)
        }
    }
}

/// See [`ints_zipped`].
pub fn zip_ints(xs: &Vec<i128>, ys: &Vec<i128>, op: InfixOp, dtype: Dtype) -> (r: Vec<i128>)
    ensures
        r@ == ints_zipped(xs@, ys@, op, dtype, 0, Seq::<i128>::empty(), 0),
    decreases xs@, 0nat,
{
    let mut out: Vec<i128> = Vec::new();
    let mut k: usize = 0;
    let ghost goal = ints_zipped(xs@, ys@, op, dtype, 0, Seq::<i128>::empty(), 0);
    let mut i: usize = 0;
    while i < xs.len()
        invariant
            i <= xs@.len(),
            ints_zipped(xs@, ys@, op, dtype, i as nat, out@, k) == goal,
            goal == ints_zipped(xs@, ys@, op, dtype, 0, Seq::<i128>::empty(), 0),
        decreases xs@.len() - i,
    {
        let x = &xs[i];
        if k >= ys.len() {
            return out;
        }
        out.push(int_lane(op, dtype, *x, ys[k]));
        k = next_index(k);
        i = i + 1;
    }
    out
}

pub open spec fn int_lanes_compared(
    xs: Seq<i128>,
    ys: Seq<i128>,
    op: InfixOp,
    i: nat,
    out: Seq<bool>,
    k: usize,
) -> Seq<bool>
    decreases xs, (xs.len() - i) as nat,
{
    if i >= xs.len() {
        out
    } else {
        let x = xs[i as int];
        if k >= ys.len() {
            out
        } else {
            let out = out.push(comparison(op, x as int, ys[k as int] as int));
            let k = following_index(k);
            int_lanes_compared(xs, ys, op, i + 1, out, k)
        }
    }
}

/// See [`int_lanes_compared`].
pub fn compare_int_lanes(xs: &Vec<i128>, ys: &Vec<i128>, op: InfixOp) -> (r: Vec<bool>)
    ensures
        r@ == int_lanes_compared(xs@, ys@, op, 0, Seq::<bool>::empty(), 0),
    decreases xs@, 0nat,
{
    let mut out: Vec<bool> = Vec::new();
    let mut k: usize = 0;
    let ghost goal = int_lanes_compared(xs@, ys@, op, 0, Seq::<bool>::empty(), 0);
    let mut i: usize = 0;
    while i < xs.len()
        invariant
            i <= xs@.len(),
            int_lanes_compared(xs@, ys@, op, i as nat, out@, k) == goal,
            goal == int_lanes_compared(xs@, ys@, op, 0, Seq::<bool>::empty(), 0),
        decreases xs@.len() - i,
    {
        let x = &xs[i];
        if k >= ys.len() {
            return out;
        }
        out.push(int_comparison(op, *x, ys[k]));
        k = next_index(k);
        i = i + 1;
    }
    out
}

/// An arithmetic operator on two float lanes. Only the four basic ones are defined.
#[verifier::opaque]
pub open spec fn float_lane_result(
    op: InfixOp,
    dtype: Dtype,
    a: u64,
    b: u64,
    known: Seq<KnownView>,
) -> Result<u64, EvalErrorView> {
    if (
        op matches InfixOp::Add
    ) || (op matches InfixOp::Sub) || (op matches InfixOp::Mul) || (op matches InfixOp::Div) {
        match bits_asked(known, QuestionView::Binary(op, a, b)) {
            Ok(out) => {
                let bits = out;
                lane_rounded(dtype, bits, known)
            },
            Err(error) => Err(error),
        }
    } else {
        Ok(0)
    }
}

/// See [`float_lane_result`].
pub fn float_lane(
    op: InfixOp,
    dtype: Dtype,
    a: u64,
    b: u64,
    known: &Vec<Known>,
) -> (r: Result<u64, EvalError>)
    ensures
        (
            match r { Ok(v) => Ok(v), Err(v) => Err(v@) }
        ) == float_lane_result(op, dtype, a, b, known_list_view(known@)),
{
    proof { reveal(float_lane_result); }
    if matches!(op, InfixOp::Add) || matches!(op, InfixOp::Sub) || matches!(op, InfixOp::Mul) || matches!(op, InfixOp::Div) {
        let bits: u64 = match asked_bits(known, Question::Binary(op, a, b)) {
            Ok(done) => done,
            Err(error) => {
                return Err(error);
            },
        };
        round_lane(dtype, bits, known)
    } else {
        Ok(0)
    }
}

pub open spec fn floats_zipped(
    xs: Seq<u64>,
    ys: Seq<u64>,
    op: InfixOp,
    dtype: Dtype,
    known: Seq<KnownView>,
    i: nat,
    out: Seq<u64>,
    k: usize,
) -> Result<Seq<u64>, EvalErrorView>
    decreases xs, (xs.len() - i) as nat,
{
    if i >= xs.len() {
        Ok(out)
    } else {
        let x = xs[i as int];
        if k >= ys.len() {
            Ok(out)
        } else {
            match float_lane_result(op, dtype, x, ys[k as int], known) {
                Ok(taken) => {
                    let made = taken;
                    let out = out.push(made);
                    let k = following_index(k);
                    floats_zipped(xs, ys, op, dtype, known, i + 1, out, k)
                },
                Err(error) => Err(error),
            }
        }
    }
}

/// See [`floats_zipped`].
pub fn zip_floats(
    xs: &Vec<u64>,
    ys: &Vec<u64>,
    op: InfixOp,
    dtype: Dtype,
    known: &Vec<Known>,
) -> (r: Result<Vec<u64>, EvalError>)
    ensures
        (match r { Ok(v) => Ok(v@), Err(v) => Err(v@) }) == floats_zipped(
            xs@,
            ys@,
            op,
            dtype,
            known_list_view(known@),
            0,
            Seq::<u64>::empty(),
            0,
        ),
    decreases xs@, 0nat,
{
    let mut out: Vec<u64> = Vec::new();
    let mut k: usize = 0;
    let ghost goal = floats_zipped(
        xs@,
        ys@,
        op,
        dtype,
        known_list_view(known@),
        0,
        Seq::<u64>::empty(),
        0,
    );
    let mut i: usize = 0;
    while i < xs.len()
        invariant
            i <= xs@.len(),
            floats_zipped(xs@, ys@, op, dtype, known_list_view(known@), i as nat, out@, k) == goal,
            goal == floats_zipped(
                xs@,
                ys@,
                op,
                dtype,
                known_list_view(known@),
                0,
                Seq::<u64>::empty(),
                0,
            ),
        decreases xs@.len() - i,
    {
        let x = &xs[i];
        if k >= ys.len() {
            return Ok(out);
        }
        let made: u64 = match float_lane(op, dtype, *x, ys[k], known) {
            Ok(done) => done,
            Err(error) => {
                return Err(error);
            },
        };
        out.push(made);
        k = next_index(k);
        i = i + 1;
    }
    Ok(out)
}

pub open spec fn float_lanes_compared(
    xs: Seq<u64>,
    ys: Seq<u64>,
    op: InfixOp,
    known: Seq<KnownView>,
    i: nat,
    out: Seq<bool>,
    k: usize,
) -> Result<Seq<bool>, EvalErrorView>
    decreases xs, (xs.len() - i) as nat,
{
    if i >= xs.len() {
        Ok(out)
    } else {
        let x = xs[i as int];
        if k >= ys.len() {
            Ok(out)
        } else {
            match flag_asked(known, QuestionView::Binary(op, x, ys[k as int])) {
                Ok(taken) => {
                    let made = taken;
                    let out = out.push(made);
                    let k = following_index(k);
                    float_lanes_compared(xs, ys, op, known, i + 1, out, k)
                },
                Err(error) => Err(error),
            }
        }
    }
}

/// See [`float_lanes_compared`].
pub fn compare_float_lanes(
    xs: &Vec<u64>,
    ys: &Vec<u64>,
    op: InfixOp,
    known: &Vec<Known>,
) -> (r: Result<Vec<bool>, EvalError>)
    ensures
        (match r { Ok(v) => Ok(v@), Err(v) => Err(v@) }) == float_lanes_compared(
            xs@,
            ys@,
            op,
            known_list_view(known@),
            0,
            Seq::<bool>::empty(),
            0,
        ),
    decreases xs@, 0nat,
{
    let mut out: Vec<bool> = Vec::new();
    let mut k: usize = 0;
    let ghost goal = float_lanes_compared(
        xs@,
        ys@,
        op,
        known_list_view(known@),
        0,
        Seq::<bool>::empty(),
        0,
    );
    let mut i: usize = 0;
    while i < xs.len()
        invariant
            i <= xs@.len(),
            float_lanes_compared(xs@, ys@, op, known_list_view(known@), i as nat, out@, k) == goal,
            goal == float_lanes_compared(
                xs@,
                ys@,
                op,
                known_list_view(known@),
                0,
                Seq::<bool>::empty(),
                0,
            ),
        decreases xs@.len() - i,
    {
        let x = &xs[i];
        if k >= ys.len() {
            return Ok(out);
        }
        let made = match asked_flag(known, Question::Binary(op, *x, ys[k])) {
            Ok(done) => done,
            Err(error) => {
                return Err(error);
            },
        };
        out.push(made);
        k = next_index(k);
        i = i + 1;
    }
    Ok(out)
}

#[verifier::opaque]
pub open spec fn mask_value(flags: Seq<bool>) -> ValueView {
    ValueView::Simd { dtype: Dtype::Bool, lanes: SimdLanesView::Bool(flags) }
}

/// See [`mask_value`].
pub fn mask(flags: Vec<bool>) -> (r: Value)
    ensures
        r@ == mask_value(flags@),
{
    proof { reveal(mask_value); }
    let value = Value::Simd { dtype: Dtype::Bool, lanes: SimdLanes::Bool(flags) };
    proof { unfold_value(value); }
    value
}

/// An operator on the lanes of two operands. A scalar stands for a vector of it.
#[verifier::opaque]
pub open spec fn lane_operator(
    op: InfixOp,
    left: ValueView,
    right: ValueView,
    known: Seq<KnownView>,
) -> Result<ValueView, EvalErrorView> {
    match shape_of(left) {
        Some(shape) => lane_operator_on(op, shape.0, shape.1, left, right, known),
        None => match shape_of(right) {
            Some(shape) => lane_operator_on(op, shape.0, shape.1, left, right, known),
            None => Err(lane_unfit(left, "a"@)),
        },
    }
}

/// See [`lane_operator`].
pub fn simd_binop(
    op: InfixOp,
    left: &Value,
    right: &Value,
    known: &Vec<Known>,
) -> (r: Result<Value, EvalError>)
    ensures
        (
            match r { Ok(v) => Ok(v@), Err(v) => Err(v@) }
        ) == lane_operator(op, left@, right@, known_list_view(known@)),
{
    proof { reveal(lane_operator); }
    match simd_shape(left) {
        Some(shape) => simd_op(op, shape.0, shape.1, left, right, known),
        None => {
            match simd_shape(right) {
                Some(shape) => simd_op(op, shape.0, shape.1, left, right, known),
                None => Err(no_lane(left, "a")),
            }
        },
    }
}

#[verifier::opaque]
pub open spec fn lane_operator_on(
    op: InfixOp,
    dtype: Dtype,
    width: usize,
    left: ValueView,
    right: ValueView,
    known: Seq<KnownView>,
) -> Result<ValueView, EvalErrorView> {
    if (dtype matches Dtype::Bool) {
        match as_bool_lanes(left, width) {
            Ok(out) => {
                let xs = out;
                match as_bool_lanes(right, width) {
                    Ok(out) => {
                        let ys = out;
                        Ok(mask_value(bools_zipped(xs, ys, op, 0, Seq::empty(), 0)))
                    },
                    Err(error) => Err(error),
                }
            },
            Err(error) => Err(error),
        }
    } else if dtype_is_float(dtype) {
        float_lane_operator(op, dtype, width, left, right, known)
    } else {
        int_lane_operator(op, dtype, width, left, right)
    }
}

/// See [`lane_operator_on`].
pub fn simd_op(
    op: InfixOp,
    dtype: Dtype,
    width: usize,
    left: &Value,
    right: &Value,
    known: &Vec<Known>,
) -> (r: Result<Value, EvalError>)
    ensures
        (match r { Ok(v) => Ok(v@), Err(v) => Err(v@) }) == lane_operator_on(
            op,
            dtype,
            width,
            left@,
            right@,
            known_list_view(known@),
        ),
{
    proof { reveal(lane_operator_on); }
    if matches!(dtype, Dtype::Bool) {
        let xs = match to_bool_lanes(left, width) {
            Ok(done) => done,
            Err(error) => {
                return Err(error);
            },
        };
        let ys = match to_bool_lanes(right, width) {
            Ok(done) => done,
            Err(error) => {
                return Err(error);
            },
        };
        Ok(mask(zip_bools(&xs, &ys, op)))
    } else if is_float_dtype(dtype) {
        simd_float_op(op, dtype, width, left, right, known)
    } else {
        simd_int_op(op, dtype, width, left, right)
    }
}

#[verifier::opaque]
pub open spec fn int_lane_operator(
    op: InfixOp,
    dtype: Dtype,
    width: usize,
    left: ValueView,
    right: ValueView,
) -> Result<ValueView, EvalErrorView> {
    match as_int_lanes(left, dtype, width) {
        Ok(out) => {
            let xs = out;
            match as_int_lanes(right, dtype, width) {
                Ok(out) => {
                    let ys = out;
                    if orders(op) {
                        Ok(mask_value(int_lanes_compared(xs, ys, op, 0, Seq::empty(), 0)))
                    } else {
                        Ok(
                            ValueView::Simd {
                                dtype,
                                lanes: SimdLanesView::Int(
                                    ints_zipped(xs, ys, op, dtype, 0, Seq::empty(), 0)
                                ),
                            }
                        )
                    }
                },
                Err(error) => Err(error),
            }
        },
        Err(error) => Err(error),
    }
}

/// See [`int_lane_operator`].
pub fn simd_int_op(
    op: InfixOp,
    dtype: Dtype,
    width: usize,
    left: &Value,
    right: &Value,
) -> (r: Result<Value, EvalError>)
    ensures
        (
            match r { Ok(v) => Ok(v@), Err(v) => Err(v@) }
        ) == int_lane_operator(op, dtype, width, left@, right@),
{
    proof { reveal(int_lane_operator); }
    let xs = match to_int_lanes(left, dtype, width) {
        Ok(done) => done,
        Err(error) => {
            return Err(error);
        },
    };
    let ys = match to_int_lanes(right, dtype, width) {
        Ok(done) => done,
        Err(error) => {
            return Err(error);
        },
    };
    if is_ordering(op) {
        Ok(mask(compare_int_lanes(&xs, &ys, op)))
    } else {
        let value = Value::Simd { dtype, lanes: SimdLanes::Int(zip_ints(&xs, &ys, op, dtype)) };
        proof { unfold_value(value); }
        Ok(value)
    }
}

#[verifier::opaque]
pub open spec fn float_lane_operator(
    op: InfixOp,
    dtype: Dtype,
    width: usize,
    left: ValueView,
    right: ValueView,
    known: Seq<KnownView>,
) -> Result<ValueView, EvalErrorView> {
    match as_float_lanes(left, dtype, width, known) {
        Ok(out) => {
            let xs = out;
            match as_float_lanes(right, dtype, width, known) {
                Ok(out) => {
                    let ys = out;
                    if orders(op) {
                        match float_lanes_compared(xs, ys, op, known, 0, Seq::empty(), 0) {
                            Ok(out) => {
                                let flags = out;
                                Ok(mask_value(flags))
                            },
                            Err(error) => Err(error),
                        }
                    } else {
                        match floats_zipped(xs, ys, op, dtype, known, 0, Seq::empty(), 0) {
                            Ok(out) => {
                                let made = out;
                                Ok(ValueView::Simd { dtype, lanes: SimdLanesView::Float(made) })
                            },
                            Err(error) => Err(error),
                        }
                    }
                },
                Err(error) => Err(error),
            }
        },
        Err(error) => Err(error),
    }
}

/// See [`float_lane_operator`].
pub fn simd_float_op(
    op: InfixOp,
    dtype: Dtype,
    width: usize,
    left: &Value,
    right: &Value,
    known: &Vec<Known>,
) -> (r: Result<Value, EvalError>)
    ensures
        (match r { Ok(v) => Ok(v@), Err(v) => Err(v@) }) == float_lane_operator(
            op,
            dtype,
            width,
            left@,
            right@,
            known_list_view(known@),
        ),
{
    proof { reveal(float_lane_operator); }
    let xs = match to_float_lanes(left, dtype, width, known) {
        Ok(done) => done,
        Err(error) => {
            return Err(error);
        },
    };
    let ys = match to_float_lanes(right, dtype, width, known) {
        Ok(done) => done,
        Err(error) => {
            return Err(error);
        },
    };
    if is_ordering(op) {
        let flags = match compare_float_lanes(&xs, &ys, op, known) {
            Ok(done) => done,
            Err(error) => {
                return Err(error);
            },
        };
        Ok(mask(flags))
    } else {
        let made = match zip_floats(&xs, &ys, op, dtype, known) {
            Ok(done) => done,
            Err(error) => {
                return Err(error);
            },
        };
        let value = Value::Simd { dtype, lanes: SimdLanes::Float(made) };
        proof { unfold_value(value); }
        Ok(value)
    }
}

/// The element for a lane: each has its own, or all have the only one.
#[verifier::opaque]
pub open spec fn element_picked(values: Seq<ValueView>, k: usize) -> ValueView {
    if values.len() == 1 {
        values[0]
    } else if k < values.len() {
        values[k as int]
    } else {
        ValueView::NoneValue
    }
}

/// See [`element_picked`].
pub fn picked(values: &Vec<Value>, k: usize) -> (r: Value)
    ensures
        r@ == element_picked(value_list_view(values@), k),
{
    proof { reveal(element_picked); }
    if values.len() == 1 {
        clone_value((&values[0]))
    } else if k < values.len() {
        clone_value((&values[k]))
    } else {
        Value::NoneValue
    }
}

#[verifier::opaque]
pub open spec fn values_suffice(values: Seq<ValueView>, width: usize) -> bool {
    values.len() == 1 || width <= values.len()
}

/// See [`values_suffice`].
pub fn enough_values(values: &Vec<Value>, width: usize) -> (r: bool)
    ensures
        r == values_suffice(value_list_view(values@), width),
{
    proof { reveal(values_suffice); }
    values.len() == 1 || width <= values.len()
}

pub open spec fn ints_built(
    values: Seq<ValueView>,
    dtype: Dtype,
    found: Seq<i128>,
    left: usize,
) -> Result<Seq<i128>, EvalErrorView>
    decreases left as nat,
{
    if left > 0 {
        match int_of_value(element_picked(values, found.len() as usize)) {
            Ok(out) => {
                let n = out;
                let out = found;
                let out = out.push((wrapped(dtype, n as int) as i128));
                ints_built(values, dtype, out, (left - 1) as usize)
            },
            Err(error) => Err(error),
        }
    } else {
        Ok(found)
    }
}

/// See [`ints_built`].
pub fn built_ints(
    values: &Vec<Value>,
    dtype: Dtype,
    found: Vec<i128>,
    left: usize,
) -> (r: Result<Vec<i128>, EvalError>)
    ensures
        (
            match r { Ok(v) => Ok(v@), Err(v) => Err(v@) }
        ) == ints_built(value_list_view(values@), dtype, found@, left),
    decreases left as nat,
{
    if left > 0 {
        let n: i128 = match value_to_int(&picked(values, found.len())) {
            Ok(done) => done,
            Err(error) => {
                return Err(error);
            },
        };
        let mut out = found;
        out.push(wrap(dtype, n));
        built_ints(values, dtype, out, left - 1)
    } else {
        Ok(found)
    }
}

pub open spec fn floats_built(
    values: Seq<ValueView>,
    dtype: Dtype,
    found: Seq<u64>,
    left: usize,
    known: Seq<KnownView>,
) -> Result<Seq<u64>, EvalErrorView>
    decreases left as nat,
{
    if left > 0 {
        match float_of_value(element_picked(values, found.len() as usize), known) {
            Ok(out) => {
                let bits = out;
                match lane_rounded(dtype, bits, known) {
                    Ok(out) => {
                        let rounded = out;
                        let out = found;
                        let out = out.push(rounded);
                        floats_built(values, dtype, out, (left - 1) as usize, known)
                    },
                    Err(error) => Err(error),
                }
            },
            Err(error) => Err(error),
        }
    } else {
        Ok(found)
    }
}

/// See [`floats_built`].
pub fn built_floats(
    values: &Vec<Value>,
    dtype: Dtype,
    found: Vec<u64>,
    left: usize,
    known: &Vec<Known>,
) -> (r: Result<Vec<u64>, EvalError>)
    ensures
        (match r { Ok(v) => Ok(v@), Err(v) => Err(v@) }) == floats_built(
            value_list_view(values@),
            dtype,
            found@,
            left,
            known_list_view(known@),
        ),
    decreases left as nat,
{
    if left > 0 {
        let bits: u64 = match value_to_float(&picked(values, found.len()), known) {
            Ok(done) => done,
            Err(error) => {
                return Err(error);
            },
        };
        let rounded: u64 = match round_lane(dtype, bits, known) {
            Ok(done) => done,
            Err(error) => {
                return Err(error);
            },
        };
        let mut out = found;
        out.push(rounded);
        built_floats(values, dtype, out, left - 1, known)
    } else {
        Ok(found)
    }
}

pub open spec fn bools_built(
    values: Seq<ValueView>,
    found: Seq<bool>,
    left: usize,
) -> Result<Seq<bool>, EvalErrorView>
    decreases left as nat,
{
    if left > 0 {
        match flag_of_value(element_picked(values, found.len() as usize)) {
            Ok(out) => {
                let flag = out;
                let out = found;
                let out = out.push(flag);
                bools_built(values, out, (left - 1) as usize)
            },
            Err(error) => Err(error),
        }
    } else {
        Ok(found)
    }
}

/// See [`bools_built`].
pub fn built_bools(
    values: &Vec<Value>,
    found: Vec<bool>,
    left: usize,
) -> (r: Result<Vec<bool>, EvalError>)
    ensures
        (
            match r { Ok(v) => Ok(v@), Err(v) => Err(v@) }
        ) == bools_built(value_list_view(values@), found@, left),
    decreases left as nat,
{
    if left > 0 {
        let flag = match value_to_bool_lane(&picked(values, found.len())) {
            Ok(done) => done,
            Err(error) => {
                return Err(error);
            },
        };
        let mut out = found;
        out.push(flag);
        built_bools(values, out, left - 1)
    } else {
        Ok(found)
    }
}

/// A vector from its elements: one for each lane, or one for all of them.
#[verifier::opaque]
pub open spec fn vector_built(
    dtype: Dtype,
    width: usize,
    values: Seq<ValueView>,
    known: Seq<KnownView>,
) -> Result<ValueView, EvalErrorView> {
    if !values_suffice(values, width) {
        Err(EvalErrorView::OutOfBounds)
    } else if (dtype matches Dtype::Bool) {
        match bools_built(values, Seq::empty(), width) {
            Ok(out) => {
                let flags = out;
                Ok(vector_value(dtype, SimdLanesView::Bool(flags)))
            },
            Err(error) => Err(error),
        }
    } else if dtype_is_float(dtype) {
        match floats_built(values, dtype, Seq::empty(), width, known) {
            Ok(out) => {
                let bits = out;
                Ok(vector_value(dtype, SimdLanesView::Float(bits)))
            },
            Err(error) => Err(error),
        }
    } else {
        match ints_built(values, dtype, Seq::empty(), width) {
            Ok(out) => {
                let ints = out;
                Ok(vector_value(dtype, SimdLanesView::Int(ints)))
            },
            Err(error) => Err(error),
        }
    }
}

/// See [`vector_built`].
pub fn simd_from(
    dtype: Dtype,
    width: usize,
    values: &Vec<Value>,
    known: &Vec<Known>,
) -> (r: Result<Value, EvalError>)
    ensures
        (match r { Ok(v) => Ok(v@), Err(v) => Err(v@) }) == vector_built(
            dtype,
            width,
            value_list_view(values@),
            known_list_view(known@),
        ),
{
    proof { reveal(vector_built); }
    if !enough_values(values, width) {
        Err(EvalError::OutOfBounds)
    } else if matches!(dtype, Dtype::Bool) {
        let list: Vec<bool> = Vec::new();
        assert(list@ =~= Seq::<bool>::empty());
        let flags = match built_bools(values, list, width) {
            Ok(done) => done,
            Err(error) => {
                return Err(error);
            },
        };
        Ok(simd_value(dtype, SimdLanes::Bool(flags)))
    } else if is_float_dtype(dtype) {
        let list2: Vec<u64> = Vec::new();
        assert(list2@ =~= Seq::<u64>::empty());
        let bits = match built_floats(values, dtype, list2, width, known) {
            Ok(done) => done,
            Err(error) => {
                return Err(error);
            },
        };
        Ok(simd_value(dtype, SimdLanes::Float(bits)))
    } else {
        let list3: Vec<i128> = Vec::new();
        assert(list3@ =~= Seq::<i128>::empty());
        let ints = match built_ints(values, dtype, list3, width) {
            Ok(done) => done,
            Err(error) => {
                return Err(error);
            },
        };
        Ok(simd_value(dtype, SimdLanes::Int(ints)))
    }
}

pub open spec fn ints_shown(v: Seq<i128>, i: nat, out: Seq<char>, first: bool) -> Seq<char>
    decreases v, (v.len() - i) as nat,
{
    if i >= v.len() {
        out
    } else {
        let n = v[i as int];
        let out = if first {
            signed_decimal(n as int)
        } else {
            out + ", "@ + signed_decimal(n as int)
        };
        let first = false;
        ints_shown(v, i + 1, out, first)
    }
}

/// See [`ints_shown`].
pub fn show_ints(v: &Vec<i128>) -> (r: String)
    ensures
        r@ == ints_shown(v@, 0, ""@, true),
    decreases v@, 0nat,
{
    let mut out: String = "".to_owned();
    let mut first: bool = true;
    let ghost goal = ints_shown(v@, 0, ""@, true);
    let mut i: usize = 0;
    while i < v.len()
        invariant
            i <= v@.len(),
            ints_shown(v@, i as nat, out@, first) == goal,
            goal == ints_shown(v@, 0, ""@, true),
        decreases v@.len() - i,
    {
        let n = &v[i];
        out = if first {
            show_lane(*n)
        } else {
            cat3(out.as_str(), ", ", show_lane(*n).as_str())
        };
        first = false;
        i = i + 1;
    }
    out
}

pub open spec fn bools_shown(v: Seq<bool>, i: nat, out: Seq<char>, first: bool) -> Seq<char>
    decreases v, (v.len() - i) as nat,
{
    if i >= v.len() {
        out
    } else {
        let b = v[i as int];
        let out = if first {
            bool_shown(b)
        } else {
            out + ", "@ + bool_shown(b)
        };
        let first = false;
        bools_shown(v, i + 1, out, first)
    }
}

/// See [`bools_shown`].
pub fn show_bools(v: &Vec<bool>) -> (r: String)
    ensures
        r@ == bools_shown(v@, 0, ""@, true),
    decreases v@, 0nat,
{
    let mut out: String = "".to_owned();
    let mut first: bool = true;
    let ghost goal = bools_shown(v@, 0, ""@, true);
    let mut i: usize = 0;
    while i < v.len()
        invariant
            i <= v@.len(),
            bools_shown(v@, i as nat, out@, first) == goal,
            goal == bools_shown(v@, 0, ""@, true),
        decreases v@.len() - i,
    {
        let b = &v[i];
        out = if first {
            show_bool(*b)
        } else {
            cat3(out.as_str(), ", ", show_bool(*b).as_str())
        };
        first = false;
        i = i + 1;
    }
    out
}

#[verifier::opaque]
pub open spec fn bool_shown(b: bool) -> Seq<char> {
    if b {
        "true"@
    } else {
        "false"@
    }
}

/// See [`bool_shown`].
pub fn show_bool(b: bool) -> (r: String)
    ensures
        r@ == bool_shown(b),
{
    proof { reveal(bool_shown); }
    if b {
        "true".to_owned()
    } else {
        "false".to_owned()
    }
}

pub open spec fn floats_shown(
    v: Seq<u64>,
    known: Seq<KnownView>,
    i: nat,
    out: Seq<char>,
    first: bool,
) -> Result<Seq<char>, EvalErrorView>
    decreases v, (v.len() - i) as nat,
{
    if i >= v.len() {
        Ok(out)
    } else {
        let bits = v[i as int];
        match text_asked(known, QuestionView::Show(bits)) {
            Ok(taken) => {
                let one = taken;
                let out = if first {
                    one
                } else {
                    out + ", "@ + one
                };
                let first = false;
                floats_shown(v, known, i + 1, out, first)
            },
            Err(error) => Err(error),
        }
    }
}

/// See [`floats_shown`].
pub fn show_floats(v: &Vec<u64>, known: &Vec<Known>) -> (r: Result<String, EvalError>)
    ensures
        (match r { Ok(v) => Ok(v@), Err(v) => Err(v@) }) == floats_shown(v@, known_list_view(known@), 0, ""@, true),
    decreases v@, 0nat,
{
    let mut out: String = "".to_owned();
    let mut first: bool = true;
    let ghost goal = floats_shown(v@, known_list_view(known@), 0, ""@, true);
    let mut i: usize = 0;
    while i < v.len()
        invariant
            i <= v@.len(),
            floats_shown(v@, known_list_view(known@), i as nat, out@, first) == goal,
            goal == floats_shown(v@, known_list_view(known@), 0, ""@, true),
        decreases v@.len() - i,
    {
        let bits = &v[i];
        let one = match asked_text(known, Question::Show(*bits)) {
            Ok(done) => done,
            Err(error) => {
                return Err(error);
            },
        };
        out = if first {
            one
        } else {
            cat3(out.as_str(), ", ", &one.as_str())
        };
        first = false;
        i = i + 1;
    }
    Ok(out)
}

#[verifier::opaque]
pub open spec fn lanes_shown(
    lanes: SimdLanesView,
    known: Seq<KnownView>,
) -> Result<Seq<char>, EvalErrorView> {
    match text_of_lanes(lanes, known) {
        Ok(out) => {
            let inner = out;
            if lanes_counted(lanes) == 1 {
                Ok(inner)
            } else {
                Ok("["@ + inner + "]"@)
            }
        },
        Err(error) => Err(error),
    }
}

/// See [`lanes_shown`].
pub fn show_lanes(lanes: &SimdLanes, known: &Vec<Known>) -> (r: Result<String, EvalError>)
    ensures
        (
            match r { Ok(v) => Ok(v@), Err(v) => Err(v@) }
        ) == lanes_shown(lanes@, known_list_view(known@)),
{
    proof { reveal(lanes_shown); }
    let inner = match lanes_text(lanes, known) {
        Ok(done) => done,
        Err(error) => {
            return Err(error);
        },
    };
    if simd_width(lanes) == 1 {
        Ok(inner)
    } else {
        Ok(cat3("[", &inner.as_str(), "]"))
    }
}

#[verifier::opaque]
pub open spec fn text_of_lanes(
    lanes: SimdLanesView,
    known: Seq<KnownView>,
) -> Result<Seq<char>, EvalErrorView> {
    match lanes {
        SimdLanesView::Int(v) => Ok(ints_shown(v, 0, ""@, true)),
        SimdLanesView::Float(v) => floats_shown(v, known, 0, ""@, true),
        SimdLanesView::Bool(v) => Ok(bools_shown(v, 0, ""@, true)),
    }
}

/// See [`text_of_lanes`].
pub fn lanes_text(lanes: &SimdLanes, known: &Vec<Known>) -> (r: Result<String, EvalError>)
    ensures
        (
            match r { Ok(v) => Ok(v@), Err(v) => Err(v@) }
        ) == text_of_lanes(lanes@, known_list_view(known@)),
{
    proof { reveal(text_of_lanes); }
    match lanes {
        SimdLanes::Int(v) => Ok(show_ints(v)),
        SimdLanes::Float(v) => show_floats(v, known),
        SimdLanes::Bool(v) => Ok(show_bools(v)),
    }
}

/// A value as it is printed. `arity` says how many parameters the closures have.
pub open spec fn value_shown(
    value: ValueView,
    arity: Seq<usize>,
    known: Seq<KnownView>,
) -> Result<Seq<char>, EvalErrorView>
    decreases value, 0nat,
{
    match value {
        ValueView::Int(n) => Ok(signed_decimal(n as int)),
        ValueView::UInt(n) => Ok(decimal(n as nat)),
        ValueView::Float64(bits) => text_asked(known, QuestionView::Show(bits)),
        ValueView::Bool(b) => Ok(bool_shown(b)),
        ValueView::Str(s) => Ok(s),
        ValueView::NoneValue => Ok("None"@),
        ValueView::Closure(id) => Ok("<closure/"@ + decimal(arity_at(arity, id) as nat) + ">"@),
        ValueView::Range { start, stop, step } => Ok(
            "range("@ + signed_decimal(start as int) + ", "@ + signed_decimal(stop as int) + ", "@ + signed_decimal(step as int) + ")"@
        ),
        ValueView::Struct { name, fields, value_params } => match param_values_shown(
            value_params,
            arity,
            known,
            0,
            ""@,
            true,
        ) {
            Ok(out) => {
                let params = out;
                match fields_shown(fields, arity, known, 0, ""@, true) {
                    Ok(out) => {
                        let shown = out;
                        if value_params.len() == 0 {
                            Ok(name + "("@ + shown + ")"@)
                        } else {
                            Ok(name + "["@ + params + "]("@ + shown + ")"@)
                        }
                    },
                    Err(error) => Err(error),
                }
            },
            Err(error) => Err(error),
        },
        ValueView::Simd { lanes, .. } => lanes_shown(lanes, known),
        ValueView::Error(message) => {
            let quoted = quoted_form(message);
            Ok("Error("@ + quoted + ")"@)
        },
        ValueView::List(items) => match values_shown(items, arity, known, 0, ""@, true) {
            Ok(out) => {
                let shown = out;
                Ok("["@ + shown + "]"@)
            },
            Err(error) => Err(error),
        },
        ValueView::Tuple(items) => match values_shown(items, arity, known, 0, ""@, true) {
            Ok(out) => {
                let shown = out;
                if items.len() == 1 {
                    Ok("("@ + shown + ",)"@)
                } else {
                    Ok("("@ + shown + ")"@)
                }
            },
            Err(error) => Err(error),
        },
    }
}

/// See [`value_shown`].
pub fn show_value(
    value: &Value,
    arity: &Vec<usize>,
    known: &Vec<Known>,
) -> (r: Result<String, EvalError>)
    ensures
        (
            match r { Ok(v) => Ok(v@), Err(v) => Err(v@) }
        ) == value_shown(value@, arity@, known_list_view(known@)),
    decreases value, 0nat,
{
    proof { unfold_value(*value); }
    match value {
        Value::Int(n) => Ok(show_i64(*n)),
        Value::UInt(n) => Ok(show_u64(*n)),
        Value::Float64(bits) => asked_text(known, Question::Show(*bits)),
        Value::Bool(b) => Ok(show_bool(*b)),
        Value::Str(s) => Ok(s.clone()),
        Value::NoneValue => Ok("None".to_owned()),
        Value::Closure(id) => Ok(cat3("<closure/", show_usize(arity_of(arity, *id)).as_str(), ">")),
        Value::Range { start, stop, step } => Ok(
            cat7(
                "range(",
                show_i64(*start).as_str(),
                ", ",
                show_i64(*stop).as_str(),
                ", ",
                show_i64(*step).as_str(),
                ")",
            )
        ),
        Value::Struct { name, fields, value_params } => {
            let params = match show_param_values(value_params, arity, known) {
                Ok(done) => done,
                Err(error) => {
                    return Err(error);
                },
            };
            let shown = match show_fields(fields, arity, known) {
                Ok(done) => done,
                Err(error) => {
                    return Err(error);
                },
            };
            if value_params.len() == 0 {
                Ok(cat4(name.as_str(), "(", &shown.as_str(), ")"))
            } else {
                Ok(cat6(name.as_str(), "[", &params.as_str(), "](", &shown.as_str(), ")"))
            }
        },
        Value::Simd { lanes, .. } => show_lanes(lanes, known),
        Value::Error(message) => {
            let quoted = quote(message);
            Ok(cat3("Error(", &quoted.as_str(), ")"))
        },
        Value::List(items) => {
            let shown = match show_values(items, arity, known) {
                Ok(done) => done,
                Err(error) => {
                    return Err(error);
                },
            };
            Ok(cat3("[", &shown.as_str(), "]"))
        },
        Value::Tuple(items) => {
            let shown = match show_values(items, arity, known) {
                Ok(done) => done,
                Err(error) => {
                    return Err(error);
                },
            };
            if items.len() == 1 {
                Ok(cat3("(", &shown.as_str(), ",)"))
            } else {
                Ok(cat3("(", &shown.as_str(), ")"))
            }
        },
    }
}

#[verifier::opaque]
pub open spec fn arity_at(arity: Seq<usize>, id: usize) -> usize {
    if id < arity.len() {
        arity[id as int]
    } else {
        0
    }
}

/// See [`arity_at`].
pub fn arity_of(arity: &Vec<usize>, id: usize) -> (r: usize)
    ensures
        r == arity_at(arity@, id),
{
    proof { reveal(arity_at); }
    if id < arity.len() {
        arity[id]
    } else {
        0
    }
}

pub open spec fn values_shown(
    items: Seq<ValueView>,
    arity: Seq<usize>,
    known: Seq<KnownView>,
    i: nat,
    out: Seq<char>,
    first: bool,
) -> Result<Seq<char>, EvalErrorView>
    decreases items, (items.len() - i) as nat,
{
    if i >= items.len() {
        Ok(out)
    } else {
        let item = items[i as int];
        match value_shown(item, arity, known) {
            Ok(taken) => {
                let one = taken;
                let out = if first {
                    one
                } else {
                    out + ", "@ + one
                };
                let first = false;
                values_shown(items, arity, known, i + 1, out, first)
            },
            Err(error) => Err(error),
        }
    }
}

/// See [`values_shown`].
pub fn show_values(
    items: &Vec<Value>,
    arity: &Vec<usize>,
    known: &Vec<Known>,
) -> (r: Result<String, EvalError>)
    ensures
        (match r { Ok(v) => Ok(v@), Err(v) => Err(v@) }) == values_shown(
            value_list_view(items@),
            arity@,
            known_list_view(known@),
            0,
            ""@,
            true,
        ),
    decreases items@, 0nat,
{
    let mut out: String = "".to_owned();
    let mut first: bool = true;
    let ghost goal = values_shown(
        value_list_view(items@),
        arity@,
        known_list_view(known@),
        0,
        ""@,
        true,
    );
    let mut i: usize = 0;
    while i < items.len()
        invariant
            i <= items@.len(),
            value_list_view(items@).len() == items@.len(),
            values_shown(
                value_list_view(items@),
                arity@,
                known_list_view(known@),
                i as nat,
                out@,
                first,
            ) == goal,
            goal == values_shown(
                value_list_view(items@),
                arity@,
                known_list_view(known@),
                0,
                ""@,
                true,
            ),
        decreases items@.len() - i,
    {
        let item = &items[i];
        assert(value_list_view(items@)[i as int] == item@);
        let one = match show_value(item, arity, known) {
            Ok(done) => done,
            Err(error) => {
                return Err(error);
            },
        };
        out = if first {
            one
        } else {
            cat3(out.as_str(), ", ", &one.as_str())
        };
        first = false;
        i = i + 1;
    }
    Ok(out)
}

pub open spec fn fields_shown(
    fields: Seq<(Seq<char>, ValueView)>,
    arity: Seq<usize>,
    known: Seq<KnownView>,
    i: nat,
    out: Seq<char>,
    first: bool,
) -> Result<Seq<char>, EvalErrorView>
    decreases fields, (fields.len() - i) as nat,
{
    if i >= fields.len() {
        Ok(out)
    } else {
        let field = fields[i as int];
        match value_shown(field.1, arity, known) {
            Ok(taken) => {
                let one = taken;
                let out = if first {
                    field.0 + "="@ + one
                } else {
                    out + ", "@ + field.0 + "="@ + one
                };
                let first = false;
                fields_shown(fields, arity, known, i + 1, out, first)
            },
            Err(error) => Err(error),
        }
    }
}

/// See [`fields_shown`].
pub fn show_fields(
    fields: &Vec<(String, Value)>,
    arity: &Vec<usize>,
    known: &Vec<Known>,
) -> (r: Result<String, EvalError>)
    ensures
        (match r { Ok(v) => Ok(v@), Err(v) => Err(v@) }) == fields_shown(
            field_value_list_view(fields@),
            arity@,
            known_list_view(known@),
            0,
            ""@,
            true,
        ),
    decreases fields@, 0nat,
{
    let mut out: String = "".to_owned();
    let mut first: bool = true;
    let ghost goal = fields_shown(
        field_value_list_view(fields@),
        arity@,
        known_list_view(known@),
        0,
        ""@,
        true,
    );
    let mut i: usize = 0;
    while i < fields.len()
        invariant
            i <= fields@.len(),
            field_value_list_view(fields@).len() == fields@.len(),
            fields_shown(
                field_value_list_view(fields@),
                arity@,
                known_list_view(known@),
                i as nat,
                out@,
                first,
            ) == goal,
            goal == fields_shown(
                field_value_list_view(fields@),
                arity@,
                known_list_view(known@),
                0,
                ""@,
                true,
            ),
        decreases fields@.len() - i,
    {
        let field = &fields[i];
        assert(field_value_list_view(fields@)[i as int].0 =~= field.0@);
        assert(field_value_list_view(fields@)[i as int].1 =~= field.1@);
        let one = match show_value(&field.1, arity, known) {
            Ok(done) => done,
            Err(error) => {
                return Err(error);
            },
        };
        out = if first {
            cat3(&field.0.as_str(), "=", &one.as_str())
        } else {
            cat5(out.as_str(), ", ", &field.0.as_str(), "=", &one.as_str())
        };
        first = false;
        i = i + 1;
    }
    Ok(out)
}

pub open spec fn param_values_shown(
    params: Seq<(Seq<char>, ValueView)>,
    arity: Seq<usize>,
    known: Seq<KnownView>,
    i: nat,
    out: Seq<char>,
    first: bool,
) -> Result<Seq<char>, EvalErrorView>
    decreases params, (params.len() - i) as nat,
{
    if i >= params.len() {
        Ok(out)
    } else {
        let param = params[i as int];
        match value_shown(param.1, arity, known) {
            Ok(taken) => {
                let one = taken;
                let out = if first {
                    one
                } else {
                    out + ", "@ + one
                };
                let first = false;
                param_values_shown(params, arity, known, i + 1, out, first)
            },
            Err(error) => Err(error),
        }
    }
}

/// See [`param_values_shown`].
pub fn show_param_values(
    params: &Vec<(String, Value)>,
    arity: &Vec<usize>,
    known: &Vec<Known>,
) -> (r: Result<String, EvalError>)
    ensures
        (match r { Ok(v) => Ok(v@), Err(v) => Err(v@) }) == param_values_shown(
            field_value_list_view(params@),
            arity@,
            known_list_view(known@),
            0,
            ""@,
            true,
        ),
    decreases params@, 0nat,
{
    let mut out: String = "".to_owned();
    let mut first: bool = true;
    let ghost goal = param_values_shown(
        field_value_list_view(params@),
        arity@,
        known_list_view(known@),
        0,
        ""@,
        true,
    );
    let mut i: usize = 0;
    while i < params.len()
        invariant
            i <= params@.len(),
            field_value_list_view(params@).len() == params@.len(),
            param_values_shown(
                field_value_list_view(params@),
                arity@,
                known_list_view(known@),
                i as nat,
                out@,
                first,
            ) == goal,
            goal == param_values_shown(
                field_value_list_view(params@),
                arity@,
                known_list_view(known@),
                0,
                ""@,
                true,
            ),
        decreases params@.len() - i,
    {
        let param = &params[i];
        assert(field_value_list_view(params@)[i as int].0 =~= param.0@);
        assert(field_value_list_view(params@)[i as int].1 =~= param.1@);
        let one = match show_value(&param.1, arity, known) {
            Ok(done) => done,
            Err(error) => {
                return Err(error);
            },
        };
        out = if first {
            one
        } else {
            cat3(out.as_str(), ", ", &one.as_str())
        };
        first = false;
        i = i + 1;
    }
    Ok(out)
}

} // verus!
