//! What the operators compute, at compile time and at run time.

use crate::ast::{ExprKindView, ExprView, InfixOp, PrefixOp};
use crate::arith::fit;
use crate::ct::{ct_eval, BindingsView};
use crate::elab::{boolean_of, integer_of, ints_compare, ComptimeErrorView, CtContextView, HaltView};
use crate::evaluate::{
    as_bool_value, evaluated, evaluated_again, evaluated_chain, evaluated_infix, fitting,
    int_op_result, int_op_values, op_result, prefix_result, string_op_result, two_strings,
    zero_division,
};
use crate::evaluator::prefix_applied;
use crate::numbers::{comparison, floor_division_is_division, floor_quotient, floor_remainder};
use crate::types::{CtExprView, CtValueView};
use crate::values::{
    equality_of, exponent_of, higher_rank, int_if_fits, int_operator, int_powered, number_as_int,
    number_as_uint, number_of, number_operator, operator_on, operator_on_plain,
    operator_on_scalars, overflowed, rank_of, scalars_equal, uint_if_fits, uint_operator,
    EvalErrorView, KnownView, ValueView,
};
use vstd::arithmetic::power::pow;
use vstd::prelude::*;

verus! {

/// Whether a number is what an operator makes of two others. The quotient is the one whose
/// remainder lies between zero and the divisor.
pub open spec fn computed(op: InfixOp, x: int, y: int, r: int) -> bool {
    match op {
        InfixOp::Add => r - y == x,
        InfixOp::Sub => r + y == x,
        InfixOp::Mul => r == x * y,
        InfixOp::FloorDiv => {
            let rest = x - r * y;
            if y > 0 {
                0 <= rest < y
            } else {
                y < rest <= 0
            }
        },
        InfixOp::Mod => {
            &&& exists|q: int| x == #[trigger] (q * y) + r
            &&& if y > 0 {
                0 <= r < y
            } else {
                y < r <= 0
            }
        },
        InfixOp::Pow => y >= 0 && r == pow(x, y as nat),
        _ => false,
    }
}

/// Whether an operator compares, and what it says of two numbers.
pub open spec fn compared(op: InfixOp, x: int, y: int) -> Option<bool> {
    match op {
        InfixOp::Eq => Some(x == y),
        InfixOp::Ne => Some(!(x == y)),
        InfixOp::Lt => Some(x < y),
        InfixOp::Gt => Some(y < x),
        InfixOp::Le => Some(x < y || x == y),
        InfixOp::Ge => Some(y < x || x == y),
        _ => None,
    }
}

pub open spec fn is_arithmetic(op: InfixOp) -> bool {
    op == InfixOp::Add || op == InfixOp::Sub || op == InfixOp::Mul || op == InfixOp::FloorDiv || op
        == InfixOp::Mod || op == InfixOp::Pow
}

/// An operator on two `Int`s gives the number it computes, if that fits in 64 bits; a
/// comparison says how the numbers compare. Division by zero, an exponent that is negative
/// or too large, and a result that does not fit are failures.
pub proof fn integers_are_computed(op: InfixOp, x: i64, y: i64, known: Seq<KnownView>)
    ensures
        ({
            let made = operator_on(op, ValueView::Int(x), ValueView::Int(y), known);
            &&& compared(op, x as int, y as int) matches Some(b) ==> made == Ok::<_, EvalErrorView>(
                ValueView::Bool(b),
            )
            &&& is_arithmetic(op) ==> match made {
                Ok(ValueView::Int(r)) => computed(op, x as int, y as int, r as int) && ((op
                    == InfixOp::FloorDiv || op == InfixOp::Mod) ==> y != 0),
                Ok(_) => false,
                Err(error) => {
                    ||| (op == InfixOp::FloorDiv || op == InfixOp::Mod) && y == 0
                    ||| op == InfixOp::Pow && !(0 <= y <= u32::MAX)
                    ||| error is Overflow && forall|r: int|
                        #![trigger computed(op, x as int, y as int, r)]
                        computed(op, x as int, y as int, r) ==> !(i64::MIN <= r <= i64::MAX)
                },
            }
        }),
{
    reveal(operator_on);
    reveal(operator_on_scalars);
    reveal(operator_on_plain);
    reveal(number_of);
    reveal(number_operator);
    reveal(higher_rank);
    reveal(rank_of);
    reveal(number_as_int);
    reveal(int_operator);
    reveal(int_if_fits);
    reveal(int_powered);
    reveal(exponent_of);
    reveal(overflowed);
    let (a, b) = (x as int, y as int);
    if b != 0 {
        floor_division_is_division(a, b);
        let (q, r) = (floor_quotient(a, b), floor_remainder(a, b));
        assert(a == q * b + r);
        if op == InfixOp::FloorDiv {
            assert forall|p: int| computed(op, a, b, p) implies p == q by {
                same_quotient(a, b, p, q);
            }
            assert(computed(op, a, b, q));
        }
        if op == InfixOp::Mod {
            assert(computed(op, a, b, r));
            assert(i64::MIN <= r <= i64::MAX);
        }
    }
}

/// There is one quotient.
proof fn same_quotient(x: int, y: int, p: int, q: int)
    requires
        y != 0,
        computed(InfixOp::FloorDiv, x, y, p),
        computed(InfixOp::FloorDiv, x, y, q),
    ensures
        p == q,
{
    let (a, b) = (x - p * y, x - q * y);
    assert((q - p) * y == a - b) by (nonlinear_arith)
        requires
            a == x - p * y,
            b == x - q * y,
    ;
    if p != q {
        let d = q - p;
        assert(d * y >= y || d * y <= -y) by (nonlinear_arith)
            requires
                d != 0,
                y > 0 || y < 0,
        ;
        assert(y > 0 ==> d * y >= y || d * y <= -y) by (nonlinear_arith)
            requires
                d != 0,
        ;
        assert(y < 0 ==> d * y <= y || d * y >= -y) by (nonlinear_arith)
            requires
                d != 0,
        ;
    }
}

/// An operator on two `UInt`s gives the number it computes, if that is one of 64 bits
/// without sign; a comparison says how the numbers compare.
pub proof fn unsigned_are_computed(op: InfixOp, x: u64, y: u64, known: Seq<KnownView>)
    requires
        op != InfixOp::Pow,
    ensures
        ({
            let made = operator_on(op, ValueView::UInt(x), ValueView::UInt(y), known);
            &&& compared(op, x as int, y as int) matches Some(b) ==> made == Ok::<_, EvalErrorView>(
                ValueView::Bool(b),
            )
            &&& is_arithmetic(op) ==> match made {
                Ok(ValueView::UInt(r)) => computed(op, x as int, y as int, r as int) && ((op
                    == InfixOp::FloorDiv || op == InfixOp::Mod) ==> y != 0),
                Ok(_) => false,
                Err(error) => {
                    ||| (op == InfixOp::FloorDiv || op == InfixOp::Mod) && y == 0
                    ||| error is Overflow && forall|r: int|
                        #![trigger computed(op, x as int, y as int, r)]
                        computed(op, x as int, y as int, r) ==> !(0 <= r <= u64::MAX)
                },
            }
        }),
{
    reveal(operator_on);
    reveal(operator_on_scalars);
    reveal(operator_on_plain);
    reveal(number_of);
    reveal(number_operator);
    reveal(higher_rank);
    reveal(rank_of);
    reveal(number_as_uint);
    reveal(uint_operator);
    reveal(uint_if_fits);
    reveal(overflowed);
    if y != 0 {
        let (a, b) = (x as int, y as int);
        vstd::arithmetic::div_mod::lemma_fundamental_div_mod(a, b);
        let (q, r) = (a / b, a % b);
        assert(a == q * b + r) by (nonlinear_arith)
            requires
                a == b * q + r,
        ;
        assert(0 <= q <= a) by (nonlinear_arith)
            requires
                q == a / b,
                b > 0,
                a >= 0,
        ;
    }
}

/// Texts are joined by `+` and are equal when they have the same characters.
pub proof fn texts_are_joined(a: Seq<char>, b: Seq<char>, known: Seq<KnownView>)
    ensures
        operator_on(InfixOp::Add, ValueView::Str(a), ValueView::Str(b), known) matches Ok(
            ValueView::Str(r),
        ) && r.len() == a.len() + b.len() && r.take(a.len() as int) == a && r.skip(a.len() as int)
            == b,
        operator_on(InfixOp::Eq, ValueView::Str(a), ValueView::Str(b), known) == Ok::<
            _,
            EvalErrorView,
        >(ValueView::Bool(a == b)),
        operator_on(InfixOp::Ne, ValueView::Str(a), ValueView::Str(b), known) == Ok::<
            _,
            EvalErrorView,
        >(ValueView::Bool(a != b)),
        op_result(InfixOp::Add, CtValueView::Str(a), CtValueView::Str(b)) matches Ok(
            CtValueView::Str(r),
        ) && r.len() == a.len() + b.len() && r.take(a.len() as int) == a && r.skip(a.len() as int)
            == b,
        op_result(InfixOp::Eq, CtValueView::Str(a), CtValueView::Str(b)) == Ok::<
            _,
            ComptimeErrorView,
        >(CtValueView::Bool(a == b)),
        op_result(InfixOp::Ne, CtValueView::Str(a), CtValueView::Str(b)) == Ok::<
            _,
            ComptimeErrorView,
        >(CtValueView::Bool(a != b)),
{
    reveal(operator_on);
    reveal(operator_on_scalars);
    reveal(operator_on_plain);
    reveal(number_of);
    reveal(equality_of);
    reveal(scalars_equal);
    reveal(op_result);
    reveal(string_op_result);
    assert((a + b).take(a.len() as int) =~= a);
    assert((a + b).skip(a.len() as int) =~= b);
}

/// Truth values are equal or not, and `not` turns each into the other.
pub proof fn truths_are_compared(a: bool, b: bool, known: Seq<KnownView>)
    ensures
        operator_on(InfixOp::Eq, ValueView::Bool(a), ValueView::Bool(b), known) == Ok::<
            _,
            EvalErrorView,
        >(ValueView::Bool(a <==> b)),
        operator_on(InfixOp::Ne, ValueView::Bool(a), ValueView::Bool(b), known) == Ok::<
            _,
            EvalErrorView,
        >(ValueView::Bool(a <==> !b)),
        prefix_applied(PrefixOp::Not, ValueView::Bool(a), known) == Ok::<_, EvalErrorView>(
            ValueView::Bool(!a),
        ),
        prefix_result(PrefixOp::Not, CtValueView::Bool(a)) == Ok::<_, ComptimeErrorView>(
            CtValueView::Bool(!a),
        ),
{
    reveal(operator_on);
    reveal(operator_on_scalars);
    reveal(operator_on_plain);
    reveal(number_of);
    reveal(equality_of);
    reveal(scalars_equal);
    reveal(prefix_applied);
    reveal(prefix_result);
    reveal(boolean_of);
}

/// A number and its negation make zero, at compile time and at run time. The least number
/// has none.
pub proof fn negation_is_opposite(n: i64, known: Seq<KnownView>)
    ensures
        n == i64::MIN ==> prefix_applied(PrefixOp::Neg, ValueView::Int(n), known) is Err
            && prefix_result(PrefixOp::Neg, CtValueView::Int(n)) is Err,
        n != i64::MIN ==> {
            &&& prefix_applied(PrefixOp::Neg, ValueView::Int(n), known) matches Ok(ValueView::Int(r))
            &&& prefix_result(PrefixOp::Neg, CtValueView::Int(n)) == Ok::<_, ComptimeErrorView>(
                CtValueView::Int(r),
            )
            &&& n + r == 0
        },
{
    reveal(prefix_applied);
    reveal(prefix_result);
    reveal(int_if_fits);
    reveal(integer_of);
    reveal(fitting);
}

/// An operator on two integers at compile time gives the number it computes, if that fits in
/// 64 bits; the remainder is never negative. A comparison says how the numbers compare.
pub proof fn constants_are_computed(op: InfixOp, a: i64, b: i64)
    ensures
        ({
            let made = op_result(op, CtValueView::Int(a), CtValueView::Int(b));
            let (x, y) = (a as int, b as int);
            &&& compared(op, x, y) matches Some(holds) ==> made == Ok::<_, ComptimeErrorView>(
                CtValueView::Bool(holds),
            )
            &&& (op == InfixOp::Add || op == InfixOp::Sub || op == InfixOp::Mul) ==> match made {
                Ok(CtValueView::Int(r)) => computed(op, x, y, r as int),
                Ok(_) => false,
                Err(error) => error is BadArithmetic && forall|r: int|
                    #![trigger computed(op, x, y, r)]
                    computed(op, x, y, r) ==> !(i64::MIN <= r <= i64::MAX),
            }
            &&& op == InfixOp::Pow ==> match made {
                Ok(CtValueView::Int(r)) => 0 <= y <= u32::MAX && computed(op, x, y, r as int),
                Ok(_) => false,
                Err(error) => error is BadArithmetic && (!(0 <= y <= u32::MAX) || !(i64::MIN <= pow(
                    x,
                    y as nat,
                ) <= i64::MAX)),
            }
            &&& op == InfixOp::FloorDiv ==> match made {
                Ok(CtValueView::Int(q)) => y != 0 && 0 <= x - q * y && (y > 0 ==> x - q * y < y) && (
                y < 0 ==> x - q * y < -y),
                Ok(_) => false,
                Err(error) => error is BadArithmetic && (y == 0 || (x == i64::MIN && y == -1)),
            }
            &&& op == InfixOp::Mod ==> match made {
                Ok(CtValueView::Int(r)) => y != 0 && 0 <= r && (y > 0 ==> r < y) && (y < 0 ==> r < -y)
                    && exists|q: int| x == #[trigger] (q * y) + r,
                Ok(_) => false,
                Err(error) => error is BadArithmetic && (y == 0 || (x == i64::MIN && y == -1)),
            }
        }),
{
    reveal(op_result);
    reveal(int_op_values);
    reveal(integer_of);
    reveal(int_op_result);
    reveal(fitting);
    reveal(as_bool_value);
    reveal(ints_compare);
    reveal(zero_division);
    let (x, y) = (a as int, b as int);
    if y != 0 {
        vstd::arithmetic::div_mod::lemma_fundamental_div_mod(x, y);
        let (q, r) = (x / y, x % y);
        assert(x == q * y + r) by (nonlinear_arith)
            requires
                x == y * q + r,
        ;
        assert(0 <= r && (y > 0 ==> r < y) && (y < 0 ==> r < -y)) by (nonlinear_arith)
            requires
                r == x % y,
                y != 0,
        ;
        if !(x == i64::MIN && y == -1) {
            crate::laws::quotient_fits(x, y, q, r);
        }
        assert(i64::MIN <= r <= i64::MAX);
        if x == i64::MIN && y == -1 {
            assert(q == -x) by (nonlinear_arith)
                requires
                    x == q * y + r,
                    y == -1,
                    0 <= r < 1,
            ;
        }
    }
}

/// What an operator computes of two integers at compile time is what it computes of them at
/// run time, but for quotients and remainders by a negative number.
pub proof fn running_agrees(op: InfixOp, a: i64, b: i64, known: Seq<KnownView>)
    requires
        is_arithmetic(op) || compared(op, a as int, b as int) is Some,
        op == InfixOp::FloorDiv || op == InfixOp::Mod ==> b > 0,
    ensures
        match op_result(op, CtValueView::Int(a), CtValueView::Int(b)) {
            Ok(CtValueView::Int(r)) => operator_on(op, ValueView::Int(a), ValueView::Int(b), known)
                == Ok::<_, EvalErrorView>(ValueView::Int(r)),
            Ok(CtValueView::Bool(holds)) => operator_on(
                op,
                ValueView::Int(a),
                ValueView::Int(b),
                known,
            ) == Ok::<_, EvalErrorView>(ValueView::Bool(holds)),
            Ok(_) => false,
            Err(_) => operator_on(op, ValueView::Int(a), ValueView::Int(b), known) is Err,
        },
{
    reveal(op_result);
    reveal(int_op_values);
    reveal(integer_of);
    reveal(int_op_result);
    reveal(fitting);
    reveal(as_bool_value);
    reveal(ints_compare);
    reveal(operator_on);
    reveal(operator_on_scalars);
    reveal(operator_on_plain);
    reveal(number_of);
    reveal(number_operator);
    reveal(higher_rank);
    reveal(rank_of);
    reveal(number_as_int);
    reveal(int_operator);
    reveal(int_if_fits);
    reveal(int_powered);
    reveal(exponent_of);
    if b > 0 {
        let (x, y) = (a as int, b as int);
        assert(0 <= x % y < y) by (nonlinear_arith)
            requires
                y > 0,
        ;
    }
}

/// An infix expression of two integers at compile time gives what the operator computes of
/// them, the left one first, when finding them takes no steps.
pub proof fn constant_operands_come_in_order(
    e: ExprView,
    op: InfixOp,
    left: ExprView,
    right: ExprView,
    scope: Seq<(Seq<char>, CtValueView)>,
    cx: CtContextView,
    fuel: usize,
    depth: u32,
    a: i64,
    b: i64,
)
    requires
        e.kind == ExprKindView::Infix(op, Box::new(left), Box::new(right)),
        op != InfixOp::And,
        op != InfixOp::Or,
        evaluated(left, scope, cx, fuel, depth) == Ok::<_, HaltView>((CtValueView::Int(a), fuel)),
        evaluated(right, scope, cx, fuel, depth) == Ok::<_, HaltView>((CtValueView::Int(b), fuel)),
    ensures
        match op_result(op, CtValueView::Int(a), CtValueView::Int(b)) {
            Ok(value) => evaluated(e, scope, cx, fuel, depth) == Ok::<_, HaltView>((value, fuel)),
            Err(error) => evaluated(e, scope, cx, fuel, depth) matches Err(stop) && stop.error == error,
        },
{
    reveal(two_strings);
    reveal(integer_of);
    reveal(crate::evaluate::halted);
    assert(evaluated(e, scope, cx, fuel, depth) == evaluated_infix(e.kind, scope, cx, fuel, depth));
    assert(evaluated_again(left, CtValueView::Int(a), false, scope, cx, fuel, depth) == Ok::<
        _,
        HaltView,
    >((CtValueView::Int(a), fuel)));
    assert(evaluated_again(right, CtValueView::Int(b), false, scope, cx, fuel, depth) == Ok::<
        _,
        HaltView,
    >((CtValueView::Int(b), fuel)));
}

/// `and` and `or` at compile time look at their right operand only when the left one does
/// not decide, and then have its value.
pub proof fn constant_operands_decide(
    e: ExprView,
    left: ExprView,
    right: ExprView,
    scope: Seq<(Seq<char>, CtValueView)>,
    cx: CtContextView,
    fuel: usize,
    depth: u32,
    a: bool,
    rest: usize,
)
    requires
        evaluated(left, scope, cx, fuel, depth) == Ok::<_, HaltView>((CtValueView::Bool(a), rest)),
    ensures
        ({
            let made = evaluated(e, scope, cx, fuel, depth);
            let second = evaluated(right, scope, cx, rest, depth);
            let decides = second is Err || (second matches Ok((CtValueView::Bool(_), _)));
            &&& e.kind == ExprKindView::Infix(InfixOp::And, Box::new(left), Box::new(right)) ==> if a {
                decides ==> made == second
            } else {
                made == Ok::<_, HaltView>((CtValueView::Bool(false), rest))
            }
            &&& e.kind == ExprKindView::Infix(InfixOp::Or, Box::new(left), Box::new(right)) ==> if a {
                made == Ok::<_, HaltView>((CtValueView::Bool(true), rest))
            } else {
                decides ==> made == second
            }
        }),
{
    reveal(boolean_of);
    match e.kind {
        ExprKindView::Infix(_, _, _) => {
            assert(evaluated(e, scope, cx, fuel, depth) == evaluated_infix(
                e.kind,
                scope,
                cx,
                fuel,
                depth,
            ));
        },
        _ => {},
    }
}

/// A literal has its own value at compile time, and an operator before it what the operator
/// makes of that.
pub proof fn constant_literals(
    e: ExprView,
    scope: Seq<(Seq<char>, CtValueView)>,
    cx: CtContextView,
    fuel: usize,
    depth: u32,
)
    ensures
        match e.kind {
            ExprKindView::Int(n) => evaluated(e, scope, cx, fuel, depth) == Ok::<_, HaltView>(
                (CtValueView::Int(n), fuel),
            ),
            ExprKindView::Bool(b) => evaluated(e, scope, cx, fuel, depth) == Ok::<_, HaltView>(
                (CtValueView::Bool(b), fuel),
            ),
            ExprKindView::Str(s) => evaluated(e, scope, cx, fuel, depth) == Ok::<_, HaltView>(
                (CtValueView::Str(s), fuel),
            ),
            ExprKindView::Float(bits) => evaluated(e, scope, cx, fuel, depth) == Ok::<_, HaltView>(
                (CtValueView::Float(bits), fuel),
            ),
            ExprKindView::Prefix(op, inner) => evaluated(*inner, scope, cx, fuel, depth) matches Ok((
                value,
                rest,
            )) ==> (prefix_result(op, value) matches Ok(made) ==> evaluated(
                e,
                scope,
                cx,
                fuel,
                depth,
            ) == Ok::<_, HaltView>((made, rest))),
            _ => true,
        },
{
}

/// A chain of comparisons holds when each of them does between its neighbours.
pub proof fn chain_holds_between_neighbours(
    rest: Seq<(InfixOp, ExprView)>,
    first: i64,
    values: Seq<i64>,
    scope: Seq<(Seq<char>, CtValueView)>,
    cx: CtContextView,
    fuel: usize,
    depth: u32,
    i: nat,
)
    requires
        i <= rest.len(),
        values.len() == rest.len() + 1,
        values[i as int] == first,
        forall|k: int|
            i <= k < rest.len() ==> evaluated((#[trigger] rest[k]).1, scope, cx, fuel, depth) == Ok::<
                _,
                HaltView,
            >((CtValueView::Int(values[k + 1]), fuel)),
        forall|k: int|
            i <= k < rest.len() ==> compared(
                (#[trigger] rest[k]).0,
                values[k] as int,
                values[k + 1] as int,
            ) is Some,
    ensures
        evaluated_chain(rest, scope, cx, depth, i, first, fuel) == Ok::<_, HaltView>(
            (
                CtValueView::Bool(
                    forall|k: int|
                        i <= k < rest.len() ==> compared(
                            (#[trigger] rest[k]).0,
                            values[k] as int,
                            values[k + 1] as int,
                        ) == Some(true),
                ),
                fuel,
            ),
        ),
    decreases rest.len() - i,
{
    reveal(ints_compare);
    reveal(integer_of);
    if i < rest.len() {
        let link = rest[i as int];
        assert(evaluated(link.1, scope, cx, fuel, depth) == Ok::<_, HaltView>(
            (CtValueView::Int(values[i as int + 1]), fuel),
        ));
        if compared(link.0, values[i as int] as int, values[i as int + 1] as int) == Some(true) {
            chain_holds_between_neighbours(
                rest,
                values[i as int + 1],
                values,
                scope,
                cx,
                fuel,
                depth,
                i + 1,
            );
        } else {
            assert(compared(rest[i as int].0, values[i as int] as int, values[i as int + 1] as int)
                == Some(false));
        }
    }
}

/// What a symbolic expression of two integers gives: their sum, difference and product as far
/// as they fit in 64 bits, and a power for an exponent that is not negative.
pub proof fn symbolic_values_are_computed(
    left: CtExprView,
    right: CtExprView,
    params: BindingsView,
    a: i64,
    b: i64,
)
    requires
        ct_eval(left, params) == Some(CtValueView::Int(a)),
        ct_eval(right, params) == Some(CtValueView::Int(b)),
    ensures
        match ct_eval(CtExprView::Add(Box::new(left), Box::new(right)), params) {
            Some(CtValueView::Int(r)) => r - b == a,
            Some(_) => false,
            None => !(i64::MIN <= a + b <= i64::MAX),
        },
        match ct_eval(CtExprView::Sub(Box::new(left), Box::new(right)), params) {
            Some(CtValueView::Int(r)) => r + b == a,
            Some(_) => false,
            None => !(i64::MIN <= a - b <= i64::MAX),
        },
        match ct_eval(CtExprView::Mul(Box::new(left), Box::new(right)), params) {
            Some(CtValueView::Int(r)) => r == a * b,
            Some(_) => false,
            None => !(i64::MIN <= a * b <= i64::MAX),
        },
        match ct_eval(CtExprView::Pow(Box::new(left), Box::new(right)), params) {
            Some(CtValueView::Int(r)) => 0 <= b <= u32::MAX && r == pow(a as int, b as nat),
            Some(_) => false,
            None => !(0 <= b <= u32::MAX) || !(i64::MIN <= pow(a as int, b as nat) <= i64::MAX),
        },
        match ct_eval(CtExprView::Neg(Box::new(left)), params) {
            Some(CtValueView::Int(r)) => r + a == 0,
            Some(_) => false,
            None => a == i64::MIN,
        },
{
}

} // verus!
