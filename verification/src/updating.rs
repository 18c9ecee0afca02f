//! What writing to variables and converting numbers come to.

use crate::ast::{ExprKindView, ExprView, InfixOp, StmtKindView, StmtView};
use crate::calling::{redefined_is_found, scope_has_name};
use crate::evaluator::{
    conversion, magnitude_of, number_converted, place_decomposed, place_updated, root_updated,
    scope_of_name, stmt_run, value_held, value_in_scope, value_of_expr, value_written, write_run,
    EvaluatorView, FailureView, FlowView, PathStepView,
};
use crate::values::{
    like_before, number_as_int, number_as_uint, number_of, operator_on, EvalErrorView, KnownView,
    ValueView,
};
use vstd::prelude::*;

verus! {

/// The statement that writes a value to a place, alone or with what is there.
pub open spec fn writing(place: ExprView, op: Option<InfixOp>, value: ExprView) -> StmtKindView {
    match op {
        Some(op) => StmtKindView::AugAssign { place, op, value },
        None => StmtKindView::SetPlace { place, value },
    }
}

/// What is to be written: the value alone, or what an operator makes of what is there and it.
pub open spec fn to_write(
    op: Option<InfixOp>,
    before: ValueView,
    found: ValueView,
    known: Seq<KnownView>,
) -> Result<ValueView, EvalErrorView> {
    match op {
        Some(op) => operator_on(op, before, found, known),
        None => Ok(found),
    }
}

/// Whether a value gives no kind of number to what is written in its place.
pub open spec fn unconverting(value: ValueView) -> bool {
    !(value is UInt || value is Float64)
}

/// Whether a statement ends normally with a name bound to a value.
pub open spec fn leaves(
    run: Result<(EvaluatorView, FlowView), FailureView>,
    env: usize,
    name: Seq<char>,
    value: ValueView,
) -> bool {
    run matches Ok((end, FlowView::Normal)) && value_in_scope(end.scopes, env, name) == Some(value)
}

proof fn update_is_found(
    m: EvaluatorView,
    env: usize,
    name: Seq<char>,
    path: Seq<PathStepView>,
    op: Option<InfixOp>,
    found: ValueView,
    known: Seq<KnownView>,
    before: ValueView,
    made: ValueView,
)
    requires
        value_in_scope(m.scopes, env, name) == Some(before),
        root_updated(before, path, op, found, known) == Ok::<ValueView, EvalErrorView>(made),
    ensures
        place_updated(m, env, name, path, op, found, known) matches Ok(end) && value_in_scope(
            end.scopes,
            env,
            name,
        ) == Some(made),
{
    reveal(place_updated);
    reveal(value_held);
    scope_has_name(m, env, name);
    let at = scope_of_name(m.scopes, env, name)->Some_0;
    redefined_is_found(m, env, at, name, made);
}

/// Writing to a variable with an operator leaves in it what the operator makes of what it had
/// and the value, in this order; writing without one leaves the value.
pub proof fn variable_is_updated(
    stmt: StmtView,
    place: ExprView,
    name: Seq<char>,
    op: Option<InfixOp>,
    value: ExprView,
    env: usize,
    m: EvaluatorView,
    known: Seq<KnownView>,
    fuel: u64,
    next: EvaluatorView,
    found: ValueView,
    before: ValueView,
    made: ValueView,
)
    requires
        stmt.kind == writing(place, op, value),
        place.kind == ExprKindView::Identifier(name),
        value_of_expr(value, env, m, known, fuel) == Ok::<_, FailureView>((next, found)),
        value_in_scope(next.scopes, env, name) == Some(before),
        unconverting(before),
        to_write(op, before, found, known) == Ok::<_, EvalErrorView>(made),
    ensures
        leaves(stmt_run(stmt, env, m, known, fuel), env, name, made),
{
    let none = Seq::<PathStepView>::empty();
    assert(stmt_run(stmt, env, m, known, fuel) == write_run(stmt, env, m, known, fuel));
    assert(place_decomposed(place, env, m, known, fuel) == Ok::<_, FailureView>((m, (name, none))));
    reveal(root_updated);
    reveal(value_written);
    reveal(like_before);
    update_is_found(next, env, name, none, op, found, known, before, made);
}

/// Converting a truth value gives one or zero; converting an integer changes its kind and, where
/// the kind has the number, nothing else; converting there and back gives the number again.
pub proof fn integers_are_converted(b: bool, n: i64, u: u64, known: Seq<KnownView>)
    ensures
        conversion("Int"@, ValueView::Bool(b), known) == Ok::<_, EvalErrorView>(
            ValueView::Int(if b { 1 } else { 0 }),
        ),
        conversion("Int"@, ValueView::Int(n), known) == Ok::<_, EvalErrorView>(ValueView::Int(n)),
        conversion("UInt"@, ValueView::UInt(u), known) == Ok::<_, EvalErrorView>(
            ValueView::UInt(u),
        ),
        conversion("Int"@, ValueView::UInt(u), known) matches Ok(ValueView::Int(x)) && (u == x || u
            == x + 0x1_0000_0000_0000_0000),
        conversion("UInt"@, ValueView::Int(n), known) matches Ok(ValueView::UInt(x)) && (x == n || x
            == n + 0x1_0000_0000_0000_0000),
{
    reveal(conversion);
    reveal(number_converted);
    reveal(number_of);
    reveal(number_as_int);
    reveal(number_as_uint);
    reveal_strlit("Int");
    reveal_strlit("UInt");
    assert("Int"@.len() != "UInt"@.len());
}

/// A magnitude is the number or its opposite, and not negative where the opposite is a number.
pub proof fn magnitudes_are_positive(n: i64, u: u64, known: Seq<KnownView>)
    ensures
        magnitude_of(ValueView::Int(n), known) matches Ok(ValueView::Int(x)) && (x == n || x == -n)
            && (n == i64::MIN || x >= 0),
        magnitude_of(ValueView::UInt(u), known) == Ok::<_, EvalErrorView>(ValueView::UInt(u)),
{
    reveal(magnitude_of);
}

} // verus!
