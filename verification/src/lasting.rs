//! Fuel only bounds a run.

use crate::arith::fit;
use crate::ast::{
    Dtype, Expr, ExprKindView, ExprView, FnParamView, InfixOp, KwArgView, ParamArgView,
    StmtKindView, StmtView, TypeView,
};
use crate::evaluator::{
    Closure, ClosureView, EvaluatorView, FailureView, FlowView, PathStepView, all_defined,
    argument_of, arguments_fit, arity_list, assign_run, block_run, block_run_inside, body_ended,
    body_failed, branch_run, branches_run, closure_added, closure_run, compound_run, conversion,
    conversion_name, dtype_held, dtype_of_args, ends_loop, evaluated, extreme, failed_by_type,
    failed_with, finally_run, flag_held, flow_after_loop, flow_overriding, handler_run, index_held,
    item_run, items_run, keyword_position, list_changed, main_run, member_read, message_raised,
    method_finished, method_missing, method_number, method_of_value, name_assigned, name_defined,
    names_self_type, opt_block_run, param_of_self, params_bound, params_defined, path_and,
    place_decomposed, place_method, place_of_receiver, place_read, place_updated, prefix_applied,
    program_run, range_made, regular_params, rest_bound, return_run, run_stopped, scope_inside,
    self_param_read, stmt_run, struct_defined, struct_method, struct_registered, sum_of, truth_of,
    truth_of_expr, try_run, type_of_elements, unary_builtin, unary_result, unsupported_in,
    value_held, value_in_scope, value_indexed, value_is_closure, value_of_argument,
    value_of_builtin, value_of_call, value_of_closure, value_of_construction, value_of_constructor,
    value_of_conversion, value_of_expr, value_of_infix, value_of_list, value_of_member,
    value_of_method, value_of_param, value_of_simd, value_of_simd_with, value_of_subscript,
    value_of_variable, value_of_width, value_returned, values_coerced, values_held, values_in_range,
    values_of_exprs, values_of_fields, values_of_kwargs, values_of_loop, values_of_params,
    values_printed, var_run, walrus_unsupported, while_run, width_of, write_run,
};
use crate::flatten::following_index;
use crate::program::classified;
use crate::simd::vector_built;
use crate::values::{
    EvalErrorView, KnownView, Value, ValueView, changes_list, coerced, dtype_of_alias,
    index_of_value, list_and, list_answer, operator_on, promoted_numbers, type_failure, type_shown,
};
use vstd::prelude::*;

verus! {

/// Whether what a run gives with some fuel is what it gives with more of it, unless the
/// fuel ran out.
pub open spec fn outcome_lasts<T>(r: Result<T, FailureView>, s: Result<T, FailureView>) -> bool {
    r == s || (r matches Err(failed) && failed.error is Exhausted)
}

/// Whether the values a range gives with some fuel are those it gives with more of it,
/// unless the fuel ran out.
pub open spec fn values_last<T>(r: Result<T, EvalErrorView>, s: Result<T, EvalErrorView>) -> bool {
    r == s || (r matches Err(error) && error is Exhausted)
}

proof fn values_in_range_lasts(
    at: i64,
    stop: i64,
    step: i64,
    found: Seq<ValueView>,
    fuel: u64,
    more: u64,
)
    requires
        fuel <= more,
    ensures
        values_last(
            values_in_range(at, stop, step, found, fuel),
            values_in_range(at, stop, step, found, more),
        ),
    decreases fuel as nat,
{
    let _ = {
        if step > 0 && at < stop || step < 0 && at > stop {
            if fuel == 0 {
                Err(EvalErrorView::Exhausted)
            } else {
                let out = list_and(found, ValueView::Int(at));
                match fit(at + step) {
                    Some(next) => {
                        values_in_range_lasts(next, stop, step, out, (fuel - 1) as u64, (more - 1) as u64);
                        values_in_range(next, stop, step, out, (fuel - 1) as u64)
                    },
                    None => Err(EvalErrorView::Overflow),
                }
            }
        } else {
            Ok(found)
        }
    };
}

proof fn values_of_loop_lasts(
    value: ValueView,
    fuel: u64,
    more: u64,
)
    requires
        fuel <= more,
    ensures
        values_last(
            values_of_loop(value, fuel),
            values_of_loop(value, more),
        ),
{
    reveal(values_of_loop);
    let _ = {
        match value {
            ValueView::Range { start, stop, step } => {
                values_in_range_lasts(start, stop, step, Seq::empty(), fuel, more);
                values_in_range(start, stop, step, Seq::empty(), fuel)
            },
            ValueView::List(items) => Ok(items),
            _ => Err(type_failure("'for' loop requires a range or List, got "@ + type_shown(value))),
        }
    };
}

proof fn values_of_exprs_lasts(
    exprs: Seq<ExprView>,
    env: usize,
    known: Seq<KnownView>,
    fuel: u64,
    i: nat,
    m: EvaluatorView,
    out: Seq<ValueView>,
    more: u64,
)
    requires
        fuel <= more,
    ensures
        outcome_lasts(
            values_of_exprs(exprs, env, known, fuel, i, m, out),
            values_of_exprs(exprs, env, known, more, i, m, out),
        ),
    decreases fuel, 0nat, exprs, 0nat, (exprs.len() - i) as nat,
{
    let _ = {
        if i >= exprs.len() {
            Ok((m, out))
        } else {
            let expr = exprs[i as int];
            match {
                value_of_expr_lasts(expr, env, m, known, fuel, more);
                value_of_expr(expr, env, m, known, fuel)
            } {
                Ok(taken) => {
                    let (next, value) = taken;
                    let m = next;
                    let out = out.push(value);
                    {
                        values_of_exprs_lasts(exprs, env, known, fuel, i + 1, m, out, more);
                        values_of_exprs(exprs, env, known, fuel, i + 1, m, out)
                    }
                },
                Err(error) => Err(error),
            }
        }
    };
}

proof fn values_of_kwargs_lasts(
    kwargs: Seq<KwArgView>,
    env: usize,
    known: Seq<KnownView>,
    fuel: u64,
    i: nat,
    m: EvaluatorView,
    out: Seq<ValueView>,
    more: u64,
)
    requires
        fuel <= more,
    ensures
        outcome_lasts(
            values_of_kwargs(kwargs, env, known, fuel, i, m, out),
            values_of_kwargs(kwargs, env, known, more, i, m, out),
        ),
    decreases fuel, 0nat, kwargs, 0nat, (kwargs.len() - i) as nat,
{
    let _ = {
        if i >= kwargs.len() {
            Ok((m, out))
        } else {
            let kwarg = kwargs[i as int];
            match {
                value_of_expr_lasts(kwarg.value, env, m, known, fuel, more);
                value_of_expr(kwarg.value, env, m, known, fuel)
            } {
                Ok(taken) => {
                    let (next, value) = taken;
                    let m = next;
                    let out = out.push(value);
                    {
                        values_of_kwargs_lasts(kwargs, env, known, fuel, i + 1, m, out, more);
                        values_of_kwargs(kwargs, env, known, fuel, i + 1, m, out)
                    }
                },
                Err(error) => Err(error),
            }
        }
    };
}

proof fn values_of_params_lasts(
    param_args: Seq<ParamArgView>,
    decls: Seq<(Seq<char>, bool)>,
    env: usize,
    known: Seq<KnownView>,
    fuel: u64,
    i: nat,
    m: EvaluatorView,
    out: Seq<(Seq<char>, ValueView)>,
    k: usize,
    more: u64,
)
    requires
        fuel <= more,
    ensures
        outcome_lasts(
            values_of_params(param_args, decls, env, known, fuel, i, m, out, k),
            values_of_params(param_args, decls, env, known, more, i, m, out, k),
        ),
    decreases fuel, 0nat, param_args, 0nat, (param_args.len() - i) as nat,
{
    let _ = {
        if i >= param_args.len() {
            Ok((m, out))
        } else {
            let arg = param_args[i as int];
            if k >= decls.len() {
                Ok((m, out))
            } else {
                match {
                    value_of_param_lasts(arg, decls[k as int].1, env, m, known, fuel, more);
                    value_of_param(arg, decls[k as int].1, env, m, known, fuel)
                } {
                    Ok(taken) => {
                        let (next, value) = taken;
                        let m = next;
                        let out = if decls[k as int].1 {
                            let out = out.push((decls[k as int].0, value));
                            out
                        } else {
                            out
                        };
                        let k = following_index(k);
                        {
                            values_of_params_lasts(param_args, decls, env, known, fuel, i + 1, m, out, k, more);
                            values_of_params(param_args, decls, env, known, fuel, i + 1, m, out, k)
                        }
                    },
                    Err(error) => Err(error),
                }
            }
        }
    };
}

proof fn value_of_param_lasts(
    arg: ParamArgView,
    is_value: bool,
    env: usize,
    m: EvaluatorView,
    known: Seq<KnownView>,
    fuel: u64,
    more: u64,
)
    requires
        fuel <= more,
    ensures
        outcome_lasts(
            value_of_param(arg, is_value, env, m, known, fuel),
            value_of_param(arg, is_value, env, m, known, more),
        ),
    decreases fuel, 0nat, arg, 0nat, 0nat,
{
    let _ = {
        match arg {
            ParamArgView::Value(expr) => if is_value {
                {
                    value_of_expr_lasts(expr, env, m, known, fuel, more);
                    value_of_expr(expr, env, m, known, fuel)
                }
            } else {
                Ok((m, ValueView::NoneValue))
            },
            _ => Ok((m, ValueView::NoneValue)),
        }
    };
}

proof fn value_of_expr_lasts(
    expr: ExprView,
    env: usize,
    m: EvaluatorView,
    known: Seq<KnownView>,
    fuel: u64,
    more: u64,
)
    requires
        fuel <= more,
    ensures
        outcome_lasts(
            value_of_expr(expr, env, m, known, fuel),
            value_of_expr(expr, env, m, known, more),
        ),
    decreases fuel, 0nat, expr, 9nat, 0nat,
{
    let _ = {
        match expr.kind {
            ExprKindView::Int(n) => Ok((m, ValueView::Int(n))),
            ExprKindView::Float(bits) => Ok((m, ValueView::Float64(bits))),
            ExprKindView::Bool(b) => Ok((m, ValueView::Bool(b))),
            ExprKindView::Str(s) => Ok((m, ValueView::Str(s))),
            ExprKindView::NoneLit => Ok((m, ValueView::NoneValue)),
            ExprKindView::Identifier(name) => value_of_variable(name, env, m),
            ExprKindView::Prefix(op, operand) => match {
                value_of_expr_lasts(*operand, env, m, known, fuel, more);
                value_of_expr(*operand, env, m, known, fuel)
            } {
                Ok(out) => {
                    let (m, value) = out;
                    value_held(m, prefix_applied(op, value, known))
                },
                Err(error) => Err(error),
            },
            ExprKindView::Transfer(inner) => {
                value_of_expr_lasts(*inner, env, m, known, fuel, more);
                value_of_expr(*inner, env, m, known, fuel)
            },
            ExprKindView::ListLit(elems) => match {
                values_of_exprs_lasts(elems, env, known, fuel, 0, m, Seq::empty(), more);
                values_of_exprs(elems, env, known, fuel, 0, m, Seq::empty())
            } {
                Ok(out) => {
                    let (m, items) = out;
                    match values_held(m, promoted_numbers(items, known)) {
                        Ok(out) => {
                            let (m, made) = out;
                            Ok((m, ValueView::List(made)))
                        },
                        Err(error) => Err(error),
                    }
                },
                Err(error) => Err(error),
            },
            ExprKindView::TupleLit(elems) => match {
                values_of_exprs_lasts(elems, env, known, fuel, 0, m, Seq::empty(), more);
                values_of_exprs(elems, env, known, fuel, 0, m, Seq::empty())
            } {
                Ok(out) => {
                    let (m, items) = out;
                    Ok((m, ValueView::Tuple(items)))
                },
                Err(error) => Err(error),
            },
            ExprKindView::Infix(_, _, _) => {
                value_of_infix_lasts(expr, env, m, known, fuel, more);
                value_of_infix(expr, env, m, known, fuel)
            },
            ExprKindView::Call { .. } => {
                value_of_call_lasts(expr, env, m, known, fuel, more);
                value_of_call(expr, env, m, known, fuel)
            },
            ExprKindView::Member { .. } => {
                value_of_member_lasts(expr, env, m, known, fuel, more);
                value_of_member(expr, env, m, known, fuel)
            },
            ExprKindView::MethodCall { .. } => {
                value_of_method_lasts(expr, env, m, known, fuel, more);
                value_of_method(expr, env, m, known, fuel)
            },
            ExprKindView::Index { .. } => {
                value_of_subscript_lasts(expr, env, m, known, fuel, more);
                value_of_subscript(expr, env, m, known, fuel)
            },
            ExprKindView::Named { name, .. } => Err(walrus_unsupported(m, name)),
            ExprKindView::IfExpr { .. } => Err(unsupported_in(m, "conditional expression"@)),
            ExprKindView::Compare { .. } => Err(unsupported_in(m, "chained comparison"@)),
            ExprKindView::Slice { .. } => Err(unsupported_in(m, "slice subscript"@)),
            ExprKindView::TString { .. } => Err(unsupported_in(m, "t-string"@)),
            _ => Err(unsupported_in(m, "expression"@)),
        }
    };
}

proof fn truth_of_expr_lasts(
    expr: ExprView,
    env: usize,
    m: EvaluatorView,
    known: Seq<KnownView>,
    fuel: u64,
    more: u64,
)
    requires
        fuel <= more,
    ensures
        outcome_lasts(
            truth_of_expr(expr, env, m, known, fuel),
            truth_of_expr(expr, env, m, known, more),
        ),
    decreases fuel, 0nat, expr, 10nat, 0nat,
{
    let _ = {
        match {
            value_of_expr_lasts(expr, env, m, known, fuel, more);
            value_of_expr(expr, env, m, known, fuel)
        } {
            Ok(out) => {
                let (m, value) = out;
                flag_held(m, truth_of(value))
            },
            Err(error) => Err(error),
        }
    };
}

proof fn value_of_infix_lasts(
    expr: ExprView,
    env: usize,
    m: EvaluatorView,
    known: Seq<KnownView>,
    fuel: u64,
    more: u64,
)
    requires
        fuel <= more,
    ensures
        outcome_lasts(
            value_of_infix(expr, env, m, known, fuel),
            value_of_infix(expr, env, m, known, more),
        ),
    decreases fuel, 0nat, expr, 8nat, 0nat,
{
    let _ = {
        match expr.kind {
            ExprKindView::Infix(op, left, right) => match op {
                InfixOp::And => match {
                    truth_of_expr_lasts(*left, env, m, known, fuel, more);
                    truth_of_expr(*left, env, m, known, fuel)
                } {
                    Ok(out) => {
                        let (m, l) = out;
                        if l {
                            match {
                                truth_of_expr_lasts(*right, env, m, known, fuel, more);
                                truth_of_expr(*right, env, m, known, fuel)
                            } {
                                Ok(out) => {
                                    let (m, r) = out;
                                    Ok((m, ValueView::Bool(r)))
                                },
                                Err(error) => Err(error),
                            }
                        } else {
                            Ok((m, ValueView::Bool(false)))
                        }
                    },
                    Err(error) => Err(error),
                },
                InfixOp::Or => match {
                    truth_of_expr_lasts(*left, env, m, known, fuel, more);
                    truth_of_expr(*left, env, m, known, fuel)
                } {
                    Ok(out) => {
                        let (m, l) = out;
                        if l {
                            Ok((m, ValueView::Bool(true)))
                        } else {
                            match {
                                truth_of_expr_lasts(*right, env, m, known, fuel, more);
                                truth_of_expr(*right, env, m, known, fuel)
                            } {
                                Ok(out) => {
                                    let (m, r) = out;
                                    Ok((m, ValueView::Bool(r)))
                                },
                                Err(error) => Err(error),
                            }
                        }
                    },
                    Err(error) => Err(error),
                },
                _ => match {
                    value_of_expr_lasts(*left, env, m, known, fuel, more);
                    value_of_expr(*left, env, m, known, fuel)
                } {
                    Ok(out) => {
                        let (m, l) = out;
                        match {
                            value_of_expr_lasts(*right, env, m, known, fuel, more);
                            value_of_expr(*right, env, m, known, fuel)
                        } {
                            Ok(out) => {
                                let (m, r) = out;
                                value_held(m, operator_on(op, l, r, known))
                            },
                            Err(error) => Err(error),
                        }
                    },
                    Err(error) => Err(error),
                },
            },
            _ => Err(unsupported_in(m, "expression"@)),
        }
    };
}

proof fn value_of_member_lasts(
    expr: ExprView,
    env: usize,
    m: EvaluatorView,
    known: Seq<KnownView>,
    fuel: u64,
    more: u64,
)
    requires
        fuel <= more,
    ensures
        outcome_lasts(
            value_of_member(expr, env, m, known, fuel),
            value_of_member(expr, env, m, known, more),
        ),
    decreases fuel, 0nat, expr, 8nat, 0nat,
{
    let _ = {
        match expr.kind {
            ExprKindView::Member { object, field } => if names_self_type(*object) && param_of_self(
                m.scopes,
                env,
                field,
            ) is Some {
                let found = self_param_read(m.scopes, env, field);
                value_held(m, found)
            } else {
                match {
                    value_of_expr_lasts(*object, env, m, known, fuel, more);
                    value_of_expr(*object, env, m, known, fuel)
                } {
                    Ok(out) => {
                        let (m, value) = out;
                        value_held(m, member_read(value, field))
                    },
                    Err(error) => Err(error),
                }
            },
            _ => Err(unsupported_in(m, "expression"@)),
        }
    };
}

proof fn value_of_subscript_lasts(
    expr: ExprView,
    env: usize,
    m: EvaluatorView,
    known: Seq<KnownView>,
    fuel: u64,
    more: u64,
)
    requires
        fuel <= more,
    ensures
        outcome_lasts(
            value_of_subscript(expr, env, m, known, fuel),
            value_of_subscript(expr, env, m, known, more),
        ),
    decreases fuel, 0nat, expr, 8nat, 0nat,
{
    let _ = {
        match expr.kind {
            ExprKindView::Index { object, index } => match {
                value_of_expr_lasts(*object, env, m, known, fuel, more);
                value_of_expr(*object, env, m, known, fuel)
            } {
                Ok(out) => {
                    let (m, value) = out;
                    match {
                        value_of_expr_lasts(*index, env, m, known, fuel, more);
                        value_of_expr(*index, env, m, known, fuel)
                    } {
                        Ok(out) => {
                            let (m, at) = out;
                            match index_held(m, index_of_value(at)) {
                                Ok(out) => {
                                    let (m, idx) = out;
                                    value_held(m, value_indexed(value, idx))
                                },
                                Err(error) => Err(error),
                            }
                        },
                        Err(error) => Err(error),
                    }
                },
                Err(error) => Err(error),
            },
            _ => Err(unsupported_in(m, "expression"@)),
        }
    };
}

proof fn place_decomposed_lasts(
    place: ExprView,
    env: usize,
    m: EvaluatorView,
    known: Seq<KnownView>,
    fuel: u64,
    more: u64,
)
    requires
        fuel <= more,
    ensures
        outcome_lasts(
            place_decomposed(place, env, m, known, fuel),
            place_decomposed(place, env, m, known, more),
        ),
    decreases fuel, 0nat, place, 8nat, 0nat,
{
    let _ = {
        match place.kind {
            ExprKindView::Identifier(name) => Ok((m, (name, Seq::empty()))),
            ExprKindView::Member { object, field } => match {
                place_decomposed_lasts(*object, env, m, known, fuel, more);
                place_decomposed(*object, env, m, known, fuel)
            } {
                Ok(out) => {
                    let (m, found) = out;
                    Ok((m, path_and(found, PathStepView::Field(field))))
                },
                Err(error) => Err(error),
            },
            ExprKindView::Index { object, index } => match {
                place_decomposed_lasts(*object, env, m, known, fuel, more);
                place_decomposed(*object, env, m, known, fuel)
            } {
                Ok(out) => {
                    let (m, found) = out;
                    match {
                        value_of_expr_lasts(*index, env, m, known, fuel, more);
                        value_of_expr(*index, env, m, known, fuel)
                    } {
                        Ok(out) => {
                            let (m, at) = out;
                            match index_held(m, index_of_value(at)) {
                                Ok(out) => {
                                    let (m, i) = out;
                                    Ok((m, path_and(found, PathStepView::Index(i))))
                                },
                                Err(error) => Err(error),
                            }
                        },
                        Err(error) => Err(error),
                    }
                },
                Err(error) => Err(error),
            },
            _ => Err(failed_by_type(m, "invalid assignment target"@)),
        }
    };
}

proof fn value_of_call_lasts(
    expr: ExprView,
    env: usize,
    m: EvaluatorView,
    known: Seq<KnownView>,
    fuel: u64,
    more: u64,
)
    requires
        fuel <= more,
    ensures
        outcome_lasts(
            value_of_call(expr, env, m, known, fuel),
            value_of_call(expr, env, m, known, more),
        ),
    decreases fuel, 0nat, expr, 8nat, 0nat,
{
    let _ = {
        match expr.kind {
            ExprKindView::Call { name, .. } => match value_in_scope(m.scopes, env, name) {
                Some(callee) => match callee {
                    ValueView::Closure(id) => {
                        value_of_closure_lasts(expr, id, env, m, known, fuel, more);
                        value_of_closure(expr, id, env, m, known, fuel)
                    },
                    _ => Err(failed_with(m, EvalErrorView::NotCallable(name))),
                },
                None => {
                    value_of_builtin_lasts(expr, env, m, known, fuel, more);
                    value_of_builtin(expr, env, m, known, fuel)
                },
            },
            _ => Err(unsupported_in(m, "expression"@)),
        }
    };
}

proof fn value_of_builtin_lasts(
    expr: ExprView,
    env: usize,
    m: EvaluatorView,
    known: Seq<KnownView>,
    fuel: u64,
    more: u64,
)
    requires
        fuel <= more,
    ensures
        outcome_lasts(
            value_of_builtin(expr, env, m, known, fuel),
            value_of_builtin(expr, env, m, known, more),
        ),
    decreases fuel, 0nat, expr, 7nat, 0nat,
{
    let _ = {
        match expr.kind {
            ExprKindView::Call { name, args, .. } => if name == "print"@ {
                match {
                    values_of_exprs_lasts(args, env, known, fuel, 0, m, Seq::empty(), more);
                    values_of_exprs(args, env, known, fuel, 0, m, Seq::empty())
                } {
                    Ok(out) => {
                        let (m, values) = out;
                        values_printed(m, values, known)
                    },
                    Err(error) => Err(error),
                }
            } else if unary_builtin(name) {
                match {
                    value_of_argument_lasts(args, 0, env, m, known, fuel, more);
                    value_of_argument(args, 0, env, m, known, fuel)
                } {
                    Ok(out) => {
                        let (m, value) = out;
                        let arity = arity_list(m.closures, 0, Seq::empty());
                        value_held(m, unary_result(name, value, arity, known))
                    },
                    Err(error) => Err(error),
                }
            } else if name == "min"@ || name == "max"@ {
                match {
                    value_of_argument_lasts(args, 0, env, m, known, fuel, more);
                    value_of_argument(args, 0, env, m, known, fuel)
                } {
                    Ok(out) => {
                        let (m, a) = out;
                        match {
                            value_of_argument_lasts(args, 1, env, m, known, fuel, more);
                            value_of_argument(args, 1, env, m, known, fuel)
                        } {
                            Ok(out) => {
                                let (m, b) = out;
                                value_held(m, extreme(name == "min"@, a, b, known))
                            },
                            Err(error) => Err(error),
                        }
                    },
                    Err(error) => Err(error),
                }
            } else if name == "range"@ {
                match {
                    values_of_exprs_lasts(args, env, known, fuel, 0, m, Seq::empty(), more);
                    values_of_exprs(args, env, known, fuel, 0, m, Seq::empty())
                } {
                    Ok(out) => {
                        let (m, values) = out;
                        value_held(m, range_made(values))
                    },
                    Err(error) => Err(error),
                }
            } else if conversion_name(name) {
                {
                    value_of_conversion_lasts(name, args, env, m, known, fuel, more);
                    value_of_conversion(name, args, env, m, known, fuel)
                }
            } else {
                {
                    value_of_constructor_lasts(expr, env, m, known, fuel, more);
                    value_of_constructor(expr, env, m, known, fuel)
                }
            },
            _ => Err(unsupported_in(m, "expression"@)),
        }
    };
}

proof fn value_of_argument_lasts(
    args: Seq<ExprView>,
    k: usize,
    env: usize,
    m: EvaluatorView,
    known: Seq<KnownView>,
    fuel: u64,
    more: u64,
)
    requires
        fuel <= more,
    ensures
        outcome_lasts(
            value_of_argument(args, k, env, m, known, fuel),
            value_of_argument(args, k, env, m, known, more),
        ),
    decreases fuel, 0nat, args, 1nat, 0nat,
{
    let _ = {
        if k < args.len() {
            {
                value_of_expr_lasts(args[k as int], env, m, known, fuel, more);
                value_of_expr(args[k as int], env, m, known, fuel)
            }
        } else {
            Err(failed_with(m, EvalErrorView::OutOfBounds))
        }
    };
}

proof fn value_of_conversion_lasts(
    name: Seq<char>,
    args: Seq<ExprView>,
    env: usize,
    m: EvaluatorView,
    known: Seq<KnownView>,
    fuel: u64,
    more: u64,
)
    requires
        fuel <= more,
    ensures
        outcome_lasts(
            value_of_conversion(name, args, env, m, known, fuel),
            value_of_conversion(name, args, env, m, known, more),
        ),
    decreases fuel, 0nat, args, 2nat, 0nat,
{
    let _ = {
        if args.len() != 1 {
            Err(
                failed_with(
                    m,
                    EvalErrorView::ArityMismatch { name, expected: 1, got: args.len() as usize },
                )
            )
        } else {
            match {
                value_of_argument_lasts(args, 0, env, m, known, fuel, more);
                value_of_argument(args, 0, env, m, known, fuel)
            } {
                Ok(out) => {
                    let (m, value) = out;
                    value_held(m, conversion(name, value, known))
                },
                Err(error) => Err(error),
            }
        }
    };
}

proof fn value_of_constructor_lasts(
    expr: ExprView,
    env: usize,
    m: EvaluatorView,
    known: Seq<KnownView>,
    fuel: u64,
    more: u64,
)
    requires
        fuel <= more,
    ensures
        outcome_lasts(
            value_of_constructor(expr, env, m, known, fuel),
            value_of_constructor(expr, env, m, known, more),
        ),
    decreases fuel, 0nat, expr, 6nat, 0nat,
{
    let _ = {
        match expr.kind {
            ExprKindView::Call { name, args, .. } => if name == "List"@ {
                {
                    value_of_list_lasts(expr, env, m, known, fuel, more);
                    value_of_list(expr, env, m, known, fuel)
                }
            } else if name == "SIMD"@ {
                {
                    value_of_simd_lasts(expr, env, m, known, fuel, more);
                    value_of_simd(expr, env, m, known, fuel)
                }
            } else {
                match dtype_of_alias(name) {
                    Some(dtype) => {
                        value_of_simd_with_lasts(dtype, 1, args, env, m, known, fuel, more);
                        value_of_simd_with(dtype, 1, args, env, m, known, fuel)
                    },
                    None => {
                        value_of_construction_lasts(expr, env, m, known, fuel, more);
                        value_of_construction(expr, env, m, known, fuel)
                    },
                }
            },
            _ => Err(unsupported_in(m, "expression"@)),
        }
    };
}

proof fn value_of_list_lasts(
    expr: ExprView,
    env: usize,
    m: EvaluatorView,
    known: Seq<KnownView>,
    fuel: u64,
    more: u64,
)
    requires
        fuel <= more,
    ensures
        outcome_lasts(
            value_of_list(expr, env, m, known, fuel),
            value_of_list(expr, env, m, known, more),
        ),
    decreases fuel, 0nat, expr, 5nat, 0nat,
{
    let _ = {
        match expr.kind {
            ExprKindView::Call { param_args, args, .. } => match {
                values_of_exprs_lasts(args, env, known, fuel, 0, m, Seq::empty(), more);
                values_of_exprs(args, env, known, fuel, 0, m, Seq::empty())
            } {
                Ok(out) => {
                    let (m, items) = out;
                    match match type_of_elements(param_args) {
                        Some(ty) => values_held(m, values_coerced(items, ty, known, 0, Seq::empty())),
                        None => values_held(m, promoted_numbers(items, known)),
                    } {
                        Ok(out) => {
                            let (m, made) = out;
                            Ok((m, ValueView::List(made)))
                        },
                        Err(error) => Err(error),
                    }
                },
                Err(error) => Err(error),
            },
            _ => Err(unsupported_in(m, "expression"@)),
        }
    };
}

proof fn value_of_simd_lasts(
    expr: ExprView,
    env: usize,
    m: EvaluatorView,
    known: Seq<KnownView>,
    fuel: u64,
    more: u64,
)
    requires
        fuel <= more,
    ensures
        outcome_lasts(
            value_of_simd(expr, env, m, known, fuel),
            value_of_simd(expr, env, m, known, more),
        ),
    decreases fuel, 0nat, expr, 5nat, 0nat,
{
    let _ = {
        match expr.kind {
            ExprKindView::Call { param_args, args, .. } => match dtype_held(
                m,
                dtype_of_args(param_args),
            ) {
                Ok(out) => {
                    let (m, dtype) = out;
                    match {
                        value_of_width_lasts(param_args, env, m, known, fuel, more);
                        value_of_width(param_args, env, m, known, fuel)
                    } {
                        Ok(out) => {
                            let (m, width) = out;
                            {
                                value_of_simd_with_lasts(dtype, width, args, env, m, known, fuel, more);
                                value_of_simd_with(dtype, width, args, env, m, known, fuel)
                            }
                        },
                        Err(error) => Err(error),
                    }
                },
                Err(error) => Err(error),
            },
            _ => Err(unsupported_in(m, "expression"@)),
        }
    };
}

proof fn value_of_width_lasts(
    param_args: Seq<ParamArgView>,
    env: usize,
    m: EvaluatorView,
    known: Seq<KnownView>,
    fuel: u64,
    more: u64,
)
    requires
        fuel <= more,
    ensures
        outcome_lasts(
            value_of_width(param_args, env, m, known, fuel),
            value_of_width(param_args, env, m, known, more),
        ),
    decreases fuel, 0nat, param_args, 1nat, 0nat,
{
    let _ = {
        if param_args.len() > 1 {
            match param_args[1] {
                ParamArgView::Value(expr) => match {
                    value_of_expr_lasts(expr, env, m, known, fuel, more);
                    value_of_expr(expr, env, m, known, fuel)
                } {
                    Ok(out) => {
                        let (m, value) = out;
                        index_held(m, width_of(value))
                    },
                    Err(error) => Err(error),
                },
                _ => Err(failed_by_type(m, "SIMD needs a width"@)),
            }
        } else {
            Err(failed_by_type(m, "SIMD needs a width"@))
        }
    };
}

proof fn value_of_simd_with_lasts(
    dtype: Dtype,
    width: i64,
    args: Seq<ExprView>,
    env: usize,
    m: EvaluatorView,
    known: Seq<KnownView>,
    fuel: u64,
    more: u64,
)
    requires
        fuel <= more,
    ensures
        outcome_lasts(
            value_of_simd_with(dtype, width, args, env, m, known, fuel),
            value_of_simd_with(dtype, width, args, env, m, known, more),
        ),
    decreases fuel, 0nat, args, 2nat, 0nat,
{
    let _ = {
        match {
            values_of_exprs_lasts(args, env, known, fuel, 0, m, Seq::empty(), more);
            values_of_exprs(args, env, known, fuel, 0, m, Seq::empty())
        } {
            Ok(out) => {
                let (m, values) = out;
                if width >= 0 && width <= 4294967295 {
                    value_held(m, vector_built(dtype, width as usize, values, known))
                } else {
                    Err(failed_with(m, EvalErrorView::OutOfBounds))
                }
            },
            Err(error) => Err(error),
        }
    };
}

proof fn value_of_construction_lasts(
    expr: ExprView,
    env: usize,
    m: EvaluatorView,
    known: Seq<KnownView>,
    fuel: u64,
    more: u64,
)
    requires
        fuel <= more,
    ensures
        outcome_lasts(
            value_of_construction(expr, env, m, known, fuel),
            value_of_construction(expr, env, m, known, more),
        ),
    decreases fuel, 0nat, expr, 5nat, 0nat,
{
    let _ = {
        match expr.kind {
            ExprKindView::Call {
                name,
                param_args,
                args,
                ..
            } => match struct_defined(m.structs, name, 0, None) {
                Some(def) => if !def.fieldwise_init {
                    Err(failed_by_type(m, "struct '"@ + name + "' has no constructor"@))
                } else if def.fields.len() != args.len() {
                    Err(
                        failed_with(
                            m,
                            EvalErrorView::ArityMismatch {
                                name,
                                expected: def.fields.len() as usize,
                                got: args.len() as usize,
                            },
                        )
                    )
                } else {
                    match {
                        values_of_params_lasts(param_args, def.param_decls, env, known, fuel, 0, m, Seq::empty(), 0, more);
                        values_of_params(param_args, def.param_decls, env, known, fuel, 0, m, Seq::empty(), 0)
                    } {
                        Ok(out) => {
                            let (m, value_params) = out;
                            match {
                                values_of_fields_lasts(args, def.fields, env, known, fuel, 0, m, Seq::empty(), 0, more);
                                values_of_fields(args, def.fields, env, known, fuel, 0, m, Seq::empty(), 0)
                            } {
                                Ok(out) => {
                                    let (m, fields) = out;
                                    Ok((m, ValueView::Struct { name, fields, value_params }))
                                },
                                Err(error) => Err(error),
                            }
                        },
                        Err(error) => Err(error),
                    }
                },
                None => Err(failed_with(m, EvalErrorView::UndefinedVariable(name))),
            },
            _ => Err(unsupported_in(m, "expression"@)),
        }
    };
}

proof fn values_of_fields_lasts(
    args: Seq<ExprView>,
    fields: Seq<(Seq<char>, TypeView)>,
    env: usize,
    known: Seq<KnownView>,
    fuel: u64,
    i: nat,
    m: EvaluatorView,
    out: Seq<(Seq<char>, ValueView)>,
    k: usize,
    more: u64,
)
    requires
        fuel <= more,
    ensures
        outcome_lasts(
            values_of_fields(args, fields, env, known, fuel, i, m, out, k),
            values_of_fields(args, fields, env, known, more, i, m, out, k),
        ),
    decreases fuel, 0nat, args, 0nat, (args.len() - i) as nat,
{
    let _ = {
        if i >= args.len() {
            Ok((m, out))
        } else {
            let arg = args[i as int];
            if k >= fields.len() {
                Ok((m, out))
            } else {
                match {
                    value_of_expr_lasts(arg, env, m, known, fuel, more);
                    value_of_expr(arg, env, m, known, fuel)
                } {
                    Ok(taken) => {
                        let (next, value) = taken;
                        match value_held(next, coerced(value, fields[k as int].1, known)) {
                            Ok(taken) => {
                                let (after, made) = taken;
                                let m = after;
                                let out = out.push((fields[k as int].0, made));
                                let k = following_index(k);
                                {
                                    values_of_fields_lasts(args, fields, env, known, fuel, i + 1, m, out, k, more);
                                    values_of_fields(args, fields, env, known, fuel, i + 1, m, out, k)
                                }
                            },
                            Err(error) => Err(error),
                        }
                    },
                    Err(error) => Err(error),
                }
            }
        }
    };
}

proof fn params_bound_lasts(
    params: Seq<FnParamView>,
    regular: usize,
    name: Seq<char>,
    args: Seq<ValueView>,
    kwargs: Seq<KwArgView>,
    kw_values: Seq<ValueView>,
    home: usize,
    call_env: usize,
    known: Seq<KnownView>,
    fuel: u64,
    i: nat,
    m: EvaluatorView,
    k: usize,
    more: u64,
)
    requires
        fuel <= more,
    ensures
        outcome_lasts(
            params_bound(params, regular, name, args, kwargs, kw_values, home, call_env, known, fuel, i, m, k),
            params_bound(params, regular, name, args, kwargs, kw_values, home, call_env, known, more, i, m, k),
        ),
    decreases fuel, 3nat, params, 0nat, (params.len() - i) as nat,
{
    let _ = {
        if i >= params.len() {
            Ok(m)
        } else {
            let param = params[i as int];
            if k >= regular {
                Ok(m)
            } else {
                match {
                    argument_of_lasts(param, k, regular, name, args, kwargs, kw_values, home, m, known, fuel, more);
                    argument_of(param, k, regular, name, args, kwargs, kw_values, home, m, known, fuel)
                } {
                    Ok(out) => {
                        let (next, value) = out;
                        match value_held(next, coerced(value, param.ty, known)) {
                            Ok(out) => {
                                let (after, made) = out;
                                let m = name_defined(after, call_env, param.name, made);
                                let k = following_index(k);
                                {
                                    params_bound_lasts(params, regular, name, args, kwargs, kw_values, home, call_env, known, fuel, i + 1, m, k, more);
                                    params_bound(params, regular, name, args, kwargs, kw_values, home, call_env, known, fuel, i + 1, m, k)
                                }
                            },
                            Err(error) => Err(error),
                        }
                    },
                    Err(error) => Err(error),
                }
            }
        }
    };
}

proof fn argument_of_lasts(
    param: FnParamView,
    k: usize,
    regular: usize,
    name: Seq<char>,
    args: Seq<ValueView>,
    kwargs: Seq<KwArgView>,
    kw_values: Seq<ValueView>,
    home: usize,
    m: EvaluatorView,
    known: Seq<KnownView>,
    fuel: u64,
    more: u64,
)
    requires
        fuel <= more,
    ensures
        outcome_lasts(
            argument_of(param, k, regular, name, args, kwargs, kw_values, home, m, known, fuel),
            argument_of(param, k, regular, name, args, kwargs, kw_values, home, m, known, more),
        ),
    decreases fuel, 2nat, param, 0nat, 0nat,
{
    let _ = {
        if k < args.len() {
            Ok((m, args[k as int]))
        } else {
            match keyword_position(kwargs, param.name, 0, 0) {
                Some(at) => if at < kw_values.len() {
                    Ok((m, kw_values[at as int]))
                } else {
                    Err(failed_with(m, EvalErrorView::OutOfBounds))
                },
                None => match param.default {
                    Some(default) => {
                        value_of_expr_lasts(default, home, m, known, fuel, more);
                        value_of_expr(default, home, m, known, fuel)
                    },
                    None => Err(
                        failed_with(
                            m,
                            EvalErrorView::ArityMismatch {
                                name,
                                expected: regular,
                                got: sum_of(args.len() as usize, kwargs.len() as usize),
                            },
                        )
                    ),
                },
            }
        }
    };
}

proof fn value_of_closure_lasts(
    expr: ExprView,
    id: usize,
    env: usize,
    m: EvaluatorView,
    known: Seq<KnownView>,
    fuel: u64,
    more: u64,
)
    requires
        fuel <= more,
    ensures
        outcome_lasts(
            value_of_closure(expr, id, env, m, known, fuel),
            value_of_closure(expr, id, env, m, known, more),
        ),
    decreases fuel, 0nat, expr, 7nat, 0nat,
{
    reveal(failed_with);
    let _ = {
        match expr.kind {
            ExprKindView::Call { name, param_args, args, kwargs } => if id >= m.closures.len() {
                Err(failed_with(m, EvalErrorView::OutOfBounds))
            } else if fuel == 0 {
                Err(failed_with(m, EvalErrorView::Exhausted))
            } else {
                let closure = m.closures[id as int];
                match {
                    values_of_exprs_lasts(args, env, known, fuel, 0, m, Seq::empty(), more);
                    values_of_exprs(args, env, known, fuel, 0, m, Seq::empty())
                } {
                    Ok(out) => {
                        let (m, arg_values) = out;
                        match {
                            values_of_kwargs_lasts(kwargs, env, known, fuel, 0, m, Seq::empty(), more);
                            values_of_kwargs(kwargs, env, known, fuel, 0, m, Seq::empty())
                        } {
                            Ok(out) => {
                                let (m, kw_values) = out;
                                if !arguments_fit(closure, arg_values.len() as usize, kwargs) {
                                    Err(
                                        failed_with(
                                            m,
                                            EvalErrorView::ArityMismatch {
                                                name,
                                                expected: regular_params(closure.params, 0, 0),
                                                got: sum_of(args.len() as usize, kwargs.len() as usize),
                                            },
                                        )
                                    )
                                } else {
                                    match {
                                        values_of_params_lasts(param_args, closure.param_decls, env, known, fuel, 0, m, Seq::empty(), 0, more);
                                        values_of_params(param_args, closure.param_decls, env, known, fuel, 0, m, Seq::empty(), 0)
                                    } {
                                        Ok(out) => {
                                            let (m, value_params) = out;
                                            {
                                                closure_run_lasts(closure, name, arg_values, kwargs, kw_values, value_params, m, known, (fuel - 1) as u64, (more - 1) as u64);
                                                closure_run(closure, name, arg_values, kwargs, kw_values, value_params, m, known, (fuel - 1) as u64)
                                            }
                                        },
                                        Err(error) => Err(error),
                                    }
                                }
                            },
                            Err(error) => Err(error),
                        }
                    },
                    Err(error) => Err(error),
                }
            },
            _ => Err(unsupported_in(m, "expression"@)),
        }
    };
}

proof fn closure_run_lasts(
    closure: ClosureView,
    name: Seq<char>,
    args: Seq<ValueView>,
    kwargs: Seq<KwArgView>,
    kw_values: Seq<ValueView>,
    value_params: Seq<(Seq<char>, ValueView)>,
    m: EvaluatorView,
    known: Seq<KnownView>,
    fuel: u64,
    more: u64,
)
    requires
        fuel <= more,
    ensures
        outcome_lasts(
            closure_run(closure, name, args, kwargs, kw_values, value_params, m, known, fuel),
            closure_run(closure, name, args, kwargs, kw_values, value_params, m, known, more),
        ),
    decreases fuel, 4nat, closure, 0nat, 0nat,
{
    let _ = {
        let (m, call_env) = scope_inside(m, closure.env);
        let m = all_defined(value_params, call_env, 0, m);
        match {
            params_bound_lasts(closure.params, regular_params(closure.params, 0, 0), name, args, kwargs, kw_values, closure.env, call_env, known, fuel, 0, m, 0, more);
            params_bound(closure.params, regular_params(closure.params, 0, 0), name, args, kwargs, kw_values, closure.env, call_env, known, fuel, 0, m, 0)
        } {
            Ok(out) => {
                let m = out;
                match rest_bound(m, call_env, closure, args, known) {
                    Ok(out) => {
                        let m = out;
                        match {
                            block_run_lasts(closure.body, call_env, known, fuel, 0, m, more);
                            block_run(closure.body, call_env, known, fuel, 0, m)
                        } {
                            Ok(out) => {
                                let (m, flow) = out;
                                Ok((m, value_returned(flow)))
                            },
                            Err(error) => Err(error),
                        }
                    },
                    Err(error) => Err(error),
                }
            },
            Err(error) => Err(error),
        }
    };
}

proof fn place_of_receiver_lasts(
    object: ExprView,
    env: usize,
    m: EvaluatorView,
    known: Seq<KnownView>,
    fuel: u64,
    more: u64,
)
    requires
        fuel <= more,
    ensures
        outcome_lasts(
            place_of_receiver(object, env, m, known, fuel),
            place_of_receiver(object, env, m, known, more),
        ),
    decreases fuel, 0nat, object, 9nat, 0nat,
{
    reveal(run_stopped);
    let _ = {
        match {
            place_decomposed_lasts(object, env, m, known, fuel, more);
            place_decomposed(object, env, m, known, fuel)
        } {
            Ok(found) => Ok((found.0, Some(found.1))),
            Err(failed) => if run_stopped(failed.error) {
                Err(failed)
            } else {
                Ok((failed.machine, None))
            },
        }
    };
}

proof fn value_of_method_lasts(
    expr: ExprView,
    env: usize,
    m: EvaluatorView,
    known: Seq<KnownView>,
    fuel: u64,
    more: u64,
)
    requires
        fuel <= more,
    ensures
        outcome_lasts(
            value_of_method(expr, env, m, known, fuel),
            value_of_method(expr, env, m, known, more),
        ),
    decreases fuel, 0nat, expr, 8nat, 0nat,
{
    reveal(failed_with);
    let _ = {
        match expr.kind {
            ExprKindView::MethodCall { object, method, args, .. } => match {
                values_of_exprs_lasts(args, env, known, fuel, 0, m, Seq::empty(), more);
                values_of_exprs(args, env, known, fuel, 0, m, Seq::empty())
            } {
                Ok(out) => {
                    let (m, arg_values) = out;
                    match {
                        place_of_receiver_lasts(*object, env, m, known, fuel, more);
                        place_of_receiver(*object, env, m, known, fuel)
                    } {
                        Ok(out) => {
                            let (m, place) = out;
                            match place {
                                Some(place) => if fuel == 0 {
                                    Err(failed_with(m, EvalErrorView::Exhausted))
                                } else {
                                    {
                                        place_method_lasts(place.0, place.1, method, arg_values, env, m, known, (fuel - 1) as u64, (more - 1) as u64);
                                        place_method(place.0, place.1, method, arg_values, env, m, known, (fuel - 1) as u64)
                                    }
                                },
                                None => match {
                                    value_of_expr_lasts(*object, env, m, known, fuel, more);
                                    value_of_expr(*object, env, m, known, fuel)
                                } {
                                    Ok(out) => {
                                        let (m, receiver) = out;
                                        if fuel == 0 {
                                            Err(failed_with(m, EvalErrorView::Exhausted))
                                        } else {
                                            {
                                                method_of_value_lasts(receiver, method, arg_values, m, known, (fuel - 1) as u64, (more - 1) as u64);
                                                method_of_value(receiver, method, arg_values, m, known, (fuel - 1) as u64)
                                            }
                                        }
                                    },
                                    Err(error) => Err(error),
                                },
                            }
                        },
                        Err(error) => Err(error),
                    }
                },
                Err(error) => Err(error),
            },
            _ => Err(unsupported_in(m, "expression"@)),
        }
    };
}

proof fn place_method_lasts(
    root: Seq<char>,
    path: Seq<PathStepView>,
    method: Seq<char>,
    args: Seq<ValueView>,
    env: usize,
    m: EvaluatorView,
    known: Seq<KnownView>,
    fuel: u64,
    more: u64,
)
    requires
        fuel <= more,
    ensures
        outcome_lasts(
            place_method(root, path, method, args, env, m, known, fuel),
            place_method(root, path, method, args, env, m, known, more),
        ),
    decreases fuel, 6nat, args, 0nat, 0nat,
{
    let _ = {
        let found = place_read(m.scopes, env, root, path);
        match value_held(m, found) {
            Ok(out) => {
                let (m, receiver) = out;
                match receiver {
                    ValueView::List(items) => if changes_list(method) {
                        list_changed(root, path, items, method, args, env, m, known)
                    } else {
                        value_held(m, list_answer(items, method, args, known))
                    },
                    ValueView::Struct { name, .. } => match {
                        struct_method_lasts(name, method, receiver, args, m, known, fuel, more);
                        struct_method(name, method, receiver, args, m, known, fuel)
                    } {
                        Ok(out) => {
                            let (m, made) = out;
                            if made.mut_self {
                                match place_updated(m, env, root, path, None, made.receiver, known) {
                                    Ok(out) => {
                                        let m = out;
                                        Ok((m, made.value))
                                    },
                                    Err(error) => Err(error),
                                }
                            } else {
                                Ok((m, made.value))
                            }
                        },
                        Err(error) => Err(error),
                    },
                    _ => Err(method_missing(m, method, receiver)),
                }
            },
            Err(error) => Err(error),
        }
    };
}

proof fn method_of_value_lasts(
    receiver: ValueView,
    method: Seq<char>,
    args: Seq<ValueView>,
    m: EvaluatorView,
    known: Seq<KnownView>,
    fuel: u64,
    more: u64,
)
    requires
        fuel <= more,
    ensures
        outcome_lasts(
            method_of_value(receiver, method, args, m, known, fuel),
            method_of_value(receiver, method, args, m, known, more),
        ),
    decreases fuel, 6nat, args, 0nat, 0nat,
{
    let _ = {
        match receiver {
            ValueView::List(items) => value_held(m, list_answer(items, method, args, known)),
            ValueView::Struct { name, .. } => match {
                struct_method_lasts(name, method, receiver, args, m, known, fuel, more);
                struct_method(name, method, receiver, args, m, known, fuel)
            } {
                Ok(out) => {
                    let (m, made) = out;
                    Ok((m, made.value))
                },
                Err(error) => Err(error),
            },
            _ => Err(method_missing(m, method, receiver)),
        }
    };
}

proof fn struct_method_lasts(
    name: Seq<char>,
    method: Seq<char>,
    receiver: ValueView,
    args: Seq<ValueView>,
    m: EvaluatorView,
    known: Seq<KnownView>,
    fuel: u64,
    more: u64,
)
    requires
        fuel <= more,
    ensures
        outcome_lasts(
            struct_method(name, method, receiver, args, m, known, fuel),
            struct_method(name, method, receiver, args, m, known, more),
        ),
    decreases fuel, 5nat, args, 0nat, 0nat,
{
    let _ = {
        match method_number(m.structs, name, method) {
            Some(id) => if id < m.closures.len() {
                let closure = m.closures[id as int];
                if closure.params.len() != args.len() {
                    Err(
                        failed_with(
                            m,
                            EvalErrorView::ArityMismatch {
                                name: method,
                                expected: closure.params.len() as usize,
                                got: args.len() as usize,
                            },
                        )
                    )
                } else {
                    let (m, call_env) = scope_inside(m, closure.env);
                    let m = name_defined(m, call_env, "self"@, receiver);
                    match params_defined(closure.params, args, call_env, known, 0, m, 0) {
                        Ok(out) => {
                            let m = out;
                            match {
                                block_run_lasts(closure.body, call_env, known, fuel, 0, m, more);
                                block_run(closure.body, call_env, known, fuel, 0, m)
                            } {
                                Ok(out) => {
                                    let (m, flow) = out;
                                    Ok(method_finished(m, call_env, flow, closure.mut_self))
                                },
                                Err(error) => Err(error),
                            }
                        },
                        Err(error) => Err(error),
                    }
                }
            } else {
                Err(failed_with(m, EvalErrorView::OutOfBounds))
            },
            None => Err(failed_by_type(m, "'"@ + name + "' has no method '"@ + method + "'"@)),
        }
    };
}

proof fn block_run_lasts(
    body: Seq<StmtView>,
    env: usize,
    known: Seq<KnownView>,
    fuel: u64,
    i: nat,
    m: EvaluatorView,
    more: u64,
)
    requires
        fuel <= more,
    ensures
        outcome_lasts(
            block_run(body, env, known, fuel, i, m),
            block_run(body, env, known, more, i, m),
        ),
    decreases fuel, 1nat, body, 0nat, (body.len() - i) as nat,
{
    let _ = {
        if i >= body.len() {
            Ok((m, FlowView::Normal))
        } else {
            let stmt = body[i as int];
            match {
                stmt_run_lasts(stmt, env, m, known, fuel, more);
                stmt_run(stmt, env, m, known, fuel)
            } {
                Ok(out) => {
                    let (next, flow) = out;
                    let m = next;
                    if !((flow matches FlowView::Normal)) {
                        Ok((m, flow))
                    } else {
                        {
                            block_run_lasts(body, env, known, fuel, i + 1, m, more);
                            block_run(body, env, known, fuel, i + 1, m)
                        }
                    }
                },
                Err(error) => Err(error),
            }
        }
    };
}

proof fn block_run_inside_lasts(
    body: Seq<StmtView>,
    env: usize,
    m: EvaluatorView,
    known: Seq<KnownView>,
    fuel: u64,
    more: u64,
)
    requires
        fuel <= more,
    ensures
        outcome_lasts(
            block_run_inside(body, env, m, known, fuel),
            block_run_inside(body, env, m, known, more),
        ),
    decreases fuel, 1nat, body, 1nat, 0nat,
{
    let _ = {
        let (m, inner) = scope_inside(m, env);
        {
            block_run_lasts(body, inner, known, fuel, 0, m, more);
            block_run(body, inner, known, fuel, 0, m)
        }
    };
}

proof fn opt_block_run_lasts(
    body: Option<Seq<StmtView>>,
    env: usize,
    m: EvaluatorView,
    known: Seq<KnownView>,
    fuel: u64,
    more: u64,
)
    requires
        fuel <= more,
    ensures
        outcome_lasts(
            opt_block_run(body, env, m, known, fuel),
            opt_block_run(body, env, m, known, more),
        ),
    decreases fuel, 1nat, body, 2nat, 0nat,
{
    let _ = {
        match body {
            Some(body) => {
                block_run_inside_lasts(body, env, m, known, fuel, more);
                block_run_inside(body, env, m, known, fuel)
            },
            None => Ok((m, FlowView::Normal)),
        }
    };
}

proof fn stmt_run_lasts(
    stmt: StmtView,
    env: usize,
    m: EvaluatorView,
    known: Seq<KnownView>,
    fuel: u64,
    more: u64,
)
    requires
        fuel <= more,
    ensures
        outcome_lasts(
            stmt_run(stmt, env, m, known, fuel),
            stmt_run(stmt, env, m, known, more),
        ),
    decreases fuel, 1nat, stmt, 9nat, 0nat,
{
    let _ = {
        match stmt.kind {
            StmtKindView::VarDecl { name, ty, value } => {
                var_run_lasts(name, ty, value, env, m, known, fuel, more);
                var_run(name, ty, value, env, m, known, fuel)
            },
            StmtKindView::Assign { name, value } => {
                assign_run_lasts(name, value, env, m, known, fuel, more);
                assign_run(name, value, env, m, known, fuel)
            },
            StmtKindView::SetPlace { .. } => {
                write_run_lasts(stmt, env, m, known, fuel, more);
                write_run(stmt, env, m, known, fuel)
            },
            StmtKindView::AugAssign { .. } => {
                write_run_lasts(stmt, env, m, known, fuel, more);
                write_run(stmt, env, m, known, fuel)
            },
            StmtKindView::Comptime { name, value } => match {
                value_of_expr_lasts(value, env, m, known, fuel, more);
                value_of_expr(value, env, m, known, fuel)
            } {
                Ok(out) => {
                    let (m, value) = out;
                    Ok((name_defined(m, env, name, value), FlowView::Normal))
                },
                Err(error) => Err(error),
            },
            StmtKindView::Return(value) => {
                return_run_lasts(value, env, m, known, fuel, more);
                return_run(value, env, m, known, fuel)
            },
            StmtKindView::Pass => Ok((m, FlowView::Normal)),
            StmtKindView::Break => Ok((m, FlowView::Break)),
            StmtKindView::Continue => Ok((m, FlowView::Continue)),
            StmtKindView::Raise(value) => match {
                value_of_expr_lasts(value, env, m, known, fuel, more);
                value_of_expr(value, env, m, known, fuel)
            } {
                Ok(out) => {
                    let (m, value) = out;
                    Err(failed_with(m, message_raised(value)))
                },
                Err(error) => Err(error),
            },
            StmtKindView::Expr(value) => match {
                value_of_expr_lasts(value, env, m, known, fuel, more);
                value_of_expr(value, env, m, known, fuel)
            } {
                Ok(out) => {
                    let (m, _) = out;
                    Ok((m, FlowView::Normal))
                },
                Err(error) => Err(error),
            },
            StmtKindView::Trait { .. } => Ok((m, FlowView::Normal)),
            StmtKindView::Import { .. } => Ok((m, FlowView::Normal)),
            StmtKindView::FromImport { .. } => Ok((m, FlowView::Normal)),
            StmtKindView::Unpack { .. } => Err(unsupported_in(m, "tuple unpacking"@)),
            StmtKindView::With { .. } => Err(unsupported_in(m, "with statement"@)),
            StmtKindView::ComptimeIf { .. } => Err(unsupported_in(m, "comptime if"@)),
            StmtKindView::ComptimeFor { .. } => Err(unsupported_in(m, "comptime for"@)),
            StmtKindView::RefDecl { .. } => Err(unsupported_in(m, "reference binding"@)),
            _ => {
                compound_run_lasts(stmt, env, m, known, fuel, more);
                compound_run(stmt, env, m, known, fuel)
            },
        }
    };
}

proof fn var_run_lasts(
    name: Seq<char>,
    ty: Option<TypeView>,
    value: ExprView,
    env: usize,
    m: EvaluatorView,
    known: Seq<KnownView>,
    fuel: u64,
    more: u64,
)
    requires
        fuel <= more,
    ensures
        outcome_lasts(
            var_run(name, ty, value, env, m, known, fuel),
            var_run(name, ty, value, env, m, known, more),
        ),
    decreases fuel, 0nat, value, 11nat, 0nat,
{
    let _ = {
        match {
            value_of_expr_lasts(value, env, m, known, fuel, more);
            value_of_expr(value, env, m, known, fuel)
        } {
            Ok(out) => {
                let (m, value) = out;
                match match ty {
                    Some(ty) => value_held(m, coerced(value, ty, known)),
                    None => Ok((m, value)),
                } {
                    Ok(out) => {
                        let (m, made) = out;
                        Ok((name_defined(m, env, name, made), FlowView::Normal))
                    },
                    Err(error) => Err(error),
                }
            },
            Err(error) => Err(error),
        }
    };
}

proof fn assign_run_lasts(
    name: Seq<char>,
    value: ExprView,
    env: usize,
    m: EvaluatorView,
    known: Seq<KnownView>,
    fuel: u64,
    more: u64,
)
    requires
        fuel <= more,
    ensures
        outcome_lasts(
            assign_run(name, value, env, m, known, fuel),
            assign_run(name, value, env, m, known, more),
        ),
    decreases fuel, 0nat, value, 11nat, 0nat,
{
    let _ = {
        match {
            value_of_expr_lasts(value, env, m, known, fuel, more);
            value_of_expr(value, env, m, known, fuel)
        } {
            Ok(out) => {
                let (m, value) = out;
                if value_is_closure(value) {
                    Err(failed_with(m, EvalErrorView::ClosureEscape))
                } else {
                    match name_assigned(m, env, name, value, known) {
                        Ok(out) => {
                            let m = out;
                            Ok((m, FlowView::Normal))
                        },
                        Err(error) => Err(error),
                    }
                }
            },
            Err(error) => Err(error),
        }
    };
}

proof fn write_run_lasts(
    stmt: StmtView,
    env: usize,
    m: EvaluatorView,
    known: Seq<KnownView>,
    fuel: u64,
    more: u64,
)
    requires
        fuel <= more,
    ensures
        outcome_lasts(
            write_run(stmt, env, m, known, fuel),
            write_run(stmt, env, m, known, more),
        ),
    decreases fuel, 1nat, stmt, 8nat, 0nat,
{
    let _ = {
        match stmt.kind {
            StmtKindView::SetPlace { place, value } => match {
                place_decomposed_lasts(place, env, m, known, fuel, more);
                place_decomposed(place, env, m, known, fuel)
            } {
                Ok(out) => {
                    let (m, found) = out;
                    match {
                        value_of_expr_lasts(value, env, m, known, fuel, more);
                        value_of_expr(value, env, m, known, fuel)
                    } {
                        Ok(out) => {
                            let (m, value) = out;
                            match place_updated(m, env, found.0, found.1, None, value, known) {
                                Ok(out) => {
                                    let m = out;
                                    Ok((m, FlowView::Normal))
                                },
                                Err(error) => Err(error),
                            }
                        },
                        Err(error) => Err(error),
                    }
                },
                Err(error) => Err(error),
            },
            StmtKindView::AugAssign { place, op, value } => match {
                place_decomposed_lasts(place, env, m, known, fuel, more);
                place_decomposed(place, env, m, known, fuel)
            } {
                Ok(out) => {
                    let (m, found) = out;
                    match {
                        value_of_expr_lasts(value, env, m, known, fuel, more);
                        value_of_expr(value, env, m, known, fuel)
                    } {
                        Ok(out) => {
                            let (m, value) = out;
                            match place_updated(m, env, found.0, found.1, Some(op), value, known) {
                                Ok(out) => {
                                    let m = out;
                                    Ok((m, FlowView::Normal))
                                },
                                Err(error) => Err(error),
                            }
                        },
                        Err(error) => Err(error),
                    }
                },
                Err(error) => Err(error),
            },
            _ => Err(unsupported_in(m, "statement"@)),
        }
    };
}

proof fn return_run_lasts(
    value: Option<ExprView>,
    env: usize,
    m: EvaluatorView,
    known: Seq<KnownView>,
    fuel: u64,
    more: u64,
)
    requires
        fuel <= more,
    ensures
        outcome_lasts(
            return_run(value, env, m, known, fuel),
            return_run(value, env, m, known, more),
        ),
    decreases fuel, 0nat, value, 11nat, 0nat,
{
    let _ = {
        match value {
            Some(expr) => match {
                value_of_expr_lasts(expr, env, m, known, fuel, more);
                value_of_expr(expr, env, m, known, fuel)
            } {
                Ok(out) => {
                    let (m, value) = out;
                    if value_is_closure(value) {
                        Err(failed_with(m, EvalErrorView::ClosureEscape))
                    } else {
                        Ok((m, FlowView::Return(value)))
                    }
                },
                Err(error) => Err(error),
            },
            None => Ok((m, FlowView::Return(ValueView::NoneValue))),
        }
    };
}

proof fn compound_run_lasts(
    stmt: StmtView,
    env: usize,
    m: EvaluatorView,
    known: Seq<KnownView>,
    fuel: u64,
    more: u64,
)
    requires
        fuel <= more,
    ensures
        outcome_lasts(
            compound_run(stmt, env, m, known, fuel),
            compound_run(stmt, env, m, known, more),
        ),
    decreases fuel, 1nat, stmt, 8nat, 0nat,
{
    reveal(values_held);
    reveal(failed_with);
    let _ = {
        match stmt.kind {
            StmtKindView::If { branches, orelse } => match {
                branches_run_lasts(branches, env, known, fuel, 0, m, more);
                branches_run(branches, env, known, fuel, 0, m)
            } {
                Ok(out) => {
                    let (m, chosen) = out;
                    match chosen {
                        Some(flow) => Ok((m, flow)),
                        None => {
                            opt_block_run_lasts(orelse, env, m, known, fuel, more);
                            opt_block_run(orelse, env, m, known, fuel)
                        },
                    }
                },
                Err(error) => Err(error),
            },
            StmtKindView::While { cond, body, orelse } => if orelse is Some {
                Err(unsupported_in(m, "loop else"@))
            } else {
                {
                    while_run_lasts(cond, body, env, m, known, fuel, more);
                    while_run(cond, body, env, m, known, fuel)
                }
            },
            StmtKindView::For { var, iter, body, orelse, .. } => if orelse is Some {
                Err(unsupported_in(m, "loop else"@))
            } else {
                match {
                    value_of_expr_lasts(iter, env, m, known, fuel, more);
                    value_of_expr(iter, env, m, known, fuel)
                } {
                    Ok(out) => {
                        let (m, over) = out;
                        values_of_loop_lasts(over, fuel, more);
                        match values_held(m, values_of_loop(over, fuel)) {
                            Ok(out) => {
                                let (m, items) = out;
                                {
                                    items_run_lasts(items, var, body, env, known, fuel, 0, m, more);
                                    items_run(items, var, body, env, known, fuel, 0, m)
                                }
                            },
                            Err(error) => Err(error),
                        }
                    },
                    Err(error) => Err(error),
                }
            },
            StmtKindView::Try { .. } => {
                try_run_lasts(stmt, env, m, known, fuel, more);
                try_run(stmt, env, m, known, fuel)
            },
            StmtKindView::Def { name, type_params, params, body, .. } => {
                let closure = ClosureView {
                    params,
                    param_decls: classified(type_params, 0, Seq::empty()),
                    body,
                    env,
                    mut_self: false,
                };
                let (m, id) = closure_added(m, closure);
                Ok((name_defined(m, env, name, ValueView::Closure(id)), FlowView::Normal))
            },
            StmtKindView::Struct { name, type_params, fields, methods, fieldwise_init, .. } => Ok(
                (
                    struct_registered(m, name, type_params, fields, methods, fieldwise_init, env),
                    FlowView::Normal,
                )
            ),
            _ => Err(unsupported_in(m, "statement"@)),
        }
    };
}

proof fn branches_run_lasts(
    branches: Seq<(ExprView, Seq<StmtView>)>,
    env: usize,
    known: Seq<KnownView>,
    fuel: u64,
    i: nat,
    m: EvaluatorView,
    more: u64,
)
    requires
        fuel <= more,
    ensures
        outcome_lasts(
            branches_run(branches, env, known, fuel, i, m),
            branches_run(branches, env, known, more, i, m),
        ),
    decreases fuel, 1nat, branches, 0nat, (branches.len() - i) as nat,
{
    let _ = {
        if i >= branches.len() {
            Ok((m, None))
        } else {
            let branch = branches[i as int];
            match {
                truth_of_expr_lasts(branch.0, env, m, known, fuel, more);
                truth_of_expr(branch.0, env, m, known, fuel)
            } {
                Ok(out) => {
                    let (next, chosen) = out;
                    let m = next;
                    if chosen {
                        {
                            branch_run_lasts(branch.1, env, m, known, fuel, more);
                            branch_run(branch.1, env, m, known, fuel)
                        }
                    } else {
                        {
                            branches_run_lasts(branches, env, known, fuel, i + 1, m, more);
                            branches_run(branches, env, known, fuel, i + 1, m)
                        }
                    }
                },
                Err(error) => Err(error),
            }
        }
    };
}

proof fn branch_run_lasts(
    body: Seq<StmtView>,
    env: usize,
    m: EvaluatorView,
    known: Seq<KnownView>,
    fuel: u64,
    more: u64,
)
    requires
        fuel <= more,
    ensures
        outcome_lasts(
            branch_run(body, env, m, known, fuel),
            branch_run(body, env, m, known, more),
        ),
    decreases fuel, 1nat, body, 2nat, 0nat,
{
    let _ = {
        match {
            block_run_inside_lasts(body, env, m, known, fuel, more);
            block_run_inside(body, env, m, known, fuel)
        } {
            Ok(out) => {
                let (m, flow) = out;
                Ok((m, Some(flow)))
            },
            Err(error) => Err(error),
        }
    };
}

proof fn while_run_lasts(
    cond: ExprView,
    body: Seq<StmtView>,
    env: usize,
    m: EvaluatorView,
    known: Seq<KnownView>,
    fuel: u64,
    more: u64,
)
    requires
        fuel <= more,
    ensures
        outcome_lasts(
            while_run(cond, body, env, m, known, fuel),
            while_run(cond, body, env, m, known, more),
        ),
    decreases fuel, 1nat, body, 3nat, 0nat,
{
    reveal(failed_with);
    let _ = {
        match {
            truth_of_expr_lasts(cond, env, m, known, fuel, more);
            truth_of_expr(cond, env, m, known, fuel)
        } {
            Ok(out) => {
                let (m, goes_on) = out;
                if !goes_on {
                    Ok((m, FlowView::Normal))
                } else if fuel == 0 {
                    Err(failed_with(m, EvalErrorView::Exhausted))
                } else {
                    match {
                        block_run_inside_lasts(body, env, m, known, fuel, more);
                        block_run_inside(body, env, m, known, fuel)
                    } {
                        Ok(out) => {
                            let (m, flow) = out;
                            if ends_loop(flow) {
                                Ok((m, flow_after_loop(flow)))
                            } else {
                                {
                                    while_run_lasts(cond, body, env, m, known, (fuel - 1) as u64, (more - 1) as u64);
                                    while_run(cond, body, env, m, known, (fuel - 1) as u64)
                                }
                            }
                        },
                        Err(error) => Err(error),
                    }
                }
            },
            Err(error) => Err(error),
        }
    };
}

proof fn items_run_lasts(
    items: Seq<ValueView>,
    var: Seq<char>,
    body: Seq<StmtView>,
    env: usize,
    known: Seq<KnownView>,
    fuel: u64,
    i: nat,
    m: EvaluatorView,
    more: u64,
)
    requires
        fuel <= more,
    ensures
        outcome_lasts(
            items_run(items, var, body, env, known, fuel, i, m),
            items_run(items, var, body, env, known, more, i, m),
        ),
    decreases fuel, 1nat, body, 3nat, (items.len() - i) as nat,
{
    let _ = {
        if i >= items.len() {
            Ok((m, FlowView::Normal))
        } else {
            let item = items[i as int];
            match {
                item_run_lasts(item, var, body, env, m, known, fuel, more);
                item_run(item, var, body, env, m, known, fuel)
            } {
                Ok(out) => {
                    let (next, flow) = out;
                    let m = next;
                    if ends_loop(flow) {
                        Ok((m, flow_after_loop(flow)))
                    } else {
                        {
                            items_run_lasts(items, var, body, env, known, fuel, i + 1, m, more);
                            items_run(items, var, body, env, known, fuel, i + 1, m)
                        }
                    }
                },
                Err(error) => Err(error),
            }
        }
    };
}

proof fn item_run_lasts(
    item: ValueView,
    var: Seq<char>,
    body: Seq<StmtView>,
    env: usize,
    m: EvaluatorView,
    known: Seq<KnownView>,
    fuel: u64,
    more: u64,
)
    requires
        fuel <= more,
    ensures
        outcome_lasts(
            item_run(item, var, body, env, m, known, fuel),
            item_run(item, var, body, env, m, known, more),
        ),
    decreases fuel, 1nat, body, 2nat, 0nat,
{
    let _ = {
        let (m, inner) = scope_inside(m, env);
        let m = name_defined(m, inner, var, item);
        {
            block_run_lasts(body, inner, known, fuel, 0, m, more);
            block_run(body, inner, known, fuel, 0, m)
        }
    };
}

/// What comes after a body that exhausted the fuel is not run.
proof fn finally_run_stops(
    finalbody: Option<Seq<StmtView>>,
    failed: FailureView,
    env: usize,
    known: Seq<KnownView>,
    fuel: u64,
)
    requires
        failed.error is Exhausted,
    ensures
        finally_run(finalbody, Err(failed), env, known, fuel) == Err::<
            (EvaluatorView, FlowView),
            FailureView,
        >(failed),
{
    reveal(run_stopped);
}

proof fn try_run_lasts(
    stmt: StmtView,
    env: usize,
    m: EvaluatorView,
    known: Seq<KnownView>,
    fuel: u64,
    more: u64,
)
    requires
        fuel <= more,
    ensures
        outcome_lasts(
            try_run(stmt, env, m, known, fuel),
            try_run(stmt, env, m, known, more),
        ),
    decreases fuel, 1nat, stmt, 7nat, 0nat,
{
    match stmt.kind {
        StmtKindView::Try { body, except, orelse, finalbody } => {
            let ended = block_run_inside(body, env, m, known, fuel);
            let outcome = match ended {
                Ok(done) => body_ended(orelse, done.0, done.1, env, known, fuel),
                Err(failed) => body_failed(except, failed, env, known, fuel),
            };
            let later = match block_run_inside(body, env, m, known, more) {
                Ok(done) => body_ended(orelse, done.0, done.1, env, known, more),
                Err(failed) => body_failed(except, failed, env, known, more),
            };
            assert(outcome_lasts(outcome, later)) by {
                block_run_inside_lasts(body, env, m, known, fuel, more);
                match ended {
                    Ok(done) => {
                        body_ended_lasts(orelse, done.0, done.1, env, known, fuel, more);
                    },
                    Err(failed) => {
                        body_failed_lasts(except, failed, env, known, fuel, more);
                    },
                }
            }
            if outcome == later {
                finally_run_lasts(finalbody, outcome, env, known, fuel, more);
            } else {
                finally_run_stops(finalbody, outcome->Err_0, env, known, fuel);
            }
        },
        _ => {},
    }
}

proof fn body_ended_lasts(
    orelse: Option<Seq<StmtView>>,
    m: EvaluatorView,
    flow: FlowView,
    env: usize,
    known: Seq<KnownView>,
    fuel: u64,
    more: u64,
)
    requires
        fuel <= more,
    ensures
        outcome_lasts(
            body_ended(orelse, m, flow, env, known, fuel),
            body_ended(orelse, m, flow, env, known, more),
        ),
    decreases fuel, 1nat, orelse, 3nat, 0nat,
{
    let _ = {
        match flow {
            FlowView::Normal => {
                opt_block_run_lasts(orelse, env, m, known, fuel, more);
                opt_block_run(orelse, env, m, known, fuel)
            },
            other => Ok((m, other)),
        }
    };
}

proof fn body_failed_lasts(
    except: Option<(Option<Seq<char>>, Seq<StmtView>)>,
    failed: FailureView,
    env: usize,
    known: Seq<KnownView>,
    fuel: u64,
    more: u64,
)
    requires
        fuel <= more,
    ensures
        outcome_lasts(
            body_failed(except, failed, env, known, fuel),
            body_failed(except, failed, env, known, more),
        ),
    decreases fuel, 1nat, except, 3nat, 0nat,
{
    let _ = {
        match failed.error {
            EvalErrorView::Raised(message) => match except {
                Some(handler) => {
                    handler_run_lasts(handler.0, handler.1, message, failed.machine, env, known, fuel, more);
                    handler_run(handler.0, handler.1, message, failed.machine, env, known, fuel)
                },
                None => Err(failed),
            },
            _ => Err(failed),
        }
    };
}

proof fn handler_run_lasts(
    name: Option<Seq<char>>,
    body: Seq<StmtView>,
    message: Seq<char>,
    m: EvaluatorView,
    env: usize,
    known: Seq<KnownView>,
    fuel: u64,
    more: u64,
)
    requires
        fuel <= more,
    ensures
        outcome_lasts(
            handler_run(name, body, message, m, env, known, fuel),
            handler_run(name, body, message, m, env, known, more),
        ),
    decreases fuel, 1nat, body, 1nat, 0nat,
{
    let _ = {
        let (m, inner) = scope_inside(m, env);
        let m = match name {
            Some(name) => name_defined(m, inner, name, ValueView::Error(message)),
            None => m,
        };
        {
            block_run_lasts(body, inner, known, fuel, 0, m, more);
            block_run(body, inner, known, fuel, 0, m)
        }
    };
}

proof fn finally_run_lasts(
    finalbody: Option<Seq<StmtView>>,
    outcome: Result<(EvaluatorView, FlowView), FailureView>,
    env: usize,
    known: Seq<KnownView>,
    fuel: u64,
    more: u64,
)
    requires
        fuel <= more,
    ensures
        outcome_lasts(
            finally_run(finalbody, outcome, env, known, fuel),
            finally_run(finalbody, outcome, env, known, more),
        ),
    decreases fuel, 1nat, finalbody, 3nat, 0nat,
{
    reveal(run_stopped);
    let _ = {
        match finalbody {
            Some(body) => match outcome {
                Ok(done) => match {
                    block_run_inside_lasts(body, env, done.0, known, fuel, more);
                    block_run_inside(body, env, done.0, known, fuel)
                } {
                    Ok(out) => {
                        let (m, flow) = out;
                        Ok((m, flow_overriding(flow, done.1)))
                    },
                    Err(error) => Err(error),
                },
                Err(failed) => if run_stopped(failed.error) {
                    Err(failed)
                } else {
                    match {
                        block_run_inside_lasts(body, env, failed.machine, known, fuel, more);
                        block_run_inside(body, env, failed.machine, known, fuel)
                    } {
                        Ok(out) => {
                            let (m, flow) = out;
                            match flow {
                                FlowView::Normal => Err(failed_with(m, failed.error)),
                                other => Ok((m, other)),
                            }
                        },
                        Err(error) => Err(error),
                    }
                },
            },
            None => outcome,
        }
    };
}

proof fn program_run_lasts(
    program: Seq<StmtView>,
    m: EvaluatorView,
    known: Seq<KnownView>,
    fuel: u64,
    more: u64,
)
    requires
        fuel <= more,
    ensures
        outcome_lasts(
            program_run(program, m, known, fuel),
            program_run(program, m, known, more),
        ),
{
    reveal(program_run);
    let _ = {
        match {
            block_run_lasts(program, 0, known, fuel, 0, m, more);
            block_run(program, 0, known, fuel, 0, m)
        } {
            Ok(out) => {
                let (m, _) = out;
                match value_in_scope(m.scopes, 0, "main"@) {
                    Some(value) => match value {
                        ValueView::Closure(id) => {
                            main_run_lasts(id, m, known, fuel, more);
                            main_run(id, m, known, fuel)
                        },
                        _ => Ok(m),
                    },
                    None => Ok(m),
                }
            },
            Err(error) => Err(error),
        }
    };
}

proof fn main_run_lasts(
    id: usize,
    m: EvaluatorView,
    known: Seq<KnownView>,
    fuel: u64,
    more: u64,
)
    requires
        fuel <= more,
    ensures
        outcome_lasts(
            main_run(id, m, known, fuel),
            main_run(id, m, known, more),
        ),
{
    reveal(main_run);
    reveal(failed_with);
    let _ = {
        if id < m.closures.len() && m.closures[id as int].params.len() == 0 {
            let closure = m.closures[id as int];
            let no_kwargs = Seq::<KwArgView>::empty();
            let no_values = Seq::<ValueView>::empty();
            let no_params = Seq::<(Seq<char>, ValueView)>::empty();
            if fuel == 0 {
                Err(failed_with(m, EvalErrorView::Exhausted))
            } else {
                match {
                    closure_run_lasts(closure, "main"@, no_values, no_kwargs, no_values, no_params, m, known, (fuel - 1) as u64, (more - 1) as u64);
                    closure_run(closure, "main"@, no_values, no_kwargs, no_values, no_params, m, known, (fuel - 1) as u64)
                } {
                    Ok(out) => {
                        let (m, _) = out;
                        Ok(m)
                    },
                    Err(error) => Err(error),
                }
            }
        } else {
            Ok(m)
        }
    };
}

/// Fuel only bounds a run: a run that does not exhaust it ends as it does with any more
/// fuel, in the same machine or the same failure.
pub proof fn more_fuel_changes_nothing(
    machine: EvaluatorView,
    program: Seq<StmtView>,
    known: Seq<KnownView>,
    fuel: u64,
    more: u64,
)
    requires
        fuel <= more,
    ensures
        ({
            let end = evaluated(machine, program, known, fuel);
            ||| end == evaluated(machine, program, known, more)
            ||| (end matches Err(failed) && failed.error is Exhausted)
        }),
{
    program_run_lasts(program, machine, known, fuel, more);
}

} // verus!
