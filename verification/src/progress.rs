//! A run only adds to a machine.

use crate::ast::{
    Dtype, Expr, ExprKindView, ExprView, FnParamView, InfixOp, KwArgView, MethodView, ParamArgView,
    ParamView, StmtKindView, StmtView, TypeParamView, TypeView,
};
use crate::evaluator::{
    Closure, ClosureView, EvaluatorView, FailureView, FlowView, MethodResultView, PathStepView,
    ScopeView, StructDefView, all_defined, argument_of, arguments_fit, arity_list, assign_run,
    block_run, block_run_inside, body_ended, body_failed, branch_run, branches_run, closure_added,
    closure_of_method, closure_run, compound_run, conversion, conversion_name, declared_fields,
    dtype_held, dtype_of_args, ends_loop, evaluated, extreme, failed_by_type, failed_with,
    finally_run, flag_held, flow_after_loop, flow_overriding, handler_run, index_held, item_run,
    items_run, keyword_position, list_changed, main_run, member_read, message_raised,
    method_finished, method_missing, method_number, method_of_value, methods_added, name_assigned,
    name_defined, name_undeclared, names_self_type, opt_block_run, param_of_self, params_bound,
    params_defined, path_and, place_decomposed, place_method, place_of_receiver, place_put,
    place_read, place_updated, prefix_applied, printed_line, program_run, range_made,
    regular_params, rest_bound, return_run, root_updated, root_with, run_stopped, scope_and,
    scope_inside, scope_of_name, scopes_with, self_param_read, stmt_run, struct_defined,
    struct_method, struct_registered, sum_of, text_held, truth_of, truth_of_expr, try_run,
    type_of_elements, unary_builtin, unary_result, unsupported_in, value_held, value_in_scope,
    value_indexed, value_is_closure, value_of_argument, value_of_builtin, value_of_call,
    value_of_closure, value_of_construction, value_of_constructor, value_of_conversion,
    value_of_expr, value_of_infix, value_of_list, value_of_member, value_of_method, value_of_param,
    value_of_simd, value_of_simd_with, value_of_subscript, value_of_variable, value_of_width,
    value_returned, values_coerced, values_held, values_left_over, values_of_exprs,
    values_of_fields, values_of_kwargs, values_of_loop, values_of_params, values_printed, var_run,
    walrus_unsupported, while_run, width_of, write_run,
};
use crate::flatten::following_index;
use crate::growth::starts_with;
use crate::program::classified;
use crate::simd::vector_built;
use crate::values::{
    EvalErrorView, KnownView, Value, ValueView, changes_list, coerced, dtype_of_alias,
    index_of_value, like_before, list_answer, list_method, operator_on, promoted_numbers,
    type_shown,
};
use vstd::prelude::*;

verus! {

/// Whether a machine goes on from another: what was printed stays, no scope is gone, and
/// functions and structs keep their numbers.
pub open spec fn continued(from: EvaluatorView, m: EvaluatorView) -> bool {
    &&& starts_with(m.output, from.output)
    &&& from.scopes.len() <= m.scopes.len()
    &&& starts_with(m.closures, from.closures)
    &&& starts_with(m.structs, from.structs)
}

/// Whether a machine goes on from another, with what it gives or in a failure.
pub open spec fn run_continued<T>(
    from: EvaluatorView,
    r: Result<(EvaluatorView, T), FailureView>,
) -> bool {
    match r {
        Ok(done) => continued(from, done.0),
        Err(failed) => continued(from, failed.machine),
    }
}

/// Whether a machine goes on from another, at its end or in a failure.
pub open spec fn end_continued(
    from: EvaluatorView,
    r: Result<EvaluatorView, FailureView>,
) -> bool {
    match r {
        Ok(end) => continued(from, end),
        Err(failed) => continued(from, failed.machine),
    }
}

proof fn failed_with_continues(
    from: EvaluatorView,
    m: EvaluatorView,
    error: EvalErrorView,
)
    requires
        continued(from, m),
    ensures
        continued(from, failed_with(m, error).machine),
{
    reveal(failed_with);
    let _ = {
        FailureView { machine: m, error }
    };
}

proof fn value_held_continues(
    from: EvaluatorView,
    m: EvaluatorView,
    made: Result<ValueView, EvalErrorView>,
)
    requires
        continued(from, m),
    ensures
        run_continued(from, value_held(m, made)),
{
    reveal(value_held);
    let _ = {
        match made {
            Ok(value) => Ok((m, value)),
            Err(error) => Err({
                failed_with_continues(from, m, error);
                failed_with(m, error)
            }),
        }
    };
}

proof fn values_held_continues(
    from: EvaluatorView,
    m: EvaluatorView,
    made: Result<Seq<ValueView>, EvalErrorView>,
)
    requires
        continued(from, m),
    ensures
        run_continued(from, values_held(m, made)),
{
    reveal(values_held);
    let _ = {
        match made {
            Ok(values) => Ok((m, values)),
            Err(error) => Err({
                failed_with_continues(from, m, error);
                failed_with(m, error)
            }),
        }
    };
}

proof fn text_held_continues(
    from: EvaluatorView,
    m: EvaluatorView,
    made: Result<Seq<char>, EvalErrorView>,
)
    requires
        continued(from, m),
    ensures
        run_continued(from, text_held(m, made)),
{
    reveal(text_held);
    let _ = {
        match made {
            Ok(text) => Ok((m, text)),
            Err(error) => Err({
                failed_with_continues(from, m, error);
                failed_with(m, error)
            }),
        }
    };
}

proof fn index_held_continues(
    from: EvaluatorView,
    m: EvaluatorView,
    made: Result<i64, EvalErrorView>,
)
    requires
        continued(from, m),
    ensures
        run_continued(from, index_held(m, made)),
{
    reveal(index_held);
    let _ = {
        match made {
            Ok(n) => Ok((m, n)),
            Err(error) => Err({
                failed_with_continues(from, m, error);
                failed_with(m, error)
            }),
        }
    };
}

proof fn flag_held_continues(
    from: EvaluatorView,
    m: EvaluatorView,
    made: Result<bool, EvalErrorView>,
)
    requires
        continued(from, m),
    ensures
        run_continued(from, flag_held(m, made)),
{
    reveal(flag_held);
    let _ = {
        match made {
            Ok(flag) => Ok((m, flag)),
            Err(error) => Err({
                failed_with_continues(from, m, error);
                failed_with(m, error)
            }),
        }
    };
}

proof fn failed_by_type_continues(
    from: EvaluatorView,
    m: EvaluatorView,
    message: Seq<char>,
)
    requires
        continued(from, m),
    ensures
        continued(from, failed_by_type(m, message).machine),
{
    reveal(failed_by_type);
    let _ = {
        {
            failed_with_continues(from, m, EvalErrorView::TypeError(message));
            failed_with(m, EvalErrorView::TypeError(message))
        }
    };
}

proof fn unsupported_in_continues(
    from: EvaluatorView,
    m: EvaluatorView,
    what: Seq<char>,
)
    requires
        continued(from, m),
    ensures
        continued(from, unsupported_in(m, what).machine),
{
    reveal(unsupported_in);
    let _ = {
        {
            failed_with_continues(from, m, EvalErrorView::Unsupported(what));
            failed_with(m, EvalErrorView::Unsupported(what))
        }
    };
}

proof fn name_defined_continues(
    from: EvaluatorView,
    m: EvaluatorView,
    env: usize,
    name: Seq<char>,
    value: ValueView,
)
    requires
        continued(from, m),
    ensures
        continued(from, name_defined(m, env, name, value)),
{
    reveal(name_defined);
    let _ = {
        if env < m.scopes.len() {
            let scope = scope_and(m.scopes[env as int], name, value);
            EvaluatorView {
                scopes: scopes_with(m.scopes, env, scope),
                closures: m.closures,
                structs: m.structs,
                output: m.output,
            }
        } else {
            m
        }
    };
}

proof fn scope_inside_continues(
    from: EvaluatorView,
    m: EvaluatorView,
    parent: usize,
)
    requires
        continued(from, m),
    ensures
        continued(from, scope_inside(m, parent).0),
{
    reveal(scope_inside);
    let _ = {
        let number = m.scopes.len() as usize;
        let scopes = m.scopes;
        let scopes = scopes.push(ScopeView { vars: Seq::empty(), parent: Some(parent) });
        (EvaluatorView { scopes, closures: m.closures, structs: m.structs, output: m.output }, number)
    };
}

proof fn name_assigned_continues(
    from: EvaluatorView,
    m: EvaluatorView,
    env: usize,
    name: Seq<char>,
    value: ValueView,
    known: Seq<KnownView>,
)
    requires
        continued(from, m),
    ensures
        end_continued(from, name_assigned(m, env, name, value, known)),
{
    reveal(name_assigned);
    let _ = {
        match scope_of_name(m.scopes, env, name) {
            Some(at) => match value_in_scope(m.scopes, at, name) {
                Some(existing) => match {
                    value_held_continues(from, m, like_before(value, existing, known));
                    value_held(m, like_before(value, existing, known))
                } {
                    Ok(out) => {
                        let (m, coerced) = out;
                        Ok({
                            name_defined_continues(from, m, at, name, coerced);
                            name_defined(m, at, name, coerced)
                        })
                    },
                    Err(error) => Err(error),
                },
                None => Err({
                    name_undeclared_continues(from, m, name);
                    name_undeclared(m, name)
                }),
            },
            None => Err({
                name_undeclared_continues(from, m, name);
                name_undeclared(m, name)
            }),
        }
    };
}

proof fn name_undeclared_continues(
    from: EvaluatorView,
    m: EvaluatorView,
    name: Seq<char>,
)
    requires
        continued(from, m),
    ensures
        continued(from, name_undeclared(m, name).machine),
{
    reveal(name_undeclared);
    let _ = {
        {
            failed_with_continues(from, m, EvalErrorView::Unsupported( "introducing a variable without 'var' ('"@ + name + " = \u{2026}'); write 'var "@ + name + ": T = \u{2026}'"@ ));
            failed_with(m, EvalErrorView::Unsupported("introducing a variable without 'var' ('"@ + name + " = \u{2026}'); write 'var "@ + name + ": T = \u{2026}'"@))
        }
    };
}

proof fn place_updated_continues(
    from: EvaluatorView,
    m: EvaluatorView,
    env: usize,
    root: Seq<char>,
    path: Seq<PathStepView>,
    op: Option<InfixOp>,
    value: ValueView,
    known: Seq<KnownView>,
)
    requires
        continued(from, m),
    ensures
        end_continued(from, place_updated(m, env, root, path, op, value, known)),
{
    reveal(place_updated);
    let _ = {
        match scope_of_name(m.scopes, env, root) {
            Some(at) => match value_in_scope(m.scopes, at, root) {
                Some(existing) => match {
                    value_held_continues(from, m, root_updated(existing, path, op, value, known));
                    value_held(m, root_updated(existing, path, op, value, known))
                } {
                    Ok(out) => {
                        let (m, made) = out;
                        Ok({
                            name_defined_continues(from, m, at, root, made);
                            name_defined(m, at, root, made)
                        })
                    },
                    Err(error) => Err(error),
                },
                None => Err({
                    failed_with_continues(from, m, EvalErrorView::UndefinedVariable(root));
                    failed_with(m, EvalErrorView::UndefinedVariable(root))
                }),
            },
            None => Err({
                failed_with_continues(from, m, EvalErrorView::UndefinedVariable(root));
                failed_with(m, EvalErrorView::UndefinedVariable(root))
            }),
        }
    };
}

proof fn place_put_continues(
    from: EvaluatorView,
    m: EvaluatorView,
    env: usize,
    root: Seq<char>,
    path: Seq<PathStepView>,
    value: ValueView,
)
    requires
        continued(from, m),
    ensures
        end_continued(from, place_put(m, env, root, path, value)),
{
    reveal(place_put);
    let _ = {
        match scope_of_name(m.scopes, env, root) {
            Some(at) => match value_in_scope(m.scopes, at, root) {
                Some(existing) => match {
                    value_held_continues(from, m, root_with(existing, path, path.len() as usize, value));
                    value_held(m, root_with(existing, path, path.len() as usize, value))
                } {
                    Ok(out) => {
                        let (m, made) = out;
                        Ok({
                            name_defined_continues(from, m, at, root, made);
                            name_defined(m, at, root, made)
                        })
                    },
                    Err(error) => Err(error),
                },
                None => Err({
                    failed_with_continues(from, m, EvalErrorView::UndefinedVariable(root));
                    failed_with(m, EvalErrorView::UndefinedVariable(root))
                }),
            },
            None => Err({
                failed_with_continues(from, m, EvalErrorView::UndefinedVariable(root));
                failed_with(m, EvalErrorView::UndefinedVariable(root))
            }),
        }
    };
}

proof fn values_printed_continues(
    from: EvaluatorView,
    m: EvaluatorView,
    values: Seq<ValueView>,
    known: Seq<KnownView>,
)
    requires
        continued(from, m),
    ensures
        run_continued(from, values_printed(m, values, known)),
{
    reveal(values_printed);
    let _ = {
        let arity = arity_list(m.closures, 0, Seq::empty());
        match {
            text_held_continues(from, m, printed_line(values, arity, known, 0, ""@, true));
            text_held(m, printed_line(values, arity, known, 0, ""@, true))
        } {
            Ok(out) => {
                let (m, line) = out;
                let output = m.output + line + "\n"@;
                Ok(
                    (
                        EvaluatorView {
                            scopes: m.scopes,
                            closures: m.closures,
                            structs: m.structs,
                            output,
                        },
                        ValueView::NoneValue,
                    )
                )
            },
            Err(error) => Err(error),
        }
    };
}

proof fn closure_added_continues(
    from: EvaluatorView,
    m: EvaluatorView,
    closure: ClosureView,
)
    requires
        continued(from, m),
    ensures
        continued(from, closure_added(m, closure).0),
{
    reveal(closure_added);
    let _ = {
        let number = m.closures.len() as usize;
        let closures = m.closures;
        let closures = closures.push(closure);
        (EvaluatorView { scopes: m.scopes, closures, structs: m.structs, output: m.output }, number)
    };
}

proof fn methods_added_continues(
    from: EvaluatorView,
    methods: Seq<MethodView>,
    env: usize,
    i: nat,
    m: EvaluatorView,
    out: Seq<(Seq<char>, usize)>,
)
    requires
        continued(from, m),
    ensures
        continued(from, methods_added(methods, env, i, m, out).0),
    decreases methods, (methods.len() - i) as nat,
{
    let _ = {
        if i >= methods.len() {
            (m, out)
        } else {
            let method = methods[i as int];
            let made = closure_of_method(method, env);
            let (next, number) = {
                closure_added_continues(from, m, made);
                closure_added(m, made)
            };
            let m = next;
            let out = out.push((method.name, number));
            {
                methods_added_continues(from, methods, env, i + 1, m, out);
                methods_added(methods, env, i + 1, m, out)
            }
        }
    };
}

proof fn struct_registered_continues(
    from: EvaluatorView,
    m: EvaluatorView,
    name: Seq<char>,
    type_params: Seq<TypeParamView>,
    fields: Seq<ParamView>,
    methods: Seq<MethodView>,
    fieldwise_init: bool,
    env: usize,
)
    requires
        continued(from, m),
    ensures
        continued(from, struct_registered(m, name, type_params, fields, methods, fieldwise_init, env)),
{
    reveal(struct_registered);
    let _ = {
        let (m, made) = {
            methods_added_continues(from, methods, env, 0, m, Seq::empty());
            methods_added(methods, env, 0, m, Seq::empty())
        };
        let def = StructDefView {
            name,
            fields: declared_fields(fields, 0, Seq::empty()),
            param_decls: classified(type_params, 0, Seq::empty()),
            methods: made,
            fieldwise_init,
        };
        let structs = m.structs;
        let structs = structs.push(def);
        EvaluatorView { scopes: m.scopes, closures: m.closures, structs, output: m.output }
    };
}

proof fn all_defined_continues(
    from: EvaluatorView,
    values: Seq<(Seq<char>, ValueView)>,
    env: usize,
    i: nat,
    m: EvaluatorView,
)
    requires
        continued(from, m),
    ensures
        continued(from, all_defined(values, env, i, m)),
    decreases values, (values.len() - i) as nat,
{
    let _ = {
        if i >= values.len() {
            m
        } else {
            let entry = values[i as int];
            let m = {
                name_defined_continues(from, m, env, entry.0, entry.1);
                name_defined(m, env, entry.0, entry.1)
            };
            {
                all_defined_continues(from, values, env, i + 1, m);
                all_defined(values, env, i + 1, m)
            }
        }
    };
}

proof fn rest_bound_continues(
    from: EvaluatorView,
    m: EvaluatorView,
    call_env: usize,
    closure: ClosureView,
    args: Seq<ValueView>,
    known: Seq<KnownView>,
)
    requires
        continued(from, m),
    ensures
        end_continued(from, rest_bound(m, call_env, closure, args, known)),
{
    reveal(rest_bound);
    let _ = {
        let regular = regular_params(closure.params, 0, 0);
        if regular < closure.params.len() {
            match {
                values_held_continues(from, m, values_left_over( args, regular, closure.params[regular as int].ty, known, 0, Seq::empty(), 0, ));
                values_held(m, values_left_over(args, regular, closure.params[regular as int].ty, known, 0, Seq::empty(), 0))
            } {
                Ok(out) => {
                    let (m, items) = out;
                    Ok(
                        {
                            name_defined_continues(from, m, call_env, closure.params[regular as int].name, ValueView::List(items));
                            name_defined(m, call_env, closure.params[regular as int].name, ValueView::List(items))
                        }
                    )
                },
                Err(error) => Err(error),
            }
        } else {
            Ok(m)
        }
    };
}

proof fn values_of_exprs_continues(
    from: EvaluatorView,
    exprs: Seq<ExprView>,
    env: usize,
    known: Seq<KnownView>,
    fuel: u64,
    i: nat,
    m: EvaluatorView,
    out: Seq<ValueView>,
)
    requires
        continued(from, m),
    ensures
        run_continued(from, values_of_exprs(exprs, env, known, fuel, i, m, out)),
    decreases fuel, 0nat, exprs, 0nat, (exprs.len() - i) as nat,
{
    let _ = {
        if i >= exprs.len() {
            Ok((m, out))
        } else {
            let expr = exprs[i as int];
            match {
                value_of_expr_continues(from, expr, env, m, known, fuel);
                value_of_expr(expr, env, m, known, fuel)
            } {
                Ok(taken) => {
                    let (next, value) = taken;
                    let m = next;
                    let out = out.push(value);
                    {
                        values_of_exprs_continues(from, exprs, env, known, fuel, i + 1, m, out);
                        values_of_exprs(exprs, env, known, fuel, i + 1, m, out)
                    }
                },
                Err(error) => Err(error),
            }
        }
    };
}

proof fn values_of_kwargs_continues(
    from: EvaluatorView,
    kwargs: Seq<KwArgView>,
    env: usize,
    known: Seq<KnownView>,
    fuel: u64,
    i: nat,
    m: EvaluatorView,
    out: Seq<ValueView>,
)
    requires
        continued(from, m),
    ensures
        run_continued(from, values_of_kwargs(kwargs, env, known, fuel, i, m, out)),
    decreases fuel, 0nat, kwargs, 0nat, (kwargs.len() - i) as nat,
{
    let _ = {
        if i >= kwargs.len() {
            Ok((m, out))
        } else {
            let kwarg = kwargs[i as int];
            match {
                value_of_expr_continues(from, kwarg.value, env, m, known, fuel);
                value_of_expr(kwarg.value, env, m, known, fuel)
            } {
                Ok(taken) => {
                    let (next, value) = taken;
                    let m = next;
                    let out = out.push(value);
                    {
                        values_of_kwargs_continues(from, kwargs, env, known, fuel, i + 1, m, out);
                        values_of_kwargs(kwargs, env, known, fuel, i + 1, m, out)
                    }
                },
                Err(error) => Err(error),
            }
        }
    };
}

proof fn values_of_params_continues(
    from: EvaluatorView,
    param_args: Seq<ParamArgView>,
    decls: Seq<(Seq<char>, bool)>,
    env: usize,
    known: Seq<KnownView>,
    fuel: u64,
    i: nat,
    m: EvaluatorView,
    out: Seq<(Seq<char>, ValueView)>,
    k: usize,
)
    requires
        continued(from, m),
    ensures
        run_continued(from, values_of_params(param_args, decls, env, known, fuel, i, m, out, k)),
    decreases fuel, 0nat, param_args, 0nat, (param_args.len() - i) as nat,
{
    let _ = {
        if i >= param_args.len() {
            Ok((m, out))
        } else {
            let arg = param_args[i as int];
            if k >= decls.len() {
                Ok((m, out))
            } else {
                match {
                    value_of_param_continues(from, arg, decls[k as int].1, env, m, known, fuel);
                    value_of_param(arg, decls[k as int].1, env, m, known, fuel)
                } {
                    Ok(taken) => {
                        let (next, value) = taken;
                        let m = next;
                        let out = if decls[k as int].1 {
                            let out = out.push((decls[k as int].0, value));
                            out
                        } else {
                            out
                        };
                        let k = following_index(k);
                        {
                            values_of_params_continues(from, param_args, decls, env, known, fuel, i + 1, m, out, k);
                            values_of_params(param_args, decls, env, known, fuel, i + 1, m, out, k)
                        }
                    },
                    Err(error) => Err(error),
                }
            }
        }
    };
}

proof fn value_of_param_continues(
    from: EvaluatorView,
    arg: ParamArgView,
    is_value: bool,
    env: usize,
    m: EvaluatorView,
    known: Seq<KnownView>,
    fuel: u64,
)
    requires
        continued(from, m),
    ensures
        run_continued(from, value_of_param(arg, is_value, env, m, known, fuel)),
    decreases fuel, 0nat, arg, 0nat, 0nat,
{
    let _ = {
        match arg {
            ParamArgView::Value(expr) => if is_value {
                {
                    value_of_expr_continues(from, expr, env, m, known, fuel);
                    value_of_expr(expr, env, m, known, fuel)
                }
            } else {
                Ok((m, ValueView::NoneValue))
            },
            _ => Ok((m, ValueView::NoneValue)),
        }
    };
}

proof fn value_of_expr_continues(
    from: EvaluatorView,
    expr: ExprView,
    env: usize,
    m: EvaluatorView,
    known: Seq<KnownView>,
    fuel: u64,
)
    requires
        continued(from, m),
    ensures
        run_continued(from, value_of_expr(expr, env, m, known, fuel)),
    decreases fuel, 0nat, expr, 9nat, 0nat,
{
    let _ = {
        match expr.kind {
            ExprKindView::Int(n) => Ok((m, ValueView::Int(n))),
            ExprKindView::Float(bits) => Ok((m, ValueView::Float64(bits))),
            ExprKindView::Bool(b) => Ok((m, ValueView::Bool(b))),
            ExprKindView::Str(s) => Ok((m, ValueView::Str(s))),
            ExprKindView::NoneLit => Ok((m, ValueView::NoneValue)),
            ExprKindView::Identifier(name) => {
                value_of_variable_continues(from, name, env, m);
                value_of_variable(name, env, m)
            },
            ExprKindView::Prefix(op, operand) => match {
                value_of_expr_continues(from, *operand, env, m, known, fuel);
                value_of_expr(*operand, env, m, known, fuel)
            } {
                Ok(out) => {
                    let (m, value) = out;
                    {
                        value_held_continues(from, m, prefix_applied(op, value, known));
                        value_held(m, prefix_applied(op, value, known))
                    }
                },
                Err(error) => Err(error),
            },
            ExprKindView::Transfer(inner) => {
                value_of_expr_continues(from, *inner, env, m, known, fuel);
                value_of_expr(*inner, env, m, known, fuel)
            },
            ExprKindView::ListLit(elems) => match {
                values_of_exprs_continues(from, elems, env, known, fuel, 0, m, Seq::empty());
                values_of_exprs(elems, env, known, fuel, 0, m, Seq::empty())
            } {
                Ok(out) => {
                    let (m, items) = out;
                    match {
                        values_held_continues(from, m, promoted_numbers(items, known));
                        values_held(m, promoted_numbers(items, known))
                    } {
                        Ok(out) => {
                            let (m, made) = out;
                            Ok((m, ValueView::List(made)))
                        },
                        Err(error) => Err(error),
                    }
                },
                Err(error) => Err(error),
            },
            ExprKindView::TupleLit(elems) => match {
                values_of_exprs_continues(from, elems, env, known, fuel, 0, m, Seq::empty());
                values_of_exprs(elems, env, known, fuel, 0, m, Seq::empty())
            } {
                Ok(out) => {
                    let (m, items) = out;
                    Ok((m, ValueView::Tuple(items)))
                },
                Err(error) => Err(error),
            },
            ExprKindView::Infix(_, _, _) => {
                value_of_infix_continues(from, expr, env, m, known, fuel);
                value_of_infix(expr, env, m, known, fuel)
            },
            ExprKindView::Call { .. } => {
                value_of_call_continues(from, expr, env, m, known, fuel);
                value_of_call(expr, env, m, known, fuel)
            },
            ExprKindView::Member { .. } => {
                value_of_member_continues(from, expr, env, m, known, fuel);
                value_of_member(expr, env, m, known, fuel)
            },
            ExprKindView::MethodCall { .. } => {
                value_of_method_continues(from, expr, env, m, known, fuel);
                value_of_method(expr, env, m, known, fuel)
            },
            ExprKindView::Index { .. } => {
                value_of_subscript_continues(from, expr, env, m, known, fuel);
                value_of_subscript(expr, env, m, known, fuel)
            },
            ExprKindView::Named { name, .. } => Err({
                walrus_unsupported_continues(from, m, name);
                walrus_unsupported(m, name)
            }),
            ExprKindView::IfExpr { .. } => Err({
                unsupported_in_continues(from, m, "conditional expression"@);
                unsupported_in(m, "conditional expression"@)
            }),
            ExprKindView::Compare { .. } => Err({
                unsupported_in_continues(from, m, "chained comparison"@);
                unsupported_in(m, "chained comparison"@)
            }),
            ExprKindView::Slice { .. } => Err({
                unsupported_in_continues(from, m, "slice subscript"@);
                unsupported_in(m, "slice subscript"@)
            }),
            ExprKindView::TString { .. } => Err({
                unsupported_in_continues(from, m, "t-string"@);
                unsupported_in(m, "t-string"@)
            }),
            _ => Err({
                unsupported_in_continues(from, m, "expression"@);
                unsupported_in(m, "expression"@)
            }),
        }
    };
}

proof fn walrus_unsupported_continues(
    from: EvaluatorView,
    m: EvaluatorView,
    name: Seq<char>,
)
    requires
        continued(from, m),
    ensures
        continued(from, walrus_unsupported(m, name).machine),
{
    reveal(walrus_unsupported);
    let _ = {
        {
            failed_with_continues(from, m, EvalErrorView::Unsupported( "the walrus operator ':=' ('"@ + name + " := \u{2026}'); assign on its own line with 'var'"@ ));
            failed_with(m, EvalErrorView::Unsupported("the walrus operator ':=' ('"@ + name + " := \u{2026}'); assign on its own line with 'var'"@))
        }
    };
}

proof fn value_of_variable_continues(
    from: EvaluatorView,
    name: Seq<char>,
    env: usize,
    m: EvaluatorView,
)
    requires
        continued(from, m),
    ensures
        run_continued(from, value_of_variable(name, env, m)),
{
    reveal(value_of_variable);
    let _ = {
        match value_in_scope(m.scopes, env, name) {
            Some(value) => Ok((m, value)),
            None => Err({
                failed_with_continues(from, m, EvalErrorView::UndefinedVariable(name));
                failed_with(m, EvalErrorView::UndefinedVariable(name))
            }),
        }
    };
}

proof fn truth_of_expr_continues(
    from: EvaluatorView,
    expr: ExprView,
    env: usize,
    m: EvaluatorView,
    known: Seq<KnownView>,
    fuel: u64,
)
    requires
        continued(from, m),
    ensures
        run_continued(from, truth_of_expr(expr, env, m, known, fuel)),
    decreases fuel, 0nat, expr, 10nat, 0nat,
{
    let _ = {
        match {
            value_of_expr_continues(from, expr, env, m, known, fuel);
            value_of_expr(expr, env, m, known, fuel)
        } {
            Ok(out) => {
                let (m, value) = out;
                {
                    flag_held_continues(from, m, truth_of(value));
                    flag_held(m, truth_of(value))
                }
            },
            Err(error) => Err(error),
        }
    };
}

proof fn value_of_infix_continues(
    from: EvaluatorView,
    expr: ExprView,
    env: usize,
    m: EvaluatorView,
    known: Seq<KnownView>,
    fuel: u64,
)
    requires
        continued(from, m),
    ensures
        run_continued(from, value_of_infix(expr, env, m, known, fuel)),
    decreases fuel, 0nat, expr, 8nat, 0nat,
{
    let _ = {
        match expr.kind {
            ExprKindView::Infix(op, left, right) => match op {
                InfixOp::And => match {
                    truth_of_expr_continues(from, *left, env, m, known, fuel);
                    truth_of_expr(*left, env, m, known, fuel)
                } {
                    Ok(out) => {
                        let (m, l) = out;
                        if l {
                            match {
                                truth_of_expr_continues(from, *right, env, m, known, fuel);
                                truth_of_expr(*right, env, m, known, fuel)
                            } {
                                Ok(out) => {
                                    let (m, r) = out;
                                    Ok((m, ValueView::Bool(r)))
                                },
                                Err(error) => Err(error),
                            }
                        } else {
                            Ok((m, ValueView::Bool(false)))
                        }
                    },
                    Err(error) => Err(error),
                },
                InfixOp::Or => match {
                    truth_of_expr_continues(from, *left, env, m, known, fuel);
                    truth_of_expr(*left, env, m, known, fuel)
                } {
                    Ok(out) => {
                        let (m, l) = out;
                        if l {
                            Ok((m, ValueView::Bool(true)))
                        } else {
                            match {
                                truth_of_expr_continues(from, *right, env, m, known, fuel);
                                truth_of_expr(*right, env, m, known, fuel)
                            } {
                                Ok(out) => {
                                    let (m, r) = out;
                                    Ok((m, ValueView::Bool(r)))
                                },
                                Err(error) => Err(error),
                            }
                        }
                    },
                    Err(error) => Err(error),
                },
                _ => match {
                    value_of_expr_continues(from, *left, env, m, known, fuel);
                    value_of_expr(*left, env, m, known, fuel)
                } {
                    Ok(out) => {
                        let (m, l) = out;
                        match {
                            value_of_expr_continues(from, *right, env, m, known, fuel);
                            value_of_expr(*right, env, m, known, fuel)
                        } {
                            Ok(out) => {
                                let (m, r) = out;
                                {
                                    value_held_continues(from, m, operator_on(op, l, r, known));
                                    value_held(m, operator_on(op, l, r, known))
                                }
                            },
                            Err(error) => Err(error),
                        }
                    },
                    Err(error) => Err(error),
                },
            },
            _ => Err({
                unsupported_in_continues(from, m, "expression"@);
                unsupported_in(m, "expression"@)
            }),
        }
    };
}

proof fn value_of_member_continues(
    from: EvaluatorView,
    expr: ExprView,
    env: usize,
    m: EvaluatorView,
    known: Seq<KnownView>,
    fuel: u64,
)
    requires
        continued(from, m),
    ensures
        run_continued(from, value_of_member(expr, env, m, known, fuel)),
    decreases fuel, 0nat, expr, 8nat, 0nat,
{
    let _ = {
        match expr.kind {
            ExprKindView::Member { object, field } => if names_self_type(*object) && param_of_self(
                m.scopes,
                env,
                field,
            ) is Some {
                let found = self_param_read(m.scopes, env, field);
                {
                    value_held_continues(from, m, found);
                    value_held(m, found)
                }
            } else {
                match {
                    value_of_expr_continues(from, *object, env, m, known, fuel);
                    value_of_expr(*object, env, m, known, fuel)
                } {
                    Ok(out) => {
                        let (m, value) = out;
                        {
                            value_held_continues(from, m, member_read(value, field));
                            value_held(m, member_read(value, field))
                        }
                    },
                    Err(error) => Err(error),
                }
            },
            _ => Err({
                unsupported_in_continues(from, m, "expression"@);
                unsupported_in(m, "expression"@)
            }),
        }
    };
}

proof fn value_of_subscript_continues(
    from: EvaluatorView,
    expr: ExprView,
    env: usize,
    m: EvaluatorView,
    known: Seq<KnownView>,
    fuel: u64,
)
    requires
        continued(from, m),
    ensures
        run_continued(from, value_of_subscript(expr, env, m, known, fuel)),
    decreases fuel, 0nat, expr, 8nat, 0nat,
{
    let _ = {
        match expr.kind {
            ExprKindView::Index { object, index } => match {
                value_of_expr_continues(from, *object, env, m, known, fuel);
                value_of_expr(*object, env, m, known, fuel)
            } {
                Ok(out) => {
                    let (m, value) = out;
                    match {
                        value_of_expr_continues(from, *index, env, m, known, fuel);
                        value_of_expr(*index, env, m, known, fuel)
                    } {
                        Ok(out) => {
                            let (m, at) = out;
                            match {
                                index_held_continues(from, m, index_of_value(at));
                                index_held(m, index_of_value(at))
                            } {
                                Ok(out) => {
                                    let (m, idx) = out;
                                    {
                                        value_held_continues(from, m, value_indexed(value, idx));
                                        value_held(m, value_indexed(value, idx))
                                    }
                                },
                                Err(error) => Err(error),
                            }
                        },
                        Err(error) => Err(error),
                    }
                },
                Err(error) => Err(error),
            },
            _ => Err({
                unsupported_in_continues(from, m, "expression"@);
                unsupported_in(m, "expression"@)
            }),
        }
    };
}

proof fn place_decomposed_continues(
    from: EvaluatorView,
    place: ExprView,
    env: usize,
    m: EvaluatorView,
    known: Seq<KnownView>,
    fuel: u64,
)
    requires
        continued(from, m),
    ensures
        run_continued(from, place_decomposed(place, env, m, known, fuel)),
    decreases fuel, 0nat, place, 8nat, 0nat,
{
    let _ = {
        match place.kind {
            ExprKindView::Identifier(name) => Ok((m, (name, Seq::empty()))),
            ExprKindView::Member { object, field } => match {
                place_decomposed_continues(from, *object, env, m, known, fuel);
                place_decomposed(*object, env, m, known, fuel)
            } {
                Ok(out) => {
                    let (m, found) = out;
                    Ok((m, path_and(found, PathStepView::Field(field))))
                },
                Err(error) => Err(error),
            },
            ExprKindView::Index { object, index } => match {
                place_decomposed_continues(from, *object, env, m, known, fuel);
                place_decomposed(*object, env, m, known, fuel)
            } {
                Ok(out) => {
                    let (m, found) = out;
                    match {
                        value_of_expr_continues(from, *index, env, m, known, fuel);
                        value_of_expr(*index, env, m, known, fuel)
                    } {
                        Ok(out) => {
                            let (m, at) = out;
                            match {
                                index_held_continues(from, m, index_of_value(at));
                                index_held(m, index_of_value(at))
                            } {
                                Ok(out) => {
                                    let (m, i) = out;
                                    Ok((m, path_and(found, PathStepView::Index(i))))
                                },
                                Err(error) => Err(error),
                            }
                        },
                        Err(error) => Err(error),
                    }
                },
                Err(error) => Err(error),
            },
            _ => Err({
                failed_by_type_continues(from, m, "invalid assignment target"@);
                failed_by_type(m, "invalid assignment target"@)
            }),
        }
    };
}

proof fn value_of_call_continues(
    from: EvaluatorView,
    expr: ExprView,
    env: usize,
    m: EvaluatorView,
    known: Seq<KnownView>,
    fuel: u64,
)
    requires
        continued(from, m),
    ensures
        run_continued(from, value_of_call(expr, env, m, known, fuel)),
    decreases fuel, 0nat, expr, 8nat, 0nat,
{
    let _ = {
        match expr.kind {
            ExprKindView::Call { name, .. } => match value_in_scope(m.scopes, env, name) {
                Some(callee) => match callee {
                    ValueView::Closure(id) => {
                        value_of_closure_continues(from, expr, id, env, m, known, fuel);
                        value_of_closure(expr, id, env, m, known, fuel)
                    },
                    _ => Err({
                        failed_with_continues(from, m, EvalErrorView::NotCallable(name));
                        failed_with(m, EvalErrorView::NotCallable(name))
                    }),
                },
                None => {
                    value_of_builtin_continues(from, expr, env, m, known, fuel);
                    value_of_builtin(expr, env, m, known, fuel)
                },
            },
            _ => Err({
                unsupported_in_continues(from, m, "expression"@);
                unsupported_in(m, "expression"@)
            }),
        }
    };
}

proof fn value_of_builtin_continues(
    from: EvaluatorView,
    expr: ExprView,
    env: usize,
    m: EvaluatorView,
    known: Seq<KnownView>,
    fuel: u64,
)
    requires
        continued(from, m),
    ensures
        run_continued(from, value_of_builtin(expr, env, m, known, fuel)),
    decreases fuel, 0nat, expr, 7nat, 0nat,
{
    let _ = {
        match expr.kind {
            ExprKindView::Call { name, args, .. } => if name == "print"@ {
                match {
                    values_of_exprs_continues(from, args, env, known, fuel, 0, m, Seq::empty());
                    values_of_exprs(args, env, known, fuel, 0, m, Seq::empty())
                } {
                    Ok(out) => {
                        let (m, values) = out;
                        {
                            values_printed_continues(from, m, values, known);
                            values_printed(m, values, known)
                        }
                    },
                    Err(error) => Err(error),
                }
            } else if unary_builtin(name) {
                match {
                    value_of_argument_continues(from, args, 0, env, m, known, fuel);
                    value_of_argument(args, 0, env, m, known, fuel)
                } {
                    Ok(out) => {
                        let (m, value) = out;
                        let arity = arity_list(m.closures, 0, Seq::empty());
                        {
                            value_held_continues(from, m, unary_result(name, value, arity, known));
                            value_held(m, unary_result(name, value, arity, known))
                        }
                    },
                    Err(error) => Err(error),
                }
            } else if name == "min"@ || name == "max"@ {
                match {
                    value_of_argument_continues(from, args, 0, env, m, known, fuel);
                    value_of_argument(args, 0, env, m, known, fuel)
                } {
                    Ok(out) => {
                        let (m, a) = out;
                        match {
                            value_of_argument_continues(from, args, 1, env, m, known, fuel);
                            value_of_argument(args, 1, env, m, known, fuel)
                        } {
                            Ok(out) => {
                                let (m, b) = out;
                                {
                                    value_held_continues(from, m, extreme(name == "min"@, a, b, known));
                                    value_held(m, extreme(name == "min"@, a, b, known))
                                }
                            },
                            Err(error) => Err(error),
                        }
                    },
                    Err(error) => Err(error),
                }
            } else if name == "range"@ {
                match {
                    values_of_exprs_continues(from, args, env, known, fuel, 0, m, Seq::empty());
                    values_of_exprs(args, env, known, fuel, 0, m, Seq::empty())
                } {
                    Ok(out) => {
                        let (m, values) = out;
                        {
                            value_held_continues(from, m, range_made(values));
                            value_held(m, range_made(values))
                        }
                    },
                    Err(error) => Err(error),
                }
            } else if conversion_name(name) {
                {
                    value_of_conversion_continues(from, name, args, env, m, known, fuel);
                    value_of_conversion(name, args, env, m, known, fuel)
                }
            } else {
                {
                    value_of_constructor_continues(from, expr, env, m, known, fuel);
                    value_of_constructor(expr, env, m, known, fuel)
                }
            },
            _ => Err({
                unsupported_in_continues(from, m, "expression"@);
                unsupported_in(m, "expression"@)
            }),
        }
    };
}

proof fn value_of_argument_continues(
    from: EvaluatorView,
    args: Seq<ExprView>,
    k: usize,
    env: usize,
    m: EvaluatorView,
    known: Seq<KnownView>,
    fuel: u64,
)
    requires
        continued(from, m),
    ensures
        run_continued(from, value_of_argument(args, k, env, m, known, fuel)),
    decreases fuel, 0nat, args, 1nat, 0nat,
{
    let _ = {
        if k < args.len() {
            {
                value_of_expr_continues(from, args[k as int], env, m, known, fuel);
                value_of_expr(args[k as int], env, m, known, fuel)
            }
        } else {
            Err({
                failed_with_continues(from, m, EvalErrorView::OutOfBounds);
                failed_with(m, EvalErrorView::OutOfBounds)
            })
        }
    };
}

proof fn value_of_conversion_continues(
    from: EvaluatorView,
    name: Seq<char>,
    args: Seq<ExprView>,
    env: usize,
    m: EvaluatorView,
    known: Seq<KnownView>,
    fuel: u64,
)
    requires
        continued(from, m),
    ensures
        run_continued(from, value_of_conversion(name, args, env, m, known, fuel)),
    decreases fuel, 0nat, args, 2nat, 0nat,
{
    let _ = {
        if args.len() != 1 {
            Err(
                {
                    failed_with_continues(from, m, EvalErrorView::ArityMismatch { name, expected: 1, got: args.len() as usize });
                    failed_with(m, EvalErrorView::ArityMismatch { name, expected: 1, got: args.len() as usize })
                }
            )
        } else {
            match {
                value_of_argument_continues(from, args, 0, env, m, known, fuel);
                value_of_argument(args, 0, env, m, known, fuel)
            } {
                Ok(out) => {
                    let (m, value) = out;
                    {
                        value_held_continues(from, m, conversion(name, value, known));
                        value_held(m, conversion(name, value, known))
                    }
                },
                Err(error) => Err(error),
            }
        }
    };
}

proof fn value_of_constructor_continues(
    from: EvaluatorView,
    expr: ExprView,
    env: usize,
    m: EvaluatorView,
    known: Seq<KnownView>,
    fuel: u64,
)
    requires
        continued(from, m),
    ensures
        run_continued(from, value_of_constructor(expr, env, m, known, fuel)),
    decreases fuel, 0nat, expr, 6nat, 0nat,
{
    let _ = {
        match expr.kind {
            ExprKindView::Call { name, args, .. } => if name == "List"@ {
                {
                    value_of_list_continues(from, expr, env, m, known, fuel);
                    value_of_list(expr, env, m, known, fuel)
                }
            } else if name == "SIMD"@ {
                {
                    value_of_simd_continues(from, expr, env, m, known, fuel);
                    value_of_simd(expr, env, m, known, fuel)
                }
            } else {
                match dtype_of_alias(name) {
                    Some(dtype) => {
                        value_of_simd_with_continues(from, dtype, 1, args, env, m, known, fuel);
                        value_of_simd_with(dtype, 1, args, env, m, known, fuel)
                    },
                    None => {
                        value_of_construction_continues(from, expr, env, m, known, fuel);
                        value_of_construction(expr, env, m, known, fuel)
                    },
                }
            },
            _ => Err({
                unsupported_in_continues(from, m, "expression"@);
                unsupported_in(m, "expression"@)
            }),
        }
    };
}

proof fn value_of_list_continues(
    from: EvaluatorView,
    expr: ExprView,
    env: usize,
    m: EvaluatorView,
    known: Seq<KnownView>,
    fuel: u64,
)
    requires
        continued(from, m),
    ensures
        run_continued(from, value_of_list(expr, env, m, known, fuel)),
    decreases fuel, 0nat, expr, 5nat, 0nat,
{
    let _ = {
        match expr.kind {
            ExprKindView::Call { param_args, args, .. } => match {
                values_of_exprs_continues(from, args, env, known, fuel, 0, m, Seq::empty());
                values_of_exprs(args, env, known, fuel, 0, m, Seq::empty())
            } {
                Ok(out) => {
                    let (m, items) = out;
                    match match type_of_elements(param_args) {
                        Some(ty) => {
                            values_held_continues(from, m, values_coerced(items, ty, known, 0, Seq::empty()));
                            values_held(m, values_coerced(items, ty, known, 0, Seq::empty()))
                        },
                        None => {
                            values_held_continues(from, m, promoted_numbers(items, known));
                            values_held(m, promoted_numbers(items, known))
                        },
                    } {
                        Ok(out) => {
                            let (m, made) = out;
                            Ok((m, ValueView::List(made)))
                        },
                        Err(error) => Err(error),
                    }
                },
                Err(error) => Err(error),
            },
            _ => Err({
                unsupported_in_continues(from, m, "expression"@);
                unsupported_in(m, "expression"@)
            }),
        }
    };
}

proof fn dtype_held_continues(
    from: EvaluatorView,
    m: EvaluatorView,
    made: Result<Dtype, EvalErrorView>,
)
    requires
        continued(from, m),
    ensures
        run_continued(from, dtype_held(m, made)),
{
    reveal(dtype_held);
    let _ = {
        match made {
            Ok(dtype) => Ok((m, dtype)),
            Err(error) => Err({
                failed_with_continues(from, m, error);
                failed_with(m, error)
            }),
        }
    };
}

proof fn value_of_simd_continues(
    from: EvaluatorView,
    expr: ExprView,
    env: usize,
    m: EvaluatorView,
    known: Seq<KnownView>,
    fuel: u64,
)
    requires
        continued(from, m),
    ensures
        run_continued(from, value_of_simd(expr, env, m, known, fuel)),
    decreases fuel, 0nat, expr, 5nat, 0nat,
{
    let _ = {
        match expr.kind {
            ExprKindView::Call { param_args, args, .. } => match {
                dtype_held_continues(from, m, dtype_of_args(param_args));
                dtype_held(m, dtype_of_args(param_args))
            } {
                Ok(out) => {
                    let (m, dtype) = out;
                    match {
                        value_of_width_continues(from, param_args, env, m, known, fuel);
                        value_of_width(param_args, env, m, known, fuel)
                    } {
                        Ok(out) => {
                            let (m, width) = out;
                            {
                                value_of_simd_with_continues(from, dtype, width, args, env, m, known, fuel);
                                value_of_simd_with(dtype, width, args, env, m, known, fuel)
                            }
                        },
                        Err(error) => Err(error),
                    }
                },
                Err(error) => Err(error),
            },
            _ => Err({
                unsupported_in_continues(from, m, "expression"@);
                unsupported_in(m, "expression"@)
            }),
        }
    };
}

proof fn value_of_width_continues(
    from: EvaluatorView,
    param_args: Seq<ParamArgView>,
    env: usize,
    m: EvaluatorView,
    known: Seq<KnownView>,
    fuel: u64,
)
    requires
        continued(from, m),
    ensures
        run_continued(from, value_of_width(param_args, env, m, known, fuel)),
    decreases fuel, 0nat, param_args, 1nat, 0nat,
{
    let _ = {
        if param_args.len() > 1 {
            match param_args[1] {
                ParamArgView::Value(expr) => match {
                    value_of_expr_continues(from, expr, env, m, known, fuel);
                    value_of_expr(expr, env, m, known, fuel)
                } {
                    Ok(out) => {
                        let (m, value) = out;
                        {
                            index_held_continues(from, m, width_of(value));
                            index_held(m, width_of(value))
                        }
                    },
                    Err(error) => Err(error),
                },
                _ => Err({
                    failed_by_type_continues(from, m, "SIMD needs a width"@);
                    failed_by_type(m, "SIMD needs a width"@)
                }),
            }
        } else {
            Err({
                failed_by_type_continues(from, m, "SIMD needs a width"@);
                failed_by_type(m, "SIMD needs a width"@)
            })
        }
    };
}

proof fn value_of_simd_with_continues(
    from: EvaluatorView,
    dtype: Dtype,
    width: i64,
    args: Seq<ExprView>,
    env: usize,
    m: EvaluatorView,
    known: Seq<KnownView>,
    fuel: u64,
)
    requires
        continued(from, m),
    ensures
        run_continued(from, value_of_simd_with(dtype, width, args, env, m, known, fuel)),
    decreases fuel, 0nat, args, 2nat, 0nat,
{
    let _ = {
        match {
            values_of_exprs_continues(from, args, env, known, fuel, 0, m, Seq::empty());
            values_of_exprs(args, env, known, fuel, 0, m, Seq::empty())
        } {
            Ok(out) => {
                let (m, values) = out;
                if width >= 0 && width <= 4294967295 {
                    {
                        value_held_continues(from, m, vector_built(dtype, width as usize, values, known));
                        value_held(m, vector_built(dtype, width as usize, values, known))
                    }
                } else {
                    Err({
                        failed_with_continues(from, m, EvalErrorView::OutOfBounds);
                        failed_with(m, EvalErrorView::OutOfBounds)
                    })
                }
            },
            Err(error) => Err(error),
        }
    };
}

proof fn value_of_construction_continues(
    from: EvaluatorView,
    expr: ExprView,
    env: usize,
    m: EvaluatorView,
    known: Seq<KnownView>,
    fuel: u64,
)
    requires
        continued(from, m),
    ensures
        run_continued(from, value_of_construction(expr, env, m, known, fuel)),
    decreases fuel, 0nat, expr, 5nat, 0nat,
{
    let _ = {
        match expr.kind {
            ExprKindView::Call {
                name,
                param_args,
                args,
                ..
            } => match struct_defined(m.structs, name, 0, None) {
                Some(def) => if !def.fieldwise_init {
                    Err({
                        failed_by_type_continues(from, m, "struct '"@ + name + "' has no constructor"@);
                        failed_by_type(m, "struct '"@ + name + "' has no constructor"@)
                    })
                } else if def.fields.len() != args.len() {
                    Err(
                        {
                            failed_with_continues(from, m, EvalErrorView::ArityMismatch { name, expected: def.fields.len() as usize, got: args.len() as usize, });
                            failed_with(m, EvalErrorView::ArityMismatch { name, expected: def.fields.len() as usize, got: args.len() as usize, })
                        }
                    )
                } else {
                    match {
                        values_of_params_continues(from, param_args, def.param_decls, env, known, fuel, 0, m, Seq::empty(), 0);
                        values_of_params(param_args, def.param_decls, env, known, fuel, 0, m, Seq::empty(), 0)
                    } {
                        Ok(out) => {
                            let (m, value_params) = out;
                            match {
                                values_of_fields_continues(from, args, def.fields, env, known, fuel, 0, m, Seq::empty(), 0);
                                values_of_fields(args, def.fields, env, known, fuel, 0, m, Seq::empty(), 0)
                            } {
                                Ok(out) => {
                                    let (m, fields) = out;
                                    Ok((m, ValueView::Struct { name, fields, value_params }))
                                },
                                Err(error) => Err(error),
                            }
                        },
                        Err(error) => Err(error),
                    }
                },
                None => Err({
                    failed_with_continues(from, m, EvalErrorView::UndefinedVariable(name));
                    failed_with(m, EvalErrorView::UndefinedVariable(name))
                }),
            },
            _ => Err({
                unsupported_in_continues(from, m, "expression"@);
                unsupported_in(m, "expression"@)
            }),
        }
    };
}

proof fn values_of_fields_continues(
    from: EvaluatorView,
    args: Seq<ExprView>,
    fields: Seq<(Seq<char>, TypeView)>,
    env: usize,
    known: Seq<KnownView>,
    fuel: u64,
    i: nat,
    m: EvaluatorView,
    out: Seq<(Seq<char>, ValueView)>,
    k: usize,
)
    requires
        continued(from, m),
    ensures
        run_continued(from, values_of_fields(args, fields, env, known, fuel, i, m, out, k)),
    decreases fuel, 0nat, args, 0nat, (args.len() - i) as nat,
{
    let _ = {
        if i >= args.len() {
            Ok((m, out))
        } else {
            let arg = args[i as int];
            if k >= fields.len() {
                Ok((m, out))
            } else {
                match {
                    value_of_expr_continues(from, arg, env, m, known, fuel);
                    value_of_expr(arg, env, m, known, fuel)
                } {
                    Ok(taken) => {
                        let (next, value) = taken;
                        match {
                            value_held_continues(from, next, coerced(value, fields[k as int].1, known));
                            value_held(next, coerced(value, fields[k as int].1, known))
                        } {
                            Ok(taken) => {
                                let (after, made) = taken;
                                let m = after;
                                let out = out.push((fields[k as int].0, made));
                                let k = following_index(k);
                                {
                                    values_of_fields_continues(from, args, fields, env, known, fuel, i + 1, m, out, k);
                                    values_of_fields(args, fields, env, known, fuel, i + 1, m, out, k)
                                }
                            },
                            Err(error) => Err(error),
                        }
                    },
                    Err(error) => Err(error),
                }
            }
        }
    };
}

proof fn params_bound_continues(
    from: EvaluatorView,
    params: Seq<FnParamView>,
    regular: usize,
    name: Seq<char>,
    args: Seq<ValueView>,
    kwargs: Seq<KwArgView>,
    kw_values: Seq<ValueView>,
    home: usize,
    call_env: usize,
    known: Seq<KnownView>,
    fuel: u64,
    i: nat,
    m: EvaluatorView,
    k: usize,
)
    requires
        continued(from, m),
    ensures
        end_continued(from, params_bound(params, regular, name, args, kwargs, kw_values, home, call_env, known, fuel, i, m, k)),
    decreases fuel, 3nat, params, 0nat, (params.len() - i) as nat,
{
    let _ = {
        if i >= params.len() {
            Ok(m)
        } else {
            let param = params[i as int];
            if k >= regular {
                Ok(m)
            } else {
                match {
                    argument_of_continues(from, param, k, regular, name, args, kwargs, kw_values, home, m, known, fuel);
                    argument_of(param, k, regular, name, args, kwargs, kw_values, home, m, known, fuel)
                } {
                    Ok(out) => {
                        let (next, value) = out;
                        match {
                            value_held_continues(from, next, coerced(value, param.ty, known));
                            value_held(next, coerced(value, param.ty, known))
                        } {
                            Ok(out) => {
                                let (after, made) = out;
                                let m = {
                                    name_defined_continues(from, after, call_env, param.name, made);
                                    name_defined(after, call_env, param.name, made)
                                };
                                let k = following_index(k);
                                {
                                    params_bound_continues(from, params, regular, name, args, kwargs, kw_values, home, call_env, known, fuel, i + 1, m, k);
                                    params_bound(params, regular, name, args, kwargs, kw_values, home, call_env, known, fuel, i + 1, m, k)
                                }
                            },
                            Err(error) => Err(error),
                        }
                    },
                    Err(error) => Err(error),
                }
            }
        }
    };
}

proof fn argument_of_continues(
    from: EvaluatorView,
    param: FnParamView,
    k: usize,
    regular: usize,
    name: Seq<char>,
    args: Seq<ValueView>,
    kwargs: Seq<KwArgView>,
    kw_values: Seq<ValueView>,
    home: usize,
    m: EvaluatorView,
    known: Seq<KnownView>,
    fuel: u64,
)
    requires
        continued(from, m),
    ensures
        run_continued(from, argument_of(param, k, regular, name, args, kwargs, kw_values, home, m, known, fuel)),
    decreases fuel, 2nat, param, 0nat, 0nat,
{
    let _ = {
        if k < args.len() {
            Ok((m, args[k as int]))
        } else {
            match keyword_position(kwargs, param.name, 0, 0) {
                Some(at) => if at < kw_values.len() {
                    Ok((m, kw_values[at as int]))
                } else {
                    Err({
                        failed_with_continues(from, m, EvalErrorView::OutOfBounds);
                        failed_with(m, EvalErrorView::OutOfBounds)
                    })
                },
                None => match param.default {
                    Some(default) => {
                        value_of_expr_continues(from, default, home, m, known, fuel);
                        value_of_expr(default, home, m, known, fuel)
                    },
                    None => Err(
                        {
                            failed_with_continues(from, m, EvalErrorView::ArityMismatch { name, expected: regular, got: sum_of(args.len() as usize, kwargs.len() as usize), });
                            failed_with(m, EvalErrorView::ArityMismatch { name, expected: regular, got: sum_of(args.len() as usize, kwargs.len() as usize), })
                        }
                    ),
                },
            }
        }
    };
}

proof fn value_of_closure_continues(
    from: EvaluatorView,
    expr: ExprView,
    id: usize,
    env: usize,
    m: EvaluatorView,
    known: Seq<KnownView>,
    fuel: u64,
)
    requires
        continued(from, m),
    ensures
        run_continued(from, value_of_closure(expr, id, env, m, known, fuel)),
    decreases fuel, 0nat, expr, 7nat, 0nat,
{
    let _ = {
        match expr.kind {
            ExprKindView::Call { name, param_args, args, kwargs } => if id >= m.closures.len() {
                Err({
                    failed_with_continues(from, m, EvalErrorView::OutOfBounds);
                    failed_with(m, EvalErrorView::OutOfBounds)
                })
            } else if fuel == 0 {
                Err({
                    failed_with_continues(from, m, EvalErrorView::Exhausted);
                    failed_with(m, EvalErrorView::Exhausted)
                })
            } else {
                let closure = m.closures[id as int];
                match {
                    values_of_exprs_continues(from, args, env, known, fuel, 0, m, Seq::empty());
                    values_of_exprs(args, env, known, fuel, 0, m, Seq::empty())
                } {
                    Ok(out) => {
                        let (m, arg_values) = out;
                        match {
                            values_of_kwargs_continues(from, kwargs, env, known, fuel, 0, m, Seq::empty());
                            values_of_kwargs(kwargs, env, known, fuel, 0, m, Seq::empty())
                        } {
                            Ok(out) => {
                                let (m, kw_values) = out;
                                if !arguments_fit(closure, arg_values.len() as usize, kwargs) {
                                    Err(
                                        {
                                            failed_with_continues(from, m, EvalErrorView::ArityMismatch { name, expected: regular_params(closure.params, 0, 0), got: sum_of(args.len() as usize, kwargs.len() as usize), });
                                            failed_with(m, EvalErrorView::ArityMismatch { name, expected: regular_params(closure.params, 0, 0), got: sum_of(args.len() as usize, kwargs.len() as usize), })
                                        }
                                    )
                                } else {
                                    match {
                                        values_of_params_continues(from, param_args, closure.param_decls, env, known, fuel, 0, m, Seq::empty(), 0);
                                        values_of_params(param_args, closure.param_decls, env, known, fuel, 0, m, Seq::empty(), 0)
                                    } {
                                        Ok(out) => {
                                            let (m, value_params) = out;
                                            {
                                                closure_run_continues(from, closure, name, arg_values, kwargs, kw_values, value_params, m, known, (fuel - 1) as u64);
                                                closure_run(closure, name, arg_values, kwargs, kw_values, value_params, m, known, (fuel - 1) as u64)
                                            }
                                        },
                                        Err(error) => Err(error),
                                    }
                                }
                            },
                            Err(error) => Err(error),
                        }
                    },
                    Err(error) => Err(error),
                }
            },
            _ => Err({
                unsupported_in_continues(from, m, "expression"@);
                unsupported_in(m, "expression"@)
            }),
        }
    };
}

proof fn closure_run_continues(
    from: EvaluatorView,
    closure: ClosureView,
    name: Seq<char>,
    args: Seq<ValueView>,
    kwargs: Seq<KwArgView>,
    kw_values: Seq<ValueView>,
    value_params: Seq<(Seq<char>, ValueView)>,
    m: EvaluatorView,
    known: Seq<KnownView>,
    fuel: u64,
)
    requires
        continued(from, m),
    ensures
        run_continued(from, closure_run(closure, name, args, kwargs, kw_values, value_params, m, known, fuel)),
    decreases fuel, 4nat, closure, 0nat, 0nat,
{
    let _ = {
        let (m, call_env) = {
            scope_inside_continues(from, m, closure.env);
            scope_inside(m, closure.env)
        };
        let m = {
            all_defined_continues(from, value_params, call_env, 0, m);
            all_defined(value_params, call_env, 0, m)
        };
        match {
            params_bound_continues(from, closure.params, regular_params(closure.params, 0, 0), name, args, kwargs, kw_values, closure.env, call_env, known, fuel, 0, m, 0);
            params_bound(closure.params, regular_params(closure.params, 0, 0), name, args, kwargs, kw_values, closure.env, call_env, known, fuel, 0, m, 0)
        } {
            Ok(out) => {
                let m = out;
                match {
                    rest_bound_continues(from, m, call_env, closure, args, known);
                    rest_bound(m, call_env, closure, args, known)
                } {
                    Ok(out) => {
                        let m = out;
                        match {
                            block_run_continues(from, closure.body, call_env, known, fuel, 0, m);
                            block_run(closure.body, call_env, known, fuel, 0, m)
                        } {
                            Ok(out) => {
                                let (m, flow) = out;
                                Ok((m, value_returned(flow)))
                            },
                            Err(error) => Err(error),
                        }
                    },
                    Err(error) => Err(error),
                }
            },
            Err(error) => Err(error),
        }
    };
}

proof fn place_of_receiver_continues(
    from: EvaluatorView,
    object: ExprView,
    env: usize,
    m: EvaluatorView,
    known: Seq<KnownView>,
    fuel: u64,
)
    requires
        continued(from, m),
    ensures
        run_continued(from, place_of_receiver(object, env, m, known, fuel)),
    decreases fuel, 0nat, object, 9nat, 0nat,
{
    let _ = {
        match {
            place_decomposed_continues(from, object, env, m, known, fuel);
            place_decomposed(object, env, m, known, fuel)
        } {
            Ok(found) => Ok((found.0, Some(found.1))),
            Err(failed) => if run_stopped(failed.error) {
                Err(failed)
            } else {
                Ok((failed.machine, None))
            },
        }
    };
}

proof fn value_of_method_continues(
    from: EvaluatorView,
    expr: ExprView,
    env: usize,
    m: EvaluatorView,
    known: Seq<KnownView>,
    fuel: u64,
)
    requires
        continued(from, m),
    ensures
        run_continued(from, value_of_method(expr, env, m, known, fuel)),
    decreases fuel, 0nat, expr, 8nat, 0nat,
{
    let _ = {
        match expr.kind {
            ExprKindView::MethodCall { object, method, args, .. } => match {
                values_of_exprs_continues(from, args, env, known, fuel, 0, m, Seq::empty());
                values_of_exprs(args, env, known, fuel, 0, m, Seq::empty())
            } {
                Ok(out) => {
                    let (m, arg_values) = out;
                    match {
                        place_of_receiver_continues(from, *object, env, m, known, fuel);
                        place_of_receiver(*object, env, m, known, fuel)
                    } {
                        Ok(out) => {
                            let (m, place) = out;
                            match place {
                                Some(place) => if fuel == 0 {
                                    Err({
                                        failed_with_continues(from, m, EvalErrorView::Exhausted);
                                        failed_with(m, EvalErrorView::Exhausted)
                                    })
                                } else {
                                    {
                                        place_method_continues(from, place.0, place.1, method, arg_values, env, m, known, (fuel - 1) as u64);
                                        place_method(place.0, place.1, method, arg_values, env, m, known, (fuel - 1) as u64)
                                    }
                                },
                                None => match {
                                    value_of_expr_continues(from, *object, env, m, known, fuel);
                                    value_of_expr(*object, env, m, known, fuel)
                                } {
                                    Ok(out) => {
                                        let (m, receiver) = out;
                                        if fuel == 0 {
                                            Err({
                                                failed_with_continues(from, m, EvalErrorView::Exhausted);
                                                failed_with(m, EvalErrorView::Exhausted)
                                            })
                                        } else {
                                            {
                                                method_of_value_continues(from, receiver, method, arg_values, m, known, (fuel - 1) as u64);
                                                method_of_value(receiver, method, arg_values, m, known, (fuel - 1) as u64)
                                            }
                                        }
                                    },
                                    Err(error) => Err(error),
                                },
                            }
                        },
                        Err(error) => Err(error),
                    }
                },
                Err(error) => Err(error),
            },
            _ => Err({
                unsupported_in_continues(from, m, "expression"@);
                unsupported_in(m, "expression"@)
            }),
        }
    };
}

proof fn method_missing_continues(
    from: EvaluatorView,
    m: EvaluatorView,
    method: Seq<char>,
    value: ValueView,
)
    requires
        continued(from, m),
    ensures
        continued(from, method_missing(m, method, value).machine),
{
    reveal(method_missing);
    let _ = {
        {
            failed_by_type_continues(from, m, "cannot call method '"@ + method + "' on "@ + type_shown(value));
            failed_by_type(m, "cannot call method '"@ + method + "' on "@ + type_shown(value))
        }
    };
}

proof fn place_method_continues(
    from: EvaluatorView,
    root: Seq<char>,
    path: Seq<PathStepView>,
    method: Seq<char>,
    args: Seq<ValueView>,
    env: usize,
    m: EvaluatorView,
    known: Seq<KnownView>,
    fuel: u64,
)
    requires
        continued(from, m),
    ensures
        run_continued(from, place_method(root, path, method, args, env, m, known, fuel)),
    decreases fuel, 6nat, args, 0nat, 0nat,
{
    let _ = {
        let found = place_read(m.scopes, env, root, path);
        match {
            value_held_continues(from, m, found);
            value_held(m, found)
        } {
            Ok(out) => {
                let (m, receiver) = out;
                match receiver {
                    ValueView::List(items) => if changes_list(method) {
                        {
                            list_changed_continues(from, root, path, items, method, args, env, m, known);
                            list_changed(root, path, items, method, args, env, m, known)
                        }
                    } else {
                        {
                            value_held_continues(from, m, list_answer(items, method, args, known));
                            value_held(m, list_answer(items, method, args, known))
                        }
                    },
                    ValueView::Struct { name, .. } => match {
                        struct_method_continues(from, name, method, receiver, args, m, known, fuel);
                        struct_method(name, method, receiver, args, m, known, fuel)
                    } {
                        Ok(out) => {
                            let (m, made) = out;
                            if made.mut_self {
                                match {
                                    place_updated_continues(from, m, env, root, path, None, made.receiver, known);
                                    place_updated(m, env, root, path, None, made.receiver, known)
                                } {
                                    Ok(out) => {
                                        let m = out;
                                        Ok((m, made.value))
                                    },
                                    Err(error) => Err(error),
                                }
                            } else {
                                Ok((m, made.value))
                            }
                        },
                        Err(error) => Err(error),
                    },
                    _ => Err({
                        method_missing_continues(from, m, method, receiver);
                        method_missing(m, method, receiver)
                    }),
                }
            },
            Err(error) => Err(error),
        }
    };
}

proof fn list_changed_continues(
    from: EvaluatorView,
    root: Seq<char>,
    path: Seq<PathStepView>,
    items: Seq<ValueView>,
    method: Seq<char>,
    args: Seq<ValueView>,
    env: usize,
    m: EvaluatorView,
    known: Seq<KnownView>,
)
    requires
        continued(from, m),
    ensures
        run_continued(from, list_changed(root, path, items, method, args, env, m, known)),
{
    reveal(list_changed);
    let _ = {
        match list_method(items, method, args, known) {
            Ok(done) => match {
                place_put_continues(from, m, env, root, path, ValueView::List(done.0));
                place_put(m, env, root, path, ValueView::List(done.0))
            } {
                Ok(out) => {
                    let m = out;
                    Ok((m, done.1))
                },
                Err(error) => Err(error),
            },
            Err(error) => Err({
                failed_with_continues(from, m, error);
                failed_with(m, error)
            }),
        }
    };
}

proof fn method_of_value_continues(
    from: EvaluatorView,
    receiver: ValueView,
    method: Seq<char>,
    args: Seq<ValueView>,
    m: EvaluatorView,
    known: Seq<KnownView>,
    fuel: u64,
)
    requires
        continued(from, m),
    ensures
        run_continued(from, method_of_value(receiver, method, args, m, known, fuel)),
    decreases fuel, 6nat, args, 0nat, 0nat,
{
    let _ = {
        match receiver {
            ValueView::List(items) => {
                value_held_continues(from, m, list_answer(items, method, args, known));
                value_held(m, list_answer(items, method, args, known))
            },
            ValueView::Struct { name, .. } => match {
                struct_method_continues(from, name, method, receiver, args, m, known, fuel);
                struct_method(name, method, receiver, args, m, known, fuel)
            } {
                Ok(out) => {
                    let (m, made) = out;
                    Ok((m, made.value))
                },
                Err(error) => Err(error),
            },
            _ => Err({
                method_missing_continues(from, m, method, receiver);
                method_missing(m, method, receiver)
            }),
        }
    };
}

proof fn params_defined_continues(
    from: EvaluatorView,
    params: Seq<FnParamView>,
    args: Seq<ValueView>,
    env: usize,
    known: Seq<KnownView>,
    i: nat,
    m: EvaluatorView,
    k: usize,
)
    requires
        continued(from, m),
    ensures
        end_continued(from, params_defined(params, args, env, known, i, m, k)),
    decreases params, (params.len() - i) as nat,
{
    let _ = {
        if i >= params.len() {
            Ok(m)
        } else {
            let param = params[i as int];
            if k >= args.len() {
                Ok(m)
            } else {
                match {
                    value_held_continues(from, m, coerced(args[k as int], param.ty, known));
                    value_held(m, coerced(args[k as int], param.ty, known))
                } {
                    Ok(out) => {
                        let (next, made) = out;
                        let m = {
                            name_defined_continues(from, next, env, param.name, made);
                            name_defined(next, env, param.name, made)
                        };
                        let k = following_index(k);
                        {
                            params_defined_continues(from, params, args, env, known, i + 1, m, k);
                            params_defined(params, args, env, known, i + 1, m, k)
                        }
                    },
                    Err(error) => Err(error),
                }
            }
        }
    };
}

proof fn struct_method_continues(
    from: EvaluatorView,
    name: Seq<char>,
    method: Seq<char>,
    receiver: ValueView,
    args: Seq<ValueView>,
    m: EvaluatorView,
    known: Seq<KnownView>,
    fuel: u64,
)
    requires
        continued(from, m),
    ensures
        run_continued(from, struct_method(name, method, receiver, args, m, known, fuel)),
    decreases fuel, 5nat, args, 0nat, 0nat,
{
    let _ = {
        match method_number(m.structs, name, method) {
            Some(id) => if id < m.closures.len() {
                let closure = m.closures[id as int];
                if closure.params.len() != args.len() {
                    Err(
                        {
                            failed_with_continues(from, m, EvalErrorView::ArityMismatch { name: method, expected: closure.params.len() as usize, got: args.len() as usize, });
                            failed_with(m, EvalErrorView::ArityMismatch { name: method, expected: closure.params.len() as usize, got: args.len() as usize, })
                        }
                    )
                } else {
                    let (m, call_env) = {
                        scope_inside_continues(from, m, closure.env);
                        scope_inside(m, closure.env)
                    };
                    let m = {
                        name_defined_continues(from, m, call_env, "self"@, receiver);
                        name_defined(m, call_env, "self"@, receiver)
                    };
                    match {
                        params_defined_continues(from, closure.params, args, call_env, known, 0, m, 0);
                        params_defined(closure.params, args, call_env, known, 0, m, 0)
                    } {
                        Ok(out) => {
                            let m = out;
                            match {
                                block_run_continues(from, closure.body, call_env, known, fuel, 0, m);
                                block_run(closure.body, call_env, known, fuel, 0, m)
                            } {
                                Ok(out) => {
                                    let (m, flow) = out;
                                    Ok({
                                        method_finished_continues(from, m, call_env, flow, closure.mut_self);
                                        method_finished(m, call_env, flow, closure.mut_self)
                                    })
                                },
                                Err(error) => Err(error),
                            }
                        },
                        Err(error) => Err(error),
                    }
                }
            } else {
                Err({
                    failed_with_continues(from, m, EvalErrorView::OutOfBounds);
                    failed_with(m, EvalErrorView::OutOfBounds)
                })
            },
            None => Err({
                failed_by_type_continues(from, m, "'"@ + name + "' has no method '"@ + method + "'"@);
                failed_by_type(m, "'"@ + name + "' has no method '"@ + method + "'"@)
            }),
        }
    };
}

proof fn method_finished_continues(
    from: EvaluatorView,
    m: EvaluatorView,
    call_env: usize,
    flow: FlowView,
    mut_self: bool,
)
    requires
        continued(from, m),
    ensures
        continued(from, method_finished(m, call_env, flow, mut_self).0),
{
    reveal(method_finished);
    let _ = {
        let receiver = match value_in_scope(m.scopes, call_env, "self"@) {
            Some(value) => value,
            None => ValueView::NoneValue,
        };
        (m, MethodResultView { value: value_returned(flow), receiver, mut_self })
    };
}

proof fn block_run_continues(
    from: EvaluatorView,
    body: Seq<StmtView>,
    env: usize,
    known: Seq<KnownView>,
    fuel: u64,
    i: nat,
    m: EvaluatorView,
)
    requires
        continued(from, m),
    ensures
        run_continued(from, block_run(body, env, known, fuel, i, m)),
    decreases fuel, 1nat, body, 0nat, (body.len() - i) as nat,
{
    let _ = {
        if i >= body.len() {
            Ok((m, FlowView::Normal))
        } else {
            let stmt = body[i as int];
            match {
                stmt_run_continues(from, stmt, env, m, known, fuel);
                stmt_run(stmt, env, m, known, fuel)
            } {
                Ok(out) => {
                    let (next, flow) = out;
                    let m = next;
                    if !((flow matches FlowView::Normal)) {
                        Ok((m, flow))
                    } else {
                        {
                            block_run_continues(from, body, env, known, fuel, i + 1, m);
                            block_run(body, env, known, fuel, i + 1, m)
                        }
                    }
                },
                Err(error) => Err(error),
            }
        }
    };
}

proof fn block_run_inside_continues(
    from: EvaluatorView,
    body: Seq<StmtView>,
    env: usize,
    m: EvaluatorView,
    known: Seq<KnownView>,
    fuel: u64,
)
    requires
        continued(from, m),
    ensures
        run_continued(from, block_run_inside(body, env, m, known, fuel)),
    decreases fuel, 1nat, body, 1nat, 0nat,
{
    let _ = {
        let (m, inner) = {
            scope_inside_continues(from, m, env);
            scope_inside(m, env)
        };
        {
            block_run_continues(from, body, inner, known, fuel, 0, m);
            block_run(body, inner, known, fuel, 0, m)
        }
    };
}

proof fn opt_block_run_continues(
    from: EvaluatorView,
    body: Option<Seq<StmtView>>,
    env: usize,
    m: EvaluatorView,
    known: Seq<KnownView>,
    fuel: u64,
)
    requires
        continued(from, m),
    ensures
        run_continued(from, opt_block_run(body, env, m, known, fuel)),
    decreases fuel, 1nat, body, 2nat, 0nat,
{
    let _ = {
        match body {
            Some(body) => {
                block_run_inside_continues(from, body, env, m, known, fuel);
                block_run_inside(body, env, m, known, fuel)
            },
            None => Ok((m, FlowView::Normal)),
        }
    };
}

proof fn stmt_run_continues(
    from: EvaluatorView,
    stmt: StmtView,
    env: usize,
    m: EvaluatorView,
    known: Seq<KnownView>,
    fuel: u64,
)
    requires
        continued(from, m),
    ensures
        run_continued(from, stmt_run(stmt, env, m, known, fuel)),
    decreases fuel, 1nat, stmt, 9nat, 0nat,
{
    let _ = {
        match stmt.kind {
            StmtKindView::VarDecl { name, ty, value } => {
                var_run_continues(from, name, ty, value, env, m, known, fuel);
                var_run(name, ty, value, env, m, known, fuel)
            },
            StmtKindView::Assign { name, value } => {
                assign_run_continues(from, name, value, env, m, known, fuel);
                assign_run(name, value, env, m, known, fuel)
            },
            StmtKindView::SetPlace { .. } => {
                write_run_continues(from, stmt, env, m, known, fuel);
                write_run(stmt, env, m, known, fuel)
            },
            StmtKindView::AugAssign { .. } => {
                write_run_continues(from, stmt, env, m, known, fuel);
                write_run(stmt, env, m, known, fuel)
            },
            StmtKindView::Comptime { name, value } => match {
                value_of_expr_continues(from, value, env, m, known, fuel);
                value_of_expr(value, env, m, known, fuel)
            } {
                Ok(out) => {
                    let (m, value) = out;
                    Ok(({
                        name_defined_continues(from, m, env, name, value);
                        name_defined(m, env, name, value)
                    }, FlowView::Normal))
                },
                Err(error) => Err(error),
            },
            StmtKindView::Return(value) => {
                return_run_continues(from, value, env, m, known, fuel);
                return_run(value, env, m, known, fuel)
            },
            StmtKindView::Pass => Ok((m, FlowView::Normal)),
            StmtKindView::Break => Ok((m, FlowView::Break)),
            StmtKindView::Continue => Ok((m, FlowView::Continue)),
            StmtKindView::Raise(value) => match {
                value_of_expr_continues(from, value, env, m, known, fuel);
                value_of_expr(value, env, m, known, fuel)
            } {
                Ok(out) => {
                    let (m, value) = out;
                    Err({
                        failed_with_continues(from, m, message_raised(value));
                        failed_with(m, message_raised(value))
                    })
                },
                Err(error) => Err(error),
            },
            StmtKindView::Expr(value) => match {
                value_of_expr_continues(from, value, env, m, known, fuel);
                value_of_expr(value, env, m, known, fuel)
            } {
                Ok(out) => {
                    let (m, _) = out;
                    Ok((m, FlowView::Normal))
                },
                Err(error) => Err(error),
            },
            StmtKindView::Trait { .. } => Ok((m, FlowView::Normal)),
            StmtKindView::Import { .. } => Ok((m, FlowView::Normal)),
            StmtKindView::FromImport { .. } => Ok((m, FlowView::Normal)),
            StmtKindView::Unpack { .. } => Err({
                unsupported_in_continues(from, m, "tuple unpacking"@);
                unsupported_in(m, "tuple unpacking"@)
            }),
            StmtKindView::With { .. } => Err({
                unsupported_in_continues(from, m, "with statement"@);
                unsupported_in(m, "with statement"@)
            }),
            StmtKindView::ComptimeIf { .. } => Err({
                unsupported_in_continues(from, m, "comptime if"@);
                unsupported_in(m, "comptime if"@)
            }),
            StmtKindView::ComptimeFor { .. } => Err({
                unsupported_in_continues(from, m, "comptime for"@);
                unsupported_in(m, "comptime for"@)
            }),
            StmtKindView::RefDecl { .. } => Err({
                unsupported_in_continues(from, m, "reference binding"@);
                unsupported_in(m, "reference binding"@)
            }),
            _ => {
                compound_run_continues(from, stmt, env, m, known, fuel);
                compound_run(stmt, env, m, known, fuel)
            },
        }
    };
}

proof fn var_run_continues(
    from: EvaluatorView,
    name: Seq<char>,
    ty: Option<TypeView>,
    value: ExprView,
    env: usize,
    m: EvaluatorView,
    known: Seq<KnownView>,
    fuel: u64,
)
    requires
        continued(from, m),
    ensures
        run_continued(from, var_run(name, ty, value, env, m, known, fuel)),
    decreases fuel, 0nat, value, 11nat, 0nat,
{
    let _ = {
        match {
            value_of_expr_continues(from, value, env, m, known, fuel);
            value_of_expr(value, env, m, known, fuel)
        } {
            Ok(out) => {
                let (m, value) = out;
                match match ty {
                    Some(ty) => {
                        value_held_continues(from, m, coerced(value, ty, known));
                        value_held(m, coerced(value, ty, known))
                    },
                    None => Ok((m, value)),
                } {
                    Ok(out) => {
                        let (m, made) = out;
                        Ok(({
                            name_defined_continues(from, m, env, name, made);
                            name_defined(m, env, name, made)
                        }, FlowView::Normal))
                    },
                    Err(error) => Err(error),
                }
            },
            Err(error) => Err(error),
        }
    };
}

proof fn assign_run_continues(
    from: EvaluatorView,
    name: Seq<char>,
    value: ExprView,
    env: usize,
    m: EvaluatorView,
    known: Seq<KnownView>,
    fuel: u64,
)
    requires
        continued(from, m),
    ensures
        run_continued(from, assign_run(name, value, env, m, known, fuel)),
    decreases fuel, 0nat, value, 11nat, 0nat,
{
    let _ = {
        match {
            value_of_expr_continues(from, value, env, m, known, fuel);
            value_of_expr(value, env, m, known, fuel)
        } {
            Ok(out) => {
                let (m, value) = out;
                if value_is_closure(value) {
                    Err({
                        failed_with_continues(from, m, EvalErrorView::ClosureEscape);
                        failed_with(m, EvalErrorView::ClosureEscape)
                    })
                } else {
                    match {
                        name_assigned_continues(from, m, env, name, value, known);
                        name_assigned(m, env, name, value, known)
                    } {
                        Ok(out) => {
                            let m = out;
                            Ok((m, FlowView::Normal))
                        },
                        Err(error) => Err(error),
                    }
                }
            },
            Err(error) => Err(error),
        }
    };
}

proof fn write_run_continues(
    from: EvaluatorView,
    stmt: StmtView,
    env: usize,
    m: EvaluatorView,
    known: Seq<KnownView>,
    fuel: u64,
)
    requires
        continued(from, m),
    ensures
        run_continued(from, write_run(stmt, env, m, known, fuel)),
    decreases fuel, 1nat, stmt, 8nat, 0nat,
{
    let _ = {
        match stmt.kind {
            StmtKindView::SetPlace { place, value } => match {
                place_decomposed_continues(from, place, env, m, known, fuel);
                place_decomposed(place, env, m, known, fuel)
            } {
                Ok(out) => {
                    let (m, found) = out;
                    match {
                        value_of_expr_continues(from, value, env, m, known, fuel);
                        value_of_expr(value, env, m, known, fuel)
                    } {
                        Ok(out) => {
                            let (m, value) = out;
                            match {
                                place_updated_continues(from, m, env, found.0, found.1, None, value, known);
                                place_updated(m, env, found.0, found.1, None, value, known)
                            } {
                                Ok(out) => {
                                    let m = out;
                                    Ok((m, FlowView::Normal))
                                },
                                Err(error) => Err(error),
                            }
                        },
                        Err(error) => Err(error),
                    }
                },
                Err(error) => Err(error),
            },
            StmtKindView::AugAssign { place, op, value } => match {
                place_decomposed_continues(from, place, env, m, known, fuel);
                place_decomposed(place, env, m, known, fuel)
            } {
                Ok(out) => {
                    let (m, found) = out;
                    match {
                        value_of_expr_continues(from, value, env, m, known, fuel);
                        value_of_expr(value, env, m, known, fuel)
                    } {
                        Ok(out) => {
                            let (m, value) = out;
                            match {
                                place_updated_continues(from, m, env, found.0, found.1, Some(op), value, known);
                                place_updated(m, env, found.0, found.1, Some(op), value, known)
                            } {
                                Ok(out) => {
                                    let m = out;
                                    Ok((m, FlowView::Normal))
                                },
                                Err(error) => Err(error),
                            }
                        },
                        Err(error) => Err(error),
                    }
                },
                Err(error) => Err(error),
            },
            _ => Err({
                unsupported_in_continues(from, m, "statement"@);
                unsupported_in(m, "statement"@)
            }),
        }
    };
}

proof fn return_run_continues(
    from: EvaluatorView,
    value: Option<ExprView>,
    env: usize,
    m: EvaluatorView,
    known: Seq<KnownView>,
    fuel: u64,
)
    requires
        continued(from, m),
    ensures
        run_continued(from, return_run(value, env, m, known, fuel)),
    decreases fuel, 0nat, value, 11nat, 0nat,
{
    let _ = {
        match value {
            Some(expr) => match {
                value_of_expr_continues(from, expr, env, m, known, fuel);
                value_of_expr(expr, env, m, known, fuel)
            } {
                Ok(out) => {
                    let (m, value) = out;
                    if value_is_closure(value) {
                        Err({
                            failed_with_continues(from, m, EvalErrorView::ClosureEscape);
                            failed_with(m, EvalErrorView::ClosureEscape)
                        })
                    } else {
                        Ok((m, FlowView::Return(value)))
                    }
                },
                Err(error) => Err(error),
            },
            None => Ok((m, FlowView::Return(ValueView::NoneValue))),
        }
    };
}

proof fn compound_run_continues(
    from: EvaluatorView,
    stmt: StmtView,
    env: usize,
    m: EvaluatorView,
    known: Seq<KnownView>,
    fuel: u64,
)
    requires
        continued(from, m),
    ensures
        run_continued(from, compound_run(stmt, env, m, known, fuel)),
    decreases fuel, 1nat, stmt, 8nat, 0nat,
{
    let _ = {
        match stmt.kind {
            StmtKindView::If { branches, orelse } => match {
                branches_run_continues(from, branches, env, known, fuel, 0, m);
                branches_run(branches, env, known, fuel, 0, m)
            } {
                Ok(out) => {
                    let (m, chosen) = out;
                    match chosen {
                        Some(flow) => Ok((m, flow)),
                        None => {
                            opt_block_run_continues(from, orelse, env, m, known, fuel);
                            opt_block_run(orelse, env, m, known, fuel)
                        },
                    }
                },
                Err(error) => Err(error),
            },
            StmtKindView::While { cond, body, orelse } => if orelse is Some {
                Err({
                    unsupported_in_continues(from, m, "loop else"@);
                    unsupported_in(m, "loop else"@)
                })
            } else {
                {
                    while_run_continues(from, cond, body, env, m, known, fuel);
                    while_run(cond, body, env, m, known, fuel)
                }
            },
            StmtKindView::For { var, iter, body, orelse, .. } => if orelse is Some {
                Err({
                    unsupported_in_continues(from, m, "loop else"@);
                    unsupported_in(m, "loop else"@)
                })
            } else {
                match {
                    value_of_expr_continues(from, iter, env, m, known, fuel);
                    value_of_expr(iter, env, m, known, fuel)
                } {
                    Ok(out) => {
                        let (m, over) = out;
                        match {
                            values_held_continues(from, m, values_of_loop(over, fuel));
                            values_held(m, values_of_loop(over, fuel))
                        } {
                            Ok(out) => {
                                let (m, items) = out;
                                {
                                    items_run_continues(from, items, var, body, env, known, fuel, 0, m);
                                    items_run(items, var, body, env, known, fuel, 0, m)
                                }
                            },
                            Err(error) => Err(error),
                        }
                    },
                    Err(error) => Err(error),
                }
            },
            StmtKindView::Try { .. } => {
                try_run_continues(from, stmt, env, m, known, fuel);
                try_run(stmt, env, m, known, fuel)
            },
            StmtKindView::Def { name, type_params, params, body, .. } => {
                let closure = ClosureView {
                    params,
                    param_decls: classified(type_params, 0, Seq::empty()),
                    body,
                    env,
                    mut_self: false,
                };
                let (m, id) = {
                    closure_added_continues(from, m, closure);
                    closure_added(m, closure)
                };
                Ok(({
                    name_defined_continues(from, m, env, name, ValueView::Closure(id));
                    name_defined(m, env, name, ValueView::Closure(id))
                }, FlowView::Normal))
            },
            StmtKindView::Struct { name, type_params, fields, methods, fieldwise_init, .. } => Ok(
                (
                    {
                        struct_registered_continues(from, m, name, type_params, fields, methods, fieldwise_init, env);
                        struct_registered(m, name, type_params, fields, methods, fieldwise_init, env)
                    },
                    FlowView::Normal,
                )
            ),
            _ => Err({
                unsupported_in_continues(from, m, "statement"@);
                unsupported_in(m, "statement"@)
            }),
        }
    };
}

proof fn branches_run_continues(
    from: EvaluatorView,
    branches: Seq<(ExprView, Seq<StmtView>)>,
    env: usize,
    known: Seq<KnownView>,
    fuel: u64,
    i: nat,
    m: EvaluatorView,
)
    requires
        continued(from, m),
    ensures
        run_continued(from, branches_run(branches, env, known, fuel, i, m)),
    decreases fuel, 1nat, branches, 0nat, (branches.len() - i) as nat,
{
    let _ = {
        if i >= branches.len() {
            Ok((m, None))
        } else {
            let branch = branches[i as int];
            match {
                truth_of_expr_continues(from, branch.0, env, m, known, fuel);
                truth_of_expr(branch.0, env, m, known, fuel)
            } {
                Ok(out) => {
                    let (next, chosen) = out;
                    let m = next;
                    if chosen {
                        {
                            branch_run_continues(from, branch.1, env, m, known, fuel);
                            branch_run(branch.1, env, m, known, fuel)
                        }
                    } else {
                        {
                            branches_run_continues(from, branches, env, known, fuel, i + 1, m);
                            branches_run(branches, env, known, fuel, i + 1, m)
                        }
                    }
                },
                Err(error) => Err(error),
            }
        }
    };
}

proof fn branch_run_continues(
    from: EvaluatorView,
    body: Seq<StmtView>,
    env: usize,
    m: EvaluatorView,
    known: Seq<KnownView>,
    fuel: u64,
)
    requires
        continued(from, m),
    ensures
        run_continued(from, branch_run(body, env, m, known, fuel)),
    decreases fuel, 1nat, body, 2nat, 0nat,
{
    let _ = {
        match {
            block_run_inside_continues(from, body, env, m, known, fuel);
            block_run_inside(body, env, m, known, fuel)
        } {
            Ok(out) => {
                let (m, flow) = out;
                Ok((m, Some(flow)))
            },
            Err(error) => Err(error),
        }
    };
}

proof fn while_run_continues(
    from: EvaluatorView,
    cond: ExprView,
    body: Seq<StmtView>,
    env: usize,
    m: EvaluatorView,
    known: Seq<KnownView>,
    fuel: u64,
)
    requires
        continued(from, m),
    ensures
        run_continued(from, while_run(cond, body, env, m, known, fuel)),
    decreases fuel, 1nat, body, 3nat, 0nat,
{
    let _ = {
        match {
            truth_of_expr_continues(from, cond, env, m, known, fuel);
            truth_of_expr(cond, env, m, known, fuel)
        } {
            Ok(out) => {
                let (m, goes_on) = out;
                if !goes_on {
                    Ok((m, FlowView::Normal))
                } else if fuel == 0 {
                    Err({
                        failed_with_continues(from, m, EvalErrorView::Exhausted);
                        failed_with(m, EvalErrorView::Exhausted)
                    })
                } else {
                    match {
                        block_run_inside_continues(from, body, env, m, known, fuel);
                        block_run_inside(body, env, m, known, fuel)
                    } {
                        Ok(out) => {
                            let (m, flow) = out;
                            if ends_loop(flow) {
                                Ok((m, flow_after_loop(flow)))
                            } else {
                                {
                                    while_run_continues(from, cond, body, env, m, known, (fuel - 1) as u64);
                                    while_run(cond, body, env, m, known, (fuel - 1) as u64)
                                }
                            }
                        },
                        Err(error) => Err(error),
                    }
                }
            },
            Err(error) => Err(error),
        }
    };
}

proof fn items_run_continues(
    from: EvaluatorView,
    items: Seq<ValueView>,
    var: Seq<char>,
    body: Seq<StmtView>,
    env: usize,
    known: Seq<KnownView>,
    fuel: u64,
    i: nat,
    m: EvaluatorView,
)
    requires
        continued(from, m),
    ensures
        run_continued(from, items_run(items, var, body, env, known, fuel, i, m)),
    decreases fuel, 1nat, body, 3nat, (items.len() - i) as nat,
{
    let _ = {
        if i >= items.len() {
            Ok((m, FlowView::Normal))
        } else {
            let item = items[i as int];
            match {
                item_run_continues(from, item, var, body, env, m, known, fuel);
                item_run(item, var, body, env, m, known, fuel)
            } {
                Ok(out) => {
                    let (next, flow) = out;
                    let m = next;
                    if ends_loop(flow) {
                        Ok((m, flow_after_loop(flow)))
                    } else {
                        {
                            items_run_continues(from, items, var, body, env, known, fuel, i + 1, m);
                            items_run(items, var, body, env, known, fuel, i + 1, m)
                        }
                    }
                },
                Err(error) => Err(error),
            }
        }
    };
}

proof fn item_run_continues(
    from: EvaluatorView,
    item: ValueView,
    var: Seq<char>,
    body: Seq<StmtView>,
    env: usize,
    m: EvaluatorView,
    known: Seq<KnownView>,
    fuel: u64,
)
    requires
        continued(from, m),
    ensures
        run_continued(from, item_run(item, var, body, env, m, known, fuel)),
    decreases fuel, 1nat, body, 2nat, 0nat,
{
    let _ = {
        let (m, inner) = {
            scope_inside_continues(from, m, env);
            scope_inside(m, env)
        };
        let m = {
            name_defined_continues(from, m, inner, var, item);
            name_defined(m, inner, var, item)
        };
        {
            block_run_continues(from, body, inner, known, fuel, 0, m);
            block_run(body, inner, known, fuel, 0, m)
        }
    };
}

proof fn try_run_continues(
    from: EvaluatorView,
    stmt: StmtView,
    env: usize,
    m: EvaluatorView,
    known: Seq<KnownView>,
    fuel: u64,
)
    requires
        continued(from, m),
    ensures
        run_continued(from, try_run(stmt, env, m, known, fuel)),
    decreases fuel, 1nat, stmt, 7nat, 0nat,
{
    let _ = {
        match stmt.kind {
            StmtKindView::Try { body, except, orelse, finalbody } => {
                let outcome = match {
                    block_run_inside_continues(from, body, env, m, known, fuel);
                    block_run_inside(body, env, m, known, fuel)
                } {
                    Ok(done) => {
                        body_ended_continues(from, orelse, done.0, done.1, env, known, fuel);
                        body_ended(orelse, done.0, done.1, env, known, fuel)
                    },
                    Err(failed) => {
                        body_failed_continues(from, except, failed, env, known, fuel);
                        body_failed(except, failed, env, known, fuel)
                    },
                };
                {
                    finally_run_continues(from, finalbody, outcome, env, known, fuel);
                    finally_run(finalbody, outcome, env, known, fuel)
                }
            },
            _ => Err({
                unsupported_in_continues(from, m, "statement"@);
                unsupported_in(m, "statement"@)
            }),
        }
    };
}

proof fn body_ended_continues(
    from: EvaluatorView,
    orelse: Option<Seq<StmtView>>,
    m: EvaluatorView,
    flow: FlowView,
    env: usize,
    known: Seq<KnownView>,
    fuel: u64,
)
    requires
        continued(from, m),
    ensures
        run_continued(from, body_ended(orelse, m, flow, env, known, fuel)),
    decreases fuel, 1nat, orelse, 3nat, 0nat,
{
    let _ = {
        match flow {
            FlowView::Normal => {
                opt_block_run_continues(from, orelse, env, m, known, fuel);
                opt_block_run(orelse, env, m, known, fuel)
            },
            other => Ok((m, other)),
        }
    };
}

proof fn body_failed_continues(
    from: EvaluatorView,
    except: Option<(Option<Seq<char>>, Seq<StmtView>)>,
    failed: FailureView,
    env: usize,
    known: Seq<KnownView>,
    fuel: u64,
)
    requires
        continued(from, failed.machine),
    ensures
        run_continued(from, body_failed(except, failed, env, known, fuel)),
    decreases fuel, 1nat, except, 3nat, 0nat,
{
    let _ = {
        match failed.error {
            EvalErrorView::Raised(message) => match except {
                Some(handler) => {
                    handler_run_continues(from, handler.0, handler.1, message, failed.machine, env, known, fuel);
                    handler_run(handler.0, handler.1, message, failed.machine, env, known, fuel)
                },
                None => Err(failed),
            },
            _ => Err(failed),
        }
    };
}

proof fn handler_run_continues(
    from: EvaluatorView,
    name: Option<Seq<char>>,
    body: Seq<StmtView>,
    message: Seq<char>,
    m: EvaluatorView,
    env: usize,
    known: Seq<KnownView>,
    fuel: u64,
)
    requires
        continued(from, m),
    ensures
        run_continued(from, handler_run(name, body, message, m, env, known, fuel)),
    decreases fuel, 1nat, body, 1nat, 0nat,
{
    let _ = {
        let (m, inner) = {
            scope_inside_continues(from, m, env);
            scope_inside(m, env)
        };
        let m = match name {
            Some(name) => {
                name_defined_continues(from, m, inner, name, ValueView::Error(message));
                name_defined(m, inner, name, ValueView::Error(message))
            },
            None => m,
        };
        {
            block_run_continues(from, body, inner, known, fuel, 0, m);
            block_run(body, inner, known, fuel, 0, m)
        }
    };
}

proof fn finally_run_continues(
    from: EvaluatorView,
    finalbody: Option<Seq<StmtView>>,
    outcome: Result<(EvaluatorView, FlowView), FailureView>,
    env: usize,
    known: Seq<KnownView>,
    fuel: u64,
)
    requires
        run_continued(from, outcome),
    ensures
        run_continued(from, finally_run(finalbody, outcome, env, known, fuel)),
    decreases fuel, 1nat, finalbody, 3nat, 0nat,
{
    let _ = {
        match finalbody {
            Some(body) => match outcome {
                Ok(done) => match {
                    block_run_inside_continues(from, body, env, done.0, known, fuel);
                    block_run_inside(body, env, done.0, known, fuel)
                } {
                    Ok(out) => {
                        let (m, flow) = out;
                        Ok((m, flow_overriding(flow, done.1)))
                    },
                    Err(error) => Err(error),
                },
                Err(failed) => if run_stopped(failed.error) {
                    Err(failed)
                } else {
                    match {
                        block_run_inside_continues(from, body, env, failed.machine, known, fuel);
                        block_run_inside(body, env, failed.machine, known, fuel)
                    } {
                        Ok(out) => {
                            let (m, flow) = out;
                            match flow {
                                FlowView::Normal => Err({
                                    failed_with_continues(from, m, failed.error);
                                    failed_with(m, failed.error)
                                }),
                                other => Ok((m, other)),
                            }
                        },
                        Err(error) => Err(error),
                    }
                },
            },
            None => outcome,
        }
    };
}

proof fn program_run_continues(
    from: EvaluatorView,
    program: Seq<StmtView>,
    m: EvaluatorView,
    known: Seq<KnownView>,
    fuel: u64,
)
    requires
        continued(from, m),
    ensures
        end_continued(from, program_run(program, m, known, fuel)),
{
    reveal(program_run);
    let _ = {
        match {
            block_run_continues(from, program, 0, known, fuel, 0, m);
            block_run(program, 0, known, fuel, 0, m)
        } {
            Ok(out) => {
                let (m, _) = out;
                match value_in_scope(m.scopes, 0, "main"@) {
                    Some(value) => match value {
                        ValueView::Closure(id) => {
                            main_run_continues(from, id, m, known, fuel);
                            main_run(id, m, known, fuel)
                        },
                        _ => Ok(m),
                    },
                    None => Ok(m),
                }
            },
            Err(error) => Err(error),
        }
    };
}

proof fn main_run_continues(
    from: EvaluatorView,
    id: usize,
    m: EvaluatorView,
    known: Seq<KnownView>,
    fuel: u64,
)
    requires
        continued(from, m),
    ensures
        end_continued(from, main_run(id, m, known, fuel)),
{
    reveal(main_run);
    let _ = {
        if id < m.closures.len() && m.closures[id as int].params.len() == 0 {
            let closure = m.closures[id as int];
            let no_kwargs = Seq::<KwArgView>::empty();
            let no_values = Seq::<ValueView>::empty();
            let no_params = Seq::<(Seq<char>, ValueView)>::empty();
            if fuel == 0 {
                Err({
                    failed_with_continues(from, m, EvalErrorView::Exhausted);
                    failed_with(m, EvalErrorView::Exhausted)
                })
            } else {
                match {
                    closure_run_continues(from, closure, "main"@, no_values, no_kwargs, no_values, no_params, m, known, (fuel - 1) as u64);
                    closure_run(closure, "main"@, no_values, no_kwargs, no_values, no_params, m, known, (fuel - 1) as u64)
                } {
                    Ok(out) => {
                        let (m, _) = out;
                        Ok(m)
                    },
                    Err(error) => Err(error),
                }
            }
        } else {
            Ok(m)
        }
    };
}

proof fn evaluated_continues(
    from: EvaluatorView,
    machine: EvaluatorView,
    program: Seq<StmtView>,
    known: Seq<KnownView>,
    fuel: u64,
)
    requires
        continued(from, machine),
    ensures
        end_continued(from, evaluated(machine, program, known, fuel)),
{
    let _ = {
        {
            program_run_continues(from, program, machine, known, fuel);
            program_run(program, machine, known, fuel)
        }
    };
}

/// A run only adds to a machine: what was printed stays, no scope is gone, and functions and
/// structs keep their numbers, whether the run ends or fails.
pub proof fn runs_only_add(
    machine: EvaluatorView,
    program: Seq<StmtView>,
    known: Seq<KnownView>,
    fuel: u64,
)
    ensures
        end_continued(machine, evaluated(machine, program, known, fuel)),
{
    program_run_continues(machine, program, machine, known, fuel);
}

} // verus!
