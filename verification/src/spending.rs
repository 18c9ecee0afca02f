//! Work at compile time is paid for in steps.

use crate::ast::{
    ExprKindView, ExprView, InfixOp, MethodView, ParamArgView, ParamView, StmtKindView, StmtView,
    Type, TypeView,
};
use crate::ct::literal_of;
use crate::ctfe::fn_safe;
use crate::debug::expr_printed;
use crate::elab::{
    ComptimeErrorView, CtCallView, CtContextView, CtFnView, CtOutcomeView, CtReplyView,
    CtStructView, HaltView, boolean_of, burnt, ct_params, fn_named, integer_of, ints_compare,
    no_comptime, reply_to, sequence_of, struct_named, template_named, value_has_type,
};
use crate::elaborate::{
    ElabStateView, and_value, annotation_resolved, block_elaborated, branch_chosen,
    branches_elaborated, choice_elaborated, compound_elaborated, constant_elaborated,
    def_elaborated, for_elaborated, fuel_set, handler_elaborated, if_elaborated, inside_managers,
    method_elaborated, methods_elaborated, opt_block_elaborated, single, stamped_by,
    stmt_elaborated, subs_of_loop, try_elaborated, unrolled,
};
use crate::evaluate::{
    all_entries_runnable, all_runnable, args_of_range, args_of_type, bare_type, bound_pairs,
    call_run, element_type, evaluated, evaluated_again, evaluated_all, evaluated_call,
    evaluated_chain, evaluated_index, evaluated_infix, evaluated_invoke, evaluated_iter,
    evaluated_member, evaluated_method, evaluated_range, evaluated_reflection, evaluated_same_type,
    evaluated_selected, evaluated_sequence, evaluated_type, field_count, field_named,
    field_selected, fn_called, fuel_missing, halted, handle_of_field, index_of_field,
    integer_length, member_of_self, member_of_type, method_selected, name_argument, name_given,
    names_of_fields, nested_too_deep, one_value_arg, op_result, params_with_values, prefix_result,
    removed_field_type, resolved_arg, resolved_args, resolved_type_value, scope_of_struct,
    selector_named, sequence_bound, sequence_of_range, struct_reflected, two_strings, type_indexed,
    type_of_anno, type_of_handle, type_of_member, type_of_name, type_of_param_arg, type_of_self,
    type_of_struct, type_of_value, type_reflected, type_value_needed, types_of_field_list,
    unrunnable, value_associated, value_at, value_of_index, value_of_name, value_of_reply,
    value_of_wrong_type, values_named, wrong_name_arity, wrong_type_arity,
};
use crate::flatten::following_index;
use crate::rewrite::rewritten_stmt_list;
use crate::show::ct_text;
use crate::text::decimal;
use crate::token::Span;
use crate::types::{CtValueView, ParamDeclView, TyArgView, TyView};
use crate::values::Value;
use crate::verify::type_itself;
use vstd::prelude::*;

verus! {

proof fn burnt_spends(
    fuel: usize,
)
    ensures
        match burnt(fuel) {
            Ok(done) => done < fuel,
            Err(_) => true,
        },
{
    reveal(burnt);
    let _ = {
        if fuel > 0 {
            Ok((fuel - 1) as usize)
        } else {
            Err(ComptimeErrorView::QuotaExceeded)
        }
    };
}

proof fn fn_called_spends(
    name: Seq<char>,
    param_args: usize,
    args: usize,
    cx: CtContextView,
    fuel: usize,
)
    ensures
        match fn_called(name, param_args, args, cx, fuel) {
            Ok(done) => done.1 <= fuel,
            Err(stop) => stop.fuel <= fuel,
        },
{
    reveal(fn_called);
    reveal(halted);
    let _ = {
        match fn_named(cx.fns, name, 0, None) {
            Some(f) => if f.ct_params.len() != param_args {
                Err(
                    halted(
                        ComptimeErrorView::Arity(
                            "'"@ + name + "' expects "@ + decimal(
                                f.ct_params.len() as usize as nat
                            ) + " compile-time argument(s), got "@ + decimal(param_args as nat)
                        ),
                        fuel,
                    )
                )
            } else if f.params.len() != args {
                Err(
                    halted(
                        ComptimeErrorView::Arity(
                            "'"@ + name + "' expects "@ + decimal(
                                f.params.len() as usize as nat
                            ) + " argument(s), got "@ + decimal(args as nat)
                        ),
                        fuel,
                    )
                )
            } else {
                match {
                    burnt_spends(fuel);
                    burnt(fuel)
                } {
                    Ok(fuel) => Ok((f, fuel)),
                    Err(error) => Err(halted(error, fuel)),
                }
            },
            None => Err(halted(no_comptime("'"@ + name + "' is not a compile-time-callable function"@), fuel)),
        }
    };
}

proof fn value_of_reply_spends(
    reply: CtReplyView,
    name: Seq<char>,
    fuel: usize,
)
    ensures
        match value_of_reply(reply, name, fuel) {
            Ok(done) => done.1 <= fuel,
            Err(stop) => stop.fuel <= fuel,
        },
{
    reveal(value_of_reply);
    reveal(halted);
    let _ = {
        let ready = if reply.folding <= fuel {
            (fuel - reply.folding) as usize
        } else {
            0
        };
        match reply.outcome {
            CtOutcomeView::Stopped(error) => Err(halted(error, ready)),
            CtOutcomeView::Failed(text) => Err(halted(no_comptime("VM CTFE failed for '"@ + name + "': "@ + text), ready)),
            CtOutcomeView::Value(value) => if reply.steps <= ready {
                Ok((value, (ready - reply.steps) as usize))
            } else {
                Err(halted(fuel_missing(name), ready))
            },
            CtOutcomeView::Nothing => if reply.steps <= ready {
                Err(
                    halted(
                        no_comptime("VM CTFE function returned None; a compile-time value is required"@),
                        (ready - reply.steps) as usize,
                    )
                )
            } else {
                Err(halted(fuel_missing(name), ready))
            },
            CtOutcomeView::Other(text) => if reply.steps <= ready {
                Err(
                    halted(
                        no_comptime("VM CTFE returned unsupported runtime value "@ + text),
                        (ready - reply.steps) as usize,
                    )
                )
            } else {
                Err(halted(fuel_missing(name), ready))
            },
        }
    };
}

proof fn call_run_spends(
    f: CtFnView,
    values: Seq<CtValueView>,
    args: Seq<CtValueView>,
    cx: CtContextView,
    fuel: usize,
)
    ensures
        match call_run(f, values, args, cx, fuel) {
            Ok(done) => done.1 <= fuel,
            Err(stop) => stop.fuel <= fuel,
        },
{
    reveal(call_run);
    reveal(halted);
    let _ = {
        let at_run = params_with_values(values, f.ct_params, 0, Seq::empty(), 0);
        let (safe, needed) = fn_safe(f.name, cx);
        if !all_entries_runnable(at_run, 0) {
            Err(halted(unrunnable(), fuel))
        } else if !safe {
            Err(halted(no_comptime("'"@ + f.name + "' is not safe for VM-backed compile-time execution"@), fuel))
        } else if !all_runnable(args, 0) {
            Err(halted(unrunnable(), fuel))
        } else {
            match reply_to(cx.replies, f.name, values, args, 0, None) {
                Some(reply) => {
                    value_of_reply_spends(reply, f.name, fuel);
                    value_of_reply(reply, f.name, fuel)
                },
                None => {
                    let locals = bound_pairs(
                        f.params,
                        args,
                        0,
                        values_named(values, f.ct_params, 0, Seq::empty(), 0),
                        0,
                    );
                    Err(
                        halted(
                            ComptimeErrorView::Pending(
                                CtCallView {
                                    name: f.name,
                                    values,
                                    needed,
                                    locals,
                                    value_params: at_run,
                                    args,
                                    fuel,
                                }
                            ),
                            fuel,
                        )
                    )
                },
            }
        }
    };
}

proof fn evaluated_spends(
    e: ExprView,
    scope: Seq<(Seq<char>, CtValueView)>,
    cx: CtContextView,
    fuel: usize,
    depth: u32,
)
    ensures
        match evaluated(e, scope, cx, fuel, depth) {
            Ok(done) => done.1 <= fuel,
            Err(stop) => stop.fuel <= fuel,
        },
    decreases depth, e, 0nat,
{
    reveal(halted);
    let _ = {
        match e.kind {
            ExprKindView::Int(n) => Ok((CtValueView::Int(n), fuel)),
            ExprKindView::Float(bits) => Ok((CtValueView::Float(bits), fuel)),
            ExprKindView::Bool(b) => Ok((CtValueView::Bool(b), fuel)),
            ExprKindView::Str(text) => Ok((CtValueView::Str(text), fuel)),
            ExprKindView::Identifier(name) => match value_of_name(name, scope, cx) {
                Ok(out) => {
                    let value = out;
                    Ok((value, fuel))
                },
                Err(error) => Err(HaltView { error, fuel }),
            },
            ExprKindView::TypeApply { .. } => {
                evaluated_type_spends(e.kind, scope, cx, fuel, depth);
                evaluated_type(e.kind, scope, cx, fuel, depth)
            },
            ExprKindView::TupleLit(elements) => match {
                evaluated_all_spends(elements, scope, cx, depth, 0, Seq::empty(), fuel);
                evaluated_all(elements, scope, cx, depth, 0, Seq::empty(), fuel)
            } {
                Ok(out) => {
                    let (values, fuel) = out;
                    Ok((CtValueView::Tuple(values), fuel))
                },
                Err(error) => Err(error),
            },
            ExprKindView::ListLit(elements) => match {
                evaluated_all_spends(elements, scope, cx, depth, 0, Seq::empty(), fuel);
                evaluated_all(elements, scope, cx, depth, 0, Seq::empty(), fuel)
            } {
                Ok(out) => {
                    let (values, fuel) = out;
                    Ok((CtValueView::List(values), fuel))
                },
                Err(error) => Err(error),
            },
            ExprKindView::Member { .. } => {
                evaluated_member_spends(e.kind, scope, cx, fuel, depth);
                evaluated_member(e.kind, scope, cx, fuel, depth)
            },
            ExprKindView::Index { .. } => {
                evaluated_index_spends(e.kind, scope, cx, fuel, depth);
                evaluated_index(e.kind, scope, cx, fuel, depth)
            },
            ExprKindView::MethodCall { .. } => {
                evaluated_method_spends(e.kind, scope, cx, fuel, depth);
                evaluated_method(e.kind, scope, cx, fuel, depth)
            },
            ExprKindView::Invoke { .. } => {
                evaluated_invoke_spends(e.kind, scope, cx, fuel, depth);
                evaluated_invoke(e.kind, scope, cx, fuel, depth)
            },
            ExprKindView::Prefix(op, inner) => match {
                evaluated_spends(*inner, scope, cx, fuel, depth);
                evaluated(*inner, scope, cx, fuel, depth)
            } {
                Ok(out) => {
                    let (value, fuel) = out;
                    match prefix_result(op, value) {
                        Ok(out) => {
                            let value = out;
                            Ok((value, fuel))
                        },
                        Err(error) => Err(HaltView { error, fuel }),
                    }
                },
                Err(error) => Err(error),
            },
            ExprKindView::Infix(_, _, _) => {
                evaluated_infix_spends(e.kind, scope, cx, fuel, depth);
                evaluated_infix(e.kind, scope, cx, fuel, depth)
            },
            ExprKindView::Compare { first, rest } => match {
                evaluated_spends(*first, scope, cx, fuel, depth);
                evaluated(*first, scope, cx, fuel, depth)
            } {
                Ok(out) => {
                    let (value, fuel) = out;
                    match integer_of(value, "chained comparison"@) {
                        Ok(out) => {
                            let left = out;
                            {
                                evaluated_chain_spends(rest, scope, cx, depth, 0, left, fuel);
                                evaluated_chain(rest, scope, cx, depth, 0, left, fuel)
                            }
                        },
                        Err(error) => Err(HaltView { error, fuel }),
                    }
                },
                Err(error) => Err(error),
            },
            ExprKindView::Call { .. } => {
                evaluated_call_spends(e.kind, scope, cx, fuel, depth);
                evaluated_call(e.kind, scope, cx, fuel, depth)
            },
            _ => Err(halted(no_comptime("unsupported compile-time expression"@), fuel)),
        }
    };
}

proof fn evaluated_all_spends(
    values: Seq<ExprView>,
    scope: Seq<(Seq<char>, CtValueView)>,
    cx: CtContextView,
    depth: u32,
    i: nat,
    out: Seq<CtValueView>,
    fuel: usize,
)
    ensures
        match evaluated_all(values, scope, cx, depth, i, out, fuel) {
            Ok(done) => done.1 <= fuel,
            Err(stop) => stop.fuel <= fuel,
        },
    decreases depth, values, (values.len() - i) as nat,
{
    let _ = {
        if i >= values.len() {
            Ok((out, fuel))
        } else {
            let value = values[i as int];
            match {
                evaluated_spends(value, scope, cx, fuel, depth);
                evaluated(value, scope, cx, fuel, depth)
            } {
                Ok(taken) => {
                    let (found, rest) = taken;
                    let out = out.push(found);
                    let fuel = rest;
                    {
                        evaluated_all_spends(values, scope, cx, depth, i + 1, out, fuel);
                        evaluated_all(values, scope, cx, depth, i + 1, out, fuel)
                    }
                },
                Err(error) => Err(error),
            }
        }
    };
}

proof fn evaluated_chain_spends(
    rest: Seq<(InfixOp, ExprView)>,
    scope: Seq<(Seq<char>, CtValueView)>,
    cx: CtContextView,
    depth: u32,
    i: nat,
    left: i64,
    fuel: usize,
)
    ensures
        match evaluated_chain(rest, scope, cx, depth, i, left, fuel) {
            Ok(done) => done.1 <= fuel,
            Err(stop) => stop.fuel <= fuel,
        },
    decreases depth, rest, (rest.len() - i) as nat,
{
    let _ = {
        if i >= rest.len() {
            Ok((CtValueView::Bool(true), fuel))
        } else {
            let link = rest[i as int];
            match {
                evaluated_spends(link.1, scope, cx, fuel, depth);
                evaluated(link.1, scope, cx, fuel, depth)
            } {
                Ok(out) => {
                    let (value, remaining) = out;
                    let fuel = remaining;
                    match integer_of(value, "chained comparison"@) {
                        Ok(out) => {
                            let right = out;
                            match ints_compare(link.0, left, right) {
                                Ok(out) => {
                                    let holds = out;
                                    if !holds {
                                        Ok((CtValueView::Bool(false), fuel))
                                    } else {
                                        let left = right;
                                        {
                                            evaluated_chain_spends(rest, scope, cx, depth, i + 1, left, fuel);
                                            evaluated_chain(rest, scope, cx, depth, i + 1, left, fuel)
                                        }
                                    }
                                },
                                Err(error) => Err(HaltView { error, fuel }),
                            }
                        },
                        Err(error) => Err(HaltView { error, fuel }),
                    }
                },
                Err(error) => Err(error),
            }
        }
    };
}

proof fn evaluated_again_spends(
    e: ExprView,
    value: CtValueView,
    taken: bool,
    scope: Seq<(Seq<char>, CtValueView)>,
    cx: CtContextView,
    fuel: usize,
    depth: u32,
)
    ensures
        match evaluated_again(e, value, taken, scope, cx, fuel, depth) {
            Ok(done) => done.1 <= fuel,
            Err(stop) => stop.fuel <= fuel,
        },
    decreases depth, e, 1nat,
{
    let _ = {
        if taken {
            {
                evaluated_spends(e, scope, cx, fuel, depth);
                evaluated(e, scope, cx, fuel, depth)
            }
        } else {
            Ok((value, fuel))
        }
    };
}

proof fn evaluated_infix_spends(
    kind: ExprKindView,
    scope: Seq<(Seq<char>, CtValueView)>,
    cx: CtContextView,
    fuel: usize,
    depth: u32,
)
    ensures
        match evaluated_infix(kind, scope, cx, fuel, depth) {
            Ok(done) => done.1 <= fuel,
            Err(stop) => stop.fuel <= fuel,
        },
    decreases depth, kind, 0nat,
{
    reveal(halted);
    let _ = {
        match kind {
            ExprKindView::Infix(op, left, right) => {
                let before = fuel;
                match {
                    evaluated_spends(*left, scope, cx, fuel, depth);
                    evaluated(*left, scope, cx, fuel, depth)
                } {
                    Ok(out) => {
                        let (a, fuel) = out;
                        let between = fuel;
                        match op {
                            InfixOp::And => match boolean_of(a, "'and'"@) {
                                Ok(out) => {
                                    let holds = out;
                                    if holds {
                                        match {
                                            evaluated_spends(*right, scope, cx, fuel, depth);
                                            evaluated(*right, scope, cx, fuel, depth)
                                        } {
                                            Ok(out) => {
                                                let (b, fuel) = out;
                                                match boolean_of(b, "'and'"@) {
                                                    Ok(out) => {
                                                        let holds = out;
                                                        Ok((CtValueView::Bool(holds), fuel))
                                                    },
                                                    Err(error) => Err(HaltView { error, fuel }),
                                                }
                                            },
                                            Err(error) => Err(error),
                                        }
                                    } else {
                                        Ok((CtValueView::Bool(false), fuel))
                                    }
                                },
                                Err(error) => Err(HaltView { error, fuel }),
                            },
                            InfixOp::Or => match boolean_of(a, "'or'"@) {
                                Ok(out) => {
                                    let holds = out;
                                    if holds {
                                        Ok((CtValueView::Bool(true), fuel))
                                    } else {
                                        match {
                                            evaluated_spends(*right, scope, cx, fuel, depth);
                                            evaluated(*right, scope, cx, fuel, depth)
                                        } {
                                            Ok(out) => {
                                                let (b, fuel) = out;
                                                match boolean_of(b, "'or'"@) {
                                                    Ok(out) => {
                                                        let holds = out;
                                                        Ok((CtValueView::Bool(holds), fuel))
                                                    },
                                                    Err(error) => Err(HaltView { error, fuel }),
                                                }
                                            },
                                            Err(error) => Err(error),
                                        }
                                    }
                                },
                                Err(error) => Err(HaltView { error, fuel }),
                            },
                            _ => match {
                                evaluated_spends(*right, scope, cx, fuel, depth);
                                evaluated(*right, scope, cx, fuel, depth)
                            } {
                                Ok(out) => {
                                    let (b, fuel) = out;
                                    let after = fuel;
                                    if two_strings(a, b) {
                                        match op_result(op, a, b) {
                                            Ok(out) => {
                                                let value = out;
                                                Ok((value, fuel))
                                            },
                                            Err(error) => Err(HaltView { error, fuel }),
                                        }
                                    } else {
                                        match {
                                            evaluated_again_spends(*left, a, between != before, scope, cx, fuel, depth);
                                            evaluated_again(*left, a, between != before, scope, cx, fuel, depth)
                                        } {
                                            Ok(out) => {
                                                let (a, fuel) = out;
                                                match integer_of(a, "integer operator"@) {
                                                    Ok(out) => {
                                                        let _ = out;
                                                        match {
                                                            evaluated_again_spends(*right, b, after != between, scope, cx, fuel, depth);
                                                            evaluated_again(*right, b, after != between, scope, cx, fuel, depth)
                                                        } {
                                                            Ok(out) => {
                                                                let (b, fuel) = out;
                                                                match op_result(op, a, b) {
                                                                    Ok(out) => {
                                                                        let value = out;
                                                                        Ok((value, fuel))
                                                                    },
                                                                    Err(error) => Err(
                                                                        HaltView { error, fuel }
                                                                    ),
                                                                }
                                                            },
                                                            Err(error) => Err(error),
                                                        }
                                                    },
                                                    Err(error) => Err(HaltView { error, fuel }),
                                                }
                                            },
                                            Err(error) => Err(error),
                                        }
                                    }
                                },
                                Err(error) => Err(error),
                            },
                        }
                    },
                    Err(error) => Err(error),
                }
            },
            _ => Err(halted(nested_too_deep(), fuel)),
        }
    };
}

proof fn evaluated_type_spends(
    kind: ExprKindView,
    scope: Seq<(Seq<char>, CtValueView)>,
    cx: CtContextView,
    fuel: usize,
    depth: u32,
)
    ensures
        match evaluated_type(kind, scope, cx, fuel, depth) {
            Ok(done) => done.1 <= fuel,
            Err(stop) => stop.fuel <= fuel,
        },
    decreases depth, kind, 0nat,
{
    reveal(halted);
    let _ = {
        match kind {
            ExprKindView::TypeApply { name, args } => if name == "reflect"@ {
                if args.len() == 1 {
                    match {
                        type_of_param_arg_spends(args[0], scope, cx, fuel, depth);
                        type_of_param_arg(args[0], scope, cx, fuel, depth)
                    } {
                        Ok(out) => {
                            let (ty, fuel) = out;
                            Ok((CtValueView::Reflected(Box::new(ty)), fuel))
                        },
                        Err(error) => Err(error),
                    }
                } else {
                    Err(halted(ComptimeErrorView::Arity("reflect[T] takes exactly one type parameter"@), fuel))
                }
            } else {
                match {
                    type_of_name_spends(name, args, scope, cx, fuel, depth);
                    type_of_name(name, args, scope, cx, fuel, depth)
                } {
                    Ok(out) => {
                        let (ty, fuel) = out;
                        Ok((CtValueView::Type(Box::new(ty)), fuel))
                    },
                    Err(error) => Err(error),
                }
            },
            _ => Err(halted(nested_too_deep(), fuel)),
        }
    };
}

proof fn evaluated_member_spends(
    kind: ExprKindView,
    scope: Seq<(Seq<char>, CtValueView)>,
    cx: CtContextView,
    fuel: usize,
    depth: u32,
)
    ensures
        match evaluated_member(kind, scope, cx, fuel, depth) {
            Ok(done) => done.1 <= fuel,
            Err(stop) => stop.fuel <= fuel,
        },
    decreases depth, kind, 0nat,
{
    reveal(halted);
    let _ = {
        match kind {
            ExprKindView::Member { object, field } => match member_of_self(*object, field, scope) {
                Some(value) => Ok((value, fuel)),
                None => match {
                    evaluated_spends(*object, scope, cx, fuel, depth);
                    evaluated(*object, scope, cx, fuel, depth)
                } {
                    Ok(out) => {
                        let (value, fuel) = out;
                        match value {
                            CtValueView::Type(ty) => if depth > 1 {
                                {
                                    value_associated_spends(*ty, field, cx, fuel, (depth - 1) as u32);
                                    value_associated(*ty, field, cx, fuel, (depth - 1) as u32)
                                }
                            } else {
                                Err(halted(nested_too_deep(), fuel))
                            },
                            CtValueView::Reflected(ty) => if field == "T"@ {
                                Ok((CtValueView::Type(Box::new(type_itself(*ty))), fuel))
                            } else {
                                Err(halted(type_value_needed(field), fuel))
                            },
                            _ => Err(halted(type_value_needed(field), fuel)),
                        }
                    },
                    Err(error) => Err(error),
                },
            },
            _ => Err(halted(nested_too_deep(), fuel)),
        }
    };
}

proof fn value_associated_spends(
    base: TyView,
    member: Seq<char>,
    cx: CtContextView,
    fuel: usize,
    depth: u32,
)
    ensures
        match value_associated(base, member, cx, fuel, depth) {
            Ok(done) => done.1 <= fuel,
            Err(stop) => stop.fuel <= fuel,
        },
    decreases depth, base, 0nat,
{
    reveal(halted);
    let _ = {
        match member_of_type(base, member, cx) {
            Ok(out) => {
                let (value, env) = out;
                if depth > 0 {
                    {
                        evaluated_spends(value, env, cx, fuel, (depth - 1) as u32);
                        evaluated(value, env, cx, fuel, (depth - 1) as u32)
                    }
                } else {
                    Err(halted(nested_too_deep(), fuel))
                }
            },
            Err(error) => Err(HaltView { error, fuel }),
        }
    };
}

proof fn evaluated_index_spends(
    kind: ExprKindView,
    scope: Seq<(Seq<char>, CtValueView)>,
    cx: CtContextView,
    fuel: usize,
    depth: u32,
)
    ensures
        match evaluated_index(kind, scope, cx, fuel, depth) {
            Ok(done) => done.1 <= fuel,
            Err(stop) => stop.fuel <= fuel,
        },
    decreases depth, kind, 0nat,
{
    reveal(halted);
    let _ = {
        match kind {
            ExprKindView::Index { object, index } => match selector_named(*object) {
                Some(field) => if field == "field_type"@ {
                    Err(halted(removed_field_type(), fuel))
                } else {
                    match {
                        evaluated_selected_spends(*object, scope, cx, fuel, depth);
                        evaluated_selected(*object, scope, cx, fuel, depth)
                    } {
                        Ok(out) => {
                            let (handle, fuel) = out;
                            match type_reflected(handle, "compile-time reflection selector '"@, field) {
                                Ok(out) => {
                                    let ty = out;
                                    match struct_reflected(ty, field + "[...]"@, cx) {
                                        Ok(out) => {
                                            let (info, args) = out;
                                            match {
                                                evaluated_spends(*index, scope, cx, fuel, depth);
                                                evaluated(*index, scope, cx, fuel, depth)
                                            } {
                                                Ok(out) => {
                                                    let (selected, fuel) = out;
                                                    match field_selected(field, selected, info) {
                                                        Ok(out) => {
                                                            let k = out;
                                                            if depth > 1 {
                                                                {
                                                                    handle_of_field_spends(info, args, k, scope, cx, fuel, (depth - 1) as u32);
                                                                    handle_of_field(info, args, k, scope, cx, fuel, (depth - 1) as u32)
                                                                }
                                                            } else {
                                                                Err(halted(nested_too_deep(), fuel))
                                                            }
                                                        },
                                                        Err(error) => Err(HaltView { error, fuel }),
                                                    }
                                                },
                                                Err(error) => Err(error),
                                            }
                                        },
                                        Err(error) => Err(HaltView { error, fuel }),
                                    }
                                },
                                Err(error) => Err(HaltView { error, fuel }),
                            }
                        },
                        Err(error) => Err(error),
                    }
                },
                None => match {
                    evaluated_spends(*object, scope, cx, fuel, depth);
                    evaluated(*object, scope, cx, fuel, depth)
                } {
                    Ok(out) => {
                        let (value, fuel) = out;
                        match sequence_of(value, "indexing a comptime collection"@) {
                            Ok(out) => {
                                let values = out;
                                match {
                                    evaluated_spends(*index, scope, cx, fuel, depth);
                                    evaluated(*index, scope, cx, fuel, depth)
                                } {
                                    Ok(out) => {
                                        let (at, fuel) = out;
                                        match integer_of(at, "comptime index"@) {
                                            Ok(out) => {
                                                let at = out;
                                                match value_at(values, at) {
                                                    Ok(out) => {
                                                        let value = out;
                                                        Ok((value, fuel))
                                                    },
                                                    Err(error) => Err(HaltView { error, fuel }),
                                                }
                                            },
                                            Err(error) => Err(HaltView { error, fuel }),
                                        }
                                    },
                                    Err(error) => Err(error),
                                }
                            },
                            Err(error) => Err(HaltView { error, fuel }),
                        }
                    },
                    Err(error) => Err(error),
                },
            },
            _ => Err(halted(nested_too_deep(), fuel)),
        }
    };
}

proof fn evaluated_selected_spends(
    object: ExprView,
    scope: Seq<(Seq<char>, CtValueView)>,
    cx: CtContextView,
    fuel: usize,
    depth: u32,
)
    ensures
        match evaluated_selected(object, scope, cx, fuel, depth) {
            Ok(done) => done.1 <= fuel,
            Err(stop) => stop.fuel <= fuel,
        },
    decreases depth, object, 0nat,
{
    reveal(halted);
    let _ = {
        match object.kind {
            ExprKindView::Member { object, .. } => {
                evaluated_spends(*object, scope, cx, fuel, depth);
                evaluated(*object, scope, cx, fuel, depth)
            },
            _ => Err(halted(nested_too_deep(), fuel)),
        }
    };
}

proof fn handle_of_field_spends(
    info: CtStructView,
    args: Seq<TyArgView>,
    k: usize,
    scope: Seq<(Seq<char>, CtValueView)>,
    cx: CtContextView,
    fuel: usize,
    depth: u32,
)
    ensures
        match handle_of_field(info, args, k, scope, cx, fuel, depth) {
            Ok(done) => done.1 <= fuel,
            Err(stop) => stop.fuel <= fuel,
        },
    decreases depth, info, 0nat,
{
    reveal(halted);
    let _ = {
        let inner = scope_of_struct(args, info.decls, 0, scope, 0);
        if k < info.fields.len() && depth > 0 {
            match {
                type_of_anno_spends(info.fields[k as int].ty, inner, cx, fuel, (depth - 1) as u32);
                type_of_anno(info.fields[k as int].ty, inner, cx, fuel, (depth - 1) as u32)
            } {
                Ok(out) => {
                    let (ty, fuel) = out;
                    Ok((CtValueView::Reflected(Box::new(ty)), fuel))
                },
                Err(error) => Err(error),
            }
        } else {
            Err(halted(nested_too_deep(), fuel))
        }
    };
}

proof fn evaluated_method_spends(
    kind: ExprKindView,
    scope: Seq<(Seq<char>, CtValueView)>,
    cx: CtContextView,
    fuel: usize,
    depth: u32,
)
    ensures
        match evaluated_method(kind, scope, cx, fuel, depth) {
            Ok(done) => done.1 <= fuel,
            Err(stop) => stop.fuel <= fuel,
        },
    decreases depth, kind, 0nat,
{
    reveal(halted);
    let _ = {
        match kind {
            ExprKindView::MethodCall {
                object,
                method,
                args,
                kwargs,
            } => if args.len() == 0 && kwargs.len() == 0 {
                match {
                    evaluated_spends(*object, scope, cx, fuel, depth);
                    evaluated(*object, scope, cx, fuel, depth)
                } {
                    Ok(out) => {
                        let (value, fuel) = out;
                        if method == "__len__"@ {
                            match sequence_of(value, "__len__() of a compile-time collection"@) {
                                Ok(out) => {
                                    let values = out;
                                    Ok((CtValueView::Int(integer_length(values)), fuel))
                                },
                                Err(error) => Err(HaltView { error, fuel }),
                            }
                        } else {
                            match type_reflected(value, "compile-time reflection method '"@, method) {
                                Ok(out) => {
                                    let ty = out;
                                    if depth > 1 {
                                        {
                                            evaluated_reflection_spends(ty, method, scope, cx, fuel, (depth - 1) as u32);
                                            evaluated_reflection(ty, method, scope, cx, fuel, (depth - 1) as u32)
                                        }
                                    } else {
                                        Err(halted(nested_too_deep(), fuel))
                                    }
                                },
                                Err(error) => Err(HaltView { error, fuel }),
                            }
                        }
                    },
                    Err(error) => Err(error),
                }
            } else {
                Err(halted(no_comptime("unsupported compile-time expression"@), fuel))
            },
            _ => Err(halted(nested_too_deep(), fuel)),
        }
    };
}

proof fn evaluated_reflection_spends(
    ty: TyView,
    method: Seq<char>,
    scope: Seq<(Seq<char>, CtValueView)>,
    cx: CtContextView,
    fuel: usize,
    depth: u32,
)
    ensures
        match evaluated_reflection(ty, method, scope, cx, fuel, depth) {
            Ok(done) => done.1 <= fuel,
            Err(stop) => stop.fuel <= fuel,
        },
    decreases depth, ty, 0nat,
{
    reveal(halted);
    let _ = {
        if method == "is_struct"@ {
            Ok((CtValueView::Bool((ty matches TyView::Struct(_, _))), fuel))
        } else {
            match struct_reflected(ty, method + "()"@, cx) {
                Ok(out) => {
                    let (info, args) = out;
                    if method == "field_count"@ {
                        Ok((CtValueView::Int(field_count(info.fields)), fuel))
                    } else if method == "field_names"@ {
                        Ok((CtValueView::Tuple(names_of_fields(info.fields, 0, Seq::empty())), fuel))
                    } else if method == "field_types"@ {
                        let inner = scope_of_struct(args, info.decls, 0, scope, 0);
                        if depth > 0 {
                            match {
                                types_of_field_list_spends(info.fields, inner, cx, (depth - 1) as u32, 0, Seq::empty(), fuel);
                                types_of_field_list(info.fields, inner, cx, (depth - 1) as u32, 0, Seq::empty(), fuel)
                            } {
                                Ok(out) => {
                                    let (types, fuel) = out;
                                    Ok((CtValueView::Tuple(types), fuel))
                                },
                                Err(error) => Err(error),
                            }
                        } else {
                            Err(halted(nested_too_deep(), fuel))
                        }
                    } else {
                        Err(halted(no_comptime("unsupported reflect[T] method '"@ + method + "'"@), fuel))
                    }
                },
                Err(error) => Err(HaltView { error, fuel }),
            }
        }
    };
}

proof fn types_of_field_list_spends(
    fields: Seq<ParamView>,
    scope: Seq<(Seq<char>, CtValueView)>,
    cx: CtContextView,
    depth: u32,
    i: nat,
    out: Seq<CtValueView>,
    fuel: usize,
)
    ensures
        match types_of_field_list(fields, scope, cx, depth, i, out, fuel) {
            Ok(done) => done.1 <= fuel,
            Err(stop) => stop.fuel <= fuel,
        },
    decreases depth, fields, (fields.len() - i) as nat,
{
    reveal(halted);
    let _ = {
        if i >= fields.len() {
            Ok((out, fuel))
        } else {
            let field = fields[i as int];
            if depth == 0 {
                Err(halted(nested_too_deep(), fuel))
            } else {
                match {
                    type_of_anno_spends(field.ty, scope, cx, fuel, (depth - 1) as u32);
                    type_of_anno(field.ty, scope, cx, fuel, (depth - 1) as u32)
                } {
                    Ok(taken) => {
                        let (ty, rest) = taken;
                        let out = out.push(CtValueView::Type(Box::new(ty)));
                        let fuel = rest;
                        {
                            types_of_field_list_spends(fields, scope, cx, depth, i + 1, out, fuel);
                            types_of_field_list(fields, scope, cx, depth, i + 1, out, fuel)
                        }
                    },
                    Err(error) => Err(error),
                }
            }
        }
    };
}

proof fn evaluated_invoke_spends(
    kind: ExprKindView,
    scope: Seq<(Seq<char>, CtValueView)>,
    cx: CtContextView,
    fuel: usize,
    depth: u32,
)
    ensures
        match evaluated_invoke(kind, scope, cx, fuel, depth) {
            Ok(done) => done.1 <= fuel,
            Err(stop) => stop.fuel <= fuel,
        },
    decreases depth, kind, 0nat,
{
    reveal(halted);
    let _ = {
        match kind {
            ExprKindView::Invoke {
                callee,
                param_args,
                args,
                kwargs,
            } => if args.len() == 0 && kwargs.len() == 0 {
                match method_selected(*callee) {
                    Some(method) => match {
                        evaluated_selected_spends(*callee, scope, cx, fuel, depth);
                        evaluated_selected(*callee, scope, cx, fuel, depth)
                    } {
                        Ok(out) => {
                            let (handle, fuel) = out;
                            match type_reflected(handle, "compile-time reflection method '"@, method) {
                                Ok(out) => {
                                    let ty = out;
                                    if method == "field_type"@ {
                                        Err(halted(removed_field_type(), fuel))
                                    } else {
                                        match struct_reflected(ty, method, cx) {
                                            Ok(out) => {
                                                let (info, _) = out;
                                                match {
                                                    name_argument_spends(param_args, method, scope, cx, fuel, depth, 0);
                                                    name_argument(param_args, method, scope, cx, fuel, depth, 0)
                                                } {
                                                    Ok(out) => {
                                                        let (name, fuel) = out;
                                                        match field_named(name, info) {
                                                            Ok(out) => {
                                                                let k = out;
                                                                {
                                                                    index_of_field_spends(method, k, fuel);
                                                                    index_of_field(method, k, fuel)
                                                                }
                                                            },
                                                            Err(error) => Err(HaltView { error, fuel }),
                                                        }
                                                    },
                                                    Err(error) => Err(error),
                                                }
                                            },
                                            Err(error) => Err(HaltView { error, fuel }),
                                        }
                                    }
                                },
                                Err(error) => Err(HaltView { error, fuel }),
                            }
                        },
                        Err(error) => Err(error),
                    },
                    None => Err(halted(no_comptime("unsupported parameterized compile-time callable"@), fuel)),
                }
            } else {
                Err(halted(no_comptime("unsupported compile-time expression"@), fuel))
            },
            _ => Err(halted(nested_too_deep(), fuel)),
        }
    };
}

proof fn index_of_field_spends(
    method: Seq<char>,
    k: usize,
    fuel: usize,
)
    ensures
        match index_of_field(method, k, fuel) {
            Ok(done) => done.1 <= fuel,
            Err(stop) => stop.fuel <= fuel,
        },
{
    reveal(index_of_field);
    reveal(halted);
    let _ = {
        if method == "field_index"@ {
            Ok((CtValueView::Int(if k < 4294967295 {
                k as i64
            } else {
                4294967295
            }), fuel))
        } else {
            Err(halted(no_comptime("unsupported parameterized reflect[T] method '"@ + method + "'"@), fuel))
        }
    };
}

proof fn name_argument_spends(
    args: Seq<ParamArgView>,
    method: Seq<char>,
    scope: Seq<(Seq<char>, CtValueView)>,
    cx: CtContextView,
    fuel: usize,
    depth: u32,
    i: nat,
)
    ensures
        match name_argument(args, method, scope, cx, fuel, depth, i) {
            Ok(done) => done.1 <= fuel,
            Err(stop) => stop.fuel <= fuel,
        },
    decreases depth, args, (args.len() - i) as nat,
{
    reveal(halted);
    let _ = {
        if i >= args.len() {
            Err(halted(wrong_name_arity(method), fuel))
        } else {
            let arg = args[i as int];
            if args.len() != 1 {
                Err(halted(wrong_name_arity(method), fuel))
            } else {
                {
                    name_given_spends(arg, method, scope, cx, fuel, depth);
                    name_given(arg, method, scope, cx, fuel, depth)
                }
            }
        }
    };
}

proof fn name_given_spends(
    arg: ParamArgView,
    method: Seq<char>,
    scope: Seq<(Seq<char>, CtValueView)>,
    cx: CtContextView,
    fuel: usize,
    depth: u32,
)
    ensures
        match name_given(arg, method, scope, cx, fuel, depth) {
            Ok(done) => done.1 <= fuel,
            Err(stop) => stop.fuel <= fuel,
        },
    decreases depth, arg, 1nat,
{
    reveal(halted);
    let _ = {
        match arg {
            ParamArgView::Value(e) => match {
                evaluated_spends(e, scope, cx, fuel, depth);
                evaluated(e, scope, cx, fuel, depth)
            } {
                Ok(out) => {
                    let (value, fuel) = out;
                    match value {
                        CtValueView::Str(name) => Ok((name, fuel)),
                        _ => Err(halted(no_comptime("reflection field name must be String, got "@ + ct_text(value)), fuel)),
                    }
                },
                Err(error) => Err(error),
            },
            ParamArgView::Named { name, value } => if name == "name"@ {
                let decl = ParamDeclView::Value {
                    name: "name"@,
                    ty: Box::new(TyView::String),
                    default: None,
                    infer_only: false,
                    variadic: false,
                };
                match {
                    resolved_arg_spends(decl, *value, scope, cx, fuel, depth);
                    resolved_arg(decl, *value, scope, cx, fuel, depth)
                } {
                    Ok(out) => {
                        let (value, fuel) = out;
                        match value {
                            CtValueView::Str(name) => Ok((name, fuel)),
                            _ => Err(halted(wrong_name_arity(method), fuel)),
                        }
                    },
                    Err(error) => Err(error),
                }
            } else {
                Err(halted(wrong_name_arity(method), fuel))
            },
            _ => Err(halted(wrong_name_arity(method), fuel)),
        }
    };
}

proof fn evaluated_call_spends(
    kind: ExprKindView,
    scope: Seq<(Seq<char>, CtValueView)>,
    cx: CtContextView,
    fuel: usize,
    depth: u32,
)
    ensures
        match evaluated_call(kind, scope, cx, fuel, depth) {
            Ok(done) => done.1 <= fuel,
            Err(stop) => stop.fuel <= fuel,
        },
    decreases depth, kind, 0nat,
{
    reveal(halted);
    let _ = {
        match kind {
            ExprKindView::Call { name, param_args, args, kwargs } => if name == "is_same_type"@ {
                {
                    evaluated_same_type_spends(param_args, args.len() as usize, scope, cx, fuel, depth);
                    evaluated_same_type(param_args, args.len() as usize, scope, cx, fuel, depth)
                }
            } else if name == "reflect"@ && args.len() == 0 && kwargs.len() == 0 {
                if param_args.len() == 1 {
                    match {
                        type_of_param_arg_spends(param_args[0], scope, cx, fuel, depth);
                        type_of_param_arg(param_args[0], scope, cx, fuel, depth)
                    } {
                        Ok(out) => {
                            let (ty, fuel) = out;
                            Ok((CtValueView::Reflected(Box::new(ty)), fuel))
                        },
                        Err(error) => Err(error),
                    }
                } else {
                    Err(halted(ComptimeErrorView::Arity("reflect[T]() takes exactly one type parameter"@), fuel))
                }
            } else if name == "len"@ && args.len() == 1 {
                match {
                    evaluated_spends(args[0], scope, cx, fuel, depth);
                    evaluated(args[0], scope, cx, fuel, depth)
                } {
                    Ok(out) => {
                        let (value, fuel) = out;
                        match sequence_of(value, "len() of a compile-time collection"@) {
                            Ok(out) => {
                                let values = out;
                                Ok((CtValueView::Int(integer_length(values)), fuel))
                            },
                            Err(error) => Err(HaltView { error, fuel }),
                        }
                    },
                    Err(error) => Err(error),
                }
            } else {
                match {
                    evaluated_all_spends(args, scope, cx, depth, 0, Seq::empty(), fuel);
                    evaluated_all(args, scope, cx, depth, 0, Seq::empty(), fuel)
                } {
                    Ok(out) => {
                        let (argv, fuel) = out;
                        match {
                            fn_called_spends(name, param_args.len() as usize, argv.len() as usize, cx, fuel);
                            fn_called(name, param_args.len() as usize, argv.len() as usize, cx, fuel)
                        } {
                            Ok(out) => {
                                let (f, fuel) = out;
                                match {
                                    resolved_args_spends(param_args, f.ct_params, scope, cx, depth, 0, Seq::empty(), fuel, 0);
                                    resolved_args(param_args, f.ct_params, scope, cx, depth, 0, Seq::empty(), fuel, 0)
                                } {
                                    Ok(out) => {
                                        let (values, fuel) = out;
                                        {
                                            call_run_spends(f, values, argv, cx, fuel);
                                            call_run(f, values, argv, cx, fuel)
                                        }
                                    },
                                    Err(error) => Err(error),
                                }
                            },
                            Err(error) => Err(error),
                        }
                    },
                    Err(error) => Err(error),
                }
            },
            _ => Err(halted(nested_too_deep(), fuel)),
        }
    };
}

proof fn evaluated_same_type_spends(
    param_args: Seq<ParamArgView>,
    args: usize,
    scope: Seq<(Seq<char>, CtValueView)>,
    cx: CtContextView,
    fuel: usize,
    depth: u32,
)
    ensures
        match evaluated_same_type(param_args, args, scope, cx, fuel, depth) {
            Ok(done) => done.1 <= fuel,
            Err(stop) => stop.fuel <= fuel,
        },
    decreases depth, param_args, 0nat,
{
    reveal(halted);
    let _ = {
        if param_args.len() == 2 && args == 0 {
            match {
                type_of_param_arg_spends(param_args[0], scope, cx, fuel, depth);
                type_of_param_arg(param_args[0], scope, cx, fuel, depth)
            } {
                Ok(out) => {
                    let (a, fuel) = out;
                    match {
                        type_of_param_arg_spends(param_args[1], scope, cx, fuel, depth);
                        type_of_param_arg(param_args[1], scope, cx, fuel, depth)
                    } {
                        Ok(out) => {
                            let (b, fuel) = out;
                            Ok((CtValueView::Bool(a == b), fuel))
                        },
                        Err(error) => Err(error),
                    }
                },
                Err(error) => Err(error),
            }
        } else {
            Err(halted(ComptimeErrorView::Arity("is_same_type[T, U]() takes two type parameters and no arguments"@), fuel))
        }
    };
}

proof fn resolved_args_spends(
    args: Seq<ParamArgView>,
    decls: Seq<ParamDeclView>,
    scope: Seq<(Seq<char>, CtValueView)>,
    cx: CtContextView,
    depth: u32,
    i: nat,
    out: Seq<CtValueView>,
    fuel: usize,
    k: usize,
)
    ensures
        match resolved_args(args, decls, scope, cx, depth, i, out, fuel, k) {
            Ok(done) => done.1 <= fuel,
            Err(stop) => stop.fuel <= fuel,
        },
    decreases depth, args, (args.len() - i) as nat,
{
    let _ = {
        if i >= args.len() {
            Ok((out, fuel))
        } else {
            let arg = args[i as int];
            if k >= decls.len() {
                Ok((out, fuel))
            } else {
                match {
                    resolved_arg_spends(decls[k as int], arg, scope, cx, fuel, depth);
                    resolved_arg(decls[k as int], arg, scope, cx, fuel, depth)
                } {
                    Ok(taken) => {
                        let (value, rest) = taken;
                        let out = out.push(value);
                        let fuel = rest;
                        let k = following_index(k);
                        {
                            resolved_args_spends(args, decls, scope, cx, depth, i + 1, out, fuel, k);
                            resolved_args(args, decls, scope, cx, depth, i + 1, out, fuel, k)
                        }
                    },
                    Err(error) => Err(error),
                }
            }
        }
    };
}

proof fn resolved_arg_spends(
    decl: ParamDeclView,
    arg: ParamArgView,
    scope: Seq<(Seq<char>, CtValueView)>,
    cx: CtContextView,
    fuel: usize,
    depth: u32,
)
    ensures
        match resolved_arg(decl, arg, scope, cx, fuel, depth) {
            Ok(done) => done.1 <= fuel,
            Err(stop) => stop.fuel <= fuel,
        },
    decreases depth, arg, 0nat,
{
    reveal(halted);
    let _ = {
        match arg {
            ParamArgView::Named { value, .. } => {
                resolved_arg_spends(decl, *value, scope, cx, fuel, depth);
                resolved_arg(decl, *value, scope, cx, fuel, depth)
            },
            ParamArgView::Type(ty) => match decl {
                ParamDeclView::Type { .. } => match {
                    type_of_anno_spends(ty, scope, cx, fuel, depth);
                    type_of_anno(ty, scope, cx, fuel, depth)
                } {
                    Ok(out) => {
                        let (ty, fuel) = out;
                        Ok((CtValueView::Type(Box::new(ty)), fuel))
                    },
                    Err(error) => Err(error),
                },
                ParamDeclView::Value { name, .. } => Err(
                    halted(ComptimeErrorView::NotInt("value parameter '"@ + name + "'"@), fuel)
                ),
            },
            ParamArgView::Value(e) => match decl {
                ParamDeclView::Type { name, .. } => {
                    resolved_type_value_spends(e, name, scope, cx, fuel, depth);
                    resolved_type_value(e, name, scope, cx, fuel, depth)
                },
                ParamDeclView::Value { name, ty, .. } => match {
                    evaluated_spends(e, scope, cx, fuel, depth);
                    evaluated(e, scope, cx, fuel, depth)
                } {
                    Ok(out) => {
                        let (value, fuel) = out;
                        if value_has_type(value, *ty) {
                            Ok((value, fuel))
                        } else {
                            Err(halted(value_of_wrong_type("value parameter '"@, name, *ty, value), fuel))
                        }
                    },
                    Err(error) => Err(error),
                },
            },
        }
    };
}

proof fn resolved_type_value_spends(
    e: ExprView,
    name: Seq<char>,
    scope: Seq<(Seq<char>, CtValueView)>,
    cx: CtContextView,
    fuel: usize,
    depth: u32,
)
    ensures
        match resolved_type_value(e, name, scope, cx, fuel, depth) {
            Ok(done) => done.1 <= fuel,
            Err(stop) => stop.fuel <= fuel,
        },
    decreases depth, e, 1nat,
{
    reveal(halted);
    let _ = {
        match e.kind {
            ExprKindView::Identifier(id) => match bare_type(id, scope, cx) {
                Ok(out) => {
                    let ty = out;
                    Ok((CtValueView::Type(Box::new(ty)), fuel))
                },
                Err(error) => Err(HaltView { error, fuel }),
            },
            ExprKindView::TypeApply { name: applied, args } => match {
                type_of_name_spends(applied, args, scope, cx, fuel, depth);
                type_of_name(applied, args, scope, cx, fuel, depth)
            } {
                Ok(out) => {
                    let (ty, fuel) = out;
                    Ok((CtValueView::Type(Box::new(ty)), fuel))
                },
                Err(error) => Err(error),
            },
            _ => Err(
                halted(no_comptime("type parameter '"@ + name + "' needs a type argument, got "@ + expr_printed(e)), fuel)
            ),
        }
    };
}

proof fn type_of_param_arg_spends(
    arg: ParamArgView,
    scope: Seq<(Seq<char>, CtValueView)>,
    cx: CtContextView,
    fuel: usize,
    depth: u32,
)
    ensures
        match type_of_param_arg(arg, scope, cx, fuel, depth) {
            Ok(done) => done.1 <= fuel,
            Err(stop) => stop.fuel <= fuel,
        },
    decreases depth, arg, 0nat,
{
    let _ = {
        match arg {
            ParamArgView::Type(ty) => {
                type_of_anno_spends(ty, scope, cx, fuel, depth);
                type_of_anno(ty, scope, cx, fuel, depth)
            },
            ParamArgView::Value(e) => {
                type_of_value_spends(e, scope, cx, fuel, depth);
                type_of_value(e, scope, cx, fuel, depth)
            },
            ParamArgView::Named { value, .. } => {
                type_of_param_arg_spends(*value, scope, cx, fuel, depth);
                type_of_param_arg(*value, scope, cx, fuel, depth)
            },
        }
    };
}

proof fn type_of_value_spends(
    e: ExprView,
    scope: Seq<(Seq<char>, CtValueView)>,
    cx: CtContextView,
    fuel: usize,
    depth: u32,
)
    ensures
        match type_of_value(e, scope, cx, fuel, depth) {
            Ok(done) => done.1 <= fuel,
            Err(stop) => stop.fuel <= fuel,
        },
    decreases depth, e, 1nat,
{
    reveal(halted);
    let _ = {
        match e.kind {
            ExprKindView::Identifier(id) => match bare_type(id, scope, cx) {
                Ok(out) => {
                    let ty = out;
                    Ok((ty, fuel))
                },
                Err(error) => Err(HaltView { error, fuel }),
            },
            ExprKindView::TypeApply { name, args } => {
                type_of_name_spends(name, args, scope, cx, fuel, depth);
                type_of_name(name, args, scope, cx, fuel, depth)
            },
            _ => match {
                evaluated_spends(e, scope, cx, fuel, depth);
                evaluated(e, scope, cx, fuel, depth)
            } {
                Ok(out) => {
                    let (value, fuel) = out;
                    match value {
                        CtValueView::Type(ty) => Ok((type_itself(*ty), fuel)),
                        _ => Err(halted(no_comptime("expected a type argument"@), fuel)),
                    }
                },
                Err(error) => Err(error),
            },
        }
    };
}

proof fn type_of_anno_spends(
    ty: TypeView,
    scope: Seq<(Seq<char>, CtValueView)>,
    cx: CtContextView,
    fuel: usize,
    depth: u32,
)
    ensures
        match type_of_anno(ty, scope, cx, fuel, depth) {
            Ok(done) => done.1 <= fuel,
            Err(stop) => stop.fuel <= fuel,
        },
    decreases depth, ty, 0nat,
{
    reveal(halted);
    let _ = {
        match ty {
            TypeView::Int => Ok((TyView::Int, fuel)),
            TypeView::UInt => Ok((TyView::UInt, fuel)),
            TypeView::Bool => Ok((TyView::Bool, fuel)),
            TypeView::String => Ok((TyView::String, fuel)),
            TypeView::Float64 => Ok((TyView::Float64, fuel)),
            TypeView::NoneTy => Ok((TyView::NoneTy, fuel)),
            TypeView::Named(name, args) => {
                type_of_name_spends(name, args, scope, cx, fuel, depth);
                type_of_name(name, args, scope, cx, fuel, depth)
            },
            TypeView::SelfParam(name) => match type_of_self(name, scope) {
                Ok(out) => {
                    let ty = out;
                    Ok((ty, fuel))
                },
                Err(error) => Err(HaltView { error, fuel }),
            },
            TypeView::Assoc { base, name } => match type_of_handle(*base, name, scope) {
                Some(ty) => Ok((ty, fuel)),
                None => match {
                    type_of_anno_spends(*base, scope, cx, fuel, depth);
                    type_of_anno(*base, scope, cx, fuel, depth)
                } {
                    Ok(out) => {
                        let (base, fuel) = out;
                        if depth > 1 {
                            match {
                                value_associated_spends(base, name, cx, fuel, (depth - 1) as u32);
                                value_associated(base, name, cx, fuel, (depth - 1) as u32)
                            } {
                                Ok(out) => {
                                    let (value, fuel) = out;
                                    match type_of_member(value, base, name) {
                                        Ok(out) => {
                                            let ty = out;
                                            Ok((ty, fuel))
                                        },
                                        Err(error) => Err(HaltView { error, fuel }),
                                    }
                                },
                                Err(error) => Err(error),
                            }
                        } else {
                            Err(halted(nested_too_deep(), fuel))
                        }
                    },
                    Err(error) => Err(error),
                },
            },
            _ => Err(halted(no_comptime("unsupported compile-time type argument"@), fuel)),
        }
    };
}

proof fn type_of_name_spends(
    name: Seq<char>,
    args: Seq<ParamArgView>,
    scope: Seq<(Seq<char>, CtValueView)>,
    cx: CtContextView,
    fuel: usize,
    depth: u32,
)
    ensures
        match type_of_name(name, args, scope, cx, fuel, depth) {
            Ok(done) => done.1 <= fuel,
            Err(stop) => stop.fuel <= fuel,
        },
    decreases depth, args, (args.len() + 2) as nat,
{
    let _ = {
        if args.len() == 0 {
            match bare_type(name, scope, cx) {
                Ok(out) => {
                    let ty = out;
                    Ok((ty, fuel))
                },
                Err(error) => Err(HaltView { error, fuel }),
            }
        } else {
            match sequence_bound(name, scope) {
                Some(values) => if one_value_arg(args) {
                    {
                        type_indexed_spends(name, values, args, scope, cx, fuel, depth);
                        type_indexed(name, values, args, scope, cx, fuel, depth)
                    }
                } else {
                    {
                        type_of_struct_spends(name, args, scope, cx, fuel, depth);
                        type_of_struct(name, args, scope, cx, fuel, depth)
                    }
                },
                None => {
                    type_of_struct_spends(name, args, scope, cx, fuel, depth);
                    type_of_struct(name, args, scope, cx, fuel, depth)
                },
            }
        }
    };
}

proof fn type_indexed_spends(
    name: Seq<char>,
    values: Seq<CtValueView>,
    args: Seq<ParamArgView>,
    scope: Seq<(Seq<char>, CtValueView)>,
    cx: CtContextView,
    fuel: usize,
    depth: u32,
)
    ensures
        match type_indexed(name, values, args, scope, cx, fuel, depth) {
            Ok(done) => done.1 <= fuel,
            Err(stop) => stop.fuel <= fuel,
        },
    decreases depth, args, 0nat,
{
    reveal(halted);
    let _ = {
        if args.len() > 0 {
            match {
                value_of_index_spends(args[0], scope, cx, fuel, depth);
                value_of_index(args[0], scope, cx, fuel, depth)
            } {
                Ok(out) => {
                    let (index, fuel) = out;
                    match integer_of(index, "type-list index"@) {
                        Ok(out) => {
                            let index = out;
                            match element_type(name, values, index) {
                                Ok(out) => {
                                    let ty = out;
                                    Ok((ty, fuel))
                                },
                                Err(error) => Err(HaltView { error, fuel }),
                            }
                        },
                        Err(error) => Err(HaltView { error, fuel }),
                    }
                },
                Err(error) => Err(error),
            }
        } else {
            Err(halted(nested_too_deep(), fuel))
        }
    };
}

proof fn value_of_index_spends(
    arg: ParamArgView,
    scope: Seq<(Seq<char>, CtValueView)>,
    cx: CtContextView,
    fuel: usize,
    depth: u32,
)
    ensures
        match value_of_index(arg, scope, cx, fuel, depth) {
            Ok(done) => done.1 <= fuel,
            Err(stop) => stop.fuel <= fuel,
        },
    decreases depth, arg, 0nat,
{
    reveal(halted);
    let _ = {
        match arg {
            ParamArgView::Value(e) => {
                evaluated_spends(e, scope, cx, fuel, depth);
                evaluated(e, scope, cx, fuel, depth)
            },
            _ => Err(halted(nested_too_deep(), fuel)),
        }
    };
}

proof fn type_of_struct_spends(
    name: Seq<char>,
    args: Seq<ParamArgView>,
    scope: Seq<(Seq<char>, CtValueView)>,
    cx: CtContextView,
    fuel: usize,
    depth: u32,
)
    ensures
        match type_of_struct(name, args, scope, cx, fuel, depth) {
            Ok(done) => done.1 <= fuel,
            Err(stop) => stop.fuel <= fuel,
        },
    decreases depth, args, (args.len() + 1) as nat,
{
    reveal(halted);
    let _ = {
        match struct_named(cx.structs, name, 0, None) {
            Some(info) => if args.len() == info.decls.len() {
                match {
                    resolved_args_spends(args, info.decls, scope, cx, depth, 0, Seq::empty(), fuel, 0);
                    resolved_args(args, info.decls, scope, cx, depth, 0, Seq::empty(), fuel, 0)
                } {
                    Ok(out) => {
                        let (values, fuel) = out;
                        match args_of_type(values, info.decls, 0, Seq::empty(), 0) {
                            Ok(out) => {
                                let types = out;
                                Ok((TyView::Struct(name, types), fuel))
                            },
                            Err(error) => Err(HaltView { error, fuel }),
                        }
                    },
                    Err(error) => Err(error),
                }
            } else {
                Err(
                    halted(wrong_type_arity(name, info.decls.len() as usize, args.len() as usize), fuel)
                )
            },
            None => Err(halted(no_comptime("'"@ + name + "' is not a compile-time type"@), fuel)),
        }
    };
}

proof fn evaluated_iter_spends(
    iter: ExprView,
    scope: Seq<(Seq<char>, CtValueView)>,
    cx: CtContextView,
    fuel: usize,
    depth: u32,
)
    ensures
        match evaluated_iter(iter, scope, cx, fuel, depth) {
            Ok(done) => done.1 <= fuel,
            Err(stop) => stop.fuel <= fuel,
        },
{
    reveal(evaluated_iter);
    let _ = {
        match args_of_range(iter) {
            Some(args) => {
                evaluated_range_spends(args, scope, cx, fuel, depth);
                evaluated_range(args, scope, cx, fuel, depth)
            },
            None => {
                evaluated_sequence_spends(iter, scope, cx, fuel, depth);
                evaluated_sequence(iter, scope, cx, fuel, depth)
            },
        }
    };
}

proof fn evaluated_range_spends(
    args: Seq<ExprView>,
    scope: Seq<(Seq<char>, CtValueView)>,
    cx: CtContextView,
    fuel: usize,
    depth: u32,
)
    ensures
        match evaluated_range(args, scope, cx, fuel, depth) {
            Ok(done) => done.1 <= fuel,
            Err(stop) => stop.fuel <= fuel,
        },
{
    reveal(evaluated_range);
    let _ = {
        match {
            evaluated_all_spends(args, scope, cx, depth, 0, Seq::empty(), fuel);
            evaluated_all(args, scope, cx, depth, 0, Seq::empty(), fuel)
        } {
            Ok(out) => {
                let (values, fuel) = out;
                match sequence_of_range(values) {
                    Ok(out) => {
                        let values = out;
                        Ok((values, fuel))
                    },
                    Err(error) => Err(HaltView { error, fuel }),
                }
            },
            Err(error) => Err(error),
        }
    };
}

proof fn evaluated_sequence_spends(
    iter: ExprView,
    scope: Seq<(Seq<char>, CtValueView)>,
    cx: CtContextView,
    fuel: usize,
    depth: u32,
)
    ensures
        match evaluated_sequence(iter, scope, cx, fuel, depth) {
            Ok(done) => done.1 <= fuel,
            Err(stop) => stop.fuel <= fuel,
        },
{
    reveal(evaluated_sequence);
    let _ = {
        match {
            evaluated_spends(iter, scope, cx, fuel, depth);
            evaluated(iter, scope, cx, fuel, depth)
        } {
            Ok(out) => {
                let (value, fuel) = out;
                match sequence_of(value, "a range(...), tuple, or list"@) {
                    Ok(out) => {
                        let values = out;
                        Ok((values, fuel))
                    },
                    Err(error) => Err(HaltView { error, fuel }),
                }
            },
            Err(error) => Err(error),
        }
    };
}

proof fn constant_elaborated_spends(
    name: Seq<char>,
    value: CtValueView,
    span: Span,
    in_fn: bool,
    st: ElabStateView,
)
    ensures
        constant_elaborated(name, value, span, in_fn, st).1.fuel == st.fuel,
{
    reveal(constant_elaborated);
    let _ = {
        let top = if in_fn {
            st.top
        } else {
            and_value(st.top, name, value)
        };
        let env = and_value(st.env, name, value);
        let state = ElabStateView { fuel: st.fuel, env, top };
        let kept = match literal_of(value, span) {
            Some(literal) => single(StmtKindView::Comptime { name, value: literal }, span),
            None => Seq::empty(),
        };
        (kept, state)
    };
}

proof fn block_elaborated_spends(
    body: Seq<StmtView>,
    in_fn: bool,
    cx: CtContextView,
    depth: u32,
    i: nat,
    out: Seq<StmtView>,
    st: ElabStateView,
)
    ensures
        match block_elaborated(body, in_fn, cx, depth, i, out, st) {
            Ok(done) => done.1.fuel <= st.fuel,
            Err(_) => true,
        },
    decreases depth, body, (body.len() - i) as nat,
{
    let _ = {
        if i >= body.len() {
            Ok((out, st))
        } else {
            let stmt = body[i as int];
            match {
                stmt_elaborated_spends(stmt, in_fn, cx, st, depth);
                stmt_elaborated(stmt, in_fn, cx, st, depth)
            } {
                Ok(taken) => {
                    let (made, rest) = taken;
                    let out = (out + stamped_by(made, stmt.module));
                    let st = rest;
                    {
                        block_elaborated_spends(body, in_fn, cx, depth, i + 1, out, st);
                        block_elaborated(body, in_fn, cx, depth, i + 1, out, st)
                    }
                },
                Err(error) => Err(error),
            }
        }
    };
}

proof fn opt_block_elaborated_spends(
    block: Option<Seq<StmtView>>,
    in_fn: bool,
    cx: CtContextView,
    st: ElabStateView,
    depth: u32,
)
    ensures
        match opt_block_elaborated(block, in_fn, cx, st, depth) {
            Ok(done) => done.1.fuel <= st.fuel,
            Err(_) => true,
        },
    decreases depth, block, 0nat,
{
    let _ = {
        match block {
            Some(body) => match {
                block_elaborated_spends(body, in_fn, cx, depth, 0, Seq::empty(), st);
                block_elaborated(body, in_fn, cx, depth, 0, Seq::empty(), st)
            } {
                Ok(out) => {
                    let (body, st) = out;
                    Ok((Some(body), st))
                },
                Err(error) => Err(error),
            },
            None => Ok((None, st)),
        }
    };
}

proof fn branches_elaborated_spends(
    branches: Seq<(ExprView, Seq<StmtView>)>,
    in_fn: bool,
    cx: CtContextView,
    depth: u32,
    i: nat,
    out: Seq<(ExprView, Seq<StmtView>)>,
    st: ElabStateView,
)
    ensures
        match branches_elaborated(branches, in_fn, cx, depth, i, out, st) {
            Ok(done) => done.1.fuel <= st.fuel,
            Err(_) => true,
        },
    decreases depth, branches, (branches.len() - i) as nat,
{
    let _ = {
        if i >= branches.len() {
            Ok((out, st))
        } else {
            let branch = branches[i as int];
            match {
                block_elaborated_spends(branch.1, in_fn, cx, depth, 0, Seq::empty(), st);
                block_elaborated(branch.1, in_fn, cx, depth, 0, Seq::empty(), st)
            } {
                Ok(taken) => {
                    let (body, rest) = taken;
                    let out = out.push((branch.0, body));
                    let st = rest;
                    {
                        branches_elaborated_spends(branches, in_fn, cx, depth, i + 1, out, st);
                        branches_elaborated(branches, in_fn, cx, depth, i + 1, out, st)
                    }
                },
                Err(error) => Err(error),
            }
        }
    };
}

proof fn choice_elaborated_spends(
    branches: Seq<(ExprView, Seq<StmtView>)>,
    in_fn: bool,
    cx: CtContextView,
    depth: u32,
    i: nat,
    st: ElabStateView,
)
    ensures
        match choice_elaborated(branches, in_fn, cx, depth, i, st) {
            Ok(done) => done.1.fuel <= st.fuel,
            Err(_) => true,
        },
    decreases depth, branches, (branches.len() - i) as nat,
{
    reveal(fuel_set);
    let _ = {
        if i >= branches.len() {
            Ok((None, st))
        } else {
            let branch = branches[i as int];
            match {
                evaluated_spends(branch.0, st.env, cx, st.fuel, 4294967295);
                evaluated(branch.0, st.env, cx, st.fuel, 4294967295)
            } {
                Ok(out) => {
                    let (value, fuel) = out;
                    match boolean_of(value, "comptime if condition"@) {
                        Ok(out) => {
                            let holds = out;
                            let st = fuel_set(st, fuel);
                            if holds {
                                {
                                    branch_chosen_spends(branch.1, in_fn, cx, st, depth);
                                    branch_chosen(branch.1, in_fn, cx, st, depth)
                                }
                            } else {
                                {
                                    choice_elaborated_spends(branches, in_fn, cx, depth, i + 1, st);
                                    choice_elaborated(branches, in_fn, cx, depth, i + 1, st)
                                }
                            }
                        },
                        Err(error) => Err(error),
                    }
                },
                Err(error) => Err(error.error),
            }
        }
    };
}

proof fn branch_chosen_spends(
    body: Seq<StmtView>,
    in_fn: bool,
    cx: CtContextView,
    st: ElabStateView,
    depth: u32,
)
    ensures
        match branch_chosen(body, in_fn, cx, st, depth) {
            Ok(done) => done.1.fuel <= st.fuel,
            Err(_) => true,
        },
    decreases depth, body, (body.len() + 1) as nat,
{
    let _ = {
        match {
            block_elaborated_spends(body, in_fn, cx, depth, 0, Seq::empty(), st);
            block_elaborated(body, in_fn, cx, depth, 0, Seq::empty(), st)
        } {
            Ok(out) => {
                let (body, st) = out;
                Ok((Some(body), st))
            },
            Err(error) => Err(error),
        }
    };
}

proof fn if_elaborated_spends(
    kind: StmtKindView,
    in_fn: bool,
    cx: CtContextView,
    st: ElabStateView,
    depth: u32,
)
    ensures
        match if_elaborated(kind, in_fn, cx, st, depth) {
            Ok(done) => done.1.fuel <= st.fuel,
            Err(_) => true,
        },
    decreases depth, kind, 0nat,
{
    let _ = {
        match kind {
            StmtKindView::ComptimeIf { branches, orelse } => match {
                choice_elaborated_spends(branches, in_fn, cx, depth, 0, st);
                choice_elaborated(branches, in_fn, cx, depth, 0, st)
            } {
                Ok(out) => {
                    let (chosen, st) = out;
                    match chosen {
                        Some(body) => Ok((body, st)),
                        None => match {
                            opt_block_elaborated_spends(orelse, in_fn, cx, st, depth);
                            opt_block_elaborated(orelse, in_fn, cx, st, depth)
                        } {
                            Ok(out) => {
                                let (body, st) = out;
                                match body {
                                    Some(body) => Ok((body, st)),
                                    None => Ok((Seq::empty(), st)),
                                }
                            },
                            Err(error) => Err(error),
                        },
                    }
                },
                Err(error) => Err(error),
            },
            _ => Ok((Seq::empty(), st)),
        }
    };
}

proof fn unrolled_spends(
    values: Seq<CtValueView>,
    var: Seq<char>,
    body: Seq<StmtView>,
    in_fn: bool,
    cx: CtContextView,
    depth: u32,
    i: nat,
    out: Seq<StmtView>,
    st: ElabStateView,
)
    requires
        i <= values.len(),
    ensures
        match unrolled(values, var, body, in_fn, cx, depth, i, out, st) {
            Ok(done) => done.1.fuel + (values.len() - i) <= st.fuel,
            Err(_) => true,
        },
    decreases depth, values, (values.len() - i) as nat,
{
    reveal(fuel_set);
    let _ = {
        if i >= values.len() {
            Ok((out, st))
        } else {
            let value = values[i as int];
            match {
                burnt_spends(st.fuel);
                burnt(st.fuel)
            } {
                Ok(taken) => {
                    let fuel = taken;
                    let st = fuel_set(st, fuel);
                    if depth == 0 {
                        Err(nested_too_deep())
                    } else {
                        let copy = rewritten_stmt_list(
                            body,
                            subs_of_loop(var, value),
                            false,
                            0,
                            Seq::empty(),
                        );
                        match {
                            block_elaborated_spends(copy, in_fn, cx, (depth - 1) as u32, 0, Seq::empty(), st);
                            block_elaborated(copy, in_fn, cx, (depth - 1) as u32, 0, Seq::empty(), st)
                        } {
                            Ok(taken) => {
                                let (made, rest) = taken;
                                let out = (out + made);
                                let st = rest;
                                {
                                    unrolled_spends(values, var, body, in_fn, cx, depth, i + 1, out, st);
                                    unrolled(values, var, body, in_fn, cx, depth, i + 1, out, st)
                                }
                            },
                            Err(error) => Err(error),
                        }
                    }
                },
                Err(error) => Err(error),
            }
        }
    };
}

proof fn for_elaborated_spends(
    var: Seq<char>,
    iter: ExprView,
    body: Seq<StmtView>,
    in_fn: bool,
    cx: CtContextView,
    st: ElabStateView,
    depth: u32,
)
    ensures
        match for_elaborated(var, iter, body, in_fn, cx, st, depth) {
            Ok(done) => done.1.fuel <= st.fuel,
            Err(_) => true,
        },
    decreases depth, iter, 0nat,
{
    reveal(fuel_set);
    let _ = {
        match {
            evaluated_iter_spends(iter, st.env, cx, st.fuel, 4294967295);
            evaluated_iter(iter, st.env, cx, st.fuel, 4294967295)
        } {
            Ok(out) => {
                let (values, fuel) = out;
                if depth > 0 {
                    {
                        unrolled_spends(values, var, body, in_fn, cx, (depth - 1) as u32, 0, Seq::empty(), fuel_set(st, fuel));
                        unrolled(values, var, body, in_fn, cx, (depth - 1) as u32, 0, Seq::empty(), fuel_set(st, fuel))
                    }
                } else {
                    Err(nested_too_deep())
                }
            },
            Err(error) => Err(error.error),
        }
    };
}

proof fn methods_elaborated_spends(
    methods: Seq<MethodView>,
    cx: CtContextView,
    depth: u32,
    i: nat,
    out: Seq<MethodView>,
    st: ElabStateView,
)
    ensures
        match methods_elaborated(methods, cx, depth, i, out, st) {
            Ok(done) => done.1.fuel <= st.fuel,
            Err(_) => true,
        },
    decreases depth, methods, (methods.len() - i) as nat,
{
    let _ = {
        if i >= methods.len() {
            Ok((out, st))
        } else {
            let method = methods[i as int];
            match {
                method_elaborated_spends(method, cx, st, depth);
                method_elaborated(method, cx, st, depth)
            } {
                Ok(taken) => {
                    let (made, rest) = taken;
                    let out = out.push(made);
                    let st = rest;
                    {
                        methods_elaborated_spends(methods, cx, depth, i + 1, out, st);
                        methods_elaborated(methods, cx, depth, i + 1, out, st)
                    }
                },
                Err(error) => Err(error),
            }
        }
    };
}

proof fn method_elaborated_spends(
    method: MethodView,
    cx: CtContextView,
    st: ElabStateView,
    depth: u32,
)
    ensures
        match method_elaborated(method, cx, st, depth) {
            Ok(done) => done.1.fuel <= st.fuel,
            Err(_) => true,
        },
    decreases depth, method, 0nat,
{
    let _ = {
        match {
            block_elaborated_spends(method.body, true, cx, depth, 0, Seq::empty(), st);
            block_elaborated(method.body, true, cx, depth, 0, Seq::empty(), st)
        } {
            Ok(out) => {
                let (body, st) = out;
                Ok(
                    (
                        MethodView {
                            name: method.name,
                            has_self: method.has_self,
                            self_convention: method.self_convention,
                            params: method.params,
                            positional_only: method.positional_only,
                            keyword_only: method.keyword_only,
                            raises_type: method.raises_type,
                            ret: method.ret,
                            body,
                        },
                        st,
                    )
                )
            },
            Err(error) => Err(error),
        }
    };
}

proof fn stmt_elaborated_spends(
    stmt: StmtView,
    in_fn: bool,
    cx: CtContextView,
    st: ElabStateView,
    depth: u32,
)
    ensures
        match stmt_elaborated(stmt, in_fn, cx, st, depth) {
            Ok(done) => done.1.fuel <= st.fuel,
            Err(_) => true,
        },
    decreases depth, stmt, 0nat,
{
    reveal(fuel_set);
    let _ = {
        match stmt.kind {
            StmtKindView::Comptime { name, value } => match {
                evaluated_spends(value, st.env, cx, st.fuel, 4294967295);
                evaluated(value, st.env, cx, st.fuel, 4294967295)
            } {
                Ok(out) => {
                    let (value, fuel) = out;
                    Ok({
                        constant_elaborated_spends(name, value, stmt.span, in_fn, fuel_set(st, fuel));
                        constant_elaborated(name, value, stmt.span, in_fn, fuel_set(st, fuel))
                    })
                },
                Err(error) => Err(error.error),
            },
            StmtKindView::ComptimeIf { .. } => {
                if_elaborated_spends(stmt.kind, in_fn, cx, st, depth);
                if_elaborated(stmt.kind, in_fn, cx, st, depth)
            },
            StmtKindView::ComptimeFor { var, iter, body } => if depth > 0 {
                {
                    for_elaborated_spends(var, iter, body, in_fn, cx, st, (depth - 1) as u32);
                    for_elaborated(var, iter, body, in_fn, cx, st, (depth - 1) as u32)
                }
            } else {
                Err(nested_too_deep())
            },
            StmtKindView::VarDecl { name, ty, value } => match annotation_resolved(ty, st.env) {
                Ok(out) => {
                    let ty = out;
                    Ok((single(StmtKindView::VarDecl { name, ty, value }, stmt.span), st))
                },
                Err(error) => Err(error),
            },
            StmtKindView::With { items, body } => match {
                block_elaborated_spends(body, in_fn, cx, depth, 0, Seq::empty(), st);
                block_elaborated(body, in_fn, cx, depth, 0, Seq::empty(), st)
            } {
                Ok(out) => {
                    let (body, st) = out;
                    Ok((inside_managers(items, items.len() as usize, body, stmt.span), st))
                },
                Err(error) => Err(error),
            },
            StmtKindView::If { .. } => {
                compound_elaborated_spends(stmt.kind, stmt.span, in_fn, cx, st, depth);
                compound_elaborated(stmt.kind, stmt.span, in_fn, cx, st, depth)
            },
            StmtKindView::While { .. } => {
                compound_elaborated_spends(stmt.kind, stmt.span, in_fn, cx, st, depth);
                compound_elaborated(stmt.kind, stmt.span, in_fn, cx, st, depth)
            },
            StmtKindView::For { .. } => {
                compound_elaborated_spends(stmt.kind, stmt.span, in_fn, cx, st, depth);
                compound_elaborated(stmt.kind, stmt.span, in_fn, cx, st, depth)
            },
            StmtKindView::Try { .. } => {
                try_elaborated_spends(stmt.kind, stmt.span, in_fn, cx, st, depth);
                try_elaborated(stmt.kind, stmt.span, in_fn, cx, st, depth)
            },
            StmtKindView::Def { name, .. } => if template_named(cx.templates, name, 0, None) is Some {
                Ok((seq![stmt], st))
            } else {
                {
                    def_elaborated_spends(stmt.kind, stmt.span, cx, st, depth);
                    def_elaborated(stmt.kind, stmt.span, cx, st, depth)
                }
            },
            StmtKindView::Struct { .. } => {
                def_elaborated_spends(stmt.kind, stmt.span, cx, st, depth);
                def_elaborated(stmt.kind, stmt.span, cx, st, depth)
            },
            _ => Ok((seq![stmt], st)),
        }
    };
}

proof fn compound_elaborated_spends(
    kind: StmtKindView,
    span: Span,
    in_fn: bool,
    cx: CtContextView,
    st: ElabStateView,
    depth: u32,
)
    ensures
        match compound_elaborated(kind, span, in_fn, cx, st, depth) {
            Ok(done) => done.1.fuel <= st.fuel,
            Err(_) => true,
        },
    decreases depth, kind, 0nat,
{
    let _ = {
        match kind {
            StmtKindView::If { branches, orelse } => match {
                branches_elaborated_spends(branches, in_fn, cx, depth, 0, Seq::empty(), st);
                branches_elaborated(branches, in_fn, cx, depth, 0, Seq::empty(), st)
            } {
                Ok(out) => {
                    let (branches, st) = out;
                    match {
                        opt_block_elaborated_spends(orelse, in_fn, cx, st, depth);
                        opt_block_elaborated(orelse, in_fn, cx, st, depth)
                    } {
                        Ok(out) => {
                            let (orelse, st) = out;
                            Ok((single(StmtKindView::If { branches, orelse }, span), st))
                        },
                        Err(error) => Err(error),
                    }
                },
                Err(error) => Err(error),
            },
            StmtKindView::While { cond, body, orelse } => match {
                block_elaborated_spends(body, in_fn, cx, depth, 0, Seq::empty(), st);
                block_elaborated(body, in_fn, cx, depth, 0, Seq::empty(), st)
            } {
                Ok(out) => {
                    let (body, st) = out;
                    match {
                        opt_block_elaborated_spends(orelse, in_fn, cx, st, depth);
                        opt_block_elaborated(orelse, in_fn, cx, st, depth)
                    } {
                        Ok(out) => {
                            let (orelse, st) = out;
                            Ok((single(StmtKindView::While { cond, body, orelse }, span), st))
                        },
                        Err(error) => Err(error),
                    }
                },
                Err(error) => Err(error),
            },
            StmtKindView::For {
                var,
                reference,
                owned,
                iter,
                body,
                orelse,
            } => match {
                block_elaborated_spends(body, in_fn, cx, depth, 0, Seq::empty(), st);
                block_elaborated(body, in_fn, cx, depth, 0, Seq::empty(), st)
            } {
                Ok(out) => {
                    let (body, st) = out;
                    match {
                        opt_block_elaborated_spends(orelse, in_fn, cx, st, depth);
                        opt_block_elaborated(orelse, in_fn, cx, st, depth)
                    } {
                        Ok(out) => {
                            let (orelse, st) = out;
                            Ok(
                                (
                                    single(
                                        StmtKindView::For { var, reference, owned, iter, body, orelse },
                                        span,
                                    ),
                                    st,
                                )
                            )
                        },
                        Err(error) => Err(error),
                    }
                },
                Err(error) => Err(error),
            },
            _ => Ok((Seq::empty(), st)),
        }
    };
}

proof fn handler_elaborated_spends(
    except: Option<(Option<Seq<char>>, Seq<StmtView>)>,
    in_fn: bool,
    cx: CtContextView,
    st: ElabStateView,
    depth: u32,
)
    ensures
        match handler_elaborated(except, in_fn, cx, st, depth) {
            Ok(done) => done.1.fuel <= st.fuel,
            Err(_) => true,
        },
    decreases depth, except, 0nat,
{
    let _ = {
        match except {
            Some((name, body)) => match {
                block_elaborated_spends(body, in_fn, cx, depth, 0, Seq::empty(), st);
                block_elaborated(body, in_fn, cx, depth, 0, Seq::empty(), st)
            } {
                Ok(out) => {
                    let (body, st) = out;
                    Ok((Some((name, body)), st))
                },
                Err(error) => Err(error),
            },
            None => Ok((None, st)),
        }
    };
}

proof fn try_elaborated_spends(
    kind: StmtKindView,
    span: Span,
    in_fn: bool,
    cx: CtContextView,
    st: ElabStateView,
    depth: u32,
)
    ensures
        match try_elaborated(kind, span, in_fn, cx, st, depth) {
            Ok(done) => done.1.fuel <= st.fuel,
            Err(_) => true,
        },
    decreases depth, kind, 0nat,
{
    let _ = {
        match kind {
            StmtKindView::Try { body, except, orelse, finalbody } => match {
                block_elaborated_spends(body, in_fn, cx, depth, 0, Seq::empty(), st);
                block_elaborated(body, in_fn, cx, depth, 0, Seq::empty(), st)
            } {
                Ok(out) => {
                    let (body, st) = out;
                    match {
                        handler_elaborated_spends(except, in_fn, cx, st, depth);
                        handler_elaborated(except, in_fn, cx, st, depth)
                    } {
                        Ok(out) => {
                            let (except, st) = out;
                            match {
                                opt_block_elaborated_spends(orelse, in_fn, cx, st, depth);
                                opt_block_elaborated(orelse, in_fn, cx, st, depth)
                            } {
                                Ok(out) => {
                                    let (orelse, st) = out;
                                    match {
                                        opt_block_elaborated_spends(finalbody, in_fn, cx, st, depth);
                                        opt_block_elaborated(finalbody, in_fn, cx, st, depth)
                                    } {
                                        Ok(out) => {
                                            let (finalbody, st) = out;
                                            Ok(
                                                (
                                                    single(
                                                        StmtKindView::Try {
                                                            body,
                                                            except,
                                                            orelse,
                                                            finalbody,
                                                        },
                                                        span,
                                                    ),
                                                    st,
                                                )
                                            )
                                        },
                                        Err(error) => Err(error),
                                    }
                                },
                                Err(error) => Err(error),
                            }
                        },
                        Err(error) => Err(error),
                    }
                },
                Err(error) => Err(error),
            },
            _ => Ok((Seq::empty(), st)),
        }
    };
}

proof fn def_elaborated_spends(
    kind: StmtKindView,
    span: Span,
    cx: CtContextView,
    st: ElabStateView,
    depth: u32,
)
    ensures
        match def_elaborated(kind, span, cx, st, depth) {
            Ok(done) => done.1.fuel <= st.fuel,
            Err(_) => true,
        },
    decreases depth, kind, 0nat,
{
    let _ = {
        match kind {
            StmtKindView::Def {
                name,
                decorators,
                type_params,
                params,
                positional_only,
                keyword_only,
                captures,
                raises,
                raises_type,
                ret,
                where_clause,
                body,
            } => match {
                block_elaborated_spends(body, true, cx, depth, 0, Seq::empty(), st);
                block_elaborated(body, true, cx, depth, 0, Seq::empty(), st)
            } {
                Ok(out) => {
                    let (new_body, st) = out;
                    Ok(
                        (
                            single(
                                StmtKindView::Def {
                                    name,
                                    decorators,
                                    type_params,
                                    params,
                                    positional_only,
                                    keyword_only,
                                    captures,
                                    raises,
                                    raises_type,
                                    ret,
                                    where_clause,
                                    body: new_body,
                                },
                                span,
                            ),
                            st,
                        )
                    )
                },
                Err(error) => Err(error),
            },
            StmtKindView::Struct {
                name,
                decorators,
                type_params,
                conforms,
                callable_conformance,
                conformance_conditions,
                fields,
                associated,
                methods,
                fieldwise_init,
            } => match {
                methods_elaborated_spends(methods, cx, depth, 0, Seq::empty(), st);
                methods_elaborated(methods, cx, depth, 0, Seq::empty(), st)
            } {
                Ok(out) => {
                    let (new_methods, st) = out;
                    Ok(
                        (
                            single(
                                StmtKindView::Struct {
                                    name,
                                    decorators,
                                    type_params,
                                    conforms,
                                    callable_conformance,
                                    conformance_conditions,
                                    fields,
                                    associated,
                                    methods: new_methods,
                                    fieldwise_init,
                                },
                                span,
                            ),
                            st,
                        )
                    )
                },
                Err(error) => Err(error),
            },
            _ => Ok((Seq::empty(), st)),
        }
    };
}

/// Evaluation at compile time never adds to the steps that are left, whether it ends or
/// stops.
pub proof fn evaluation_spends(
    e: ExprView,
    scope: Seq<(Seq<char>, CtValueView)>,
    cx: CtContextView,
    fuel: usize,
    depth: u32,
)
    ensures
        match evaluated(e, scope, cx, fuel, depth) {
            Ok(done) => done.1 <= fuel,
            Err(stop) => stop.fuel <= fuel,
        },
{
    evaluated_spends(e, scope, cx, fuel, depth);
}

/// Each round of a loop that is unrolled costs a step: no more rounds come out than steps
/// were left.
pub proof fn rounds_cost_steps(
    values: Seq<CtValueView>,
    var: Seq<char>,
    body: Seq<StmtView>,
    in_fn: bool,
    cx: CtContextView,
    depth: u32,
    st: ElabStateView,
)
    ensures
        match unrolled(values, var, body, in_fn, cx, depth, 0, Seq::empty(), st) {
            Ok(done) => done.1.fuel + values.len() <= st.fuel,
            Err(_) => true,
        },
{
    unrolled_spends(values, var, body, in_fn, cx, depth, 0, Seq::empty(), st);
}

} // verus!
