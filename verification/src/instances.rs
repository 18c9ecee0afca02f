//! Each template stands as its specializations.

use crate::ast::{
    ComprehensionClauseView, Expr, ExprKindView, ExprView, InfixOp, KwArgView, MethodView,
    ParamArgView, StmtKindView, StmtView, SubscriptArgView, WithItemView,
};
use crate::elab::{
    ComptimeErrorView, CtContextView, TemplateView, burnt, past_quota, template_named,
};
use crate::elaborate::unplaced;
use crate::flatten::following_index;
use crate::growth::starts_with;
use crate::mangle::mangled;
use crate::mono::{
    JobView, MadeView, MonoView, asked, call_specialized, decls_of_template, expr_site,
    resolved_spec, specialized_branch_list, specialized_comparison_list,
    specialized_comprehension_clause, specialized_comprehension_clause_list, specialized_entry_list,
    specialized_expr, specialized_expr_kind, specialized_expr_kind_further,
    specialized_expr_kind_more, specialized_expr_list, specialized_kw_arg, specialized_kw_arg_list,
    specialized_method, specialized_method_list, specialized_opt_boxed_expr, specialized_opt_expr,
    specialized_opt_opt_string_stmt_list, specialized_opt_stmt_list, specialized_stmt,
    specialized_stmt_kind, specialized_stmt_kind_further, specialized_stmt_kind_more,
    specialized_stmt_kind_rest, specialized_stmt_list, specialized_subscript_arg,
    specialized_subscript_arg_list, specialized_with_item, specialized_with_item_list,
};
use crate::specialize::{
    and_made, and_spec, drained, monomorphized, program_specialized, spec_generated, spec_made,
    specialized_unless_template, specs_reversed, templates_replaced,
};
use crate::types::CtValueView;
use vstd::prelude::*;

verus! {

/// The name of the specialization that a job asks for.
pub open spec fn job_name(job: JobView) -> Seq<char> {
    mangled(job.vals, 0, job.orig)
}

/// Whether no specialization is asked for twice.
pub open spec fn asked_once(jobs: Seq<JobView>) -> bool {
    forall|i: int, j: int|
        0 <= i < j < jobs.len() ==> job_name(#[trigger] jobs[i]) != job_name(#[trigger] jobs[j])
}

/// Whether the names that were asked for are those of the jobs, each one once.
pub open spec fn orderly(mono: MonoView) -> bool {
    &&& mono.done.len() == mono.queue.len()
    &&& forall|k: int|
        0 <= k < mono.queue.len() ==> mono.done[k] == job_name(#[trigger] mono.queue[k])
    &&& asked_once(mono.queue)
}

/// Whether jobs were only added, none of them twice.
pub open spec fn asked_on(from: MonoView, mono: MonoView) -> bool {
    orderly(mono) && starts_with(mono.queue, from.queue)
}

/// Whether a specialization is what a job asks for: a def under the job's name.
pub open spec fn stands_for(made: MadeView, job: JobView) -> bool {
    &&& made.orig == job.orig
    &&& match made.def.kind {
        StmtKindView::Def { name, .. } => name == job_name(job),
        _ => false,
    }
}

/// Whether the specializations are one for each job.
pub open spec fn made_for(made: Seq<MadeView>, jobs: Seq<JobView>) -> bool {
    &&& made.len() == jobs.len()
    &&& forall|k: int| 0 <= k < jobs.len() ==> stands_for(#[trigger] made[k], jobs[k])
}

proof fn asked_asks(
    from: MonoView,
    mono: MonoView,
    mangled_name: Seq<char>,
    name: Seq<char>,
    vals: Seq<CtValueView>,
    site: Seq<char>,
    fuel: usize,
)
    requires
        asked_on(from, mono),
        mangled_name == mangled(vals, 0, name),
    ensures
        asked_on(from, asked(mono, mangled_name, name, vals, site, fuel)),
{
    reveal(asked);
    let next = asked(mono, mangled_name, name, vals, site, fuel);
    if !mono.done.contains(mangled_name) {
        assert forall|i: int, j: int| 0 <= i < j < next.queue.len() implies job_name(
            #[trigger] next.queue[i],
        ) != job_name(#[trigger] next.queue[j]) by {
            assert(next.queue[i] == mono.queue[i]);
            if j < mono.queue.len() {
                assert(next.queue[j] == mono.queue[j]);
            } else {
                assert(mono.done[i] == job_name(mono.queue[i]));
            }
        }
    }
}

proof fn call_specialized_asks(
    from: MonoView,
    name: Seq<char>,
    param_args: Seq<ParamArgView>,
    args: Seq<ExprView>,
    kwargs: Seq<KwArgView>,
    site: Seq<char>,
    consts: Seq<(Seq<char>, CtValueView)>,
    cx: CtContextView,
    mono: MonoView,
)
    requires
        asked_on(from, mono),
    ensures
        match call_specialized(name, param_args, args, kwargs, site, consts, cx, mono) {
            Ok(done) => asked_on(from, done.1),
            Err(_) => true,
        },
{
    reveal(call_specialized);
    let _ = {
        match template_named(cx.templates, name, 0, None) {
            Some(template) => match decls_of_template(template) {
                Ok(out) => {
                    let decls = out;
                    match resolved_spec(name, decls, param_args, args, consts, cx, mono.fuel) {
                        Ok(out) => {
                            let (found, fuel) = out;
                            let special = mangled(found.vals, 0, name);
                            let mono = {
                                asked_asks(from, mono, special, name, found.vals, site, fuel);
                                asked(mono, special, name, found.vals, site, fuel)
                            };
                            Ok(
                                (
                                    ExprKindView::Call {
                                        name: special,
                                        param_args: found.kept,
                                        args,
                                        kwargs,
                                    },
                                    mono,
                                )
                            )
                        },
                        Err(error) => Err(error),
                    }
                },
                Err(error) => Err(error),
            },
            None => Ok((ExprKindView::Call { name, param_args, args, kwargs }, mono)),
        }
    };
}

proof fn specialized_expr_asks(
    from: MonoView,
    expr: ExprView,
    consts: Seq<(Seq<char>, CtValueView)>,
    cx: CtContextView,
    mono: MonoView,
)
    requires
        asked_on(from, mono),
    ensures
        match specialized_expr(expr, consts, cx, mono) {
            Ok(done) => asked_on(from, done.1),
            Err(_) => true,
        },
    decreases expr, 0nat,
{
    let _ = {
        let site = expr_site(expr);
        match {
            specialized_expr_kind_asks(from, expr.kind, site, consts, cx, mono);
            specialized_expr_kind(expr.kind, site, consts, cx, mono)
        } {
            Ok(out) => {
                let (kind, mono) = out;
                Ok((ExprView { kind, span: expr.span, source: expr.source }, mono))
            },
            Err(error) => Err(error),
        }
    };
}

proof fn specialized_comprehension_clause_asks(
    from: MonoView,
    comprehension_clause: ComprehensionClauseView,
    consts: Seq<(Seq<char>, CtValueView)>,
    cx: CtContextView,
    mono: MonoView,
)
    requires
        asked_on(from, mono),
    ensures
        match specialized_comprehension_clause(comprehension_clause, consts, cx, mono) {
            Ok(done) => asked_on(from, done.1),
            Err(_) => true,
        },
    decreases comprehension_clause, 0nat,
{
    let _ = {
        match comprehension_clause {
            ComprehensionClauseView::For { var, owned, iter } => match {
                specialized_expr_asks(from, *iter, consts, cx, mono);
                specialized_expr(*iter, consts, cx, mono)
            } {
                Ok(out) => {
                    let (new_iter, mono) = out;
                    Ok((ComprehensionClauseView::For { var, owned, iter: Box::new(new_iter) }, mono))
                },
                Err(error) => Err(error),
            },
            ComprehensionClauseView::If(a0) => match {
                specialized_expr_asks(from, *a0, consts, cx, mono);
                specialized_expr(*a0, consts, cx, mono)
            } {
                Ok(out) => {
                    let (new_a0, mono) = out;
                    Ok((ComprehensionClauseView::If(Box::new(new_a0)), mono))
                },
                Err(error) => Err(error),
            },
        }
    };
}

proof fn specialized_comprehension_clause_list_asks(
    from: MonoView,
    items: Seq<ComprehensionClauseView>,
    consts: Seq<(Seq<char>, CtValueView)>,
    cx: CtContextView,
    i: nat,
    out: Seq<ComprehensionClauseView>,
    mono: MonoView,
)
    requires
        asked_on(from, mono),
    ensures
        match specialized_comprehension_clause_list(items, consts, cx, i, out, mono) {
            Ok(done) => asked_on(from, done.1),
            Err(_) => true,
        },
    decreases items, (items.len() - i) as nat,
{
    let _ = {
        if i >= items.len() {
            Ok((out, mono))
        } else {
            let item = items[i as int];
            match {
                specialized_comprehension_clause_asks(from, item, consts, cx, mono);
                specialized_comprehension_clause(item, consts, cx, mono)
            } {
                Ok(taken) => {
                    let (mapped, rest) = taken;
                    let mono = rest;
                    let out = out.push(mapped);
                    {
                        specialized_comprehension_clause_list_asks(from, items, consts, cx, i + 1, out, mono);
                        specialized_comprehension_clause_list(items, consts, cx, i + 1, out, mono)
                    }
                },
                Err(error) => Err(error),
            }
        }
    };
}

proof fn specialized_opt_boxed_expr_asks(
    from: MonoView,
    value: Option<Box<ExprView>>,
    consts: Seq<(Seq<char>, CtValueView)>,
    cx: CtContextView,
    mono: MonoView,
)
    requires
        asked_on(from, mono),
    ensures
        match specialized_opt_boxed_expr(value, consts, cx, mono) {
            Ok(done) => asked_on(from, done.1),
            Err(_) => true,
        },
    decreases value, 0nat,
{
    let _ = {
        match value {
            Some(value) => match {
                specialized_expr_asks(from, *value, consts, cx, mono);
                specialized_expr(*value, consts, cx, mono)
            } {
                Ok(out) => {
                    let (mapped, mono) = out;
                    Ok((Some(Box::new(mapped)), mono))
                },
                Err(error) => Err(error),
            },
            None => Ok((None, mono)),
        }
    };
}

proof fn specialized_kw_arg_asks(
    from: MonoView,
    kw_arg: KwArgView,
    consts: Seq<(Seq<char>, CtValueView)>,
    cx: CtContextView,
    mono: MonoView,
)
    requires
        asked_on(from, mono),
    ensures
        match specialized_kw_arg(kw_arg, consts, cx, mono) {
            Ok(done) => asked_on(from, done.1),
            Err(_) => true,
        },
    decreases kw_arg, 0nat,
{
    let _ = {
        match {
            specialized_expr_asks(from, kw_arg.value, consts, cx, mono);
            specialized_expr(kw_arg.value, consts, cx, mono)
        } {
            Ok(out) => {
                let (new_value, mono) = out;
                Ok((KwArgView { name: kw_arg.name, value: new_value }, mono))
            },
            Err(error) => Err(error),
        }
    };
}

proof fn specialized_kw_arg_list_asks(
    from: MonoView,
    items: Seq<KwArgView>,
    consts: Seq<(Seq<char>, CtValueView)>,
    cx: CtContextView,
    i: nat,
    out: Seq<KwArgView>,
    mono: MonoView,
)
    requires
        asked_on(from, mono),
    ensures
        match specialized_kw_arg_list(items, consts, cx, i, out, mono) {
            Ok(done) => asked_on(from, done.1),
            Err(_) => true,
        },
    decreases items, (items.len() - i) as nat,
{
    let _ = {
        if i >= items.len() {
            Ok((out, mono))
        } else {
            let item = items[i as int];
            match {
                specialized_kw_arg_asks(from, item, consts, cx, mono);
                specialized_kw_arg(item, consts, cx, mono)
            } {
                Ok(taken) => {
                    let (mapped, rest) = taken;
                    let mono = rest;
                    let out = out.push(mapped);
                    {
                        specialized_kw_arg_list_asks(from, items, consts, cx, i + 1, out, mono);
                        specialized_kw_arg_list(items, consts, cx, i + 1, out, mono)
                    }
                },
                Err(error) => Err(error),
            }
        }
    };
}

proof fn specialized_expr_list_asks(
    from: MonoView,
    items: Seq<ExprView>,
    consts: Seq<(Seq<char>, CtValueView)>,
    cx: CtContextView,
    i: nat,
    out: Seq<ExprView>,
    mono: MonoView,
)
    requires
        asked_on(from, mono),
    ensures
        match specialized_expr_list(items, consts, cx, i, out, mono) {
            Ok(done) => asked_on(from, done.1),
            Err(_) => true,
        },
    decreases items, (items.len() - i) as nat,
{
    let _ = {
        if i >= items.len() {
            Ok((out, mono))
        } else {
            let item = items[i as int];
            match {
                specialized_expr_asks(from, item, consts, cx, mono);
                specialized_expr(item, consts, cx, mono)
            } {
                Ok(taken) => {
                    let (mapped, rest) = taken;
                    let mono = rest;
                    let out = out.push(mapped);
                    {
                        specialized_expr_list_asks(from, items, consts, cx, i + 1, out, mono);
                        specialized_expr_list(items, consts, cx, i + 1, out, mono)
                    }
                },
                Err(error) => Err(error),
            }
        }
    };
}

proof fn specialized_subscript_arg_asks(
    from: MonoView,
    subscript_arg: SubscriptArgView,
    consts: Seq<(Seq<char>, CtValueView)>,
    cx: CtContextView,
    mono: MonoView,
)
    requires
        asked_on(from, mono),
    ensures
        match specialized_subscript_arg(subscript_arg, consts, cx, mono) {
            Ok(done) => asked_on(from, done.1),
            Err(_) => true,
        },
    decreases subscript_arg, 0nat,
{
    let _ = {
        match subscript_arg {
            SubscriptArgView::Index(a0) => match {
                specialized_expr_asks(from, a0, consts, cx, mono);
                specialized_expr(a0, consts, cx, mono)
            } {
                Ok(out) => {
                    let (new_a0, mono) = out;
                    Ok((SubscriptArgView::Index(new_a0), mono))
                },
                Err(error) => Err(error),
            },
            SubscriptArgView::Slice { lower, upper, step } => match {
                specialized_opt_boxed_expr_asks(from, lower, consts, cx, mono);
                specialized_opt_boxed_expr(lower, consts, cx, mono)
            } {
                Ok(out) => {
                    let (new_lower, mono) = out;
                    match {
                        specialized_opt_boxed_expr_asks(from, upper, consts, cx, mono);
                        specialized_opt_boxed_expr(upper, consts, cx, mono)
                    } {
                        Ok(out) => {
                            let (new_upper, mono) = out;
                            match {
                                specialized_opt_boxed_expr_asks(from, step, consts, cx, mono);
                                specialized_opt_boxed_expr(step, consts, cx, mono)
                            } {
                                Ok(out) => {
                                    let (new_step, mono) = out;
                                    Ok(
                                        (
                                            SubscriptArgView::Slice {
                                                lower: new_lower,
                                                upper: new_upper,
                                                step: new_step,
                                            },
                                            mono,
                                        )
                                    )
                                },
                                Err(error) => Err(error),
                            }
                        },
                        Err(error) => Err(error),
                    }
                },
                Err(error) => Err(error),
            },
        }
    };
}

proof fn specialized_subscript_arg_list_asks(
    from: MonoView,
    items: Seq<SubscriptArgView>,
    consts: Seq<(Seq<char>, CtValueView)>,
    cx: CtContextView,
    i: nat,
    out: Seq<SubscriptArgView>,
    mono: MonoView,
)
    requires
        asked_on(from, mono),
    ensures
        match specialized_subscript_arg_list(items, consts, cx, i, out, mono) {
            Ok(done) => asked_on(from, done.1),
            Err(_) => true,
        },
    decreases items, (items.len() - i) as nat,
{
    let _ = {
        if i >= items.len() {
            Ok((out, mono))
        } else {
            let item = items[i as int];
            match {
                specialized_subscript_arg_asks(from, item, consts, cx, mono);
                specialized_subscript_arg(item, consts, cx, mono)
            } {
                Ok(taken) => {
                    let (mapped, rest) = taken;
                    let mono = rest;
                    let out = out.push(mapped);
                    {
                        specialized_subscript_arg_list_asks(from, items, consts, cx, i + 1, out, mono);
                        specialized_subscript_arg_list(items, consts, cx, i + 1, out, mono)
                    }
                },
                Err(error) => Err(error),
            }
        }
    };
}

proof fn specialized_comparison_list_asks(
    from: MonoView,
    items: Seq<(InfixOp, ExprView)>,
    consts: Seq<(Seq<char>, CtValueView)>,
    cx: CtContextView,
    i: nat,
    out: Seq<(InfixOp, ExprView)>,
    mono: MonoView,
)
    requires
        asked_on(from, mono),
    ensures
        match specialized_comparison_list(items, consts, cx, i, out, mono) {
            Ok(done) => asked_on(from, done.1),
            Err(_) => true,
        },
    decreases items, (items.len() - i) as nat,
{
    let _ = {
        if i >= items.len() {
            Ok((out, mono))
        } else {
            let item = items[i as int];
            match {
                specialized_expr_asks(from, item.1, consts, cx, mono);
                specialized_expr(item.1, consts, cx, mono)
            } {
                Ok(taken) => {
                    let (mapped_1, rest) = taken;
                    let mono = rest;
                    let out = out.push((item.0, mapped_1));
                    {
                        specialized_comparison_list_asks(from, items, consts, cx, i + 1, out, mono);
                        specialized_comparison_list(items, consts, cx, i + 1, out, mono)
                    }
                },
                Err(error) => Err(error),
            }
        }
    };
}

proof fn specialized_opt_expr_asks(
    from: MonoView,
    value: Option<ExprView>,
    consts: Seq<(Seq<char>, CtValueView)>,
    cx: CtContextView,
    mono: MonoView,
)
    requires
        asked_on(from, mono),
    ensures
        match specialized_opt_expr(value, consts, cx, mono) {
            Ok(done) => asked_on(from, done.1),
            Err(_) => true,
        },
    decreases value, 0nat,
{
    let _ = {
        match value {
            Some(value) => match {
                specialized_expr_asks(from, value, consts, cx, mono);
                specialized_expr(value, consts, cx, mono)
            } {
                Ok(out) => {
                    let (mapped, mono) = out;
                    Ok((Some(mapped), mono))
                },
                Err(error) => Err(error),
            },
            None => Ok((None, mono)),
        }
    };
}

proof fn specialized_entry_list_asks(
    from: MonoView,
    items: Seq<(ExprView, Option<ExprView>)>,
    consts: Seq<(Seq<char>, CtValueView)>,
    cx: CtContextView,
    i: nat,
    out: Seq<(ExprView, Option<ExprView>)>,
    mono: MonoView,
)
    requires
        asked_on(from, mono),
    ensures
        match specialized_entry_list(items, consts, cx, i, out, mono) {
            Ok(done) => asked_on(from, done.1),
            Err(_) => true,
        },
    decreases items, (items.len() - i) as nat,
{
    let _ = {
        if i >= items.len() {
            Ok((out, mono))
        } else {
            let item = items[i as int];
            match {
                specialized_expr_asks(from, item.0, consts, cx, mono);
                specialized_expr(item.0, consts, cx, mono)
            } {
                Ok(taken) => {
                    let (mapped_0, rest) = taken;
                    let mono = rest;
                    match {
                        specialized_opt_expr_asks(from, item.1, consts, cx, mono);
                        specialized_opt_expr(item.1, consts, cx, mono)
                    } {
                        Ok(taken) => {
                            let (mapped_1, rest) = taken;
                            let mono = rest;
                            let out = out.push((mapped_0, mapped_1));
                            {
                                specialized_entry_list_asks(from, items, consts, cx, i + 1, out, mono);
                                specialized_entry_list(items, consts, cx, i + 1, out, mono)
                            }
                        },
                        Err(error) => Err(error),
                    }
                },
                Err(error) => Err(error),
            }
        }
    };
}

proof fn specialized_expr_kind_asks(
    from: MonoView,
    expr_kind: ExprKindView,
    site: Seq<char>,
    consts: Seq<(Seq<char>, CtValueView)>,
    cx: CtContextView,
    mono: MonoView,
)
    requires
        asked_on(from, mono),
    ensures
        match specialized_expr_kind(expr_kind, site, consts, cx, mono) {
            Ok(done) => asked_on(from, done.1),
            Err(_) => true,
        },
    decreases expr_kind, 2nat,
{
    let _ = {
        match expr_kind {
            ExprKindView::Prefix(a0, a1) => match {
                specialized_expr_asks(from, *a1, consts, cx, mono);
                specialized_expr(*a1, consts, cx, mono)
            } {
                Ok(out) => {
                    let (new_a1, mono) = out;
                    Ok((ExprKindView::Prefix(a0, Box::new(new_a1)), mono))
                },
                Err(error) => Err(error),
            },
            ExprKindView::Transfer(a0) => match {
                specialized_expr_asks(from, *a0, consts, cx, mono);
                specialized_expr(*a0, consts, cx, mono)
            } {
                Ok(out) => {
                    let (new_a0, mono) = out;
                    Ok((ExprKindView::Transfer(Box::new(new_a0)), mono))
                },
                Err(error) => Err(error),
            },
            ExprKindView::Spread(a0) => match {
                specialized_expr_asks(from, *a0, consts, cx, mono);
                specialized_expr(*a0, consts, cx, mono)
            } {
                Ok(out) => {
                    let (new_a0, mono) = out;
                    Ok((ExprKindView::Spread(Box::new(new_a0)), mono))
                },
                Err(error) => Err(error),
            },
            ExprKindView::Infix(a0, a1, a2) => match {
                specialized_expr_asks(from, *a1, consts, cx, mono);
                specialized_expr(*a1, consts, cx, mono)
            } {
                Ok(out) => {
                    let (new_a1, mono) = out;
                    match {
                        specialized_expr_asks(from, *a2, consts, cx, mono);
                        specialized_expr(*a2, consts, cx, mono)
                    } {
                        Ok(out) => {
                            let (new_a2, mono) = out;
                            Ok((ExprKindView::Infix(a0, Box::new(new_a1), Box::new(new_a2)), mono))
                        },
                        Err(error) => Err(error),
                    }
                },
                Err(error) => Err(error),
            },
            ExprKindView::Compare { first, rest } => match {
                specialized_expr_asks(from, *first, consts, cx, mono);
                specialized_expr(*first, consts, cx, mono)
            } {
                Ok(out) => {
                    let (new_first, mono) = out;
                    match {
                        specialized_comparison_list_asks(from, rest, consts, cx, 0, Seq::empty(), mono);
                        specialized_comparison_list(rest, consts, cx, 0, Seq::empty(), mono)
                    } {
                        Ok(out) => {
                            let (new_rest, mono) = out;
                            Ok(
                                (
                                    ExprKindView::Compare {
                                        first: Box::new(new_first),
                                        rest: new_rest,
                                    },
                                    mono,
                                )
                            )
                        },
                        Err(error) => Err(error),
                    }
                },
                Err(error) => Err(error),
            },
            ExprKindView::Call { name, param_args, args, kwargs } => match {
                specialized_expr_list_asks(from, args, consts, cx, 0, Seq::empty(), mono);
                specialized_expr_list(args, consts, cx, 0, Seq::empty(), mono)
            } {
                Ok(out) => {
                    let (new_args, mono) = out;
                    match {
                        specialized_kw_arg_list_asks(from, kwargs, consts, cx, 0, Seq::empty(), mono);
                        specialized_kw_arg_list(kwargs, consts, cx, 0, Seq::empty(), mono)
                    } {
                        Ok(out) => {
                            let (new_kwargs, mono) = out;
                            {
                                call_specialized_asks(from, name, param_args, new_args, new_kwargs, site, consts, cx, mono);
                                call_specialized(name, param_args, new_args, new_kwargs, site, consts, cx, mono)
                            }
                        },
                        Err(error) => Err(error),
                    }
                },
                Err(error) => Err(error),
            },
            _ => {
                specialized_expr_kind_more_asks(from, expr_kind, site, consts, cx, mono);
                specialized_expr_kind_more(expr_kind, site, consts, cx, mono)
            },
        }
    };
}

proof fn specialized_expr_kind_more_asks(
    from: MonoView,
    expr_kind: ExprKindView,
    site: Seq<char>,
    consts: Seq<(Seq<char>, CtValueView)>,
    cx: CtContextView,
    mono: MonoView,
)
    requires
        asked_on(from, mono),
    ensures
        match specialized_expr_kind_more(expr_kind, site, consts, cx, mono) {
            Ok(done) => asked_on(from, done.1),
            Err(_) => true,
        },
    decreases expr_kind, 1nat,
{
    let _ = {
        match expr_kind {
            ExprKindView::Member { object, field } => match {
                specialized_expr_asks(from, *object, consts, cx, mono);
                specialized_expr(*object, consts, cx, mono)
            } {
                Ok(out) => {
                    let (new_object, mono) = out;
                    Ok((ExprKindView::Member { object: Box::new(new_object), field }, mono))
                },
                Err(error) => Err(error),
            },
            ExprKindView::MethodCall {
                object,
                method,
                args,
                kwargs,
            } => match {
                specialized_expr_asks(from, *object, consts, cx, mono);
                specialized_expr(*object, consts, cx, mono)
            } {
                Ok(out) => {
                    let (new_object, mono) = out;
                    match {
                        specialized_expr_list_asks(from, args, consts, cx, 0, Seq::empty(), mono);
                        specialized_expr_list(args, consts, cx, 0, Seq::empty(), mono)
                    } {
                        Ok(out) => {
                            let (new_args, mono) = out;
                            match {
                                specialized_kw_arg_list_asks(from, kwargs, consts, cx, 0, Seq::empty(), mono);
                                specialized_kw_arg_list(kwargs, consts, cx, 0, Seq::empty(), mono)
                            } {
                                Ok(out) => {
                                    let (new_kwargs, mono) = out;
                                    Ok(
                                        (
                                            ExprKindView::MethodCall {
                                                object: Box::new(new_object),
                                                method,
                                                args: new_args,
                                                kwargs: new_kwargs,
                                            },
                                            mono,
                                        )
                                    )
                                },
                                Err(error) => Err(error),
                            }
                        },
                        Err(error) => Err(error),
                    }
                },
                Err(error) => Err(error),
            },
            ExprKindView::Index { object, index } => match {
                specialized_expr_asks(from, *object, consts, cx, mono);
                specialized_expr(*object, consts, cx, mono)
            } {
                Ok(out) => {
                    let (new_object, mono) = out;
                    match {
                        specialized_expr_asks(from, *index, consts, cx, mono);
                        specialized_expr(*index, consts, cx, mono)
                    } {
                        Ok(out) => {
                            let (new_index, mono) = out;
                            Ok(
                                (
                                    ExprKindView::Index {
                                        object: Box::new(new_object),
                                        index: Box::new(new_index),
                                    },
                                    mono,
                                )
                            )
                        },
                        Err(error) => Err(error),
                    }
                },
                Err(error) => Err(error),
            },
            ExprKindView::Slice {
                object,
                lower,
                upper,
                step,
            } => match {
                specialized_expr_asks(from, *object, consts, cx, mono);
                specialized_expr(*object, consts, cx, mono)
            } {
                Ok(out) => {
                    let (new_object, mono) = out;
                    match {
                        specialized_opt_boxed_expr_asks(from, lower, consts, cx, mono);
                        specialized_opt_boxed_expr(lower, consts, cx, mono)
                    } {
                        Ok(out) => {
                            let (new_lower, mono) = out;
                            match {
                                specialized_opt_boxed_expr_asks(from, upper, consts, cx, mono);
                                specialized_opt_boxed_expr(upper, consts, cx, mono)
                            } {
                                Ok(out) => {
                                    let (new_upper, mono) = out;
                                    match {
                                        specialized_opt_boxed_expr_asks(from, step, consts, cx, mono);
                                        specialized_opt_boxed_expr(step, consts, cx, mono)
                                    } {
                                        Ok(out) => {
                                            let (new_step, mono) = out;
                                            Ok(
                                                (
                                                    ExprKindView::Slice {
                                                        object: Box::new(new_object),
                                                        lower: new_lower,
                                                        upper: new_upper,
                                                        step: new_step,
                                                    },
                                                    mono,
                                                )
                                            )
                                        },
                                        Err(error) => Err(error),
                                    }
                                },
                                Err(error) => Err(error),
                            }
                        },
                        Err(error) => Err(error),
                    }
                },
                Err(error) => Err(error),
            },
            ExprKindView::MultiIndex { object, args } => match {
                specialized_expr_asks(from, *object, consts, cx, mono);
                specialized_expr(*object, consts, cx, mono)
            } {
                Ok(out) => {
                    let (new_object, mono) = out;
                    match {
                        specialized_subscript_arg_list_asks(from, args, consts, cx, 0, Seq::empty(), mono);
                        specialized_subscript_arg_list(args, consts, cx, 0, Seq::empty(), mono)
                    } {
                        Ok(out) => {
                            let (new_args, mono) = out;
                            Ok(
                                (
                                    ExprKindView::MultiIndex {
                                        object: Box::new(new_object),
                                        args: new_args,
                                    },
                                    mono,
                                )
                            )
                        },
                        Err(error) => Err(error),
                    }
                },
                Err(error) => Err(error),
            },
            ExprKindView::ListLit(a0) => match {
                specialized_expr_list_asks(from, a0, consts, cx, 0, Seq::empty(), mono);
                specialized_expr_list(a0, consts, cx, 0, Seq::empty(), mono)
            } {
                Ok(out) => {
                    let (new_a0, mono) = out;
                    Ok((ExprKindView::ListLit(new_a0), mono))
                },
                Err(error) => Err(error),
            },
            _ => {
                specialized_expr_kind_further_asks(from, expr_kind, site, consts, cx, mono);
                specialized_expr_kind_further(expr_kind, site, consts, cx, mono)
            },
        }
    };
}

proof fn specialized_expr_kind_further_asks(
    from: MonoView,
    expr_kind: ExprKindView,
    site: Seq<char>,
    consts: Seq<(Seq<char>, CtValueView)>,
    cx: CtContextView,
    mono: MonoView,
)
    requires
        asked_on(from, mono),
    ensures
        match specialized_expr_kind_further(expr_kind, site, consts, cx, mono) {
            Ok(done) => asked_on(from, done.1),
            Err(_) => true,
        },
    decreases expr_kind, 0nat,
{
    let _ = {
        match expr_kind {
            ExprKindView::TupleLit(a0) => match {
                specialized_expr_list_asks(from, a0, consts, cx, 0, Seq::empty(), mono);
                specialized_expr_list(a0, consts, cx, 0, Seq::empty(), mono)
            } {
                Ok(out) => {
                    let (new_a0, mono) = out;
                    Ok((ExprKindView::TupleLit(new_a0), mono))
                },
                Err(error) => Err(error),
            },
            ExprKindView::BraceLit(a0) => match {
                specialized_entry_list_asks(from, a0, consts, cx, 0, Seq::empty(), mono);
                specialized_entry_list(a0, consts, cx, 0, Seq::empty(), mono)
            } {
                Ok(out) => {
                    let (new_a0, mono) = out;
                    Ok((ExprKindView::BraceLit(new_a0), mono))
                },
                Err(error) => Err(error),
            },
            ExprKindView::Comprehension { kind, key, value, clauses } => match {
                specialized_comprehension_clause_list_asks(from, clauses, consts, cx, 0, Seq::empty(), mono);
                specialized_comprehension_clause_list(clauses, consts, cx, 0, Seq::empty(), mono)
            } {
                Ok(out) => {
                    let (new_clauses, mono) = out;
                    match {
                        specialized_opt_boxed_expr_asks(from, key, consts, cx, mono);
                        specialized_opt_boxed_expr(key, consts, cx, mono)
                    } {
                        Ok(out) => {
                            let (new_key, mono) = out;
                            match {
                                specialized_expr_asks(from, *value, consts, cx, mono);
                                specialized_expr(*value, consts, cx, mono)
                            } {
                                Ok(out) => {
                                    let (new_value, mono) = out;
                                    Ok(
                                        (
                                            ExprKindView::Comprehension {
                                                kind,
                                                key: new_key,
                                                value: Box::new(new_value),
                                                clauses: new_clauses,
                                            },
                                            mono,
                                        )
                                    )
                                },
                                Err(error) => Err(error),
                            }
                        },
                        Err(error) => Err(error),
                    }
                },
                Err(error) => Err(error),
            },
            ExprKindView::Named { name, value } => match {
                specialized_expr_asks(from, *value, consts, cx, mono);
                specialized_expr(*value, consts, cx, mono)
            } {
                Ok(out) => {
                    let (new_value, mono) = out;
                    Ok((ExprKindView::Named { name, value: Box::new(new_value) }, mono))
                },
                Err(error) => Err(error),
            },
            ExprKindView::IfExpr {
                cond,
                then_branch,
                else_branch,
            } => match {
                specialized_expr_asks(from, *cond, consts, cx, mono);
                specialized_expr(*cond, consts, cx, mono)
            } {
                Ok(out) => {
                    let (new_cond, mono) = out;
                    match {
                        specialized_expr_asks(from, *then_branch, consts, cx, mono);
                        specialized_expr(*then_branch, consts, cx, mono)
                    } {
                        Ok(out) => {
                            let (new_then_branch, mono) = out;
                            match {
                                specialized_expr_asks(from, *else_branch, consts, cx, mono);
                                specialized_expr(*else_branch, consts, cx, mono)
                            } {
                                Ok(out) => {
                                    let (new_else_branch, mono) = out;
                                    Ok(
                                        (
                                            ExprKindView::IfExpr {
                                                cond: Box::new(new_cond),
                                                then_branch: Box::new(new_then_branch),
                                                else_branch: Box::new(new_else_branch),
                                            },
                                            mono,
                                        )
                                    )
                                },
                                Err(error) => Err(error),
                            }
                        },
                        Err(error) => Err(error),
                    }
                },
                Err(error) => Err(error),
            },
            _ => Ok((expr_kind, mono)),
        }
    };
}

proof fn specialized_stmt_list_asks(
    from: MonoView,
    items: Seq<StmtView>,
    consts: Seq<(Seq<char>, CtValueView)>,
    cx: CtContextView,
    i: nat,
    out: Seq<StmtView>,
    mono: MonoView,
)
    requires
        asked_on(from, mono),
    ensures
        match specialized_stmt_list(items, consts, cx, i, out, mono) {
            Ok(done) => asked_on(from, done.1),
            Err(_) => true,
        },
    decreases items, (items.len() - i) as nat,
{
    let _ = {
        if i >= items.len() {
            Ok((out, mono))
        } else {
            let item = items[i as int];
            match {
                specialized_stmt_asks(from, item, consts, cx, mono);
                specialized_stmt(item, consts, cx, mono)
            } {
                Ok(taken) => {
                    let (mapped, rest) = taken;
                    let mono = rest;
                    let out = out.push(mapped);
                    {
                        specialized_stmt_list_asks(from, items, consts, cx, i + 1, out, mono);
                        specialized_stmt_list(items, consts, cx, i + 1, out, mono)
                    }
                },
                Err(error) => Err(error),
            }
        }
    };
}

proof fn specialized_branch_list_asks(
    from: MonoView,
    items: Seq<(ExprView, Seq<StmtView>)>,
    consts: Seq<(Seq<char>, CtValueView)>,
    cx: CtContextView,
    i: nat,
    out: Seq<(ExprView, Seq<StmtView>)>,
    mono: MonoView,
)
    requires
        asked_on(from, mono),
    ensures
        match specialized_branch_list(items, consts, cx, i, out, mono) {
            Ok(done) => asked_on(from, done.1),
            Err(_) => true,
        },
    decreases items, (items.len() - i) as nat,
{
    let _ = {
        if i >= items.len() {
            Ok((out, mono))
        } else {
            let item = items[i as int];
            match {
                specialized_expr_asks(from, item.0, consts, cx, mono);
                specialized_expr(item.0, consts, cx, mono)
            } {
                Ok(taken) => {
                    let (mapped_0, rest) = taken;
                    let mono = rest;
                    match {
                        specialized_stmt_list_asks(from, item.1, consts, cx, 0, Seq::empty(), mono);
                        specialized_stmt_list(item.1, consts, cx, 0, Seq::empty(), mono)
                    } {
                        Ok(taken) => {
                            let (mapped_1, rest) = taken;
                            let mono = rest;
                            let out = out.push((mapped_0, mapped_1));
                            {
                                specialized_branch_list_asks(from, items, consts, cx, i + 1, out, mono);
                                specialized_branch_list(items, consts, cx, i + 1, out, mono)
                            }
                        },
                        Err(error) => Err(error),
                    }
                },
                Err(error) => Err(error),
            }
        }
    };
}

proof fn specialized_opt_stmt_list_asks(
    from: MonoView,
    value: Option<Seq<StmtView>>,
    consts: Seq<(Seq<char>, CtValueView)>,
    cx: CtContextView,
    mono: MonoView,
)
    requires
        asked_on(from, mono),
    ensures
        match specialized_opt_stmt_list(value, consts, cx, mono) {
            Ok(done) => asked_on(from, done.1),
            Err(_) => true,
        },
    decreases value, 0nat,
{
    let _ = {
        match value {
            Some(value) => match {
                specialized_stmt_list_asks(from, value, consts, cx, 0, Seq::empty(), mono);
                specialized_stmt_list(value, consts, cx, 0, Seq::empty(), mono)
            } {
                Ok(out) => {
                    let (mapped, mono) = out;
                    Ok((Some(mapped), mono))
                },
                Err(error) => Err(error),
            },
            None => Ok((None, mono)),
        }
    };
}

proof fn specialized_opt_opt_string_stmt_list_asks(
    from: MonoView,
    value: Option<(Option<Seq<char>>, Seq<StmtView>)>,
    consts: Seq<(Seq<char>, CtValueView)>,
    cx: CtContextView,
    mono: MonoView,
)
    requires
        asked_on(from, mono),
    ensures
        match specialized_opt_opt_string_stmt_list(value, consts, cx, mono) {
            Ok(done) => asked_on(from, done.1),
            Err(_) => true,
        },
    decreases value, 0nat,
{
    let _ = {
        match value {
            Some(value) => match {
                specialized_stmt_list_asks(from, value.1, consts, cx, 0, Seq::empty(), mono);
                specialized_stmt_list(value.1, consts, cx, 0, Seq::empty(), mono)
            } {
                Ok(out) => {
                    let (mapped_1, mono) = out;
                    Ok((Some((value.0, mapped_1)), mono))
                },
                Err(error) => Err(error),
            },
            None => Ok((None, mono)),
        }
    };
}

proof fn specialized_with_item_asks(
    from: MonoView,
    with_item: WithItemView,
    consts: Seq<(Seq<char>, CtValueView)>,
    cx: CtContextView,
    mono: MonoView,
)
    requires
        asked_on(from, mono),
    ensures
        match specialized_with_item(with_item, consts, cx, mono) {
            Ok(done) => asked_on(from, done.1),
            Err(_) => true,
        },
    decreases with_item, 0nat,
{
    let _ = {
        match {
            specialized_expr_asks(from, with_item.context, consts, cx, mono);
            specialized_expr(with_item.context, consts, cx, mono)
        } {
            Ok(out) => {
                let (new_context, mono) = out;
                Ok((WithItemView { context: new_context, var: with_item.var }, mono))
            },
            Err(error) => Err(error),
        }
    };
}

proof fn specialized_with_item_list_asks(
    from: MonoView,
    items: Seq<WithItemView>,
    consts: Seq<(Seq<char>, CtValueView)>,
    cx: CtContextView,
    i: nat,
    out: Seq<WithItemView>,
    mono: MonoView,
)
    requires
        asked_on(from, mono),
    ensures
        match specialized_with_item_list(items, consts, cx, i, out, mono) {
            Ok(done) => asked_on(from, done.1),
            Err(_) => true,
        },
    decreases items, (items.len() - i) as nat,
{
    let _ = {
        if i >= items.len() {
            Ok((out, mono))
        } else {
            let item = items[i as int];
            match {
                specialized_with_item_asks(from, item, consts, cx, mono);
                specialized_with_item(item, consts, cx, mono)
            } {
                Ok(taken) => {
                    let (mapped, rest) = taken;
                    let mono = rest;
                    let out = out.push(mapped);
                    {
                        specialized_with_item_list_asks(from, items, consts, cx, i + 1, out, mono);
                        specialized_with_item_list(items, consts, cx, i + 1, out, mono)
                    }
                },
                Err(error) => Err(error),
            }
        }
    };
}

proof fn specialized_method_asks(
    from: MonoView,
    method: MethodView,
    consts: Seq<(Seq<char>, CtValueView)>,
    cx: CtContextView,
    mono: MonoView,
)
    requires
        asked_on(from, mono),
    ensures
        match specialized_method(method, consts, cx, mono) {
            Ok(done) => asked_on(from, done.1),
            Err(_) => true,
        },
    decreases method, 0nat,
{
    let _ = {
        match {
            specialized_stmt_list_asks(from, method.body, consts, cx, 0, Seq::empty(), mono);
            specialized_stmt_list(method.body, consts, cx, 0, Seq::empty(), mono)
        } {
            Ok(out) => {
                let (new_body, mono) = out;
                Ok(
                    (
                        MethodView {
                            name: method.name,
                            has_self: method.has_self,
                            self_convention: method.self_convention,
                            params: method.params,
                            positional_only: method.positional_only,
                            keyword_only: method.keyword_only,
                            raises_type: method.raises_type,
                            ret: method.ret,
                            body: new_body,
                        },
                        mono,
                    )
                )
            },
            Err(error) => Err(error),
        }
    };
}

proof fn specialized_method_list_asks(
    from: MonoView,
    items: Seq<MethodView>,
    consts: Seq<(Seq<char>, CtValueView)>,
    cx: CtContextView,
    i: nat,
    out: Seq<MethodView>,
    mono: MonoView,
)
    requires
        asked_on(from, mono),
    ensures
        match specialized_method_list(items, consts, cx, i, out, mono) {
            Ok(done) => asked_on(from, done.1),
            Err(_) => true,
        },
    decreases items, (items.len() - i) as nat,
{
    let _ = {
        if i >= items.len() {
            Ok((out, mono))
        } else {
            let item = items[i as int];
            match {
                specialized_method_asks(from, item, consts, cx, mono);
                specialized_method(item, consts, cx, mono)
            } {
                Ok(taken) => {
                    let (mapped, rest) = taken;
                    let mono = rest;
                    let out = out.push(mapped);
                    {
                        specialized_method_list_asks(from, items, consts, cx, i + 1, out, mono);
                        specialized_method_list(items, consts, cx, i + 1, out, mono)
                    }
                },
                Err(error) => Err(error),
            }
        }
    };
}

proof fn specialized_stmt_kind_asks(
    from: MonoView,
    stmt_kind: StmtKindView,
    consts: Seq<(Seq<char>, CtValueView)>,
    cx: CtContextView,
    mono: MonoView,
)
    requires
        asked_on(from, mono),
    ensures
        match specialized_stmt_kind(stmt_kind, consts, cx, mono) {
            Ok(done) => asked_on(from, done.1),
            Err(_) => true,
        },
    decreases stmt_kind, 3nat,
{
    let _ = {
        match stmt_kind {
            StmtKindView::VarDecl { name, ty, value } => match {
                specialized_expr_asks(from, value, consts, cx, mono);
                specialized_expr(value, consts, cx, mono)
            } {
                Ok(out) => {
                    let (new_value, mono) = out;
                    Ok((StmtKindView::VarDecl { name, ty, value: new_value }, mono))
                },
                Err(error) => Err(error),
            },
            StmtKindView::RefDecl { name, value } => match {
                specialized_expr_asks(from, value, consts, cx, mono);
                specialized_expr(value, consts, cx, mono)
            } {
                Ok(out) => {
                    let (new_value, mono) = out;
                    Ok((StmtKindView::RefDecl { name, value: new_value }, mono))
                },
                Err(error) => Err(error),
            },
            StmtKindView::Assign { name, value } => match {
                specialized_expr_asks(from, value, consts, cx, mono);
                specialized_expr(value, consts, cx, mono)
            } {
                Ok(out) => {
                    let (new_value, mono) = out;
                    Ok((StmtKindView::Assign { name, value: new_value }, mono))
                },
                Err(error) => Err(error),
            },
            StmtKindView::Comptime { name, value } => match {
                specialized_expr_asks(from, value, consts, cx, mono);
                specialized_expr(value, consts, cx, mono)
            } {
                Ok(out) => {
                    let (new_value, mono) = out;
                    Ok((StmtKindView::Comptime { name, value: new_value }, mono))
                },
                Err(error) => Err(error),
            },
            StmtKindView::Raise(a0) => match {
                specialized_expr_asks(from, a0, consts, cx, mono);
                specialized_expr(a0, consts, cx, mono)
            } {
                Ok(out) => {
                    let (new_a0, mono) = out;
                    Ok((StmtKindView::Raise(new_a0), mono))
                },
                Err(error) => Err(error),
            },
            StmtKindView::Return(a0) => match {
                specialized_opt_expr_asks(from, a0, consts, cx, mono);
                specialized_opt_expr(a0, consts, cx, mono)
            } {
                Ok(out) => {
                    let (new_a0, mono) = out;
                    Ok((StmtKindView::Return(new_a0), mono))
                },
                Err(error) => Err(error),
            },
            _ => {
                specialized_stmt_kind_more_asks(from, stmt_kind, consts, cx, mono);
                specialized_stmt_kind_more(stmt_kind, consts, cx, mono)
            },
        }
    };
}

proof fn specialized_stmt_kind_more_asks(
    from: MonoView,
    stmt_kind: StmtKindView,
    consts: Seq<(Seq<char>, CtValueView)>,
    cx: CtContextView,
    mono: MonoView,
)
    requires
        asked_on(from, mono),
    ensures
        match specialized_stmt_kind_more(stmt_kind, consts, cx, mono) {
            Ok(done) => asked_on(from, done.1),
            Err(_) => true,
        },
    decreases stmt_kind, 2nat,
{
    let _ = {
        match stmt_kind {
            StmtKindView::SetPlace { place, value } => match {
                specialized_expr_asks(from, place, consts, cx, mono);
                specialized_expr(place, consts, cx, mono)
            } {
                Ok(out) => {
                    let (new_place, mono) = out;
                    match {
                        specialized_expr_asks(from, value, consts, cx, mono);
                        specialized_expr(value, consts, cx, mono)
                    } {
                        Ok(out) => {
                            let (new_value, mono) = out;
                            Ok((StmtKindView::SetPlace { place: new_place, value: new_value }, mono))
                        },
                        Err(error) => Err(error),
                    }
                },
                Err(error) => Err(error),
            },
            StmtKindView::AugAssign { place, op, value } => match {
                specialized_expr_asks(from, place, consts, cx, mono);
                specialized_expr(place, consts, cx, mono)
            } {
                Ok(out) => {
                    let (new_place, mono) = out;
                    match {
                        specialized_expr_asks(from, value, consts, cx, mono);
                        specialized_expr(value, consts, cx, mono)
                    } {
                        Ok(out) => {
                            let (new_value, mono) = out;
                            Ok(
                                (
                                    StmtKindView::AugAssign { place: new_place, op, value: new_value },
                                    mono,
                                )
                            )
                        },
                        Err(error) => Err(error),
                    }
                },
                Err(error) => Err(error),
            },
            StmtKindView::Unpack { targets, value } => match {
                specialized_expr_list_asks(from, targets, consts, cx, 0, Seq::empty(), mono);
                specialized_expr_list(targets, consts, cx, 0, Seq::empty(), mono)
            } {
                Ok(out) => {
                    let (new_targets, mono) = out;
                    match {
                        specialized_expr_asks(from, value, consts, cx, mono);
                        specialized_expr(value, consts, cx, mono)
                    } {
                        Ok(out) => {
                            let (new_value, mono) = out;
                            Ok((StmtKindView::Unpack { targets: new_targets, value: new_value }, mono))
                        },
                        Err(error) => Err(error),
                    }
                },
                Err(error) => Err(error),
            },
            StmtKindView::Expr(a0) => match {
                specialized_expr_asks(from, a0, consts, cx, mono);
                specialized_expr(a0, consts, cx, mono)
            } {
                Ok(out) => {
                    let (new_a0, mono) = out;
                    Ok((StmtKindView::Expr(new_a0), mono))
                },
                Err(error) => Err(error),
            },
            StmtKindView::If { branches, orelse } => match {
                specialized_branch_list_asks(from, branches, consts, cx, 0, Seq::empty(), mono);
                specialized_branch_list(branches, consts, cx, 0, Seq::empty(), mono)
            } {
                Ok(out) => {
                    let (new_branches, mono) = out;
                    match {
                        specialized_opt_stmt_list_asks(from, orelse, consts, cx, mono);
                        specialized_opt_stmt_list(orelse, consts, cx, mono)
                    } {
                        Ok(out) => {
                            let (new_orelse, mono) = out;
                            Ok((StmtKindView::If { branches: new_branches, orelse: new_orelse }, mono))
                        },
                        Err(error) => Err(error),
                    }
                },
                Err(error) => Err(error),
            },
            StmtKindView::ComptimeIf { branches, orelse } => match {
                specialized_branch_list_asks(from, branches, consts, cx, 0, Seq::empty(), mono);
                specialized_branch_list(branches, consts, cx, 0, Seq::empty(), mono)
            } {
                Ok(out) => {
                    let (new_branches, mono) = out;
                    match {
                        specialized_opt_stmt_list_asks(from, orelse, consts, cx, mono);
                        specialized_opt_stmt_list(orelse, consts, cx, mono)
                    } {
                        Ok(out) => {
                            let (new_orelse, mono) = out;
                            Ok(
                                (
                                    StmtKindView::ComptimeIf {
                                        branches: new_branches,
                                        orelse: new_orelse,
                                    },
                                    mono,
                                )
                            )
                        },
                        Err(error) => Err(error),
                    }
                },
                Err(error) => Err(error),
            },
            _ => {
                specialized_stmt_kind_further_asks(from, stmt_kind, consts, cx, mono);
                specialized_stmt_kind_further(stmt_kind, consts, cx, mono)
            },
        }
    };
}

proof fn specialized_stmt_kind_further_asks(
    from: MonoView,
    stmt_kind: StmtKindView,
    consts: Seq<(Seq<char>, CtValueView)>,
    cx: CtContextView,
    mono: MonoView,
)
    requires
        asked_on(from, mono),
    ensures
        match specialized_stmt_kind_further(stmt_kind, consts, cx, mono) {
            Ok(done) => asked_on(from, done.1),
            Err(_) => true,
        },
    decreases stmt_kind, 1nat,
{
    let _ = {
        match stmt_kind {
            StmtKindView::While { cond, body, orelse } => match {
                specialized_expr_asks(from, cond, consts, cx, mono);
                specialized_expr(cond, consts, cx, mono)
            } {
                Ok(out) => {
                    let (new_cond, mono) = out;
                    match {
                        specialized_stmt_list_asks(from, body, consts, cx, 0, Seq::empty(), mono);
                        specialized_stmt_list(body, consts, cx, 0, Seq::empty(), mono)
                    } {
                        Ok(out) => {
                            let (new_body, mono) = out;
                            Ok((StmtKindView::While { cond: new_cond, body: new_body, orelse }, mono))
                        },
                        Err(error) => Err(error),
                    }
                },
                Err(error) => Err(error),
            },
            StmtKindView::For {
                var,
                reference,
                owned,
                iter,
                body,
                orelse,
            } => match {
                specialized_expr_asks(from, iter, consts, cx, mono);
                specialized_expr(iter, consts, cx, mono)
            } {
                Ok(out) => {
                    let (new_iter, mono) = out;
                    match {
                        specialized_stmt_list_asks(from, body, consts, cx, 0, Seq::empty(), mono);
                        specialized_stmt_list(body, consts, cx, 0, Seq::empty(), mono)
                    } {
                        Ok(out) => {
                            let (new_body, mono) = out;
                            Ok(
                                (
                                    StmtKindView::For {
                                        var,
                                        reference,
                                        owned,
                                        iter: new_iter,
                                        body: new_body,
                                        orelse,
                                    },
                                    mono,
                                )
                            )
                        },
                        Err(error) => Err(error),
                    }
                },
                Err(error) => Err(error),
            },
            StmtKindView::ComptimeFor { var, iter, body } => match {
                specialized_expr_asks(from, iter, consts, cx, mono);
                specialized_expr(iter, consts, cx, mono)
            } {
                Ok(out) => {
                    let (new_iter, mono) = out;
                    match {
                        specialized_stmt_list_asks(from, body, consts, cx, 0, Seq::empty(), mono);
                        specialized_stmt_list(body, consts, cx, 0, Seq::empty(), mono)
                    } {
                        Ok(out) => {
                            let (new_body, mono) = out;
                            Ok(
                                (
                                    StmtKindView::ComptimeFor { var, iter: new_iter, body: new_body },
                                    mono,
                                )
                            )
                        },
                        Err(error) => Err(error),
                    }
                },
                Err(error) => Err(error),
            },
            StmtKindView::Try { body, except, orelse, finalbody } => match {
                specialized_stmt_list_asks(from, body, consts, cx, 0, Seq::empty(), mono);
                specialized_stmt_list(body, consts, cx, 0, Seq::empty(), mono)
            } {
                Ok(out) => {
                    let (new_body, mono) = out;
                    match {
                        specialized_opt_opt_string_stmt_list_asks(from, except, consts, cx, mono);
                        specialized_opt_opt_string_stmt_list(except, consts, cx, mono)
                    } {
                        Ok(out) => {
                            let (new_except, mono) = out;
                            match {
                                specialized_opt_stmt_list_asks(from, orelse, consts, cx, mono);
                                specialized_opt_stmt_list(orelse, consts, cx, mono)
                            } {
                                Ok(out) => {
                                    let (new_orelse, mono) = out;
                                    match {
                                        specialized_opt_stmt_list_asks(from, finalbody, consts, cx, mono);
                                        specialized_opt_stmt_list(finalbody, consts, cx, mono)
                                    } {
                                        Ok(out) => {
                                            let (new_finalbody, mono) = out;
                                            Ok(
                                                (
                                                    StmtKindView::Try {
                                                        body: new_body,
                                                        except: new_except,
                                                        orelse: new_orelse,
                                                        finalbody: new_finalbody,
                                                    },
                                                    mono,
                                                )
                                            )
                                        },
                                        Err(error) => Err(error),
                                    }
                                },
                                Err(error) => Err(error),
                            }
                        },
                        Err(error) => Err(error),
                    }
                },
                Err(error) => Err(error),
            },
            StmtKindView::With { items, body } => match {
                specialized_with_item_list_asks(from, items, consts, cx, 0, Seq::empty(), mono);
                specialized_with_item_list(items, consts, cx, 0, Seq::empty(), mono)
            } {
                Ok(out) => {
                    let (new_items, mono) = out;
                    match {
                        specialized_stmt_list_asks(from, body, consts, cx, 0, Seq::empty(), mono);
                        specialized_stmt_list(body, consts, cx, 0, Seq::empty(), mono)
                    } {
                        Ok(out) => {
                            let (new_body, mono) = out;
                            Ok((StmtKindView::With { items: new_items, body: new_body }, mono))
                        },
                        Err(error) => Err(error),
                    }
                },
                Err(error) => Err(error),
            },
            StmtKindView::Def {
                name,
                decorators,
                type_params,
                params,
                positional_only,
                keyword_only,
                captures,
                raises,
                raises_type,
                ret,
                where_clause,
                body,
            } => match {
                specialized_stmt_list_asks(from, body, consts, cx, 0, Seq::empty(), mono);
                specialized_stmt_list(body, consts, cx, 0, Seq::empty(), mono)
            } {
                Ok(out) => {
                    let (new_body, mono) = out;
                    Ok(
                        (
                            StmtKindView::Def {
                                name,
                                decorators,
                                type_params,
                                params,
                                positional_only,
                                keyword_only,
                                captures,
                                raises,
                                raises_type,
                                ret,
                                where_clause,
                                body: new_body,
                            },
                            mono,
                        )
                    )
                },
                Err(error) => Err(error),
            },
            _ => {
                specialized_stmt_kind_rest_asks(from, stmt_kind, consts, cx, mono);
                specialized_stmt_kind_rest(stmt_kind, consts, cx, mono)
            },
        }
    };
}

proof fn specialized_stmt_kind_rest_asks(
    from: MonoView,
    stmt_kind: StmtKindView,
    consts: Seq<(Seq<char>, CtValueView)>,
    cx: CtContextView,
    mono: MonoView,
)
    requires
        asked_on(from, mono),
    ensures
        match specialized_stmt_kind_rest(stmt_kind, consts, cx, mono) {
            Ok(done) => asked_on(from, done.1),
            Err(_) => true,
        },
    decreases stmt_kind, 0nat,
{
    let _ = {
        match stmt_kind {
            StmtKindView::Struct {
                name,
                decorators,
                type_params,
                conforms,
                callable_conformance,
                conformance_conditions,
                fields,
                associated,
                methods,
                fieldwise_init,
            } => match {
                specialized_method_list_asks(from, methods, consts, cx, 0, Seq::empty(), mono);
                specialized_method_list(methods, consts, cx, 0, Seq::empty(), mono)
            } {
                Ok(out) => {
                    let (new_methods, mono) = out;
                    Ok(
                        (
                            StmtKindView::Struct {
                                name,
                                decorators,
                                type_params,
                                conforms,
                                callable_conformance,
                                conformance_conditions,
                                fields,
                                associated,
                                methods: new_methods,
                                fieldwise_init,
                            },
                            mono,
                        )
                    )
                },
                Err(error) => Err(error),
            },
            _ => Ok((stmt_kind, mono)),
        }
    };
}

proof fn specialized_stmt_asks(
    from: MonoView,
    stmt: StmtView,
    consts: Seq<(Seq<char>, CtValueView)>,
    cx: CtContextView,
    mono: MonoView,
)
    requires
        asked_on(from, mono),
    ensures
        match specialized_stmt(stmt, consts, cx, mono) {
            Ok(done) => asked_on(from, done.1),
            Err(_) => true,
        },
    decreases stmt, 0nat,
{
    let _ = {
        match {
            specialized_stmt_kind_asks(from, stmt.kind, consts, cx, mono);
            specialized_stmt_kind(stmt.kind, consts, cx, mono)
        } {
            Ok(out) => {
                let (new_kind, mono) = out;
                Ok((StmtView { kind: new_kind, span: stmt.span, module: stmt.module }, mono))
            },
            Err(error) => Err(error),
        }
    };
}

proof fn named_template(
    templates: Seq<TemplateView>,
    name: Seq<char>,
    i: nat,
    out: Option<TemplateView>,
)
    requires
        out matches Some(found) ==> found.name == name,
    ensures
        template_named(templates, name, i, out) matches Some(found) ==> found.name == name,
    decreases templates.len() - i,
{
    if i < templates.len() {
        let entry = templates[i as int];
        named_template(
            templates,
            name,
            i + 1,
            if entry.name == name {
                Some(entry)
            } else {
                out
            },
        );
    }
}

/// The name that a def has.
spec fn def_named(stmt: StmtView, name: Seq<char>) -> bool {
    match stmt.kind {
        StmtKindView::Def { name: found, .. } => found == name,
        _ => false,
    }
}

proof fn generated_name(
    template: TemplateView,
    vals: Seq<CtValueView>,
    cx: CtContextView,
    top: Seq<(Seq<char>, CtValueView)>,
    fuel: usize,
)
    ensures
        spec_generated(template, vals, cx, top, fuel) matches Ok(done) ==> def_named(
            done.0,
            mangled(vals, 0, template.name),
        ),
{
    reveal(spec_generated);
    reveal(unplaced);
}

proof fn specialized_name(
    stmt: StmtView,
    name: Seq<char>,
    consts: Seq<(Seq<char>, CtValueView)>,
    cx: CtContextView,
    mono: MonoView,
)
    requires
        def_named(stmt, name),
    ensures
        specialized_stmt(stmt, consts, cx, mono) matches Ok(done) ==> def_named(done.0, name),
{
}

proof fn spec_made_asks(
    from: MonoView,
    job: JobView,
    top: Seq<(Seq<char>, CtValueView)>,
    cx: CtContextView,
    mono: MonoView,
)
    requires
        asked_on(from, mono),
    ensures
        spec_made(job, top, cx, mono) matches Ok(done) ==> asked_on(from, done.1) && def_named(
            done.0,
            job_name(job),
        ),
{
    reveal(spec_made);
    if let Ok(fuel) = burnt(mono.fuel) {
        named_template(cx.templates, job.orig, 0, None);
        if let Some(template) = template_named(cx.templates, job.orig, 0, None) {
            generated_name(template, job.vals, cx, top, fuel);
            if let Ok(out) = spec_generated(template, job.vals, cx, top, fuel) {
                let mono = MonoView { fuel: out.1, queue: mono.queue, done: mono.done };
                specialized_stmt_asks(from, out.0, top, cx, mono);
                specialized_name(out.0, job_name(job), top, cx, mono);
            }
        }
    }
}

/// The jobs that are done in the end, which are more than those asked for at first.
pub open spec fn all_done(first: Seq<JobView>, jobs: Seq<JobView>, made: Seq<MadeView>) -> bool {
    &&& starts_with(jobs, first)
    &&& asked_once(jobs)
    &&& made_for(made, jobs)
}

/// See [`all_done`].
pub open spec fn all_done_from(first: Seq<JobView>, made: Seq<MadeView>) -> bool {
    exists|jobs: Seq<JobView>| all_done(first, jobs, made)
}

proof fn drained_asks(
    at: usize,
    top: Seq<(Seq<char>, CtValueView)>,
    cx: CtContextView,
    mono: MonoView,
    made: Seq<MadeView>,
    left: usize,
)
    requires
        orderly(mono),
        at + left < usize::MAX,
        made.len() == at,
        at <= mono.queue.len(),
        forall|k: int| 0 <= k < at ==> stands_for(#[trigger] made[k], mono.queue[k]),
    ensures
        match drained(at, top, cx, mono, made, left) {
            Ok(done) => all_done_from(mono.queue, done),
            Err(_) => true,
        },
    decreases left as nat,
{
    if at < mono.queue.len() {
        if left > 0 {
            let job = mono.queue[at as int];
            spec_made_asks(mono, job, top, cx, mono);
            if let Ok(out) = spec_made(job, top, cx, mono) {
                reveal(and_made);
                reveal(following_index);
                let next = out.1;
                let more = and_made(made, job.orig, out.0);
                assert forall|k: int| 0 <= k < at + 1 implies stands_for(
                    #[trigger] more[k],
                    next.queue[k],
                ) by {
                    assert(next.queue[k] == mono.queue[k]);
                    if k < at {
                        assert(more[k] == made[k]);
                    }
                }
                drained_asks(following_index(at), top, cx, next, more, (left - 1) as usize);
                assert(drained(at, top, cx, mono, made, left) == drained(
                    following_index(at),
                    top,
                    cx,
                    next,
                    more,
                    (left - 1) as usize,
                ));
                if let Ok(done) = drained(
                    following_index(at),
                    top,
                    cx,
                    next,
                    more,
                    (left - 1) as usize,
                ) {
                    let jobs = choose|jobs: Seq<JobView>| all_done(next.queue, jobs, done);
                    assert forall|k: int| 0 <= k < mono.queue.len() implies #[trigger] jobs[k]
                        == mono.queue[k] by {
                        assert(next.queue[k] == mono.queue[k]);
                    }
                    assert(all_done(mono.queue, jobs, done));
                    assert(all_done_from(mono.queue, done));
                }
            }
        }
    } else {
        assert(all_done(mono.queue, mono.queue, made));
        assert(all_done_from(mono.queue, made));
    }
}

proof fn program_specialized_asks(
    from: MonoView,
    program: Seq<StmtView>,
    top: Seq<(Seq<char>, CtValueView)>,
    cx: CtContextView,
    i: nat,
    out: Seq<StmtView>,
    mono: MonoView,
)
    requires
        asked_on(from, mono),
    ensures
        program_specialized(program, top, cx, i, out, mono) matches Ok(done) ==> asked_on(
            from,
            done.1,
        ),
    decreases program, (program.len() - i) as nat,
{
    if i < program.len() {
        let stmt = program[i as int];
        reveal(specialized_unless_template);
        specialized_stmt_asks(from, stmt, top, cx, mono);
        if let Ok(taken) = specialized_unless_template(stmt, top, cx, mono) {
            program_specialized_asks(from, program, top, cx, i + 1, out.push(taken.0), taken.1);
        }
    }
}

/// Whether a program comes of another by specializing: its calls of templates, and the calls
/// in the specializations, ask for some jobs, no specialization twice; for each job there is
/// one specialization; and these stand where the templates stood.
pub open spec fn specialized_by(
    program: Seq<StmtView>,
    cx: CtContextView,
    top: Seq<(Seq<char>, CtValueView)>,
    fuel: usize,
    jobs: Seq<JobView>,
    made: Seq<MadeView>,
    result: Seq<StmtView>,
) -> bool {
    let start = MonoView { fuel, queue: Seq::empty(), done: Seq::empty() };
    match program_specialized(program, top, cx, 0, Seq::empty(), start) {
        Ok(out) => {
            &&& all_done(out.1.queue, jobs, made)
            &&& result == templates_replaced(out.0, made, cx, 0, Seq::empty(), Seq::empty())
        },
        Err(_) => false,
    }
}

/// See [`specialized_by`].
pub open spec fn specialized_from(
    program: Seq<StmtView>,
    cx: CtContextView,
    top: Seq<(Seq<char>, CtValueView)>,
    fuel: usize,
    result: Seq<StmtView>,
) -> bool {
    exists|jobs: Seq<JobView>, made: Seq<MadeView>|
        specialized_by(program, cx, top, fuel, jobs, made, result)
}

/// Where there are templates, a program is specialized with one definition for each list of
/// values that a template is called with.
pub proof fn one_definition_for_each(
    program: Seq<StmtView>,
    cx: CtContextView,
    top: Seq<(Seq<char>, CtValueView)>,
    fuel: usize,
)
    requires
        cx.templates.len() > 0,
    ensures
        match monomorphized(program, cx, top, fuel) {
            Ok(result) => specialized_from(program, cx, top, fuel, result),
            Err(_) => true,
        },
{
    reveal(monomorphized);
    reveal(past_quota);
    let start = MonoView { fuel, queue: Seq::empty(), done: Seq::empty() };
    program_specialized_asks(start, program, top, cx, 0, Seq::empty(), start);
    if let Ok(out) = program_specialized(program, top, cx, 0, Seq::empty(), start) {
        drained_asks(0, top, cx, out.1, Seq::empty(), past_quota());
        if let Ok(made) = drained(0, top, cx, out.1, Seq::empty(), past_quota()) {
            let jobs = choose|jobs: Seq<JobView>| all_done(out.1.queue, jobs, made);
            let result = templates_replaced(out.0, made, cx, 0, Seq::empty(), Seq::empty());
            assert(specialized_by(program, cx, top, fuel, jobs, made, result));
            assert(specialized_from(program, cx, top, fuel, result));
            assert(monomorphized(program, cx, top, fuel) == Ok::<
                Seq<StmtView>,
                ComptimeErrorView,
            >(result));
        }
    }
}

/// At the place of a template stand its specializations and no others, the last one first.
pub proof fn specializations_at_a_place(
    made: Seq<MadeView>,
    name: Seq<char>,
    count: usize,
    found: Seq<StmtView>,
)
    requires
        count <= made.len(),
    ensures
        specs_reversed(made, name, count, found) == found + made.take(count as int).filter(
            |m: MadeView| m.orig == name,
        ).reverse().map_values(|m: MadeView| m.def),
    decreases count as nat,
{
    let of_name = |m: MadeView| m.orig == name;
    let def_of = |m: MadeView| m.def;
    let part = made.take(count as int);
    reveal(Seq::filter);
    if count > 0 {
        reveal(and_spec);
        let last = made[count - 1];
        let less = made.take(count - 1);
        assert(part.drop_last() =~= less);
        assert(part.last() == last);
        let out = and_spec(found, last, name);
        specializations_at_a_place(made, name, (count - 1) as usize, out);
        let before = less.filter(of_name);
        assert(less.filter(of_name) == less.filter(|m: MadeView| m.orig == name));
        if last.orig == name {
            assert(part.filter(of_name) == before.push(last));
            assert(before.push(last).reverse().map_values(def_of) =~= seq![last.def]
                + before.reverse().map_values(def_of));
            assert(out + before.reverse().map_values(def_of) =~= found + before.push(
                last,
            ).reverse().map_values(def_of));
        } else {
            assert(part.filter(of_name) == before);
        }
    } else {
        assert(part =~= Seq::<MadeView>::empty());
        assert(part.filter(of_name).reverse().map_values(def_of) =~= Seq::<StmtView>::empty());
        assert(found + Seq::<StmtView>::empty() =~= found);
    }
}

} // verus!
