//! Programs without compile-time values stay as they are.

use crate::ast::{
    Expr, ExprKindView, ExprView, InfixOp, KwArgView, MethodView, ParamArgView, StmtKindView,
    StmtView, SubscriptArgView, WithItemView,
};
use crate::nested::names_of_params;
use crate::rewrite::{
    materialized, replaced_by, rewritten, rewritten_branch_list, rewritten_comparison_list,
    rewritten_expr_kind, rewritten_expr_kind_further, rewritten_expr_kind_more, rewritten_expr_list,
    rewritten_kw_arg, rewritten_kw_arg_list, rewritten_method, rewritten_methods,
    rewritten_opt_boxed_expr, rewritten_opt_expr, rewritten_opt_opt_string_stmt_list,
    rewritten_opt_stmt_list, rewritten_param_arg, rewritten_param_arg_list, rewritten_stmt,
    rewritten_stmt_kind, rewritten_stmt_kind_further, rewritten_stmt_kind_more,
    rewritten_stmt_kind_rest, rewritten_stmt_list, rewritten_subscript_arg,
    rewritten_subscript_arg_list, rewritten_with_item, rewritten_with_item_list, value_bound,
    values_visible,
};
use crate::types::CtValueView;
use crate::values::Value;
use vstd::prelude::*;

verus! {

proof fn rewritten_same(
    expr: ExprView,
    subs: Seq<(Seq<char>, CtValueView)>,
)
    requires
        subs.len() == 0,
    ensures
        rewritten(expr, subs) == expr,
    decreases expr, 0nat,
{
    reveal(replaced_by);
    let _ = {
        match expr.kind {
            ExprKindView::Identifier(name) => replaced_by(expr, value_bound(subs, name)),
            _ => ExprView {
                kind: {
                    rewritten_expr_kind_same(expr.kind, subs);
                    rewritten_expr_kind(expr.kind, subs)
                },
                span: expr.span,
                source: expr.source,
            },
        }
    };
}

proof fn rewritten_param_arg_same(
    param_arg: ParamArgView,
    subs: Seq<(Seq<char>, CtValueView)>,
)
    requires
        subs.len() == 0,
    ensures
        rewritten_param_arg(param_arg, subs) == param_arg,
    decreases param_arg, 0nat,
{
    let _ = {
        match param_arg {
            ParamArgView::Value(a0) => ParamArgView::Value({
                rewritten_same(a0, subs);
                rewritten(a0, subs)
            }),
            _ => param_arg,
        }
    };
}

proof fn rewritten_param_arg_list_same(
    items: Seq<ParamArgView>,
    subs: Seq<(Seq<char>, CtValueView)>,
    i: nat,
    out: Seq<ParamArgView>,
)
    requires
        subs.len() == 0,
        i <= items.len(),
        out =~= items.take(i as int),
    ensures
        rewritten_param_arg_list(items, subs, i, out) == items,
    decreases items, (items.len() - i) as nat,
{
    let _ = {
        if i >= items.len() {
            assert(items.take(i as int) =~= items);
            out
        } else {
            let item = items[i as int];
            rewritten_param_arg_same(item, subs);
            let out = out.push(rewritten_param_arg(item, subs));
            {
                assert(out =~= items.take(i + 1int));
                rewritten_param_arg_list_same(items, subs, i + 1, out);
                rewritten_param_arg_list(items, subs, i + 1, out)
            }
        }
    };
}

proof fn rewritten_comparison_list_same(
    items: Seq<(InfixOp, ExprView)>,
    subs: Seq<(Seq<char>, CtValueView)>,
    i: nat,
    out: Seq<(InfixOp, ExprView)>,
)
    requires
        subs.len() == 0,
        i <= items.len(),
        out =~= items.take(i as int),
    ensures
        rewritten_comparison_list(items, subs, i, out) == items,
    decreases items, (items.len() - i) as nat,
{
    let _ = {
        if i >= items.len() {
            assert(items.take(i as int) =~= items);
            out
        } else {
            let item = items[i as int];
            rewritten_same(item.1, subs);
            let out = out.push((item.0, rewritten(item.1, subs)));
            {
                assert(out =~= items.take(i + 1int));
                rewritten_comparison_list_same(items, subs, i + 1, out);
                rewritten_comparison_list(items, subs, i + 1, out)
            }
        }
    };
}

proof fn rewritten_expr_list_same(
    items: Seq<ExprView>,
    subs: Seq<(Seq<char>, CtValueView)>,
    i: nat,
    out: Seq<ExprView>,
)
    requires
        subs.len() == 0,
        i <= items.len(),
        out =~= items.take(i as int),
    ensures
        rewritten_expr_list(items, subs, i, out) == items,
    decreases items, (items.len() - i) as nat,
{
    let _ = {
        if i >= items.len() {
            assert(items.take(i as int) =~= items);
            out
        } else {
            let item = items[i as int];
            rewritten_same(item, subs);
            let out = out.push(rewritten(item, subs));
            {
                assert(out =~= items.take(i + 1int));
                rewritten_expr_list_same(items, subs, i + 1, out);
                rewritten_expr_list(items, subs, i + 1, out)
            }
        }
    };
}

proof fn rewritten_kw_arg_same(
    kw_arg: KwArgView,
    subs: Seq<(Seq<char>, CtValueView)>,
)
    requires
        subs.len() == 0,
    ensures
        rewritten_kw_arg(kw_arg, subs) == kw_arg,
    decreases kw_arg, 0nat,
{
    let _ = {
        KwArgView { name: kw_arg.name, value: {
            rewritten_same(kw_arg.value, subs);
            rewritten(kw_arg.value, subs)
        } }
    };
}

proof fn rewritten_kw_arg_list_same(
    items: Seq<KwArgView>,
    subs: Seq<(Seq<char>, CtValueView)>,
    i: nat,
    out: Seq<KwArgView>,
)
    requires
        subs.len() == 0,
        i <= items.len(),
        out =~= items.take(i as int),
    ensures
        rewritten_kw_arg_list(items, subs, i, out) == items,
    decreases items, (items.len() - i) as nat,
{
    let _ = {
        if i >= items.len() {
            assert(items.take(i as int) =~= items);
            out
        } else {
            let item = items[i as int];
            rewritten_kw_arg_same(item, subs);
            let out = out.push(rewritten_kw_arg(item, subs));
            {
                assert(out =~= items.take(i + 1int));
                rewritten_kw_arg_list_same(items, subs, i + 1, out);
                rewritten_kw_arg_list(items, subs, i + 1, out)
            }
        }
    };
}

proof fn rewritten_opt_boxed_expr_same(
    value: Option<Box<ExprView>>,
    subs: Seq<(Seq<char>, CtValueView)>,
)
    requires
        subs.len() == 0,
    ensures
        rewritten_opt_boxed_expr(value, subs) == value,
    decreases value, 0nat,
{
    let _ = {
        match value {
            Some(value) => Some(Box::new({
                rewritten_same(*value, subs);
                rewritten(*value, subs)
            })),
            None => None,
        }
    };
}

proof fn rewritten_subscript_arg_same(
    subscript_arg: SubscriptArgView,
    subs: Seq<(Seq<char>, CtValueView)>,
)
    requires
        subs.len() == 0,
    ensures
        rewritten_subscript_arg(subscript_arg, subs) == subscript_arg,
    decreases subscript_arg, 0nat,
{
    let _ = {
        match subscript_arg {
            SubscriptArgView::Index(a0) => SubscriptArgView::Index({
                rewritten_same(a0, subs);
                rewritten(a0, subs)
            }),
            SubscriptArgView::Slice { lower, upper, step } => SubscriptArgView::Slice {
                lower: {
                    rewritten_opt_boxed_expr_same(lower, subs);
                    rewritten_opt_boxed_expr(lower, subs)
                },
                upper: {
                    rewritten_opt_boxed_expr_same(upper, subs);
                    rewritten_opt_boxed_expr(upper, subs)
                },
                step: {
                    rewritten_opt_boxed_expr_same(step, subs);
                    rewritten_opt_boxed_expr(step, subs)
                },
            },
        }
    };
}

proof fn rewritten_subscript_arg_list_same(
    items: Seq<SubscriptArgView>,
    subs: Seq<(Seq<char>, CtValueView)>,
    i: nat,
    out: Seq<SubscriptArgView>,
)
    requires
        subs.len() == 0,
        i <= items.len(),
        out =~= items.take(i as int),
    ensures
        rewritten_subscript_arg_list(items, subs, i, out) == items,
    decreases items, (items.len() - i) as nat,
{
    let _ = {
        if i >= items.len() {
            assert(items.take(i as int) =~= items);
            out
        } else {
            let item = items[i as int];
            rewritten_subscript_arg_same(item, subs);
            let out = out.push(rewritten_subscript_arg(item, subs));
            {
                assert(out =~= items.take(i + 1int));
                rewritten_subscript_arg_list_same(items, subs, i + 1, out);
                rewritten_subscript_arg_list(items, subs, i + 1, out)
            }
        }
    };
}

proof fn rewritten_expr_kind_same(
    expr_kind: ExprKindView,
    subs: Seq<(Seq<char>, CtValueView)>,
)
    requires
        subs.len() == 0,
    ensures
        rewritten_expr_kind(expr_kind, subs) == expr_kind,
    decreases expr_kind, 2nat,
{
    let _ = {
        match expr_kind {
            ExprKindView::TypeApply { name, args } => ExprKindView::TypeApply {
                name,
                args: {
                    rewritten_param_arg_list_same(args, subs, 0, Seq::empty());
                    rewritten_param_arg_list(args, subs, 0, Seq::empty())
                },
            },
            ExprKindView::Prefix(a0, a1) => ExprKindView::Prefix(a0, Box::new({
                rewritten_same(*a1, subs);
                rewritten(*a1, subs)
            })),
            ExprKindView::Transfer(a0) => ExprKindView::Transfer(Box::new({
                rewritten_same(*a0, subs);
                rewritten(*a0, subs)
            })),
            ExprKindView::Spread(a0) => ExprKindView::Spread(Box::new({
                rewritten_same(*a0, subs);
                rewritten(*a0, subs)
            })),
            ExprKindView::Infix(a0, a1, a2) => ExprKindView::Infix(
                a0,
                Box::new({
                    rewritten_same(*a1, subs);
                    rewritten(*a1, subs)
                }),
                Box::new({
                    rewritten_same(*a2, subs);
                    rewritten(*a2, subs)
                }),
            ),
            ExprKindView::Compare { first, rest } => ExprKindView::Compare {
                first: Box::new({
                    rewritten_same(*first, subs);
                    rewritten(*first, subs)
                }),
                rest: {
                    rewritten_comparison_list_same(rest, subs, 0, Seq::empty());
                    rewritten_comparison_list(rest, subs, 0, Seq::empty())
                },
            },
            _ => {
                rewritten_expr_kind_more_same(expr_kind, subs);
                rewritten_expr_kind_more(expr_kind, subs)
            },
        }
    };
}

proof fn rewritten_expr_kind_more_same(
    expr_kind: ExprKindView,
    subs: Seq<(Seq<char>, CtValueView)>,
)
    requires
        subs.len() == 0,
    ensures
        rewritten_expr_kind_more(expr_kind, subs) == expr_kind,
    decreases expr_kind, 1nat,
{
    let _ = {
        match expr_kind {
            ExprKindView::Call { name, param_args, args, kwargs } => ExprKindView::Call {
                name,
                param_args: {
                    rewritten_param_arg_list_same(param_args, subs, 0, Seq::empty());
                    rewritten_param_arg_list(param_args, subs, 0, Seq::empty())
                },
                args: {
                    rewritten_expr_list_same(args, subs, 0, Seq::empty());
                    rewritten_expr_list(args, subs, 0, Seq::empty())
                },
                kwargs: {
                    rewritten_kw_arg_list_same(kwargs, subs, 0, Seq::empty());
                    rewritten_kw_arg_list(kwargs, subs, 0, Seq::empty())
                },
            },
            ExprKindView::Member { object, field } => ExprKindView::Member {
                object: Box::new({
                    rewritten_same(*object, subs);
                    rewritten(*object, subs)
                }),
                field,
            },
            ExprKindView::MethodCall { object, method, args, kwargs } => ExprKindView::MethodCall {
                object: Box::new({
                    rewritten_same(*object, subs);
                    rewritten(*object, subs)
                }),
                method,
                args: {
                    rewritten_expr_list_same(args, subs, 0, Seq::empty());
                    rewritten_expr_list(args, subs, 0, Seq::empty())
                },
                kwargs: {
                    rewritten_kw_arg_list_same(kwargs, subs, 0, Seq::empty());
                    rewritten_kw_arg_list(kwargs, subs, 0, Seq::empty())
                },
            },
            ExprKindView::Index { object, index } => ExprKindView::Index {
                object: Box::new({
                    rewritten_same(*object, subs);
                    rewritten(*object, subs)
                }),
                index: Box::new({
                    rewritten_same(*index, subs);
                    rewritten(*index, subs)
                }),
            },
            ExprKindView::Slice { object, lower, upper, step } => ExprKindView::Slice {
                object: Box::new({
                    rewritten_same(*object, subs);
                    rewritten(*object, subs)
                }),
                lower: {
                    rewritten_opt_boxed_expr_same(lower, subs);
                    rewritten_opt_boxed_expr(lower, subs)
                },
                upper: {
                    rewritten_opt_boxed_expr_same(upper, subs);
                    rewritten_opt_boxed_expr(upper, subs)
                },
                step: {
                    rewritten_opt_boxed_expr_same(step, subs);
                    rewritten_opt_boxed_expr(step, subs)
                },
            },
            ExprKindView::MultiIndex { object, args } => ExprKindView::MultiIndex {
                object: Box::new({
                    rewritten_same(*object, subs);
                    rewritten(*object, subs)
                }),
                args: {
                    rewritten_subscript_arg_list_same(args, subs, 0, Seq::empty());
                    rewritten_subscript_arg_list(args, subs, 0, Seq::empty())
                },
            },
            _ => {
                rewritten_expr_kind_further_same(expr_kind, subs);
                rewritten_expr_kind_further(expr_kind, subs)
            },
        }
    };
}

proof fn rewritten_expr_kind_further_same(
    expr_kind: ExprKindView,
    subs: Seq<(Seq<char>, CtValueView)>,
)
    requires
        subs.len() == 0,
    ensures
        rewritten_expr_kind_further(expr_kind, subs) == expr_kind,
    decreases expr_kind, 0nat,
{
    let _ = {
        match expr_kind {
            ExprKindView::ListLit(a0) => ExprKindView::ListLit(
                {
                    rewritten_expr_list_same(a0, subs, 0, Seq::empty());
                    rewritten_expr_list(a0, subs, 0, Seq::empty())
                }
            ),
            ExprKindView::TupleLit(a0) => ExprKindView::TupleLit(
                {
                    rewritten_expr_list_same(a0, subs, 0, Seq::empty());
                    rewritten_expr_list(a0, subs, 0, Seq::empty())
                }
            ),
            ExprKindView::Named { name, value } => ExprKindView::Named {
                name,
                value: Box::new({
                    rewritten_same(*value, subs);
                    rewritten(*value, subs)
                }),
            },
            ExprKindView::IfExpr { cond, then_branch, else_branch } => ExprKindView::IfExpr {
                cond: Box::new({
                    rewritten_same(*cond, subs);
                    rewritten(*cond, subs)
                }),
                then_branch: Box::new({
                    rewritten_same(*then_branch, subs);
                    rewritten(*then_branch, subs)
                }),
                else_branch: Box::new({
                    rewritten_same(*else_branch, subs);
                    rewritten(*else_branch, subs)
                }),
            },
            _ => expr_kind,
        }
    };
}

proof fn rewritten_opt_expr_same(
    value: Option<ExprView>,
    subs: Seq<(Seq<char>, CtValueView)>,
)
    requires
        subs.len() == 0,
    ensures
        rewritten_opt_expr(value, subs) == value,
    decreases value, 0nat,
{
    let _ = {
        match value {
            Some(value) => Some({
                rewritten_same(value, subs);
                rewritten(value, subs)
            }),
            None => None,
        }
    };
}

proof fn rewritten_stmt_list_same(
    items: Seq<StmtView>,
    subs: Seq<(Seq<char>, CtValueView)>,
    into_defs: bool,
    i: nat,
    out: Seq<StmtView>,
)
    requires
        subs.len() == 0,
        i <= items.len(),
        out =~= items.take(i as int),
    ensures
        rewritten_stmt_list(items, subs, into_defs, i, out) == items,
    decreases items, (items.len() - i) as nat,
{
    let _ = {
        if i >= items.len() {
            assert(items.take(i as int) =~= items);
            out
        } else {
            let item = items[i as int];
            rewritten_stmt_same(item, subs, into_defs);
            let out = out.push(rewritten_stmt(item, subs, into_defs));
            {
                assert(out =~= items.take(i + 1int));
                rewritten_stmt_list_same(items, subs, into_defs, i + 1, out);
                rewritten_stmt_list(items, subs, into_defs, i + 1, out)
            }
        }
    };
}

proof fn rewritten_branch_list_same(
    items: Seq<(ExprView, Seq<StmtView>)>,
    subs: Seq<(Seq<char>, CtValueView)>,
    into_defs: bool,
    i: nat,
    out: Seq<(ExprView, Seq<StmtView>)>,
)
    requires
        subs.len() == 0,
        i <= items.len(),
        out =~= items.take(i as int),
    ensures
        rewritten_branch_list(items, subs, into_defs, i, out) == items,
    decreases items, (items.len() - i) as nat,
{
    let _ = {
        if i >= items.len() {
            assert(items.take(i as int) =~= items);
            out
        } else {
            let item = items[i as int];
            rewritten_same(item.0, subs);
            rewritten_stmt_list_same(item.1, subs, into_defs, 0, Seq::empty());
            let out = out.push(
                (rewritten(item.0, subs), rewritten_stmt_list(item.1, subs, into_defs, 0, Seq::empty()))
            );
            {
                assert(out =~= items.take(i + 1int));
                rewritten_branch_list_same(items, subs, into_defs, i + 1, out);
                rewritten_branch_list(items, subs, into_defs, i + 1, out)
            }
        }
    };
}

proof fn rewritten_opt_stmt_list_same(
    value: Option<Seq<StmtView>>,
    subs: Seq<(Seq<char>, CtValueView)>,
    into_defs: bool,
)
    requires
        subs.len() == 0,
    ensures
        rewritten_opt_stmt_list(value, subs, into_defs) == value,
    decreases value, 0nat,
{
    let _ = {
        match value {
            Some(value) => Some({
                rewritten_stmt_list_same(value, subs, into_defs, 0, Seq::empty());
                rewritten_stmt_list(value, subs, into_defs, 0, Seq::empty())
            }),
            None => None,
        }
    };
}

proof fn rewritten_opt_opt_string_stmt_list_same(
    value: Option<(Option<Seq<char>>, Seq<StmtView>)>,
    subs: Seq<(Seq<char>, CtValueView)>,
    into_defs: bool,
)
    requires
        subs.len() == 0,
    ensures
        rewritten_opt_opt_string_stmt_list(value, subs, into_defs) == value,
    decreases value, 0nat,
{
    let _ = {
        match value {
            Some(value) => Some(
                (value.0, {
                    rewritten_stmt_list_same(value.1, subs, into_defs, 0, Seq::empty());
                    rewritten_stmt_list(value.1, subs, into_defs, 0, Seq::empty())
                })
            ),
            None => None,
        }
    };
}

proof fn rewritten_with_item_same(
    with_item: WithItemView,
    subs: Seq<(Seq<char>, CtValueView)>,
    into_defs: bool,
)
    requires
        subs.len() == 0,
    ensures
        rewritten_with_item(with_item, subs, into_defs) == with_item,
    decreases with_item, 0nat,
{
    let _ = {
        WithItemView { context: {
            rewritten_same(with_item.context, subs);
            rewritten(with_item.context, subs)
        }, var: with_item.var }
    };
}

proof fn rewritten_with_item_list_same(
    items: Seq<WithItemView>,
    subs: Seq<(Seq<char>, CtValueView)>,
    into_defs: bool,
    i: nat,
    out: Seq<WithItemView>,
)
    requires
        subs.len() == 0,
        i <= items.len(),
        out =~= items.take(i as int),
    ensures
        rewritten_with_item_list(items, subs, into_defs, i, out) == items,
    decreases items, (items.len() - i) as nat,
{
    let _ = {
        if i >= items.len() {
            assert(items.take(i as int) =~= items);
            out
        } else {
            let item = items[i as int];
            rewritten_with_item_same(item, subs, into_defs);
            let out = out.push(rewritten_with_item(item, subs, into_defs));
            {
                assert(out =~= items.take(i + 1int));
                rewritten_with_item_list_same(items, subs, into_defs, i + 1, out);
                rewritten_with_item_list(items, subs, into_defs, i + 1, out)
            }
        }
    };
}

proof fn rewritten_stmt_kind_same(
    stmt_kind: StmtKindView,
    subs: Seq<(Seq<char>, CtValueView)>,
    into_defs: bool,
)
    requires
        subs.len() == 0,
    ensures
        rewritten_stmt_kind(stmt_kind, subs, into_defs) == stmt_kind,
    decreases stmt_kind, 3nat,
{
    let _ = {
        match stmt_kind {
            StmtKindView::VarDecl { name, ty, value } => StmtKindView::VarDecl {
                name,
                ty,
                value: {
                    rewritten_same(value, subs);
                    rewritten(value, subs)
                },
            },
            StmtKindView::RefDecl { name, value } => StmtKindView::RefDecl {
                name,
                value: {
                    rewritten_same(value, subs);
                    rewritten(value, subs)
                },
            },
            StmtKindView::Assign { name, value } => StmtKindView::Assign {
                name,
                value: {
                    rewritten_same(value, subs);
                    rewritten(value, subs)
                },
            },
            StmtKindView::Comptime { name, value } => StmtKindView::Comptime {
                name,
                value: {
                    rewritten_same(value, subs);
                    rewritten(value, subs)
                },
            },
            StmtKindView::Raise(a0) => StmtKindView::Raise({
                rewritten_same(a0, subs);
                rewritten(a0, subs)
            }),
            StmtKindView::Return(a0) => StmtKindView::Return({
                rewritten_opt_expr_same(a0, subs);
                rewritten_opt_expr(a0, subs)
            }),
            _ => {
                rewritten_stmt_kind_more_same(stmt_kind, subs, into_defs);
                rewritten_stmt_kind_more(stmt_kind, subs, into_defs)
            },
        }
    };
}

proof fn rewritten_stmt_kind_more_same(
    stmt_kind: StmtKindView,
    subs: Seq<(Seq<char>, CtValueView)>,
    into_defs: bool,
)
    requires
        subs.len() == 0,
    ensures
        rewritten_stmt_kind_more(stmt_kind, subs, into_defs) == stmt_kind,
    decreases stmt_kind, 2nat,
{
    let _ = {
        match stmt_kind {
            StmtKindView::SetPlace { place, value } => StmtKindView::SetPlace {
                place: {
                    rewritten_same(place, subs);
                    rewritten(place, subs)
                },
                value: {
                    rewritten_same(value, subs);
                    rewritten(value, subs)
                },
            },
            StmtKindView::AugAssign { place, op, value } => StmtKindView::AugAssign {
                place: {
                    rewritten_same(place, subs);
                    rewritten(place, subs)
                },
                op,
                value: {
                    rewritten_same(value, subs);
                    rewritten(value, subs)
                },
            },
            StmtKindView::Unpack { targets, value } => StmtKindView::Unpack {
                targets: {
                    rewritten_expr_list_same(targets, subs, 0, Seq::empty());
                    rewritten_expr_list(targets, subs, 0, Seq::empty())
                },
                value: {
                    rewritten_same(value, subs);
                    rewritten(value, subs)
                },
            },
            StmtKindView::Expr(a0) => StmtKindView::Expr({
                rewritten_same(a0, subs);
                rewritten(a0, subs)
            }),
            StmtKindView::If { branches, orelse } => StmtKindView::If {
                branches: {
                    rewritten_branch_list_same(branches, subs, into_defs, 0, Seq::empty());
                    rewritten_branch_list(branches, subs, into_defs, 0, Seq::empty())
                },
                orelse: {
                    rewritten_opt_stmt_list_same(orelse, subs, into_defs);
                    rewritten_opt_stmt_list(orelse, subs, into_defs)
                },
            },
            StmtKindView::ComptimeIf { branches, orelse } => StmtKindView::ComptimeIf {
                branches: {
                    rewritten_branch_list_same(branches, subs, into_defs, 0, Seq::empty());
                    rewritten_branch_list(branches, subs, into_defs, 0, Seq::empty())
                },
                orelse: {
                    rewritten_opt_stmt_list_same(orelse, subs, into_defs);
                    rewritten_opt_stmt_list(orelse, subs, into_defs)
                },
            },
            _ => {
                rewritten_stmt_kind_further_same(stmt_kind, subs, into_defs);
                rewritten_stmt_kind_further(stmt_kind, subs, into_defs)
            },
        }
    };
}

proof fn rewritten_stmt_kind_further_same(
    stmt_kind: StmtKindView,
    subs: Seq<(Seq<char>, CtValueView)>,
    into_defs: bool,
)
    requires
        subs.len() == 0,
    ensures
        rewritten_stmt_kind_further(stmt_kind, subs, into_defs) == stmt_kind,
    decreases stmt_kind, 1nat,
{
    let _ = {
        match stmt_kind {
            StmtKindView::While { cond, body, orelse } => StmtKindView::While {
                cond: {
                    rewritten_same(cond, subs);
                    rewritten(cond, subs)
                },
                body: {
                    rewritten_stmt_list_same(body, subs, into_defs, 0, Seq::empty());
                    rewritten_stmt_list(body, subs, into_defs, 0, Seq::empty())
                },
                orelse: {
                    rewritten_opt_stmt_list_same(orelse, subs, into_defs);
                    rewritten_opt_stmt_list(orelse, subs, into_defs)
                },
            },
            StmtKindView::For { var, reference, owned, iter, body, orelse } => StmtKindView::For {
                var,
                reference,
                owned,
                iter: {
                    rewritten_same(iter, subs);
                    rewritten(iter, subs)
                },
                body: {
                    rewritten_stmt_list_same(body, subs, into_defs, 0, Seq::empty());
                    rewritten_stmt_list(body, subs, into_defs, 0, Seq::empty())
                },
                orelse: {
                    rewritten_opt_stmt_list_same(orelse, subs, into_defs);
                    rewritten_opt_stmt_list(orelse, subs, into_defs)
                },
            },
            StmtKindView::ComptimeFor { var, iter, body } => StmtKindView::ComptimeFor {
                var,
                iter: {
                    rewritten_same(iter, subs);
                    rewritten(iter, subs)
                },
                body: {
                    rewritten_stmt_list_same(body, subs, into_defs, 0, Seq::empty());
                    rewritten_stmt_list(body, subs, into_defs, 0, Seq::empty())
                },
            },
            StmtKindView::Try { body, except, orelse, finalbody } => StmtKindView::Try {
                body: {
                    rewritten_stmt_list_same(body, subs, into_defs, 0, Seq::empty());
                    rewritten_stmt_list(body, subs, into_defs, 0, Seq::empty())
                },
                except: {
                    rewritten_opt_opt_string_stmt_list_same(except, subs, into_defs);
                    rewritten_opt_opt_string_stmt_list(except, subs, into_defs)
                },
                orelse: {
                    rewritten_opt_stmt_list_same(orelse, subs, into_defs);
                    rewritten_opt_stmt_list(orelse, subs, into_defs)
                },
                finalbody: {
                    rewritten_opt_stmt_list_same(finalbody, subs, into_defs);
                    rewritten_opt_stmt_list(finalbody, subs, into_defs)
                },
            },
            StmtKindView::With { items, body } => StmtKindView::With {
                items: {
                    rewritten_with_item_list_same(items, subs, into_defs, 0, Seq::empty());
                    rewritten_with_item_list(items, subs, into_defs, 0, Seq::empty())
                },
                body: {
                    rewritten_stmt_list_same(body, subs, into_defs, 0, Seq::empty());
                    rewritten_stmt_list(body, subs, into_defs, 0, Seq::empty())
                },
            },
            StmtKindView::Def {
                name,
                decorators,
                type_params,
                params,
                positional_only,
                keyword_only,
                captures,
                raises,
                raises_type,
                ret,
                where_clause,
                body,
            } => if into_defs {
                let inner = values_visible(
                    subs,
                    names_of_params(params, 0, Seq::empty()),
                    0,
                    Seq::empty(),
                );
                StmtKindView::Def {
                    name,
                    decorators,
                    type_params,
                    params,
                    positional_only,
                    keyword_only,
                    captures,
                    raises,
                    raises_type,
                    ret,
                    where_clause,
                    body: {
                        rewritten_stmt_list_same(body, inner, into_defs, 0, Seq::empty());
                        rewritten_stmt_list(body, inner, into_defs, 0, Seq::empty())
                    },
                }
            } else {
                stmt_kind
            },
            _ => {
                rewritten_stmt_kind_rest_same(stmt_kind, subs, into_defs);
                rewritten_stmt_kind_rest(stmt_kind, subs, into_defs)
            },
        }
    };
}

proof fn rewritten_stmt_kind_rest_same(
    stmt_kind: StmtKindView,
    subs: Seq<(Seq<char>, CtValueView)>,
    into_defs: bool,
)
    requires
        subs.len() == 0,
    ensures
        rewritten_stmt_kind_rest(stmt_kind, subs, into_defs) == stmt_kind,
    decreases stmt_kind, 0nat,
{
    let _ = {
        match stmt_kind {
            StmtKindView::Struct {
                name,
                decorators,
                type_params,
                conforms,
                callable_conformance,
                conformance_conditions,
                fields,
                associated,
                methods,
                fieldwise_init,
            } => if into_defs {
                StmtKindView::Struct {
                    name,
                    decorators,
                    type_params,
                    conforms,
                    callable_conformance,
                    conformance_conditions,
                    fields,
                    associated,
                    methods: {
                        rewritten_methods_same(methods, subs, 0, Seq::empty());
                        rewritten_methods(methods, subs, 0, Seq::empty())
                    },
                    fieldwise_init,
                }
            } else {
                stmt_kind
            },
            _ => stmt_kind,
        }
    };
}

proof fn rewritten_stmt_same(
    stmt: StmtView,
    subs: Seq<(Seq<char>, CtValueView)>,
    into_defs: bool,
)
    requires
        subs.len() == 0,
    ensures
        rewritten_stmt(stmt, subs, into_defs) == stmt,
    decreases stmt, 0nat,
{
    let _ = {
        StmtView {
            kind: {
                rewritten_stmt_kind_same(stmt.kind, subs, into_defs);
                rewritten_stmt_kind(stmt.kind, subs, into_defs)
            },
            span: stmt.span,
            module: stmt.module,
        }
    };
}

proof fn rewritten_methods_same(
    methods: Seq<MethodView>,
    subs: Seq<(Seq<char>, CtValueView)>,
    i: nat,
    out: Seq<MethodView>,
)
    requires
        subs.len() == 0,
        i <= methods.len(),
        out =~= methods.take(i as int),
    ensures
        rewritten_methods(methods, subs, i, out) == methods,
    decreases methods, (methods.len() - i) as nat,
{
    let _ = {
        if i >= methods.len() {
            assert(methods.take(i as int) =~= methods);
            out
        } else {
            let method = methods[i as int];
            rewritten_method_same(method, subs);
            let out = out.push(rewritten_method(method, subs));
            {
                assert(out =~= methods.take(i + 1int));
                rewritten_methods_same(methods, subs, i + 1, out);
                rewritten_methods(methods, subs, i + 1, out)
            }
        }
    };
}

proof fn rewritten_method_same(
    method: MethodView,
    subs: Seq<(Seq<char>, CtValueView)>,
)
    requires
        subs.len() == 0,
    ensures
        rewritten_method(method, subs) == method,
    decreases method, 0nat,
{
    let _ = {
        let inner = values_visible(subs, names_of_params(method.params, 0, seq!["self"@]), 0, Seq::empty());
        MethodView {
            name: method.name,
            has_self: method.has_self,
            self_convention: method.self_convention,
            params: method.params,
            positional_only: method.positional_only,
            keyword_only: method.keyword_only,
            raises_type: method.raises_type,
            ret: method.ret,
            body: {
                rewritten_stmt_list_same(method.body, inner, true, 0, Seq::empty());
                rewritten_stmt_list(method.body, inner, true, 0, Seq::empty())
            },
        }
    };
}

/// Where there are no values to put in, a program stays as it is.
pub proof fn nothing_to_replace(body: Seq<StmtView>, subs: Seq<(Seq<char>, CtValueView)>)
    requires
        subs.len() == 0,
    ensures
        materialized(body, subs) == body,
{
    assert(body.take(0) =~= Seq::<StmtView>::empty());
    reveal(materialized);
    rewritten_stmt_list_same(body, subs, true, 0, Seq::empty());
}

} // verus!
