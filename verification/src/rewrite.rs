//! Replacement of names by compile-time values.

use crate::ast::{
    Expr, ExprKind, ExprKindView, ExprView, InfixOp, KwArg, KwArgView, Method, MethodView,
    ParamArg, ParamArgView, Stmt, StmtKind, StmtKindView, StmtView, SubscriptArg, SubscriptArgView,
    WithItem, WithItemView, branch_list_view, clone_capture_list, clone_expr, clone_expr_kind,
    clone_expr_list, clone_fn_param_list, clone_param_arg, clone_param_list, clone_stmt_kind,
    clone_struct_comptime_list, clone_type, clone_type_param_list, comparison_list_view,
    expr_list_view, kw_arg_list_view, method_list_view, param_arg_list_view, stmt_list_view,
    subscript_arg_list_view, unfold_expr_kind, unfold_method, unfold_stmt_kind,
    with_item_list_view,
};
use crate::ct::literal_of;
use crate::nested::{names_of_params, param_names};
use crate::text::{clone_string_list, contains_name, opt_view, same_string, string_list_view};
use crate::types::{CtValue, CtValueView, binding_list_view, clone_ct_value};
use crate::values::Value;
use vstd::prelude::*;

verus! {

/// The value of the last entry of a key.
pub open spec fn value_bound(entries: Seq<(Seq<char>, CtValueView)>, key: Seq<char>) -> Option<CtValueView>
    decreases entries.len(),
{
    if entries.len() == 0 {
        None
    } else if entries.last().0 == key {
        Some(entries.last().1)
    } else {
        value_bound(entries.drop_last(), key)
    }
}

/// See [`value_bound`].
pub fn find_binding(entries: &Vec<(String, CtValue)>, key: &String) -> (r: Option<CtValue>)
    ensures
        opt_view(r) == value_bound(binding_list_view(entries@), key@),
{
    let ghost all = binding_list_view(entries@);
    let mut i: usize = entries.len();
    assert(all.take(i as int) =~= all);
    while i > 0
        invariant
            i <= entries@.len(),
            all == binding_list_view(entries@),
            all.len() == entries@.len(),
            value_bound(all, key@) == value_bound(all.take(i as int), key@),
        decreases i,
    {
        assert(all.take(i as int).last() == all[i - 1]);
        assert(all.take(i as int).drop_last() =~= all.take(i - 1));
        i = i - 1;
        if same_string(&entries[i].0, key) {
            return Some(clone_ct_value(&entries[i].1));
        }
    }
    None
}

/// An expression, or the literal of the value that stands for it.
#[verifier::opaque]
pub open spec fn replaced_by(expr: ExprView, value: Option<CtValueView>) -> ExprView {
    match value {
        Some(value) => match literal_of(value, expr.span) {
            Some(literal) => literal,
            None => expr,
        },
        None => expr,
    }
}

/// See [`replaced_by`].
pub fn replaced(expr: &Expr, value: Option<CtValue>) -> (r: Expr)
    ensures
        r@ == replaced_by(expr@, opt_view(value)),
{
    proof { reveal(replaced_by); }
    match value {
        Some(value) => {
            match value.materialize(expr.span) {
                Some(literal) => literal,
                None => clone_expr(expr),
            }
        },
        None => clone_expr(expr),
    }
}

/// The values that none of some names hides.
pub open spec fn values_visible(
    subs: Seq<(Seq<char>, CtValueView)>,
    names: Seq<Seq<char>>,
    i: nat,
    out: Seq<(Seq<char>, CtValueView)>,
) -> Seq<(Seq<char>, CtValueView)>
    decreases subs, (subs.len() - i) as nat,
{
    if i >= subs.len() {
        out
    } else {
        let entry = subs[i as int];
        if !names.contains(entry.0) {
            let out = out.push((entry.0, entry.1));
            values_visible(subs, names, i + 1, out)
        } else {
            values_visible(subs, names, i + 1, out)
        }
    }
}

/// See [`values_visible`].
pub fn unshadowed(
    subs: &Vec<(String, CtValue)>,
    names: &Vec<String>,
) -> (r: Vec<(String, CtValue)>)
    ensures
        binding_list_view(r@) == values_visible(
            binding_list_view(subs@),
            string_list_view(names@),
            0,
            Seq::<(Seq<char>, CtValueView)>::empty(),
        ),
    decreases subs@, 0nat,
{
    let mut out: Vec<(String, CtValue)> = Vec::new();
    assert(binding_list_view(out@) =~= Seq::<(Seq<char>, CtValueView)>::empty());
    let ghost goal = values_visible(
        binding_list_view(subs@),
        string_list_view(names@),
        0,
        Seq::<(Seq<char>, CtValueView)>::empty(),
    );
    let mut i: usize = 0;
    while i < subs.len()
        invariant
            i <= subs@.len(),
            binding_list_view(subs@).len() == subs@.len(),
            values_visible(
                binding_list_view(subs@),
                string_list_view(names@),
                i as nat,
                binding_list_view(out@),
            ) == goal,
            goal == values_visible(
                binding_list_view(subs@),
                string_list_view(names@),
                0,
                Seq::<(Seq<char>, CtValueView)>::empty(),
            ),
        decreases subs@.len() - i,
    {
        let entry = &subs[i];
        assert(binding_list_view(subs@)[i as int].0 =~= entry.0@);
        assert(binding_list_view(subs@)[i as int].1 =~= entry.1@);
        if !contains_name(names, &entry.0) {
            let item = ((&entry.0).clone(), clone_ct_value(&entry.1));
            let ghost before = binding_list_view(out@);
            let ghost added = (item.0@, item.1@);
            out.push(item);
            assert(binding_list_view(out@) =~= before.push(added));
        }
        i = i + 1;
    }
    out
}

/// An expression with the names that have a value replaced by it, as far as the
/// value can be written as a literal. Template strings, braces, comprehensions,
/// calls of values and type annotations stay as they are.
pub open spec fn rewritten(expr: ExprView, subs: Seq<(Seq<char>, CtValueView)>) -> ExprView
    decreases expr, 0nat,
{
    match expr.kind {
        ExprKindView::Identifier(name) => replaced_by(expr, value_bound(subs, name)),
        _ => ExprView {
            kind: rewritten_expr_kind(expr.kind, subs),
            span: expr.span,
            source: expr.source,
        },
    }
}

/// See [`rewritten`].
pub fn rewrite_expr(expr: &Expr, subs: &Vec<(String, CtValue)>) -> (r: Expr)
    ensures
        r@ == rewritten(expr@, binding_list_view(subs@)),
    decreases expr, 0nat,
{
    proof { unfold_expr_kind(expr.kind); }
    match &expr.kind {
        ExprKind::Identifier(name) => replaced(expr, find_binding(subs, name)),
        _ => {
            assert(!(expr.kind@ is Identifier));
            Expr {
                kind: rewrite_expr_kind(&expr.kind, subs),
                span: expr.span,
                source: (match (&expr.source) { Some(y) => Some(y.clone()), None => None }),
            }
        },
    }
}

pub open spec fn rewritten_param_arg(
    param_arg: ParamArgView,
    subs: Seq<(Seq<char>, CtValueView)>,
) -> ParamArgView
    decreases param_arg, 0nat,
{
    match param_arg {
        ParamArgView::Value(a0) => ParamArgView::Value(rewritten(a0, subs)),
        _ => param_arg,
    }
}

/// See [`rewritten_param_arg`].
pub fn rewrite_param_arg(param_arg: &ParamArg, subs: &Vec<(String, CtValue)>) -> (r: ParamArg)
    ensures
        r@ == rewritten_param_arg(param_arg@, binding_list_view(subs@)),
    decreases param_arg, 0nat,
{
    match param_arg {
        ParamArg::Value(a0) => ParamArg::Value(rewrite_expr(a0, subs)),
        _ => {
            assert(!(param_arg@ is Value));
            clone_param_arg(param_arg)
        },
    }
}

pub open spec fn rewritten_param_arg_list(
    items: Seq<ParamArgView>,
    subs: Seq<(Seq<char>, CtValueView)>,
    i: nat,
    out: Seq<ParamArgView>,
) -> Seq<ParamArgView>
    decreases items, (items.len() - i) as nat,
{
    if i >= items.len() {
        out
    } else {
        let item = items[i as int];
        let out = out.push(rewritten_param_arg(item, subs));
        rewritten_param_arg_list(items, subs, i + 1, out)
    }
}

/// See [`rewritten_param_arg_list`].
pub fn rewrite_param_arg_list(
    items: &Vec<ParamArg>,
    subs: &Vec<(String, CtValue)>,
) -> (r: Vec<ParamArg>)
    ensures
        param_arg_list_view(r@) == rewritten_param_arg_list(
            param_arg_list_view(items@),
            binding_list_view(subs@),
            0,
            Seq::<ParamArgView>::empty(),
        ),
    decreases items@, 0nat,
{
    let mut out: Vec<ParamArg> = Vec::new();
    assert(param_arg_list_view(out@) =~= Seq::<ParamArgView>::empty());
    let ghost goal = rewritten_param_arg_list(
        param_arg_list_view(items@),
        binding_list_view(subs@),
        0,
        Seq::<ParamArgView>::empty(),
    );
    let mut i: usize = 0;
    while i < items.len()
        invariant
            i <= items@.len(),
            param_arg_list_view(items@).len() == items@.len(),
            rewritten_param_arg_list(
                param_arg_list_view(items@),
                binding_list_view(subs@),
                i as nat,
                param_arg_list_view(out@),
            ) == goal,
            goal == rewritten_param_arg_list(
                param_arg_list_view(items@),
                binding_list_view(subs@),
                0,
                Seq::<ParamArgView>::empty(),
            ),
        decreases items@.len() - i,
    {
        let item = &items[i];
        assert(param_arg_list_view(items@)[i as int] == item@);
        let item2 = rewrite_param_arg(item, subs);
        let ghost before = param_arg_list_view(out@);
        let ghost added = item2@;
        out.push(item2);
        assert(param_arg_list_view(out@) =~= before.push(added));
        i = i + 1;
    }
    out
}

pub open spec fn rewritten_comparison_list(
    items: Seq<(InfixOp, ExprView)>,
    subs: Seq<(Seq<char>, CtValueView)>,
    i: nat,
    out: Seq<(InfixOp, ExprView)>,
) -> Seq<(InfixOp, ExprView)>
    decreases items, (items.len() - i) as nat,
{
    if i >= items.len() {
        out
    } else {
        let item = items[i as int];
        let out = out.push((item.0, rewritten(item.1, subs)));
        rewritten_comparison_list(items, subs, i + 1, out)
    }
}

/// See [`rewritten_comparison_list`].
pub fn rewrite_comparison_list(
    items: &Vec<(InfixOp, Expr)>,
    subs: &Vec<(String, CtValue)>,
) -> (r: Vec<(InfixOp, Expr)>)
    ensures
        comparison_list_view(r@) == rewritten_comparison_list(
            comparison_list_view(items@),
            binding_list_view(subs@),
            0,
            Seq::<(InfixOp, ExprView)>::empty(),
        ),
    decreases items@, 0nat,
{
    let mut out: Vec<(InfixOp, Expr)> = Vec::new();
    assert(comparison_list_view(out@) =~= Seq::<(InfixOp, ExprView)>::empty());
    let ghost goal = rewritten_comparison_list(
        comparison_list_view(items@),
        binding_list_view(subs@),
        0,
        Seq::<(InfixOp, ExprView)>::empty(),
    );
    let mut i: usize = 0;
    while i < items.len()
        invariant
            i <= items@.len(),
            comparison_list_view(items@).len() == items@.len(),
            rewritten_comparison_list(
                comparison_list_view(items@),
                binding_list_view(subs@),
                i as nat,
                comparison_list_view(out@),
            ) == goal,
            goal == rewritten_comparison_list(
                comparison_list_view(items@),
                binding_list_view(subs@),
                0,
                Seq::<(InfixOp, ExprView)>::empty(),
            ),
        decreases items@.len() - i,
    {
        let item = &items[i];
        assert(comparison_list_view(items@)[i as int].1 =~= item.1@);
        let item2 = (item.0, rewrite_expr(&item.1, subs));
        let ghost before = comparison_list_view(out@);
        let ghost added = (item2.0, item2.1@);
        out.push(item2);
        assert(comparison_list_view(out@) =~= before.push(added));
        i = i + 1;
    }
    out
}

pub open spec fn rewritten_expr_list(
    items: Seq<ExprView>,
    subs: Seq<(Seq<char>, CtValueView)>,
    i: nat,
    out: Seq<ExprView>,
) -> Seq<ExprView>
    decreases items, (items.len() - i) as nat,
{
    if i >= items.len() {
        out
    } else {
        let item = items[i as int];
        let out = out.push(rewritten(item, subs));
        rewritten_expr_list(items, subs, i + 1, out)
    }
}

/// See [`rewritten_expr_list`].
pub fn rewrite_expr_list(items: &Vec<Expr>, subs: &Vec<(String, CtValue)>) -> (r: Vec<Expr>)
    ensures
        expr_list_view(r@) == rewritten_expr_list(
            expr_list_view(items@),
            binding_list_view(subs@),
            0,
            Seq::<ExprView>::empty(),
        ),
    decreases items@, 0nat,
{
    let mut out: Vec<Expr> = Vec::new();
    assert(expr_list_view(out@) =~= Seq::<ExprView>::empty());
    let ghost goal = rewritten_expr_list(
        expr_list_view(items@),
        binding_list_view(subs@),
        0,
        Seq::<ExprView>::empty(),
    );
    let mut i: usize = 0;
    while i < items.len()
        invariant
            i <= items@.len(),
            expr_list_view(items@).len() == items@.len(),
            rewritten_expr_list(
                expr_list_view(items@),
                binding_list_view(subs@),
                i as nat,
                expr_list_view(out@),
            ) == goal,
            goal == rewritten_expr_list(
                expr_list_view(items@),
                binding_list_view(subs@),
                0,
                Seq::<ExprView>::empty(),
            ),
        decreases items@.len() - i,
    {
        let item = &items[i];
        assert(expr_list_view(items@)[i as int] == item@);
        let item2 = rewrite_expr(item, subs);
        let ghost before = expr_list_view(out@);
        let ghost added = item2@;
        out.push(item2);
        assert(expr_list_view(out@) =~= before.push(added));
        i = i + 1;
    }
    out
}

pub open spec fn rewritten_kw_arg(
    kw_arg: KwArgView,
    subs: Seq<(Seq<char>, CtValueView)>,
) -> KwArgView
    decreases kw_arg, 0nat,
{
    KwArgView { name: kw_arg.name, value: rewritten(kw_arg.value, subs) }
}

/// See [`rewritten_kw_arg`].
pub fn rewrite_kw_arg(kw_arg: &KwArg, subs: &Vec<(String, CtValue)>) -> (r: KwArg)
    ensures
        r@ == rewritten_kw_arg(kw_arg@, binding_list_view(subs@)),
    decreases kw_arg, 0nat,
{
    KwArg { name: (&kw_arg.name).clone(), value: rewrite_expr(&kw_arg.value, subs) }
}

pub open spec fn rewritten_kw_arg_list(
    items: Seq<KwArgView>,
    subs: Seq<(Seq<char>, CtValueView)>,
    i: nat,
    out: Seq<KwArgView>,
) -> Seq<KwArgView>
    decreases items, (items.len() - i) as nat,
{
    if i >= items.len() {
        out
    } else {
        let item = items[i as int];
        let out = out.push(rewritten_kw_arg(item, subs));
        rewritten_kw_arg_list(items, subs, i + 1, out)
    }
}

/// See [`rewritten_kw_arg_list`].
pub fn rewrite_kw_arg_list(items: &Vec<KwArg>, subs: &Vec<(String, CtValue)>) -> (r: Vec<KwArg>)
    ensures
        kw_arg_list_view(r@) == rewritten_kw_arg_list(
            kw_arg_list_view(items@),
            binding_list_view(subs@),
            0,
            Seq::<KwArgView>::empty(),
        ),
    decreases items@, 0nat,
{
    let mut out: Vec<KwArg> = Vec::new();
    assert(kw_arg_list_view(out@) =~= Seq::<KwArgView>::empty());
    let ghost goal = rewritten_kw_arg_list(
        kw_arg_list_view(items@),
        binding_list_view(subs@),
        0,
        Seq::<KwArgView>::empty(),
    );
    let mut i: usize = 0;
    while i < items.len()
        invariant
            i <= items@.len(),
            kw_arg_list_view(items@).len() == items@.len(),
            rewritten_kw_arg_list(
                kw_arg_list_view(items@),
                binding_list_view(subs@),
                i as nat,
                kw_arg_list_view(out@),
            ) == goal,
            goal == rewritten_kw_arg_list(
                kw_arg_list_view(items@),
                binding_list_view(subs@),
                0,
                Seq::<KwArgView>::empty(),
            ),
        decreases items@.len() - i,
    {
        let item = &items[i];
        assert(kw_arg_list_view(items@)[i as int] == item@);
        let item2 = rewrite_kw_arg(item, subs);
        let ghost before = kw_arg_list_view(out@);
        let ghost added = item2@;
        out.push(item2);
        assert(kw_arg_list_view(out@) =~= before.push(added));
        i = i + 1;
    }
    out
}

pub open spec fn rewritten_opt_boxed_expr(
    value: Option<Box<ExprView>>,
    subs: Seq<(Seq<char>, CtValueView)>,
) -> Option<Box<ExprView>>
    decreases value, 0nat,
{
    match value {
        Some(value) => Some(Box::new(rewritten(*value, subs))),
        None => None,
    }
}

/// See [`rewritten_opt_boxed_expr`].
pub fn rewrite_opt_boxed_expr(
    value: &Option<Box<Expr>>,
    subs: &Vec<(String, CtValue)>,
) -> (r: Option<Box<Expr>>)
    ensures
        (match r { Some(v) => Some(Box::new(v@)), None => None }) == rewritten_opt_boxed_expr(
            (match value { Some(v) => Some(Box::new(v@)), None => None }),
            binding_list_view(subs@),
        ),
    decreases value, 0nat,
{
    match value {
        Some(value) => Some(Box::new(rewrite_expr(&**value, subs))),
        None => None,
    }
}

pub open spec fn rewritten_subscript_arg(
    subscript_arg: SubscriptArgView,
    subs: Seq<(Seq<char>, CtValueView)>,
) -> SubscriptArgView
    decreases subscript_arg, 0nat,
{
    match subscript_arg {
        SubscriptArgView::Index(a0) => SubscriptArgView::Index(rewritten(a0, subs)),
        SubscriptArgView::Slice { lower, upper, step } => SubscriptArgView::Slice {
            lower: rewritten_opt_boxed_expr(lower, subs),
            upper: rewritten_opt_boxed_expr(upper, subs),
            step: rewritten_opt_boxed_expr(step, subs),
        },
    }
}

/// See [`rewritten_subscript_arg`].
pub fn rewrite_subscript_arg(
    subscript_arg: &SubscriptArg,
    subs: &Vec<(String, CtValue)>,
) -> (r: SubscriptArg)
    ensures
        r@ == rewritten_subscript_arg(subscript_arg@, binding_list_view(subs@)),
    decreases subscript_arg, 0nat,
{
    match subscript_arg {
        SubscriptArg::Index(a0) => SubscriptArg::Index(rewrite_expr(a0, subs)),
        SubscriptArg::Slice { lower, upper, step } => SubscriptArg::Slice {
            lower: rewrite_opt_boxed_expr(lower, subs),
            upper: rewrite_opt_boxed_expr(upper, subs),
            step: rewrite_opt_boxed_expr(step, subs),
        },
    }
}

pub open spec fn rewritten_subscript_arg_list(
    items: Seq<SubscriptArgView>,
    subs: Seq<(Seq<char>, CtValueView)>,
    i: nat,
    out: Seq<SubscriptArgView>,
) -> Seq<SubscriptArgView>
    decreases items, (items.len() - i) as nat,
{
    if i >= items.len() {
        out
    } else {
        let item = items[i as int];
        let out = out.push(rewritten_subscript_arg(item, subs));
        rewritten_subscript_arg_list(items, subs, i + 1, out)
    }
}

/// See [`rewritten_subscript_arg_list`].
pub fn rewrite_subscript_arg_list(
    items: &Vec<SubscriptArg>,
    subs: &Vec<(String, CtValue)>,
) -> (r: Vec<SubscriptArg>)
    ensures
        subscript_arg_list_view(r@) == rewritten_subscript_arg_list(
            subscript_arg_list_view(items@),
            binding_list_view(subs@),
            0,
            Seq::<SubscriptArgView>::empty(),
        ),
    decreases items@, 0nat,
{
    let mut out: Vec<SubscriptArg> = Vec::new();
    assert(subscript_arg_list_view(out@) =~= Seq::<SubscriptArgView>::empty());
    let ghost goal = rewritten_subscript_arg_list(
        subscript_arg_list_view(items@),
        binding_list_view(subs@),
        0,
        Seq::<SubscriptArgView>::empty(),
    );
    let mut i: usize = 0;
    while i < items.len()
        invariant
            i <= items@.len(),
            subscript_arg_list_view(items@).len() == items@.len(),
            rewritten_subscript_arg_list(
                subscript_arg_list_view(items@),
                binding_list_view(subs@),
                i as nat,
                subscript_arg_list_view(out@),
            ) == goal,
            goal == rewritten_subscript_arg_list(
                subscript_arg_list_view(items@),
                binding_list_view(subs@),
                0,
                Seq::<SubscriptArgView>::empty(),
            ),
        decreases items@.len() - i,
    {
        let item = &items[i];
        assert(subscript_arg_list_view(items@)[i as int] == item@);
        let item2 = rewrite_subscript_arg(item, subs);
        let ghost before = subscript_arg_list_view(out@);
        let ghost added = item2@;
        out.push(item2);
        assert(subscript_arg_list_view(out@) =~= before.push(added));
        i = i + 1;
    }
    out
}

pub open spec fn rewritten_expr_kind(
    expr_kind: ExprKindView,
    subs: Seq<(Seq<char>, CtValueView)>,
) -> ExprKindView
    decreases expr_kind, 2nat,
{
    match expr_kind {
        ExprKindView::TypeApply { name, args } => ExprKindView::TypeApply {
            name,
            args: rewritten_param_arg_list(args, subs, 0, Seq::empty()),
        },
        ExprKindView::Prefix(a0, a1) => ExprKindView::Prefix(a0, Box::new(rewritten(*a1, subs))),
        ExprKindView::Transfer(a0) => ExprKindView::Transfer(Box::new(rewritten(*a0, subs))),
        ExprKindView::Spread(a0) => ExprKindView::Spread(Box::new(rewritten(*a0, subs))),
        ExprKindView::Infix(a0, a1, a2) => ExprKindView::Infix(
            a0,
            Box::new(rewritten(*a1, subs)),
            Box::new(rewritten(*a2, subs)),
        ),
        ExprKindView::Compare { first, rest } => ExprKindView::Compare {
            first: Box::new(rewritten(*first, subs)),
            rest: rewritten_comparison_list(rest, subs, 0, Seq::empty()),
        },
        _ => rewritten_expr_kind_more(expr_kind, subs),
    }
}

/// See [`rewritten_expr_kind`].
pub fn rewrite_expr_kind(expr_kind: &ExprKind, subs: &Vec<(String, CtValue)>) -> (r: ExprKind)
    ensures
        r@ == rewritten_expr_kind(expr_kind@, binding_list_view(subs@)),
    decreases expr_kind, 2nat,
{
    proof { unfold_expr_kind(*expr_kind); }
    match expr_kind {
        ExprKind::TypeApply { name, args } => {
            let kind = ExprKind::TypeApply {
                name: name.clone(),
                args: rewrite_param_arg_list(args, subs),
            };
            proof { unfold_expr_kind(kind); }
            kind
        },
        ExprKind::Prefix(a0, a1) => {
            let kind2 = ExprKind::Prefix(*a0, Box::new(rewrite_expr(&**a1, subs)));
            proof { unfold_expr_kind(kind2); }
            kind2
        },
        ExprKind::Transfer(a0) => {
            let kind3 = ExprKind::Transfer(Box::new(rewrite_expr(&**a0, subs)));
            proof { unfold_expr_kind(kind3); }
            kind3
        },
        ExprKind::Spread(a0) => {
            let kind4 = ExprKind::Spread(Box::new(rewrite_expr(&**a0, subs)));
            proof { unfold_expr_kind(kind4); }
            kind4
        },
        ExprKind::Infix(a0, a1, a2) => {
            let kind5 = ExprKind::Infix(
                *a0,
                Box::new(rewrite_expr(&**a1, subs)),
                Box::new(rewrite_expr(&**a2, subs)),
            );
            proof { unfold_expr_kind(kind5); }
            kind5
        },
        ExprKind::Compare { first, rest } => {
            let kind6 = ExprKind::Compare {
                first: Box::new(rewrite_expr(&**first, subs)),
                rest: rewrite_comparison_list(rest, subs),
            };
            proof { unfold_expr_kind(kind6); }
            kind6
        },
        _ => {
            assert(!(expr_kind@ is TypeApply));
            assert(!(expr_kind@ is Prefix));
            assert(!(expr_kind@ is Transfer));
            assert(!(expr_kind@ is Spread));
            assert(!(expr_kind@ is Infix));
            assert(!(expr_kind@ is Compare));
            rewrite_expr_kind_more(expr_kind, subs)
        },
    }
}

pub open spec fn rewritten_expr_kind_more(
    expr_kind: ExprKindView,
    subs: Seq<(Seq<char>, CtValueView)>,
) -> ExprKindView
    decreases expr_kind, 1nat,
{
    match expr_kind {
        ExprKindView::Call { name, param_args, args, kwargs } => ExprKindView::Call {
            name,
            param_args: rewritten_param_arg_list(param_args, subs, 0, Seq::empty()),
            args: rewritten_expr_list(args, subs, 0, Seq::empty()),
            kwargs: rewritten_kw_arg_list(kwargs, subs, 0, Seq::empty()),
        },
        ExprKindView::Member { object, field } => ExprKindView::Member {
            object: Box::new(rewritten(*object, subs)),
            field,
        },
        ExprKindView::MethodCall { object, method, args, kwargs } => ExprKindView::MethodCall {
            object: Box::new(rewritten(*object, subs)),
            method,
            args: rewritten_expr_list(args, subs, 0, Seq::empty()),
            kwargs: rewritten_kw_arg_list(kwargs, subs, 0, Seq::empty()),
        },
        ExprKindView::Index { object, index } => ExprKindView::Index {
            object: Box::new(rewritten(*object, subs)),
            index: Box::new(rewritten(*index, subs)),
        },
        ExprKindView::Slice { object, lower, upper, step } => ExprKindView::Slice {
            object: Box::new(rewritten(*object, subs)),
            lower: rewritten_opt_boxed_expr(lower, subs),
            upper: rewritten_opt_boxed_expr(upper, subs),
            step: rewritten_opt_boxed_expr(step, subs),
        },
        ExprKindView::MultiIndex { object, args } => ExprKindView::MultiIndex {
            object: Box::new(rewritten(*object, subs)),
            args: rewritten_subscript_arg_list(args, subs, 0, Seq::empty()),
        },
        _ => rewritten_expr_kind_further(expr_kind, subs),
    }
}

/// See [`rewritten_expr_kind_more`].
pub fn rewrite_expr_kind_more(
    expr_kind: &ExprKind,
    subs: &Vec<(String, CtValue)>,
) -> (r: ExprKind)
    ensures
        r@ == rewritten_expr_kind_more(expr_kind@, binding_list_view(subs@)),
    decreases expr_kind, 1nat,
{
    proof { unfold_expr_kind(*expr_kind); }
    match expr_kind {
        ExprKind::Call { name, param_args, args, kwargs } => {
            let kind = ExprKind::Call {
                name: name.clone(),
                param_args: rewrite_param_arg_list(param_args, subs),
                args: rewrite_expr_list(args, subs),
                kwargs: rewrite_kw_arg_list(kwargs, subs),
            };
            proof { unfold_expr_kind(kind); }
            kind
        },
        ExprKind::Member { object, field } => {
            let kind2 = ExprKind::Member {
                object: Box::new(rewrite_expr(&**object, subs)),
                field: field.clone(),
            };
            proof { unfold_expr_kind(kind2); }
            kind2
        },
        ExprKind::MethodCall { object, method, args, kwargs } => {
            let kind3 = ExprKind::MethodCall {
                object: Box::new(rewrite_expr(&**object, subs)),
                method: method.clone(),
                args: rewrite_expr_list(args, subs),
                kwargs: rewrite_kw_arg_list(kwargs, subs),
            };
            proof { unfold_expr_kind(kind3); }
            kind3
        },
        ExprKind::Index { object, index } => {
            let kind4 = ExprKind::Index {
                object: Box::new(rewrite_expr(&**object, subs)),
                index: Box::new(rewrite_expr(&**index, subs)),
            };
            proof { unfold_expr_kind(kind4); }
            kind4
        },
        ExprKind::Slice { object, lower, upper, step } => {
            let kind5 = ExprKind::Slice {
                object: Box::new(rewrite_expr(&**object, subs)),
                lower: rewrite_opt_boxed_expr(lower, subs),
                upper: rewrite_opt_boxed_expr(upper, subs),
                step: rewrite_opt_boxed_expr(step, subs),
            };
            proof { unfold_expr_kind(kind5); }
            kind5
        },
        ExprKind::MultiIndex { object, args } => {
            let kind6 = ExprKind::MultiIndex {
                object: Box::new(rewrite_expr(&**object, subs)),
                args: rewrite_subscript_arg_list(args, subs),
            };
            proof { unfold_expr_kind(kind6); }
            kind6
        },
        _ => {
            assert(!(expr_kind@ is Call));
            assert(!(expr_kind@ is Member));
            assert(!(expr_kind@ is MethodCall));
            assert(!(expr_kind@ is Index));
            assert(!(expr_kind@ is Slice));
            assert(!(expr_kind@ is MultiIndex));
            rewrite_expr_kind_further(expr_kind, subs)
        },
    }
}

pub open spec fn rewritten_expr_kind_further(
    expr_kind: ExprKindView,
    subs: Seq<(Seq<char>, CtValueView)>,
) -> ExprKindView
    decreases expr_kind, 0nat,
{
    match expr_kind {
        ExprKindView::ListLit(a0) => ExprKindView::ListLit(
            rewritten_expr_list(a0, subs, 0, Seq::empty())
        ),
        ExprKindView::TupleLit(a0) => ExprKindView::TupleLit(
            rewritten_expr_list(a0, subs, 0, Seq::empty())
        ),
        ExprKindView::Named { name, value } => ExprKindView::Named {
            name,
            value: Box::new(rewritten(*value, subs)),
        },
        ExprKindView::IfExpr { cond, then_branch, else_branch } => ExprKindView::IfExpr {
            cond: Box::new(rewritten(*cond, subs)),
            then_branch: Box::new(rewritten(*then_branch, subs)),
            else_branch: Box::new(rewritten(*else_branch, subs)),
        },
        _ => expr_kind,
    }
}

/// See [`rewritten_expr_kind_further`].
pub fn rewrite_expr_kind_further(
    expr_kind: &ExprKind,
    subs: &Vec<(String, CtValue)>,
) -> (r: ExprKind)
    ensures
        r@ == rewritten_expr_kind_further(expr_kind@, binding_list_view(subs@)),
    decreases expr_kind, 0nat,
{
    proof { unfold_expr_kind(*expr_kind); }
    match expr_kind {
        ExprKind::ListLit(a0) => {
            let kind = ExprKind::ListLit(rewrite_expr_list(a0, subs));
            proof { unfold_expr_kind(kind); }
            kind
        },
        ExprKind::TupleLit(a0) => {
            let kind2 = ExprKind::TupleLit(rewrite_expr_list(a0, subs));
            proof { unfold_expr_kind(kind2); }
            kind2
        },
        ExprKind::Named { name, value } => {
            let kind3 = ExprKind::Named {
                name: name.clone(),
                value: Box::new(rewrite_expr(&**value, subs)),
            };
            proof { unfold_expr_kind(kind3); }
            kind3
        },
        ExprKind::IfExpr { cond, then_branch, else_branch } => {
            let kind4 = ExprKind::IfExpr {
                cond: Box::new(rewrite_expr(&**cond, subs)),
                then_branch: Box::new(rewrite_expr(&**then_branch, subs)),
                else_branch: Box::new(rewrite_expr(&**else_branch, subs)),
            };
            proof { unfold_expr_kind(kind4); }
            kind4
        },
        _ => {
            assert(!(expr_kind@ is ListLit));
            assert(!(expr_kind@ is TupleLit));
            assert(!(expr_kind@ is Named));
            assert(!(expr_kind@ is IfExpr));
            clone_expr_kind(expr_kind)
        },
    }
}

pub open spec fn rewritten_opt_expr(
    value: Option<ExprView>,
    subs: Seq<(Seq<char>, CtValueView)>,
) -> Option<ExprView>
    decreases value, 0nat,
{
    match value {
        Some(value) => Some(rewritten(value, subs)),
        None => None,
    }
}

/// See [`rewritten_opt_expr`].
pub fn rewrite_opt_expr(
    value: &Option<Expr>,
    subs: &Vec<(String, CtValue)>,
) -> (r: Option<Expr>)
    ensures
        opt_view(r) == rewritten_opt_expr(opt_view(*value), binding_list_view(subs@)),
    decreases value, 0nat,
{
    match value {
        Some(value) => Some(rewrite_expr(value, subs)),
        None => None,
    }
}

pub open spec fn rewritten_stmt_list(
    items: Seq<StmtView>,
    subs: Seq<(Seq<char>, CtValueView)>,
    into_defs: bool,
    i: nat,
    out: Seq<StmtView>,
) -> Seq<StmtView>
    decreases items, (items.len() - i) as nat,
{
    if i >= items.len() {
        out
    } else {
        let item = items[i as int];
        let out = out.push(rewritten_stmt(item, subs, into_defs));
        rewritten_stmt_list(items, subs, into_defs, i + 1, out)
    }
}

/// See [`rewritten_stmt_list`].
pub fn rewrite_stmt_list(
    items: &Vec<Stmt>,
    subs: &Vec<(String, CtValue)>,
    into_defs: bool,
) -> (r: Vec<Stmt>)
    ensures
        stmt_list_view(r@) == rewritten_stmt_list(
            stmt_list_view(items@),
            binding_list_view(subs@),
            into_defs,
            0,
            Seq::<StmtView>::empty(),
        ),
    decreases items@, 0nat,
{
    let mut out: Vec<Stmt> = Vec::new();
    assert(stmt_list_view(out@) =~= Seq::<StmtView>::empty());
    let ghost goal = rewritten_stmt_list(
        stmt_list_view(items@),
        binding_list_view(subs@),
        into_defs,
        0,
        Seq::<StmtView>::empty(),
    );
    let mut i: usize = 0;
    while i < items.len()
        invariant
            i <= items@.len(),
            stmt_list_view(items@).len() == items@.len(),
            rewritten_stmt_list(
                stmt_list_view(items@),
                binding_list_view(subs@),
                into_defs,
                i as nat,
                stmt_list_view(out@),
            ) == goal,
            goal == rewritten_stmt_list(
                stmt_list_view(items@),
                binding_list_view(subs@),
                into_defs,
                0,
                Seq::<StmtView>::empty(),
            ),
        decreases items@.len() - i,
    {
        let item = &items[i];
        assert(stmt_list_view(items@)[i as int] == item@);
        let item2 = rewrite_stmt(item, subs, into_defs);
        let ghost before = stmt_list_view(out@);
        let ghost added = item2@;
        out.push(item2);
        assert(stmt_list_view(out@) =~= before.push(added));
        i = i + 1;
    }
    out
}

pub open spec fn rewritten_branch_list(
    items: Seq<(ExprView, Seq<StmtView>)>,
    subs: Seq<(Seq<char>, CtValueView)>,
    into_defs: bool,
    i: nat,
    out: Seq<(ExprView, Seq<StmtView>)>,
) -> Seq<(ExprView, Seq<StmtView>)>
    decreases items, (items.len() - i) as nat,
{
    if i >= items.len() {
        out
    } else {
        let item = items[i as int];
        let out = out.push(
            (rewritten(item.0, subs), rewritten_stmt_list(item.1, subs, into_defs, 0, Seq::empty()))
        );
        rewritten_branch_list(items, subs, into_defs, i + 1, out)
    }
}

/// See [`rewritten_branch_list`].
pub fn rewrite_branch_list(
    items: &Vec<(Expr, Vec<Stmt>)>,
    subs: &Vec<(String, CtValue)>,
    into_defs: bool,
) -> (r: Vec<(Expr, Vec<Stmt>)>)
    ensures
        branch_list_view(r@) == rewritten_branch_list(
            branch_list_view(items@),
            binding_list_view(subs@),
            into_defs,
            0,
            Seq::<(ExprView, Seq<StmtView>)>::empty(),
        ),
    decreases items@, 0nat,
{
    let mut out: Vec<(Expr, Vec<Stmt>)> = Vec::new();
    assert(branch_list_view(out@) =~= Seq::<(ExprView, Seq<StmtView>)>::empty());
    let ghost goal = rewritten_branch_list(
        branch_list_view(items@),
        binding_list_view(subs@),
        into_defs,
        0,
        Seq::<(ExprView, Seq<StmtView>)>::empty(),
    );
    let mut i: usize = 0;
    while i < items.len()
        invariant
            i <= items@.len(),
            branch_list_view(items@).len() == items@.len(),
            rewritten_branch_list(
                branch_list_view(items@),
                binding_list_view(subs@),
                into_defs,
                i as nat,
                branch_list_view(out@),
            ) == goal,
            goal == rewritten_branch_list(
                branch_list_view(items@),
                binding_list_view(subs@),
                into_defs,
                0,
                Seq::<(ExprView, Seq<StmtView>)>::empty(),
            ),
        decreases items@.len() - i,
    {
        let item = &items[i];
        assert(branch_list_view(items@)[i as int].0 =~= item.0@);
        assert(branch_list_view(items@)[i as int].1 =~= stmt_list_view(item.1@));
        let item2 = (rewrite_expr(&item.0, subs), rewrite_stmt_list(&item.1, subs, into_defs));
        let ghost before = branch_list_view(out@);
        let ghost added = (item2.0@, stmt_list_view(item2.1@));
        out.push(item2);
        assert(branch_list_view(out@) =~= before.push(added));
        i = i + 1;
    }
    out
}

pub open spec fn rewritten_opt_stmt_list(
    value: Option<Seq<StmtView>>,
    subs: Seq<(Seq<char>, CtValueView)>,
    into_defs: bool,
) -> Option<Seq<StmtView>>
    decreases value, 0nat,
{
    match value {
        Some(value) => Some(rewritten_stmt_list(value, subs, into_defs, 0, Seq::empty())),
        None => None,
    }
}

/// See [`rewritten_opt_stmt_list`].
pub fn rewrite_opt_stmt_list(
    value: &Option<Vec<Stmt>>,
    subs: &Vec<(String, CtValue)>,
    into_defs: bool,
) -> (r: Option<Vec<Stmt>>)
    ensures
        (match r { Some(v) => Some(stmt_list_view(v@)), None => None }) == rewritten_opt_stmt_list(
            (match value { Some(v) => Some(stmt_list_view(v@)), None => None }),
            binding_list_view(subs@),
            into_defs,
        ),
    decreases value, 0nat,
{
    match value {
        Some(value) => Some(rewrite_stmt_list(value, subs, into_defs)),
        None => None,
    }
}

pub open spec fn rewritten_opt_opt_string_stmt_list(
    value: Option<(Option<Seq<char>>, Seq<StmtView>)>,
    subs: Seq<(Seq<char>, CtValueView)>,
    into_defs: bool,
) -> Option<(Option<Seq<char>>, Seq<StmtView>)>
    decreases value, 0nat,
{
    match value {
        Some(value) => Some(
            (value.0, rewritten_stmt_list(value.1, subs, into_defs, 0, Seq::empty()))
        ),
        None => None,
    }
}

/// See [`rewritten_opt_opt_string_stmt_list`].
pub fn rewrite_opt_opt_string_stmt_list(
    value: &Option<(Option<String>, Vec<Stmt>)>,
    subs: &Vec<(String, CtValue)>,
    into_defs: bool,
) -> (r: Option<(Option<String>, Vec<Stmt>)>)
    ensures
        (
            match r { Some(v) => Some((opt_view(v.0), stmt_list_view(v.1@))), None => None }
        ) == rewritten_opt_opt_string_stmt_list(
            (match value { Some(v) => Some((opt_view(v.0), stmt_list_view(v.1@))), None => None }),
            binding_list_view(subs@),
            into_defs,
        ),
    decreases value, 0nat,
{
    match value {
        Some(value) => Some(
            (
                (match (&value.0) { Some(y) => Some(y.clone()), None => None }),
                rewrite_stmt_list(&value.1, subs, into_defs),
            )
        ),
        None => None,
    }
}

pub open spec fn rewritten_with_item(
    with_item: WithItemView,
    subs: Seq<(Seq<char>, CtValueView)>,
    into_defs: bool,
) -> WithItemView
    decreases with_item, 0nat,
{
    WithItemView { context: rewritten(with_item.context, subs), var: with_item.var }
}

/// See [`rewritten_with_item`].
pub fn rewrite_with_item(
    with_item: &WithItem,
    subs: &Vec<(String, CtValue)>,
    into_defs: bool,
) -> (r: WithItem)
    ensures
        r@ == rewritten_with_item(with_item@, binding_list_view(subs@), into_defs),
    decreases with_item, 0nat,
{
    WithItem {
        context: rewrite_expr(&with_item.context, subs),
        var: (match (&with_item.var) { Some(y) => Some(y.clone()), None => None }),
    }
}

pub open spec fn rewritten_with_item_list(
    items: Seq<WithItemView>,
    subs: Seq<(Seq<char>, CtValueView)>,
    into_defs: bool,
    i: nat,
    out: Seq<WithItemView>,
) -> Seq<WithItemView>
    decreases items, (items.len() - i) as nat,
{
    if i >= items.len() {
        out
    } else {
        let item = items[i as int];
        let out = out.push(rewritten_with_item(item, subs, into_defs));
        rewritten_with_item_list(items, subs, into_defs, i + 1, out)
    }
}

/// See [`rewritten_with_item_list`].
pub fn rewrite_with_item_list(
    items: &Vec<WithItem>,
    subs: &Vec<(String, CtValue)>,
    into_defs: bool,
) -> (r: Vec<WithItem>)
    ensures
        with_item_list_view(r@) == rewritten_with_item_list(
            with_item_list_view(items@),
            binding_list_view(subs@),
            into_defs,
            0,
            Seq::<WithItemView>::empty(),
        ),
    decreases items@, 0nat,
{
    let mut out: Vec<WithItem> = Vec::new();
    assert(with_item_list_view(out@) =~= Seq::<WithItemView>::empty());
    let ghost goal = rewritten_with_item_list(
        with_item_list_view(items@),
        binding_list_view(subs@),
        into_defs,
        0,
        Seq::<WithItemView>::empty(),
    );
    let mut i: usize = 0;
    while i < items.len()
        invariant
            i <= items@.len(),
            with_item_list_view(items@).len() == items@.len(),
            rewritten_with_item_list(
                with_item_list_view(items@),
                binding_list_view(subs@),
                into_defs,
                i as nat,
                with_item_list_view(out@),
            ) == goal,
            goal == rewritten_with_item_list(
                with_item_list_view(items@),
                binding_list_view(subs@),
                into_defs,
                0,
                Seq::<WithItemView>::empty(),
            ),
        decreases items@.len() - i,
    {
        let item = &items[i];
        assert(with_item_list_view(items@)[i as int] == item@);
        let item2 = rewrite_with_item(item, subs, into_defs);
        let ghost before = with_item_list_view(out@);
        let ghost added = item2@;
        out.push(item2);
        assert(with_item_list_view(out@) =~= before.push(added));
        i = i + 1;
    }
    out
}

pub open spec fn rewritten_stmt_kind(
    stmt_kind: StmtKindView,
    subs: Seq<(Seq<char>, CtValueView)>,
    into_defs: bool,
) -> StmtKindView
    decreases stmt_kind, 3nat,
{
    match stmt_kind {
        StmtKindView::VarDecl { name, ty, value } => StmtKindView::VarDecl {
            name,
            ty,
            value: rewritten(value, subs),
        },
        StmtKindView::RefDecl { name, value } => StmtKindView::RefDecl {
            name,
            value: rewritten(value, subs),
        },
        StmtKindView::Assign { name, value } => StmtKindView::Assign {
            name,
            value: rewritten(value, subs),
        },
        StmtKindView::Comptime { name, value } => StmtKindView::Comptime {
            name,
            value: rewritten(value, subs),
        },
        StmtKindView::Raise(a0) => StmtKindView::Raise(rewritten(a0, subs)),
        StmtKindView::Return(a0) => StmtKindView::Return(rewritten_opt_expr(a0, subs)),
        _ => rewritten_stmt_kind_more(stmt_kind, subs, into_defs),
    }
}

/// See [`rewritten_stmt_kind`].
pub fn rewrite_stmt_kind(
    stmt_kind: &StmtKind,
    subs: &Vec<(String, CtValue)>,
    into_defs: bool,
) -> (r: StmtKind)
    ensures
        r@ == rewritten_stmt_kind(stmt_kind@, binding_list_view(subs@), into_defs),
    decreases stmt_kind, 3nat,
{
    proof { unfold_stmt_kind(*stmt_kind); }
    match stmt_kind {
        StmtKind::VarDecl { name, ty, value } => {
            let kind = StmtKind::VarDecl {
                name: name.clone(),
                ty: (match ty { Some(y) => Some(clone_type(y)), None => None }),
                value: rewrite_expr(value, subs),
            };
            proof { unfold_stmt_kind(kind); }
            kind
        },
        StmtKind::RefDecl { name, value } => {
            let kind2 = StmtKind::RefDecl { name: name.clone(), value: rewrite_expr(value, subs) };
            proof { unfold_stmt_kind(kind2); }
            kind2
        },
        StmtKind::Assign { name, value } => {
            let kind3 = StmtKind::Assign { name: name.clone(), value: rewrite_expr(value, subs) };
            proof { unfold_stmt_kind(kind3); }
            kind3
        },
        StmtKind::Comptime { name, value } => {
            let kind4 = StmtKind::Comptime { name: name.clone(), value: rewrite_expr(value, subs) };
            proof { unfold_stmt_kind(kind4); }
            kind4
        },
        StmtKind::Raise(a0) => {
            let kind5 = StmtKind::Raise(rewrite_expr(a0, subs));
            proof { unfold_stmt_kind(kind5); }
            kind5
        },
        StmtKind::Return(a0) => {
            let kind6 = StmtKind::Return(rewrite_opt_expr(a0, subs));
            proof { unfold_stmt_kind(kind6); }
            kind6
        },
        _ => {
            assert(!(stmt_kind@ is VarDecl));
            assert(!(stmt_kind@ is RefDecl));
            assert(!(stmt_kind@ is Assign));
            assert(!(stmt_kind@ is Comptime));
            assert(!(stmt_kind@ is Raise));
            assert(!(stmt_kind@ is Return));
            rewrite_stmt_kind_more(stmt_kind, subs, into_defs)
        },
    }
}

pub open spec fn rewritten_stmt_kind_more(
    stmt_kind: StmtKindView,
    subs: Seq<(Seq<char>, CtValueView)>,
    into_defs: bool,
) -> StmtKindView
    decreases stmt_kind, 2nat,
{
    match stmt_kind {
        StmtKindView::SetPlace { place, value } => StmtKindView::SetPlace {
            place: rewritten(place, subs),
            value: rewritten(value, subs),
        },
        StmtKindView::AugAssign { place, op, value } => StmtKindView::AugAssign {
            place: rewritten(place, subs),
            op,
            value: rewritten(value, subs),
        },
        StmtKindView::Unpack { targets, value } => StmtKindView::Unpack {
            targets: rewritten_expr_list(targets, subs, 0, Seq::empty()),
            value: rewritten(value, subs),
        },
        StmtKindView::Expr(a0) => StmtKindView::Expr(rewritten(a0, subs)),
        StmtKindView::If { branches, orelse } => StmtKindView::If {
            branches: rewritten_branch_list(branches, subs, into_defs, 0, Seq::empty()),
            orelse: rewritten_opt_stmt_list(orelse, subs, into_defs),
        },
        StmtKindView::ComptimeIf { branches, orelse } => StmtKindView::ComptimeIf {
            branches: rewritten_branch_list(branches, subs, into_defs, 0, Seq::empty()),
            orelse: rewritten_opt_stmt_list(orelse, subs, into_defs),
        },
        _ => rewritten_stmt_kind_further(stmt_kind, subs, into_defs),
    }
}

/// See [`rewritten_stmt_kind_more`].
pub fn rewrite_stmt_kind_more(
    stmt_kind: &StmtKind,
    subs: &Vec<(String, CtValue)>,
    into_defs: bool,
) -> (r: StmtKind)
    ensures
        r@ == rewritten_stmt_kind_more(stmt_kind@, binding_list_view(subs@), into_defs),
    decreases stmt_kind, 2nat,
{
    proof { unfold_stmt_kind(*stmt_kind); }
    match stmt_kind {
        StmtKind::SetPlace { place, value } => {
            let kind = StmtKind::SetPlace {
                place: rewrite_expr(place, subs),
                value: rewrite_expr(value, subs),
            };
            proof { unfold_stmt_kind(kind); }
            kind
        },
        StmtKind::AugAssign { place, op, value } => {
            let kind2 = StmtKind::AugAssign {
                place: rewrite_expr(place, subs),
                op: *op,
                value: rewrite_expr(value, subs),
            };
            proof { unfold_stmt_kind(kind2); }
            kind2
        },
        StmtKind::Unpack { targets, value } => {
            let kind3 = StmtKind::Unpack {
                targets: rewrite_expr_list(targets, subs),
                value: rewrite_expr(value, subs),
            };
            proof { unfold_stmt_kind(kind3); }
            kind3
        },
        StmtKind::Expr(a0) => {
            let kind4 = StmtKind::Expr(rewrite_expr(a0, subs));
            proof { unfold_stmt_kind(kind4); }
            kind4
        },
        StmtKind::If { branches, orelse } => {
            let kind5 = StmtKind::If {
                branches: rewrite_branch_list(branches, subs, into_defs),
                orelse: rewrite_opt_stmt_list(orelse, subs, into_defs),
            };
            proof { unfold_stmt_kind(kind5); }
            kind5
        },
        StmtKind::ComptimeIf { branches, orelse } => {
            let kind6 = StmtKind::ComptimeIf {
                branches: rewrite_branch_list(branches, subs, into_defs),
                orelse: rewrite_opt_stmt_list(orelse, subs, into_defs),
            };
            proof { unfold_stmt_kind(kind6); }
            kind6
        },
        _ => {
            assert(!(stmt_kind@ is SetPlace));
            assert(!(stmt_kind@ is AugAssign));
            assert(!(stmt_kind@ is Unpack));
            assert(!(stmt_kind@ is Expr));
            assert(!(stmt_kind@ is If));
            assert(!(stmt_kind@ is ComptimeIf));
            rewrite_stmt_kind_further(stmt_kind, subs, into_defs)
        },
    }
}

pub open spec fn rewritten_stmt_kind_further(
    stmt_kind: StmtKindView,
    subs: Seq<(Seq<char>, CtValueView)>,
    into_defs: bool,
) -> StmtKindView
    decreases stmt_kind, 1nat,
{
    match stmt_kind {
        StmtKindView::While { cond, body, orelse } => StmtKindView::While {
            cond: rewritten(cond, subs),
            body: rewritten_stmt_list(body, subs, into_defs, 0, Seq::empty()),
            orelse: rewritten_opt_stmt_list(orelse, subs, into_defs),
        },
        StmtKindView::For { var, reference, owned, iter, body, orelse } => StmtKindView::For {
            var,
            reference,
            owned,
            iter: rewritten(iter, subs),
            body: rewritten_stmt_list(body, subs, into_defs, 0, Seq::empty()),
            orelse: rewritten_opt_stmt_list(orelse, subs, into_defs),
        },
        StmtKindView::ComptimeFor { var, iter, body } => StmtKindView::ComptimeFor {
            var,
            iter: rewritten(iter, subs),
            body: rewritten_stmt_list(body, subs, into_defs, 0, Seq::empty()),
        },
        StmtKindView::Try { body, except, orelse, finalbody } => StmtKindView::Try {
            body: rewritten_stmt_list(body, subs, into_defs, 0, Seq::empty()),
            except: rewritten_opt_opt_string_stmt_list(except, subs, into_defs),
            orelse: rewritten_opt_stmt_list(orelse, subs, into_defs),
            finalbody: rewritten_opt_stmt_list(finalbody, subs, into_defs),
        },
        StmtKindView::With { items, body } => StmtKindView::With {
            items: rewritten_with_item_list(items, subs, into_defs, 0, Seq::empty()),
            body: rewritten_stmt_list(body, subs, into_defs, 0, Seq::empty()),
        },
        StmtKindView::Def {
            name,
            decorators,
            type_params,
            params,
            positional_only,
            keyword_only,
            captures,
            raises,
            raises_type,
            ret,
            where_clause,
            body,
        } => if into_defs {
            let inner = values_visible(
                subs,
                names_of_params(params, 0, Seq::empty()),
                0,
                Seq::empty(),
            );
            StmtKindView::Def {
                name,
                decorators,
                type_params,
                params,
                positional_only,
                keyword_only,
                captures,
                raises,
                raises_type,
                ret,
                where_clause,
                body: rewritten_stmt_list(body, inner, into_defs, 0, Seq::empty()),
            }
        } else {
            stmt_kind
        },
        _ => rewritten_stmt_kind_rest(stmt_kind, subs, into_defs),
    }
}

/// See [`rewritten_stmt_kind_further`].
pub fn rewrite_stmt_kind_further(
    stmt_kind: &StmtKind,
    subs: &Vec<(String, CtValue)>,
    into_defs: bool,
) -> (r: StmtKind)
    ensures
        r@ == rewritten_stmt_kind_further(stmt_kind@, binding_list_view(subs@), into_defs),
    decreases stmt_kind, 1nat,
{
    proof { unfold_stmt_kind(*stmt_kind); }
    match stmt_kind {
        StmtKind::While { cond, body, orelse } => {
            let kind = StmtKind::While {
                cond: rewrite_expr(cond, subs),
                body: rewrite_stmt_list(body, subs, into_defs),
                orelse: rewrite_opt_stmt_list(orelse, subs, into_defs),
            };
            proof { unfold_stmt_kind(kind); }
            kind
        },
        StmtKind::For { var, reference, owned, iter, body, orelse } => {
            let kind2 = StmtKind::For {
                var: var.clone(),
                reference: *reference,
                owned: *owned,
                iter: rewrite_expr(iter, subs),
                body: rewrite_stmt_list(body, subs, into_defs),
                orelse: rewrite_opt_stmt_list(orelse, subs, into_defs),
            };
            proof { unfold_stmt_kind(kind2); }
            kind2
        },
        StmtKind::ComptimeFor { var, iter, body } => {
            let kind3 = StmtKind::ComptimeFor {
                var: var.clone(),
                iter: rewrite_expr(iter, subs),
                body: rewrite_stmt_list(body, subs, into_defs),
            };
            proof { unfold_stmt_kind(kind3); }
            kind3
        },
        StmtKind::Try { body, except, orelse, finalbody } => {
            let kind4 = StmtKind::Try {
                body: rewrite_stmt_list(body, subs, into_defs),
                except: rewrite_opt_opt_string_stmt_list(except, subs, into_defs),
                orelse: rewrite_opt_stmt_list(orelse, subs, into_defs),
                finalbody: rewrite_opt_stmt_list(finalbody, subs, into_defs),
            };
            proof { unfold_stmt_kind(kind4); }
            kind4
        },
        StmtKind::With { items, body } => {
            let kind5 = StmtKind::With {
                items: rewrite_with_item_list(items, subs, into_defs),
                body: rewrite_stmt_list(body, subs, into_defs),
            };
            proof { unfold_stmt_kind(kind5); }
            kind5
        },
        StmtKind::Def {
            name,
            decorators,
            type_params,
            params,
            positional_only,
            keyword_only,
            captures,
            raises,
            raises_type,
            ret,
            where_clause,
            body,
        } => {
            if into_defs {
                let list: Vec<String> = Vec::new();
                assert(string_list_view(list@) =~= Seq::<Seq<char>>::empty());
                let inner = unshadowed(subs, &param_names(params, list));
                let kind6 = StmtKind::Def {
                    name: name.clone(),
                    decorators: clone_string_list(decorators),
                    type_params: clone_type_param_list(type_params),
                    params: clone_fn_param_list(params),
                    positional_only: *positional_only,
                    keyword_only: *keyword_only,
                    captures: (
                        match captures { Some(y) => Some(clone_capture_list(y)), None => None }
                    ),
                    raises: *raises,
                    raises_type: (
                        match raises_type { Some(y) => Some(clone_type(y)), None => None }
                    ),
                    ret: (match ret { Some(y) => Some(clone_type(y)), None => None }),
                    where_clause: (
                        match where_clause { Some(y) => Some(clone_expr(y)), None => None }
                    ),
                    body: rewrite_stmt_list(body, &inner, into_defs),
                };
                proof { unfold_stmt_kind(kind6); }
                kind6
            } else {
                clone_stmt_kind(stmt_kind)
            }
        },
        _ => {
            assert(!(stmt_kind@ is While));
            assert(!(stmt_kind@ is For));
            assert(!(stmt_kind@ is ComptimeFor));
            assert(!(stmt_kind@ is Try));
            assert(!(stmt_kind@ is With));
            assert(!(stmt_kind@ is Def));
            rewrite_stmt_kind_rest(stmt_kind, subs, into_defs)
        },
    }
}

pub open spec fn rewritten_stmt_kind_rest(
    stmt_kind: StmtKindView,
    subs: Seq<(Seq<char>, CtValueView)>,
    into_defs: bool,
) -> StmtKindView
    decreases stmt_kind, 0nat,
{
    match stmt_kind {
        StmtKindView::Struct {
            name,
            decorators,
            type_params,
            conforms,
            callable_conformance,
            conformance_conditions,
            fields,
            associated,
            methods,
            fieldwise_init,
        } => if into_defs {
            StmtKindView::Struct {
                name,
                decorators,
                type_params,
                conforms,
                callable_conformance,
                conformance_conditions,
                fields,
                associated,
                methods: rewritten_methods(methods, subs, 0, Seq::empty()),
                fieldwise_init,
            }
        } else {
            stmt_kind
        },
        _ => stmt_kind,
    }
}

/// See [`rewritten_stmt_kind_rest`].
pub fn rewrite_stmt_kind_rest(
    stmt_kind: &StmtKind,
    subs: &Vec<(String, CtValue)>,
    into_defs: bool,
) -> (r: StmtKind)
    ensures
        r@ == rewritten_stmt_kind_rest(stmt_kind@, binding_list_view(subs@), into_defs),
    decreases stmt_kind, 0nat,
{
    proof { unfold_stmt_kind(*stmt_kind); }
    match stmt_kind {
        StmtKind::Struct {
            name,
            decorators,
            type_params,
            conforms,
            callable_conformance,
            conformance_conditions,
            fields,
            associated,
            methods,
            fieldwise_init,
        } => {
            if into_defs {
                let kind = StmtKind::Struct {
                    name: name.clone(),
                    decorators: clone_string_list(decorators),
                    type_params: clone_type_param_list(type_params),
                    conforms: clone_string_list(conforms),
                    callable_conformance: (
                        match callable_conformance { Some(y) => Some(clone_type(y)), None => None }
                    ),
                    conformance_conditions: clone_expr_list(conformance_conditions),
                    fields: clone_param_list(fields),
                    associated: clone_struct_comptime_list(associated),
                    methods: rewrite_methods(methods, subs),
                    fieldwise_init: *fieldwise_init,
                };
                proof { unfold_stmt_kind(kind); }
                kind
            } else {
                clone_stmt_kind(stmt_kind)
            }
        },
        _ => {
            assert(!(stmt_kind@ is Struct));
            clone_stmt_kind(stmt_kind)
        },
    }
}

/// A statement with the names that have a value replaced by it. Inside nested
/// declarations names are replaced only when `into_defs` holds; there the parameters
/// hide values.
pub open spec fn rewritten_stmt(
    stmt: StmtView,
    subs: Seq<(Seq<char>, CtValueView)>,
    into_defs: bool,
) -> StmtView
    decreases stmt, 0nat,
{
    StmtView {
        kind: rewritten_stmt_kind(stmt.kind, subs, into_defs),
        span: stmt.span,
        module: stmt.module,
    }
}

/// See [`rewritten_stmt`].
pub fn rewrite_stmt(stmt: &Stmt, subs: &Vec<(String, CtValue)>, into_defs: bool) -> (r: Stmt)
    ensures
        r@ == rewritten_stmt(stmt@, binding_list_view(subs@), into_defs),
    decreases stmt, 0nat,
{
    Stmt {
        kind: rewrite_stmt_kind(&stmt.kind, subs, into_defs),
        span: stmt.span,
        module: (match (&stmt.module) { Some(y) => Some(y.clone()), None => None }),
    }
}

/// Methods with the names that have a value replaced by it. The receiver and the
/// parameters hide values.
pub open spec fn rewritten_methods(
    methods: Seq<MethodView>,
    subs: Seq<(Seq<char>, CtValueView)>,
    i: nat,
    out: Seq<MethodView>,
) -> Seq<MethodView>
    decreases methods, (methods.len() - i) as nat,
{
    if i >= methods.len() {
        out
    } else {
        let method = methods[i as int];
        let out = out.push(rewritten_method(method, subs));
        rewritten_methods(methods, subs, i + 1, out)
    }
}

/// See [`rewritten_methods`].
pub fn rewrite_methods(methods: &Vec<Method>, subs: &Vec<(String, CtValue)>) -> (r: Vec<Method>)
    ensures
        method_list_view(r@) == rewritten_methods(
            method_list_view(methods@),
            binding_list_view(subs@),
            0,
            Seq::<MethodView>::empty(),
        ),
    decreases methods@, 0nat,
{
    let mut out: Vec<Method> = Vec::new();
    assert(method_list_view(out@) =~= Seq::<MethodView>::empty());
    let ghost goal = rewritten_methods(
        method_list_view(methods@),
        binding_list_view(subs@),
        0,
        Seq::<MethodView>::empty(),
    );
    let mut i: usize = 0;
    while i < methods.len()
        invariant
            i <= methods@.len(),
            method_list_view(methods@).len() == methods@.len(),
            rewritten_methods(
                method_list_view(methods@),
                binding_list_view(subs@),
                i as nat,
                method_list_view(out@),
            ) == goal,
            goal == rewritten_methods(
                method_list_view(methods@),
                binding_list_view(subs@),
                0,
                Seq::<MethodView>::empty(),
            ),
        decreases methods@.len() - i,
    {
        let method = &methods[i];
        assert(method_list_view(methods@)[i as int] == method@);
        let item = rewrite_method(method, subs);
        let ghost before = method_list_view(out@);
        let ghost added = item@;
        out.push(item);
        assert(method_list_view(out@) =~= before.push(added));
        i = i + 1;
    }
    out
}

pub open spec fn rewritten_method(
    method: MethodView,
    subs: Seq<(Seq<char>, CtValueView)>,
) -> MethodView
    decreases method, 0nat,
{
    let inner = values_visible(subs, names_of_params(method.params, 0, seq!["self"@]), 0, Seq::empty());
    MethodView {
        name: method.name,
        has_self: method.has_self,
        self_convention: method.self_convention,
        params: method.params,
        positional_only: method.positional_only,
        keyword_only: method.keyword_only,
        raises_type: method.raises_type,
        ret: method.ret,
        body: rewritten_stmt_list(method.body, inner, true, 0, Seq::empty()),
    }
}

/// See [`rewritten_method`].
pub fn rewrite_method(method: &Method, subs: &Vec<(String, CtValue)>) -> (r: Method)
    ensures
        r@ == rewritten_method(method@, binding_list_view(subs@)),
    decreases method, 0nat,
{
    let item = "self".to_owned();
    let ghost seen = item@;
    let list = vec![item];
    assert(string_list_view(list@) =~= seq![seen]);
    let inner = unshadowed(subs, &param_names(&method.params, list));
    let method2 = Method {
        name: (&method.name).clone(),
        has_self: method.has_self,
        self_convention: method.self_convention,
        params: clone_fn_param_list(&method.params),
        positional_only: method.positional_only,
        keyword_only: method.keyword_only,
        raises_type: (match (&method.raises_type) { Some(y) => Some(clone_type(y)), None => None }),
        ret: (match (&method.ret) { Some(y) => Some(clone_type(y)), None => None }),
        body: rewrite_stmt_list(&method.body, &inner, true),
    };
    proof { unfold_method(method2); }
    method2
}

/// A program with the constants of its module as literals.
#[verifier::opaque]
pub open spec fn materialized(
    stmts: Seq<StmtView>,
    consts: Seq<(Seq<char>, CtValueView)>,
) -> Seq<StmtView> {
    rewritten_stmt_list(stmts, consts, true, 0, Seq::empty())
}

/// See [`materialized`].
pub fn materialize_block(stmts: &Vec<Stmt>, consts: &Vec<(String, CtValue)>) -> (r: Vec<Stmt>)
    ensures
        stmt_list_view(r@) == materialized(stmt_list_view(stmts@), binding_list_view(consts@)),
{
    proof { reveal(materialized); }
    rewrite_stmt_list(stmts, consts, true)
}

} // verus!
