//! Sources of statements and expressions.

use crate::ast::{
    ComprehensionClause, ComprehensionClauseView, Expr, ExprKind, ExprKindView, ExprView, FnParam,
    FnParamView, InfixOp, KwArg, KwArgView, Method, MethodView, Param, ParamArg, ParamArgView,
    ParamView, Stmt, StmtKind, StmtKindView, StmtView, StructComptime, StructComptimeView,
    SubscriptArg, SubscriptArgView, TStringPart, TStringPartView, Type, TypeParam, TypeParamView,
    TypeView, WithItem, WithItemView, branch_list_view, clone_capture_list, clone_expr_kind,
    clone_stmt_kind, clone_t_string_part, clone_type, comparison_list_view,
    comprehension_clause_list_view, entry_list_view, expr_list_view, fn_param_list_view,
    kw_arg_list_view, method_list_view, param_arg_list_view, param_list_view, stmt_list_view,
    struct_comptime_list_view, subscript_arg_list_view, t_string_part_list_view, type_list_view,
    type_param_list_view, unfold_expr_kind, unfold_method, unfold_stmt_kind, unfold_type,
    unfold_type_param, with_item_list_view,
};
use crate::text::{clone_string_list, opt_view};
use crate::values::Value;
use vstd::prelude::*;

verus! {

#[verifier::opaque]
pub open spec fn source_stamped(
    known: Option<Seq<char>>,
    source: Seq<char>,
) -> Option<Seq<char>> {
    match known {
        Some(known) => Some(known),
        None => Some(source),
    }
}

/// See [`source_stamped`].
pub fn stamped_source(known: &Option<String>, source: &String) -> (r: Option<String>)
    ensures
        opt_view(r) == source_stamped(opt_view(*known), source@),
{
    proof { reveal(source_stamped); }
    match known {
        Some(known) => Some(known.clone()),
        None => Some(source.clone()),
    }
}

pub open spec fn stamped_t_string_part(
    t_string_part: TStringPartView,
    source: Seq<char>,
) -> TStringPartView
    decreases t_string_part, 0nat,
{
    match t_string_part {
        TStringPartView::Expr(a0) => TStringPartView::Expr(Box::new(stamped_expr(*a0, source))),
        _ => t_string_part,
    }
}

/// See [`stamped_t_string_part`].
pub fn stamp_t_string_part(t_string_part: &TStringPart, source: &String) -> (r: TStringPart)
    ensures
        r@ == stamped_t_string_part(t_string_part@, source@),
    decreases t_string_part, 0nat,
{
    match t_string_part {
        TStringPart::Expr(a0) => TStringPart::Expr(Box::new(stamp_expr(&**a0, source))),
        _ => {
            assert(!(t_string_part@ is Expr));
            clone_t_string_part(t_string_part)
        },
    }
}

pub open spec fn stamped_t_string_part_list(
    items: Seq<TStringPartView>,
    source: Seq<char>,
    i: nat,
    out: Seq<TStringPartView>,
) -> Seq<TStringPartView>
    decreases items, (items.len() - i) as nat,
{
    if i >= items.len() {
        out
    } else {
        let item = items[i as int];
        let out = out.push(stamped_t_string_part(item, source));
        stamped_t_string_part_list(items, source, i + 1, out)
    }
}

/// See [`stamped_t_string_part_list`].
pub fn stamp_t_string_part_list(
    items: &Vec<TStringPart>,
    source: &String,
) -> (r: Vec<TStringPart>)
    ensures
        t_string_part_list_view(r@) == stamped_t_string_part_list(
            t_string_part_list_view(items@),
            source@,
            0,
            Seq::<TStringPartView>::empty(),
        ),
    decreases items@, 0nat,
{
    let mut out: Vec<TStringPart> = Vec::new();
    assert(t_string_part_list_view(out@) =~= Seq::<TStringPartView>::empty());
    let ghost goal = stamped_t_string_part_list(
        t_string_part_list_view(items@),
        source@,
        0,
        Seq::<TStringPartView>::empty(),
    );
    let mut i: usize = 0;
    while i < items.len()
        invariant
            i <= items@.len(),
            t_string_part_list_view(items@).len() == items@.len(),
            stamped_t_string_part_list(
                t_string_part_list_view(items@),
                source@,
                i as nat,
                t_string_part_list_view(out@),
            ) == goal,
            goal == stamped_t_string_part_list(
                t_string_part_list_view(items@),
                source@,
                0,
                Seq::<TStringPartView>::empty(),
            ),
        decreases items@.len() - i,
    {
        let item = &items[i];
        assert(t_string_part_list_view(items@)[i as int] == item@);
        let item2 = stamp_t_string_part(item, source);
        let ghost before = t_string_part_list_view(out@);
        let ghost added = item2@;
        out.push(item2);
        assert(t_string_part_list_view(out@) =~= before.push(added));
        i = i + 1;
    }
    out
}

pub open spec fn stamped_comparison_list(
    items: Seq<(InfixOp, ExprView)>,
    source: Seq<char>,
    i: nat,
    out: Seq<(InfixOp, ExprView)>,
) -> Seq<(InfixOp, ExprView)>
    decreases items, (items.len() - i) as nat,
{
    if i >= items.len() {
        out
    } else {
        let item = items[i as int];
        let out = out.push((item.0, stamped_expr(item.1, source)));
        stamped_comparison_list(items, source, i + 1, out)
    }
}

/// See [`stamped_comparison_list`].
pub fn stamp_comparison_list(
    items: &Vec<(InfixOp, Expr)>,
    source: &String,
) -> (r: Vec<(InfixOp, Expr)>)
    ensures
        comparison_list_view(r@) == stamped_comparison_list(
            comparison_list_view(items@),
            source@,
            0,
            Seq::<(InfixOp, ExprView)>::empty(),
        ),
    decreases items@, 0nat,
{
    let mut out: Vec<(InfixOp, Expr)> = Vec::new();
    assert(comparison_list_view(out@) =~= Seq::<(InfixOp, ExprView)>::empty());
    let ghost goal = stamped_comparison_list(
        comparison_list_view(items@),
        source@,
        0,
        Seq::<(InfixOp, ExprView)>::empty(),
    );
    let mut i: usize = 0;
    while i < items.len()
        invariant
            i <= items@.len(),
            comparison_list_view(items@).len() == items@.len(),
            stamped_comparison_list(
                comparison_list_view(items@),
                source@,
                i as nat,
                comparison_list_view(out@),
            ) == goal,
            goal == stamped_comparison_list(
                comparison_list_view(items@),
                source@,
                0,
                Seq::<(InfixOp, ExprView)>::empty(),
            ),
        decreases items@.len() - i,
    {
        let item = &items[i];
        assert(comparison_list_view(items@)[i as int].1 =~= item.1@);
        let item2 = (item.0, stamp_expr(&item.1, source));
        let ghost before = comparison_list_view(out@);
        let ghost added = (item2.0, item2.1@);
        out.push(item2);
        assert(comparison_list_view(out@) =~= before.push(added));
        i = i + 1;
    }
    out
}

pub open spec fn stamped_expr_list(
    items: Seq<ExprView>,
    source: Seq<char>,
    i: nat,
    out: Seq<ExprView>,
) -> Seq<ExprView>
    decreases items, (items.len() - i) as nat,
{
    if i >= items.len() {
        out
    } else {
        let item = items[i as int];
        let out = out.push(stamped_expr(item, source));
        stamped_expr_list(items, source, i + 1, out)
    }
}

/// See [`stamped_expr_list`].
pub fn stamp_expr_list(items: &Vec<Expr>, source: &String) -> (r: Vec<Expr>)
    ensures
        expr_list_view(r@) == stamped_expr_list(
            expr_list_view(items@),
            source@,
            0,
            Seq::<ExprView>::empty(),
        ),
    decreases items@, 0nat,
{
    let mut out: Vec<Expr> = Vec::new();
    assert(expr_list_view(out@) =~= Seq::<ExprView>::empty());
    let ghost goal = stamped_expr_list(
        expr_list_view(items@),
        source@,
        0,
        Seq::<ExprView>::empty(),
    );
    let mut i: usize = 0;
    while i < items.len()
        invariant
            i <= items@.len(),
            expr_list_view(items@).len() == items@.len(),
            stamped_expr_list(
                expr_list_view(items@),
                source@,
                i as nat,
                expr_list_view(out@),
            ) == goal,
            goal == stamped_expr_list(expr_list_view(items@), source@, 0, Seq::<ExprView>::empty()),
        decreases items@.len() - i,
    {
        let item = &items[i];
        assert(expr_list_view(items@)[i as int] == item@);
        let item2 = stamp_expr(item, source);
        let ghost before = expr_list_view(out@);
        let ghost added = item2@;
        out.push(item2);
        assert(expr_list_view(out@) =~= before.push(added));
        i = i + 1;
    }
    out
}

pub open spec fn stamped_kw_arg(kw_arg: KwArgView, source: Seq<char>) -> KwArgView
    decreases kw_arg, 0nat,
{
    KwArgView { name: kw_arg.name, value: stamped_expr(kw_arg.value, source) }
}

/// See [`stamped_kw_arg`].
pub fn stamp_kw_arg(kw_arg: &KwArg, source: &String) -> (r: KwArg)
    ensures
        r@ == stamped_kw_arg(kw_arg@, source@),
    decreases kw_arg, 0nat,
{
    KwArg { name: (&kw_arg.name).clone(), value: stamp_expr(&kw_arg.value, source) }
}

pub open spec fn stamped_kw_arg_list(
    items: Seq<KwArgView>,
    source: Seq<char>,
    i: nat,
    out: Seq<KwArgView>,
) -> Seq<KwArgView>
    decreases items, (items.len() - i) as nat,
{
    if i >= items.len() {
        out
    } else {
        let item = items[i as int];
        let out = out.push(stamped_kw_arg(item, source));
        stamped_kw_arg_list(items, source, i + 1, out)
    }
}

/// See [`stamped_kw_arg_list`].
pub fn stamp_kw_arg_list(items: &Vec<KwArg>, source: &String) -> (r: Vec<KwArg>)
    ensures
        kw_arg_list_view(r@) == stamped_kw_arg_list(
            kw_arg_list_view(items@),
            source@,
            0,
            Seq::<KwArgView>::empty(),
        ),
    decreases items@, 0nat,
{
    let mut out: Vec<KwArg> = Vec::new();
    assert(kw_arg_list_view(out@) =~= Seq::<KwArgView>::empty());
    let ghost goal = stamped_kw_arg_list(
        kw_arg_list_view(items@),
        source@,
        0,
        Seq::<KwArgView>::empty(),
    );
    let mut i: usize = 0;
    while i < items.len()
        invariant
            i <= items@.len(),
            kw_arg_list_view(items@).len() == items@.len(),
            stamped_kw_arg_list(
                kw_arg_list_view(items@),
                source@,
                i as nat,
                kw_arg_list_view(out@),
            ) == goal,
            goal == stamped_kw_arg_list(
                kw_arg_list_view(items@),
                source@,
                0,
                Seq::<KwArgView>::empty(),
            ),
        decreases items@.len() - i,
    {
        let item = &items[i];
        assert(kw_arg_list_view(items@)[i as int] == item@);
        let item2 = stamp_kw_arg(item, source);
        let ghost before = kw_arg_list_view(out@);
        let ghost added = item2@;
        out.push(item2);
        assert(kw_arg_list_view(out@) =~= before.push(added));
        i = i + 1;
    }
    out
}

pub open spec fn stamped_opt_boxed_expr(
    value: Option<Box<ExprView>>,
    source: Seq<char>,
) -> Option<Box<ExprView>>
    decreases value, 0nat,
{
    match value {
        Some(value) => Some(Box::new(stamped_expr(*value, source))),
        None => None,
    }
}

/// See [`stamped_opt_boxed_expr`].
pub fn stamp_opt_boxed_expr(
    value: &Option<Box<Expr>>,
    source: &String,
) -> (r: Option<Box<Expr>>)
    ensures
        (match r { Some(v) => Some(Box::new(v@)), None => None }) == stamped_opt_boxed_expr(
            (match value { Some(v) => Some(Box::new(v@)), None => None }),
            source@,
        ),
    decreases value, 0nat,
{
    match value {
        Some(value) => Some(Box::new(stamp_expr(&**value, source))),
        None => None,
    }
}

pub open spec fn stamped_subscript_arg(
    subscript_arg: SubscriptArgView,
    source: Seq<char>,
) -> SubscriptArgView
    decreases subscript_arg, 0nat,
{
    match subscript_arg {
        SubscriptArgView::Index(a0) => SubscriptArgView::Index(stamped_expr(a0, source)),
        SubscriptArgView::Slice { lower, upper, step } => SubscriptArgView::Slice {
            lower: stamped_opt_boxed_expr(lower, source),
            upper: stamped_opt_boxed_expr(upper, source),
            step: stamped_opt_boxed_expr(step, source),
        },
    }
}

/// See [`stamped_subscript_arg`].
pub fn stamp_subscript_arg(subscript_arg: &SubscriptArg, source: &String) -> (r: SubscriptArg)
    ensures
        r@ == stamped_subscript_arg(subscript_arg@, source@),
    decreases subscript_arg, 0nat,
{
    match subscript_arg {
        SubscriptArg::Index(a0) => SubscriptArg::Index(stamp_expr(a0, source)),
        SubscriptArg::Slice { lower, upper, step } => SubscriptArg::Slice {
            lower: stamp_opt_boxed_expr(lower, source),
            upper: stamp_opt_boxed_expr(upper, source),
            step: stamp_opt_boxed_expr(step, source),
        },
    }
}

pub open spec fn stamped_subscript_arg_list(
    items: Seq<SubscriptArgView>,
    source: Seq<char>,
    i: nat,
    out: Seq<SubscriptArgView>,
) -> Seq<SubscriptArgView>
    decreases items, (items.len() - i) as nat,
{
    if i >= items.len() {
        out
    } else {
        let item = items[i as int];
        let out = out.push(stamped_subscript_arg(item, source));
        stamped_subscript_arg_list(items, source, i + 1, out)
    }
}

/// See [`stamped_subscript_arg_list`].
pub fn stamp_subscript_arg_list(
    items: &Vec<SubscriptArg>,
    source: &String,
) -> (r: Vec<SubscriptArg>)
    ensures
        subscript_arg_list_view(r@) == stamped_subscript_arg_list(
            subscript_arg_list_view(items@),
            source@,
            0,
            Seq::<SubscriptArgView>::empty(),
        ),
    decreases items@, 0nat,
{
    let mut out: Vec<SubscriptArg> = Vec::new();
    assert(subscript_arg_list_view(out@) =~= Seq::<SubscriptArgView>::empty());
    let ghost goal = stamped_subscript_arg_list(
        subscript_arg_list_view(items@),
        source@,
        0,
        Seq::<SubscriptArgView>::empty(),
    );
    let mut i: usize = 0;
    while i < items.len()
        invariant
            i <= items@.len(),
            subscript_arg_list_view(items@).len() == items@.len(),
            stamped_subscript_arg_list(
                subscript_arg_list_view(items@),
                source@,
                i as nat,
                subscript_arg_list_view(out@),
            ) == goal,
            goal == stamped_subscript_arg_list(
                subscript_arg_list_view(items@),
                source@,
                0,
                Seq::<SubscriptArgView>::empty(),
            ),
        decreases items@.len() - i,
    {
        let item = &items[i];
        assert(subscript_arg_list_view(items@)[i as int] == item@);
        let item2 = stamp_subscript_arg(item, source);
        let ghost before = subscript_arg_list_view(out@);
        let ghost added = item2@;
        out.push(item2);
        assert(subscript_arg_list_view(out@) =~= before.push(added));
        i = i + 1;
    }
    out
}

pub open spec fn stamped_opt_expr(
    value: Option<ExprView>,
    source: Seq<char>,
) -> Option<ExprView>
    decreases value, 0nat,
{
    match value {
        Some(value) => Some(stamped_expr(value, source)),
        None => None,
    }
}

/// See [`stamped_opt_expr`].
pub fn stamp_opt_expr(value: &Option<Expr>, source: &String) -> (r: Option<Expr>)
    ensures
        opt_view(r) == stamped_opt_expr(opt_view(*value), source@),
    decreases value, 0nat,
{
    match value {
        Some(value) => Some(stamp_expr(value, source)),
        None => None,
    }
}

pub open spec fn stamped_entry_list(
    items: Seq<(ExprView, Option<ExprView>)>,
    source: Seq<char>,
    i: nat,
    out: Seq<(ExprView, Option<ExprView>)>,
) -> Seq<(ExprView, Option<ExprView>)>
    decreases items, (items.len() - i) as nat,
{
    if i >= items.len() {
        out
    } else {
        let item = items[i as int];
        let out = out.push((stamped_expr(item.0, source), stamped_opt_expr(item.1, source)));
        stamped_entry_list(items, source, i + 1, out)
    }
}

/// See [`stamped_entry_list`].
pub fn stamp_entry_list(
    items: &Vec<(Expr, Option<Expr>)>,
    source: &String,
) -> (r: Vec<(Expr, Option<Expr>)>)
    ensures
        entry_list_view(r@) == stamped_entry_list(
            entry_list_view(items@),
            source@,
            0,
            Seq::<(ExprView, Option<ExprView>)>::empty(),
        ),
    decreases items@, 0nat,
{
    let mut out: Vec<(Expr, Option<Expr>)> = Vec::new();
    assert(entry_list_view(out@) =~= Seq::<(ExprView, Option<ExprView>)>::empty());
    let ghost goal = stamped_entry_list(
        entry_list_view(items@),
        source@,
        0,
        Seq::<(ExprView, Option<ExprView>)>::empty(),
    );
    let mut i: usize = 0;
    while i < items.len()
        invariant
            i <= items@.len(),
            entry_list_view(items@).len() == items@.len(),
            stamped_entry_list(
                entry_list_view(items@),
                source@,
                i as nat,
                entry_list_view(out@),
            ) == goal,
            goal == stamped_entry_list(
                entry_list_view(items@),
                source@,
                0,
                Seq::<(ExprView, Option<ExprView>)>::empty(),
            ),
        decreases items@.len() - i,
    {
        let item = &items[i];
        assert(entry_list_view(items@)[i as int].0 =~= item.0@);
        assert(entry_list_view(items@)[i as int].1 =~= opt_view(item.1));
        let item2 = (stamp_expr(&item.0, source), stamp_opt_expr(&item.1, source));
        let ghost before = entry_list_view(out@);
        let ghost added = (item2.0@, opt_view(item2.1));
        out.push(item2);
        assert(entry_list_view(out@) =~= before.push(added));
        i = i + 1;
    }
    out
}

pub open spec fn stamped_comprehension_clause(
    comprehension_clause: ComprehensionClauseView,
    source: Seq<char>,
) -> ComprehensionClauseView
    decreases comprehension_clause, 0nat,
{
    match comprehension_clause {
        ComprehensionClauseView::For { var, owned, iter } => ComprehensionClauseView::For {
            var,
            owned,
            iter: Box::new(stamped_expr(*iter, source)),
        },
        ComprehensionClauseView::If(a0) => ComprehensionClauseView::If(
            Box::new(stamped_expr(*a0, source))
        ),
    }
}

/// See [`stamped_comprehension_clause`].
pub fn stamp_comprehension_clause(
    comprehension_clause: &ComprehensionClause,
    source: &String,
) -> (r: ComprehensionClause)
    ensures
        r@ == stamped_comprehension_clause(comprehension_clause@, source@),
    decreases comprehension_clause, 0nat,
{
    match comprehension_clause {
        ComprehensionClause::For { var, owned, iter } => ComprehensionClause::For {
            var: var.clone(),
            owned: *owned,
            iter: Box::new(stamp_expr(&**iter, source)),
        },
        ComprehensionClause::If(a0) => ComprehensionClause::If(Box::new(stamp_expr(&**a0, source))),
    }
}

pub open spec fn stamped_comprehension_clause_list(
    items: Seq<ComprehensionClauseView>,
    source: Seq<char>,
    i: nat,
    out: Seq<ComprehensionClauseView>,
) -> Seq<ComprehensionClauseView>
    decreases items, (items.len() - i) as nat,
{
    if i >= items.len() {
        out
    } else {
        let item = items[i as int];
        let out = out.push(stamped_comprehension_clause(item, source));
        stamped_comprehension_clause_list(items, source, i + 1, out)
    }
}

/// See [`stamped_comprehension_clause_list`].
pub fn stamp_comprehension_clause_list(
    items: &Vec<ComprehensionClause>,
    source: &String,
) -> (r: Vec<ComprehensionClause>)
    ensures
        comprehension_clause_list_view(r@) == stamped_comprehension_clause_list(
            comprehension_clause_list_view(items@),
            source@,
            0,
            Seq::<ComprehensionClauseView>::empty(),
        ),
    decreases items@, 0nat,
{
    let mut out: Vec<ComprehensionClause> = Vec::new();
    assert(comprehension_clause_list_view(out@) =~= Seq::<ComprehensionClauseView>::empty());
    let ghost goal = stamped_comprehension_clause_list(
        comprehension_clause_list_view(items@),
        source@,
        0,
        Seq::<ComprehensionClauseView>::empty(),
    );
    let mut i: usize = 0;
    while i < items.len()
        invariant
            i <= items@.len(),
            comprehension_clause_list_view(items@).len() == items@.len(),
            stamped_comprehension_clause_list(
                comprehension_clause_list_view(items@),
                source@,
                i as nat,
                comprehension_clause_list_view(out@),
            ) == goal,
            goal == stamped_comprehension_clause_list(
                comprehension_clause_list_view(items@),
                source@,
                0,
                Seq::<ComprehensionClauseView>::empty(),
            ),
        decreases items@.len() - i,
    {
        let item = &items[i];
        assert(comprehension_clause_list_view(items@)[i as int] == item@);
        let item2 = stamp_comprehension_clause(item, source);
        let ghost before = comprehension_clause_list_view(out@);
        let ghost added = item2@;
        out.push(item2);
        assert(comprehension_clause_list_view(out@) =~= before.push(added));
        i = i + 1;
    }
    out
}

pub open spec fn stamped_expr_kind(expr_kind: ExprKindView, source: Seq<char>) -> ExprKindView
    decreases expr_kind, 3nat,
{
    match expr_kind {
        ExprKindView::TypeValue(a0) => ExprKindView::TypeValue(stamped_type(a0, source)),
        ExprKindView::TString { parts, raw } => ExprKindView::TString {
            parts: stamped_t_string_part_list(parts, source, 0, Seq::empty()),
            raw,
        },
        ExprKindView::TypeApply { name, args } => ExprKindView::TypeApply {
            name,
            args: stamped_param_arg_list(args, source, 0, Seq::empty()),
        },
        ExprKindView::Prefix(a0, a1) => ExprKindView::Prefix(
            a0,
            Box::new(stamped_expr(*a1, source)),
        ),
        ExprKindView::Transfer(a0) => ExprKindView::Transfer(Box::new(stamped_expr(*a0, source))),
        ExprKindView::Spread(a0) => ExprKindView::Spread(Box::new(stamped_expr(*a0, source))),
        _ => stamped_expr_kind_more(expr_kind, source),
    }
}

/// See [`stamped_expr_kind`].
pub fn stamp_expr_kind(expr_kind: &ExprKind, source: &String) -> (r: ExprKind)
    ensures
        r@ == stamped_expr_kind(expr_kind@, source@),
    decreases expr_kind, 3nat,
{
    proof { unfold_expr_kind(*expr_kind); }
    match expr_kind {
        ExprKind::TypeValue(a0) => {
            let kind = ExprKind::TypeValue(stamp_type(a0, source));
            proof { unfold_expr_kind(kind); }
            kind
        },
        ExprKind::TString { parts, raw } => {
            let kind2 = ExprKind::TString {
                parts: stamp_t_string_part_list(parts, source),
                raw: *raw,
            };
            proof { unfold_expr_kind(kind2); }
            kind2
        },
        ExprKind::TypeApply { name, args } => {
            let kind3 = ExprKind::TypeApply {
                name: name.clone(),
                args: stamp_param_arg_list(args, source),
            };
            proof { unfold_expr_kind(kind3); }
            kind3
        },
        ExprKind::Prefix(a0, a1) => {
            let kind4 = ExprKind::Prefix(*a0, Box::new(stamp_expr(&**a1, source)));
            proof { unfold_expr_kind(kind4); }
            kind4
        },
        ExprKind::Transfer(a0) => {
            let kind5 = ExprKind::Transfer(Box::new(stamp_expr(&**a0, source)));
            proof { unfold_expr_kind(kind5); }
            kind5
        },
        ExprKind::Spread(a0) => {
            let kind6 = ExprKind::Spread(Box::new(stamp_expr(&**a0, source)));
            proof { unfold_expr_kind(kind6); }
            kind6
        },
        _ => {
            assert(!(expr_kind@ is TypeValue));
            assert(!(expr_kind@ is TString));
            assert(!(expr_kind@ is TypeApply));
            assert(!(expr_kind@ is Prefix));
            assert(!(expr_kind@ is Transfer));
            assert(!(expr_kind@ is Spread));
            stamp_expr_kind_more(expr_kind, source)
        },
    }
}

pub open spec fn stamped_expr_kind_more(
    expr_kind: ExprKindView,
    source: Seq<char>,
) -> ExprKindView
    decreases expr_kind, 2nat,
{
    match expr_kind {
        ExprKindView::Infix(a0, a1, a2) => ExprKindView::Infix(
            a0,
            Box::new(stamped_expr(*a1, source)),
            Box::new(stamped_expr(*a2, source)),
        ),
        ExprKindView::Compare { first, rest } => ExprKindView::Compare {
            first: Box::new(stamped_expr(*first, source)),
            rest: stamped_comparison_list(rest, source, 0, Seq::empty()),
        },
        ExprKindView::Call { name, param_args, args, kwargs } => ExprKindView::Call {
            name,
            param_args: stamped_param_arg_list(param_args, source, 0, Seq::empty()),
            args: stamped_expr_list(args, source, 0, Seq::empty()),
            kwargs: stamped_kw_arg_list(kwargs, source, 0, Seq::empty()),
        },
        ExprKindView::Invoke { callee, param_args, args, kwargs } => ExprKindView::Invoke {
            callee: Box::new(stamped_expr(*callee, source)),
            param_args: stamped_param_arg_list(param_args, source, 0, Seq::empty()),
            args: stamped_expr_list(args, source, 0, Seq::empty()),
            kwargs: stamped_kw_arg_list(kwargs, source, 0, Seq::empty()),
        },
        ExprKindView::Member { object, field } => ExprKindView::Member {
            object: Box::new(stamped_expr(*object, source)),
            field,
        },
        ExprKindView::MethodCall { object, method, args, kwargs } => ExprKindView::MethodCall {
            object: Box::new(stamped_expr(*object, source)),
            method,
            args: stamped_expr_list(args, source, 0, Seq::empty()),
            kwargs: stamped_kw_arg_list(kwargs, source, 0, Seq::empty()),
        },
        _ => stamped_expr_kind_further(expr_kind, source),
    }
}

/// See [`stamped_expr_kind_more`].
pub fn stamp_expr_kind_more(expr_kind: &ExprKind, source: &String) -> (r: ExprKind)
    ensures
        r@ == stamped_expr_kind_more(expr_kind@, source@),
    decreases expr_kind, 2nat,
{
    proof { unfold_expr_kind(*expr_kind); }
    match expr_kind {
        ExprKind::Infix(a0, a1, a2) => {
            let kind = ExprKind::Infix(
                *a0,
                Box::new(stamp_expr(&**a1, source)),
                Box::new(stamp_expr(&**a2, source)),
            );
            proof { unfold_expr_kind(kind); }
            kind
        },
        ExprKind::Compare { first, rest } => {
            let kind2 = ExprKind::Compare {
                first: Box::new(stamp_expr(&**first, source)),
                rest: stamp_comparison_list(rest, source),
            };
            proof { unfold_expr_kind(kind2); }
            kind2
        },
        ExprKind::Call { name, param_args, args, kwargs } => {
            let kind3 = ExprKind::Call {
                name: name.clone(),
                param_args: stamp_param_arg_list(param_args, source),
                args: stamp_expr_list(args, source),
                kwargs: stamp_kw_arg_list(kwargs, source),
            };
            proof { unfold_expr_kind(kind3); }
            kind3
        },
        ExprKind::Invoke { callee, param_args, args, kwargs } => {
            let kind4 = ExprKind::Invoke {
                callee: Box::new(stamp_expr(&**callee, source)),
                param_args: stamp_param_arg_list(param_args, source),
                args: stamp_expr_list(args, source),
                kwargs: stamp_kw_arg_list(kwargs, source),
            };
            proof { unfold_expr_kind(kind4); }
            kind4
        },
        ExprKind::Member { object, field } => {
            let kind5 = ExprKind::Member {
                object: Box::new(stamp_expr(&**object, source)),
                field: field.clone(),
            };
            proof { unfold_expr_kind(kind5); }
            kind5
        },
        ExprKind::MethodCall { object, method, args, kwargs } => {
            let kind6 = ExprKind::MethodCall {
                object: Box::new(stamp_expr(&**object, source)),
                method: method.clone(),
                args: stamp_expr_list(args, source),
                kwargs: stamp_kw_arg_list(kwargs, source),
            };
            proof { unfold_expr_kind(kind6); }
            kind6
        },
        _ => {
            assert(!(expr_kind@ is Infix));
            assert(!(expr_kind@ is Compare));
            assert(!(expr_kind@ is Call));
            assert(!(expr_kind@ is Invoke));
            assert(!(expr_kind@ is Member));
            assert(!(expr_kind@ is MethodCall));
            stamp_expr_kind_further(expr_kind, source)
        },
    }
}

pub open spec fn stamped_expr_kind_further(
    expr_kind: ExprKindView,
    source: Seq<char>,
) -> ExprKindView
    decreases expr_kind, 1nat,
{
    match expr_kind {
        ExprKindView::Index { object, index } => ExprKindView::Index {
            object: Box::new(stamped_expr(*object, source)),
            index: Box::new(stamped_expr(*index, source)),
        },
        ExprKindView::Slice { object, lower, upper, step } => ExprKindView::Slice {
            object: Box::new(stamped_expr(*object, source)),
            lower: stamped_opt_boxed_expr(lower, source),
            upper: stamped_opt_boxed_expr(upper, source),
            step: stamped_opt_boxed_expr(step, source),
        },
        ExprKindView::MultiIndex { object, args } => ExprKindView::MultiIndex {
            object: Box::new(stamped_expr(*object, source)),
            args: stamped_subscript_arg_list(args, source, 0, Seq::empty()),
        },
        ExprKindView::ListLit(a0) => ExprKindView::ListLit(
            stamped_expr_list(a0, source, 0, Seq::empty())
        ),
        ExprKindView::TupleLit(a0) => ExprKindView::TupleLit(
            stamped_expr_list(a0, source, 0, Seq::empty())
        ),
        ExprKindView::BraceLit(a0) => ExprKindView::BraceLit(
            stamped_entry_list(a0, source, 0, Seq::empty())
        ),
        _ => stamped_expr_kind_rest(expr_kind, source),
    }
}

/// See [`stamped_expr_kind_further`].
pub fn stamp_expr_kind_further(expr_kind: &ExprKind, source: &String) -> (r: ExprKind)
    ensures
        r@ == stamped_expr_kind_further(expr_kind@, source@),
    decreases expr_kind, 1nat,
{
    proof { unfold_expr_kind(*expr_kind); }
    match expr_kind {
        ExprKind::Index { object, index } => {
            let kind = ExprKind::Index {
                object: Box::new(stamp_expr(&**object, source)),
                index: Box::new(stamp_expr(&**index, source)),
            };
            proof { unfold_expr_kind(kind); }
            kind
        },
        ExprKind::Slice { object, lower, upper, step } => {
            let kind2 = ExprKind::Slice {
                object: Box::new(stamp_expr(&**object, source)),
                lower: stamp_opt_boxed_expr(lower, source),
                upper: stamp_opt_boxed_expr(upper, source),
                step: stamp_opt_boxed_expr(step, source),
            };
            proof { unfold_expr_kind(kind2); }
            kind2
        },
        ExprKind::MultiIndex { object, args } => {
            let kind3 = ExprKind::MultiIndex {
                object: Box::new(stamp_expr(&**object, source)),
                args: stamp_subscript_arg_list(args, source),
            };
            proof { unfold_expr_kind(kind3); }
            kind3
        },
        ExprKind::ListLit(a0) => {
            let kind4 = ExprKind::ListLit(stamp_expr_list(a0, source));
            proof { unfold_expr_kind(kind4); }
            kind4
        },
        ExprKind::TupleLit(a0) => {
            let kind5 = ExprKind::TupleLit(stamp_expr_list(a0, source));
            proof { unfold_expr_kind(kind5); }
            kind5
        },
        ExprKind::BraceLit(a0) => {
            let kind6 = ExprKind::BraceLit(stamp_entry_list(a0, source));
            proof { unfold_expr_kind(kind6); }
            kind6
        },
        _ => {
            assert(!(expr_kind@ is Index));
            assert(!(expr_kind@ is Slice));
            assert(!(expr_kind@ is MultiIndex));
            assert(!(expr_kind@ is ListLit));
            assert(!(expr_kind@ is TupleLit));
            assert(!(expr_kind@ is BraceLit));
            stamp_expr_kind_rest(expr_kind, source)
        },
    }
}

pub open spec fn stamped_expr_kind_rest(
    expr_kind: ExprKindView,
    source: Seq<char>,
) -> ExprKindView
    decreases expr_kind, 0nat,
{
    match expr_kind {
        ExprKindView::Comprehension { kind, key, value, clauses } => ExprKindView::Comprehension {
            kind,
            key: stamped_opt_boxed_expr(key, source),
            value: Box::new(stamped_expr(*value, source)),
            clauses: stamped_comprehension_clause_list(clauses, source, 0, Seq::empty()),
        },
        ExprKindView::Named { name, value } => ExprKindView::Named {
            name,
            value: Box::new(stamped_expr(*value, source)),
        },
        ExprKindView::IfExpr { cond, then_branch, else_branch } => ExprKindView::IfExpr {
            cond: Box::new(stamped_expr(*cond, source)),
            then_branch: Box::new(stamped_expr(*then_branch, source)),
            else_branch: Box::new(stamped_expr(*else_branch, source)),
        },
        _ => expr_kind,
    }
}

/// See [`stamped_expr_kind_rest`].
pub fn stamp_expr_kind_rest(expr_kind: &ExprKind, source: &String) -> (r: ExprKind)
    ensures
        r@ == stamped_expr_kind_rest(expr_kind@, source@),
    decreases expr_kind, 0nat,
{
    proof { unfold_expr_kind(*expr_kind); }
    match expr_kind {
        ExprKind::Comprehension { kind, key, value, clauses } => {
            let kind2 = ExprKind::Comprehension {
                kind: *kind,
                key: stamp_opt_boxed_expr(key, source),
                value: Box::new(stamp_expr(&**value, source)),
                clauses: stamp_comprehension_clause_list(clauses, source),
            };
            proof { unfold_expr_kind(kind2); }
            kind2
        },
        ExprKind::Named { name, value } => {
            let kind3 = ExprKind::Named {
                name: name.clone(),
                value: Box::new(stamp_expr(&**value, source)),
            };
            proof { unfold_expr_kind(kind3); }
            kind3
        },
        ExprKind::IfExpr { cond, then_branch, else_branch } => {
            let kind4 = ExprKind::IfExpr {
                cond: Box::new(stamp_expr(&**cond, source)),
                then_branch: Box::new(stamp_expr(&**then_branch, source)),
                else_branch: Box::new(stamp_expr(&**else_branch, source)),
            };
            proof { unfold_expr_kind(kind4); }
            kind4
        },
        _ => {
            assert(!(expr_kind@ is Comprehension));
            assert(!(expr_kind@ is Named));
            assert(!(expr_kind@ is IfExpr));
            clone_expr_kind(expr_kind)
        },
    }
}

pub open spec fn stamped_expr(expr: ExprView, source: Seq<char>) -> ExprView
    decreases expr, 0nat,
{
    ExprView {
        kind: stamped_expr_kind(expr.kind, source),
        span: expr.span,
        source: source_stamped(expr.source, source),
    }
}

/// See [`stamped_expr`].
pub fn stamp_expr(expr: &Expr, source: &String) -> (r: Expr)
    ensures
        r@ == stamped_expr(expr@, source@),
    decreases expr, 0nat,
{
    Expr {
        kind: stamp_expr_kind(&expr.kind, source),
        span: expr.span,
        source: stamped_source(&expr.source, source),
    }
}

pub open spec fn stamped_param_arg(param_arg: ParamArgView, source: Seq<char>) -> ParamArgView
    decreases param_arg, 0nat,
{
    match param_arg {
        ParamArgView::Type(a0) => ParamArgView::Type(stamped_type(a0, source)),
        ParamArgView::Value(a0) => ParamArgView::Value(stamped_expr(a0, source)),
        ParamArgView::Named { name, value } => ParamArgView::Named {
            name,
            value: Box::new(stamped_param_arg(*value, source)),
        },
    }
}

/// See [`stamped_param_arg`].
pub fn stamp_param_arg(param_arg: &ParamArg, source: &String) -> (r: ParamArg)
    ensures
        r@ == stamped_param_arg(param_arg@, source@),
    decreases param_arg, 0nat,
{
    match param_arg {
        ParamArg::Type(a0) => ParamArg::Type(stamp_type(a0, source)),
        ParamArg::Value(a0) => ParamArg::Value(stamp_expr(a0, source)),
        ParamArg::Named { name, value } => ParamArg::Named {
            name: name.clone(),
            value: Box::new(stamp_param_arg(&**value, source)),
        },
    }
}

pub open spec fn stamped_param_arg_list(
    items: Seq<ParamArgView>,
    source: Seq<char>,
    i: nat,
    out: Seq<ParamArgView>,
) -> Seq<ParamArgView>
    decreases items, (items.len() - i) as nat,
{
    if i >= items.len() {
        out
    } else {
        let item = items[i as int];
        let out = out.push(stamped_param_arg(item, source));
        stamped_param_arg_list(items, source, i + 1, out)
    }
}

/// See [`stamped_param_arg_list`].
pub fn stamp_param_arg_list(items: &Vec<ParamArg>, source: &String) -> (r: Vec<ParamArg>)
    ensures
        param_arg_list_view(r@) == stamped_param_arg_list(
            param_arg_list_view(items@),
            source@,
            0,
            Seq::<ParamArgView>::empty(),
        ),
    decreases items@, 0nat,
{
    let mut out: Vec<ParamArg> = Vec::new();
    assert(param_arg_list_view(out@) =~= Seq::<ParamArgView>::empty());
    let ghost goal = stamped_param_arg_list(
        param_arg_list_view(items@),
        source@,
        0,
        Seq::<ParamArgView>::empty(),
    );
    let mut i: usize = 0;
    while i < items.len()
        invariant
            i <= items@.len(),
            param_arg_list_view(items@).len() == items@.len(),
            stamped_param_arg_list(
                param_arg_list_view(items@),
                source@,
                i as nat,
                param_arg_list_view(out@),
            ) == goal,
            goal == stamped_param_arg_list(
                param_arg_list_view(items@),
                source@,
                0,
                Seq::<ParamArgView>::empty(),
            ),
        decreases items@.len() - i,
    {
        let item = &items[i];
        assert(param_arg_list_view(items@)[i as int] == item@);
        let item2 = stamp_param_arg(item, source);
        let ghost before = param_arg_list_view(out@);
        let ghost added = item2@;
        out.push(item2);
        assert(param_arg_list_view(out@) =~= before.push(added));
        i = i + 1;
    }
    out
}

pub open spec fn stamped_type_list(
    items: Seq<TypeView>,
    source: Seq<char>,
    i: nat,
    out: Seq<TypeView>,
) -> Seq<TypeView>
    decreases items, (items.len() - i) as nat,
{
    if i >= items.len() {
        out
    } else {
        let item = items[i as int];
        let out = out.push(stamped_type(item, source));
        stamped_type_list(items, source, i + 1, out)
    }
}

/// See [`stamped_type_list`].
pub fn stamp_type_list(items: &Vec<Type>, source: &String) -> (r: Vec<Type>)
    ensures
        type_list_view(r@) == stamped_type_list(
            type_list_view(items@),
            source@,
            0,
            Seq::<TypeView>::empty(),
        ),
    decreases items@, 0nat,
{
    let mut out: Vec<Type> = Vec::new();
    assert(type_list_view(out@) =~= Seq::<TypeView>::empty());
    let ghost goal = stamped_type_list(
        type_list_view(items@),
        source@,
        0,
        Seq::<TypeView>::empty(),
    );
    let mut i: usize = 0;
    while i < items.len()
        invariant
            i <= items@.len(),
            type_list_view(items@).len() == items@.len(),
            stamped_type_list(
                type_list_view(items@),
                source@,
                i as nat,
                type_list_view(out@),
            ) == goal,
            goal == stamped_type_list(type_list_view(items@), source@, 0, Seq::<TypeView>::empty()),
        decreases items@.len() - i,
    {
        let item = &items[i];
        assert(type_list_view(items@)[i as int] == item@);
        let item2 = stamp_type(item, source);
        let ghost before = type_list_view(out@);
        let ghost added = item2@;
        out.push(item2);
        assert(type_list_view(out@) =~= before.push(added));
        i = i + 1;
    }
    out
}

pub open spec fn stamped_opt_boxed_type(
    value: Option<Box<TypeView>>,
    source: Seq<char>,
) -> Option<Box<TypeView>>
    decreases value, 0nat,
{
    match value {
        Some(value) => Some(Box::new(stamped_type(*value, source))),
        None => None,
    }
}

/// See [`stamped_opt_boxed_type`].
pub fn stamp_opt_boxed_type(
    value: &Option<Box<Type>>,
    source: &String,
) -> (r: Option<Box<Type>>)
    ensures
        (match r { Some(v) => Some(Box::new(v@)), None => None }) == stamped_opt_boxed_type(
            (match value { Some(v) => Some(Box::new(v@)), None => None }),
            source@,
        ),
    decreases value, 0nat,
{
    match value {
        Some(value) => Some(Box::new(stamp_type(&**value, source))),
        None => None,
    }
}

pub open spec fn stamped_type(ty: TypeView, source: Seq<char>) -> TypeView
    decreases ty, 0nat,
{
    match ty {
        TypeView::Named(a0, a1) => TypeView::Named(
            a0,
            stamped_param_arg_list(a1, source, 0, Seq::empty()),
        ),
        TypeView::Assoc { base, name } => TypeView::Assoc {
            base: Box::new(stamped_type(*base, source)),
            name,
        },
        TypeView::Func { params, ret, thin, raises, raises_type } => TypeView::Func {
            params: stamped_type_list(params, source, 0, Seq::empty()),
            ret: Box::new(stamped_type(*ret, source)),
            thin,
            raises,
            raises_type: stamped_opt_boxed_type(raises_type, source),
        },
        TypeView::Ref { referent, origin } => TypeView::Ref {
            referent: Box::new(stamped_type(*referent, source)),
            origin: stamped_opt_boxed_expr(origin, source),
        },
        _ => ty,
    }
}

/// See [`stamped_type`].
pub fn stamp_type(ty: &Type, source: &String) -> (r: Type)
    ensures
        r@ == stamped_type(ty@, source@),
    decreases ty, 0nat,
{
    proof { unfold_type(*ty); }
    match ty {
        Type::Named(a0, a1) => {
            let type_value = Type::Named(a0.clone(), stamp_param_arg_list(a1, source));
            proof { unfold_type(type_value); }
            type_value
        },
        Type::Assoc { base, name } => {
            let type_value2 = Type::Assoc {
                base: Box::new(stamp_type(&**base, source)),
                name: name.clone(),
            };
            proof { unfold_type(type_value2); }
            type_value2
        },
        Type::Func { params, ret, thin, raises, raises_type } => {
            let type_value3 = Type::Func {
                params: stamp_type_list(params, source),
                ret: Box::new(stamp_type(&**ret, source)),
                thin: *thin,
                raises: *raises,
                raises_type: stamp_opt_boxed_type(raises_type, source),
            };
            proof { unfold_type(type_value3); }
            type_value3
        },
        Type::Ref { referent, origin } => {
            let type_value4 = Type::Ref {
                referent: Box::new(stamp_type(&**referent, source)),
                origin: stamp_opt_boxed_expr(origin, source),
            };
            proof { unfold_type(type_value4); }
            type_value4
        },
        _ => {
            assert(!(ty@ is Named));
            assert(!(ty@ is Assoc));
            assert(!(ty@ is Func));
            assert(!(ty@ is Ref));
            clone_type(ty)
        },
    }
}

pub open spec fn stamped_opt_type(
    value: Option<TypeView>,
    source: Seq<char>,
) -> Option<TypeView>
    decreases value, 0nat,
{
    match value {
        Some(value) => Some(stamped_type(value, source)),
        None => None,
    }
}

/// See [`stamped_opt_type`].
pub fn stamp_opt_type(value: &Option<Type>, source: &String) -> (r: Option<Type>)
    ensures
        opt_view(r) == stamped_opt_type(opt_view(*value), source@),
    decreases value, 0nat,
{
    match value {
        Some(value) => Some(stamp_type(value, source)),
        None => None,
    }
}

pub open spec fn stamped_stmt_list(
    items: Seq<StmtView>,
    source: Seq<char>,
    i: nat,
    out: Seq<StmtView>,
) -> Seq<StmtView>
    decreases items, (items.len() - i) as nat,
{
    if i >= items.len() {
        out
    } else {
        let item = items[i as int];
        let out = out.push(stamped_stmt(item, source));
        stamped_stmt_list(items, source, i + 1, out)
    }
}

/// See [`stamped_stmt_list`].
pub fn stamp_stmt_list(items: &Vec<Stmt>, source: &String) -> (r: Vec<Stmt>)
    ensures
        stmt_list_view(r@) == stamped_stmt_list(
            stmt_list_view(items@),
            source@,
            0,
            Seq::<StmtView>::empty(),
        ),
    decreases items@, 0nat,
{
    let mut out: Vec<Stmt> = Vec::new();
    assert(stmt_list_view(out@) =~= Seq::<StmtView>::empty());
    let ghost goal = stamped_stmt_list(
        stmt_list_view(items@),
        source@,
        0,
        Seq::<StmtView>::empty(),
    );
    let mut i: usize = 0;
    while i < items.len()
        invariant
            i <= items@.len(),
            stmt_list_view(items@).len() == items@.len(),
            stamped_stmt_list(
                stmt_list_view(items@),
                source@,
                i as nat,
                stmt_list_view(out@),
            ) == goal,
            goal == stamped_stmt_list(stmt_list_view(items@), source@, 0, Seq::<StmtView>::empty()),
        decreases items@.len() - i,
    {
        let item = &items[i];
        assert(stmt_list_view(items@)[i as int] == item@);
        let item2 = stamp_stmt(item, source);
        let ghost before = stmt_list_view(out@);
        let ghost added = item2@;
        out.push(item2);
        assert(stmt_list_view(out@) =~= before.push(added));
        i = i + 1;
    }
    out
}

pub open spec fn stamped_branch_list(
    items: Seq<(ExprView, Seq<StmtView>)>,
    source: Seq<char>,
    i: nat,
    out: Seq<(ExprView, Seq<StmtView>)>,
) -> Seq<(ExprView, Seq<StmtView>)>
    decreases items, (items.len() - i) as nat,
{
    if i >= items.len() {
        out
    } else {
        let item = items[i as int];
        let out = out.push(
            (stamped_expr(item.0, source), stamped_stmt_list(item.1, source, 0, Seq::empty()))
        );
        stamped_branch_list(items, source, i + 1, out)
    }
}

/// See [`stamped_branch_list`].
pub fn stamp_branch_list(
    items: &Vec<(Expr, Vec<Stmt>)>,
    source: &String,
) -> (r: Vec<(Expr, Vec<Stmt>)>)
    ensures
        branch_list_view(r@) == stamped_branch_list(
            branch_list_view(items@),
            source@,
            0,
            Seq::<(ExprView, Seq<StmtView>)>::empty(),
        ),
    decreases items@, 0nat,
{
    let mut out: Vec<(Expr, Vec<Stmt>)> = Vec::new();
    assert(branch_list_view(out@) =~= Seq::<(ExprView, Seq<StmtView>)>::empty());
    let ghost goal = stamped_branch_list(
        branch_list_view(items@),
        source@,
        0,
        Seq::<(ExprView, Seq<StmtView>)>::empty(),
    );
    let mut i: usize = 0;
    while i < items.len()
        invariant
            i <= items@.len(),
            branch_list_view(items@).len() == items@.len(),
            stamped_branch_list(
                branch_list_view(items@),
                source@,
                i as nat,
                branch_list_view(out@),
            ) == goal,
            goal == stamped_branch_list(
                branch_list_view(items@),
                source@,
                0,
                Seq::<(ExprView, Seq<StmtView>)>::empty(),
            ),
        decreases items@.len() - i,
    {
        let item = &items[i];
        assert(branch_list_view(items@)[i as int].0 =~= item.0@);
        assert(branch_list_view(items@)[i as int].1 =~= stmt_list_view(item.1@));
        let item2 = (stamp_expr(&item.0, source), stamp_stmt_list(&item.1, source));
        let ghost before = branch_list_view(out@);
        let ghost added = (item2.0@, stmt_list_view(item2.1@));
        out.push(item2);
        assert(branch_list_view(out@) =~= before.push(added));
        i = i + 1;
    }
    out
}

pub open spec fn stamped_opt_stmt_list(
    value: Option<Seq<StmtView>>,
    source: Seq<char>,
) -> Option<Seq<StmtView>>
    decreases value, 0nat,
{
    match value {
        Some(value) => Some(stamped_stmt_list(value, source, 0, Seq::empty())),
        None => None,
    }
}

/// See [`stamped_opt_stmt_list`].
pub fn stamp_opt_stmt_list(value: &Option<Vec<Stmt>>, source: &String) -> (r: Option<Vec<Stmt>>)
    ensures
        (match r { Some(v) => Some(stmt_list_view(v@)), None => None }) == stamped_opt_stmt_list(
            (match value { Some(v) => Some(stmt_list_view(v@)), None => None }),
            source@,
        ),
    decreases value, 0nat,
{
    match value {
        Some(value) => Some(stamp_stmt_list(value, source)),
        None => None,
    }
}

pub open spec fn stamped_opt_opt_string_stmt_list(
    value: Option<(Option<Seq<char>>, Seq<StmtView>)>,
    source: Seq<char>,
) -> Option<(Option<Seq<char>>, Seq<StmtView>)>
    decreases value, 0nat,
{
    match value {
        Some(value) => Some((value.0, stamped_stmt_list(value.1, source, 0, Seq::empty()))),
        None => None,
    }
}

/// See [`stamped_opt_opt_string_stmt_list`].
pub fn stamp_opt_opt_string_stmt_list(
    value: &Option<(Option<String>, Vec<Stmt>)>,
    source: &String,
) -> (r: Option<(Option<String>, Vec<Stmt>)>)
    ensures
        (
            match r { Some(v) => Some((opt_view(v.0), stmt_list_view(v.1@))), None => None }
        ) == stamped_opt_opt_string_stmt_list(
            (match value { Some(v) => Some((opt_view(v.0), stmt_list_view(v.1@))), None => None }),
            source@,
        ),
    decreases value, 0nat,
{
    match value {
        Some(value) => Some(
            (
                (match (&value.0) { Some(y) => Some(y.clone()), None => None }),
                stamp_stmt_list(&value.1, source),
            )
        ),
        None => None,
    }
}

pub open spec fn stamped_with_item(with_item: WithItemView, source: Seq<char>) -> WithItemView
    decreases with_item, 0nat,
{
    WithItemView { context: stamped_expr(with_item.context, source), var: with_item.var }
}

/// See [`stamped_with_item`].
pub fn stamp_with_item(with_item: &WithItem, source: &String) -> (r: WithItem)
    ensures
        r@ == stamped_with_item(with_item@, source@),
    decreases with_item, 0nat,
{
    WithItem {
        context: stamp_expr(&with_item.context, source),
        var: (match (&with_item.var) { Some(y) => Some(y.clone()), None => None }),
    }
}

pub open spec fn stamped_with_item_list(
    items: Seq<WithItemView>,
    source: Seq<char>,
    i: nat,
    out: Seq<WithItemView>,
) -> Seq<WithItemView>
    decreases items, (items.len() - i) as nat,
{
    if i >= items.len() {
        out
    } else {
        let item = items[i as int];
        let out = out.push(stamped_with_item(item, source));
        stamped_with_item_list(items, source, i + 1, out)
    }
}

/// See [`stamped_with_item_list`].
pub fn stamp_with_item_list(items: &Vec<WithItem>, source: &String) -> (r: Vec<WithItem>)
    ensures
        with_item_list_view(r@) == stamped_with_item_list(
            with_item_list_view(items@),
            source@,
            0,
            Seq::<WithItemView>::empty(),
        ),
    decreases items@, 0nat,
{
    let mut out: Vec<WithItem> = Vec::new();
    assert(with_item_list_view(out@) =~= Seq::<WithItemView>::empty());
    let ghost goal = stamped_with_item_list(
        with_item_list_view(items@),
        source@,
        0,
        Seq::<WithItemView>::empty(),
    );
    let mut i: usize = 0;
    while i < items.len()
        invariant
            i <= items@.len(),
            with_item_list_view(items@).len() == items@.len(),
            stamped_with_item_list(
                with_item_list_view(items@),
                source@,
                i as nat,
                with_item_list_view(out@),
            ) == goal,
            goal == stamped_with_item_list(
                with_item_list_view(items@),
                source@,
                0,
                Seq::<WithItemView>::empty(),
            ),
        decreases items@.len() - i,
    {
        let item = &items[i];
        assert(with_item_list_view(items@)[i as int] == item@);
        let item2 = stamp_with_item(item, source);
        let ghost before = with_item_list_view(out@);
        let ghost added = item2@;
        out.push(item2);
        assert(with_item_list_view(out@) =~= before.push(added));
        i = i + 1;
    }
    out
}

pub open spec fn stamped_type_param(
    type_param: TypeParamView,
    source: Seq<char>,
) -> TypeParamView
    decreases type_param, 0nat,
{
    TypeParamView {
        name: type_param.name,
        bounds: type_param.bounds,
        value_type: stamped_opt_type(type_param.value_type, source),
        default: stamped_opt_expr(type_param.default, source),
        infer_only: type_param.infer_only,
    }
}

/// See [`stamped_type_param`].
pub fn stamp_type_param(type_param: &TypeParam, source: &String) -> (r: TypeParam)
    ensures
        r@ == stamped_type_param(type_param@, source@),
    decreases type_param, 0nat,
{
    let param = TypeParam {
        name: (&type_param.name).clone(),
        bounds: clone_string_list(&type_param.bounds),
        value_type: stamp_opt_type(&type_param.value_type, source),
        default: stamp_opt_expr(&type_param.default, source),
        infer_only: type_param.infer_only,
    };
    proof { unfold_type_param(param); }
    param
}

pub open spec fn stamped_type_param_list(
    items: Seq<TypeParamView>,
    source: Seq<char>,
    i: nat,
    out: Seq<TypeParamView>,
) -> Seq<TypeParamView>
    decreases items, (items.len() - i) as nat,
{
    if i >= items.len() {
        out
    } else {
        let item = items[i as int];
        let out = out.push(stamped_type_param(item, source));
        stamped_type_param_list(items, source, i + 1, out)
    }
}

/// See [`stamped_type_param_list`].
pub fn stamp_type_param_list(items: &Vec<TypeParam>, source: &String) -> (r: Vec<TypeParam>)
    ensures
        type_param_list_view(r@) == stamped_type_param_list(
            type_param_list_view(items@),
            source@,
            0,
            Seq::<TypeParamView>::empty(),
        ),
    decreases items@, 0nat,
{
    let mut out: Vec<TypeParam> = Vec::new();
    assert(type_param_list_view(out@) =~= Seq::<TypeParamView>::empty());
    let ghost goal = stamped_type_param_list(
        type_param_list_view(items@),
        source@,
        0,
        Seq::<TypeParamView>::empty(),
    );
    let mut i: usize = 0;
    while i < items.len()
        invariant
            i <= items@.len(),
            type_param_list_view(items@).len() == items@.len(),
            stamped_type_param_list(
                type_param_list_view(items@),
                source@,
                i as nat,
                type_param_list_view(out@),
            ) == goal,
            goal == stamped_type_param_list(
                type_param_list_view(items@),
                source@,
                0,
                Seq::<TypeParamView>::empty(),
            ),
        decreases items@.len() - i,
    {
        let item = &items[i];
        assert(type_param_list_view(items@)[i as int] == item@);
        let item2 = stamp_type_param(item, source);
        let ghost before = type_param_list_view(out@);
        let ghost added = item2@;
        out.push(item2);
        assert(type_param_list_view(out@) =~= before.push(added));
        i = i + 1;
    }
    out
}

pub open spec fn stamped_fn_param(fn_param: FnParamView, source: Seq<char>) -> FnParamView
    decreases fn_param, 0nat,
{
    FnParamView {
        name: fn_param.name,
        ty: stamped_type(fn_param.ty, source),
        default: stamped_opt_expr(fn_param.default, source),
        convention: fn_param.convention,
        kind: fn_param.kind,
    }
}

/// See [`stamped_fn_param`].
pub fn stamp_fn_param(fn_param: &FnParam, source: &String) -> (r: FnParam)
    ensures
        r@ == stamped_fn_param(fn_param@, source@),
    decreases fn_param, 0nat,
{
    FnParam {
        name: (&fn_param.name).clone(),
        ty: stamp_type(&fn_param.ty, source),
        default: stamp_opt_expr(&fn_param.default, source),
        convention: fn_param.convention,
        kind: fn_param.kind,
    }
}

pub open spec fn stamped_fn_param_list(
    items: Seq<FnParamView>,
    source: Seq<char>,
    i: nat,
    out: Seq<FnParamView>,
) -> Seq<FnParamView>
    decreases items, (items.len() - i) as nat,
{
    if i >= items.len() {
        out
    } else {
        let item = items[i as int];
        let out = out.push(stamped_fn_param(item, source));
        stamped_fn_param_list(items, source, i + 1, out)
    }
}

/// See [`stamped_fn_param_list`].
pub fn stamp_fn_param_list(items: &Vec<FnParam>, source: &String) -> (r: Vec<FnParam>)
    ensures
        fn_param_list_view(r@) == stamped_fn_param_list(
            fn_param_list_view(items@),
            source@,
            0,
            Seq::<FnParamView>::empty(),
        ),
    decreases items@, 0nat,
{
    let mut out: Vec<FnParam> = Vec::new();
    assert(fn_param_list_view(out@) =~= Seq::<FnParamView>::empty());
    let ghost goal = stamped_fn_param_list(
        fn_param_list_view(items@),
        source@,
        0,
        Seq::<FnParamView>::empty(),
    );
    let mut i: usize = 0;
    while i < items.len()
        invariant
            i <= items@.len(),
            fn_param_list_view(items@).len() == items@.len(),
            stamped_fn_param_list(
                fn_param_list_view(items@),
                source@,
                i as nat,
                fn_param_list_view(out@),
            ) == goal,
            goal == stamped_fn_param_list(
                fn_param_list_view(items@),
                source@,
                0,
                Seq::<FnParamView>::empty(),
            ),
        decreases items@.len() - i,
    {
        let item = &items[i];
        assert(fn_param_list_view(items@)[i as int] == item@);
        let item2 = stamp_fn_param(item, source);
        let ghost before = fn_param_list_view(out@);
        let ghost added = item2@;
        out.push(item2);
        assert(fn_param_list_view(out@) =~= before.push(added));
        i = i + 1;
    }
    out
}

pub open spec fn stamped_param(param: ParamView, source: Seq<char>) -> ParamView
    decreases param, 0nat,
{
    ParamView { name: param.name, ty: stamped_type(param.ty, source) }
}

/// See [`stamped_param`].
pub fn stamp_param(param: &Param, source: &String) -> (r: Param)
    ensures
        r@ == stamped_param(param@, source@),
    decreases param, 0nat,
{
    Param { name: (&param.name).clone(), ty: stamp_type(&param.ty, source) }
}

pub open spec fn stamped_param_list(
    items: Seq<ParamView>,
    source: Seq<char>,
    i: nat,
    out: Seq<ParamView>,
) -> Seq<ParamView>
    decreases items, (items.len() - i) as nat,
{
    if i >= items.len() {
        out
    } else {
        let item = items[i as int];
        let out = out.push(stamped_param(item, source));
        stamped_param_list(items, source, i + 1, out)
    }
}

/// See [`stamped_param_list`].
pub fn stamp_param_list(items: &Vec<Param>, source: &String) -> (r: Vec<Param>)
    ensures
        param_list_view(r@) == stamped_param_list(
            param_list_view(items@),
            source@,
            0,
            Seq::<ParamView>::empty(),
        ),
    decreases items@, 0nat,
{
    let mut out: Vec<Param> = Vec::new();
    assert(param_list_view(out@) =~= Seq::<ParamView>::empty());
    let ghost goal = stamped_param_list(
        param_list_view(items@),
        source@,
        0,
        Seq::<ParamView>::empty(),
    );
    let mut i: usize = 0;
    while i < items.len()
        invariant
            i <= items@.len(),
            param_list_view(items@).len() == items@.len(),
            stamped_param_list(
                param_list_view(items@),
                source@,
                i as nat,
                param_list_view(out@),
            ) == goal,
            goal == stamped_param_list(
                param_list_view(items@),
                source@,
                0,
                Seq::<ParamView>::empty(),
            ),
        decreases items@.len() - i,
    {
        let item = &items[i];
        assert(param_list_view(items@)[i as int] == item@);
        let item2 = stamp_param(item, source);
        let ghost before = param_list_view(out@);
        let ghost added = item2@;
        out.push(item2);
        assert(param_list_view(out@) =~= before.push(added));
        i = i + 1;
    }
    out
}

pub open spec fn stamped_struct_comptime(
    struct_comptime: StructComptimeView,
    source: Seq<char>,
) -> StructComptimeView
    decreases struct_comptime, 0nat,
{
    StructComptimeView {
        name: struct_comptime.name,
        value: stamped_expr(struct_comptime.value, source),
    }
}

/// See [`stamped_struct_comptime`].
pub fn stamp_struct_comptime(
    struct_comptime: &StructComptime,
    source: &String,
) -> (r: StructComptime)
    ensures
        r@ == stamped_struct_comptime(struct_comptime@, source@),
    decreases struct_comptime, 0nat,
{
    StructComptime {
        name: (&struct_comptime.name).clone(),
        value: stamp_expr(&struct_comptime.value, source),
    }
}

pub open spec fn stamped_struct_comptime_list(
    items: Seq<StructComptimeView>,
    source: Seq<char>,
    i: nat,
    out: Seq<StructComptimeView>,
) -> Seq<StructComptimeView>
    decreases items, (items.len() - i) as nat,
{
    if i >= items.len() {
        out
    } else {
        let item = items[i as int];
        let out = out.push(stamped_struct_comptime(item, source));
        stamped_struct_comptime_list(items, source, i + 1, out)
    }
}

/// See [`stamped_struct_comptime_list`].
pub fn stamp_struct_comptime_list(
    items: &Vec<StructComptime>,
    source: &String,
) -> (r: Vec<StructComptime>)
    ensures
        struct_comptime_list_view(r@) == stamped_struct_comptime_list(
            struct_comptime_list_view(items@),
            source@,
            0,
            Seq::<StructComptimeView>::empty(),
        ),
    decreases items@, 0nat,
{
    let mut out: Vec<StructComptime> = Vec::new();
    assert(struct_comptime_list_view(out@) =~= Seq::<StructComptimeView>::empty());
    let ghost goal = stamped_struct_comptime_list(
        struct_comptime_list_view(items@),
        source@,
        0,
        Seq::<StructComptimeView>::empty(),
    );
    let mut i: usize = 0;
    while i < items.len()
        invariant
            i <= items@.len(),
            struct_comptime_list_view(items@).len() == items@.len(),
            stamped_struct_comptime_list(
                struct_comptime_list_view(items@),
                source@,
                i as nat,
                struct_comptime_list_view(out@),
            ) == goal,
            goal == stamped_struct_comptime_list(
                struct_comptime_list_view(items@),
                source@,
                0,
                Seq::<StructComptimeView>::empty(),
            ),
        decreases items@.len() - i,
    {
        let item = &items[i];
        assert(struct_comptime_list_view(items@)[i as int] == item@);
        let item2 = stamp_struct_comptime(item, source);
        let ghost before = struct_comptime_list_view(out@);
        let ghost added = item2@;
        out.push(item2);
        assert(struct_comptime_list_view(out@) =~= before.push(added));
        i = i + 1;
    }
    out
}

pub open spec fn stamped_method(method: MethodView, source: Seq<char>) -> MethodView
    decreases method, 0nat,
{
    MethodView {
        name: method.name,
        has_self: method.has_self,
        self_convention: method.self_convention,
        params: stamped_fn_param_list(method.params, source, 0, Seq::empty()),
        positional_only: method.positional_only,
        keyword_only: method.keyword_only,
        raises_type: stamped_opt_type(method.raises_type, source),
        ret: stamped_opt_type(method.ret, source),
        body: stamped_stmt_list(method.body, source, 0, Seq::empty()),
    }
}

/// See [`stamped_method`].
pub fn stamp_method(method: &Method, source: &String) -> (r: Method)
    ensures
        r@ == stamped_method(method@, source@),
    decreases method, 0nat,
{
    let method2 = Method {
        name: (&method.name).clone(),
        has_self: method.has_self,
        self_convention: method.self_convention,
        params: stamp_fn_param_list(&method.params, source),
        positional_only: method.positional_only,
        keyword_only: method.keyword_only,
        raises_type: stamp_opt_type(&method.raises_type, source),
        ret: stamp_opt_type(&method.ret, source),
        body: stamp_stmt_list(&method.body, source),
    };
    proof { unfold_method(method2); }
    method2
}

pub open spec fn stamped_method_list(
    items: Seq<MethodView>,
    source: Seq<char>,
    i: nat,
    out: Seq<MethodView>,
) -> Seq<MethodView>
    decreases items, (items.len() - i) as nat,
{
    if i >= items.len() {
        out
    } else {
        let item = items[i as int];
        let out = out.push(stamped_method(item, source));
        stamped_method_list(items, source, i + 1, out)
    }
}

/// See [`stamped_method_list`].
pub fn stamp_method_list(items: &Vec<Method>, source: &String) -> (r: Vec<Method>)
    ensures
        method_list_view(r@) == stamped_method_list(
            method_list_view(items@),
            source@,
            0,
            Seq::<MethodView>::empty(),
        ),
    decreases items@, 0nat,
{
    let mut out: Vec<Method> = Vec::new();
    assert(method_list_view(out@) =~= Seq::<MethodView>::empty());
    let ghost goal = stamped_method_list(
        method_list_view(items@),
        source@,
        0,
        Seq::<MethodView>::empty(),
    );
    let mut i: usize = 0;
    while i < items.len()
        invariant
            i <= items@.len(),
            method_list_view(items@).len() == items@.len(),
            stamped_method_list(
                method_list_view(items@),
                source@,
                i as nat,
                method_list_view(out@),
            ) == goal,
            goal == stamped_method_list(
                method_list_view(items@),
                source@,
                0,
                Seq::<MethodView>::empty(),
            ),
        decreases items@.len() - i,
    {
        let item = &items[i];
        assert(method_list_view(items@)[i as int] == item@);
        let item2 = stamp_method(item, source);
        let ghost before = method_list_view(out@);
        let ghost added = item2@;
        out.push(item2);
        assert(method_list_view(out@) =~= before.push(added));
        i = i + 1;
    }
    out
}

pub open spec fn stamped_stmt_kind(stmt_kind: StmtKindView, source: Seq<char>) -> StmtKindView
    decreases stmt_kind, 3nat,
{
    match stmt_kind {
        StmtKindView::VarDecl { name, ty, value } => StmtKindView::VarDecl {
            name,
            ty: stamped_opt_type(ty, source),
            value: stamped_expr(value, source),
        },
        StmtKindView::RefDecl { name, value } => StmtKindView::RefDecl {
            name,
            value: stamped_expr(value, source),
        },
        StmtKindView::Assign { name, value } => StmtKindView::Assign {
            name,
            value: stamped_expr(value, source),
        },
        StmtKindView::Comptime { name, value } => StmtKindView::Comptime {
            name,
            value: stamped_expr(value, source),
        },
        StmtKindView::Raise(a0) => StmtKindView::Raise(stamped_expr(a0, source)),
        StmtKindView::Return(a0) => StmtKindView::Return(stamped_opt_expr(a0, source)),
        _ => stamped_stmt_kind_more(stmt_kind, source),
    }
}

/// See [`stamped_stmt_kind`].
pub fn stamp_stmt_kind(stmt_kind: &StmtKind, source: &String) -> (r: StmtKind)
    ensures
        r@ == stamped_stmt_kind(stmt_kind@, source@),
    decreases stmt_kind, 3nat,
{
    proof { unfold_stmt_kind(*stmt_kind); }
    match stmt_kind {
        StmtKind::VarDecl { name, ty, value } => {
            let kind = StmtKind::VarDecl {
                name: name.clone(),
                ty: stamp_opt_type(ty, source),
                value: stamp_expr(value, source),
            };
            proof { unfold_stmt_kind(kind); }
            kind
        },
        StmtKind::RefDecl { name, value } => {
            let kind2 = StmtKind::RefDecl { name: name.clone(), value: stamp_expr(value, source) };
            proof { unfold_stmt_kind(kind2); }
            kind2
        },
        StmtKind::Assign { name, value } => {
            let kind3 = StmtKind::Assign { name: name.clone(), value: stamp_expr(value, source) };
            proof { unfold_stmt_kind(kind3); }
            kind3
        },
        StmtKind::Comptime { name, value } => {
            let kind4 = StmtKind::Comptime { name: name.clone(), value: stamp_expr(value, source) };
            proof { unfold_stmt_kind(kind4); }
            kind4
        },
        StmtKind::Raise(a0) => {
            let kind5 = StmtKind::Raise(stamp_expr(a0, source));
            proof { unfold_stmt_kind(kind5); }
            kind5
        },
        StmtKind::Return(a0) => {
            let kind6 = StmtKind::Return(stamp_opt_expr(a0, source));
            proof { unfold_stmt_kind(kind6); }
            kind6
        },
        _ => {
            assert(!(stmt_kind@ is VarDecl));
            assert(!(stmt_kind@ is RefDecl));
            assert(!(stmt_kind@ is Assign));
            assert(!(stmt_kind@ is Comptime));
            assert(!(stmt_kind@ is Raise));
            assert(!(stmt_kind@ is Return));
            stamp_stmt_kind_more(stmt_kind, source)
        },
    }
}

pub open spec fn stamped_stmt_kind_more(
    stmt_kind: StmtKindView,
    source: Seq<char>,
) -> StmtKindView
    decreases stmt_kind, 2nat,
{
    match stmt_kind {
        StmtKindView::SetPlace { place, value } => StmtKindView::SetPlace {
            place: stamped_expr(place, source),
            value: stamped_expr(value, source),
        },
        StmtKindView::AugAssign { place, op, value } => StmtKindView::AugAssign {
            place: stamped_expr(place, source),
            op,
            value: stamped_expr(value, source),
        },
        StmtKindView::Unpack { targets, value } => StmtKindView::Unpack {
            targets: stamped_expr_list(targets, source, 0, Seq::empty()),
            value: stamped_expr(value, source),
        },
        StmtKindView::Expr(a0) => StmtKindView::Expr(stamped_expr(a0, source)),
        StmtKindView::If { branches, orelse } => StmtKindView::If {
            branches: stamped_branch_list(branches, source, 0, Seq::empty()),
            orelse: stamped_opt_stmt_list(orelse, source),
        },
        StmtKindView::ComptimeIf { branches, orelse } => StmtKindView::ComptimeIf {
            branches: stamped_branch_list(branches, source, 0, Seq::empty()),
            orelse: stamped_opt_stmt_list(orelse, source),
        },
        _ => stamped_stmt_kind_further(stmt_kind, source),
    }
}

/// See [`stamped_stmt_kind_more`].
pub fn stamp_stmt_kind_more(stmt_kind: &StmtKind, source: &String) -> (r: StmtKind)
    ensures
        r@ == stamped_stmt_kind_more(stmt_kind@, source@),
    decreases stmt_kind, 2nat,
{
    proof { unfold_stmt_kind(*stmt_kind); }
    match stmt_kind {
        StmtKind::SetPlace { place, value } => {
            let kind = StmtKind::SetPlace {
                place: stamp_expr(place, source),
                value: stamp_expr(value, source),
            };
            proof { unfold_stmt_kind(kind); }
            kind
        },
        StmtKind::AugAssign { place, op, value } => {
            let kind2 = StmtKind::AugAssign {
                place: stamp_expr(place, source),
                op: *op,
                value: stamp_expr(value, source),
            };
            proof { unfold_stmt_kind(kind2); }
            kind2
        },
        StmtKind::Unpack { targets, value } => {
            let kind3 = StmtKind::Unpack {
                targets: stamp_expr_list(targets, source),
                value: stamp_expr(value, source),
            };
            proof { unfold_stmt_kind(kind3); }
            kind3
        },
        StmtKind::Expr(a0) => {
            let kind4 = StmtKind::Expr(stamp_expr(a0, source));
            proof { unfold_stmt_kind(kind4); }
            kind4
        },
        StmtKind::If { branches, orelse } => {
            let kind5 = StmtKind::If {
                branches: stamp_branch_list(branches, source),
                orelse: stamp_opt_stmt_list(orelse, source),
            };
            proof { unfold_stmt_kind(kind5); }
            kind5
        },
        StmtKind::ComptimeIf { branches, orelse } => {
            let kind6 = StmtKind::ComptimeIf {
                branches: stamp_branch_list(branches, source),
                orelse: stamp_opt_stmt_list(orelse, source),
            };
            proof { unfold_stmt_kind(kind6); }
            kind6
        },
        _ => {
            assert(!(stmt_kind@ is SetPlace));
            assert(!(stmt_kind@ is AugAssign));
            assert(!(stmt_kind@ is Unpack));
            assert(!(stmt_kind@ is Expr));
            assert(!(stmt_kind@ is If));
            assert(!(stmt_kind@ is ComptimeIf));
            stamp_stmt_kind_further(stmt_kind, source)
        },
    }
}

pub open spec fn stamped_stmt_kind_further(
    stmt_kind: StmtKindView,
    source: Seq<char>,
) -> StmtKindView
    decreases stmt_kind, 1nat,
{
    match stmt_kind {
        StmtKindView::While { cond, body, orelse } => StmtKindView::While {
            cond: stamped_expr(cond, source),
            body: stamped_stmt_list(body, source, 0, Seq::empty()),
            orelse: stamped_opt_stmt_list(orelse, source),
        },
        StmtKindView::For { var, reference, owned, iter, body, orelse } => StmtKindView::For {
            var,
            reference,
            owned,
            iter: stamped_expr(iter, source),
            body: stamped_stmt_list(body, source, 0, Seq::empty()),
            orelse: stamped_opt_stmt_list(orelse, source),
        },
        StmtKindView::ComptimeFor { var, iter, body } => StmtKindView::ComptimeFor {
            var,
            iter: stamped_expr(iter, source),
            body: stamped_stmt_list(body, source, 0, Seq::empty()),
        },
        StmtKindView::Try { body, except, orelse, finalbody } => StmtKindView::Try {
            body: stamped_stmt_list(body, source, 0, Seq::empty()),
            except: stamped_opt_opt_string_stmt_list(except, source),
            orelse: stamped_opt_stmt_list(orelse, source),
            finalbody: stamped_opt_stmt_list(finalbody, source),
        },
        StmtKindView::With { items, body } => StmtKindView::With {
            items: stamped_with_item_list(items, source, 0, Seq::empty()),
            body: stamped_stmt_list(body, source, 0, Seq::empty()),
        },
        StmtKindView::Def { name, decorators, type_params, params, positional_only, keyword_only, captures, raises, raises_type, ret, where_clause, body } => StmtKindView::Def {
            name,
            decorators,
            type_params: stamped_type_param_list(type_params, source, 0, Seq::empty()),
            params: stamped_fn_param_list(params, source, 0, Seq::empty()),
            positional_only,
            keyword_only,
            captures,
            raises,
            raises_type: stamped_opt_type(raises_type, source),
            ret: stamped_opt_type(ret, source),
            where_clause: stamped_opt_expr(where_clause, source),
            body: stamped_stmt_list(body, source, 0, Seq::empty()),
        },
        _ => stamped_stmt_kind_rest(stmt_kind, source),
    }
}

/// See [`stamped_stmt_kind_further`].
pub fn stamp_stmt_kind_further(stmt_kind: &StmtKind, source: &String) -> (r: StmtKind)
    ensures
        r@ == stamped_stmt_kind_further(stmt_kind@, source@),
    decreases stmt_kind, 1nat,
{
    proof { unfold_stmt_kind(*stmt_kind); }
    match stmt_kind {
        StmtKind::While { cond, body, orelse } => {
            let kind = StmtKind::While {
                cond: stamp_expr(cond, source),
                body: stamp_stmt_list(body, source),
                orelse: stamp_opt_stmt_list(orelse, source),
            };
            proof { unfold_stmt_kind(kind); }
            kind
        },
        StmtKind::For { var, reference, owned, iter, body, orelse } => {
            let kind2 = StmtKind::For {
                var: var.clone(),
                reference: *reference,
                owned: *owned,
                iter: stamp_expr(iter, source),
                body: stamp_stmt_list(body, source),
                orelse: stamp_opt_stmt_list(orelse, source),
            };
            proof { unfold_stmt_kind(kind2); }
            kind2
        },
        StmtKind::ComptimeFor { var, iter, body } => {
            let kind3 = StmtKind::ComptimeFor {
                var: var.clone(),
                iter: stamp_expr(iter, source),
                body: stamp_stmt_list(body, source),
            };
            proof { unfold_stmt_kind(kind3); }
            kind3
        },
        StmtKind::Try { body, except, orelse, finalbody } => {
            let kind4 = StmtKind::Try {
                body: stamp_stmt_list(body, source),
                except: stamp_opt_opt_string_stmt_list(except, source),
                orelse: stamp_opt_stmt_list(orelse, source),
                finalbody: stamp_opt_stmt_list(finalbody, source),
            };
            proof { unfold_stmt_kind(kind4); }
            kind4
        },
        StmtKind::With { items, body } => {
            let kind5 = StmtKind::With {
                items: stamp_with_item_list(items, source),
                body: stamp_stmt_list(body, source),
            };
            proof { unfold_stmt_kind(kind5); }
            kind5
        },
        StmtKind::Def {
            name,
            decorators,
            type_params,
            params,
            positional_only,
            keyword_only,
            captures,
            raises,
            raises_type,
            ret,
            where_clause,
            body,
        } => {
            let kind6 = StmtKind::Def {
                name: name.clone(),
                decorators: clone_string_list(decorators),
                type_params: stamp_type_param_list(type_params, source),
                params: stamp_fn_param_list(params, source),
                positional_only: *positional_only,
                keyword_only: *keyword_only,
                captures: (match captures { Some(y) => Some(clone_capture_list(y)), None => None }),
                raises: *raises,
                raises_type: stamp_opt_type(raises_type, source),
                ret: stamp_opt_type(ret, source),
                where_clause: stamp_opt_expr(where_clause, source),
                body: stamp_stmt_list(body, source),
            };
            proof { unfold_stmt_kind(kind6); }
            kind6
        },
        _ => {
            assert(!(stmt_kind@ is While));
            assert(!(stmt_kind@ is For));
            assert(!(stmt_kind@ is ComptimeFor));
            assert(!(stmt_kind@ is Try));
            assert(!(stmt_kind@ is With));
            assert(!(stmt_kind@ is Def));
            stamp_stmt_kind_rest(stmt_kind, source)
        },
    }
}

pub open spec fn stamped_stmt_kind_rest(
    stmt_kind: StmtKindView,
    source: Seq<char>,
) -> StmtKindView
    decreases stmt_kind, 0nat,
{
    match stmt_kind {
        StmtKindView::Struct { name, decorators, type_params, conforms, callable_conformance, conformance_conditions, fields, associated, methods, fieldwise_init } => StmtKindView::Struct {
            name,
            decorators,
            type_params: stamped_type_param_list(type_params, source, 0, Seq::empty()),
            conforms,
            callable_conformance: stamped_opt_type(callable_conformance, source),
            conformance_conditions: stamped_expr_list(
                conformance_conditions,
                source,
                0,
                Seq::empty(),
            ),
            fields: stamped_param_list(fields, source, 0, Seq::empty()),
            associated: stamped_struct_comptime_list(associated, source, 0, Seq::empty()),
            methods: stamped_method_list(methods, source, 0, Seq::empty()),
            fieldwise_init,
        },
        _ => stmt_kind,
    }
}

/// See [`stamped_stmt_kind_rest`].
pub fn stamp_stmt_kind_rest(stmt_kind: &StmtKind, source: &String) -> (r: StmtKind)
    ensures
        r@ == stamped_stmt_kind_rest(stmt_kind@, source@),
    decreases stmt_kind, 0nat,
{
    proof { unfold_stmt_kind(*stmt_kind); }
    match stmt_kind {
        StmtKind::Struct {
            name,
            decorators,
            type_params,
            conforms,
            callable_conformance,
            conformance_conditions,
            fields,
            associated,
            methods,
            fieldwise_init,
        } => {
            let kind = StmtKind::Struct {
                name: name.clone(),
                decorators: clone_string_list(decorators),
                type_params: stamp_type_param_list(type_params, source),
                conforms: clone_string_list(conforms),
                callable_conformance: stamp_opt_type(callable_conformance, source),
                conformance_conditions: stamp_expr_list(conformance_conditions, source),
                fields: stamp_param_list(fields, source),
                associated: stamp_struct_comptime_list(associated, source),
                methods: stamp_method_list(methods, source),
                fieldwise_init: *fieldwise_init,
            };
            proof { unfold_stmt_kind(kind); }
            kind
        },
        _ => {
            assert(!(stmt_kind@ is Struct));
            clone_stmt_kind(stmt_kind)
        },
    }
}

/// A statement, and all expressions and statements in it, under the source it comes
/// from unless it has one.
pub open spec fn stamped_stmt(stmt: StmtView, source: Seq<char>) -> StmtView
    decreases stmt, 0nat,
{
    StmtView {
        kind: stamped_stmt_kind(stmt.kind, source),
        span: stmt.span,
        module: source_stamped(stmt.module, source),
    }
}

/// See [`stamped_stmt`].
pub fn stamp_stmt(stmt: &Stmt, source: &String) -> (r: Stmt)
    ensures
        r@ == stamped_stmt(stmt@, source@),
    decreases stmt, 0nat,
{
    Stmt {
        kind: stamp_stmt_kind(&stmt.kind, source),
        span: stmt.span,
        module: stamped_source(&stmt.module, source),
    }
}

} // verus!
