//! The local names of a function body.

use crate::ast::{
    Expr, ExprKind, ExprKindView, ExprView, InfixOp, KwArg, KwArgView, Stmt, StmtKind,
    StmtKindView, StmtView, SubscriptArg, SubscriptArgView, TStringPart, TStringPartView, WithItem,
    WithItemView, branch_list_view, comparison_list_view, expr_list_view, kw_arg_list_view,
    stmt_list_view, subscript_arg_list_view, t_string_part_list_view, unfold_expr_kind,
    unfold_stmt_kind, with_item_list_view,
};
use crate::text::{add_name, contains_name, insert_name, string_list_view};
use vstd::prelude::*;

verus! {

/// The names a body declares as variables or references, nested functions,
/// structs and traits left out.
pub open spec fn declared_names(
    body: Seq<StmtView>,
    i: nat,
    out: Seq<Seq<char>>,
) -> Seq<Seq<char>>
    decreases body, (body.len() - i) as nat,
{
    if i >= body.len() {
        out
    } else {
        let stmt = body[i as int];
        let out = declared_by_stmt(stmt, out);
        declared_names(body, i + 1, out)
    }
}

/// See [`declared_names`].
pub fn explicit_local_names(body: &Vec<Stmt>, found: Vec<String>) -> (r: Vec<String>)
    ensures
        string_list_view(r@) == declared_names(stmt_list_view(body@), 0, string_list_view(found@)),
    decreases body@, 0nat,
{
    let mut out: Vec<String> = found;
    let ghost goal = declared_names(stmt_list_view(body@), 0, string_list_view(found@));
    let mut i: usize = 0;
    while i < body.len()
        invariant
            i <= body@.len(),
            stmt_list_view(body@).len() == body@.len(),
            declared_names(stmt_list_view(body@), i as nat, string_list_view(out@)) == goal,
            goal == declared_names(stmt_list_view(body@), 0, string_list_view(found@)),
        decreases body@.len() - i,
    {
        let stmt = &body[i];
        assert(stmt_list_view(body@)[i as int] == stmt@);
        out = explicit_in_stmt(stmt, out);
        i = i + 1;
    }
    out
}

pub open spec fn declared_by_stmt(stmt: StmtView, out: Seq<Seq<char>>) -> Seq<Seq<char>>
    decreases stmt, 0nat,
{
    match stmt.kind {
        StmtKindView::VarDecl { name, .. } => {
            let out = out.push(name);
            out
        },
        StmtKindView::RefDecl { name, .. } => {
            let out = out.push(name);
            out
        },
        StmtKindView::If { branches, orelse } => {
            let out = declared_by_branches(branches, 0, out);
            declared_by_block(orelse, out)
        },
        StmtKindView::While { body, .. } => declared_names(body, 0, out),
        StmtKindView::For { body, .. } => declared_names(body, 0, out),
        StmtKindView::With { body, .. } => declared_names(body, 0, out),
        StmtKindView::Try { body, except, orelse, finalbody } => {
            let out = declared_names(body, 0, out);
            let out = match except {
                Some((_, handler)) => declared_names(handler, 0, out),
                None => out,
            };
            let out = declared_by_block(orelse, out);
            declared_by_block(finalbody, out)
        },
        _ => out,
    }
}

/// See [`declared_by_stmt`].
pub fn explicit_in_stmt(stmt: &Stmt, out: Vec<String>) -> (r: Vec<String>)
    ensures
        string_list_view(r@) == declared_by_stmt(stmt@, string_list_view(out@)),
    decreases stmt, 0nat,
{
    let mut out = out;
    proof { unfold_stmt_kind(stmt.kind); }
    match &stmt.kind {
        StmtKind::VarDecl { name, .. } => {
            let item = name.clone();
            let ghost before = string_list_view(out@);
            let ghost added = item@;
            out.push(item);
            assert(string_list_view(out@) =~= before.push(added));
            out
        },
        StmtKind::RefDecl { name, .. } => {
            let item2 = name.clone();
            let ghost before2 = string_list_view(out@);
            let ghost added2 = item2@;
            out.push(item2);
            assert(string_list_view(out@) =~= before2.push(added2));
            out
        },
        StmtKind::If { branches, orelse } => {
            let out = explicit_in_branches(branches, out);
            explicit_in_block(orelse, out)
        },
        StmtKind::While { body, .. } => explicit_local_names(body, out),
        StmtKind::For { body, .. } => explicit_local_names(body, out),
        StmtKind::With { body, .. } => explicit_local_names(body, out),
        StmtKind::Try { body, except, orelse, finalbody } => {
            let out = explicit_local_names(body, out);
            let out = match except {
                Some((_, handler)) => explicit_local_names(handler, out),
                None => out,
            };
            let out = explicit_in_block(orelse, out);
            explicit_in_block(finalbody, out)
        },
        _ => {
            assert(!(stmt.kind@ is VarDecl));
            assert(!(stmt.kind@ is RefDecl));
            assert(!(stmt.kind@ is If));
            assert(!(stmt.kind@ is While));
            assert(!(stmt.kind@ is For));
            assert(!(stmt.kind@ is With));
            assert(!(stmt.kind@ is Try));
            out
        },
    }
}

pub open spec fn declared_by_branches(
    branches: Seq<(ExprView, Seq<StmtView>)>,
    i: nat,
    out: Seq<Seq<char>>,
) -> Seq<Seq<char>>
    decreases branches, (branches.len() - i) as nat,
{
    if i >= branches.len() {
        out
    } else {
        let branch = branches[i as int];
        let out = declared_names(branch.1, 0, out);
        declared_by_branches(branches, i + 1, out)
    }
}

/// See [`declared_by_branches`].
pub fn explicit_in_branches(
    branches: &Vec<(Expr, Vec<Stmt>)>,
    found: Vec<String>,
) -> (r: Vec<String>)
    ensures
        string_list_view(r@) == declared_by_branches(
            branch_list_view(branches@),
            0,
            string_list_view(found@),
        ),
    decreases branches@, 0nat,
{
    let mut out: Vec<String> = found;
    let ghost goal = declared_by_branches(branch_list_view(branches@), 0, string_list_view(found@));
    let mut i: usize = 0;
    while i < branches.len()
        invariant
            i <= branches@.len(),
            branch_list_view(branches@).len() == branches@.len(),
            declared_by_branches(
                branch_list_view(branches@),
                i as nat,
                string_list_view(out@),
            ) == goal,
            goal == declared_by_branches(branch_list_view(branches@), 0, string_list_view(found@)),
        decreases branches@.len() - i,
    {
        let branch = &branches[i];
        assert(branch_list_view(branches@)[i as int].0 =~= branch.0@);
        assert(branch_list_view(branches@)[i as int].1 =~= stmt_list_view(branch.1@));
        out = explicit_local_names(&branch.1, out);
        i = i + 1;
    }
    out
}

pub open spec fn declared_by_block(
    block: Option<Seq<StmtView>>,
    out: Seq<Seq<char>>,
) -> Seq<Seq<char>>
    decreases block, 0nat,
{
    match block {
        Some(body) => declared_names(body, 0, out),
        None => out,
    }
}

/// See [`declared_by_block`].
pub fn explicit_in_block(block: &Option<Vec<Stmt>>, out: Vec<String>) -> (r: Vec<String>)
    ensures
        string_list_view(r@) == declared_by_block(
            (match block { Some(v) => Some(stmt_list_view(v@)), None => None }),
            string_list_view(out@),
        ),
    decreases block, 0nat,
{
    match block {
        Some(body) => explicit_local_names(body, out),
        None => out,
    }
}

/// The names an expression binds with `:=`, in increasing order.
pub open spec fn named_in(e: ExprView, names: Seq<Seq<char>>) -> Seq<Seq<char>>
    decreases e, 0nat,
{
    match e.kind {
        ExprKindView::Named { name, value } => {
            let names = insert_name(names, name);
            named_in(*value, names)
        },
        ExprKindView::Prefix(_, value) => named_in(*value, names),
        ExprKindView::Transfer(value) => named_in(*value, names),
        ExprKindView::Infix(_, left, right) => {
            let names = named_in(*left, names);
            named_in(*right, names)
        },
        ExprKindView::Index { object, index } => {
            let names = named_in(*object, names);
            named_in(*index, names)
        },
        ExprKindView::Call { args, kwargs, .. } => {
            let names = named_in_exprs(args, 0, names);
            named_in_kwargs(kwargs, 0, names)
        },
        ExprKindView::Invoke { callee, args, kwargs, .. } => {
            let names = named_in(*callee, names);
            let names = named_in_exprs(args, 0, names);
            named_in_kwargs(kwargs, 0, names)
        },
        ExprKindView::Member { object, .. } => named_in(*object, names),
        ExprKindView::MethodCall { object, args, kwargs, .. } => {
            let names = named_in(*object, names);
            let names = named_in_exprs(args, 0, names);
            named_in_kwargs(kwargs, 0, names)
        },
        ExprKindView::Slice { object, lower, upper, step } => {
            let names = named_in(*object, names);
            let names = named_in_opt(lower, names);
            let names = named_in_opt(upper, names);
            named_in_opt(step, names)
        },
        ExprKindView::MultiIndex { object, args } => {
            let names = named_in(*object, names);
            named_in_subscripts(args, 0, names)
        },
        ExprKindView::ListLit(values) => named_in_exprs(values, 0, names),
        ExprKindView::TupleLit(values) => named_in_exprs(values, 0, names),
        ExprKindView::IfExpr { cond, then_branch, else_branch } => {
            let names = named_in(*cond, names);
            let names = named_in(*then_branch, names);
            named_in(*else_branch, names)
        },
        ExprKindView::Compare { first, rest } => {
            let names = named_in(*first, names);
            named_in_comparisons(rest, 0, names)
        },
        ExprKindView::TString { parts, .. } => named_in_parts(parts, 0, names),
        _ => names,
    }
}

/// See [`named_in`].
pub fn collect_named_expr(e: &Expr, names: Vec<String>) -> (r: Vec<String>)
    ensures
        string_list_view(r@) == named_in(e@, string_list_view(names@)),
    decreases e, 0nat,
{
    proof { unfold_expr_kind(e.kind); }
    match &e.kind {
        ExprKind::Named { name, value } => {
            let names = add_name(names, name.clone());
            collect_named_expr(&**value, names)
        },
        ExprKind::Prefix(_, value) => collect_named_expr(&**value, names),
        ExprKind::Transfer(value) => collect_named_expr(&**value, names),
        ExprKind::Infix(_, left, right) => {
            let names = collect_named_expr(&**left, names);
            collect_named_expr(&**right, names)
        },
        ExprKind::Index { object, index } => {
            let names = collect_named_expr(&**object, names);
            collect_named_expr(&**index, names)
        },
        ExprKind::Call { args, kwargs, .. } => {
            let names = collect_named_exprs(args, names);
            collect_named_kwargs(kwargs, names)
        },
        ExprKind::Invoke { callee, args, kwargs, .. } => {
            let names = collect_named_expr(&**callee, names);
            let names = collect_named_exprs(args, names);
            collect_named_kwargs(kwargs, names)
        },
        ExprKind::Member { object, .. } => collect_named_expr(&**object, names),
        ExprKind::MethodCall { object, args, kwargs, .. } => {
            let names = collect_named_expr(&**object, names);
            let names = collect_named_exprs(args, names);
            collect_named_kwargs(kwargs, names)
        },
        ExprKind::Slice { object, lower, upper, step } => {
            let names = collect_named_expr(&**object, names);
            let names = collect_named_opt(lower, names);
            let names = collect_named_opt(upper, names);
            collect_named_opt(step, names)
        },
        ExprKind::MultiIndex { object, args } => {
            let names = collect_named_expr(&**object, names);
            collect_named_subscripts(args, names)
        },
        ExprKind::ListLit(values) => collect_named_exprs(values, names),
        ExprKind::TupleLit(values) => collect_named_exprs(values, names),
        ExprKind::IfExpr { cond, then_branch, else_branch } => {
            let names = collect_named_expr(&**cond, names);
            let names = collect_named_expr(&**then_branch, names);
            collect_named_expr(&**else_branch, names)
        },
        ExprKind::Compare { first, rest } => {
            let names = collect_named_expr(&**first, names);
            collect_named_comparisons(rest, names)
        },
        ExprKind::TString { parts, .. } => collect_named_parts(parts, names),
        _ => {
            assert(!(e.kind@ is Named));
            assert(!(e.kind@ is Prefix));
            assert(!(e.kind@ is Transfer));
            assert(!(e.kind@ is Infix));
            assert(!(e.kind@ is Index));
            assert(!(e.kind@ is Call));
            assert(!(e.kind@ is Invoke));
            assert(!(e.kind@ is Member));
            assert(!(e.kind@ is MethodCall));
            assert(!(e.kind@ is Slice));
            assert(!(e.kind@ is MultiIndex));
            assert(!(e.kind@ is ListLit));
            assert(!(e.kind@ is TupleLit));
            assert(!(e.kind@ is IfExpr));
            assert(!(e.kind@ is Compare));
            assert(!(e.kind@ is TString));
            names
        },
    }
}

pub open spec fn named_in_exprs(
    values: Seq<ExprView>,
    i: nat,
    names: Seq<Seq<char>>,
) -> Seq<Seq<char>>
    decreases values, (values.len() - i) as nat,
{
    if i >= values.len() {
        names
    } else {
        let value = values[i as int];
        let names = named_in(value, names);
        named_in_exprs(values, i + 1, names)
    }
}

/// See [`named_in_exprs`].
pub fn collect_named_exprs(values: &Vec<Expr>, found: Vec<String>) -> (r: Vec<String>)
    ensures
        string_list_view(r@) == named_in_exprs(
            expr_list_view(values@),
            0,
            string_list_view(found@),
        ),
    decreases values@, 0nat,
{
    let mut names: Vec<String> = found;
    let ghost goal = named_in_exprs(expr_list_view(values@), 0, string_list_view(found@));
    let mut i: usize = 0;
    while i < values.len()
        invariant
            i <= values@.len(),
            expr_list_view(values@).len() == values@.len(),
            named_in_exprs(expr_list_view(values@), i as nat, string_list_view(names@)) == goal,
            goal == named_in_exprs(expr_list_view(values@), 0, string_list_view(found@)),
        decreases values@.len() - i,
    {
        let value = &values[i];
        assert(expr_list_view(values@)[i as int] == value@);
        names = collect_named_expr(value, names);
        i = i + 1;
    }
    names
}

pub open spec fn named_in_kwargs(
    kwargs: Seq<KwArgView>,
    i: nat,
    names: Seq<Seq<char>>,
) -> Seq<Seq<char>>
    decreases kwargs, (kwargs.len() - i) as nat,
{
    if i >= kwargs.len() {
        names
    } else {
        let kwarg = kwargs[i as int];
        let names = named_in(kwarg.value, names);
        named_in_kwargs(kwargs, i + 1, names)
    }
}

/// See [`named_in_kwargs`].
pub fn collect_named_kwargs(kwargs: &Vec<KwArg>, found: Vec<String>) -> (r: Vec<String>)
    ensures
        string_list_view(r@) == named_in_kwargs(
            kw_arg_list_view(kwargs@),
            0,
            string_list_view(found@),
        ),
    decreases kwargs@, 0nat,
{
    let mut names: Vec<String> = found;
    let ghost goal = named_in_kwargs(kw_arg_list_view(kwargs@), 0, string_list_view(found@));
    let mut i: usize = 0;
    while i < kwargs.len()
        invariant
            i <= kwargs@.len(),
            kw_arg_list_view(kwargs@).len() == kwargs@.len(),
            named_in_kwargs(kw_arg_list_view(kwargs@), i as nat, string_list_view(names@)) == goal,
            goal == named_in_kwargs(kw_arg_list_view(kwargs@), 0, string_list_view(found@)),
        decreases kwargs@.len() - i,
    {
        let kwarg = &kwargs[i];
        assert(kw_arg_list_view(kwargs@)[i as int] == kwarg@);
        names = collect_named_expr(&kwarg.value, names);
        i = i + 1;
    }
    names
}

pub open spec fn named_in_comparisons(
    rest: Seq<(InfixOp, ExprView)>,
    i: nat,
    names: Seq<Seq<char>>,
) -> Seq<Seq<char>>
    decreases rest, (rest.len() - i) as nat,
{
    if i >= rest.len() {
        names
    } else {
        let link = rest[i as int];
        let names = named_in(link.1, names);
        named_in_comparisons(rest, i + 1, names)
    }
}

/// See [`named_in_comparisons`].
pub fn collect_named_comparisons(
    rest: &Vec<(InfixOp, Expr)>,
    found: Vec<String>,
) -> (r: Vec<String>)
    ensures
        string_list_view(r@) == named_in_comparisons(
            comparison_list_view(rest@),
            0,
            string_list_view(found@),
        ),
    decreases rest@, 0nat,
{
    let mut names: Vec<String> = found;
    let ghost goal = named_in_comparisons(comparison_list_view(rest@), 0, string_list_view(found@));
    let mut i: usize = 0;
    while i < rest.len()
        invariant
            i <= rest@.len(),
            comparison_list_view(rest@).len() == rest@.len(),
            named_in_comparisons(
                comparison_list_view(rest@),
                i as nat,
                string_list_view(names@),
            ) == goal,
            goal == named_in_comparisons(comparison_list_view(rest@), 0, string_list_view(found@)),
        decreases rest@.len() - i,
    {
        let link = &rest[i];
        assert(comparison_list_view(rest@)[i as int].1 =~= link.1@);
        names = collect_named_expr(&link.1, names);
        i = i + 1;
    }
    names
}

pub open spec fn named_in_parts(
    parts: Seq<TStringPartView>,
    i: nat,
    names: Seq<Seq<char>>,
) -> Seq<Seq<char>>
    decreases parts, (parts.len() - i) as nat,
{
    if i >= parts.len() {
        names
    } else {
        let part = parts[i as int];
        let names = named_in_part(part, names);
        named_in_parts(parts, i + 1, names)
    }
}

/// See [`named_in_parts`].
pub fn collect_named_parts(parts: &Vec<TStringPart>, found: Vec<String>) -> (r: Vec<String>)
    ensures
        string_list_view(r@) == named_in_parts(
            t_string_part_list_view(parts@),
            0,
            string_list_view(found@),
        ),
    decreases parts@, 0nat,
{
    let mut names: Vec<String> = found;
    let ghost goal = named_in_parts(t_string_part_list_view(parts@), 0, string_list_view(found@));
    let mut i: usize = 0;
    while i < parts.len()
        invariant
            i <= parts@.len(),
            t_string_part_list_view(parts@).len() == parts@.len(),
            named_in_parts(
                t_string_part_list_view(parts@),
                i as nat,
                string_list_view(names@),
            ) == goal,
            goal == named_in_parts(t_string_part_list_view(parts@), 0, string_list_view(found@)),
        decreases parts@.len() - i,
    {
        let part = &parts[i];
        assert(t_string_part_list_view(parts@)[i as int] == part@);
        names = collect_named_part(part, names);
        i = i + 1;
    }
    names
}

pub open spec fn named_in_part(part: TStringPartView, names: Seq<Seq<char>>) -> Seq<Seq<char>>
    decreases part, 0nat,
{
    match part {
        TStringPartView::Expr(value) => named_in(*value, names),
        TStringPartView::Literal(_) => names,
    }
}

/// See [`named_in_part`].
pub fn collect_named_part(part: &TStringPart, names: Vec<String>) -> (r: Vec<String>)
    ensures
        string_list_view(r@) == named_in_part(part@, string_list_view(names@)),
    decreases part, 0nat,
{
    match part {
        TStringPart::Expr(value) => collect_named_expr(&**value, names),
        TStringPart::Literal(_) => names,
    }
}

pub open spec fn named_in_subscripts(
    args: Seq<SubscriptArgView>,
    i: nat,
    names: Seq<Seq<char>>,
) -> Seq<Seq<char>>
    decreases args, (args.len() - i) as nat,
{
    if i >= args.len() {
        names
    } else {
        let arg = args[i as int];
        let names = named_in_subscript(arg, names);
        named_in_subscripts(args, i + 1, names)
    }
}

/// See [`named_in_subscripts`].
pub fn collect_named_subscripts(
    args: &Vec<SubscriptArg>,
    found: Vec<String>,
) -> (r: Vec<String>)
    ensures
        string_list_view(r@) == named_in_subscripts(
            subscript_arg_list_view(args@),
            0,
            string_list_view(found@),
        ),
    decreases args@, 0nat,
{
    let mut names: Vec<String> = found;
    let ghost goal = named_in_subscripts(
        subscript_arg_list_view(args@),
        0,
        string_list_view(found@),
    );
    let mut i: usize = 0;
    while i < args.len()
        invariant
            i <= args@.len(),
            subscript_arg_list_view(args@).len() == args@.len(),
            named_in_subscripts(
                subscript_arg_list_view(args@),
                i as nat,
                string_list_view(names@),
            ) == goal,
            goal == named_in_subscripts(
                subscript_arg_list_view(args@),
                0,
                string_list_view(found@),
            ),
        decreases args@.len() - i,
    {
        let arg = &args[i];
        assert(subscript_arg_list_view(args@)[i as int] == arg@);
        names = collect_named_subscript(arg, names);
        i = i + 1;
    }
    names
}

pub open spec fn named_in_subscript(
    arg: SubscriptArgView,
    names: Seq<Seq<char>>,
) -> Seq<Seq<char>>
    decreases arg, 0nat,
{
    match arg {
        SubscriptArgView::Index(value) => named_in(value, names),
        SubscriptArgView::Slice { lower, upper, step } => {
            let names = named_in_opt(lower, names);
            let names = named_in_opt(upper, names);
            named_in_opt(step, names)
        },
    }
}

/// See [`named_in_subscript`].
pub fn collect_named_subscript(arg: &SubscriptArg, names: Vec<String>) -> (r: Vec<String>)
    ensures
        string_list_view(r@) == named_in_subscript(arg@, string_list_view(names@)),
    decreases arg, 0nat,
{
    match arg {
        SubscriptArg::Index(value) => collect_named_expr(value, names),
        SubscriptArg::Slice { lower, upper, step } => {
            let names = collect_named_opt(lower, names);
            let names = collect_named_opt(upper, names);
            collect_named_opt(step, names)
        },
    }
}

pub open spec fn named_in_opt(
    value: Option<Box<ExprView>>,
    names: Seq<Seq<char>>,
) -> Seq<Seq<char>>
    decreases value, 0nat,
{
    match value {
        Some(value) => named_in(*value, names),
        None => names,
    }
}

/// See [`named_in_opt`].
pub fn collect_named_opt(value: &Option<Box<Expr>>, names: Vec<String>) -> (r: Vec<String>)
    ensures
        string_list_view(r@) == named_in_opt(
            (match value { Some(v) => Some(Box::new(v@)), None => None }),
            string_list_view(names@),
        ),
    decreases value, 0nat,
{
    match value {
        Some(value) => collect_named_expr(&**value, names),
        None => names,
    }
}

/// The names a function body binds without declaring them, by assignment or by
/// `:=`, in increasing order.
pub open spec fn implicit_names(
    body: Seq<StmtView>,
    explicit: Seq<Seq<char>>,
    i: nat,
    names: Seq<Seq<char>>,
) -> Seq<Seq<char>>
    decreases body, (body.len() - i) as nat,
{
    if i >= body.len() {
        names
    } else {
        let stmt = body[i as int];
        let names = implicit_in(stmt, explicit, names);
        implicit_names(body, explicit, i + 1, names)
    }
}

/// See [`implicit_names`].
pub fn collect_function_implicit_names(
    body: &Vec<Stmt>,
    explicit: &Vec<String>,
    found: Vec<String>,
) -> (r: Vec<String>)
    ensures
        string_list_view(r@) == implicit_names(
            stmt_list_view(body@),
            string_list_view(explicit@),
            0,
            string_list_view(found@),
        ),
    decreases body@, 0nat,
{
    let mut names: Vec<String> = found;
    let ghost goal = implicit_names(
        stmt_list_view(body@),
        string_list_view(explicit@),
        0,
        string_list_view(found@),
    );
    let mut i: usize = 0;
    while i < body.len()
        invariant
            i <= body@.len(),
            stmt_list_view(body@).len() == body@.len(),
            implicit_names(
                stmt_list_view(body@),
                string_list_view(explicit@),
                i as nat,
                string_list_view(names@),
            ) == goal,
            goal == implicit_names(
                stmt_list_view(body@),
                string_list_view(explicit@),
                0,
                string_list_view(found@),
            ),
        decreases body@.len() - i,
    {
        let stmt = &body[i];
        assert(stmt_list_view(body@)[i as int] == stmt@);
        names = implicit_in_stmt(stmt, explicit, names);
        i = i + 1;
    }
    names
}

pub open spec fn implicit_in(
    stmt: StmtView,
    explicit: Seq<Seq<char>>,
    names: Seq<Seq<char>>,
) -> Seq<Seq<char>>
    decreases stmt, 0nat,
{
    match stmt.kind {
        StmtKindView::Assign { name, value } => {
            let names = if explicit.contains(name) {
                names
            } else {
                insert_name(names, name)
            };
            named_in(value, names)
        },
        StmtKindView::VarDecl { value, .. } => named_in(value, names),
        StmtKindView::RefDecl { value, .. } => named_in(value, names),
        StmtKindView::Comptime { value, .. } => named_in(value, names),
        StmtKindView::Raise(value) => named_in(value, names),
        StmtKindView::Expr(value) => named_in(value, names),
        StmtKindView::Return(Some(value)) => named_in(value, names),
        StmtKindView::If { branches, orelse } => {
            let names = implicit_by_branches(branches, explicit, 0, names);
            implicit_by_block(orelse, explicit, names)
        },
        StmtKindView::While { cond, body, orelse } => {
            let names = named_in(cond, names);
            let names = implicit_names(body, explicit, 0, names);
            implicit_by_block(orelse, explicit, names)
        },
        StmtKindView::For { iter, body, orelse, .. } => {
            let names = named_in(iter, names);
            let names = implicit_names(body, explicit, 0, names);
            implicit_by_block(orelse, explicit, names)
        },
        StmtKindView::Try { body, except, orelse, finalbody } => {
            let names = implicit_names(body, explicit, 0, names);
            let names = match except {
                Some((_, handler)) => implicit_names(handler, explicit, 0, names),
                None => names,
            };
            let names = implicit_by_block(orelse, explicit, names);
            implicit_by_block(finalbody, explicit, names)
        },
        StmtKindView::Unpack { targets, value } => {
            let names = named_in_exprs(targets, 0, names);
            named_in(value, names)
        },
        StmtKindView::SetPlace { place, value } => {
            let names = named_in(place, names);
            named_in(value, names)
        },
        StmtKindView::AugAssign { place, value, .. } => {
            let names = named_in(place, names);
            named_in(value, names)
        },
        StmtKindView::With { items, body } => {
            let names = implicit_by_items(items, 0, names);
            implicit_names(body, explicit, 0, names)
        },
        _ => names,
    }
}

/// See [`implicit_in`].
pub fn implicit_in_stmt(
    stmt: &Stmt,
    explicit: &Vec<String>,
    names: Vec<String>,
) -> (r: Vec<String>)
    ensures
        string_list_view(r@) == implicit_in(
            stmt@,
            string_list_view(explicit@),
            string_list_view(names@),
        ),
    decreases stmt, 0nat,
{
    proof { unfold_stmt_kind(stmt.kind); }
    match &stmt.kind {
        StmtKind::Assign { name, value } => {
            let names = if contains_name(explicit, name) {
                names
            } else {
                add_name(names, name.clone())
            };
            collect_named_expr(value, names)
        },
        StmtKind::VarDecl { value, .. } => collect_named_expr(value, names),
        StmtKind::RefDecl { value, .. } => collect_named_expr(value, names),
        StmtKind::Comptime { value, .. } => collect_named_expr(value, names),
        StmtKind::Raise(value) => collect_named_expr(value, names),
        StmtKind::Expr(value) => collect_named_expr(value, names),
        StmtKind::Return(Some(value)) => collect_named_expr(value, names),
        StmtKind::If { branches, orelse } => {
            let names = implicit_in_branches(branches, explicit, names);
            implicit_in_block(orelse, explicit, names)
        },
        StmtKind::While { cond, body, orelse } => {
            let names = collect_named_expr(cond, names);
            let names = collect_function_implicit_names(body, explicit, names);
            implicit_in_block(orelse, explicit, names)
        },
        StmtKind::For { iter, body, orelse, .. } => {
            let names = collect_named_expr(iter, names);
            let names = collect_function_implicit_names(body, explicit, names);
            implicit_in_block(orelse, explicit, names)
        },
        StmtKind::Try { body, except, orelse, finalbody } => {
            let names = collect_function_implicit_names(body, explicit, names);
            let names = match except {
                Some((_, handler)) => collect_function_implicit_names(handler, explicit, names),
                None => names,
            };
            let names = implicit_in_block(orelse, explicit, names);
            implicit_in_block(finalbody, explicit, names)
        },
        StmtKind::Unpack { targets, value } => {
            let names = collect_named_exprs(targets, names);
            collect_named_expr(value, names)
        },
        StmtKind::SetPlace { place, value } => {
            let names = collect_named_expr(place, names);
            collect_named_expr(value, names)
        },
        StmtKind::AugAssign { place, value, .. } => {
            let names = collect_named_expr(place, names);
            collect_named_expr(value, names)
        },
        StmtKind::With { items, body } => {
            let names = implicit_in_items(items, names);
            collect_function_implicit_names(body, explicit, names)
        },
        _ => {
            assert(!(stmt.kind@ is Assign));
            assert(!(stmt.kind@ is VarDecl));
            assert(!(stmt.kind@ is RefDecl));
            assert(!(stmt.kind@ is Comptime));
            assert(!(stmt.kind@ is Raise));
            assert(!(stmt.kind@ is Expr));
            assert(!(stmt.kind@ is If));
            assert(!(stmt.kind@ is While));
            assert(!(stmt.kind@ is For));
            assert(!(stmt.kind@ is Try));
            assert(!(stmt.kind@ is Unpack));
            assert(!(stmt.kind@ is SetPlace));
            assert(!(stmt.kind@ is AugAssign));
            assert(!(stmt.kind@ is With));
            names
        },
    }
}

pub open spec fn implicit_by_branches(
    branches: Seq<(ExprView, Seq<StmtView>)>,
    explicit: Seq<Seq<char>>,
    i: nat,
    names: Seq<Seq<char>>,
) -> Seq<Seq<char>>
    decreases branches, (branches.len() - i) as nat,
{
    if i >= branches.len() {
        names
    } else {
        let branch = branches[i as int];
        let seen = named_in(branch.0, names);
        let names = implicit_names(branch.1, explicit, 0, seen);
        implicit_by_branches(branches, explicit, i + 1, names)
    }
}

/// See [`implicit_by_branches`].
pub fn implicit_in_branches(
    branches: &Vec<(Expr, Vec<Stmt>)>,
    explicit: &Vec<String>,
    found: Vec<String>,
) -> (r: Vec<String>)
    ensures
        string_list_view(r@) == implicit_by_branches(
            branch_list_view(branches@),
            string_list_view(explicit@),
            0,
            string_list_view(found@),
        ),
    decreases branches@, 0nat,
{
    let mut names: Vec<String> = found;
    let ghost goal = implicit_by_branches(
        branch_list_view(branches@),
        string_list_view(explicit@),
        0,
        string_list_view(found@),
    );
    let mut i: usize = 0;
    while i < branches.len()
        invariant
            i <= branches@.len(),
            branch_list_view(branches@).len() == branches@.len(),
            implicit_by_branches(
                branch_list_view(branches@),
                string_list_view(explicit@),
                i as nat,
                string_list_view(names@),
            ) == goal,
            goal == implicit_by_branches(
                branch_list_view(branches@),
                string_list_view(explicit@),
                0,
                string_list_view(found@),
            ),
        decreases branches@.len() - i,
    {
        let branch = &branches[i];
        assert(branch_list_view(branches@)[i as int].0 =~= branch.0@);
        assert(branch_list_view(branches@)[i as int].1 =~= stmt_list_view(branch.1@));
        let seen = collect_named_expr(&branch.0, names);
        names = collect_function_implicit_names(&branch.1, explicit, seen);
        i = i + 1;
    }
    names
}

pub open spec fn implicit_by_block(
    block: Option<Seq<StmtView>>,
    explicit: Seq<Seq<char>>,
    names: Seq<Seq<char>>,
) -> Seq<Seq<char>>
    decreases block, 0nat,
{
    match block {
        Some(body) => implicit_names(body, explicit, 0, names),
        None => names,
    }
}

/// See [`implicit_by_block`].
pub fn implicit_in_block(
    block: &Option<Vec<Stmt>>,
    explicit: &Vec<String>,
    names: Vec<String>,
) -> (r: Vec<String>)
    ensures
        string_list_view(r@) == implicit_by_block(
            (match block { Some(v) => Some(stmt_list_view(v@)), None => None }),
            string_list_view(explicit@),
            string_list_view(names@),
        ),
    decreases block, 0nat,
{
    match block {
        Some(body) => collect_function_implicit_names(body, explicit, names),
        None => names,
    }
}

pub open spec fn implicit_by_items(
    items: Seq<WithItemView>,
    i: nat,
    names: Seq<Seq<char>>,
) -> Seq<Seq<char>>
    decreases items, (items.len() - i) as nat,
{
    if i >= items.len() {
        names
    } else {
        let item = items[i as int];
        let names = named_in(item.context, names);
        implicit_by_items(items, i + 1, names)
    }
}

/// See [`implicit_by_items`].
pub fn implicit_in_items(items: &Vec<WithItem>, found: Vec<String>) -> (r: Vec<String>)
    ensures
        string_list_view(r@) == implicit_by_items(
            with_item_list_view(items@),
            0,
            string_list_view(found@),
        ),
    decreases items@, 0nat,
{
    let mut names: Vec<String> = found;
    let ghost goal = implicit_by_items(with_item_list_view(items@), 0, string_list_view(found@));
    let mut i: usize = 0;
    while i < items.len()
        invariant
            i <= items@.len(),
            with_item_list_view(items@).len() == items@.len(),
            implicit_by_items(
                with_item_list_view(items@),
                i as nat,
                string_list_view(names@),
            ) == goal,
            goal == implicit_by_items(with_item_list_view(items@), 0, string_list_view(found@)),
        decreases items@.len() - i,
    {
        let item = &items[i];
        assert(with_item_list_view(items@)[i as int] == item@);
        names = collect_named_expr(&item.context, names);
        i = i + 1;
    }
    names
}

} // verus!
