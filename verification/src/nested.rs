//! Nested functions: which are defined in a body, and what they capture.

use crate::ast::{
    Expr, ExprKind, ExprKindView, ExprView, FnParam, FnParamView, InfixOp, KwArg, KwArgView,
    ParamArg, ParamArgView, Stmt, StmtKind, StmtKindView, StmtView, TStringPart, TStringPartView,
    branch_list_view, clone_stmt, comparison_list_view, expr_list_view, fn_param_list_view,
    kw_arg_list_view, param_arg_list_view, stmt_list_view, t_string_part_list_view,
    unfold_expr_kind, unfold_stmt_kind,
};
use crate::text::{add_name, contains_name, insert_name, opt_view, same_string, string_list_view};
use crate::values::Value;
use vstd::prelude::*;

verus! {

/// The nested functions of a body: those of the body itself and of its
/// control-flow blocks, without those of other nested functions.
pub open spec fn nested_defs(body: Seq<StmtView>, i: nat, out: Seq<StmtView>) -> Seq<StmtView>
    decreases body, (body.len() - i) as nat,
{
    if i >= body.len() {
        out
    } else {
        let stmt = body[i as int];
        let out = nested_in_stmt(stmt, out);
        nested_defs(body, i + 1, out)
    }
}

/// See [`nested_defs`].
pub fn find_nested_defs(body: &Vec<Stmt>, found: Vec<Stmt>) -> (r: Vec<Stmt>)
    ensures
        stmt_list_view(r@) == nested_defs(stmt_list_view(body@), 0, stmt_list_view(found@)),
    decreases body@, 0nat,
{
    let mut out: Vec<Stmt> = found;
    let ghost goal = nested_defs(stmt_list_view(body@), 0, stmt_list_view(found@));
    let mut i: usize = 0;
    while i < body.len()
        invariant
            i <= body@.len(),
            stmt_list_view(body@).len() == body@.len(),
            nested_defs(stmt_list_view(body@), i as nat, stmt_list_view(out@)) == goal,
            goal == nested_defs(stmt_list_view(body@), 0, stmt_list_view(found@)),
        decreases body@.len() - i,
    {
        let stmt = &body[i];
        assert(stmt_list_view(body@)[i as int] == stmt@);
        out = find_in_stmt(stmt, out);
        i = i + 1;
    }
    out
}

pub open spec fn nested_in_stmt(stmt: StmtView, out: Seq<StmtView>) -> Seq<StmtView>
    decreases stmt, 0nat,
{
    match stmt.kind {
        StmtKindView::Def { .. } => {
            let out = out.push(stmt);
            out
        },
        StmtKindView::If { branches, orelse } => {
            let out = nested_in_branches(branches, 0, out);
            nested_in_block(orelse, out)
        },
        StmtKindView::While { body, .. } => nested_defs(body, 0, out),
        StmtKindView::For { body, .. } => nested_defs(body, 0, out),
        StmtKindView::Try { body, except, orelse, finalbody } => {
            let out = nested_defs(body, 0, out);
            let out = match except {
                Some((_, handler)) => nested_defs(handler, 0, out),
                None => out,
            };
            let out = nested_in_block(orelse, out);
            nested_in_block(finalbody, out)
        },
        _ => out,
    }
}

/// See [`nested_in_stmt`].
pub fn find_in_stmt(stmt: &Stmt, out: Vec<Stmt>) -> (r: Vec<Stmt>)
    ensures
        stmt_list_view(r@) == nested_in_stmt(stmt@, stmt_list_view(out@)),
    decreases stmt, 0nat,
{
    let mut out = out;
    proof { unfold_stmt_kind(stmt.kind); }
    match &stmt.kind {
        StmtKind::Def { .. } => {
            let item = clone_stmt(stmt);
            let ghost before = stmt_list_view(out@);
            let ghost added = item@;
            out.push(item);
            assert(stmt_list_view(out@) =~= before.push(added));
            out
        },
        StmtKind::If { branches, orelse } => {
            let out = find_in_branches(branches, out);
            find_in_block(orelse, out)
        },
        StmtKind::While { body, .. } => find_nested_defs(body, out),
        StmtKind::For { body, .. } => find_nested_defs(body, out),
        StmtKind::Try { body, except, orelse, finalbody } => {
            let out = find_nested_defs(body, out);
            let out = match except {
                Some((_, handler)) => find_nested_defs(handler, out),
                None => out,
            };
            let out = find_in_block(orelse, out);
            find_in_block(finalbody, out)
        },
        _ => {
            assert(!(stmt.kind@ is Def));
            assert(!(stmt.kind@ is If));
            assert(!(stmt.kind@ is While));
            assert(!(stmt.kind@ is For));
            assert(!(stmt.kind@ is Try));
            out
        },
    }
}

pub open spec fn nested_in_branches(
    branches: Seq<(ExprView, Seq<StmtView>)>,
    i: nat,
    out: Seq<StmtView>,
) -> Seq<StmtView>
    decreases branches, (branches.len() - i) as nat,
{
    if i >= branches.len() {
        out
    } else {
        let branch = branches[i as int];
        let out = nested_defs(branch.1, 0, out);
        nested_in_branches(branches, i + 1, out)
    }
}

/// See [`nested_in_branches`].
pub fn find_in_branches(branches: &Vec<(Expr, Vec<Stmt>)>, found: Vec<Stmt>) -> (r: Vec<Stmt>)
    ensures
        stmt_list_view(r@) == nested_in_branches(
            branch_list_view(branches@),
            0,
            stmt_list_view(found@),
        ),
    decreases branches@, 0nat,
{
    let mut out: Vec<Stmt> = found;
    let ghost goal = nested_in_branches(branch_list_view(branches@), 0, stmt_list_view(found@));
    let mut i: usize = 0;
    while i < branches.len()
        invariant
            i <= branches@.len(),
            branch_list_view(branches@).len() == branches@.len(),
            nested_in_branches(branch_list_view(branches@), i as nat, stmt_list_view(out@)) == goal,
            goal == nested_in_branches(branch_list_view(branches@), 0, stmt_list_view(found@)),
        decreases branches@.len() - i,
    {
        let branch = &branches[i];
        assert(branch_list_view(branches@)[i as int].0 =~= branch.0@);
        assert(branch_list_view(branches@)[i as int].1 =~= stmt_list_view(branch.1@));
        out = find_nested_defs(&branch.1, out);
        i = i + 1;
    }
    out
}

pub open spec fn nested_in_block(
    block: Option<Seq<StmtView>>,
    out: Seq<StmtView>,
) -> Seq<StmtView>
    decreases block, 0nat,
{
    match block {
        Some(body) => nested_defs(body, 0, out),
        None => out,
    }
}

/// See [`nested_in_block`].
pub fn find_in_block(block: &Option<Vec<Stmt>>, out: Vec<Stmt>) -> (r: Vec<Stmt>)
    ensures
        stmt_list_view(r@) == nested_in_block(
            (match block { Some(v) => Some(stmt_list_view(v@)), None => None }),
            stmt_list_view(out@),
        ),
    decreases block, 0nat,
{
    match block {
        Some(body) => find_nested_defs(body, out),
        None => out,
    }
}

/// The names a body binds in the enclosing frame: variables, compile-time
/// names, loop variables, handler bindings, unpack targets and nested functions.
/// Bodies of nested functions, structs and traits are left out.
pub open spec fn bound_names(body: Seq<StmtView>, i: nat, out: Seq<Seq<char>>) -> Seq<Seq<char>>
    decreases body, (body.len() - i) as nat,
{
    if i >= body.len() {
        out
    } else {
        let stmt = body[i as int];
        let out = bound_by_stmt(stmt, out);
        bound_names(body, i + 1, out)
    }
}

/// See [`bound_names`].
pub fn binds(body: &Vec<Stmt>, found: Vec<String>) -> (r: Vec<String>)
    ensures
        string_list_view(r@) == bound_names(stmt_list_view(body@), 0, string_list_view(found@)),
    decreases body@, 0nat,
{
    let mut out: Vec<String> = found;
    let ghost goal = bound_names(stmt_list_view(body@), 0, string_list_view(found@));
    let mut i: usize = 0;
    while i < body.len()
        invariant
            i <= body@.len(),
            stmt_list_view(body@).len() == body@.len(),
            bound_names(stmt_list_view(body@), i as nat, string_list_view(out@)) == goal,
            goal == bound_names(stmt_list_view(body@), 0, string_list_view(found@)),
        decreases body@.len() - i,
    {
        let stmt = &body[i];
        assert(stmt_list_view(body@)[i as int] == stmt@);
        out = binds_stmt(stmt, out);
        i = i + 1;
    }
    out
}

pub open spec fn bound_by_stmt(stmt: StmtView, out: Seq<Seq<char>>) -> Seq<Seq<char>>
    decreases stmt, 0nat,
{
    match stmt.kind {
        StmtKindView::VarDecl { name, .. } => {
            let out = out.push(name);
            out
        },
        StmtKindView::Comptime { name, .. } => {
            let out = out.push(name);
            out
        },
        StmtKindView::Def { name, .. } => {
            let out = out.push(name);
            out
        },
        StmtKindView::For { var, body, .. } => {
            let out = out.push(var);
            bound_names(body, 0, out)
        },
        StmtKindView::If { branches, orelse } => {
            let out = bound_by_branches(branches, 0, out);
            bound_by_block(orelse, out)
        },
        StmtKindView::While { body, .. } => bound_names(body, 0, out),
        StmtKindView::Try { body, except, orelse, finalbody } => {
            let out = bound_names(body, 0, out);
            let out = match except {
                Some((name, handler)) => {
                    let out = with_opt_name(name, out);
                    bound_names(handler, 0, out)
                },
                None => out,
            };
            let out = bound_by_block(orelse, out);
            bound_by_block(finalbody, out)
        },
        StmtKindView::Unpack { targets, .. } => bound_by_targets(targets, 0, out),
        _ => out,
    }
}

/// See [`bound_by_stmt`].
pub fn binds_stmt(stmt: &Stmt, out: Vec<String>) -> (r: Vec<String>)
    ensures
        string_list_view(r@) == bound_by_stmt(stmt@, string_list_view(out@)),
    decreases stmt, 0nat,
{
    let mut out = out;
    proof { unfold_stmt_kind(stmt.kind); }
    match &stmt.kind {
        StmtKind::VarDecl { name, .. } => {
            let item = name.clone();
            let ghost before = string_list_view(out@);
            let ghost added = item@;
            out.push(item);
            assert(string_list_view(out@) =~= before.push(added));
            out
        },
        StmtKind::Comptime { name, .. } => {
            let item2 = name.clone();
            let ghost before2 = string_list_view(out@);
            let ghost added2 = item2@;
            out.push(item2);
            assert(string_list_view(out@) =~= before2.push(added2));
            out
        },
        StmtKind::Def { name, .. } => {
            let item3 = name.clone();
            let ghost before3 = string_list_view(out@);
            let ghost added3 = item3@;
            out.push(item3);
            assert(string_list_view(out@) =~= before3.push(added3));
            out
        },
        StmtKind::For { var, body, .. } => {
            let item4 = var.clone();
            let ghost before4 = string_list_view(out@);
            let ghost added4 = item4@;
            out.push(item4);
            assert(string_list_view(out@) =~= before4.push(added4));
            binds(body, out)
        },
        StmtKind::If { branches, orelse } => {
            let out = binds_branches(branches, out);
            binds_block(orelse, out)
        },
        StmtKind::While { body, .. } => binds(body, out),
        StmtKind::Try { body, except, orelse, finalbody } => {
            let out = binds(body, out);
            let out = match except {
                Some((name, handler)) => {
                    let out = push_opt_name(name, out);
                    binds(handler, out)
                },
                None => out,
            };
            let out = binds_block(orelse, out);
            binds_block(finalbody, out)
        },
        StmtKind::Unpack { targets, .. } => binds_targets(targets, out),
        _ => {
            assert(!(stmt.kind@ is VarDecl));
            assert(!(stmt.kind@ is Comptime));
            assert(!(stmt.kind@ is Def));
            assert(!(stmt.kind@ is For));
            assert(!(stmt.kind@ is If));
            assert(!(stmt.kind@ is While));
            assert(!(stmt.kind@ is Try));
            assert(!(stmt.kind@ is Unpack));
            out
        },
    }
}

#[verifier::opaque]
pub open spec fn with_opt_name(name: Option<Seq<char>>, out: Seq<Seq<char>>) -> Seq<Seq<char>> {
    match name {
        Some(name) => {
            let out = out.push(name);
            out
        },
        None => out,
    }
}

/// See [`with_opt_name`].
pub fn push_opt_name(name: &Option<String>, out: Vec<String>) -> (r: Vec<String>)
    ensures
        string_list_view(r@) == with_opt_name(opt_view(*name), string_list_view(out@)),
{
    proof { reveal(with_opt_name); }
    let mut out = out;
    match name {
        Some(name) => {
            let item = name.clone();
            let ghost before = string_list_view(out@);
            let ghost added = item@;
            out.push(item);
            assert(string_list_view(out@) =~= before.push(added));
            out
        },
        None => out,
    }
}

pub open spec fn bound_by_branches(
    branches: Seq<(ExprView, Seq<StmtView>)>,
    i: nat,
    out: Seq<Seq<char>>,
) -> Seq<Seq<char>>
    decreases branches, (branches.len() - i) as nat,
{
    if i >= branches.len() {
        out
    } else {
        let branch = branches[i as int];
        let out = bound_names(branch.1, 0, out);
        bound_by_branches(branches, i + 1, out)
    }
}

/// See [`bound_by_branches`].
pub fn binds_branches(branches: &Vec<(Expr, Vec<Stmt>)>, found: Vec<String>) -> (r: Vec<String>)
    ensures
        string_list_view(r@) == bound_by_branches(
            branch_list_view(branches@),
            0,
            string_list_view(found@),
        ),
    decreases branches@, 0nat,
{
    let mut out: Vec<String> = found;
    let ghost goal = bound_by_branches(branch_list_view(branches@), 0, string_list_view(found@));
    let mut i: usize = 0;
    while i < branches.len()
        invariant
            i <= branches@.len(),
            branch_list_view(branches@).len() == branches@.len(),
            bound_by_branches(
                branch_list_view(branches@),
                i as nat,
                string_list_view(out@),
            ) == goal,
            goal == bound_by_branches(branch_list_view(branches@), 0, string_list_view(found@)),
        decreases branches@.len() - i,
    {
        let branch = &branches[i];
        assert(branch_list_view(branches@)[i as int].0 =~= branch.0@);
        assert(branch_list_view(branches@)[i as int].1 =~= stmt_list_view(branch.1@));
        out = binds(&branch.1, out);
        i = i + 1;
    }
    out
}

pub open spec fn bound_by_block(
    block: Option<Seq<StmtView>>,
    out: Seq<Seq<char>>,
) -> Seq<Seq<char>>
    decreases block, 0nat,
{
    match block {
        Some(body) => bound_names(body, 0, out),
        None => out,
    }
}

/// See [`bound_by_block`].
pub fn binds_block(block: &Option<Vec<Stmt>>, out: Vec<String>) -> (r: Vec<String>)
    ensures
        string_list_view(r@) == bound_by_block(
            (match block { Some(v) => Some(stmt_list_view(v@)), None => None }),
            string_list_view(out@),
        ),
    decreases block, 0nat,
{
    match block {
        Some(body) => binds(body, out),
        None => out,
    }
}

pub open spec fn bound_by_targets(
    targets: Seq<ExprView>,
    i: nat,
    out: Seq<Seq<char>>,
) -> Seq<Seq<char>>
    decreases targets, (targets.len() - i) as nat,
{
    if i >= targets.len() {
        out
    } else {
        let target = targets[i as int];
        let out = bound_by_target(target, out);
        bound_by_targets(targets, i + 1, out)
    }
}

/// See [`bound_by_targets`].
pub fn binds_targets(targets: &Vec<Expr>, found: Vec<String>) -> (r: Vec<String>)
    ensures
        string_list_view(r@) == bound_by_targets(
            expr_list_view(targets@),
            0,
            string_list_view(found@),
        ),
    decreases targets@, 0nat,
{
    let mut out: Vec<String> = found;
    let ghost goal = bound_by_targets(expr_list_view(targets@), 0, string_list_view(found@));
    let mut i: usize = 0;
    while i < targets.len()
        invariant
            i <= targets@.len(),
            expr_list_view(targets@).len() == targets@.len(),
            bound_by_targets(expr_list_view(targets@), i as nat, string_list_view(out@)) == goal,
            goal == bound_by_targets(expr_list_view(targets@), 0, string_list_view(found@)),
        decreases targets@.len() - i,
    {
        let target = &targets[i];
        assert(expr_list_view(targets@)[i as int] == target@);
        out = binds_target(target, out);
        i = i + 1;
    }
    out
}

#[verifier::opaque]
pub open spec fn bound_by_target(target: ExprView, out: Seq<Seq<char>>) -> Seq<Seq<char>> {
    match target.kind {
        ExprKindView::Identifier(name) => {
            let out = out.push(name);
            out
        },
        _ => out,
    }
}

/// See [`bound_by_target`].
pub fn binds_target(target: &Expr, out: Vec<String>) -> (r: Vec<String>)
    ensures
        string_list_view(r@) == bound_by_target(target@, string_list_view(out@)),
{
    proof { reveal(bound_by_target); }
    let mut out = out;
    proof { unfold_expr_kind(target.kind); }
    match &target.kind {
        ExprKind::Identifier(name) => {
            let item = name.clone();
            let ghost before = string_list_view(out@);
            let ghost added = item@;
            out.push(item);
            assert(string_list_view(out@) =~= before.push(added));
            out
        },
        _ => {
            assert(!(target.kind@ is Identifier));
            out
        },
    }
}

/// The names an expression refers to: variables, callees, receivers, indices.
pub open spec fn referred(e: ExprView, out: Seq<Seq<char>>) -> Seq<Seq<char>>
    decreases e, 0nat,
{
    match e.kind {
        ExprKindView::Identifier(name) => {
            let out = out.push(name);
            out
        },
        ExprKindView::Prefix(_, value) => referred(*value, out),
        ExprKindView::Transfer(value) => referred(*value, out),
        ExprKindView::Infix(_, left, right) => {
            let out = referred(*left, out);
            referred(*right, out)
        },
        ExprKindView::Call { name, param_args, args, kwargs } => {
            let out = out.push(name);
            let out = referred_by_param_args(param_args, 0, out);
            let out = referred_by_exprs(args, 0, out);
            referred_by_kwargs(kwargs, 0, out)
        },
        ExprKindView::Member { object, .. } => referred(*object, out),
        ExprKindView::MethodCall { object, args, kwargs, .. } => {
            let out = referred(*object, out);
            let out = referred_by_exprs(args, 0, out);
            referred_by_kwargs(kwargs, 0, out)
        },
        ExprKindView::Index { object, index } => {
            let out = referred(*object, out);
            referred(*index, out)
        },
        ExprKindView::ListLit(values) => referred_by_exprs(values, 0, out),
        ExprKindView::TupleLit(values) => referred_by_exprs(values, 0, out),
        ExprKindView::Named { value, .. } => referred(*value, out),
        ExprKindView::IfExpr { cond, then_branch, else_branch } => {
            let out = referred(*cond, out);
            let out = referred(*then_branch, out);
            referred(*else_branch, out)
        },
        ExprKindView::Compare { first, rest } => {
            let out = referred(*first, out);
            referred_by_comparisons(rest, 0, out)
        },
        ExprKindView::Slice { object, lower, upper, step } => {
            let out = referred(*object, out);
            let out = referred_by_opt(lower, out);
            let out = referred_by_opt(upper, out);
            referred_by_opt(step, out)
        },
        ExprKindView::TString { parts, .. } => referred_by_parts(parts, 0, out),
        _ => out,
    }
}

/// See [`referred`].
pub fn refs_expr(e: &Expr, out: Vec<String>) -> (r: Vec<String>)
    ensures
        string_list_view(r@) == referred(e@, string_list_view(out@)),
    decreases e, 0nat,
{
    let mut out = out;
    proof { unfold_expr_kind(e.kind); }
    match &e.kind {
        ExprKind::Identifier(name) => {
            let item = name.clone();
            let ghost before = string_list_view(out@);
            let ghost added = item@;
            out.push(item);
            assert(string_list_view(out@) =~= before.push(added));
            out
        },
        ExprKind::Prefix(_, value) => refs_expr(&**value, out),
        ExprKind::Transfer(value) => refs_expr(&**value, out),
        ExprKind::Infix(_, left, right) => {
            let out = refs_expr(&**left, out);
            refs_expr(&**right, out)
        },
        ExprKind::Call { name, param_args, args, kwargs } => {
            let item2 = name.clone();
            let ghost before2 = string_list_view(out@);
            let ghost added2 = item2@;
            out.push(item2);
            assert(string_list_view(out@) =~= before2.push(added2));
            let out = refs_param_args(param_args, out);
            let out = refs_exprs(args, out);
            refs_kwargs(kwargs, out)
        },
        ExprKind::Member { object, .. } => refs_expr(&**object, out),
        ExprKind::MethodCall { object, args, kwargs, .. } => {
            let out = refs_expr(&**object, out);
            let out = refs_exprs(args, out);
            refs_kwargs(kwargs, out)
        },
        ExprKind::Index { object, index } => {
            let out = refs_expr(&**object, out);
            refs_expr(&**index, out)
        },
        ExprKind::ListLit(values) => refs_exprs(values, out),
        ExprKind::TupleLit(values) => refs_exprs(values, out),
        ExprKind::Named { value, .. } => refs_expr(&**value, out),
        ExprKind::IfExpr { cond, then_branch, else_branch } => {
            let out = refs_expr(&**cond, out);
            let out = refs_expr(&**then_branch, out);
            refs_expr(&**else_branch, out)
        },
        ExprKind::Compare { first, rest } => {
            let out = refs_expr(&**first, out);
            refs_comparisons(rest, out)
        },
        ExprKind::Slice { object, lower, upper, step } => {
            let out = refs_expr(&**object, out);
            let out = refs_opt(lower, out);
            let out = refs_opt(upper, out);
            refs_opt(step, out)
        },
        ExprKind::TString { parts, .. } => refs_parts(parts, out),
        _ => {
            assert(!(e.kind@ is Identifier));
            assert(!(e.kind@ is Prefix));
            assert(!(e.kind@ is Transfer));
            assert(!(e.kind@ is Infix));
            assert(!(e.kind@ is Call));
            assert(!(e.kind@ is Member));
            assert(!(e.kind@ is MethodCall));
            assert(!(e.kind@ is Index));
            assert(!(e.kind@ is ListLit));
            assert(!(e.kind@ is TupleLit));
            assert(!(e.kind@ is Named));
            assert(!(e.kind@ is IfExpr));
            assert(!(e.kind@ is Compare));
            assert(!(e.kind@ is Slice));
            assert(!(e.kind@ is TString));
            out
        },
    }
}

pub open spec fn referred_by_exprs(
    values: Seq<ExprView>,
    i: nat,
    out: Seq<Seq<char>>,
) -> Seq<Seq<char>>
    decreases values, (values.len() - i) as nat,
{
    if i >= values.len() {
        out
    } else {
        let value = values[i as int];
        let out = referred(value, out);
        referred_by_exprs(values, i + 1, out)
    }
}

/// See [`referred_by_exprs`].
pub fn refs_exprs(values: &Vec<Expr>, found: Vec<String>) -> (r: Vec<String>)
    ensures
        string_list_view(r@) == referred_by_exprs(
            expr_list_view(values@),
            0,
            string_list_view(found@),
        ),
    decreases values@, 0nat,
{
    let mut out: Vec<String> = found;
    let ghost goal = referred_by_exprs(expr_list_view(values@), 0, string_list_view(found@));
    let mut i: usize = 0;
    while i < values.len()
        invariant
            i <= values@.len(),
            expr_list_view(values@).len() == values@.len(),
            referred_by_exprs(expr_list_view(values@), i as nat, string_list_view(out@)) == goal,
            goal == referred_by_exprs(expr_list_view(values@), 0, string_list_view(found@)),
        decreases values@.len() - i,
    {
        let value = &values[i];
        assert(expr_list_view(values@)[i as int] == value@);
        out = refs_expr(value, out);
        i = i + 1;
    }
    out
}

pub open spec fn referred_by_kwargs(
    kwargs: Seq<KwArgView>,
    i: nat,
    out: Seq<Seq<char>>,
) -> Seq<Seq<char>>
    decreases kwargs, (kwargs.len() - i) as nat,
{
    if i >= kwargs.len() {
        out
    } else {
        let kwarg = kwargs[i as int];
        let out = referred(kwarg.value, out);
        referred_by_kwargs(kwargs, i + 1, out)
    }
}

/// See [`referred_by_kwargs`].
pub fn refs_kwargs(kwargs: &Vec<KwArg>, found: Vec<String>) -> (r: Vec<String>)
    ensures
        string_list_view(r@) == referred_by_kwargs(
            kw_arg_list_view(kwargs@),
            0,
            string_list_view(found@),
        ),
    decreases kwargs@, 0nat,
{
    let mut out: Vec<String> = found;
    let ghost goal = referred_by_kwargs(kw_arg_list_view(kwargs@), 0, string_list_view(found@));
    let mut i: usize = 0;
    while i < kwargs.len()
        invariant
            i <= kwargs@.len(),
            kw_arg_list_view(kwargs@).len() == kwargs@.len(),
            referred_by_kwargs(kw_arg_list_view(kwargs@), i as nat, string_list_view(out@)) == goal,
            goal == referred_by_kwargs(kw_arg_list_view(kwargs@), 0, string_list_view(found@)),
        decreases kwargs@.len() - i,
    {
        let kwarg = &kwargs[i];
        assert(kw_arg_list_view(kwargs@)[i as int] == kwarg@);
        out = refs_expr(&kwarg.value, out);
        i = i + 1;
    }
    out
}

pub open spec fn referred_by_comparisons(
    rest: Seq<(InfixOp, ExprView)>,
    i: nat,
    out: Seq<Seq<char>>,
) -> Seq<Seq<char>>
    decreases rest, (rest.len() - i) as nat,
{
    if i >= rest.len() {
        out
    } else {
        let link = rest[i as int];
        let out = referred(link.1, out);
        referred_by_comparisons(rest, i + 1, out)
    }
}

/// See [`referred_by_comparisons`].
pub fn refs_comparisons(rest: &Vec<(InfixOp, Expr)>, found: Vec<String>) -> (r: Vec<String>)
    ensures
        string_list_view(r@) == referred_by_comparisons(
            comparison_list_view(rest@),
            0,
            string_list_view(found@),
        ),
    decreases rest@, 0nat,
{
    let mut out: Vec<String> = found;
    let ghost goal = referred_by_comparisons(
        comparison_list_view(rest@),
        0,
        string_list_view(found@),
    );
    let mut i: usize = 0;
    while i < rest.len()
        invariant
            i <= rest@.len(),
            comparison_list_view(rest@).len() == rest@.len(),
            referred_by_comparisons(
                comparison_list_view(rest@),
                i as nat,
                string_list_view(out@),
            ) == goal,
            goal == referred_by_comparisons(
                comparison_list_view(rest@),
                0,
                string_list_view(found@),
            ),
        decreases rest@.len() - i,
    {
        let link = &rest[i];
        assert(comparison_list_view(rest@)[i as int].1 =~= link.1@);
        out = refs_expr(&link.1, out);
        i = i + 1;
    }
    out
}

pub open spec fn referred_by_param_args(
    args: Seq<ParamArgView>,
    i: nat,
    out: Seq<Seq<char>>,
) -> Seq<Seq<char>>
    decreases args, (args.len() - i) as nat,
{
    if i >= args.len() {
        out
    } else {
        let arg = args[i as int];
        let out = referred_by_param_arg(arg, out);
        referred_by_param_args(args, i + 1, out)
    }
}

/// See [`referred_by_param_args`].
pub fn refs_param_args(args: &Vec<ParamArg>, found: Vec<String>) -> (r: Vec<String>)
    ensures
        string_list_view(r@) == referred_by_param_args(
            param_arg_list_view(args@),
            0,
            string_list_view(found@),
        ),
    decreases args@, 0nat,
{
    let mut out: Vec<String> = found;
    let ghost goal = referred_by_param_args(
        param_arg_list_view(args@),
        0,
        string_list_view(found@),
    );
    let mut i: usize = 0;
    while i < args.len()
        invariant
            i <= args@.len(),
            param_arg_list_view(args@).len() == args@.len(),
            referred_by_param_args(
                param_arg_list_view(args@),
                i as nat,
                string_list_view(out@),
            ) == goal,
            goal == referred_by_param_args(param_arg_list_view(args@), 0, string_list_view(found@)),
        decreases args@.len() - i,
    {
        let arg = &args[i];
        assert(param_arg_list_view(args@)[i as int] == arg@);
        out = refs_param_arg(arg, out);
        i = i + 1;
    }
    out
}

pub open spec fn referred_by_param_arg(arg: ParamArgView, out: Seq<Seq<char>>) -> Seq<Seq<char>>
    decreases arg, 0nat,
{
    match arg {
        ParamArgView::Value(value) => referred(value, out),
        _ => out,
    }
}

/// See [`referred_by_param_arg`].
pub fn refs_param_arg(arg: &ParamArg, out: Vec<String>) -> (r: Vec<String>)
    ensures
        string_list_view(r@) == referred_by_param_arg(arg@, string_list_view(out@)),
    decreases arg, 0nat,
{
    match arg {
        ParamArg::Value(value) => refs_expr(value, out),
        _ => {
            assert(!(arg@ is Value));
            out
        },
    }
}

pub open spec fn referred_by_parts(
    parts: Seq<TStringPartView>,
    i: nat,
    out: Seq<Seq<char>>,
) -> Seq<Seq<char>>
    decreases parts, (parts.len() - i) as nat,
{
    if i >= parts.len() {
        out
    } else {
        let part = parts[i as int];
        let out = referred_by_part(part, out);
        referred_by_parts(parts, i + 1, out)
    }
}

/// See [`referred_by_parts`].
pub fn refs_parts(parts: &Vec<TStringPart>, found: Vec<String>) -> (r: Vec<String>)
    ensures
        string_list_view(r@) == referred_by_parts(
            t_string_part_list_view(parts@),
            0,
            string_list_view(found@),
        ),
    decreases parts@, 0nat,
{
    let mut out: Vec<String> = found;
    let ghost goal = referred_by_parts(
        t_string_part_list_view(parts@),
        0,
        string_list_view(found@),
    );
    let mut i: usize = 0;
    while i < parts.len()
        invariant
            i <= parts@.len(),
            t_string_part_list_view(parts@).len() == parts@.len(),
            referred_by_parts(
                t_string_part_list_view(parts@),
                i as nat,
                string_list_view(out@),
            ) == goal,
            goal == referred_by_parts(t_string_part_list_view(parts@), 0, string_list_view(found@)),
        decreases parts@.len() - i,
    {
        let part = &parts[i];
        assert(t_string_part_list_view(parts@)[i as int] == part@);
        out = refs_part(part, out);
        i = i + 1;
    }
    out
}

pub open spec fn referred_by_part(part: TStringPartView, out: Seq<Seq<char>>) -> Seq<Seq<char>>
    decreases part, 0nat,
{
    match part {
        TStringPartView::Expr(value) => referred(*value, out),
        TStringPartView::Literal(_) => out,
    }
}

/// See [`referred_by_part`].
pub fn refs_part(part: &TStringPart, out: Vec<String>) -> (r: Vec<String>)
    ensures
        string_list_view(r@) == referred_by_part(part@, string_list_view(out@)),
    decreases part, 0nat,
{
    match part {
        TStringPart::Expr(value) => refs_expr(&**value, out),
        TStringPart::Literal(_) => out,
    }
}

pub open spec fn referred_by_opt(
    value: Option<Box<ExprView>>,
    out: Seq<Seq<char>>,
) -> Seq<Seq<char>>
    decreases value, 0nat,
{
    match value {
        Some(value) => referred(*value, out),
        None => out,
    }
}

/// See [`referred_by_opt`].
pub fn refs_opt(value: &Option<Box<Expr>>, out: Vec<String>) -> (r: Vec<String>)
    ensures
        string_list_view(r@) == referred_by_opt(
            (match value { Some(v) => Some(Box::new(v@)), None => None }),
            string_list_view(out@),
        ),
    decreases value, 0nat,
{
    match value {
        Some(value) => refs_expr(&**value, out),
        None => out,
    }
}

/// The names a body refers to, and whether it holds no nested function, struct
/// or trait. What such a declaration refers to is left out.
pub open spec fn referred_by_stmts(
    body: Seq<StmtView>,
    i: nat,
    out: Seq<Seq<char>>,
    ok: bool,
) -> (Seq<Seq<char>>, bool)
    decreases body, (body.len() - i) as nat,
{
    if i >= body.len() {
        (out, ok)
    } else {
        let stmt = body[i as int];
        let (more, plain) = referred_by_stmt(stmt, out, ok);
        let out = more;
        let ok = plain;
        referred_by_stmts(body, i + 1, out, ok)
    }
}

/// See [`referred_by_stmts`].
pub fn refs_stmts(body: &Vec<Stmt>, found: Vec<String>, flat: bool) -> (r: (Vec<String>, bool))
    ensures
        (string_list_view(r.0@), r.1) == referred_by_stmts(
            stmt_list_view(body@),
            0,
            string_list_view(found@),
            flat,
        ),
    decreases body@, 0nat,
{
    let mut out: Vec<String> = found;
    let mut ok: bool = flat;
    let ghost goal = referred_by_stmts(stmt_list_view(body@), 0, string_list_view(found@), flat);
    let mut i: usize = 0;
    while i < body.len()
        invariant
            i <= body@.len(),
            stmt_list_view(body@).len() == body@.len(),
            referred_by_stmts(stmt_list_view(body@), i as nat, string_list_view(out@), ok) == goal,
            goal == referred_by_stmts(stmt_list_view(body@), 0, string_list_view(found@), flat),
        decreases body@.len() - i,
    {
        let stmt = &body[i];
        assert(stmt_list_view(body@)[i as int] == stmt@);
        let (more, plain) = refs_stmt(stmt, out, ok);
        out = more;
        ok = plain;
        i = i + 1;
    }
    (out, ok)
}

pub open spec fn referred_by_stmt(
    stmt: StmtView,
    out: Seq<Seq<char>>,
    ok: bool,
) -> (Seq<Seq<char>>, bool)
    decreases stmt, 0nat,
{
    match stmt.kind {
        StmtKindView::Def { .. } => (out, false),
        StmtKindView::Struct { .. } => (out, false),
        StmtKindView::Trait { .. } => (out, false),
        StmtKindView::VarDecl { value, .. } => (referred(value, out), ok),
        StmtKindView::Comptime { value, .. } => (referred(value, out), ok),
        StmtKindView::Assign { name, value } => {
            let out = out.push(name);
            (referred(value, out), ok)
        },
        StmtKindView::AugAssign { place, value, .. } => {
            let out = referred(place, out);
            (referred(value, out), ok)
        },
        StmtKindView::SetPlace { place, value } => {
            let out = referred(place, out);
            (referred(value, out), ok)
        },
        StmtKindView::If { branches, orelse } => {
            let (out, ok) = referred_by_branches(branches, 0, out, ok);
            referred_by_block(orelse, out, ok)
        },
        StmtKindView::While { cond, body, .. } => {
            let out = referred(cond, out);
            referred_by_stmts(body, 0, out, ok)
        },
        StmtKindView::For { iter, body, .. } => {
            let out = referred(iter, out);
            referred_by_stmts(body, 0, out, ok)
        },
        StmtKindView::Return(Some(value)) => (referred(value, out), ok),
        StmtKindView::Raise(value) => (referred(value, out), ok),
        StmtKindView::Expr(value) => (referred(value, out), ok),
        StmtKindView::Try { body, except, orelse, finalbody } => {
            let (out, ok) = referred_by_stmts(body, 0, out, ok);
            let (out, ok) = match except {
                Some((_, handler)) => referred_by_stmts(handler, 0, out, ok),
                None => (out, ok),
            };
            let (out, ok) = referred_by_block(orelse, out, ok);
            referred_by_block(finalbody, out, ok)
        },
        StmtKindView::Unpack { targets, value } => {
            let out = referred_by_exprs(targets, 0, out);
            (referred(value, out), ok)
        },
        _ => (out, ok),
    }
}

/// See [`referred_by_stmt`].
pub fn refs_stmt(stmt: &Stmt, out: Vec<String>, ok: bool) -> (r: (Vec<String>, bool))
    ensures
        (string_list_view(r.0@), r.1) == referred_by_stmt(stmt@, string_list_view(out@), ok),
    decreases stmt, 0nat,
{
    let mut out = out;
    proof { unfold_stmt_kind(stmt.kind); }
    match &stmt.kind {
        StmtKind::Def { .. } => (out, false),
        StmtKind::Struct { .. } => (out, false),
        StmtKind::Trait { .. } => (out, false),
        StmtKind::VarDecl { value, .. } => (refs_expr(value, out), ok),
        StmtKind::Comptime { value, .. } => (refs_expr(value, out), ok),
        StmtKind::Assign { name, value } => {
            let item = name.clone();
            let ghost before = string_list_view(out@);
            let ghost added = item@;
            out.push(item);
            assert(string_list_view(out@) =~= before.push(added));
            (refs_expr(value, out), ok)
        },
        StmtKind::AugAssign { place, value, .. } => {
            let out = refs_expr(place, out);
            (refs_expr(value, out), ok)
        },
        StmtKind::SetPlace { place, value } => {
            let out = refs_expr(place, out);
            (refs_expr(value, out), ok)
        },
        StmtKind::If { branches, orelse } => {
            let (out, ok) = refs_branches(branches, out, ok);
            refs_block(orelse, out, ok)
        },
        StmtKind::While { cond, body, .. } => {
            let out = refs_expr(cond, out);
            refs_stmts(body, out, ok)
        },
        StmtKind::For { iter, body, .. } => {
            let out = refs_expr(iter, out);
            refs_stmts(body, out, ok)
        },
        StmtKind::Return(Some(value)) => (refs_expr(value, out), ok),
        StmtKind::Raise(value) => (refs_expr(value, out), ok),
        StmtKind::Expr(value) => (refs_expr(value, out), ok),
        StmtKind::Try { body, except, orelse, finalbody } => {
            let (out, ok) = refs_stmts(body, out, ok);
            let (out, ok) = match except {
                Some((_, handler)) => refs_stmts(handler, out, ok),
                None => (out, ok),
            };
            let (out, ok) = refs_block(orelse, out, ok);
            refs_block(finalbody, out, ok)
        },
        StmtKind::Unpack { targets, value } => {
            let out = refs_exprs(targets, out);
            (refs_expr(value, out), ok)
        },
        _ => {
            assert(!(stmt.kind@ is Def));
            assert(!(stmt.kind@ is Struct));
            assert(!(stmt.kind@ is Trait));
            assert(!(stmt.kind@ is VarDecl));
            assert(!(stmt.kind@ is Comptime));
            assert(!(stmt.kind@ is Assign));
            assert(!(stmt.kind@ is AugAssign));
            assert(!(stmt.kind@ is SetPlace));
            assert(!(stmt.kind@ is If));
            assert(!(stmt.kind@ is While));
            assert(!(stmt.kind@ is For));
            assert(!(stmt.kind@ is Raise));
            assert(!(stmt.kind@ is Expr));
            assert(!(stmt.kind@ is Try));
            assert(!(stmt.kind@ is Unpack));
            (out, ok)
        },
    }
}

pub open spec fn referred_by_branches(
    branches: Seq<(ExprView, Seq<StmtView>)>,
    i: nat,
    out: Seq<Seq<char>>,
    ok: bool,
) -> (Seq<Seq<char>>, bool)
    decreases branches, (branches.len() - i) as nat,
{
    if i >= branches.len() {
        (out, ok)
    } else {
        let branch = branches[i as int];
        let seen = referred(branch.0, out);
        let (more, plain) = referred_by_stmts(branch.1, 0, seen, ok);
        let out = more;
        let ok = plain;
        referred_by_branches(branches, i + 1, out, ok)
    }
}

/// See [`referred_by_branches`].
pub fn refs_branches(
    branches: &Vec<(Expr, Vec<Stmt>)>,
    found: Vec<String>,
    flat: bool,
) -> (r: (Vec<String>, bool))
    ensures
        (string_list_view(r.0@), r.1) == referred_by_branches(
            branch_list_view(branches@),
            0,
            string_list_view(found@),
            flat,
        ),
    decreases branches@, 0nat,
{
    let mut out: Vec<String> = found;
    let mut ok: bool = flat;
    let ghost goal = referred_by_branches(
        branch_list_view(branches@),
        0,
        string_list_view(found@),
        flat,
    );
    let mut i: usize = 0;
    while i < branches.len()
        invariant
            i <= branches@.len(),
            branch_list_view(branches@).len() == branches@.len(),
            referred_by_branches(
                branch_list_view(branches@),
                i as nat,
                string_list_view(out@),
                ok,
            ) == goal,
            goal == referred_by_branches(
                branch_list_view(branches@),
                0,
                string_list_view(found@),
                flat,
            ),
        decreases branches@.len() - i,
    {
        let branch = &branches[i];
        assert(branch_list_view(branches@)[i as int].0 =~= branch.0@);
        assert(branch_list_view(branches@)[i as int].1 =~= stmt_list_view(branch.1@));
        let seen = refs_expr(&branch.0, out);
        let (more, plain) = refs_stmts(&branch.1, seen, ok);
        out = more;
        ok = plain;
        i = i + 1;
    }
    (out, ok)
}

pub open spec fn referred_by_block(
    block: Option<Seq<StmtView>>,
    out: Seq<Seq<char>>,
    ok: bool,
) -> (Seq<Seq<char>>, bool)
    decreases block, 0nat,
{
    match block {
        Some(body) => referred_by_stmts(body, 0, out, ok),
        None => (out, ok),
    }
}

/// See [`referred_by_block`].
pub fn refs_block(
    block: &Option<Vec<Stmt>>,
    out: Vec<String>,
    ok: bool,
) -> (r: (Vec<String>, bool))
    ensures
        (string_list_view(r.0@), r.1) == referred_by_block(
            (match block { Some(v) => Some(stmt_list_view(v@)), None => None }),
            string_list_view(out@),
            ok,
        ),
    decreases block, 0nat,
{
    match block {
        Some(body) => refs_stmts(body, out, ok),
        None => (out, ok),
    }
}

/// The names of parameters.
pub open spec fn names_of_params(
    params: Seq<FnParamView>,
    i: nat,
    out: Seq<Seq<char>>,
) -> Seq<Seq<char>>
    decreases params, (params.len() - i) as nat,
{
    if i >= params.len() {
        out
    } else {
        let param = params[i as int];
        let out = out.push(param.name);
        names_of_params(params, i + 1, out)
    }
}

/// See [`names_of_params`].
pub fn param_names(params: &Vec<FnParam>, found: Vec<String>) -> (r: Vec<String>)
    ensures
        string_list_view(r@) == names_of_params(
            fn_param_list_view(params@),
            0,
            string_list_view(found@),
        ),
    decreases params@, 0nat,
{
    let mut out: Vec<String> = found;
    let ghost goal = names_of_params(fn_param_list_view(params@), 0, string_list_view(found@));
    let mut i: usize = 0;
    while i < params.len()
        invariant
            i <= params@.len(),
            fn_param_list_view(params@).len() == params@.len(),
            names_of_params(fn_param_list_view(params@), i as nat, string_list_view(out@)) == goal,
            goal == names_of_params(fn_param_list_view(params@), 0, string_list_view(found@)),
        decreases params@.len() - i,
    {
        let param = &params[i];
        assert(fn_param_list_view(params@)[i as int] == param@);
        let item = (&param.name).clone();
        let ghost before = string_list_view(out@);
        let ghost added = item@;
        out.push(item);
        assert(string_list_view(out@) =~= before.push(added));
        i = i + 1;
    }
    out
}

/// The used names that belong to the enclosing frame and are not bound inside,
/// in increasing order and without the nested functions; nothing, when another
/// nested function than `self_name` is among them.
pub open spec fn selected_captures(
    used: Seq<Seq<char>>,
    inner: Seq<Seq<char>>,
    outer: Seq<Seq<char>>,
    nested: Seq<Seq<char>>,
    self_name: Seq<char>,
    i: nat,
    out: Seq<Seq<char>>,
) -> Option<Seq<Seq<char>>>
    decreases used, (used.len() - i) as nat,
{
    if i >= used.len() {
        Some(out)
    } else {
        let name = used[i as int];
        if !inner.contains(name) && outer.contains(name) {
            if nested.contains(name) {
                if !(name == self_name) {
                    None
                } else {
                    selected_captures(used, inner, outer, nested, self_name, i + 1, out)
                }
            } else {
                let out = insert_name(out, name);
                selected_captures(used, inner, outer, nested, self_name, i + 1, out)
            }
        } else {
            selected_captures(used, inner, outer, nested, self_name, i + 1, out)
        }
    }
}

/// See [`selected_captures`].
pub fn select_captures(
    used: &Vec<String>,
    inner: &Vec<String>,
    outer: &Vec<String>,
    nested: &Vec<String>,
    self_name: &String,
) -> (r: Option<Vec<String>>)
    ensures
        (match r { Some(v) => Some(string_list_view(v@)), None => None }) == selected_captures(
            string_list_view(used@),
            string_list_view(inner@),
            string_list_view(outer@),
            string_list_view(nested@),
            self_name@,
            0,
            Seq::<Seq<char>>::empty(),
        ),
    decreases used@, 0nat,
{
    let mut out: Vec<String> = Vec::new();
    assert(string_list_view(out@) =~= Seq::<Seq<char>>::empty());
    let ghost goal = selected_captures(
        string_list_view(used@),
        string_list_view(inner@),
        string_list_view(outer@),
        string_list_view(nested@),
        self_name@,
        0,
        Seq::<Seq<char>>::empty(),
    );
    let mut i: usize = 0;
    while i < used.len()
        invariant
            i <= used@.len(),
            string_list_view(used@).len() == used@.len(),
            selected_captures(
                string_list_view(used@),
                string_list_view(inner@),
                string_list_view(outer@),
                string_list_view(nested@),
                self_name@,
                i as nat,
                string_list_view(out@),
            ) == goal,
            goal == selected_captures(
                string_list_view(used@),
                string_list_view(inner@),
                string_list_view(outer@),
                string_list_view(nested@),
                self_name@,
                0,
                Seq::<Seq<char>>::empty(),
            ),
        decreases used@.len() - i,
    {
        let name = &used[i];
        assert(string_list_view(used@)[i as int] == name@);
        if !contains_name(inner, name) && contains_name(outer, name) {
            if contains_name(nested, name) {
                if !same_string(name, self_name) {
                    return None;
                }
            } else {
                out = add_name(out, name.clone());
            }
        }
        i = i + 1;
    }
    Some(out)
}

/// What a nested function captures of the frame around it, or nothing when it
/// cannot be lifted: when it declares a function, struct or trait of its own,
/// or refers to a nested function beside it. Calling itself is no capture.
#[verifier::opaque]
pub open spec fn captures_of(
    params: Seq<FnParamView>,
    body: Seq<StmtView>,
    outer: Seq<Seq<char>>,
    nested: Seq<Seq<char>>,
    self_name: Seq<char>,
) -> Option<Seq<Seq<char>>> {
    let names = names_of_params(params, 0, Seq::empty());
    let inner = bound_names(body, 0, names);
    let (used, flat) = referred_by_stmts(body, 0, Seq::empty(), true);
    if flat {
        selected_captures(used, inner, outer, nested, self_name, 0, Seq::empty())
    } else {
        None
    }
}

/// See [`captures_of`].
pub fn analyze_captures(
    params: &Vec<FnParam>,
    body: &Vec<Stmt>,
    outer: &Vec<String>,
    nested: &Vec<String>,
    self_name: &String,
) -> (r: Option<Vec<String>>)
    ensures
        (match r { Some(v) => Some(string_list_view(v@)), None => None }) == captures_of(
            fn_param_list_view(params@),
            stmt_list_view(body@),
            string_list_view(outer@),
            string_list_view(nested@),
            self_name@,
        ),
{
    proof { reveal(captures_of); }
    let list: Vec<String> = Vec::new();
    assert(string_list_view(list@) =~= Seq::<Seq<char>>::empty());
    let names = param_names(params, list);
    let inner = binds(body, names);
    let list2: Vec<String> = Vec::new();
    assert(string_list_view(list2@) =~= Seq::<Seq<char>>::empty());
    let (used, flat) = refs_stmts(body, list2, true);
    if flat {
        select_captures(&used, &inner, outer, nested, self_name)
    } else {
        None
    }
}

} // verus!
