//! Which functions can be run at compile time.

use crate::ast::{
    Expr, ExprKind, ExprKindView, ExprView, InfixOp, ParamArg, ParamArgView, Stmt, StmtKind,
    StmtKindView, StmtView, SubscriptArg, SubscriptArgView, Type, branch_list_view,
    comparison_list_view, expr_list_view, param_arg_list_view, stmt_list_view,
    subscript_arg_list_view, unfold_expr_kind, unfold_stmt_kind,
};
use crate::elab::{CtContext, CtContextView, CtFn, CtFnView, ct_fn_list_view, find_fn, fn_named};
use crate::text::{clone_string_list, contains_name, same_text, string_list_view};
use crate::values::Value;
use vstd::prelude::*;

verus! {

/// The built-in functions that can be run at compile time.
#[verifier::opaque]
pub open spec fn safe_builtin(name: Seq<char>) -> bool {
    name == "range"@ || name == "abs"@ || name == "min"@ || name == "max"@ || name == "round"@ || name == "Int"@ || name == "UInt"@ || name == "Float64"@
}

/// See [`safe_builtin`].
pub fn vm_ctfe_safe_builtin(name: &String) -> (r: bool)
    ensures
        r == safe_builtin(name@),
{
    proof { reveal(safe_builtin); }
    same_text(name.as_str(), "range") || same_text(name.as_str(), "abs") || same_text(name.as_str(), "min") || same_text(name.as_str(), "max") || same_text(name.as_str(), "round") || same_text(name.as_str(), "Int") || same_text(name.as_str(), "UInt") || same_text(
        name.as_str(),
        "Float64",
    )
}

/// The names whose calls are safe whatever the program declares.
#[verifier::opaque]
pub open spec fn safe_by_name(name: Seq<char>) -> bool {
    name == "is_same_type"@ || safe_builtin(name)
}

/// See [`safe_by_name`].
pub fn safe_name(name: &String) -> (r: bool)
    ensures
        r == safe_by_name(name@),
{
    proof { reveal(safe_by_name); }
    same_text(name.as_str(), "is_same_type") || vm_ctfe_safe_builtin(name)
}

#[verifier::opaque]
pub open spec fn needed_too(needed: Seq<Seq<char>>, name: Seq<char>) -> Seq<Seq<char>> {
    let out = needed;
    let out = out.push(name);
    out
}

/// See [`needed_too`].
pub fn also_needed(needed: Vec<String>, name: &String) -> (r: Vec<String>)
    ensures
        string_list_view(r@) == needed_too(string_list_view(needed@), name@),
{
    proof { reveal(needed_too); }
    let mut out = needed;
    let item = name.clone();
    let ghost before = string_list_view(out@);
    let ghost added = item@;
    out.push(item);
    assert(string_list_view(out@) =~= before.push(added));
    out
}

/// Whether a function can be run at compile time, with the functions it reaches.
#[verifier::opaque]
pub open spec fn fn_safe(name: Seq<char>, cx: CtContextView) -> (bool, Seq<Seq<char>>) {
    let visiting = Seq::<Seq<char>>::empty();
    fn_safe_from(name, cx, visiting, Seq::empty(), depth_of_search(cx.fns))
}

/// See [`fn_safe`].
pub fn vm_ctfe_safe_fn(name: &String, cx: &CtContext) -> (r: (bool, Vec<String>))
    ensures
        (r.0, string_list_view(r.1@)) == fn_safe(name@, cx@),
{
    proof { reveal(fn_safe); }
    let visiting: Vec<String> = Vec::new();
    assert(string_list_view(visiting@) =~= Seq::<Seq<char>>::empty());
    let list: Vec<String> = Vec::new();
    assert(string_list_view(list@) =~= Seq::<Seq<char>>::empty());
    safe_fn(name, cx, &visiting, list, search_depth(&cx.fns))
}

#[verifier::opaque]
pub open spec fn depth_of_search(fns: Seq<CtFnView>) -> u32 {
    if fns.len() < 2147483640 {
        ((2 * fns.len() as u32) as u32 + 3) as u32
    } else {
        4294967295
    }
}

/// See [`depth_of_search`].
pub fn search_depth(fns: &Vec<CtFn>) -> (r: u32)
    ensures
        r == depth_of_search(ct_fn_list_view(fns@)),
{
    proof { reveal(depth_of_search); }
    if fns.len() < 2147483640 {
        2 * fns.len() as u32 + 3
    } else {
        4294967295
    }
}

/// See [`vm_ctfe_safe_fn`]. A function that is being looked at counts as safe.
pub open spec fn fn_safe_from(
    name: Seq<char>,
    cx: CtContextView,
    visiting: Seq<Seq<char>>,
    needed: Seq<Seq<char>>,
    depth: u32,
) -> (bool, Seq<Seq<char>>)
    decreases depth, 2nat, name, 0nat,
{
    if needed.contains(name) {
        (true, needed)
    } else if visiting.contains(name) {
        (true, needed_too(needed, name))
    } else {
        match fn_named(cx.fns, name, 0, None) {
            Some(f) => if depth > 0 {
                let inside = needed_too(visiting, name);
                let (safe, needed) = block_safe(f.body, cx, inside, (depth - 1) as u32, 0, needed);
                if safe {
                    (true, needed_too(needed, name))
                } else {
                    (false, needed)
                }
            } else {
                (false, needed)
            },
            None => (false, needed),
        }
    }
}

/// See [`fn_safe_from`].
pub fn safe_fn(
    name: &String,
    cx: &CtContext,
    visiting: &Vec<String>,
    needed: Vec<String>,
    depth: u32,
) -> (r: (bool, Vec<String>))
    ensures
        (r.0, string_list_view(r.1@)) == fn_safe_from(
            name@,
            cx@,
            string_list_view(visiting@),
            string_list_view(needed@),
            depth,
        ),
    decreases depth, 2nat, name, 0nat,
{
    if contains_name(&needed, name) {
        (true, needed)
    } else if contains_name(visiting, name) {
        (true, also_needed(needed, name))
    } else {
        match find_fn(&cx.fns, name) {
            Some(f) => {
                if depth > 0 {
                    let inside = also_needed(clone_string_list(visiting), name);
                    let (safe, needed) = safe_block(&f.body, cx, &inside, needed, depth - 1);
                    if safe {
                        (true, also_needed(needed, name))
                    } else {
                        (false, needed)
                    }
                } else {
                    (false, needed)
                }
            },
            None => (false, needed),
        }
    }
}

pub open spec fn block_safe(
    body: Seq<StmtView>,
    cx: CtContextView,
    visiting: Seq<Seq<char>>,
    depth: u32,
    i: nat,
    needed: Seq<Seq<char>>,
) -> (bool, Seq<Seq<char>>)
    decreases depth, 1nat, body, (body.len() - i) as nat,
{
    if i >= body.len() {
        (true, needed)
    } else {
        let stmt = body[i as int];
        let (safe, rest) = stmt_safe(stmt, cx, visiting, needed, depth);
        let needed = rest;
        if !safe {
            (false, needed)
        } else {
            block_safe(body, cx, visiting, depth, i + 1, needed)
        }
    }
}

/// See [`block_safe`].
pub fn safe_block(
    body: &Vec<Stmt>,
    cx: &CtContext,
    visiting: &Vec<String>,
    found: Vec<String>,
    depth: u32,
) -> (r: (bool, Vec<String>))
    ensures
        (r.0, string_list_view(r.1@)) == block_safe(
            stmt_list_view(body@),
            cx@,
            string_list_view(visiting@),
            depth,
            0,
            string_list_view(found@),
        ),
    decreases depth, 1nat, body@, 0nat,
{
    let mut needed: Vec<String> = found;
    let ghost goal = block_safe(
        stmt_list_view(body@),
        cx@,
        string_list_view(visiting@),
        depth,
        0,
        string_list_view(found@),
    );
    let mut i: usize = 0;
    while i < body.len()
        invariant
            i <= body@.len(),
            stmt_list_view(body@).len() == body@.len(),
            block_safe(
                stmt_list_view(body@),
                cx@,
                string_list_view(visiting@),
                depth,
                i as nat,
                string_list_view(needed@),
            ) == goal,
            goal == block_safe(
                stmt_list_view(body@),
                cx@,
                string_list_view(visiting@),
                depth,
                0,
                string_list_view(found@),
            ),
        decreases body@.len() - i,
    {
        let stmt = &body[i];
        assert(stmt_list_view(body@)[i as int] == stmt@);
        let (safe, rest) = safe_stmt(stmt, cx, visiting, needed, depth);
        needed = rest;
        if !safe {
            return (false, needed);
        }
        i = i + 1;
    }
    (true, needed)
}

pub open spec fn opt_block_safe(
    block: Option<Seq<StmtView>>,
    cx: CtContextView,
    visiting: Seq<Seq<char>>,
    needed: Seq<Seq<char>>,
    depth: u32,
) -> (bool, Seq<Seq<char>>)
    decreases depth, 1nat, block, 0nat,
{
    match block {
        Some(body) => block_safe(body, cx, visiting, depth, 0, needed),
        None => (true, needed),
    }
}

/// See [`opt_block_safe`].
pub fn safe_opt_block(
    block: &Option<Vec<Stmt>>,
    cx: &CtContext,
    visiting: &Vec<String>,
    needed: Vec<String>,
    depth: u32,
) -> (r: (bool, Vec<String>))
    ensures
        (r.0, string_list_view(r.1@)) == opt_block_safe(
            (match block { Some(v) => Some(stmt_list_view(v@)), None => None }),
            cx@,
            string_list_view(visiting@),
            string_list_view(needed@),
            depth,
        ),
    decreases depth, 1nat, block, 0nat,
{
    match block {
        Some(body) => safe_block(body, cx, visiting, needed, depth),
        None => (true, needed),
    }
}

/// Whether a statement has no effect but on local values.
pub open spec fn stmt_safe(
    stmt: StmtView,
    cx: CtContextView,
    visiting: Seq<Seq<char>>,
    needed: Seq<Seq<char>>,
    depth: u32,
) -> (bool, Seq<Seq<char>>)
    decreases depth, 1nat, stmt, 0nat,
{
    match stmt.kind {
        StmtKindView::VarDecl { value, .. } => expr_safe(value, cx, visiting, needed, depth),
        StmtKindView::RefDecl { value, .. } => expr_safe(value, cx, visiting, needed, depth),
        StmtKindView::Assign { value, .. } => expr_safe(value, cx, visiting, needed, depth),
        StmtKindView::AugAssign { place, value, .. } => {
            let (safe, needed) = expr_safe(place, cx, visiting, needed, depth);
            if safe {
                expr_safe(value, cx, visiting, needed, depth)
            } else {
                (false, needed)
            }
        },
        StmtKindView::SetPlace { place, value } => {
            let (safe, needed) = expr_safe(place, cx, visiting, needed, depth);
            if safe {
                expr_safe(value, cx, visiting, needed, depth)
            } else {
                (false, needed)
            }
        },
        StmtKindView::Return(value) => match value {
            Some(value) => expr_safe(value, cx, visiting, needed, depth),
            None => (true, needed),
        },
        StmtKindView::Expr(value) => expr_safe(value, cx, visiting, needed, depth),
        StmtKindView::Pass => (true, needed),
        StmtKindView::If { branches, orelse } => {
            let (safe, needed) = branches_safe(branches, cx, visiting, depth, 0, needed);
            if safe {
                opt_block_safe(orelse, cx, visiting, needed, depth)
            } else {
                (false, needed)
            }
        },
        StmtKindView::While { cond, body, .. } => {
            let (safe, needed) = expr_safe(cond, cx, visiting, needed, depth);
            if safe {
                block_safe(body, cx, visiting, depth, 0, needed)
            } else {
                (false, needed)
            }
        },
        StmtKindView::For { iter, body, .. } => {
            let (safe, needed) = expr_safe(iter, cx, visiting, needed, depth);
            if safe {
                block_safe(body, cx, visiting, depth, 0, needed)
            } else {
                (false, needed)
            }
        },
        _ => (false, needed),
    }
}

/// See [`stmt_safe`].
pub fn safe_stmt(
    stmt: &Stmt,
    cx: &CtContext,
    visiting: &Vec<String>,
    needed: Vec<String>,
    depth: u32,
) -> (r: (bool, Vec<String>))
    ensures
        (r.0, string_list_view(r.1@)) == stmt_safe(
            stmt@,
            cx@,
            string_list_view(visiting@),
            string_list_view(needed@),
            depth,
        ),
    decreases depth, 1nat, stmt, 0nat,
{
    proof { unfold_stmt_kind(stmt.kind); }
    match &stmt.kind {
        StmtKind::VarDecl { value, .. } => safe_expr(value, cx, visiting, needed, depth),
        StmtKind::RefDecl { value, .. } => safe_expr(value, cx, visiting, needed, depth),
        StmtKind::Assign { value, .. } => safe_expr(value, cx, visiting, needed, depth),
        StmtKind::AugAssign { place, value, .. } => {
            let (safe, needed) = safe_expr(place, cx, visiting, needed, depth);
            if safe {
                safe_expr(value, cx, visiting, needed, depth)
            } else {
                (false, needed)
            }
        },
        StmtKind::SetPlace { place, value } => {
            let (safe, needed) = safe_expr(place, cx, visiting, needed, depth);
            if safe {
                safe_expr(value, cx, visiting, needed, depth)
            } else {
                (false, needed)
            }
        },
        StmtKind::Return(value) => {
            match value {
                Some(value) => safe_expr(value, cx, visiting, needed, depth),
                None => (true, needed),
            }
        },
        StmtKind::Expr(value) => safe_expr(value, cx, visiting, needed, depth),
        StmtKind::Pass => (true, needed),
        StmtKind::If { branches, orelse } => {
            let (safe, needed) = safe_branches(branches, cx, visiting, needed, depth);
            if safe {
                safe_opt_block(orelse, cx, visiting, needed, depth)
            } else {
                (false, needed)
            }
        },
        StmtKind::While { cond, body, .. } => {
            let (safe, needed) = safe_expr(cond, cx, visiting, needed, depth);
            if safe {
                safe_block(body, cx, visiting, needed, depth)
            } else {
                (false, needed)
            }
        },
        StmtKind::For { iter, body, .. } => {
            let (safe, needed) = safe_expr(iter, cx, visiting, needed, depth);
            if safe {
                safe_block(body, cx, visiting, needed, depth)
            } else {
                (false, needed)
            }
        },
        _ => {
            assert(!(stmt.kind@ is VarDecl));
            assert(!(stmt.kind@ is RefDecl));
            assert(!(stmt.kind@ is Assign));
            assert(!(stmt.kind@ is AugAssign));
            assert(!(stmt.kind@ is SetPlace));
            assert(!(stmt.kind@ is Return));
            assert(!(stmt.kind@ is Expr));
            assert(!(stmt.kind@ is Pass));
            assert(!(stmt.kind@ is If));
            assert(!(stmt.kind@ is While));
            assert(!(stmt.kind@ is For));
            (false, needed)
        },
    }
}

pub open spec fn branches_safe(
    branches: Seq<(ExprView, Seq<StmtView>)>,
    cx: CtContextView,
    visiting: Seq<Seq<char>>,
    depth: u32,
    i: nat,
    needed: Seq<Seq<char>>,
) -> (bool, Seq<Seq<char>>)
    decreases depth, 1nat, branches, (branches.len() - i) as nat,
{
    if i >= branches.len() {
        (true, needed)
    } else {
        let branch = branches[i as int];
        let (cond_safe, after_cond) = expr_safe(branch.0, cx, visiting, needed, depth);
        let needed = after_cond;
        if !cond_safe {
            (false, needed)
        } else {
            let (body_safe, after_body) = block_safe(branch.1, cx, visiting, depth, 0, needed);
            let needed = after_body;
            if !body_safe {
                (false, needed)
            } else {
                branches_safe(branches, cx, visiting, depth, i + 1, needed)
            }
        }
    }
}

/// See [`branches_safe`].
pub fn safe_branches(
    branches: &Vec<(Expr, Vec<Stmt>)>,
    cx: &CtContext,
    visiting: &Vec<String>,
    found: Vec<String>,
    depth: u32,
) -> (r: (bool, Vec<String>))
    ensures
        (r.0, string_list_view(r.1@)) == branches_safe(
            branch_list_view(branches@),
            cx@,
            string_list_view(visiting@),
            depth,
            0,
            string_list_view(found@),
        ),
    decreases depth, 1nat, branches@, 0nat,
{
    let mut needed: Vec<String> = found;
    let ghost goal = branches_safe(
        branch_list_view(branches@),
        cx@,
        string_list_view(visiting@),
        depth,
        0,
        string_list_view(found@),
    );
    let mut i: usize = 0;
    while i < branches.len()
        invariant
            i <= branches@.len(),
            branch_list_view(branches@).len() == branches@.len(),
            branches_safe(
                branch_list_view(branches@),
                cx@,
                string_list_view(visiting@),
                depth,
                i as nat,
                string_list_view(needed@),
            ) == goal,
            goal == branches_safe(
                branch_list_view(branches@),
                cx@,
                string_list_view(visiting@),
                depth,
                0,
                string_list_view(found@),
            ),
        decreases branches@.len() - i,
    {
        let branch = &branches[i];
        assert(branch_list_view(branches@)[i as int].0 =~= branch.0@);
        assert(branch_list_view(branches@)[i as int].1 =~= stmt_list_view(branch.1@));
        let (cond_safe, after_cond) = safe_expr(&branch.0, cx, visiting, needed, depth);
        needed = after_cond;
        if !cond_safe {
            return (false, needed);
        }
        let (body_safe, after_body) = safe_block(&branch.1, cx, visiting, needed, depth);
        needed = after_body;
        if !body_safe {
            return (false, needed);
        }
        i = i + 1;
    }
    (true, needed)
}

pub open spec fn exprs_safe(
    values: Seq<ExprView>,
    cx: CtContextView,
    visiting: Seq<Seq<char>>,
    depth: u32,
    i: nat,
    needed: Seq<Seq<char>>,
) -> (bool, Seq<Seq<char>>)
    decreases depth, 0nat, values, (values.len() - i) as nat,
{
    if i >= values.len() {
        (true, needed)
    } else {
        let value = values[i as int];
        let (safe, rest) = expr_safe(value, cx, visiting, needed, depth);
        let needed = rest;
        if !safe {
            (false, needed)
        } else {
            exprs_safe(values, cx, visiting, depth, i + 1, needed)
        }
    }
}

/// See [`exprs_safe`].
pub fn safe_exprs(
    values: &Vec<Expr>,
    cx: &CtContext,
    visiting: &Vec<String>,
    found: Vec<String>,
    depth: u32,
) -> (r: (bool, Vec<String>))
    ensures
        (r.0, string_list_view(r.1@)) == exprs_safe(
            expr_list_view(values@),
            cx@,
            string_list_view(visiting@),
            depth,
            0,
            string_list_view(found@),
        ),
    decreases depth, 0nat, values@, 0nat,
{
    let mut needed: Vec<String> = found;
    let ghost goal = exprs_safe(
        expr_list_view(values@),
        cx@,
        string_list_view(visiting@),
        depth,
        0,
        string_list_view(found@),
    );
    let mut i: usize = 0;
    while i < values.len()
        invariant
            i <= values@.len(),
            expr_list_view(values@).len() == values@.len(),
            exprs_safe(
                expr_list_view(values@),
                cx@,
                string_list_view(visiting@),
                depth,
                i as nat,
                string_list_view(needed@),
            ) == goal,
            goal == exprs_safe(
                expr_list_view(values@),
                cx@,
                string_list_view(visiting@),
                depth,
                0,
                string_list_view(found@),
            ),
        decreases values@.len() - i,
    {
        let value = &values[i];
        assert(expr_list_view(values@)[i as int] == value@);
        let (safe, rest) = safe_expr(value, cx, visiting, needed, depth);
        needed = rest;
        if !safe {
            return (false, needed);
        }
        i = i + 1;
    }
    (true, needed)
}

pub open spec fn comparisons_safe(
    rest: Seq<(InfixOp, ExprView)>,
    cx: CtContextView,
    visiting: Seq<Seq<char>>,
    depth: u32,
    i: nat,
    needed: Seq<Seq<char>>,
) -> (bool, Seq<Seq<char>>)
    decreases depth, 0nat, rest, (rest.len() - i) as nat,
{
    if i >= rest.len() {
        (true, needed)
    } else {
        let link = rest[i as int];
        let (safe, after) = expr_safe(link.1, cx, visiting, needed, depth);
        let needed = after;
        if !safe {
            (false, needed)
        } else {
            comparisons_safe(rest, cx, visiting, depth, i + 1, needed)
        }
    }
}

/// See [`comparisons_safe`].
pub fn safe_comparisons(
    rest: &Vec<(InfixOp, Expr)>,
    cx: &CtContext,
    visiting: &Vec<String>,
    found: Vec<String>,
    depth: u32,
) -> (r: (bool, Vec<String>))
    ensures
        (r.0, string_list_view(r.1@)) == comparisons_safe(
            comparison_list_view(rest@),
            cx@,
            string_list_view(visiting@),
            depth,
            0,
            string_list_view(found@),
        ),
    decreases depth, 0nat, rest@, 0nat,
{
    let mut needed: Vec<String> = found;
    let ghost goal = comparisons_safe(
        comparison_list_view(rest@),
        cx@,
        string_list_view(visiting@),
        depth,
        0,
        string_list_view(found@),
    );
    let mut i: usize = 0;
    while i < rest.len()
        invariant
            i <= rest@.len(),
            comparison_list_view(rest@).len() == rest@.len(),
            comparisons_safe(
                comparison_list_view(rest@),
                cx@,
                string_list_view(visiting@),
                depth,
                i as nat,
                string_list_view(needed@),
            ) == goal,
            goal == comparisons_safe(
                comparison_list_view(rest@),
                cx@,
                string_list_view(visiting@),
                depth,
                0,
                string_list_view(found@),
            ),
        decreases rest@.len() - i,
    {
        let link = &rest[i];
        assert(comparison_list_view(rest@)[i as int].1 =~= link.1@);
        let (safe, after) = safe_expr(&link.1, cx, visiting, needed, depth);
        needed = after;
        if !safe {
            return (false, needed);
        }
        i = i + 1;
    }
    (true, needed)
}

pub open spec fn opt_safe(
    value: Option<Box<ExprView>>,
    cx: CtContextView,
    visiting: Seq<Seq<char>>,
    needed: Seq<Seq<char>>,
    depth: u32,
) -> (bool, Seq<Seq<char>>)
    decreases depth, 0nat, value, 0nat,
{
    match value {
        Some(value) => expr_safe(*value, cx, visiting, needed, depth),
        None => (true, needed),
    }
}

/// See [`opt_safe`].
pub fn safe_opt(
    value: &Option<Box<Expr>>,
    cx: &CtContext,
    visiting: &Vec<String>,
    needed: Vec<String>,
    depth: u32,
) -> (r: (bool, Vec<String>))
    ensures
        (r.0, string_list_view(r.1@)) == opt_safe(
            (match value { Some(v) => Some(Box::new(v@)), None => None }),
            cx@,
            string_list_view(visiting@),
            string_list_view(needed@),
            depth,
        ),
    decreases depth, 0nat, value, 0nat,
{
    match value {
        Some(value) => safe_expr(&**value, cx, visiting, needed, depth),
        None => (true, needed),
    }
}

pub open spec fn subscripts_safe(
    args: Seq<SubscriptArgView>,
    cx: CtContextView,
    visiting: Seq<Seq<char>>,
    depth: u32,
    i: nat,
    needed: Seq<Seq<char>>,
) -> (bool, Seq<Seq<char>>)
    decreases depth, 0nat, args, (args.len() - i) as nat,
{
    if i >= args.len() {
        (true, needed)
    } else {
        let arg = args[i as int];
        let (safe, rest) = subscript_safe(arg, cx, visiting, needed, depth);
        let needed = rest;
        if !safe {
            (false, needed)
        } else {
            subscripts_safe(args, cx, visiting, depth, i + 1, needed)
        }
    }
}

/// See [`subscripts_safe`].
pub fn safe_subscripts(
    args: &Vec<SubscriptArg>,
    cx: &CtContext,
    visiting: &Vec<String>,
    found: Vec<String>,
    depth: u32,
) -> (r: (bool, Vec<String>))
    ensures
        (r.0, string_list_view(r.1@)) == subscripts_safe(
            subscript_arg_list_view(args@),
            cx@,
            string_list_view(visiting@),
            depth,
            0,
            string_list_view(found@),
        ),
    decreases depth, 0nat, args@, 0nat,
{
    let mut needed: Vec<String> = found;
    let ghost goal = subscripts_safe(
        subscript_arg_list_view(args@),
        cx@,
        string_list_view(visiting@),
        depth,
        0,
        string_list_view(found@),
    );
    let mut i: usize = 0;
    while i < args.len()
        invariant
            i <= args@.len(),
            subscript_arg_list_view(args@).len() == args@.len(),
            subscripts_safe(
                subscript_arg_list_view(args@),
                cx@,
                string_list_view(visiting@),
                depth,
                i as nat,
                string_list_view(needed@),
            ) == goal,
            goal == subscripts_safe(
                subscript_arg_list_view(args@),
                cx@,
                string_list_view(visiting@),
                depth,
                0,
                string_list_view(found@),
            ),
        decreases args@.len() - i,
    {
        let arg = &args[i];
        assert(subscript_arg_list_view(args@)[i as int] == arg@);
        let (safe, rest) = safe_subscript(arg, cx, visiting, needed, depth);
        needed = rest;
        if !safe {
            return (false, needed);
        }
        i = i + 1;
    }
    (true, needed)
}

pub open spec fn subscript_safe(
    arg: SubscriptArgView,
    cx: CtContextView,
    visiting: Seq<Seq<char>>,
    needed: Seq<Seq<char>>,
    depth: u32,
) -> (bool, Seq<Seq<char>>)
    decreases depth, 0nat, arg, 0nat,
{
    match arg {
        SubscriptArgView::Index(value) => expr_safe(value, cx, visiting, needed, depth),
        SubscriptArgView::Slice { lower, upper, step } => {
            let (safe, needed) = opt_safe(lower, cx, visiting, needed, depth);
            if safe {
                let (safe, needed) = opt_safe(upper, cx, visiting, needed, depth);
                if safe {
                    opt_safe(step, cx, visiting, needed, depth)
                } else {
                    (false, needed)
                }
            } else {
                (false, needed)
            }
        },
    }
}

/// See [`subscript_safe`].
pub fn safe_subscript(
    arg: &SubscriptArg,
    cx: &CtContext,
    visiting: &Vec<String>,
    needed: Vec<String>,
    depth: u32,
) -> (r: (bool, Vec<String>))
    ensures
        (r.0, string_list_view(r.1@)) == subscript_safe(
            arg@,
            cx@,
            string_list_view(visiting@),
            string_list_view(needed@),
            depth,
        ),
    decreases depth, 0nat, arg, 0nat,
{
    match arg {
        SubscriptArg::Index(value) => safe_expr(value, cx, visiting, needed, depth),
        SubscriptArg::Slice { lower, upper, step } => {
            let (safe, needed) = safe_opt(lower, cx, visiting, needed, depth);
            if safe {
                let (safe, needed) = safe_opt(upper, cx, visiting, needed, depth);
                if safe {
                    safe_opt(step, cx, visiting, needed, depth)
                } else {
                    (false, needed)
                }
            } else {
                (false, needed)
            }
        },
    }
}

pub open spec fn param_args_safe(
    args: Seq<ParamArgView>,
    cx: CtContextView,
    visiting: Seq<Seq<char>>,
    depth: u32,
    i: nat,
    needed: Seq<Seq<char>>,
) -> (bool, Seq<Seq<char>>)
    decreases depth, 0nat, args, (args.len() - i) as nat,
{
    if i >= args.len() {
        (true, needed)
    } else {
        let arg = args[i as int];
        let (safe, rest) = param_arg_safe(arg, true, cx, visiting, needed, depth);
        let needed = rest;
        if !safe {
            (false, needed)
        } else {
            param_args_safe(args, cx, visiting, depth, i + 1, needed)
        }
    }
}

/// See [`param_args_safe`].
pub fn safe_param_args(
    args: &Vec<ParamArg>,
    cx: &CtContext,
    visiting: &Vec<String>,
    found: Vec<String>,
    depth: u32,
) -> (r: (bool, Vec<String>))
    ensures
        (r.0, string_list_view(r.1@)) == param_args_safe(
            param_arg_list_view(args@),
            cx@,
            string_list_view(visiting@),
            depth,
            0,
            string_list_view(found@),
        ),
    decreases depth, 0nat, args@, 0nat,
{
    let mut needed: Vec<String> = found;
    let ghost goal = param_args_safe(
        param_arg_list_view(args@),
        cx@,
        string_list_view(visiting@),
        depth,
        0,
        string_list_view(found@),
    );
    let mut i: usize = 0;
    while i < args.len()
        invariant
            i <= args@.len(),
            param_arg_list_view(args@).len() == args@.len(),
            param_args_safe(
                param_arg_list_view(args@),
                cx@,
                string_list_view(visiting@),
                depth,
                i as nat,
                string_list_view(needed@),
            ) == goal,
            goal == param_args_safe(
                param_arg_list_view(args@),
                cx@,
                string_list_view(visiting@),
                depth,
                0,
                string_list_view(found@),
            ),
        decreases args@.len() - i,
    {
        let arg = &args[i];
        assert(param_arg_list_view(args@)[i as int] == arg@);
        let (safe, rest) = safe_param_arg(arg, true, cx, visiting, needed, depth);
        needed = rest;
        if !safe {
            return (false, needed);
        }
        i = i + 1;
    }
    (true, needed)
}

/// A named argument may hold a value or a type, but no named argument.
pub open spec fn param_arg_safe(
    arg: ParamArgView,
    outer: bool,
    cx: CtContextView,
    visiting: Seq<Seq<char>>,
    needed: Seq<Seq<char>>,
    depth: u32,
) -> (bool, Seq<Seq<char>>)
    decreases depth, 0nat, arg, 0nat,
{
    match arg {
        ParamArgView::Value(value) => expr_safe(value, cx, visiting, needed, depth),
        ParamArgView::Type(_) => (true, needed),
        ParamArgView::Named { value, .. } => if outer {
            param_arg_safe(*value, false, cx, visiting, needed, depth)
        } else {
            (false, needed)
        },
    }
}

/// See [`param_arg_safe`].
pub fn safe_param_arg(
    arg: &ParamArg,
    outer: bool,
    cx: &CtContext,
    visiting: &Vec<String>,
    needed: Vec<String>,
    depth: u32,
) -> (r: (bool, Vec<String>))
    ensures
        (r.0, string_list_view(r.1@)) == param_arg_safe(
            arg@,
            outer,
            cx@,
            string_list_view(visiting@),
            string_list_view(needed@),
            depth,
        ),
    decreases depth, 0nat, arg, 0nat,
{
    match arg {
        ParamArg::Value(value) => safe_expr(value, cx, visiting, needed, depth),
        ParamArg::Type(_) => (true, needed),
        ParamArg::Named { value, .. } => {
            if outer {
                safe_param_arg(&**value, false, cx, visiting, needed, depth)
            } else {
                (false, needed)
            }
        },
    }
}

/// Whether an expression has no effect, and calls only functions that have none.
pub open spec fn expr_safe(
    expr: ExprView,
    cx: CtContextView,
    visiting: Seq<Seq<char>>,
    needed: Seq<Seq<char>>,
    depth: u32,
) -> (bool, Seq<Seq<char>>)
    decreases depth, 0nat, expr, 0nat,
{
    match expr.kind {
        ExprKindView::Int(_) => (true, needed),
        ExprKindView::Float(_) => (true, needed),
        ExprKindView::Bool(_) => (true, needed),
        ExprKindView::Str(_) => (true, needed),
        ExprKindView::NoneLit => (true, needed),
        ExprKindView::Identifier(_) => (true, needed),
        ExprKindView::Prefix(_, inner) => expr_safe(*inner, cx, visiting, needed, depth),
        ExprKindView::Transfer(inner) => expr_safe(*inner, cx, visiting, needed, depth),
        ExprKindView::Spread(inner) => expr_safe(*inner, cx, visiting, needed, depth),
        ExprKindView::Infix(_, left, right) => {
            let (safe, needed) = expr_safe(*left, cx, visiting, needed, depth);
            if safe {
                expr_safe(*right, cx, visiting, needed, depth)
            } else {
                (false, needed)
            }
        },
        ExprKindView::TupleLit(items) => exprs_safe(items, cx, visiting, depth, 0, needed),
        ExprKindView::ListLit(items) => exprs_safe(items, cx, visiting, depth, 0, needed),
        ExprKindView::Index { object, index } => {
            let (safe, needed) = expr_safe(*object, cx, visiting, needed, depth);
            if safe {
                expr_safe(*index, cx, visiting, needed, depth)
            } else {
                (false, needed)
            }
        },
        ExprKindView::Member { object, .. } => expr_safe(*object, cx, visiting, needed, depth),
        ExprKindView::IfExpr { .. } => choice_safe(expr.kind, cx, visiting, needed, depth),
        ExprKindView::Compare { first, rest } => {
            let (safe, needed) = expr_safe(*first, cx, visiting, needed, depth);
            if safe {
                comparisons_safe(rest, cx, visiting, depth, 0, needed)
            } else {
                (false, needed)
            }
        },
        ExprKindView::Slice { .. } => slice_safe(expr.kind, cx, visiting, needed, depth),
        ExprKindView::MultiIndex { object, args } => {
            let (safe, needed) = expr_safe(*object, cx, visiting, needed, depth);
            if safe {
                subscripts_safe(args, cx, visiting, depth, 0, needed)
            } else {
                (false, needed)
            }
        },
        ExprKindView::Call { .. } => call_safe(expr.kind, cx, visiting, needed, depth),
        _ => (false, needed),
    }
}

/// See [`expr_safe`].
pub fn safe_expr(
    expr: &Expr,
    cx: &CtContext,
    visiting: &Vec<String>,
    needed: Vec<String>,
    depth: u32,
) -> (r: (bool, Vec<String>))
    ensures
        (r.0, string_list_view(r.1@)) == expr_safe(
            expr@,
            cx@,
            string_list_view(visiting@),
            string_list_view(needed@),
            depth,
        ),
    decreases depth, 0nat, expr, 0nat,
{
    proof { unfold_expr_kind(expr.kind); }
    match &expr.kind {
        ExprKind::Int(_) => (true, needed),
        ExprKind::Float(_) => (true, needed),
        ExprKind::Bool(_) => (true, needed),
        ExprKind::Str(_) => (true, needed),
        ExprKind::NoneLit => (true, needed),
        ExprKind::Identifier(_) => (true, needed),
        ExprKind::Prefix(_, inner) => safe_expr(&**inner, cx, visiting, needed, depth),
        ExprKind::Transfer(inner) => safe_expr(&**inner, cx, visiting, needed, depth),
        ExprKind::Spread(inner) => safe_expr(&**inner, cx, visiting, needed, depth),
        ExprKind::Infix(_, left, right) => {
            let (safe, needed) = safe_expr(&**left, cx, visiting, needed, depth);
            if safe {
                safe_expr(&**right, cx, visiting, needed, depth)
            } else {
                (false, needed)
            }
        },
        ExprKind::TupleLit(items) => safe_exprs(items, cx, visiting, needed, depth),
        ExprKind::ListLit(items) => safe_exprs(items, cx, visiting, needed, depth),
        ExprKind::Index { object, index } => {
            let (safe, needed) = safe_expr(&**object, cx, visiting, needed, depth);
            if safe {
                safe_expr(&**index, cx, visiting, needed, depth)
            } else {
                (false, needed)
            }
        },
        ExprKind::Member { object, .. } => safe_expr(&**object, cx, visiting, needed, depth),
        ExprKind::IfExpr { .. } => safe_choice(&expr.kind, cx, visiting, needed, depth),
        ExprKind::Compare { first, rest } => {
            let (safe, needed) = safe_expr(&**first, cx, visiting, needed, depth);
            if safe {
                safe_comparisons(rest, cx, visiting, needed, depth)
            } else {
                (false, needed)
            }
        },
        ExprKind::Slice { .. } => safe_slice(&expr.kind, cx, visiting, needed, depth),
        ExprKind::MultiIndex { object, args } => {
            let (safe, needed) = safe_expr(&**object, cx, visiting, needed, depth);
            if safe {
                safe_subscripts(args, cx, visiting, needed, depth)
            } else {
                (false, needed)
            }
        },
        ExprKind::Call { .. } => safe_call(&expr.kind, cx, visiting, needed, depth),
        _ => {
            assert(!(expr.kind@ is Int));
            assert(!(expr.kind@ is Float));
            assert(!(expr.kind@ is Bool));
            assert(!(expr.kind@ is Str));
            assert(!(expr.kind@ is NoneLit));
            assert(!(expr.kind@ is Identifier));
            assert(!(expr.kind@ is Prefix));
            assert(!(expr.kind@ is Transfer));
            assert(!(expr.kind@ is Spread));
            assert(!(expr.kind@ is Infix));
            assert(!(expr.kind@ is TupleLit));
            assert(!(expr.kind@ is ListLit));
            assert(!(expr.kind@ is Index));
            assert(!(expr.kind@ is Member));
            assert(!(expr.kind@ is IfExpr));
            assert(!(expr.kind@ is Compare));
            assert(!(expr.kind@ is Slice));
            assert(!(expr.kind@ is MultiIndex));
            assert(!(expr.kind@ is Call));
            (false, needed)
        },
    }
}

pub open spec fn choice_safe(
    kind: ExprKindView,
    cx: CtContextView,
    visiting: Seq<Seq<char>>,
    needed: Seq<Seq<char>>,
    depth: u32,
) -> (bool, Seq<Seq<char>>)
    decreases depth, 0nat, kind, 0nat,
{
    match kind {
        ExprKindView::IfExpr { cond, then_branch, else_branch } => {
            let (safe, needed) = expr_safe(*cond, cx, visiting, needed, depth);
            if safe {
                let (safe, needed) = expr_safe(*then_branch, cx, visiting, needed, depth);
                if safe {
                    expr_safe(*else_branch, cx, visiting, needed, depth)
                } else {
                    (false, needed)
                }
            } else {
                (false, needed)
            }
        },
        _ => (false, needed),
    }
}

/// See [`choice_safe`].
pub fn safe_choice(
    kind: &ExprKind,
    cx: &CtContext,
    visiting: &Vec<String>,
    needed: Vec<String>,
    depth: u32,
) -> (r: (bool, Vec<String>))
    ensures
        (r.0, string_list_view(r.1@)) == choice_safe(
            kind@,
            cx@,
            string_list_view(visiting@),
            string_list_view(needed@),
            depth,
        ),
    decreases depth, 0nat, kind, 0nat,
{
    proof { unfold_expr_kind(*kind); }
    match kind {
        ExprKind::IfExpr { cond, then_branch, else_branch } => {
            let (safe, needed) = safe_expr(&**cond, cx, visiting, needed, depth);
            if safe {
                let (safe, needed) = safe_expr(&**then_branch, cx, visiting, needed, depth);
                if safe {
                    safe_expr(&**else_branch, cx, visiting, needed, depth)
                } else {
                    (false, needed)
                }
            } else {
                (false, needed)
            }
        },
        _ => {
            assert(!(kind@ is IfExpr));
            (false, needed)
        },
    }
}

pub open spec fn slice_safe(
    kind: ExprKindView,
    cx: CtContextView,
    visiting: Seq<Seq<char>>,
    needed: Seq<Seq<char>>,
    depth: u32,
) -> (bool, Seq<Seq<char>>)
    decreases depth, 0nat, kind, 0nat,
{
    match kind {
        ExprKindView::Slice { object, lower, upper, step } => {
            let (safe, needed) = expr_safe(*object, cx, visiting, needed, depth);
            if safe {
                let (safe, needed) = opt_safe(lower, cx, visiting, needed, depth);
                if safe {
                    let (safe, needed) = opt_safe(upper, cx, visiting, needed, depth);
                    if safe {
                        opt_safe(step, cx, visiting, needed, depth)
                    } else {
                        (false, needed)
                    }
                } else {
                    (false, needed)
                }
            } else {
                (false, needed)
            }
        },
        _ => (false, needed),
    }
}

/// See [`slice_safe`].
pub fn safe_slice(
    kind: &ExprKind,
    cx: &CtContext,
    visiting: &Vec<String>,
    needed: Vec<String>,
    depth: u32,
) -> (r: (bool, Vec<String>))
    ensures
        (r.0, string_list_view(r.1@)) == slice_safe(
            kind@,
            cx@,
            string_list_view(visiting@),
            string_list_view(needed@),
            depth,
        ),
    decreases depth, 0nat, kind, 0nat,
{
    proof { unfold_expr_kind(*kind); }
    match kind {
        ExprKind::Slice { object, lower, upper, step } => {
            let (safe, needed) = safe_expr(&**object, cx, visiting, needed, depth);
            if safe {
                let (safe, needed) = safe_opt(lower, cx, visiting, needed, depth);
                if safe {
                    let (safe, needed) = safe_opt(upper, cx, visiting, needed, depth);
                    if safe {
                        safe_opt(step, cx, visiting, needed, depth)
                    } else {
                        (false, needed)
                    }
                } else {
                    (false, needed)
                }
            } else {
                (false, needed)
            }
        },
        _ => {
            assert(!(kind@ is Slice));
            (false, needed)
        },
    }
}

pub open spec fn call_safe(
    kind: ExprKindView,
    cx: CtContextView,
    visiting: Seq<Seq<char>>,
    needed: Seq<Seq<char>>,
    depth: u32,
) -> (bool, Seq<Seq<char>>)
    decreases depth, 0nat, kind, 0nat,
{
    match kind {
        ExprKindView::Call { name, param_args, args, kwargs } => if kwargs.len() == 0 {
            let (safe, needed) = param_args_safe(param_args, cx, visiting, depth, 0, needed);
            if safe {
                let (safe, needed) = exprs_safe(args, cx, visiting, depth, 0, needed);
                if safe && !safe_by_name(name) && depth > 0 {
                    fn_safe_from(name, cx, visiting, needed, (depth - 1) as u32)
                } else {
                    (safe && safe_by_name(name), needed)
                }
            } else {
                (false, needed)
            }
        } else {
            (false, needed)
        },
        _ => (false, needed),
    }
}

/// See [`call_safe`].
pub fn safe_call(
    kind: &ExprKind,
    cx: &CtContext,
    visiting: &Vec<String>,
    needed: Vec<String>,
    depth: u32,
) -> (r: (bool, Vec<String>))
    ensures
        (r.0, string_list_view(r.1@)) == call_safe(
            kind@,
            cx@,
            string_list_view(visiting@),
            string_list_view(needed@),
            depth,
        ),
    decreases depth, 0nat, kind, 0nat,
{
    proof { unfold_expr_kind(*kind); }
    match kind {
        ExprKind::Call { name, param_args, args, kwargs } => {
            if kwargs.len() == 0 {
                let (safe, needed) = safe_param_args(param_args, cx, visiting, needed, depth);
                if safe {
                    let (safe, needed) = safe_exprs(args, cx, visiting, needed, depth);
                    if safe && !safe_name(name) && depth > 0 {
                        safe_fn(name, cx, visiting, needed, depth - 1)
                    } else {
                        (safe && safe_name(name), needed)
                    }
                } else {
                    (false, needed)
                }
            } else {
                (false, needed)
            }
        },
        _ => {
            assert(!(kind@ is Call));
            (false, needed)
        },
    }
}

} // verus!
