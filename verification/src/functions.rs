//! Control-flow graphs as functions of the flat form.

use crate::ast::{
    Capture, CaptureView, Expr, ExprKind, ExprKindView, ExprView, Stmt, StmtKind, StmtKindView,
    StmtView, branch_list_view, capture_list_view, expr_list_view, stmt_list_view,
    unfold_expr_kind, unfold_stmt_kind,
};
use crate::cfg::{following_slot, next_slot};
use crate::checked::{
    OverloadEntry, OverloadEntryView, OverloadSets, OverloadSetsView, clone_checked_expr_list,
    clone_overload_sets, overload_entry_list_view, unfold_overload_sets,
};
use crate::flatten::{
    Flatten, FlattenView, Loan, LoanView, NestedInfo, NestedInfoView, clone_nested_info_list,
    nested_info_list_view, slot_loan_list_view, slot_loans_list_view, unfold_flatten,
};
use crate::hir::{
    BasicBlock, BasicBlockView, Cfg, CfgView, HirInstr, HirInstrView, basic_block_list_view,
    hir_instr_list_view,
};
use crate::mir::{
    MirFunction, MirFunctionView, RegOrigin, RegOriginView, SpanTable, SpanTableView,
    clone_mir_block_list, clone_reg_origin_list, reg_origin_list_view, unfold_mir_function,
    unfold_span_table,
};
use crate::origin::OwnerId;
use crate::regions::{blocks_for, lowered_blocks, open_blocks};
use crate::text::{clone_string_list, contains_name, string_list_view};
use crate::types::{Ty, TyView, clone_slot_ty_list, slot_ty_list_view, ty_list_view};
use vstd::prelude::*;

verus! {

/// The names a statement binds, each time it binds one.
pub open spec fn bindings_of_stmt(stmt: StmtView, found: Seq<Seq<char>>) -> Seq<Seq<char>>
    decreases stmt, 0nat,
{
    match stmt.kind {
        StmtKindView::VarDecl { name, .. } => and_binding(found, name),
        StmtKindView::Assign { name, .. } => and_binding(found, name),
        StmtKindView::RefDecl { name, .. } => and_binding(found, name),
        StmtKindView::Comptime { name, .. } => and_binding(found, name),
        StmtKindView::AugAssign { place, .. } => and_target(place, found),
        StmtKindView::SetPlace { place, .. } => and_target(place, found),
        StmtKindView::Unpack { targets, .. } => and_targets(targets, 0, found),
        StmtKindView::If { branches, orelse } => {
            let out = bindings_of_branches(branches, 0, found);
            bindings_of_block(orelse, out)
        },
        StmtKindView::While { body, orelse, .. } => {
            let out = bindings_of_stmts(body, 0, found);
            bindings_of_block(orelse, out)
        },
        StmtKindView::For { var, body, orelse, .. } => {
            let out = and_binding(found, var);
            let out = bindings_of_stmts(body, 0, out);
            bindings_of_block(orelse, out)
        },
        StmtKindView::Try { body, except, orelse, finalbody } => {
            let out = bindings_of_stmts(body, 0, found);
            let out = match except {
                Some((_, handler)) => bindings_of_stmts(handler, 0, out),
                None => out,
            };
            let out = bindings_of_block(orelse, out);
            bindings_of_block(finalbody, out)
        },
        _ => found,
    }
}

/// See [`bindings_of_stmt`].
pub fn bumped_by_stmt(stmt: &Stmt, found: Vec<String>) -> (r: Vec<String>)
    ensures
        string_list_view(r@) == bindings_of_stmt(stmt@, string_list_view(found@)),
    decreases stmt, 0nat,
{
    proof { unfold_stmt_kind(stmt.kind); }
    match &stmt.kind {
        StmtKind::VarDecl { name, .. } => with_binding(found, name),
        StmtKind::Assign { name, .. } => with_binding(found, name),
        StmtKind::RefDecl { name, .. } => with_binding(found, name),
        StmtKind::Comptime { name, .. } => with_binding(found, name),
        StmtKind::AugAssign { place, .. } => with_target(place, found),
        StmtKind::SetPlace { place, .. } => with_target(place, found),
        StmtKind::Unpack { targets, .. } => with_targets(targets, found),
        StmtKind::If { branches, orelse } => {
            let out = bumped_by_branches(branches, found);
            bumped_by_block(orelse, out)
        },
        StmtKind::While { body, orelse, .. } => {
            let out = bumped_by_stmts(body, found);
            bumped_by_block(orelse, out)
        },
        StmtKind::For { var, body, orelse, .. } => {
            let out = with_binding(found, var);
            let out = bumped_by_stmts(body, out);
            bumped_by_block(orelse, out)
        },
        StmtKind::Try { body, except, orelse, finalbody } => {
            let out = bumped_by_stmts(body, found);
            let out = match except {
                Some((_, handler)) => bumped_by_stmts(handler, out),
                None => out,
            };
            let out = bumped_by_block(orelse, out);
            bumped_by_block(finalbody, out)
        },
        _ => {
            assert(!(stmt.kind@ is VarDecl));
            assert(!(stmt.kind@ is Assign));
            assert(!(stmt.kind@ is RefDecl));
            assert(!(stmt.kind@ is Comptime));
            assert(!(stmt.kind@ is AugAssign));
            assert(!(stmt.kind@ is SetPlace));
            assert(!(stmt.kind@ is Unpack));
            assert(!(stmt.kind@ is If));
            assert(!(stmt.kind@ is While));
            assert(!(stmt.kind@ is For));
            assert(!(stmt.kind@ is Try));
            found
        },
    }
}

#[verifier::opaque]
pub open spec fn and_binding(found: Seq<Seq<char>>, name: Seq<char>) -> Seq<Seq<char>> {
    let out = found;
    let out = out.push(name);
    out
}

/// See [`and_binding`].
pub fn with_binding(found: Vec<String>, name: &String) -> (r: Vec<String>)
    ensures
        string_list_view(r@) == and_binding(string_list_view(found@), name@),
{
    proof { reveal(and_binding); }
    let mut out = found;
    let item = name.clone();
    let ghost before = string_list_view(out@);
    let ghost added = item@;
    out.push(item);
    assert(string_list_view(out@) =~= before.push(added));
    out
}

#[verifier::opaque]
pub open spec fn and_target(target: ExprView, found: Seq<Seq<char>>) -> Seq<Seq<char>> {
    match target.kind {
        ExprKindView::Identifier(name) => and_binding(found, name),
        _ => found,
    }
}

/// See [`and_target`].
pub fn with_target(target: &Expr, found: Vec<String>) -> (r: Vec<String>)
    ensures
        string_list_view(r@) == and_target(target@, string_list_view(found@)),
{
    proof { reveal(and_target); }
    proof { unfold_expr_kind(target.kind); }
    match &target.kind {
        ExprKind::Identifier(name) => with_binding(found, name),
        _ => {
            assert(!(target.kind@ is Identifier));
            found
        },
    }
}

pub open spec fn and_targets(
    targets: Seq<ExprView>,
    i: nat,
    out: Seq<Seq<char>>,
) -> Seq<Seq<char>>
    decreases targets, (targets.len() - i) as nat,
{
    if i >= targets.len() {
        out
    } else {
        let target = targets[i as int];
        let out = and_target(target, out);
        and_targets(targets, i + 1, out)
    }
}

/// See [`and_targets`].
pub fn with_targets(targets: &Vec<Expr>, found: Vec<String>) -> (r: Vec<String>)
    ensures
        string_list_view(r@) == and_targets(expr_list_view(targets@), 0, string_list_view(found@)),
    decreases targets@, 0nat,
{
    let mut out: Vec<String> = found;
    let ghost goal = and_targets(expr_list_view(targets@), 0, string_list_view(found@));
    let mut i: usize = 0;
    while i < targets.len()
        invariant
            i <= targets@.len(),
            expr_list_view(targets@).len() == targets@.len(),
            and_targets(expr_list_view(targets@), i as nat, string_list_view(out@)) == goal,
            goal == and_targets(expr_list_view(targets@), 0, string_list_view(found@)),
        decreases targets@.len() - i,
    {
        let target = &targets[i];
        assert(expr_list_view(targets@)[i as int] == target@);
        out = with_target(target, out);
        i = i + 1;
    }
    out
}

pub open spec fn bindings_of_stmts(
    body: Seq<StmtView>,
    i: nat,
    out: Seq<Seq<char>>,
) -> Seq<Seq<char>>
    decreases body, (body.len() - i) as nat,
{
    if i >= body.len() {
        out
    } else {
        let stmt = body[i as int];
        let out = bindings_of_stmt(stmt, out);
        bindings_of_stmts(body, i + 1, out)
    }
}

/// See [`bindings_of_stmts`].
pub fn bumped_by_stmts(body: &Vec<Stmt>, found: Vec<String>) -> (r: Vec<String>)
    ensures
        string_list_view(r@) == bindings_of_stmts(
            stmt_list_view(body@),
            0,
            string_list_view(found@),
        ),
    decreases body@, 0nat,
{
    let mut out: Vec<String> = found;
    let ghost goal = bindings_of_stmts(stmt_list_view(body@), 0, string_list_view(found@));
    let mut i: usize = 0;
    while i < body.len()
        invariant
            i <= body@.len(),
            stmt_list_view(body@).len() == body@.len(),
            bindings_of_stmts(stmt_list_view(body@), i as nat, string_list_view(out@)) == goal,
            goal == bindings_of_stmts(stmt_list_view(body@), 0, string_list_view(found@)),
        decreases body@.len() - i,
    {
        let stmt = &body[i];
        assert(stmt_list_view(body@)[i as int] == stmt@);
        out = bumped_by_stmt(stmt, out);
        i = i + 1;
    }
    out
}

pub open spec fn bindings_of_branches(
    branches: Seq<(ExprView, Seq<StmtView>)>,
    i: nat,
    out: Seq<Seq<char>>,
) -> Seq<Seq<char>>
    decreases branches, (branches.len() - i) as nat,
{
    if i >= branches.len() {
        out
    } else {
        let branch = branches[i as int];
        let out = bindings_of_stmts(branch.1, 0, out);
        bindings_of_branches(branches, i + 1, out)
    }
}

/// See [`bindings_of_branches`].
pub fn bumped_by_branches(
    branches: &Vec<(Expr, Vec<Stmt>)>,
    found: Vec<String>,
) -> (r: Vec<String>)
    ensures
        string_list_view(r@) == bindings_of_branches(
            branch_list_view(branches@),
            0,
            string_list_view(found@),
        ),
    decreases branches@, 0nat,
{
    let mut out: Vec<String> = found;
    let ghost goal = bindings_of_branches(branch_list_view(branches@), 0, string_list_view(found@));
    let mut i: usize = 0;
    while i < branches.len()
        invariant
            i <= branches@.len(),
            branch_list_view(branches@).len() == branches@.len(),
            bindings_of_branches(
                branch_list_view(branches@),
                i as nat,
                string_list_view(out@),
            ) == goal,
            goal == bindings_of_branches(branch_list_view(branches@), 0, string_list_view(found@)),
        decreases branches@.len() - i,
    {
        let branch = &branches[i];
        assert(branch_list_view(branches@)[i as int].0 =~= branch.0@);
        assert(branch_list_view(branches@)[i as int].1 =~= stmt_list_view(branch.1@));
        out = bumped_by_stmts(&branch.1, out);
        i = i + 1;
    }
    out
}

pub open spec fn bindings_of_block(
    block: Option<Seq<StmtView>>,
    found: Seq<Seq<char>>,
) -> Seq<Seq<char>>
    decreases block, 0nat,
{
    match block {
        Some(body) => bindings_of_stmts(body, 0, found),
        None => found,
    }
}

/// See [`bindings_of_block`].
pub fn bumped_by_block(block: &Option<Vec<Stmt>>, found: Vec<String>) -> (r: Vec<String>)
    ensures
        string_list_view(r@) == bindings_of_block(
            (match block { Some(v) => Some(stmt_list_view(v@)), None => None }),
            string_list_view(found@),
        ),
    decreases block, 0nat,
{
    match block {
        Some(body) => bumped_by_stmts(body, found),
        None => found,
    }
}

pub open spec fn bindings_of_instrs(
    instrs: Seq<HirInstrView>,
    vars: Seq<Seq<char>>,
    i: nat,
    out: Seq<Seq<char>>,
) -> Seq<Seq<char>>
    decreases instrs, (instrs.len() - i) as nat,
{
    if i >= instrs.len() {
        out
    } else {
        let instr = instrs[i as int];
        let out = bindings_of_instr(instr, vars, out);
        bindings_of_instrs(instrs, vars, i + 1, out)
    }
}

/// See [`bindings_of_instrs`].
pub fn bumped_by_instrs(
    instrs: &Vec<HirInstr>,
    vars: &Vec<String>,
    found: Vec<String>,
) -> (r: Vec<String>)
    ensures
        string_list_view(r@) == bindings_of_instrs(
            hir_instr_list_view(instrs@),
            string_list_view(vars@),
            0,
            string_list_view(found@),
        ),
    decreases instrs@, 0nat,
{
    let mut out: Vec<String> = found;
    let ghost goal = bindings_of_instrs(
        hir_instr_list_view(instrs@),
        string_list_view(vars@),
        0,
        string_list_view(found@),
    );
    let mut i: usize = 0;
    while i < instrs.len()
        invariant
            i <= instrs@.len(),
            hir_instr_list_view(instrs@).len() == instrs@.len(),
            bindings_of_instrs(
                hir_instr_list_view(instrs@),
                string_list_view(vars@),
                i as nat,
                string_list_view(out@),
            ) == goal,
            goal == bindings_of_instrs(
                hir_instr_list_view(instrs@),
                string_list_view(vars@),
                0,
                string_list_view(found@),
            ),
        decreases instrs@.len() - i,
    {
        let instr = &instrs[i];
        assert(hir_instr_list_view(instrs@)[i as int] == instr@);
        out = bumped_by_instr(instr, vars, out);
        i = i + 1;
    }
    out
}

#[verifier::opaque]
pub open spec fn bindings_of_instr(
    instr: HirInstrView,
    vars: Seq<Seq<char>>,
    found: Seq<Seq<char>>,
) -> Seq<Seq<char>> {
    match instr {
        HirInstrView::Bind { dest, .. } => {
            let slot = dest;
            let at = slot as usize;
            if at < vars.len() {
                and_binding(found, vars[at as int])
            } else {
                found
            }
        },
        HirInstrView::Stmt(stmt) => bindings_of_stmt(stmt.syntax, found),
        _ => found,
    }
}

/// See [`bindings_of_instr`].
pub fn bumped_by_instr(
    instr: &HirInstr,
    vars: &Vec<String>,
    found: Vec<String>,
) -> (r: Vec<String>)
    ensures
        string_list_view(r@) == bindings_of_instr(
            instr@,
            string_list_view(vars@),
            string_list_view(found@),
        ),
{
    proof { reveal(bindings_of_instr); }
    match instr {
        HirInstr::Bind { dest, .. } => {
            let slot: u32 = *dest;
            let at: usize = slot as usize;
            if at < vars.len() {
                with_binding(found, &vars[at])
            } else {
                found
            }
        },
        HirInstr::Stmt(stmt) => bumped_by_stmt(&stmt.syntax, found),
        _ => {
            assert(!(instr@ is Bind));
            assert(!(instr@ is Stmt));
            found
        },
    }
}

pub open spec fn bindings_of_blocks(
    blocks: Seq<BasicBlockView>,
    vars: Seq<Seq<char>>,
    i: nat,
    out: Seq<Seq<char>>,
) -> Seq<Seq<char>>
    decreases blocks, (blocks.len() - i) as nat,
{
    if i >= blocks.len() {
        out
    } else {
        let block = blocks[i as int];
        let out = bindings_of_instrs(block.instrs, vars, 0, out);
        bindings_of_blocks(blocks, vars, i + 1, out)
    }
}

/// See [`bindings_of_blocks`].
pub fn bumped_by_blocks(blocks: &Vec<BasicBlock>, vars: &Vec<String>) -> (r: Vec<String>)
    ensures
        string_list_view(r@) == bindings_of_blocks(
            basic_block_list_view(blocks@),
            string_list_view(vars@),
            0,
            Seq::<Seq<char>>::empty(),
        ),
    decreases blocks@, 0nat,
{
    let mut out: Vec<String> = Vec::new();
    assert(string_list_view(out@) =~= Seq::<Seq<char>>::empty());
    let ghost goal = bindings_of_blocks(
        basic_block_list_view(blocks@),
        string_list_view(vars@),
        0,
        Seq::<Seq<char>>::empty(),
    );
    let mut i: usize = 0;
    while i < blocks.len()
        invariant
            i <= blocks@.len(),
            basic_block_list_view(blocks@).len() == blocks@.len(),
            bindings_of_blocks(
                basic_block_list_view(blocks@),
                string_list_view(vars@),
                i as nat,
                string_list_view(out@),
            ) == goal,
            goal == bindings_of_blocks(
                basic_block_list_view(blocks@),
                string_list_view(vars@),
                0,
                Seq::<Seq<char>>::empty(),
            ),
        decreases blocks@.len() - i,
    {
        let block = &blocks[i];
        assert(basic_block_list_view(blocks@)[i as int] == block@);
        out = bumped_by_instrs(&block.instrs, vars, out);
        i = i + 1;
    }
    out
}

/// What a nested function captures may change at any of its calls.
pub open spec fn bindings_of_nested(
    nested: Seq<NestedInfoView>,
    i: nat,
    out: Seq<Seq<char>>,
) -> Seq<Seq<char>>
    decreases nested, (nested.len() - i) as nat,
{
    if i >= nested.len() {
        out
    } else {
        let info = nested[i as int];
        let out = bindings_of_captures(info.captures, 0, out);
        bindings_of_nested(nested, i + 1, out)
    }
}

/// See [`bindings_of_nested`].
pub fn bumped_by_nested(nested: &Vec<NestedInfo>, found: Vec<String>) -> (r: Vec<String>)
    ensures
        string_list_view(r@) == bindings_of_nested(
            nested_info_list_view(nested@),
            0,
            string_list_view(found@),
        ),
    decreases nested@, 0nat,
{
    let mut out: Vec<String> = found;
    let ghost goal = bindings_of_nested(
        nested_info_list_view(nested@),
        0,
        string_list_view(found@),
    );
    let mut i: usize = 0;
    while i < nested.len()
        invariant
            i <= nested@.len(),
            nested_info_list_view(nested@).len() == nested@.len(),
            bindings_of_nested(
                nested_info_list_view(nested@),
                i as nat,
                string_list_view(out@),
            ) == goal,
            goal == bindings_of_nested(nested_info_list_view(nested@), 0, string_list_view(found@)),
        decreases nested@.len() - i,
    {
        let info = &nested[i];
        assert(nested_info_list_view(nested@)[i as int] == info@);
        out = bumped_by_captures(&info.captures, out);
        i = i + 1;
    }
    out
}

pub open spec fn bindings_of_captures(
    captures: Seq<CaptureView>,
    i: nat,
    out: Seq<Seq<char>>,
) -> Seq<Seq<char>>
    decreases captures, (captures.len() - i) as nat,
{
    if i >= captures.len() {
        out
    } else {
        let capture = captures[i as int];
        let out = out.push(capture.name);
        let out = out.push(capture.name);
        bindings_of_captures(captures, i + 1, out)
    }
}

/// See [`bindings_of_captures`].
pub fn bumped_by_captures(captures: &Vec<Capture>, found: Vec<String>) -> (r: Vec<String>)
    ensures
        string_list_view(r@) == bindings_of_captures(
            capture_list_view(captures@),
            0,
            string_list_view(found@),
        ),
    decreases captures@, 0nat,
{
    let mut out: Vec<String> = found;
    let ghost goal = bindings_of_captures(
        capture_list_view(captures@),
        0,
        string_list_view(found@),
    );
    let mut i: usize = 0;
    while i < captures.len()
        invariant
            i <= captures@.len(),
            capture_list_view(captures@).len() == captures@.len(),
            bindings_of_captures(
                capture_list_view(captures@),
                i as nat,
                string_list_view(out@),
            ) == goal,
            goal == bindings_of_captures(capture_list_view(captures@), 0, string_list_view(found@)),
        decreases captures@.len() - i,
    {
        let capture = &captures[i];
        assert(capture_list_view(captures@)[i as int] == capture@);
        let item = (&capture.name).clone();
        let ghost before = string_list_view(out@);
        let ghost added = item@;
        out.push(item);
        assert(string_list_view(out@) =~= before.push(added));
        let item2 = (&capture.name).clone();
        let ghost before2 = string_list_view(out@);
        let ghost added2 = item2@;
        out.push(item2);
        assert(string_list_view(out@) =~= before2.push(added2));
        i = i + 1;
    }
    out
}

/// The names that occur more than once.
pub open spec fn repeated(
    names: Seq<Seq<char>>,
    i: nat,
    seen: Seq<Seq<char>>,
    out: Seq<Seq<char>>,
) -> Seq<Seq<char>>
    decreases names, (names.len() - i) as nat,
{
    if i >= names.len() {
        out
    } else {
        let name = names[i as int];
        let out = if seen.contains(name) {
            let out = out.push(name);
            out
        } else {
            out
        };
        let seen = seen.push(name);
        repeated(names, i + 1, seen, out)
    }
}

/// See [`repeated`].
pub fn repeated_names(names: &Vec<String>) -> (r: Vec<String>)
    ensures
        string_list_view(r@) == repeated(
            string_list_view(names@),
            0,
            Seq::<Seq<char>>::empty(),
            Seq::<Seq<char>>::empty(),
        ),
    decreases names@, 0nat,
{
    let mut seen: Vec<String> = Vec::new();
    assert(string_list_view(seen@) =~= Seq::<Seq<char>>::empty());
    let mut out: Vec<String> = Vec::new();
    assert(string_list_view(out@) =~= Seq::<Seq<char>>::empty());
    let ghost goal = repeated(
        string_list_view(names@),
        0,
        Seq::<Seq<char>>::empty(),
        Seq::<Seq<char>>::empty(),
    );
    let mut i: usize = 0;
    while i < names.len()
        invariant
            i <= names@.len(),
            string_list_view(names@).len() == names@.len(),
            repeated(
                string_list_view(names@),
                i as nat,
                string_list_view(seen@),
                string_list_view(out@),
            ) == goal,
            goal == repeated(
                string_list_view(names@),
                0,
                Seq::<Seq<char>>::empty(),
                Seq::<Seq<char>>::empty(),
            ),
        decreases names@.len() - i,
    {
        let name = &names[i];
        assert(string_list_view(names@)[i as int] == name@);
        if contains_name(&seen, name) {
            let item = name.clone();
            let ghost before = string_list_view(out@);
            let ghost added = item@;
            out.push(item);
            assert(string_list_view(out@) =~= before.push(added));
        }
        let item2 = name.clone();
        let ghost before2 = string_list_view(seen@);
        let ghost added2 = item2@;
        seen.push(item2);
        assert(string_list_view(seen@) =~= before2.push(added2));
        i = i + 1;
    }
    out
}

/// The names whose binding may change after the first assignment, or that a nested
/// function captures.
#[verifier::opaque]
pub open spec fn reassigned_in(cfg: CfgView, nested: Seq<NestedInfoView>) -> Seq<Seq<char>> {
    let bound = bindings_of_blocks(cfg.blocks, cfg.vars, 0, Seq::empty());
    let bound = bindings_of_nested(nested, 0, bound);
    repeated(bound, 0, Seq::empty(), Seq::empty())
}

/// See [`reassigned_in`].
pub fn reassigned_names(cfg: &Cfg, nested: &Vec<NestedInfo>) -> (r: Vec<String>)
    ensures
        string_list_view(r@) == reassigned_in(cfg@, nested_info_list_view(nested@)),
{
    proof { reveal(reassigned_in); }
    let bound = bumped_by_blocks(&cfg.blocks, &cfg.vars);
    let bound = bumped_by_nested(nested, bound);
    repeated_names(&bound)
}

/// The parameter slots that hold references.
pub open spec fn slots_of_references(
    references: Seq<bool>,
    n_params: usize,
    i: nat,
    out: Seq<u32>,
    slot: u32,
) -> Seq<u32>
    decreases references, (references.len() - i) as nat,
{
    if i >= references.len() {
        out
    } else {
        let reference = references[i as int];
        if (slot as usize) >= n_params {
            out
        } else {
            let out = if reference {
                let out = out.push(slot);
                out
            } else {
                out
            };
            let slot = following_slot(slot);
            slots_of_references(references, n_params, i + 1, out, slot)
        }
    }
}

/// See [`slots_of_references`].
pub fn reference_slots(references: &Vec<bool>, n_params: usize) -> (r: Vec<u32>)
    ensures
        r@ == slots_of_references(references@, n_params, 0, Seq::<u32>::empty(), 0),
    decreases references@, 0nat,
{
    let mut out: Vec<u32> = Vec::new();
    let mut slot: u32 = 0;
    let ghost goal = slots_of_references(references@, n_params, 0, Seq::<u32>::empty(), 0);
    let mut i: usize = 0;
    while i < references.len()
        invariant
            i <= references@.len(),
            slots_of_references(references@, n_params, i as nat, out@, slot) == goal,
            goal == slots_of_references(references@, n_params, 0, Seq::<u32>::empty(), 0),
        decreases references@.len() - i,
    {
        let reference = &references[i];
        if (slot as usize) >= n_params {
            return out;
        }
        if *reference {
            out.push(slot);
        }
        slot = next_slot(slot);
        i = i + 1;
    }
    out
}

/// Where the flattening of a function starts: the slots of its graph, one block
/// for each block of the graph, and no registers.
#[verifier::opaque]
pub open spec fn function_started(
    cfg: CfgView,
    nested: Seq<NestedInfoView>,
    overloads: OverloadSetsView,
    returns_reference: bool,
    reference_parameters: Seq<bool>,
) -> FlattenView {
    FlattenView {
        blocks: blocks_for(cfg.blocks, 0, Seq::empty()),
        spans: Seq::empty(),
        reg_types: Seq::empty(),
        cur: 0,
        vars: cfg.vars,
        var_types: cfg.var_types,
        owner_vars: Seq::empty(),
        nested,
        overloads,
        checked: cfg.checked_expressions,
        aliases: Seq::empty(),
        runtime_aliases: slots_of_references(
            reference_parameters,
            cfg.n_params,
            0,
            Seq::empty(),
            0,
        ),
        aggregate_loans: Seq::empty(),
        reassigned: reassigned_in(cfg, nested),
        returns_reference,
        complete: cfg.complete,
    }
}

/// See [`function_started`].
pub fn function_start(
    cfg: &Cfg,
    nested: &Vec<NestedInfo>,
    overloads: &OverloadSets,
    returns_reference: bool,
    reference_parameters: &Vec<bool>,
) -> (r: Flatten)
    ensures
        r@ == function_started(
            cfg@,
            nested_info_list_view(nested@),
            overloads@,
            returns_reference,
            reference_parameters@,
        ),
{
    proof { reveal(function_started); }
    let list: Vec<RegOrigin> = Vec::new();
    assert(reg_origin_list_view(list@) =~= Seq::<RegOriginView>::empty());
    let list2: Vec<(u32, Ty)> = Vec::new();
    assert(slot_ty_list_view(list2@) =~= Seq::<(u32, TyView)>::empty());
    let list3: Vec<(OwnerId, u32)> = Vec::new();
    assert(list3@ =~= Seq::<(OwnerId, u32)>::empty());
    let list4: Vec<(u32, Loan)> = Vec::new();
    assert(slot_loan_list_view(list4@) =~= Seq::<(u32, LoanView)>::empty());
    let list5: Vec<(u32, Vec<Loan>)> = Vec::new();
    assert(slot_loans_list_view(list5@) =~= Seq::<(u32, Seq<LoanView>)>::empty());
    let flatten = Flatten {
        blocks: open_blocks(&cfg.blocks),
        spans: list,
        reg_types: list2,
        cur: 0,
        vars: clone_string_list(&cfg.vars),
        var_types: clone_slot_ty_list(&cfg.var_types),
        owner_vars: list3,
        nested: clone_nested_info_list(nested),
        overloads: clone_overload_sets(overloads),
        checked: clone_checked_expr_list(&cfg.checked_expressions),
        aliases: list4,
        runtime_aliases: reference_slots(reference_parameters, cfg.n_params),
        aggregate_loans: list5,
        reassigned: reassigned_names(cfg, nested),
        returns_reference,
        complete: cfg.complete,
    };
    proof { unfold_flatten(flatten); }
    flatten
}

/// How many registers there are.
#[verifier::opaque]
pub open spec fn registers_of(spans: Seq<RegOriginView>) -> u32 {
    if spans.len() < 4294967295 {
        spans.len() as u32
    } else {
        4294967295
    }
}

/// See [`registers_of`].
pub fn register_count(spans: &Vec<RegOrigin>) -> (r: u32)
    ensures
        r == registers_of(reg_origin_list_view(spans@)),
{
    proof { reveal(registers_of); }
    if spans.len() < 4294967295 {
        spans.len() as u32
    } else {
        4294967295
    }
}

/// The flattened function.
#[verifier::opaque]
pub open spec fn function_ended(flat: FlattenView, n_params: usize) -> MirFunctionView {
    MirFunctionView {
        blocks: flat.blocks,
        n_regs: registers_of(flat.spans),
        n_vars: flat.vars.len() as usize,
        var_names: flat.vars,
        n_params,
        param_types: Seq::empty(),
        owned_params: Seq::empty(),
        ref_params: Seq::empty(),
        raises: false,
        ret_ty: None,
        returns_reference: flat.returns_reference,
        spans: SpanTableView { entries: flat.spans },
        reg_types: flat.reg_types,
        complete: flat.complete,
    }
}

/// See [`function_ended`].
pub fn function_end(flat: &Flatten, n_params: usize) -> (r: MirFunction)
    ensures
        r@ == function_ended(flat@, n_params),
{
    proof { reveal(function_ended); }
    let list: Vec<Ty> = Vec::new();
    assert(ty_list_view(list@) =~= Seq::<TyView>::empty());
    let list2: Vec<bool> = Vec::new();
    assert(list2@ =~= Seq::<bool>::empty());
    let list3: Vec<bool> = Vec::new();
    assert(list3@ =~= Seq::<bool>::empty());
    let table = SpanTable { entries: clone_reg_origin_list(&flat.spans) };
    proof { unfold_span_table(table); }
    let function = MirFunction {
        blocks: clone_mir_block_list(&flat.blocks),
        n_regs: register_count(&flat.spans),
        n_vars: flat.vars.len(),
        var_names: clone_string_list(&flat.vars),
        n_params,
        param_types: list,
        owned_params: list2,
        ref_params: list3,
        raises: false,
        ret_ty: None,
        returns_reference: flat.returns_reference,
        spans: table,
        reg_types: clone_slot_ty_list(&flat.reg_types),
        complete: flat.complete,
    };
    proof { unfold_mir_function(function); }
    function
}

/// A control-flow graph as a function of the flat form, with nested functions in
/// scope: a call of one of them goes to the function it was lifted to.
#[verifier::opaque]
pub open spec fn flattened(
    cfg: CfgView,
    nested: Seq<NestedInfoView>,
    overloads: OverloadSetsView,
    returns_reference: bool,
    reference_parameters: Seq<bool>,
) -> MirFunctionView {
    let flat = function_started(cfg, nested, overloads, returns_reference, reference_parameters);
    let flat = lowered_blocks(flat, cfg.blocks, 4294967295, 0, 0);
    function_ended(flat, cfg.n_params)
}

/// See [`flattened`].
pub fn lower_cfg_nested(
    cfg: &Cfg,
    nested: &Vec<NestedInfo>,
    overloads: &OverloadSets,
    returns_reference: bool,
    reference_parameters: &Vec<bool>,
) -> (r: MirFunction)
    ensures
        r@ == flattened(
            cfg@,
            nested_info_list_view(nested@),
            overloads@,
            returns_reference,
            reference_parameters@,
        ),
{
    proof { reveal(flattened); }
    let flat = function_start(cfg, nested, overloads, returns_reference, reference_parameters);
    let flat = flat.lower_blocks(&cfg.blocks, 4294967295);
    function_end(&flat, cfg.n_params)
}

/// A control-flow graph as a function of the flat form. Each block of the graph
/// becomes the block of its number.
#[verifier::opaque]
pub open spec fn flattened_alone(cfg: CfgView) -> MirFunctionView {
    let overloads = OverloadSetsView { functions: Seq::empty() };
    let nested = Seq::<NestedInfoView>::empty();
    let references = Seq::<bool>::empty();
    flattened(cfg, nested, overloads, false, references)
}

/// See [`flattened_alone`].
pub fn lower_cfg(cfg: &Cfg) -> (r: MirFunction)
    ensures
        r@ == flattened_alone(cfg@),
{
    proof { reveal(flattened_alone); }
    let list: Vec<OverloadEntry> = Vec::new();
    assert(overload_entry_list_view(list@) =~= Seq::<OverloadEntryView>::empty());
    let sets = OverloadSets { functions: list };
    proof { unfold_overload_sets(sets); }
    let overloads = sets;
    let nested: Vec<NestedInfo> = Vec::new();
    assert(nested_info_list_view(nested@) =~= Seq::<NestedInfoView>::empty());
    let references: Vec<bool> = Vec::new();
    lower_cfg_nested(cfg, &nested, &overloads, false, &references)
}

} // verus!
