//! Flattening of statements.

use crate::ast::{
    Expr, ExprKind, ExprKindView, ExprView, InfixOp, KwArg, KwArgView, Stmt, StmtKind,
    StmtKindView, StmtView, SubscriptArg, SubscriptArgView, branch_list_view, clone_expr,
    clone_expr_list, expr_list_view, kw_arg_list_view, stmt_list_view, subscript_arg_list_view,
    unfold_expr_kind, unfold_stmt_kind,
};
use crate::calls::{emitted_binary, lowered_value};
use crate::exprs::lowered_subscripts;
use crate::flatten::{
    Flatten, FlattenView, Loan, LoanView, alias_of, bears_origin, borrow_among, child, child_facts,
    contains_slot, defined, emitted, fact_adjustments, find_alias, find_borrow, find_slices,
    following_index, fresh_reg, holds_slot, interned, is_origin_bearing_pointer, is_reference,
    is_reference_ty, known_adjustments, loan_list_view, marked_unsupported, next_index,
    place_of_handle, resolved_callable, resolved_target, slices_among, with_alias, with_loans,
    with_opt_var_type, with_runtime_alias,
};
use crate::hir::{HirExpr, HirExprView, Terminator, TerminatorView, hir_expr_list_view};
use crate::mir::{
    Const, ConstView, MirInstr, MirInstrView, MirPlace, MirPlaceView, MirSubscriptArg,
    MirSubscriptArgView, MirTerm, MirTermView, Reg, accessed_through, clone_mir_place,
    mir_subscript_arg_list_view, root_place, through, unfold_mir_instr, whole_place,
};
use crate::places::{lowered_borrows, lowered_deref, lowered_place, lowered_simple_place};
use crate::text::opt_view;
use crate::types::{Ty, TyView, clone_ty};
use vstd::prelude::*;

verus! {

/// The facts of the `k`th expression a statement owns.
#[verifier::opaque]
pub open spec fn facts_of_root(facts: Seq<HirExprView>, k: usize) -> Option<HirExprView> {
    if k < facts.len() {
        Some(facts[k as int])
    } else {
        None
    }
}

/// See [`facts_of_root`].
pub fn root_facts(facts: &Vec<HirExpr>, k: usize) -> (r: Option<&HirExpr>)
    ensures
        opt_view(r) == facts_of_root(hir_expr_list_view(facts@), k),
{
    proof { reveal(facts_of_root); }
    if k < facts.len() {
        Some(&facts[k])
    } else {
        None
    }
}

/// Whether statements leave an enclosing loop by `break` or `continue`. Loops
/// among them are left out, and so are nested declarations.
pub open spec fn leaves_loop(body: Seq<StmtView>, i: nat) -> bool
    decreases body, (body.len() - i) as nat,
{
    if i >= body.len() {
        false
    } else {
        let stmt = body[i as int];
        if stmt_leaves_loop(stmt) {
            true
        } else {
            leaves_loop(body, i + 1)
        }
    }
}

/// See [`leaves_loop`].
pub fn region_crosses_control(body: &Vec<Stmt>) -> (r: bool)
    ensures
        r == leaves_loop(stmt_list_view(body@), 0),
    decreases body@, 0nat,
{
    let ghost goal = leaves_loop(stmt_list_view(body@), 0);
    let mut i: usize = 0;
    while i < body.len()
        invariant
            i <= body@.len(),
            stmt_list_view(body@).len() == body@.len(),
            leaves_loop(stmt_list_view(body@), i as nat) == goal,
            goal == leaves_loop(stmt_list_view(body@), 0),
        decreases body@.len() - i,
    {
        let stmt = &body[i];
        assert(stmt_list_view(body@)[i as int] == stmt@);
        if stmt_crosses_control(stmt) {
            return true;
        }
        i = i + 1;
    }
    false
}

pub open spec fn stmt_leaves_loop(stmt: StmtView) -> bool
    decreases stmt, 0nat,
{
    match stmt.kind {
        StmtKindView::Break => true,
        StmtKindView::Continue => true,
        StmtKindView::If { branches, orelse } => branches_leave_loop(branches, 0) || block_leaves_loop(orelse),
        StmtKindView::Try { body, except, orelse, finalbody } => {
            let handler = match except {
                Some((_, handler)) => leaves_loop(handler, 0),
                None => false,
            };
            leaves_loop(body, 0) || handler || block_leaves_loop(orelse) || block_leaves_loop(finalbody)
        },
        _ => false,
    }
}

/// See [`stmt_leaves_loop`].
pub fn stmt_crosses_control(stmt: &Stmt) -> (r: bool)
    ensures
        r == stmt_leaves_loop(stmt@),
    decreases stmt, 0nat,
{
    proof { unfold_stmt_kind(stmt.kind); }
    match &stmt.kind {
        StmtKind::Break => true,
        StmtKind::Continue => true,
        StmtKind::If { branches, orelse } => branches_cross(branches) || block_crosses(orelse),
        StmtKind::Try { body, except, orelse, finalbody } => {
            let handler = match except {
                Some((_, handler)) => region_crosses_control(handler),
                None => false,
            };
            region_crosses_control(body) || handler || block_crosses(orelse) || block_crosses(finalbody)
        },
        _ => {
            assert(!(stmt.kind@ is Break));
            assert(!(stmt.kind@ is Continue));
            assert(!(stmt.kind@ is If));
            assert(!(stmt.kind@ is Try));
            false
        },
    }
}

pub open spec fn branches_leave_loop(branches: Seq<(ExprView, Seq<StmtView>)>, i: nat) -> bool
    decreases branches, (branches.len() - i) as nat,
{
    if i >= branches.len() {
        false
    } else {
        let branch = branches[i as int];
        if leaves_loop(branch.1, 0) {
            true
        } else {
            branches_leave_loop(branches, i + 1)
        }
    }
}

/// See [`branches_leave_loop`].
pub fn branches_cross(branches: &Vec<(Expr, Vec<Stmt>)>) -> (r: bool)
    ensures
        r == branches_leave_loop(branch_list_view(branches@), 0),
    decreases branches@, 0nat,
{
    let ghost goal = branches_leave_loop(branch_list_view(branches@), 0);
    let mut i: usize = 0;
    while i < branches.len()
        invariant
            i <= branches@.len(),
            branch_list_view(branches@).len() == branches@.len(),
            branches_leave_loop(branch_list_view(branches@), i as nat) == goal,
            goal == branches_leave_loop(branch_list_view(branches@), 0),
        decreases branches@.len() - i,
    {
        let branch = &branches[i];
        assert(branch_list_view(branches@)[i as int].0 =~= branch.0@);
        assert(branch_list_view(branches@)[i as int].1 =~= stmt_list_view(branch.1@));
        if region_crosses_control(&branch.1) {
            return true;
        }
        i = i + 1;
    }
    false
}

pub open spec fn block_leaves_loop(block: Option<Seq<StmtView>>) -> bool
    decreases block, 0nat,
{
    match block {
        Some(body) => leaves_loop(body, 0),
        None => false,
    }
}

/// See [`block_leaves_loop`].
pub fn block_crosses(block: &Option<Vec<Stmt>>) -> (r: bool)
    ensures
        r == block_leaves_loop(
            (match block { Some(v) => Some(stmt_list_view(v@)), None => None }),
        ),
    decreases block, 0nat,
{
    match block {
        Some(body) => region_crosses_control(body),
        None => false,
    }
}

/// The expressions a call hands on: its receiver and arguments.
#[verifier::opaque]
pub open spec fn candidates_of(value: ExprView) -> Seq<ExprView> {
    match value.kind {
        ExprKindView::Call { args, kwargs, .. } => and_kwarg_values(kwargs, 0, args),
        ExprKindView::MethodCall { object, args, kwargs, .. } => {
            let first = seq![*object];
            let values = and_args(args, 0, first);
            and_kwarg_values(kwargs, 0, values)
        },
        _ => Seq::empty(),
    }
}

/// See [`candidates_of`].
pub fn loan_candidates(value: &Expr) -> (r: Vec<Expr>)
    ensures
        expr_list_view(r@) == candidates_of(value@),
{
    proof { reveal(candidates_of); }
    proof { unfold_expr_kind(value.kind); }
    match &value.kind {
        ExprKind::Call { args, kwargs, .. } => with_kwarg_values(kwargs, clone_expr_list(args)),
        ExprKind::MethodCall { object, args, kwargs, .. } => {
            let item = clone_expr((&**object));
            let ghost seen = item@;
            let list = vec![item];
            assert(expr_list_view(list@) =~= seq![seen]);
            let first = list;
            let values = with_args(args, first);
            with_kwarg_values(kwargs, values)
        },
        _ => {
            assert(!(value.kind@ is Call));
            assert(!(value.kind@ is MethodCall));
            let list2: Vec<Expr> = Vec::new();
            assert(expr_list_view(list2@) =~= Seq::<ExprView>::empty());
            list2
        },
    }
}

pub open spec fn and_kwarg_values(
    kwargs: Seq<KwArgView>,
    i: nat,
    out: Seq<ExprView>,
) -> Seq<ExprView>
    decreases kwargs, (kwargs.len() - i) as nat,
{
    if i >= kwargs.len() {
        out
    } else {
        let kwarg = kwargs[i as int];
        let out = out.push(kwarg.value);
        and_kwarg_values(kwargs, i + 1, out)
    }
}

/// See [`and_kwarg_values`].
pub fn with_kwarg_values(kwargs: &Vec<KwArg>, found: Vec<Expr>) -> (r: Vec<Expr>)
    ensures
        expr_list_view(r@) == and_kwarg_values(
            kw_arg_list_view(kwargs@),
            0,
            expr_list_view(found@),
        ),
    decreases kwargs@, 0nat,
{
    let mut out: Vec<Expr> = found;
    let ghost goal = and_kwarg_values(kw_arg_list_view(kwargs@), 0, expr_list_view(found@));
    let mut i: usize = 0;
    while i < kwargs.len()
        invariant
            i <= kwargs@.len(),
            kw_arg_list_view(kwargs@).len() == kwargs@.len(),
            and_kwarg_values(kw_arg_list_view(kwargs@), i as nat, expr_list_view(out@)) == goal,
            goal == and_kwarg_values(kw_arg_list_view(kwargs@), 0, expr_list_view(found@)),
        decreases kwargs@.len() - i,
    {
        let kwarg = &kwargs[i];
        assert(kw_arg_list_view(kwargs@)[i as int] == kwarg@);
        let item = clone_expr(&kwarg.value);
        let ghost before = expr_list_view(out@);
        let ghost added = item@;
        out.push(item);
        assert(expr_list_view(out@) =~= before.push(added));
        i = i + 1;
    }
    out
}

pub open spec fn and_args(args: Seq<ExprView>, i: nat, out: Seq<ExprView>) -> Seq<ExprView>
    decreases args, (args.len() - i) as nat,
{
    if i >= args.len() {
        out
    } else {
        let arg = args[i as int];
        let out = out.push(arg);
        and_args(args, i + 1, out)
    }
}

/// See [`and_args`].
pub fn with_args(args: &Vec<Expr>, found: Vec<Expr>) -> (r: Vec<Expr>)
    ensures
        expr_list_view(r@) == and_args(expr_list_view(args@), 0, expr_list_view(found@)),
    decreases args@, 0nat,
{
    let mut out: Vec<Expr> = found;
    let ghost goal = and_args(expr_list_view(args@), 0, expr_list_view(found@));
    let mut i: usize = 0;
    while i < args.len()
        invariant
            i <= args@.len(),
            expr_list_view(args@).len() == args@.len(),
            and_args(expr_list_view(args@), i as nat, expr_list_view(out@)) == goal,
            goal == and_args(expr_list_view(args@), 0, expr_list_view(found@)),
        decreases args@.len() - i,
    {
        let arg = &args[i];
        assert(expr_list_view(args@)[i as int] == arg@);
        let item = clone_expr(arg);
        let ghost before = expr_list_view(out@);
        let ghost added = item@;
        out.push(item);
        assert(expr_list_view(out@) =~= before.push(added));
        i = i + 1;
    }
    out
}

#[verifier::opaque]
pub open spec fn written_as_place(value: ExprView) -> bool {
    match value.kind {
        ExprKindView::Identifier(_) => true,
        ExprKindView::Member { .. } => true,
        ExprKindView::Index { .. } => true,
        ExprKindView::TypeApply { .. } => true,
        _ => false,
    }
}

/// See [`written_as_place`].
pub fn is_place_syntax(value: &Expr) -> (r: bool)
    ensures
        r == written_as_place(value@),
{
    proof { reveal(written_as_place); }
    proof { unfold_expr_kind(value.kind); }
    match &value.kind {
        ExprKind::Identifier(_) => true,
        ExprKind::Member { .. } => true,
        ExprKind::Index { .. } => true,
        ExprKind::TypeApply { .. } => true,
        _ => {
            assert(!(value.kind@ is Identifier));
            assert(!(value.kind@ is Member));
            assert(!(value.kind@ is Index));
            assert(!(value.kind@ is TypeApply));
            false
        },
    }
}

/// A local reference to what a call returns: it holds a handle, and borrows
/// what the call was given.
#[verifier::opaque]
pub open spec fn lowered_runtime_ref(
    s: FlattenView,
    reference: u32,
    value: ExprView,
    h: Option<HirExprView>,
) -> FlattenView {
    let (s, src) = lowered_value(s, value, h);
    let s = with_runtime_alias(s, reference);
    let s = defined(s, reference, src, None);
    let candidates = candidates_of(value);
    let s = lowered_loans(s, candidates, reference, h, 0, 0);
    s
}

pub open spec fn lowered_loans(
    s: FlattenView,
    candidates: Seq<ExprView>,
    reference: u32,
    h: Option<HirExprView>,
    i: nat,
    k: usize,
) -> FlattenView
    decreases candidates, (candidates.len() - i) as nat,
{
    if i >= candidates.len() {
        s
    } else {
        let candidate = candidates[i as int];
        let (s, place) = lowered_simple_place(s, candidate, child_facts(h, k));
        let s = lowered_loan(s, reference, place, candidate);
        let k = following_index(k);
        lowered_loans(s, candidates, reference, h, i + 1, k)
    }
}

#[verifier::opaque]
pub open spec fn lowered_loan(
    s: FlattenView,
    reference: u32,
    place: Option<MirPlaceView>,
    at: ExprView,
) -> FlattenView {
    match place {
        Some(place) => {
            let (s, marker) = fresh_reg(s, at.span, at.source, Some(place.root));
            let s = emitted(s, MirInstrView::BeginLoan { reference, place, mutable: true, marker });
            s
        },
        None => s,
    }
}

/// A local reference declaration. A place is borrowed and from then on stood
/// for by the reference.
#[verifier::opaque]
pub open spec fn lowered_ref_stmt(
    s: FlattenView,
    stmt: StmtView,
    name: Seq<char>,
    value: ExprView,
    h: Option<HirExprView>,
) -> FlattenView {
    let (s, reference) = interned(s, name);
    if written_as_place(value) {
        let (s, place) = lowered_place(s, value, h);
        let s = with_alias(s, reference, LoanView { place, mutable: true });
        let (s, marker) = fresh_reg(s, stmt.span, stmt.module, Some(place.root));
        let s = emitted(s, MirInstrView::BeginLoan { reference, place, mutable: true, marker });
        s
    } else {
        let s = lowered_runtime_ref(s, reference, value, h);
        s
    }
}

/// An assignment to a slice or a subscript with several arguments; whether the
/// target is one.
#[verifier::opaque]
pub open spec fn lowered_subscript_set(
    s: FlattenView,
    target: ExprView,
    h: Option<HirExprView>,
    value: Reg,
) -> (FlattenView, bool) {
    match target.kind {
        ExprKindView::Slice { object, lower, upper, step } => {
            let s = match slices_among(known_adjustments(h), 0) {
                Some((kinds, keyword)) => {
                    let whole = seq![SubscriptArgView::Slice { lower, upper, step }];
                    let (s, args) = lowered_subscripts(s, whole, kinds, h, 0, Seq::empty(), 1, 0);
                    let s = lowered_multi_set(s, *object, h, args, value, keyword);
                    s
                },
                None => {
                    let s = marked_no_descriptors(s);
                    s
                },
            };
            (s, true)
        },
        ExprKindView::MultiIndex { object, args } => {
            let s = match slices_among(known_adjustments(h), 0) {
                Some((kinds, keyword)) => {
                    let (s, args) = lowered_subscripts(s, args, kinds, h, 0, Seq::empty(), 1, 0);
                    let s = lowered_multi_set(s, *object, h, args, value, keyword);
                    s
                },
                None => {
                    let s = marked_no_descriptors(s);
                    s
                },
            };
            (s, true)
        },
        _ => (s, false),
    }
}

#[verifier::opaque]
pub open spec fn marked_no_descriptors(s: FlattenView) -> FlattenView {
    let s = marked_unsupported(s, "checked subscript assignment lacks descriptor metadata"@);
    s
}

#[verifier::opaque]
pub open spec fn lowered_multi_set(
    s: FlattenView,
    object: ExprView,
    h: Option<HirExprView>,
    args: Seq<MirSubscriptArgView>,
    value: Reg,
    keyword: Option<Seq<char>>,
) -> FlattenView {
    let (s, receiver) = lowered_place(s, object, child_facts(h, 0));
    let s = emitted(
        s,
        MirInstrView::MultiSet {
            receiver_place: receiver,
            args,
            value,
            value_keyword: keyword,
            resolved: resolved_target(h),
        },
    );
    s
}

/// The place behind a pointer that a target dereferences.
#[verifier::opaque]
pub open spec fn lowered_target_place(
    s: FlattenView,
    target: ExprView,
    h: Option<HirExprView>,
) -> (FlattenView, Option<MirPlaceView>) {
    match target.kind {
        ExprKindView::Index { object, .. } => lowered_deref(s, *object, child_facts(h, 0)),
        _ => (s, None),
    }
}

/// The handle of a pointer that a target dereferences.
#[verifier::opaque]
pub open spec fn lowered_target_handle(
    s: FlattenView,
    target: ExprView,
    h: Option<HirExprView>,
) -> (FlattenView, Option<Reg>) {
    match target.kind {
        ExprKindView::Index { object, .. } => if bears_origin(child_facts(h, 0)) {
            let (s, reference) = lowered_value(s, *object, child_facts(h, 0));
            (s, Some(reference))
        } else {
            (s, None)
        },
        _ => (s, None),
    }
}

/// An assignment to a place.
#[verifier::opaque]
pub open spec fn lowered_set_place(
    s: FlattenView,
    target: ExprView,
    value: ExprView,
    facts: Seq<HirExprView>,
) -> FlattenView {
    let (s, src) = lowered_value(s, value, facts_of_root(facts, 1));
    let (s, done) = lowered_subscript_set(s, target, facts_of_root(facts, 0), src);
    if !done {
        let (s, behind) = lowered_target_place(s, target, facts_of_root(facts, 0));
        match behind {
            Some(place) => {
                let s = emitted(s, MirInstrView::Store { place, src });
                s
            },
            None => {
                let s = lowered_set_direct(s, target, src, facts);
                s
            },
        }
    } else {
        s
    }
}

#[verifier::opaque]
pub open spec fn lowered_set_direct(
    s: FlattenView,
    target: ExprView,
    src: Reg,
    facts: Seq<HirExprView>,
) -> FlattenView {
    let (s, handle) = lowered_target_handle(s, target, facts_of_root(facts, 0));
    match handle {
        Some(reference) => {
            let s = emitted(s, MirInstrView::WriteRef { reference, value: src });
            s
        },
        None => {
            let (s, place) = lowered_place(s, target, facts_of_root(facts, 0));
            if is_reference_ty(place.ty) && borrow_among(
                known_adjustments(facts_of_root(facts, 1)),
                0,
            ) is Some {
                let s = emitted(s, MirInstrView::StoreRef { place, reference: src });
                s
            } else {
                let s = emitted(s, MirInstrView::Store { place, src });
                s
            }
        },
    }
}

/// An augmented assignment: the target is read, combined and written back, and
/// its parts are evaluated once.
#[verifier::opaque]
pub open spec fn lowered_aug(
    s: FlattenView,
    target: ExprView,
    op: InfixOp,
    value: ExprView,
    facts: Seq<HirExprView>,
) -> FlattenView {
    match target.kind {
        ExprKindView::Identifier(name) => {
            let s = lowered_aug_var(s, target, name, op, value, facts);
            s
        },
        _ => {
            let s = lowered_aug_place(s, target, op, value, facts);
            s
        },
    }
}

#[verifier::opaque]
pub open spec fn lowered_aug_var(
    s: FlattenView,
    target: ExprView,
    name: Seq<char>,
    op: InfixOp,
    value: ExprView,
    facts: Seq<HirExprView>,
) -> FlattenView {
    let (s, var) = interned(s, name);
    let (s, cur) = lowered_value(s, target, facts_of_root(facts, 0));
    let (s, rhs) = lowered_value(s, value, facts_of_root(facts, 1));
    let (s, res) = emitted_binary(s, target, op, cur, rhs);
    if holds_slot(s.runtime_aliases, var, 0) {
        let (s, handle) = fresh_reg(s, target.span, target.source, Some(var));
        let place = place_of_handle(s, var);
        let s = emitted(s, MirInstrView::MakeRef { dest: handle, place });
        let s = emitted(s, MirInstrView::WriteRef { reference: handle, value: res });
        s
    } else {
        match alias_of(s.aliases, var) {
            Some(loan) => {
                let s = emitted(
                    s,
                    MirInstrView::Store { place: accessed_through(loan.place, var), src: res },
                );
                s
            },
            None => {
                let s = defined(s, var, res, None);
                s
            },
        }
    }
}

#[verifier::opaque]
pub open spec fn lowered_aug_place(
    s: FlattenView,
    target: ExprView,
    op: InfixOp,
    value: ExprView,
    facts: Seq<HirExprView>,
) -> FlattenView {
    let (s, behind) = lowered_target_place(s, target, facts_of_root(facts, 0));
    match behind {
        Some(place) => {
            let root = place.root;
            let s = lowered_aug_store(s, target, place, Some(root), op, value, facts);
            s
        },
        None => {
            let (s, handle) = lowered_target_handle(s, target, facts_of_root(facts, 0));
            match handle {
                Some(reference) => {
                    let s = lowered_aug_handle(s, target, reference, op, value, facts);
                    s
                },
                None => {
                    let (s, place) = lowered_place(s, target, facts_of_root(facts, 0));
                    let s = lowered_aug_store(s, target, place, None, op, value, facts);
                    s
                },
            }
        },
    }
}

#[verifier::opaque]
pub open spec fn lowered_aug_store(
    s: FlattenView,
    target: ExprView,
    place: MirPlaceView,
    root: Option<u32>,
    op: InfixOp,
    value: ExprView,
    facts: Seq<HirExprView>,
) -> FlattenView {
    let (s, cur) = fresh_reg(s, target.span, target.source, root);
    let s = emitted(s, MirInstrView::LoadPlace { dest: cur, place });
    let (s, rhs) = lowered_value(s, value, facts_of_root(facts, 1));
    let (s, res) = emitted_binary(s, target, op, cur, rhs);
    let s = emitted(s, MirInstrView::Store { place, src: res });
    s
}

#[verifier::opaque]
pub open spec fn lowered_aug_handle(
    s: FlattenView,
    target: ExprView,
    reference: Reg,
    op: InfixOp,
    value: ExprView,
    facts: Seq<HirExprView>,
) -> FlattenView {
    let (s, cur) = fresh_reg(s, target.span, target.source, None);
    let s = emitted(s, MirInstrView::ReadRef { dest: cur, reference });
    let (s, rhs) = lowered_value(s, value, facts_of_root(facts, 1));
    let (s, res) = emitted_binary(s, target, op, cur, rhs);
    let s = emitted(s, MirInstrView::WriteRef { reference, value: res });
    s
}

/// Tuple unpacking: the tuple is evaluated once, then each target is bound to
/// its element.
#[verifier::opaque]
pub open spec fn lowered_unpack(
    s: FlattenView,
    targets: Seq<ExprView>,
    value: ExprView,
    facts: Seq<HirExprView>,
) -> FlattenView {
    let (s, tuple) = lowered_value(s, value, facts_of_root(facts, targets.len() as usize));
    let s = lowered_targets(s, targets, tuple, facts, 0, 0);
    s
}

pub open spec fn lowered_targets(
    s: FlattenView,
    targets: Seq<ExprView>,
    tuple: Reg,
    facts: Seq<HirExprView>,
    i: nat,
    k: usize,
) -> FlattenView
    decreases targets, (targets.len() - i) as nat,
{
    if i >= targets.len() {
        s
    } else {
        let target = targets[i as int];
        let s = lowered_target(s, target, tuple, k, facts);
        let k = following_index(k);
        lowered_targets(s, targets, tuple, facts, i + 1, k)
    }
}

#[verifier::opaque]
pub open spec fn lowered_target(
    s: FlattenView,
    target: ExprView,
    tuple: Reg,
    k: usize,
    facts: Seq<HirExprView>,
) -> FlattenView {
    let (s, at) = fresh_reg(s, target.span, target.source, None);
    let s = emitted(s, MirInstrView::Const { dest: at, k: ConstView::Int(k as i64) });
    let (s, element) = fresh_reg(s, target.span, target.source, None);
    let s = emitted(s, MirInstrView::Index { dest: element, base: tuple, index: at });
    match target.kind {
        ExprKindView::Identifier(name) => {
            let (s, var) = interned(s, name);
            let s = defined(s, var, element, None);
            s
        },
        _ => {
            let (s, place) = lowered_place(s, target, facts_of_root(facts, k));
            let s = emitted(s, MirInstrView::Store { place, src: element });
            s
        },
    }
}

/// A binding: a write through a local reference, or a definition that carries
/// the loans of an aggregate.
#[verifier::opaque]
pub open spec fn lowered_bind(
    s: FlattenView,
    dest: u32,
    expr: HirExprView,
    binding_ty: Option<TyView>,
) -> FlattenView {
    let (s, src) = lowered_value(s, expr.syntax, Some(expr));
    let ty = match expr.ty {
        Some(ty) => Some(ty),
        None => binding_ty,
    };
    let s = with_opt_var_type(s, dest, ty);
    match alias_of(s.aliases, dest) {
        Some(loan) => {
            let s = emitted(
                s,
                MirInstrView::Store { place: accessed_through(loan.place, dest), src },
            );
            s
        },
        None => if holds_slot(s.runtime_aliases, dest, 0) {
            let (s, handle) = fresh_reg(s, expr.syntax.span, expr.syntax.source, Some(dest));
            let place = accessed_through(whole_place(dest, expr.ty), dest);
            let s = emitted(s, MirInstrView::MakeRef { dest: handle, place });
            let s = emitted(s, MirInstrView::WriteRef { reference: handle, value: src });
            s
        } else {
            let s = defined(s, dest, src, binding_ty);
            let s = lowered_carried_loans(s, dest, expr);
            s
        },
    }
}

#[verifier::opaque]
pub open spec fn lowered_carried_loans(
    s: FlattenView,
    dest: u32,
    expr: HirExprView,
) -> FlattenView {
    let (s, loans) = lowered_borrows(s, expr.syntax, Some(expr));
    let s = begun_loans(s, loans, dest, expr.syntax, 0);
    let s = with_loans(s, dest, loans);
    s
}

pub open spec fn begun_loans(
    s: FlattenView,
    loans: Seq<LoanView>,
    reference: u32,
    at: ExprView,
    i: nat,
) -> FlattenView
    decreases loans, (loans.len() - i) as nat,
{
    if i >= loans.len() {
        s
    } else {
        let loan = loans[i as int];
        let (s, marker) = fresh_reg(s, at.span, at.source, Some(loan.place.root));
        let s = emitted(
            s,
            MirInstrView::BeginLoan { reference, place: loan.place, mutable: loan.mutable, marker },
        );
        begun_loans(s, loans, reference, at, i + 1)
    }
}

/// How a block ends. Conditions and results are evaluated in the block.
#[verifier::opaque]
pub open spec fn lowered_term(
    s: FlattenView,
    term: Option<TerminatorView>,
) -> (FlattenView, MirTermView) {
    match term {
        Some(term) => match term {
            TerminatorView::Jump(target) => (s, MirTermView::Jump(target)),
            TerminatorView::Branch { cond, then_b, else_b } => {
                let (s, test) = lowered_value(s, cond.syntax, Some(cond));
                (s, MirTermView::Branch { cond: test, then_b, else_b })
            },
            TerminatorView::Return(value) => {
                let (s, reg) = lowered_returned(s, value);
                (s, MirTermView::Return(reg))
            },
            TerminatorView::FallOff => (s, MirTermView::FallOff),
            TerminatorView::EscapeJump(target) => (
                s,
                MirTermView::EscapeJump { target, cleanup: Seq::empty() },
            ),
        },
        None => (s, MirTermView::FallOff),
    }
}

/// The result of a function. One that returns a reference returns a handle.
#[verifier::opaque]
pub open spec fn lowered_returned(
    s: FlattenView,
    value: Option<HirExprView>,
) -> (FlattenView, Option<Reg>) {
    match value {
        Some(value) => if s.returns_reference {
            let (s, place) = lowered_place(s, value.syntax, Some(value));
            let (s, dest) = fresh_reg(s, value.syntax.span, value.syntax.source, Some(place.root));
            let s = emitted(s, MirInstrView::MakeRef { dest, place });
            (s, Some(dest))
        } else {
            let (s, reg) = lowered_value(s, value.syntax, Some(value));
            (s, Some(reg))
        },
        None => (s, None),
    }
}

impl Flatten {
    /// See [`lowered_runtime_ref`].
    pub fn runtime_ref_decl(self, reference: u32, value: &Expr, h: Option<&HirExpr>) -> (r: Flatten)
        ensures
            r@ == lowered_runtime_ref(self@, reference, value@, opt_view(h)),
    {
        proof { reveal(lowered_runtime_ref); }
        let mut this = self;
        let (next, src) = this.expr(value, h);
        this = next;
        this = this.add_runtime_alias(reference);
        this = this.define(reference, src, None);
        let candidates = loan_candidates(value);
        return this.loan_all(&candidates, reference, h);
    }

    /// See [`lowered_loans`].
    pub fn loan_all(
        self,
        candidates: &Vec<Expr>,
        reference: u32,
        h: Option<&HirExpr>,
    ) -> (r: Flatten)
        ensures
            r@ == lowered_loans(self@, expr_list_view(candidates@), reference, opt_view(h), 0, 0),
        decreases candidates@, 0nat,
    {
        let mut this = self;
        let mut k: usize = 0;
        let ghost goal = lowered_loans(
            self@,
            expr_list_view(candidates@),
            reference,
            opt_view(h),
            0,
            0,
        );
        let mut i: usize = 0;
        while i < candidates.len()
            invariant
                i <= candidates@.len(),
                expr_list_view(candidates@).len() == candidates@.len(),
                lowered_loans(
                    this@,
                    expr_list_view(candidates@),
                    reference,
                    opt_view(h),
                    i as nat,
                    k,
                ) == goal,
                goal == lowered_loans(self@, expr_list_view(candidates@), reference, opt_view(h), 0, 0),
            decreases candidates@.len() - i,
        {
            let candidate = &candidates[i];
            assert(expr_list_view(candidates@)[i as int] == candidate@);
            let (next, place) = this.simple_place(candidate, child(h, k));
            this = next;
            this = this.loan_to(reference, place, candidate);
            k = next_index(k);
            i = i + 1;
        }
        this
    }

    /// See [`lowered_loan`].
    pub fn loan_to(self, reference: u32, place: Option<MirPlace>, at: &Expr) -> (r: Flatten)
        ensures
            r@ == lowered_loan(self@, reference, opt_view(place), at@),
    {
        proof { reveal(lowered_loan); }
        let mut this = self;
        match place {
            Some(place) => {
                let (next, marker) = this.fresh(at.span, &at.source, Some(place.root));
                this = next;
                let instr = MirInstr::BeginLoan { reference, place, mutable: true, marker };
                proof { unfold_mir_instr(instr); }
                return this.emit(instr);
            },
            None => {
                return this;
            },
        }
    }

    /// See [`lowered_ref_stmt`].
    pub fn ref_decl(
        self,
        stmt: &Stmt,
        name: &String,
        value: &Expr,
        h: Option<&HirExpr>,
    ) -> (r: Flatten)
        ensures
            r@ == lowered_ref_stmt(self@, stmt@, name@, value@, opt_view(h)),
    {
        proof { reveal(lowered_ref_stmt); }
        let mut this = self;
        let (next, reference) = this.var(name);
        this = next;
        if is_place_syntax(value) {
            let (next2, place) = this.place(value, h);
            this = next2;
            this = this.set_alias(reference, Loan { place: clone_mir_place(&place), mutable: true });
            let (next3, marker) = this.fresh(stmt.span, &stmt.module, Some(place.root));
            this = next3;
            let instr = MirInstr::BeginLoan { reference, place, mutable: true, marker };
            proof { unfold_mir_instr(instr); }
            return this.emit(instr);
        } else {
            return this.runtime_ref_decl(reference, value, h);
        }
    }

    /// See [`lowered_subscript_set`].
    pub fn subscript_set(
        self,
        target: &Expr,
        h: Option<&HirExpr>,
        value: Reg,
    ) -> (r: (Flatten, bool))
        ensures
            r.0@ == lowered_subscript_set(self@, target@, opt_view(h), value).0,
            r.1 == lowered_subscript_set(self@, target@, opt_view(h), value).1,
    {
        proof { reveal(lowered_subscript_set); }
        let mut this = self;
        proof { unfold_expr_kind(target.kind); }
        match &target.kind {
            ExprKind::Slice { object, lower, upper, step } => {
                match find_slices(&fact_adjustments(h)) {
                    Some((kinds, keyword)) => {
                        let item = SubscriptArg::Slice {
                            lower: (
                                match lower {
                                    Some(y) => Some(Box::new(clone_expr((&**y)))),
                                    None => None,
                                }
                            ),
                            upper: (
                                match upper {
                                    Some(y) => Some(Box::new(clone_expr((&**y)))),
                                    None => None,
                                }
                            ),
                            step: (
                                match step {
                                    Some(y) => Some(Box::new(clone_expr((&**y)))),
                                    None => None,
                                }
                            ),
                        };
                        let ghost seen = item@;
                        let list = vec![item];
                        assert(subscript_arg_list_view(list@) =~= seq![seen]);
                        let whole = list;
                        let (next, args) = this.subscript_args(&whole, &kinds, h);
                        this = next;
                        this = this.multi_set(&**object, h, args, value, keyword);
                    },
                    None => {
                        this = this.no_descriptors();
                    },
                }
                return (this, true);
            },
            ExprKind::MultiIndex { object, args } => {
                match find_slices(&fact_adjustments(h)) {
                    Some((kinds, keyword)) => {
                        let (next2, args) = this.subscript_args(args, &kinds, h);
                        this = next2;
                        this = this.multi_set(&**object, h, args, value, keyword);
                    },
                    None => {
                        this = this.no_descriptors();
                    },
                }
                return (this, true);
            },
            _ => {
                assert(!(target.kind@ is Slice));
                assert(!(target.kind@ is MultiIndex));
                return (this, false);
            },
        }
    }

    /// See [`marked_no_descriptors`].
    pub fn no_descriptors(self) -> (r: Flatten)
        ensures
            r@ == marked_no_descriptors(self@),
    {
        proof { reveal(marked_no_descriptors); }
        let mut this = self;
        return this.unsupported("checked subscript assignment lacks descriptor metadata".to_owned());
    }

    /// See [`lowered_multi_set`].
    pub fn multi_set(
        self,
        object: &Expr,
        h: Option<&HirExpr>,
        args: Vec<MirSubscriptArg>,
        value: Reg,
        keyword: Option<String>,
    ) -> (r: Flatten)
        ensures
            r@ == lowered_multi_set(
                self@,
                object@,
                opt_view(h),
                mir_subscript_arg_list_view(args@),
                value,
                opt_view(keyword),
            ),
    {
        proof { reveal(lowered_multi_set); }
        let mut this = self;
        let (next, receiver) = this.place(object, child(h, 0));
        this = next;
        let instr = MirInstr::MultiSet {
            receiver_place: receiver,
            args,
            value,
            value_keyword: keyword,
            resolved: resolved_callable(h),
        };
        proof { unfold_mir_instr(instr); }
        return this.emit(instr);
    }

    /// See [`lowered_target_place`].
    pub fn target_place(
        self,
        target: &Expr,
        h: Option<&HirExpr>,
    ) -> (r: (Flatten, Option<MirPlace>))
        ensures
            r.0@ == lowered_target_place(self@, target@, opt_view(h)).0,
            opt_view(r.1) == lowered_target_place(self@, target@, opt_view(h)).1,
    {
        proof { reveal(lowered_target_place); }
        let mut this = self;
        proof { unfold_expr_kind(target.kind); }
        match &target.kind {
            ExprKind::Index { object, .. } => {
                return this.pointer_deref_place(&**object, child(h, 0));
            },
            _ => {
                assert(!(target.kind@ is Index));
                return (this, None);
            },
        }
    }

    /// See [`lowered_target_handle`].
    pub fn target_handle(self, target: &Expr, h: Option<&HirExpr>) -> (r: (Flatten, Option<Reg>))
        ensures
            r.0@ == lowered_target_handle(self@, target@, opt_view(h)).0,
            r.1 == lowered_target_handle(self@, target@, opt_view(h)).1,
    {
        proof { reveal(lowered_target_handle); }
        let mut this = self;
        proof { unfold_expr_kind(target.kind); }
        match &target.kind {
            ExprKind::Index { object, .. } => {
                if is_origin_bearing_pointer(child(h, 0)) {
                    let (next, reference) = this.expr(&**object, child(h, 0));
                    this = next;
                    return (this, Some(reference));
                } else {
                    return (this, None);
                }
            },
            _ => {
                assert(!(target.kind@ is Index));
                return (this, None);
            },
        }
    }

    /// See [`lowered_set_place`].
    pub fn set_place(self, target: &Expr, value: &Expr, facts: &Vec<HirExpr>) -> (r: Flatten)
        ensures
            r@ == lowered_set_place(self@, target@, value@, hir_expr_list_view(facts@)),
    {
        proof { reveal(lowered_set_place); }
        let mut this = self;
        let (next, src) = this.expr(value, root_facts(facts, 1));
        this = next;
        let (next2, done) = this.subscript_set(target, root_facts(facts, 0), src);
        this = next2;
        if !done {
            let (next3, behind) = this.target_place(target, root_facts(facts, 0));
            this = next3;
            match behind {
                Some(place) => {
                    let instr = MirInstr::Store { place, src };
                    proof { unfold_mir_instr(instr); }
                    return this.emit(instr);
                },
                None => {
                    return this.set_direct(target, src, facts);
                },
            }
        } else {
            return this;
        }
    }

    /// See [`lowered_set_direct`].
    pub fn set_direct(self, target: &Expr, src: Reg, facts: &Vec<HirExpr>) -> (r: Flatten)
        ensures
            r@ == lowered_set_direct(self@, target@, src, hir_expr_list_view(facts@)),
    {
        proof { reveal(lowered_set_direct); }
        let mut this = self;
        let (next, handle) = this.target_handle(target, root_facts(facts, 0));
        this = next;
        match handle {
            Some(reference) => {
                let instr = MirInstr::WriteRef { reference, value: src };
                proof { unfold_mir_instr(instr); }
                return this.emit(instr);
            },
            None => {
                let (next2, place) = this.place(target, root_facts(facts, 0));
                this = next2;
                if is_reference(&place.ty) && find_borrow(
                    &fact_adjustments(root_facts(facts, 1))
                ).is_some() {
                    let instr2 = MirInstr::StoreRef { place, reference: src };
                    proof { unfold_mir_instr(instr2); }
                    return this.emit(instr2);
                } else {
                    let instr3 = MirInstr::Store { place, src };
                    proof { unfold_mir_instr(instr3); }
                    return this.emit(instr3);
                }
            },
        }
    }

    /// See [`lowered_aug`].
    pub fn aug_assign(
        self,
        target: &Expr,
        op: InfixOp,
        value: &Expr,
        facts: &Vec<HirExpr>,
    ) -> (r: Flatten)
        ensures
            r@ == lowered_aug(self@, target@, op, value@, hir_expr_list_view(facts@)),
    {
        proof { reveal(lowered_aug); }
        let mut this = self;
        proof { unfold_expr_kind(target.kind); }
        match &target.kind {
            ExprKind::Identifier(name) => {
                return this.aug_var(target, name, op, value, facts);
            },
            _ => {
                assert(!(target.kind@ is Identifier));
                return this.aug_place(target, op, value, facts);
            },
        }
    }

    /// See [`lowered_aug_var`].
    pub fn aug_var(
        self,
        target: &Expr,
        name: &String,
        op: InfixOp,
        value: &Expr,
        facts: &Vec<HirExpr>,
    ) -> (r: Flatten)
        ensures
            r@ == lowered_aug_var(self@, target@, name@, op, value@, hir_expr_list_view(facts@)),
    {
        proof { reveal(lowered_aug_var); }
        let mut this = self;
        let (next, var) = this.var(name);
        this = next;
        let (next2, cur) = this.expr(target, root_facts(facts, 0));
        this = next2;
        let (next3, rhs) = this.expr(value, root_facts(facts, 1));
        this = next3;
        let (next4, res) = this.binary(target, op, cur, rhs);
        this = next4;
        if contains_slot(&this.runtime_aliases, var) {
            let (next5, handle) = this.fresh(target.span, &target.source, Some(var));
            this = next5;
            let place = this.handle_place(var);
            let instr = MirInstr::MakeRef { dest: handle, place };
            proof { unfold_mir_instr(instr); }
            this = this.emit(instr);
            let instr2 = MirInstr::WriteRef { reference: handle, value: res };
            proof { unfold_mir_instr(instr2); }
            return this.emit(instr2);
        } else {
            match find_alias(&this.aliases, var) {
                Some(loan) => {
                    let instr3 = MirInstr::Store { place: through(loan.place, var), src: res };
                    proof { unfold_mir_instr(instr3); }
                    return this.emit(instr3);
                },
                None => {
                    return this.define(var, res, None);
                },
            }
        }
    }

    /// See [`lowered_aug_place`].
    pub fn aug_place(
        self,
        target: &Expr,
        op: InfixOp,
        value: &Expr,
        facts: &Vec<HirExpr>,
    ) -> (r: Flatten)
        ensures
            r@ == lowered_aug_place(self@, target@, op, value@, hir_expr_list_view(facts@)),
    {
        proof { reveal(lowered_aug_place); }
        let mut this = self;
        let (next, behind) = this.target_place(target, root_facts(facts, 0));
        this = next;
        match behind {
            Some(place) => {
                let root: u32 = place.root;
                return this.aug_store(target, place, Some(root), op, value, facts);
            },
            None => {
                let (next2, handle) = this.target_handle(target, root_facts(facts, 0));
                this = next2;
                match handle {
                    Some(reference) => {
                        return this.aug_handle(target, reference, op, value, facts);
                    },
                    None => {
                        let (next3, place) = this.place(target, root_facts(facts, 0));
                        this = next3;
                        return this.aug_store(target, place, None, op, value, facts);
                    },
                }
            },
        }
    }

    /// See [`lowered_aug_store`].
    pub fn aug_store(
        self,
        target: &Expr,
        place: MirPlace,
        root: Option<u32>,
        op: InfixOp,
        value: &Expr,
        facts: &Vec<HirExpr>,
    ) -> (r: Flatten)
        ensures
            r@ == lowered_aug_store(
                self@,
                target@,
                place@,
                root,
                op,
                value@,
                hir_expr_list_view(facts@),
            ),
    {
        proof { reveal(lowered_aug_store); }
        let mut this = self;
        let (next, cur) = this.fresh(target.span, &target.source, root);
        this = next;
        let instr = MirInstr::LoadPlace { dest: cur, place: clone_mir_place(&place) };
        proof { unfold_mir_instr(instr); }
        this = this.emit(instr);
        let (next2, rhs) = this.expr(value, root_facts(facts, 1));
        this = next2;
        let (next3, res) = this.binary(target, op, cur, rhs);
        this = next3;
        let instr2 = MirInstr::Store { place, src: res };
        proof { unfold_mir_instr(instr2); }
        return this.emit(instr2);
    }

    /// See [`lowered_aug_handle`].
    pub fn aug_handle(
        self,
        target: &Expr,
        reference: Reg,
        op: InfixOp,
        value: &Expr,
        facts: &Vec<HirExpr>,
    ) -> (r: Flatten)
        ensures
            r@ == lowered_aug_handle(
                self@,
                target@,
                reference,
                op,
                value@,
                hir_expr_list_view(facts@),
            ),
    {
        proof { reveal(lowered_aug_handle); }
        let mut this = self;
        let (next, cur) = this.fresh(target.span, &target.source, None);
        this = next;
        let instr = MirInstr::ReadRef { dest: cur, reference };
        proof { unfold_mir_instr(instr); }
        this = this.emit(instr);
        let (next2, rhs) = this.expr(value, root_facts(facts, 1));
        this = next2;
        let (next3, res) = this.binary(target, op, cur, rhs);
        this = next3;
        let instr2 = MirInstr::WriteRef { reference, value: res };
        proof { unfold_mir_instr(instr2); }
        return this.emit(instr2);
    }

    /// See [`lowered_unpack`].
    pub fn unpack(self, targets: &Vec<Expr>, value: &Expr, facts: &Vec<HirExpr>) -> (r: Flatten)
        ensures
            r@ == lowered_unpack(
                self@,
                expr_list_view(targets@),
                value@,
                hir_expr_list_view(facts@),
            ),
    {
        proof { reveal(lowered_unpack); }
        let mut this = self;
        let (next, tuple) = this.expr(value, root_facts(facts, targets.len()));
        this = next;
        return this.unpack_targets(targets, tuple, facts);
    }

    /// See [`lowered_targets`].
    pub fn unpack_targets(
        self,
        targets: &Vec<Expr>,
        tuple: Reg,
        facts: &Vec<HirExpr>,
    ) -> (r: Flatten)
        ensures
            r@ == lowered_targets(
                self@,
                expr_list_view(targets@),
                tuple,
                hir_expr_list_view(facts@),
                0,
                0,
            ),
        decreases targets@, 0nat,
    {
        let mut this = self;
        let mut k: usize = 0;
        let ghost goal = lowered_targets(
            self@,
            expr_list_view(targets@),
            tuple,
            hir_expr_list_view(facts@),
            0,
            0,
        );
        let mut i: usize = 0;
        while i < targets.len()
            invariant
                i <= targets@.len(),
                expr_list_view(targets@).len() == targets@.len(),
                lowered_targets(
                    this@,
                    expr_list_view(targets@),
                    tuple,
                    hir_expr_list_view(facts@),
                    i as nat,
                    k,
                ) == goal,
                goal == lowered_targets(
                    self@,
                    expr_list_view(targets@),
                    tuple,
                    hir_expr_list_view(facts@),
                    0,
                    0,
                ),
            decreases targets@.len() - i,
        {
            let target = &targets[i];
            assert(expr_list_view(targets@)[i as int] == target@);
            this = this.unpack_target(target, tuple, k, facts);
            k = next_index(k);
            i = i + 1;
        }
        this
    }

    /// See [`lowered_target`].
    pub fn unpack_target(
        self,
        target: &Expr,
        tuple: Reg,
        k: usize,
        facts: &Vec<HirExpr>,
    ) -> (r: Flatten)
        ensures
            r@ == lowered_target(self@, target@, tuple, k, hir_expr_list_view(facts@)),
    {
        proof { reveal(lowered_target); }
        let mut this = self;
        let (next, at) = this.fresh(target.span, &target.source, None);
        this = next;
        let instr = MirInstr::Const { dest: at, k: Const::Int(k as i64) };
        proof { unfold_mir_instr(instr); }
        this = this.emit(instr);
        let (next2, element) = this.fresh(target.span, &target.source, None);
        this = next2;
        let instr2 = MirInstr::Index { dest: element, base: tuple, index: at };
        proof { unfold_mir_instr(instr2); }
        this = this.emit(instr2);
        proof { unfold_expr_kind(target.kind); }
        match &target.kind {
            ExprKind::Identifier(name) => {
                let (next3, var) = this.var(name);
                this = next3;
                return this.define(var, element, None);
            },
            _ => {
                assert(!(target.kind@ is Identifier));
                let (next4, place) = this.place(target, root_facts(facts, k));
                this = next4;
                let instr3 = MirInstr::Store { place, src: element };
                proof { unfold_mir_instr(instr3); }
                return this.emit(instr3);
            },
        }
    }

    /// See [`lowered_bind`].
    pub fn bind(self, dest: u32, expr: &HirExpr, binding_ty: &Option<Ty>) -> (r: Flatten)
        ensures
            r@ == lowered_bind(self@, dest, expr@, opt_view(*binding_ty)),
    {
        proof { reveal(lowered_bind); }
        let mut this = self;
        let (next, src) = this.expr(&expr.syntax, Some(expr));
        this = next;
        let ty = match &expr.ty {
            Some(ty) => Some(clone_ty(ty)),
            None => (match binding_ty { Some(y) => Some(clone_ty(y)), None => None }),
        };
        this = this.set_opt_var_type(dest, &ty);
        match find_alias(&this.aliases, dest) {
            Some(loan) => {
                let instr = MirInstr::Store { place: through(loan.place, dest), src };
                proof { unfold_mir_instr(instr); }
                return this.emit(instr);
            },
            None => {
                if contains_slot(&this.runtime_aliases, dest) {
                    let (next2, handle) = this.fresh(expr.syntax.span, &expr.syntax.source, Some(dest));
                    this = next2;
                    let place = through(
                        root_place(
                            dest,
                            (match (&expr.ty) { Some(y) => Some(clone_ty(y)), None => None }),
                        ),
                        dest,
                    );
                    let instr2 = MirInstr::MakeRef { dest: handle, place };
                    proof { unfold_mir_instr(instr2); }
                    this = this.emit(instr2);
                    let instr3 = MirInstr::WriteRef { reference: handle, value: src };
                    proof { unfold_mir_instr(instr3); }
                    return this.emit(instr3);
                } else {
                    this = this.define(
                        dest,
                        src,
                        (match binding_ty { Some(y) => Some(clone_ty(y)), None => None }),
                    );
                    return this.carry_loans(dest, expr);
                }
            },
        }
    }

    /// See [`lowered_carried_loans`].
    pub fn carry_loans(self, dest: u32, expr: &HirExpr) -> (r: Flatten)
        ensures
            r@ == lowered_carried_loans(self@, dest, expr@),
    {
        proof { reveal(lowered_carried_loans); }
        let mut this = self;
        let (next, loans) = this.aggregate_borrows(&expr.syntax, Some(expr));
        this = next;
        this = this.begin_loans(&loans, dest, &expr.syntax);
        return this.set_loans(dest, loans);
    }

    /// See [`begun_loans`].
    pub fn begin_loans(self, loans: &Vec<Loan>, reference: u32, at: &Expr) -> (r: Flatten)
        ensures
            r@ == begun_loans(self@, loan_list_view(loans@), reference, at@, 0),
        decreases loans@, 0nat,
    {
        let mut this = self;
        let ghost goal = begun_loans(self@, loan_list_view(loans@), reference, at@, 0);
        let mut i: usize = 0;
        while i < loans.len()
            invariant
                i <= loans@.len(),
                loan_list_view(loans@).len() == loans@.len(),
                begun_loans(this@, loan_list_view(loans@), reference, at@, i as nat) == goal,
                goal == begun_loans(self@, loan_list_view(loans@), reference, at@, 0),
            decreases loans@.len() - i,
        {
            let loan = &loans[i];
            assert(loan_list_view(loans@)[i as int] == loan@);
            let (next, marker) = this.fresh(at.span, &at.source, Some(loan.place.root));
            this = next;
            let instr = MirInstr::BeginLoan {
                reference,
                place: clone_mir_place(&loan.place),
                mutable: loan.mutable,
                marker,
            };
            proof { unfold_mir_instr(instr); }
            this = this.emit(instr);
            i = i + 1;
        }
        this
    }

    /// See [`lowered_term`].
    pub fn lower_term(self, term: &Option<Terminator>) -> (r: (Flatten, MirTerm))
        ensures
            r.0@ == lowered_term(self@, opt_view(*term)).0,
            r.1@ == lowered_term(self@, opt_view(*term)).1,
    {
        proof { reveal(lowered_term); }
        let mut this = self;
        match term {
            Some(term) => {
                match term {
                    Terminator::Jump(target) => {
                        return (this, MirTerm::Jump(*target));
                    },
                    Terminator::Branch { cond, then_b, else_b } => {
                        let (next, test) = this.expr(&cond.syntax, Some(cond));
                        this = next;
                        return (this, MirTerm::Branch { cond: test, then_b: *then_b, else_b: *else_b });
                    },
                    Terminator::Return(value) => {
                        let (next2, reg) = this.returned(value);
                        this = next2;
                        return (this, MirTerm::Return(reg));
                    },
                    Terminator::FallOff => {
                        return (this, MirTerm::FallOff);
                    },
                    Terminator::EscapeJump(target) => {
                        let list: Vec<u32> = Vec::new();
                        assert(list@ =~= Seq::<u32>::empty());
                        return (this, MirTerm::EscapeJump { target: *target, cleanup: list });
                    },
                }
            },
            None => {
                return (this, MirTerm::FallOff);
            },
        }
    }

    /// See [`lowered_returned`].
    pub fn returned(self, value: &Option<HirExpr>) -> (r: (Flatten, Option<Reg>))
        ensures
            r.0@ == lowered_returned(self@, opt_view(*value)).0,
            r.1 == lowered_returned(self@, opt_view(*value)).1,
    {
        proof { reveal(lowered_returned); }
        let mut this = self;
        match value {
            Some(value) => {
                if this.returns_reference {
                    let (next, place) = this.place(&value.syntax, Some(value));
                    this = next;
                    let (next2, dest) = this.fresh(
                        value.syntax.span,
                        &value.syntax.source,
                        Some(place.root),
                    );
                    this = next2;
                    let instr = MirInstr::MakeRef { dest, place };
                    proof { unfold_mir_instr(instr); }
                    this = this.emit(instr);
                    return (this, Some(dest));
                } else {
                    let (next3, reg) = this.expr(&value.syntax, Some(value));
                    this = next3;
                    return (this, Some(reg));
                }
            },
            None => {
                return (this, None);
            },
        }
    }
}

} // verus!
