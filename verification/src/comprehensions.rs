//! Flattening of comprehensions.

use crate::ast::{
    CollectionKind, ComprehensionClause, ComprehensionClauseView, Expr, ExprKind, ExprKindView,
    ExprView, comprehension_clause_list_view, unfold_expr_kind,
};
use crate::calls::lowered_value;
use crate::checked::{
    CheckedComprehensionBinding, CheckedComprehensionBindingView, IterationProtocol,
    IterationProtocolView, checked_comprehension_binding_list_view,
};
use crate::exprs::{
    dict_key, dict_value, element_of_list, element_of_set, key_of_dict, list_element,
    lowered_no_value, lowered_opt, set_element, value_of_dict,
};
use crate::flatten::{
    Flatten, FlattenView, at_block, child, child_facts, defined, emitted, ended, fact_adjustments,
    fact_bindings, fact_ty, following_index, fresh_reg, fresh_slot, interned, known_adjustments,
    known_bindings, known_ty, marked_unsupported, next_index, opened, with_opt_var_type,
    with_owner_var, with_var_type,
};
use crate::hir::{HirExpr, HirExprView};
use crate::lower::{loop_protocol, protocol_of};
use crate::mir::{MirInstr, MirInstrView, MirTerm, MirTermView, Reg, UseMode, unfold_mir_instr};
use crate::text::{cat2, cat4, clone_string_list, decimal, opt_view, show_u64, show_usize};
use crate::types::{Ty, TyView, clone_ty};
use vstd::prelude::*;

verus! {

/// A comprehension: an empty collection that its clauses fill.
pub open spec fn lowered_comprehension(
    s: FlattenView,
    e: ExprView,
    h: Option<HirExprView>,
) -> (FlattenView, Reg)
    decreases e, 2nat,
{
    match e.kind {
        ExprKindView::Comprehension { kind, clauses, .. } => {
            let (s, empty) = fresh_reg(s, e.span, e.source, None);
            let ty = known_ty(h);
            let s = lowered_empty(s, empty, kind, ty);
            let (s, collection) = fresh_slot(s);
            let s = with_opt_var_type(s, collection, ty);
            let s = defined(s, collection, empty, ty);
            let bindings = known_bindings(h);
            let (s, ends) = lowered_clauses(s, clauses, bindings, h, 0, Seq::empty(), 0, 0);
            let s = lowered_insertion(s, e, h, collection);
            let s = closed_clauses(s, ends, ends.len() as usize);
            let (s, dest) = fresh_reg(s, e.span, e.source, Some(collection));
            let s = emitted(s, MirInstrView::UseVar { dest, var: collection, mode: UseMode::Move });
            (s, dest)
        },
        _ => lowered_no_value(s, e),
    }
}

#[verifier::opaque]
pub open spec fn lowered_empty(
    s: FlattenView,
    dest: Reg,
    kind: CollectionKind,
    ty: Option<TyView>,
) -> FlattenView {
    let none = Seq::<Reg>::empty();
    let pairs = Seq::<(Reg, Reg)>::empty();
    match kind {
        CollectionKind::List => {
            let s = emitted(
                s,
                MirInstrView::MakeList { dest, elems: none, element_type: element_of_list(ty) },
            );
            s
        },
        CollectionKind::SetOf => {
            let s = emitted(
                s,
                MirInstrView::MakeSet { dest, elems: none, element_type: element_of_set(ty) },
            );
            s
        },
        CollectionKind::Dict => {
            let s = emitted(
                s,
                MirInstrView::MakeDict {
                    dest,
                    entries: pairs,
                    key_type: key_of_dict(ty),
                    value_type: value_of_dict(ty),
                },
            );
            s
        },
    }
}

/// The clauses of a comprehension: nested loops and tests. What ends each is
/// where to jump and where to go on.
pub open spec fn lowered_clauses(
    s: FlattenView,
    clauses: Seq<ComprehensionClauseView>,
    bindings: Seq<CheckedComprehensionBindingView>,
    h: Option<HirExprView>,
    i: nat,
    out: Seq<(usize, usize)>,
    k: usize,
    bound: usize,
) -> (FlattenView, Seq<(usize, usize)>)
    decreases clauses, (clauses.len() - i) as nat,
{
    if i >= clauses.len() {
        (s, out)
    } else {
        let clause = clauses[i as int];
        let (s, end) = lowered_clause(s, clause, bindings, bound, child_facts(h, k));
        let out = out.push(end);
        let k = following_index(k);
        let bound = if (clause matches ComprehensionClauseView::For { .. }) {
            following_index(bound)
        } else {
            bound
        };
        lowered_clauses(s, clauses, bindings, h, i + 1, out, k, bound)
    }
}

pub open spec fn lowered_clause(
    s: FlattenView,
    clause: ComprehensionClauseView,
    bindings: Seq<CheckedComprehensionBindingView>,
    bound: usize,
    h: Option<HirExprView>,
) -> (FlattenView, (usize, usize))
    decreases clause, 0nat,
{
    match clause {
        ComprehensionClauseView::If(condition) => {
            let (s, test) = lowered_value(s, *condition, h);
            let (s, body) = opened(s);
            let (s, continuation) = opened(s);
            let s = ended(
                s,
                MirTermView::Branch { cond: test, then_b: body, else_b: continuation },
            );
            let s = at_block(s, body);
            (s, (continuation, continuation))
        },
        ComprehensionClauseView::For { var, owned, iter } => {
            let count = s.vars.len() as usize;
            let (s, iterator) = interned(s, "$compiter"@ + decimal(count as nat));
            let (s, value) = lowered_value(s, *iter, h);
            let ty = known_ty(h);
            let s = with_opt_var_type(s, iterator, ty);
            let s = defined(s, iterator, value, ty);
            let protocol = protocol_of(known_adjustments(h), owned);
            let (s, (header, exit, element)) = lowered_clause_loop(s, *iter, iterator, protocol);
            let s = bound_element(s, var, bindings, bound, element);
            (s, (header, exit))
        },
    }
}

/// The loop of a clause: its header and exit, and the register of the element.
#[verifier::opaque]
pub open spec fn lowered_clause_loop(
    s: FlattenView,
    iter: ExprView,
    iterator: u32,
    protocol: IterationProtocolView,
) -> (FlattenView, (usize, usize, Reg)) {
    let s = emitted(
        s,
        MirInstrView::GetIter { iter: iterator, mode: protocol.mode, prepare: protocol.prepare },
    );
    let (s, header) = opened(s);
    let (s, body) = opened(s);
    let (s, exit) = opened(s);
    let s = ended(s, MirTermView::Jump(header));
    let s = at_block(s, header);
    let (s, more) = fresh_reg(s, iter.span, iter.source, Some(iterator));
    let s = emitted(
        s,
        MirInstrView::HasNext { dest: more, iter: iterator, method: protocol.has_next },
    );
    let s = ended(s, MirTermView::Branch { cond: more, then_b: body, else_b: exit });
    let s = at_block(s, body);
    let (s, element) = fresh_reg(s, iter.span, iter.source, Some(iterator));
    let s = emitted(s, MirInstrView::Next { dest: element, iter: iterator, method: protocol.next });
    (s, (header, exit, element))
}

/// Bind the element of a clause under the identity the checker gave it.
#[verifier::opaque]
pub open spec fn bound_element(
    s: FlattenView,
    var: Seq<char>,
    bindings: Seq<CheckedComprehensionBindingView>,
    bound: usize,
    element: Reg,
) -> FlattenView {
    if bound < bindings.len() {
        let owner = bindings[bound as int].owner;
        let ty = bindings[bound as int].ty;
        let (s, target) = interned(s, "$comp"@ + var + "$"@ + decimal(owner.0 as u64 as nat));
        let s = with_owner_var(s, owner, target);
        let s = with_var_type(s, target, ty);
        let s = defined(s, target, element, Some(ty));
        s
    } else {
        let s = marked_unsupported(s, "comprehension binder lacks checked metadata"@);
        s
    }
}

/// Insert one element; the key of a dictionary is evaluated first.
pub open spec fn lowered_insertion(
    s: FlattenView,
    e: ExprView,
    h: Option<HirExprView>,
    collection: u32,
) -> FlattenView
    decreases e, 1nat,
{
    match e.kind {
        ExprKindView::Comprehension { key, value, clauses, .. } => {
            let value_at = if key is Some {
                following_index(clauses.len() as usize)
            } else {
                clauses.len() as usize
            };
            let (s, key) = lowered_opt(s, key, child_facts(h, clauses.len() as usize));
            let (s, value) = lowered_value(s, *value, child_facts(h, value_at));
            let s = emitted(s, MirInstrView::CollectionInsert { collection, key, value });
            s
        },
        _ => s,
    }
}

/// End the first `n` clauses, innermost first.
pub open spec fn closed_clauses(
    s: FlattenView,
    ends: Seq<(usize, usize)>,
    n: usize,
) -> FlattenView
    decreases n,
{
    if n > 0 && n <= ends.len() {
        let end = ends[(n - 1) as usize as int];
        let s = ended(s, MirTermView::Jump(end.0));
        let s = at_block(s, end.1);
        let s = closed_clauses(s, ends, (n - 1) as usize);
        s
    } else {
        s
    }
}

impl Flatten {
    /// See [`lowered_comprehension`].
    pub fn comprehension(self, e: &Expr, h: Option<&HirExpr>) -> (r: (Flatten, Reg))
        ensures
            r.0@ == lowered_comprehension(self@, e@, opt_view(h)).0,
            r.1 == lowered_comprehension(self@, e@, opt_view(h)).1,
        decreases e, 2nat,
    {
        let mut this = self;
        proof { unfold_expr_kind(e.kind); }
        match &e.kind {
            ExprKind::Comprehension { kind, clauses, .. } => {
                let (next, empty) = this.fresh(e.span, &e.source, None);
                this = next;
                let ty = fact_ty(h);
                this = this.empty_collection(empty, *kind, &ty);
                let (next2, collection) = this.fresh_var();
                this = next2;
                this = this.set_opt_var_type(collection, &ty);
                this = this.define(collection, empty, ty);
                let bindings = fact_bindings(h);
                let (next3, ends) = this.open_clauses(clauses, &bindings, h);
                this = next3;
                this = this.insertion(e, h, collection);
                this = this.close_clauses(&ends, ends.len());
                let (next4, dest) = this.fresh(e.span, &e.source, Some(collection));
                this = next4;
                let instr = MirInstr::UseVar { dest, var: collection, mode: UseMode::Move };
                proof { unfold_mir_instr(instr); }
                this = this.emit(instr);
                return (this, dest);
            },
            _ => {
                assert(!(e.kind@ is Comprehension));
                return this.no_value(e);
            },
        }
    }

    /// See [`lowered_empty`].
    pub fn empty_collection(self, dest: Reg, kind: CollectionKind, ty: &Option<Ty>) -> (r: Flatten)
        ensures
            r@ == lowered_empty(self@, dest, kind, opt_view(*ty)),
    {
        proof { reveal(lowered_empty); }
        let mut this = self;
        let none: Vec<Reg> = Vec::new();
        let pairs: Vec<(Reg, Reg)> = Vec::new();
        match kind {
            CollectionKind::List => {
                let instr = MirInstr::MakeList { dest, elems: none, element_type: list_element(ty) };
                proof { unfold_mir_instr(instr); }
                return this.emit(instr);
            },
            CollectionKind::SetOf => {
                let instr2 = MirInstr::MakeSet { dest, elems: none, element_type: set_element(ty) };
                proof { unfold_mir_instr(instr2); }
                return this.emit(instr2);
            },
            CollectionKind::Dict => {
                let instr3 = MirInstr::MakeDict {
                    dest,
                    entries: pairs,
                    key_type: dict_key(ty),
                    value_type: dict_value(ty),
                };
                proof { unfold_mir_instr(instr3); }
                return this.emit(instr3);
            },
        }
    }

    /// See [`lowered_clauses`].
    pub fn open_clauses(
        self,
        clauses: &Vec<ComprehensionClause>,
        bindings: &Vec<CheckedComprehensionBinding>,
        h: Option<&HirExpr>,
    ) -> (r: (Flatten, Vec<(usize, usize)>))
        ensures
            r.0@ == lowered_clauses(
                self@,
                comprehension_clause_list_view(clauses@),
                checked_comprehension_binding_list_view(bindings@),
                opt_view(h),
                0,
                Seq::<(usize, usize)>::empty(),
                0,
                0,
            ).0,
            r.1@ == lowered_clauses(
                self@,
                comprehension_clause_list_view(clauses@),
                checked_comprehension_binding_list_view(bindings@),
                opt_view(h),
                0,
                Seq::<(usize, usize)>::empty(),
                0,
                0,
            ).1,
        decreases clauses@, 0nat,
    {
        let mut this = self;
        let mut out: Vec<(usize, usize)> = Vec::new();
        let mut k: usize = 0;
        let mut bound: usize = 0;
        let ghost goal = lowered_clauses(
            self@,
            comprehension_clause_list_view(clauses@),
            checked_comprehension_binding_list_view(bindings@),
            opt_view(h),
            0,
            Seq::<(usize, usize)>::empty(),
            0,
            0,
        );
        let mut i: usize = 0;
        while i < clauses.len()
            invariant
                i <= clauses@.len(),
                comprehension_clause_list_view(clauses@).len() == clauses@.len(),
                lowered_clauses(
                    this@,
                    comprehension_clause_list_view(clauses@),
                    checked_comprehension_binding_list_view(bindings@),
                    opt_view(h),
                    i as nat,
                    out@,
                    k,
                    bound,
                ) == goal,
                goal == lowered_clauses(
                    self@,
                    comprehension_clause_list_view(clauses@),
                    checked_comprehension_binding_list_view(bindings@),
                    opt_view(h),
                    0,
                    Seq::<(usize, usize)>::empty(),
                    0,
                    0,
                ),
            decreases clauses@.len() - i,
        {
            let clause = &clauses[i];
            assert(comprehension_clause_list_view(clauses@)[i as int] == clause@);
            let (next, end) = this.open_clause(clause, bindings, bound, child(h, k));
            this = next;
            out.push(end);
            k = next_index(k);
            bound = if matches!(clause, ComprehensionClause::For { .. }) {
                next_index(bound)
            } else {
                bound
            };
            i = i + 1;
        }
        (this, out)
    }

    /// See [`lowered_clause`].
    pub fn open_clause(
        self,
        clause: &ComprehensionClause,
        bindings: &Vec<CheckedComprehensionBinding>,
        bound: usize,
        h: Option<&HirExpr>,
    ) -> (r: (Flatten, (usize, usize)))
        ensures
            r.0@ == lowered_clause(
                self@,
                clause@,
                checked_comprehension_binding_list_view(bindings@),
                bound,
                opt_view(h),
            ).0,
            r.1 == lowered_clause(
                self@,
                clause@,
                checked_comprehension_binding_list_view(bindings@),
                bound,
                opt_view(h),
            ).1,
        decreases clause, 0nat,
    {
        let mut this = self;
        match clause {
            ComprehensionClause::If(condition) => {
                let (next, test) = this.expr(&**condition, h);
                this = next;
                let (next2, body) = this.new_block();
                this = next2;
                let (next3, continuation) = this.new_block();
                this = next3;
                this = this.end(MirTerm::Branch { cond: test, then_b: body, else_b: continuation });
                this = this.goto(body);
                return (this, (continuation, continuation));
            },
            ComprehensionClause::For { var, owned, iter } => {
                let count: usize = this.vars.len();
                let (next4, iterator) = this.var(&cat2("$compiter", show_usize(count).as_str()));
                this = next4;
                let (next5, value) = this.expr(&**iter, h);
                this = next5;
                let ty = fact_ty(h);
                this = this.set_opt_var_type(iterator, &ty);
                this = this.define(iterator, value, ty);
                let protocol = loop_protocol(&fact_adjustments(h), *owned);
                let (next6, (header, exit, element)) = this.clause_loop(&**iter, iterator, &protocol);
                this = next6;
                this = this.bind_element(var, bindings, bound, element);
                return (this, (header, exit));
            },
        }
    }

    /// See [`lowered_clause_loop`].
    pub fn clause_loop(
        self,
        iter: &Expr,
        iterator: u32,
        protocol: &IterationProtocol,
    ) -> (r: (Flatten, (usize, usize, Reg)))
        ensures
            r.0@ == lowered_clause_loop(self@, iter@, iterator, protocol@).0,
            r.1 == lowered_clause_loop(self@, iter@, iterator, protocol@).1,
    {
        proof { reveal(lowered_clause_loop); }
        let mut this = self;
        let instr = MirInstr::GetIter {
            iter: iterator,
            mode: protocol.mode,
            prepare: clone_string_list(&protocol.prepare),
        };
        proof { unfold_mir_instr(instr); }
        this = this.emit(instr);
        let (next, header) = this.new_block();
        this = next;
        let (next2, body) = this.new_block();
        this = next2;
        let (next3, exit) = this.new_block();
        this = next3;
        this = this.end(MirTerm::Jump(header));
        this = this.goto(header);
        let (next4, more) = this.fresh(iter.span, &iter.source, Some(iterator));
        this = next4;
        let instr2 = MirInstr::HasNext {
            dest: more,
            iter: iterator,
            method: (match (&protocol.has_next) { Some(y) => Some(y.clone()), None => None }),
        };
        proof { unfold_mir_instr(instr2); }
        this = this.emit(instr2);
        this = this.end(MirTerm::Branch { cond: more, then_b: body, else_b: exit });
        this = this.goto(body);
        let (next5, element) = this.fresh(iter.span, &iter.source, Some(iterator));
        this = next5;
        let instr3 = MirInstr::Next {
            dest: element,
            iter: iterator,
            method: (match (&protocol.next) { Some(y) => Some(y.clone()), None => None }),
        };
        proof { unfold_mir_instr(instr3); }
        this = this.emit(instr3);
        return (this, (header, exit, element));
    }

    /// See [`bound_element`].
    pub fn bind_element(
        self,
        var: &String,
        bindings: &Vec<CheckedComprehensionBinding>,
        bound: usize,
        element: Reg,
    ) -> (r: Flatten)
        ensures
            r@ == bound_element(
                self@,
                var@,
                checked_comprehension_binding_list_view(bindings@),
                bound,
                element,
            ),
    {
        proof { reveal(bound_element); }
        let mut this = self;
        if bound < bindings.len() {
            let owner = bindings[bound].owner;
            let ty = clone_ty((&bindings[bound].ty));
            let (next, target) = this.var(&cat4("$comp", var.as_str(), "$", show_u64(owner.0 as u64).as_str()));
            this = next;
            this = this.set_owner_var(owner, target);
            this = this.set_var_type(target, clone_ty(&ty));
            return this.define(target, element, Some(ty));
        } else {
            return this.unsupported("comprehension binder lacks checked metadata".to_owned());
        }
    }

    /// See [`lowered_insertion`].
    pub fn insertion(self, e: &Expr, h: Option<&HirExpr>, collection: u32) -> (r: Flatten)
        ensures
            r@ == lowered_insertion(self@, e@, opt_view(h), collection),
        decreases e, 1nat,
    {
        let mut this = self;
        proof { unfold_expr_kind(e.kind); }
        match &e.kind {
            ExprKind::Comprehension { key, value, clauses, .. } => {
                let value_at: usize = if key.is_some() {
                    next_index(clauses.len())
                } else {
                    clauses.len()
                };
                let (next, key) = this.opt_expr(key, child(h, clauses.len()));
                this = next;
                let (next2, value) = this.expr(&**value, child(h, value_at));
                this = next2;
                let instr = MirInstr::CollectionInsert { collection, key, value };
                proof { unfold_mir_instr(instr); }
                return this.emit(instr);
            },
            _ => {
                assert(!(e.kind@ is Comprehension));
                return this;
            },
        }
    }

    /// See [`closed_clauses`].
    pub fn close_clauses(self, ends: &Vec<(usize, usize)>, n: usize) -> (r: Flatten)
        ensures
            r@ == closed_clauses(self@, ends@, n),
        decreases n,
    {
        let mut this = self;
        if n > 0 && n <= ends.len() {
            let end = ends[n - 1];
            this = this.end(MirTerm::Jump(end.0));
            this = this.goto(end.1);
            return this.close_clauses(ends, n - 1);
        } else {
            return this;
        }
    }
}

} // verus!
