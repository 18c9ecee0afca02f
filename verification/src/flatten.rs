//! The cursor that flattens expressions into three-address code.

use crate::ast::{
    Capture, CaptureKind, CaptureView, Dtype, Expr, ExprView, Param, SliceKind, capture_list_view,
    clone_capture_list,
};
use crate::checked::{
    CheckedComprehensionBinding, CheckedComprehensionBindingView, CheckedExpr, CheckedExprView,
    ExplicitDestroy, OverloadEntry, OverloadEntryView, OverloadSets, OverloadSetsView,
    SemanticAdjustment, SemanticAdjustmentView, checked_comprehension_binding_list_view,
    checked_expr_list_view, clone_checked_comprehension_binding_list, clone_semantic_adjustment,
    clone_semantic_adjustment_list, overload_entry_list_view, overload_sets_view,
    semantic_adjustment_list_view, unfold_semantic_adjustment,
};
use crate::hir::{HirExpr, HirExprView};
use crate::mir::{
    Const, ConstView, MirBlock, MirBlockView, MirClosureCapture, MirClosureCaptureView, MirInstr,
    MirInstrView, MirPlace, MirPlaceView, MirTerm, MirTermView, Reg, RegOrigin, RegOriginView,
    UseMode, accessed_through, clone_mir_place, mir_block_list_view, mir_closure_capture_list_view,
    mir_instr_list_view, mir_place_view, reg_origin_list_view, root_place, through,
    unfold_mir_block, unfold_mir_instr, whole_place,
};
use crate::origin::{OwnerId, PointerOrigin, PointerOriginView};
use crate::scopes::{find_slot, slot_of};
use crate::text::{
    cat2, cat4, clone_opt_string, contains_name, copy_vec, decimal, opt_view, same_string,
    same_text, show_usize, string_list_view,
};
use crate::token::Span;
use crate::types::{
    Ty, TyView, clone_ty, clone_ty_list, slot_ty_list_view, ty_list_view, unfold_ty,
};
use vstd::prelude::*;

verus! {

/// A nested function lifted to a function of its own: the name it is lifted under
/// and what it captures.
#[derive(Debug, PartialEq, Eq)]
pub struct NestedInfo {
    pub name: String,
    pub mangled: String,
    pub captures: Vec<Capture>,
}

/// What a [`NestedInfo`] holds.
pub struct NestedInfoView {
    pub name: Seq<char>,
    pub mangled: Seq<char>,
    pub captures: Seq<CaptureView>,
}

/// A borrowed place and the permission it was borrowed with.
#[derive(Debug, PartialEq, Eq)]
pub struct Loan {
    pub place: MirPlace,
    pub mutable: bool,
}

/// What a [`Loan`] holds.
pub struct LoanView {
    pub place: MirPlaceView,
    pub mutable: bool,
}

/// The flattening cursor.
#[derive(Debug)]
pub struct Flatten {
    pub blocks: Vec<MirBlock>,
    /// The origin of each register so far.
    pub spans: Vec<RegOrigin>,
    pub reg_types: Vec<(u32, Ty)>,
    pub cur: usize,
    pub vars: Vec<String>,
    pub var_types: Vec<(u32, Ty)>,
    /// Slots of checked bindings without a declaration of their own.
    pub owner_vars: Vec<(OwnerId, u32)>,
    /// The nested functions in scope.
    pub nested: Vec<NestedInfo>,
    pub overloads: OverloadSets,
    pub checked: Vec<CheckedExpr>,
    /// Local references and the places they stand for.
    pub aliases: Vec<(u32, Loan)>,
    /// Slots that hold a reference at run time.
    pub runtime_aliases: Vec<u32>,
    /// Loans carried by aggregates, by slot.
    pub aggregate_loans: Vec<(u32, Vec<Loan>)>,
    /// Names bound more than once, or captured.
    pub reassigned: Vec<String>,
    pub returns_reference: bool,
    /// Whether all registers found room.
    pub complete: bool,
}

/// What a [`Flatten`] holds.
pub struct FlattenView {
    pub blocks: Seq<MirBlockView>,
    pub spans: Seq<RegOriginView>,
    pub reg_types: Seq<(u32, TyView)>,
    pub cur: usize,
    pub vars: Seq<Seq<char>>,
    pub var_types: Seq<(u32, TyView)>,
    pub owner_vars: Seq<(OwnerId, u32)>,
    pub nested: Seq<NestedInfoView>,
    pub overloads: OverloadSetsView,
    pub checked: Seq<CheckedExprView>,
    pub aliases: Seq<(u32, LoanView)>,
    pub runtime_aliases: Seq<u32>,
    pub aggregate_loans: Seq<(u32, Seq<LoanView>)>,
    pub reassigned: Seq<Seq<char>>,
    pub returns_reference: bool,
    pub complete: bool,
}

pub open spec fn nested_info_view(x: NestedInfo) -> NestedInfoView
    decreases x,
{
    NestedInfoView {
        name: x.name@,
        mangled: x.mangled@,
        captures: capture_list_view(x.captures@),
    }
}

impl View for NestedInfo {
    type V = NestedInfoView;

    open spec fn view(&self) -> NestedInfoView {
        nested_info_view(*self)
    }
}

pub fn clone_nested_info(x: &NestedInfo) -> (r: NestedInfo)
    ensures
        nested_info_view(r) == nested_info_view(*x),
    decreases x,
{
    let r = NestedInfo {
        name: (&x.name).clone(),
        mangled: (&x.mangled).clone(),
        captures: clone_capture_list((&x.captures)),
    };
    proof {
        unfold_nested_info(*x);
        unfold_nested_info(r);
    }
    r
}

impl Clone for NestedInfo {
    fn clone(&self) -> (r: Self)
        ensures
            r@ == self@,
    {
        clone_nested_info(self)
    }
}

pub open spec fn loan_view(x: Loan) -> LoanView
    decreases x,
{
    LoanView {
        place: mir_place_view(x.place),
        mutable: x.mutable,
    }
}

impl View for Loan {
    type V = LoanView;

    open spec fn view(&self) -> LoanView {
        loan_view(*self)
    }
}

pub fn clone_loan(x: &Loan) -> (r: Loan)
    ensures
        loan_view(r) == loan_view(*x),
    decreases x,
{
    Loan {
        place: clone_mir_place((&x.place)),
        mutable: x.mutable,
    }
}

impl Clone for Loan {
    fn clone(&self) -> (r: Self)
        ensures
            r@ == self@,
    {
        clone_loan(self)
    }
}

pub open spec fn flatten_view(x: Flatten) -> FlattenView
    decreases x,
{
    FlattenView {
        blocks: mir_block_list_view(x.blocks@),
        spans: reg_origin_list_view(x.spans@),
        reg_types: slot_ty_list_view(x.reg_types@),
        cur: x.cur,
        vars: string_list_view(x.vars@),
        var_types: slot_ty_list_view(x.var_types@),
        owner_vars: x.owner_vars@,
        nested: nested_info_list_view(x.nested@),
        overloads: overload_sets_view(x.overloads),
        checked: checked_expr_list_view(x.checked@),
        aliases: slot_loan_list_view(x.aliases@),
        runtime_aliases: x.runtime_aliases@,
        aggregate_loans: slot_loans_list_view(x.aggregate_loans@),
        reassigned: string_list_view(x.reassigned@),
        returns_reference: x.returns_reference,
        complete: x.complete,
    }
}

impl View for Flatten {
    type V = FlattenView;

    open spec fn view(&self) -> FlattenView {
        flatten_view(*self)
    }
}

pub open spec fn nested_info_list_view(s: Seq<NestedInfo>) -> Seq<NestedInfoView>
    decreases s,
{
    Seq::new(s.len(), |i: int| if 0 <= i < s.len() { nested_info_view(s[i]) } else { arbitrary() })
}

pub fn clone_nested_info_list(v: &Vec<NestedInfo>) -> (r: Vec<NestedInfo>)
    ensures
        nested_info_list_view(r@) == nested_info_list_view(v@),
        r@.len() == v@.len(),
    decreases v@,
{
    let mut r: Vec<NestedInfo> = Vec::new();
    for i in 0..v.len()
        invariant
            r@.len() == i,
            forall|j: int| 0 <= j < i ==> nested_info_view((#[trigger] r@[j])) == nested_info_view(v@[j]),
    {
        r.push(clone_nested_info((&v[i])));
    }
    assert(nested_info_list_view(r@) =~= nested_info_list_view(v@));
    r
}

pub open spec fn loan_list_view(s: Seq<Loan>) -> Seq<LoanView>
    decreases s,
{
    Seq::new(s.len(), |i: int| if 0 <= i < s.len() { loan_view(s[i]) } else { arbitrary() })
}

pub fn clone_loan_list(v: &Vec<Loan>) -> (r: Vec<Loan>)
    ensures
        loan_list_view(r@) == loan_list_view(v@),
        r@.len() == v@.len(),
    decreases v@,
{
    let mut r: Vec<Loan> = Vec::new();
    for i in 0..v.len()
        invariant
            r@.len() == i,
            forall|j: int| 0 <= j < i ==> loan_view((#[trigger] r@[j])) == loan_view(v@[j]),
    {
        r.push(clone_loan((&v[i])));
    }
    assert(loan_list_view(r@) =~= loan_list_view(v@));
    r
}

pub open spec fn slot_loan_list_view(s: Seq<(u32, Loan)>) -> Seq<(u32, LoanView)>
    decreases s,
{
    Seq::new(s.len(), |i: int| if 0 <= i < s.len() { (s[i].0, loan_view(s[i].1)) } else { arbitrary() })
}

pub fn clone_slot_loan_list(v: &Vec<(u32, Loan)>) -> (r: Vec<(u32, Loan)>)
    ensures
        slot_loan_list_view(r@) == slot_loan_list_view(v@),
        r@.len() == v@.len(),
    decreases v@,
{
    let mut r: Vec<(u32, Loan)> = Vec::new();
    for i in 0..v.len()
        invariant
            r@.len() == i,
            forall|j: int| 0 <= j < i ==> ((#[trigger] r@[j]).0, loan_view((#[trigger] r@[j]).1)) == (v@[j].0, loan_view(v@[j].1)),
    {
        r.push((*(&(&v[i]).0), clone_loan((&(&v[i]).1))));
    }
    assert(slot_loan_list_view(r@) =~= slot_loan_list_view(v@));
    r
}

pub open spec fn slot_loans_list_view(s: Seq<(u32, Vec<Loan>)>) -> Seq<(u32, Seq<LoanView>)>
    decreases s,
{
    Seq::new(s.len(), |i: int| if 0 <= i < s.len() { (s[i].0, loan_list_view(s[i].1@)) } else { arbitrary() })
}

pub fn clone_slot_loans_list(v: &Vec<(u32, Vec<Loan>)>) -> (r: Vec<(u32, Vec<Loan>)>)
    ensures
        slot_loans_list_view(r@) == slot_loans_list_view(v@),
        r@.len() == v@.len(),
    decreases v@,
{
    let mut r: Vec<(u32, Vec<Loan>)> = Vec::new();
    for i in 0..v.len()
        invariant
            r@.len() == i,
            forall|j: int| 0 <= j < i ==> ((#[trigger] r@[j]).0, loan_list_view((#[trigger] r@[j]).1@)) == (v@[j].0, loan_list_view(v@[j].1@)),
    {
        r.push((*(&(&v[i]).0), clone_loan_list((&(&v[i]).1))));
    }
    assert(slot_loans_list_view(r@) =~= slot_loans_list_view(v@));
    r
}

pub proof fn unfold_nested_info(x: NestedInfo)
    ensures
        nested_info_view(x) == (NestedInfoView { name: x.name@, mangled: x.mangled@, captures: capture_list_view(x.captures@) }),
{
        assert(nested_info_view(x).captures =~= capture_list_view(x.captures@));
}

pub proof fn unfold_flatten(x: Flatten)
    ensures
        flatten_view(x) == (FlattenView { blocks: mir_block_list_view(x.blocks@), spans: reg_origin_list_view(x.spans@), reg_types: slot_ty_list_view(x.reg_types@), cur: x.cur, vars: string_list_view(x.vars@), var_types: slot_ty_list_view(x.var_types@), owner_vars: x.owner_vars@, nested: nested_info_list_view(x.nested@), overloads: overload_sets_view(x.overloads), checked: checked_expr_list_view(x.checked@), aliases: slot_loan_list_view(x.aliases@), runtime_aliases: x.runtime_aliases@, aggregate_loans: slot_loans_list_view(x.aggregate_loans@), reassigned: string_list_view(x.reassigned@), returns_reference: x.returns_reference, complete: x.complete }),
{
        assert(flatten_view(x).blocks =~= mir_block_list_view(x.blocks@));
        assert(flatten_view(x).spans =~= reg_origin_list_view(x.spans@));
        assert(flatten_view(x).reg_types =~= slot_ty_list_view(x.reg_types@));
        assert(flatten_view(x).vars =~= string_list_view(x.vars@));
        assert(flatten_view(x).var_types =~= slot_ty_list_view(x.var_types@));
        assert(flatten_view(x).nested =~= nested_info_list_view(x.nested@));
        assert(flatten_view(x).checked =~= checked_expr_list_view(x.checked@));
        assert(flatten_view(x).aliases =~= slot_loan_list_view(x.aliases@));
        assert(flatten_view(x).aggregate_loans =~= slot_loans_list_view(x.aggregate_loans@));
        assert(flatten_view(x).reassigned =~= string_list_view(x.reassigned@));
}

/// The value of the last entry of a key.
pub open spec fn slot_type(entries: Seq<(u32, TyView)>, key: u32) -> Option<TyView>
    decreases entries.len(),
{
    if entries.len() == 0 {
        None
    } else if entries.last().0 == key {
        Some(entries.last().1)
    } else {
        slot_type(entries.drop_last(), key)
    }
}

/// See [`slot_type`].
pub fn find_slot_ty(entries: &Vec<(u32, Ty)>, key: u32) -> (r: Option<Ty>)
    ensures
        opt_view(r) == slot_type(slot_ty_list_view(entries@), key),
{
    let ghost all = slot_ty_list_view(entries@);
    let mut i: usize = entries.len();
    assert(all.take(i as int) =~= all);
    while i > 0
        invariant
            i <= entries@.len(),
            all == slot_ty_list_view(entries@),
            all.len() == entries@.len(),
            slot_type(all, key) == slot_type(all.take(i as int), key),
        decreases i,
    {
        assert(all.take(i as int).last() == all[i - 1]);
        assert(all.take(i as int).drop_last() =~= all.take(i - 1));
        i = i - 1;
        if entries[i].0 == key {
            return Some(clone_ty(&entries[i].1));
        }
    }
    None
}

/// The value of the last entry of a key.
pub open spec fn owner_slot(entries: Seq<(OwnerId, u32)>, key: OwnerId) -> Option<u32>
    decreases entries.len(),
{
    if entries.len() == 0 {
        None
    } else if entries.last().0 == key {
        Some(entries.last().1)
    } else {
        owner_slot(entries.drop_last(), key)
    }
}

/// See [`owner_slot`].
pub fn find_owner_var(entries: &Vec<(OwnerId, u32)>, key: OwnerId) -> (r: Option<u32>)
    ensures
        r == owner_slot(entries@, key),
{
    let ghost all = entries@;
    let mut i: usize = entries.len();
    assert(all.take(i as int) =~= all);
    while i > 0
        invariant
            i <= entries@.len(),
            all == entries@,
            all.len() == entries@.len(),
            owner_slot(all, key) == owner_slot(all.take(i as int), key),
        decreases i,
    {
        assert(all.take(i as int).last() == all[i - 1]);
        assert(all.take(i as int).drop_last() =~= all.take(i - 1));
        i = i - 1;
        if entries[i].0 == key {
            return Some(entries[i].1);
        }
    }
    None
}

/// The value of the last entry of a key.
pub open spec fn alias_of(entries: Seq<(u32, LoanView)>, key: u32) -> Option<LoanView>
    decreases entries.len(),
{
    if entries.len() == 0 {
        None
    } else if entries.last().0 == key {
        Some(entries.last().1)
    } else {
        alias_of(entries.drop_last(), key)
    }
}

/// See [`alias_of`].
pub fn find_alias(entries: &Vec<(u32, Loan)>, key: u32) -> (r: Option<Loan>)
    ensures
        opt_view(r) == alias_of(slot_loan_list_view(entries@), key),
{
    let ghost all = slot_loan_list_view(entries@);
    let mut i: usize = entries.len();
    assert(all.take(i as int) =~= all);
    while i > 0
        invariant
            i <= entries@.len(),
            all == slot_loan_list_view(entries@),
            all.len() == entries@.len(),
            alias_of(all, key) == alias_of(all.take(i as int), key),
        decreases i,
    {
        assert(all.take(i as int).last() == all[i - 1]);
        assert(all.take(i as int).drop_last() =~= all.take(i - 1));
        i = i - 1;
        if entries[i].0 == key {
            return Some(clone_loan(&entries[i].1));
        }
    }
    None
}

/// The value of the last entry of a key.
pub open spec fn loans_of(entries: Seq<(u32, Seq<LoanView>)>, key: u32) -> Option<Seq<LoanView>>
    decreases entries.len(),
{
    if entries.len() == 0 {
        None
    } else if entries.last().0 == key {
        Some(entries.last().1)
    } else {
        loans_of(entries.drop_last(), key)
    }
}

/// See [`loans_of`].
pub fn find_loans(entries: &Vec<(u32, Vec<Loan>)>, key: u32) -> (r: Option<Vec<Loan>>)
    ensures
        (match r { Some(v) => Some(loan_list_view(v@)), None => None }) == loans_of(slot_loans_list_view(entries@), key),
{
    let ghost all = slot_loans_list_view(entries@);
    let mut i: usize = entries.len();
    assert(all.take(i as int) =~= all);
    while i > 0
        invariant
            i <= entries@.len(),
            all == slot_loans_list_view(entries@),
            all.len() == entries@.len(),
            loans_of(all, key) == loans_of(all.take(i as int), key),
        decreases i,
    {
        assert(all.take(i as int).last() == all[i - 1]);
        assert(all.take(i as int).drop_last() =~= all.take(i - 1));
        i = i - 1;
        if entries[i].0 == key {
            return Some(clone_loan_list(&entries[i].1));
        }
    }
    None
}

/// A block that still has to get its terminator.
pub open spec fn open_block() -> MirBlockView {
    MirBlockView { instrs: Seq::empty(), term: MirTermView::Return(None) }
}

/// A fresh register.
#[verifier::opaque]
pub open spec fn fresh_reg(
    s: FlattenView,
    span: Span,
    source: Option<Seq<char>>,
    var: Option<u32>,
) -> (FlattenView, Reg) {
    if s.spans.len() < u32::MAX {
        (
            FlattenView { spans: s.spans.push(RegOriginView { span, source, var }), ..s },
            Reg(s.spans.len() as u32),
        )
    } else {
        (FlattenView { complete: false, ..s }, Reg(u32::MAX))
    }
}

/// Append an instruction to the current block.
#[verifier::opaque]
pub open spec fn emitted(s: FlattenView, instr: MirInstrView) -> FlattenView {
    if s.cur < s.blocks.len() {
        let block = s.blocks[s.cur as int];
        FlattenView {
            blocks: s.blocks.update(
                s.cur as int,
                MirBlockView { instrs: block.instrs.push(instr), term: block.term },
            ),
            ..s
        }
    } else {
        s
    }
}

/// End the current block.
#[verifier::opaque]
pub open spec fn ended(s: FlattenView, term: MirTermView) -> FlattenView {
    if s.cur < s.blocks.len() {
        let block = s.blocks[s.cur as int];
        FlattenView {
            blocks: s.blocks.update(s.cur as int, MirBlockView { instrs: block.instrs, term }),
            ..s
        }
    } else {
        s
    }
}

/// A new block.
#[verifier::opaque]
pub open spec fn opened(s: FlattenView) -> (FlattenView, usize) {
    (FlattenView { blocks: s.blocks.push(open_block()), ..s }, s.blocks.len() as usize)
}

/// The slot of a name, which is added when it is new.
#[verifier::opaque]
pub open spec fn interned(s: FlattenView, name: Seq<char>) -> (FlattenView, u32) {
    match slot_of(s.vars, name, 0) {
        Some(i) => (s, i as u32),
        None => (FlattenView { vars: s.vars.push(name), ..s }, s.vars.len() as u32),
    }
}

impl Flatten {
    /// See [`fresh_reg`].
    pub fn fresh(self, span: Span, source: &Option<String>, var: Option<u32>) -> (r: (Flatten, Reg))
        ensures
            r.0@ == fresh_reg(self@, span, opt_view(*source), var).0,
            r.1 == fresh_reg(self@, span, opt_view(*source), var).1,
    {
        proof {
            reveal(fresh_reg);
        }
        let mut this = self;
        let n: usize = this.spans.len();
        if n < 0xFFFF_FFFF {
            let origin = RegOrigin { span, source: clone_opt_string(source), var };
            let ghost before = reg_origin_list_view(this.spans@);
            let ghost added = origin@;
            this.spans.push(origin);
            assert(reg_origin_list_view(this.spans@) =~= before.push(added));
            (this, Reg(n as u32))
        } else {
            this.complete = false;
            (this, Reg(0xFFFF_FFFF))
        }
    }

    /// See [`emitted`].
    pub fn emit(self, instr: MirInstr) -> (r: Flatten)
        ensures
            r@ == emitted(self@, instr@),
    {
        proof {
            reveal(emitted);
        }
        let mut this = self;
        let cur: usize = this.cur;
        if cur < this.blocks.len() {
            let ghost before = mir_block_list_view(this.blocks@);
            let ghost block = this.blocks@[cur as int];
            proof {
                unfold_mir_block(block);
            }
            let ghost added = instr@;
            let ghost instrs = mir_instr_list_view(block.instrs@);
            this.blocks[cur].instrs.push(instr);
            let ghost now = this.blocks@[cur as int];
            proof {
                unfold_mir_block(now);
            }
            assert(mir_instr_list_view(now.instrs@) =~= instrs.push(added));
            assert(mir_block_list_view(this.blocks@) =~= before.update(cur as int, now@));
        }
        this
    }

    /// See [`ended`].
    pub fn end(self, term: MirTerm) -> (r: Flatten)
        ensures
            r@ == ended(self@, term@),
    {
        proof {
            reveal(ended);
        }
        let mut this = self;
        let cur: usize = this.cur;
        if cur < this.blocks.len() {
            let ghost before = mir_block_list_view(this.blocks@);
            let ghost block = this.blocks@[cur as int];
            proof {
                unfold_mir_block(block);
            }
            this.blocks[cur].term = term;
            let ghost now = this.blocks@[cur as int];
            proof {
                unfold_mir_block(now);
            }
            assert(mir_block_list_view(this.blocks@) =~= before.update(cur as int, now@));
        }
        this
    }

    /// See [`opened`].
    pub fn new_block(self) -> (r: (Flatten, usize))
        ensures
            r.0@ == opened(self@).0,
            r.1 == opened(self@).1,
    {
        proof {
            reveal(opened);
        }
        let mut this = self;
        let id: usize = this.blocks.len();
        let block = MirBlock { instrs: Vec::new(), term: MirTerm::Return(None) };
        proof {
            unfold_mir_block(block);
        }
        assert(mir_instr_list_view(block.instrs@) =~= Seq::<MirInstrView>::empty());
        assert(block.term@ == MirTermView::Return(None));
        assert(block@ == open_block());
        let ghost before = mir_block_list_view(this.blocks@);
        this.blocks.push(block);
        assert(mir_block_list_view(this.blocks@) =~= before.push(open_block()));
        (this, id)
    }

    /// See [`interned`].
    pub fn var(self, name: &String) -> (r: (Flatten, u32))
        ensures
            r.0@ == interned(self@, name@).0,
            r.1 == interned(self@, name@).1,
    {
        proof {
            reveal(interned);
        }
        let mut this = self;
        match find_slot(&this.vars, name) {
            Some(i) => (this, i as u32),
            None => {
                let i: usize = this.vars.len();
                let ghost before = string_list_view(this.vars@);
                this.vars.push(name.clone());
                assert(string_list_view(this.vars@) =~= before.push(name@));
                (this, i as u32)
            },
        }
    }
}


#[verifier::opaque]
pub open spec fn following_index(k: usize) -> usize {
    if k < usize::MAX {
        (k + 1) as usize
    } else {
        k
    }
}

/// See [`following_index`].
pub fn next_index(k: usize) -> (r: usize)
    ensures
        r == following_index(k),
{
    proof { reveal(following_index); }
    if k < usize::MAX {
        k + 1
    } else {
        k
    }
}

#[verifier::opaque]
pub open spec fn index_sum(a: usize, b: usize) -> usize {
    if b <= (usize::MAX - a) as usize {
        (a + b) as usize
    } else {
        usize::MAX
    }
}

/// See [`index_sum`].
pub fn plus(a: usize, b: usize) -> (r: usize)
    ensures
        r == index_sum(a, b),
{
    proof { reveal(index_sum); }
    if b <= usize::MAX - a {
        a + b
    } else {
        usize::MAX
    }
}

/// The facts of the `k`th child of an expression.
#[verifier::opaque]
pub open spec fn child_facts(h: Option<HirExprView>, k: usize) -> Option<HirExprView> {
    match h {
        Some(h) => if k < h.children.len() {
            Some(h.children[k as int])
        } else {
            None
        },
        None => None,
    }
}

/// See [`child_facts`].
pub fn child(h: Option<&HirExpr>, k: usize) -> (r: Option<&HirExpr>)
    ensures
        opt_view(r) == child_facts(opt_view(h), k),
{
    proof { reveal(child_facts); }
    match h {
        Some(h) => {
            if k < h.children.len() {
                Some(&h.children[k])
            } else {
                None
            }
        },
        None => None,
    }
}

#[verifier::opaque]
pub open spec fn known_ty(h: Option<HirExprView>) -> Option<TyView> {
    match h {
        Some(h) => h.ty,
        None => None,
    }
}

/// See [`known_ty`].
pub fn fact_ty(h: Option<&HirExpr>) -> (r: Option<Ty>)
    ensures
        opt_view(r) == known_ty(opt_view(h)),
{
    proof { reveal(known_ty); }
    match h {
        Some(h) => (match (&h.ty) { Some(y) => Some(clone_ty(y)), None => None }),
        None => None,
    }
}

#[verifier::opaque]
pub open spec fn known_place_ty(h: Option<HirExprView>) -> Option<TyView> {
    match h {
        Some(h) => match h.place {
            Some(place) => Some(place.ty),
            None => None,
        },
        None => None,
    }
}

/// See [`known_place_ty`].
pub fn fact_place_ty(h: Option<&HirExpr>) -> (r: Option<Ty>)
    ensures
        opt_view(r) == known_place_ty(opt_view(h)),
{
    proof { reveal(known_place_ty); }
    match h {
        Some(h) => {
            match &h.place {
                Some(place) => Some(clone_ty(&place.ty)),
                None => None,
            }
        },
        None => None,
    }
}

/// The type of the place an expression denotes, else its own type.
#[verifier::opaque]
pub open spec fn known_any_ty(h: Option<HirExprView>) -> Option<TyView> {
    match known_place_ty(h) {
        Some(ty) => Some(ty),
        None => known_ty(h),
    }
}

/// See [`known_any_ty`].
pub fn fact_any_ty(h: Option<&HirExpr>) -> (r: Option<Ty>)
    ensures
        opt_view(r) == known_any_ty(opt_view(h)),
{
    proof { reveal(known_any_ty); }
    match fact_place_ty(h) {
        Some(ty) => Some(ty),
        None => fact_ty(h),
    }
}

#[verifier::opaque]
pub open spec fn known_owner(h: Option<HirExprView>) -> Option<OwnerId> {
    match h {
        Some(h) => match h.place {
            Some(place) => Some(place.owner),
            None => None,
        },
        None => None,
    }
}

/// See [`known_owner`].
pub fn fact_owner(h: Option<&HirExpr>) -> (r: Option<OwnerId>)
    ensures
        r == known_owner(opt_view(h)),
{
    proof { reveal(known_owner); }
    match h {
        Some(h) => {
            match &h.place {
                Some(place) => Some(place.owner),
                None => None,
            }
        },
        None => None,
    }
}

#[verifier::opaque]
pub open spec fn known_raises(h: Option<HirExprView>) -> Option<TyView> {
    match h {
        Some(h) => h.effects.raises,
        None => None,
    }
}

/// See [`known_raises`].
pub fn fact_raises(h: Option<&HirExpr>) -> (r: Option<Ty>)
    ensures
        opt_view(r) == known_raises(opt_view(h)),
{
    proof { reveal(known_raises); }
    match h {
        Some(h) => (match (&h.effects.raises) { Some(y) => Some(clone_ty(y)), None => None }),
        None => None,
    }
}

#[verifier::opaque]
pub open spec fn known_adjustments(h: Option<HirExprView>) -> Seq<SemanticAdjustmentView> {
    match h {
        Some(h) => h.adjustments,
        None => Seq::empty(),
    }
}

/// See [`known_adjustments`].
pub fn fact_adjustments(h: Option<&HirExpr>) -> (r: Vec<SemanticAdjustment>)
    ensures
        semantic_adjustment_list_view(r@) == known_adjustments(opt_view(h)),
{
    proof { reveal(known_adjustments); }
    match h {
        Some(h) => clone_semantic_adjustment_list(&h.adjustments),
        None => {
            let list: Vec<SemanticAdjustment> = Vec::new();
            assert(semantic_adjustment_list_view(list@) =~= Seq::<SemanticAdjustmentView>::empty());
            list
        },
    }
}

#[verifier::opaque]
pub open spec fn known_bindings(h: Option<HirExprView>) -> Seq<CheckedComprehensionBindingView> {
    match h {
        Some(h) => h.comprehension_bindings,
        None => Seq::empty(),
    }
}

/// See [`known_bindings`].
pub fn fact_bindings(h: Option<&HirExpr>) -> (r: Vec<CheckedComprehensionBinding>)
    ensures
        checked_comprehension_binding_list_view(r@) == known_bindings(opt_view(h)),
{
    proof { reveal(known_bindings); }
    match h {
        Some(h) => clone_checked_comprehension_binding_list(&h.comprehension_bindings),
        None => {
            let list: Vec<CheckedComprehensionBinding> = Vec::new();
            assert(
                checked_comprehension_binding_list_view(list@) =~= Seq::<CheckedComprehensionBindingView>::empty()
            );
            list
        },
    }
}

/// The first borrow among adjustments: whether it is mutable.
pub open spec fn borrow_among(adjustments: Seq<SemanticAdjustmentView>, i: nat) -> Option<bool>
    decreases adjustments, (adjustments.len() - i) as nat,
{
    if i >= adjustments.len() {
        None
    } else {
        let adjustment = adjustments[i as int];
        match adjustment {
            SemanticAdjustmentView::BorrowShared => Some(false),
            SemanticAdjustmentView::BorrowMutable => Some(true),
            _ => borrow_among(adjustments, i + 1),
        }
    }
}

/// See [`borrow_among`].
pub fn find_borrow(adjustments: &Vec<SemanticAdjustment>) -> (r: Option<bool>)
    ensures
        r == borrow_among(semantic_adjustment_list_view(adjustments@), 0),
    decreases adjustments@, 0nat,
{
    let ghost goal = borrow_among(semantic_adjustment_list_view(adjustments@), 0);
    let mut i: usize = 0;
    while i < adjustments.len()
        invariant
            i <= adjustments@.len(),
            semantic_adjustment_list_view(adjustments@).len() == adjustments@.len(),
            borrow_among(semantic_adjustment_list_view(adjustments@), i as nat) == goal,
            goal == borrow_among(semantic_adjustment_list_view(adjustments@), 0),
        decreases adjustments@.len() - i,
    {
        let adjustment = &adjustments[i];
        assert(semantic_adjustment_list_view(adjustments@)[i as int] == adjustment@);
        proof { unfold_semantic_adjustment(*adjustment); }
        match adjustment {
            SemanticAdjustment::BorrowShared => {
                return Some(false);
            },
            SemanticAdjustment::BorrowMutable => {
                return Some(true);
            },
            _ => {
                assert(!(adjustment@ is BorrowShared));
                assert(!(adjustment@ is BorrowMutable));
            },
        }
        i = i + 1;
    }
    None
}

pub open spec fn pointer_among(adjustments: Seq<SemanticAdjustmentView>, i: nat) -> Option<bool>
    decreases adjustments, (adjustments.len() - i) as nat,
{
    if i >= adjustments.len() {
        None
    } else {
        let adjustment = adjustments[i as int];
        match adjustment {
            SemanticAdjustmentView::PointerToPlace { mutable } => Some(mutable),
            _ => pointer_among(adjustments, i + 1),
        }
    }
}

/// See [`pointer_among`].
pub fn find_pointer(adjustments: &Vec<SemanticAdjustment>) -> (r: Option<bool>)
    ensures
        r == pointer_among(semantic_adjustment_list_view(adjustments@), 0),
    decreases adjustments@, 0nat,
{
    let ghost goal = pointer_among(semantic_adjustment_list_view(adjustments@), 0);
    let mut i: usize = 0;
    while i < adjustments.len()
        invariant
            i <= adjustments@.len(),
            semantic_adjustment_list_view(adjustments@).len() == adjustments@.len(),
            pointer_among(semantic_adjustment_list_view(adjustments@), i as nat) == goal,
            goal == pointer_among(semantic_adjustment_list_view(adjustments@), 0),
        decreases adjustments@.len() - i,
    {
        let adjustment = &adjustments[i];
        assert(semantic_adjustment_list_view(adjustments@)[i as int] == adjustment@);
        proof { unfold_semantic_adjustment(*adjustment); }
        match adjustment {
            SemanticAdjustment::PointerToPlace { mutable } => {
                return Some(*mutable);
            },
            _ => {
                assert(!(adjustment@ is PointerToPlace));
            },
        }
        i = i + 1;
    }
    None
}

pub open spec fn callable_among(
    adjustments: Seq<SemanticAdjustmentView>,
    i: nat,
) -> Option<Seq<char>>
    decreases adjustments, (adjustments.len() - i) as nat,
{
    if i >= adjustments.len() {
        None
    } else {
        let adjustment = adjustments[i as int];
        match adjustment {
            SemanticAdjustmentView::ResolveCallable(target) => Some(target),
            _ => callable_among(adjustments, i + 1),
        }
    }
}

/// See [`callable_among`].
pub fn find_callable(adjustments: &Vec<SemanticAdjustment>) -> (r: Option<String>)
    ensures
        opt_view(r) == callable_among(semantic_adjustment_list_view(adjustments@), 0),
    decreases adjustments@, 0nat,
{
    let ghost goal = callable_among(semantic_adjustment_list_view(adjustments@), 0);
    let mut i: usize = 0;
    while i < adjustments.len()
        invariant
            i <= adjustments@.len(),
            semantic_adjustment_list_view(adjustments@).len() == adjustments@.len(),
            callable_among(semantic_adjustment_list_view(adjustments@), i as nat) == goal,
            goal == callable_among(semantic_adjustment_list_view(adjustments@), 0),
        decreases adjustments@.len() - i,
    {
        let adjustment = &adjustments[i];
        assert(semantic_adjustment_list_view(adjustments@)[i as int] == adjustment@);
        proof { unfold_semantic_adjustment(*adjustment); }
        match adjustment {
            SemanticAdjustment::ResolveCallable(target) => {
                return Some(target.clone());
            },
            _ => {
                assert(!(adjustment@ is ResolveCallable));
            },
        }
        i = i + 1;
    }
    None
}

pub open spec fn conversion_among(
    adjustments: Seq<SemanticAdjustmentView>,
    i: nat,
) -> Option<Seq<char>>
    decreases adjustments, (adjustments.len() - i) as nat,
{
    if i >= adjustments.len() {
        None
    } else {
        let adjustment = adjustments[i as int];
        match adjustment {
            SemanticAdjustmentView::ImplicitConversion(target) => Some(target),
            _ => conversion_among(adjustments, i + 1),
        }
    }
}

/// See [`conversion_among`].
pub fn find_conversion(adjustments: &Vec<SemanticAdjustment>) -> (r: Option<String>)
    ensures
        opt_view(r) == conversion_among(semantic_adjustment_list_view(adjustments@), 0),
    decreases adjustments@, 0nat,
{
    let ghost goal = conversion_among(semantic_adjustment_list_view(adjustments@), 0);
    let mut i: usize = 0;
    while i < adjustments.len()
        invariant
            i <= adjustments@.len(),
            semantic_adjustment_list_view(adjustments@).len() == adjustments@.len(),
            conversion_among(semantic_adjustment_list_view(adjustments@), i as nat) == goal,
            goal == conversion_among(semantic_adjustment_list_view(adjustments@), 0),
        decreases adjustments@.len() - i,
    {
        let adjustment = &adjustments[i];
        assert(semantic_adjustment_list_view(adjustments@)[i as int] == adjustment@);
        proof { unfold_semantic_adjustment(*adjustment); }
        match adjustment {
            SemanticAdjustment::ImplicitConversion(target) => {
                return Some(target.clone());
            },
            _ => {
                assert(!(adjustment@ is ImplicitConversion));
            },
        }
        i = i + 1;
    }
    None
}

pub open spec fn variant_among(
    adjustments: Seq<SemanticAdjustmentView>,
    i: nat,
) -> Option<(Seq<TyView>, usize)>
    decreases adjustments, (adjustments.len() - i) as nat,
{
    if i >= adjustments.len() {
        None
    } else {
        let adjustment = adjustments[i as int];
        match adjustment {
            SemanticAdjustmentView::ConstructVariant {
                alternatives,
                index,
            } => Some((alternatives, index)),
            _ => variant_among(adjustments, i + 1),
        }
    }
}

/// See [`variant_among`].
pub fn find_variant(adjustments: &Vec<SemanticAdjustment>) -> (r: Option<(Vec<Ty>, usize)>)
    ensures
        (
            match r { Some(v) => Some((ty_list_view(v.0@), v.1)), None => None }
        ) == variant_among(semantic_adjustment_list_view(adjustments@), 0),
    decreases adjustments@, 0nat,
{
    let ghost goal = variant_among(semantic_adjustment_list_view(adjustments@), 0);
    let mut i: usize = 0;
    while i < adjustments.len()
        invariant
            i <= adjustments@.len(),
            semantic_adjustment_list_view(adjustments@).len() == adjustments@.len(),
            variant_among(semantic_adjustment_list_view(adjustments@), i as nat) == goal,
            goal == variant_among(semantic_adjustment_list_view(adjustments@), 0),
        decreases adjustments@.len() - i,
    {
        let adjustment = &adjustments[i];
        assert(semantic_adjustment_list_view(adjustments@)[i as int] == adjustment@);
        proof { unfold_semantic_adjustment(*adjustment); }
        match adjustment {
            SemanticAdjustment::ConstructVariant { alternatives, index } => {
                return Some((clone_ty_list(alternatives), *index));
            },
            _ => {
                assert(!(adjustment@ is ConstructVariant));
            },
        }
        i = i + 1;
    }
    None
}

/// The first operation on a variant among adjustments.
pub open spec fn variant_operation_among(
    adjustments: Seq<SemanticAdjustmentView>,
    i: nat,
) -> Option<SemanticAdjustmentView>
    decreases adjustments, (adjustments.len() - i) as nat,
{
    if i >= adjustments.len() {
        None
    } else {
        let adjustment = adjustments[i as int];
        match adjustment {
            SemanticAdjustmentView::VariantIs { .. } => Some(adjustment),
            SemanticAdjustmentView::VariantTypeSupported { .. } => Some(adjustment),
            SemanticAdjustmentView::VariantSet { .. } => Some(adjustment),
            SemanticAdjustmentView::VariantTake { .. } => Some(adjustment),
            SemanticAdjustmentView::VariantReplace { .. } => Some(adjustment),
            _ => variant_operation_among(adjustments, i + 1),
        }
    }
}

/// See [`variant_operation_among`].
pub fn find_variant_operation(
    adjustments: &Vec<SemanticAdjustment>,
) -> (r: Option<SemanticAdjustment>)
    ensures
        opt_view(r) == variant_operation_among(semantic_adjustment_list_view(adjustments@), 0),
    decreases adjustments@, 0nat,
{
    let ghost goal = variant_operation_among(semantic_adjustment_list_view(adjustments@), 0);
    let mut i: usize = 0;
    while i < adjustments.len()
        invariant
            i <= adjustments@.len(),
            semantic_adjustment_list_view(adjustments@).len() == adjustments@.len(),
            variant_operation_among(semantic_adjustment_list_view(adjustments@), i as nat) == goal,
            goal == variant_operation_among(semantic_adjustment_list_view(adjustments@), 0),
        decreases adjustments@.len() - i,
    {
        let adjustment = &adjustments[i];
        assert(semantic_adjustment_list_view(adjustments@)[i as int] == adjustment@);
        proof { unfold_semantic_adjustment(*adjustment); }
        match adjustment {
            SemanticAdjustment::VariantIs { .. } => {
                return Some(clone_semantic_adjustment(adjustment));
            },
            SemanticAdjustment::VariantTypeSupported { .. } => {
                return Some(clone_semantic_adjustment(adjustment));
            },
            SemanticAdjustment::VariantSet { .. } => {
                return Some(clone_semantic_adjustment(adjustment));
            },
            SemanticAdjustment::VariantTake { .. } => {
                return Some(clone_semantic_adjustment(adjustment));
            },
            SemanticAdjustment::VariantReplace { .. } => {
                return Some(clone_semantic_adjustment(adjustment));
            },
            _ => {
                assert(!(adjustment@ is VariantIs));
                assert(!(adjustment@ is VariantTypeSupported));
                assert(!(adjustment@ is VariantSet));
                assert(!(adjustment@ is VariantTake));
                assert(!(adjustment@ is VariantReplace));
            },
        }
        i = i + 1;
    }
    None
}

/// The first SIMD construction of a width that is no negative number.
pub open spec fn simd_among(
    adjustments: Seq<SemanticAdjustmentView>,
    i: nat,
) -> Option<(Dtype, usize)>
    decreases adjustments, (adjustments.len() - i) as nat,
{
    if i >= adjustments.len() {
        None
    } else {
        let adjustment = adjustments[i as int];
        match adjustment {
            SemanticAdjustmentView::ConstructSimd { dtype, width } => match lanes(width) {
                Some(lanes) => Some((dtype, lanes)),
                None => simd_among(adjustments, i + 1),
            },
            _ => simd_among(adjustments, i + 1),
        }
    }
}

/// See [`simd_among`].
pub fn find_simd(adjustments: &Vec<SemanticAdjustment>) -> (r: Option<(Dtype, usize)>)
    ensures
        r == simd_among(semantic_adjustment_list_view(adjustments@), 0),
    decreases adjustments@, 0nat,
{
    let ghost goal = simd_among(semantic_adjustment_list_view(adjustments@), 0);
    let mut i: usize = 0;
    while i < adjustments.len()
        invariant
            i <= adjustments@.len(),
            semantic_adjustment_list_view(adjustments@).len() == adjustments@.len(),
            simd_among(semantic_adjustment_list_view(adjustments@), i as nat) == goal,
            goal == simd_among(semantic_adjustment_list_view(adjustments@), 0),
        decreases adjustments@.len() - i,
    {
        let adjustment = &adjustments[i];
        assert(semantic_adjustment_list_view(adjustments@)[i as int] == adjustment@);
        proof { unfold_semantic_adjustment(*adjustment); }
        match adjustment {
            SemanticAdjustment::ConstructSimd { dtype, width } => {
                match lane_count(*width) {
                    Some(lanes) => {
                        return Some((*dtype, lanes));
                    },
                    None => {},
                }
            },
            _ => {
                assert(!(adjustment@ is ConstructSimd));
            },
        }
        i = i + 1;
    }
    None
}

/// A width as an index, when it is one.
#[verifier::opaque]
pub open spec fn lanes(width: i64) -> Option<usize> {
    if 0 <= width && width <= usize::MAX {
        Some(width as usize)
    } else {
        None
    }
}

/// See [`lanes`].
pub fn lane_count(width: i64) -> (r: Option<usize>)
    ensures
        r == lanes(width),
{
    proof {
        reveal(lanes);
    }
    if width >= 0 && width as u64 <= usize::MAX as u64 {
        Some(width as usize)
    } else {
        None
    }
}


pub open spec fn slices_among(
    adjustments: Seq<SemanticAdjustmentView>,
    i: nat,
) -> Option<(Seq<Option<SliceKind>>, Option<Seq<char>>)>
    decreases adjustments, (adjustments.len() - i) as nat,
{
    if i >= adjustments.len() {
        None
    } else {
        let adjustment = adjustments[i as int];
        match adjustment {
            SemanticAdjustmentView::SliceDescriptors {
                descriptors,
                set_value_keyword,
            } => Some((descriptors, set_value_keyword)),
            _ => slices_among(adjustments, i + 1),
        }
    }
}

/// See [`slices_among`].
pub fn find_slices(
    adjustments: &Vec<SemanticAdjustment>,
) -> (r: Option<(Vec<Option<SliceKind>>, Option<String>)>)
    ensures
        (
            match r { Some(v) => Some((v.0@, opt_view(v.1))), None => None }
        ) == slices_among(semantic_adjustment_list_view(adjustments@), 0),
    decreases adjustments@, 0nat,
{
    let ghost goal = slices_among(semantic_adjustment_list_view(adjustments@), 0);
    let mut i: usize = 0;
    while i < adjustments.len()
        invariant
            i <= adjustments@.len(),
            semantic_adjustment_list_view(adjustments@).len() == adjustments@.len(),
            slices_among(semantic_adjustment_list_view(adjustments@), i as nat) == goal,
            goal == slices_among(semantic_adjustment_list_view(adjustments@), 0),
        decreases adjustments@.len() - i,
    {
        let adjustment = &adjustments[i];
        assert(semantic_adjustment_list_view(adjustments@)[i as int] == adjustment@);
        proof { unfold_semantic_adjustment(*adjustment); }
        match adjustment {
            SemanticAdjustment::SliceDescriptors { descriptors, set_value_keyword } => {
                return Some(
                    (
                        copy_vec(descriptors),
                        (match set_value_keyword { Some(y) => Some(y.clone()), None => None }),
                    )
                );
            },
            _ => {
                assert(!(adjustment@ is SliceDescriptors));
            },
        }
        i = i + 1;
    }
    None
}

pub open spec fn explicit_destroy_among(
    adjustments: Seq<SemanticAdjustmentView>,
    i: nat,
) -> bool
    decreases adjustments, (adjustments.len() - i) as nat,
{
    if i >= adjustments.len() {
        false
    } else {
        let adjustment = adjustments[i as int];
        match adjustment {
            SemanticAdjustmentView::ExplicitDestroy => true,
            _ => explicit_destroy_among(adjustments, i + 1),
        }
    }
}

/// See [`explicit_destroy_among`].
pub fn destroys_explicitly(adjustments: &Vec<SemanticAdjustment>) -> (r: bool)
    ensures
        r == explicit_destroy_among(semantic_adjustment_list_view(adjustments@), 0),
    decreases adjustments@, 0nat,
{
    let ghost goal = explicit_destroy_among(semantic_adjustment_list_view(adjustments@), 0);
    let mut i: usize = 0;
    while i < adjustments.len()
        invariant
            i <= adjustments@.len(),
            semantic_adjustment_list_view(adjustments@).len() == adjustments@.len(),
            explicit_destroy_among(semantic_adjustment_list_view(adjustments@), i as nat) == goal,
            goal == explicit_destroy_among(semantic_adjustment_list_view(adjustments@), 0),
        decreases adjustments@.len() - i,
    {
        let adjustment = &adjustments[i];
        assert(semantic_adjustment_list_view(adjustments@)[i as int] == adjustment@);
        proof { unfold_semantic_adjustment(*adjustment); }
        match adjustment {
            SemanticAdjustment::ExplicitDestroy => {
                return true;
            },
            _ => {
                assert(!(adjustment@ is ExplicitDestroy));
            },
        }
        i = i + 1;
    }
    false
}

#[verifier::opaque]
pub open spec fn resolved_target(h: Option<HirExprView>) -> Option<Seq<char>> {
    callable_among(known_adjustments(h), 0)
}

/// See [`resolved_target`].
pub fn resolved_callable(h: Option<&HirExpr>) -> (r: Option<String>)
    ensures
        opt_view(r) == resolved_target(opt_view(h)),
{
    proof { reveal(resolved_target); }
    find_callable(&fact_adjustments(h))
}

/// The nested function of a name.
pub open spec fn nested_named(
    nested: Seq<NestedInfoView>,
    name: Seq<char>,
    i: nat,
) -> Option<NestedInfoView>
    decreases nested, (nested.len() - i) as nat,
{
    if i >= nested.len() {
        None
    } else {
        let info = nested[i as int];
        if info.name == name {
            Some(info)
        } else {
            nested_named(nested, name, i + 1)
        }
    }
}

/// See [`nested_named`].
pub fn find_nested(nested: &Vec<NestedInfo>, name: &String) -> (r: Option<NestedInfo>)
    ensures
        opt_view(r) == nested_named(nested_info_list_view(nested@), name@, 0),
    decreases nested@, 0nat,
{
    let ghost goal = nested_named(nested_info_list_view(nested@), name@, 0);
    let mut i: usize = 0;
    while i < nested.len()
        invariant
            i <= nested@.len(),
            nested_info_list_view(nested@).len() == nested@.len(),
            nested_named(nested_info_list_view(nested@), name@, i as nat) == goal,
            goal == nested_named(nested_info_list_view(nested@), name@, 0),
        decreases nested@.len() - i,
    {
        let info = &nested[i];
        assert(nested_info_list_view(nested@)[i as int] == info@);
        if same_string(&info.name, name) {
            return Some(clone_nested_info(info));
        }
        i = i + 1;
    }
    None
}

/// Whether a name is that of a function.
pub open spec fn names_function(
    functions: Seq<OverloadEntryView>,
    name: Seq<char>,
    i: nat,
) -> bool
    decreases functions, (functions.len() - i) as nat,
{
    if i >= functions.len() {
        false
    } else {
        let entry = functions[i as int];
        if entry.name == name {
            true
        } else {
            names_function(functions, name, i + 1)
        }
    }
}

/// See [`names_function`].
pub fn is_function(functions: &Vec<OverloadEntry>, name: &String) -> (r: bool)
    ensures
        r == names_function(overload_entry_list_view(functions@), name@, 0),
    decreases functions@, 0nat,
{
    let ghost goal = names_function(overload_entry_list_view(functions@), name@, 0);
    let mut i: usize = 0;
    while i < functions.len()
        invariant
            i <= functions@.len(),
            overload_entry_list_view(functions@).len() == functions@.len(),
            names_function(overload_entry_list_view(functions@), name@, i as nat) == goal,
            goal == names_function(overload_entry_list_view(functions@), name@, 0),
        decreases functions@.len() - i,
    {
        let entry = &functions[i];
        assert(overload_entry_list_view(functions@)[i as int] == entry@);
        if same_string(&entry.name, name) {
            return true;
        }
        i = i + 1;
    }
    false
}

/// Whether a call of a name with so many arguments is ambiguous by name.
pub open spec fn names_overloaded(
    functions: Seq<OverloadEntryView>,
    name: Seq<char>,
    argc: usize,
    i: nat,
) -> bool
    decreases functions, (functions.len() - i) as nat,
{
    if i >= functions.len() {
        false
    } else {
        let entry = functions[i as int];
        if entry.name == name && entry.argc == argc && entry.overloaded {
            true
        } else {
            names_overloaded(functions, name, argc, i + 1)
        }
    }
}

/// See [`names_overloaded`].
pub fn is_overloaded(functions: &Vec<OverloadEntry>, name: &String, argc: usize) -> (r: bool)
    ensures
        r == names_overloaded(overload_entry_list_view(functions@), name@, argc, 0),
    decreases functions@, 0nat,
{
    let ghost goal = names_overloaded(overload_entry_list_view(functions@), name@, argc, 0);
    let mut i: usize = 0;
    while i < functions.len()
        invariant
            i <= functions@.len(),
            overload_entry_list_view(functions@).len() == functions@.len(),
            names_overloaded(overload_entry_list_view(functions@), name@, argc, i as nat) == goal,
            goal == names_overloaded(overload_entry_list_view(functions@), name@, argc, 0),
        decreases functions@.len() - i,
    {
        let entry = &functions[i];
        assert(overload_entry_list_view(functions@)[i as int] == entry@);
        if same_string(&entry.name, name) && entry.argc == argc && entry.overloaded {
            return true;
        }
        i = i + 1;
    }
    false
}

/// The target of a call that the checker did not resolve: the name itself, or
/// for an overloaded name a mark that no function has.
#[verifier::opaque]
pub open spec fn unresolved_target(
    functions: Seq<OverloadEntryView>,
    name: Seq<char>,
    argc: usize,
) -> Seq<char> {
    if names_overloaded(functions, name, argc, 0) {
        "$unresolved_overload$"@ + name + "$"@ + decimal(argc as nat)
    } else {
        name
    }
}

/// See [`unresolved_target`].
pub fn overloaded_name(
    functions: &Vec<OverloadEntry>,
    name: &String,
    argc: usize,
) -> (r: String)
    ensures
        r@ == unresolved_target(overload_entry_list_view(functions@), name@, argc),
{
    proof { reveal(unresolved_target); }
    if is_overloaded(functions, name, argc) {
        cat4("$unresolved_overload$", name.as_str(), "$", show_usize(argc).as_str())
    } else {
        name.clone()
    }
}

pub open spec fn holds_slot(slots: Seq<u32>, slot: u32, i: nat) -> bool
    decreases slots, (slots.len() - i) as nat,
{
    if i >= slots.len() {
        false
    } else {
        let candidate = slots[i as int];
        if candidate == slot {
            true
        } else {
            holds_slot(slots, slot, i + 1)
        }
    }
}

/// See [`holds_slot`].
pub fn contains_slot(slots: &Vec<u32>, slot: u32) -> (r: bool)
    ensures
        r == holds_slot(slots@, slot, 0),
    decreases slots@, 0nat,
{
    let ghost goal = holds_slot(slots@, slot, 0);
    let mut i: usize = 0;
    while i < slots.len()
        invariant
            i <= slots@.len(),
            holds_slot(slots@, slot, i as nat) == goal,
            goal == holds_slot(slots@, slot, 0),
        decreases slots@.len() - i,
    {
        let candidate = &slots[i];
        if *candidate == slot {
            return true;
        }
        i = i + 1;
    }
    false
}

/// Whether the checked type of an expression is a pointer with an origin that can be followed:
/// a place or a parameter.
#[verifier::opaque]
pub open spec fn bears_origin(h: Option<HirExprView>) -> bool {
    match known_ty(h) {
        Some(ty) => match ty {
            TyView::Pointer { origin, .. } => match origin {
                PointerOriginView::Place { .. } => true,
                PointerOriginView::Param { .. } => true,
                _ => false,
            },
            _ => false,
        },
        None => false,
    }
}

/// See [`bears_origin`].
pub fn is_origin_bearing_pointer(h: Option<&HirExpr>) -> (r: bool)
    ensures
        r == bears_origin(opt_view(h)),
{
    proof { reveal(bears_origin); }
    match fact_ty(h) {
        Some(ty) => {
            proof { unfold_ty(ty); }
            match ty {
                Ty::Pointer { origin, .. } => {
                    match origin {
                        PointerOrigin::Place { .. } => true,
                        PointerOrigin::Param { .. } => true,
                        _ => {
                            assert(!(origin@ is Place));
                            assert(!(origin@ is Param));
                            false
                        },
                    }
                },
                _ => {
                    assert(!(ty@ is Pointer));
                    false
                },
            }
        },
        None => false,
    }
}

/// Whether the checked type of an expression is a slice descriptor.
#[verifier::opaque]
pub open spec fn is_descriptor(h: Option<HirExprView>) -> bool {
    match known_ty(h) {
        Some(ty) => match ty {
            TyView::Struct(name, args) => args.len() == 0 && (
                name == "Slice"@ || name == "ContiguousSlice"@ || name == "StridedSlice"@
            ),
            _ => false,
        },
        None => false,
    }
}

/// See [`is_descriptor`].
pub fn is_slice_descriptor(h: Option<&HirExpr>) -> (r: bool)
    ensures
        r == is_descriptor(opt_view(h)),
{
    proof { reveal(is_descriptor); }
    match fact_ty(h) {
        Some(ty) => {
            proof { unfold_ty(ty); }
            match ty {
                Ty::Struct(name, args) => args.len() == 0 && (
                    same_text(&name.as_str(), "Slice") || same_text(
                        &name.as_str(),
                        "ContiguousSlice",
                    ) || same_text(&name.as_str(), "StridedSlice")
                ),
                _ => {
                    assert(!(ty@ is Struct));
                    false
                },
            }
        },
        None => false,
    }
}

#[verifier::opaque]
pub open spec fn is_reference_ty(ty: Option<TyView>) -> bool {
    match ty {
        Some(ty) => (ty matches TyView::Ref(_)),
        None => false,
    }
}

/// See [`is_reference_ty`].
pub fn is_reference(ty: &Option<Ty>) -> (r: bool)
    ensures
        r == is_reference_ty(opt_view(*ty)),
{
    proof { reveal(is_reference_ty); }
    match ty {
        Some(ty) => matches!(ty, Ty::Ref(_)),
        None => false,
    }
}

#[verifier::opaque]
pub open spec fn with_var_type(s: FlattenView, var: u32, ty: TyView) -> FlattenView {
    let s = FlattenView { var_types: s.var_types.push((var, ty)), ..s };
    s
}

#[verifier::opaque]
pub open spec fn with_opt_var_type(s: FlattenView, var: u32, ty: Option<TyView>) -> FlattenView {
    match ty {
        Some(ty) => {
            let s = with_var_type(s, var, ty);
            s
        },
        None => s,
    }
}

#[verifier::opaque]
pub open spec fn with_reg_type(s: FlattenView, reg: Reg, ty: Option<TyView>) -> FlattenView {
    match ty {
        Some(ty) => {
            let s = FlattenView { reg_types: s.reg_types.push((reg.0, ty)), ..s };
            s
        },
        None => s,
    }
}

#[verifier::opaque]
pub open spec fn with_owner_var(s: FlattenView, owner: OwnerId, var: u32) -> FlattenView {
    let s = FlattenView { owner_vars: s.owner_vars.push((owner, var)), ..s };
    s
}

#[verifier::opaque]
pub open spec fn with_alias(s: FlattenView, var: u32, loan: LoanView) -> FlattenView {
    let s = FlattenView { aliases: s.aliases.push((var, loan)), ..s };
    s
}

#[verifier::opaque]
pub open spec fn with_loans(s: FlattenView, var: u32, loans: Seq<LoanView>) -> FlattenView {
    let s = FlattenView { aggregate_loans: s.aggregate_loans.push((var, loans)), ..s };
    s
}

#[verifier::opaque]
pub open spec fn with_runtime_alias(s: FlattenView, var: u32) -> FlattenView {
    let s = FlattenView { runtime_aliases: s.runtime_aliases.push(var), ..s };
    s
}

#[verifier::opaque]
pub open spec fn at_block(s: FlattenView, block: usize) -> FlattenView {
    let s = FlattenView { cur: block, ..s };
    s
}

/// A variable of the compiler's own.
#[verifier::opaque]
pub open spec fn fresh_slot(s: FlattenView) -> (FlattenView, u32) {
    let count = s.vars.len() as usize;
    let name = "$sc"@ + decimal(count as nat);
    let s = FlattenView { vars: s.vars.push(name), ..s };
    (s, count as u32)
}

/// The slot of a variable: that of its checked binding, else that of its name.
#[verifier::opaque]
pub open spec fn slot_of_use(
    s: FlattenView,
    name: Seq<char>,
    h: Option<HirExprView>,
) -> (FlattenView, u32) {
    let bound = bound_slot(s, h);
    match bound {
        Some(var) => (s, var),
        None => interned(s, name),
    }
}

#[verifier::opaque]
pub open spec fn bound_slot(s: FlattenView, h: Option<HirExprView>) -> Option<u32> {
    match known_owner(h) {
        Some(owner) => owner_slot(s.owner_vars, owner),
        None => None,
    }
}

/// The place of a slot: what a local reference stands for, else the variable.
#[verifier::opaque]
pub open spec fn place_of_slot(s: FlattenView, var: u32) -> MirPlaceView {
    match alias_of(s.aliases, var) {
        Some(loan) => accessed_through(loan.place, var),
        None => whole_place(var, slot_type(s.var_types, var)),
    }
}

/// The variable itself, accessed through the reference it holds.
#[verifier::opaque]
pub open spec fn place_of_handle(s: FlattenView, var: u32) -> MirPlaceView {
    accessed_through(whole_place(var, slot_type(s.var_types, var)), var)
}

#[verifier::opaque]
pub open spec fn place_of_name(s: FlattenView, name: Seq<char>) -> (FlattenView, MirPlaceView) {
    let (s, var) = interned(s, name);
    (s, place_of_slot(s, var))
}

/// The root of a place expression, with its recorded type when the slot has
/// none yet.
#[verifier::opaque]
pub open spec fn place_of_use(
    s: FlattenView,
    name: Seq<char>,
    h: Option<HirExprView>,
) -> (FlattenView, MirPlaceView) {
    let bound = bound_slot(s, h);
    let (s, place) = match bound {
        Some(var) => (s, place_of_slot(s, var)),
        None => place_of_name(s, name),
    };
    if place.root_ty is None {
        let ty = known_any_ty(h);
        let s = with_opt_var_type(s, place.root, ty);
        (s, with_root_ty(place, ty))
    } else {
        (s, place)
    }
}

/// A constant in a fresh register.
#[verifier::opaque]
pub open spec fn lowered_constant(
    s: FlattenView,
    e: ExprView,
    k: ConstView,
) -> (FlattenView, Reg) {
    let (s, dest) = fresh_reg(s, e.span, e.source, None);
    let s = emitted(s, MirInstrView::Const { dest, k });
    (s, dest)
}

#[verifier::opaque]
pub open spec fn defined(s: FlattenView, var: u32, src: Reg, ty: Option<TyView>) -> FlattenView {
    let s = emitted(s, MirInstrView::DefVar { var, src, binding_ty: ty });
    s
}

#[verifier::opaque]
pub open spec fn marked_unsupported(s: FlattenView, text: Seq<char>) -> FlattenView {
    let s = emitted(s, MirInstrView::Unsupported(text));
    s
}

/// The closure of a nested function, in a fresh register.
#[verifier::opaque]
pub open spec fn lowered_closure(
    s: FlattenView,
    e: ExprView,
    info: NestedInfoView,
) -> (FlattenView, Reg) {
    let (s, captures) = captured_places(s, info.captures, 0, Seq::empty());
    let (s, dest) = fresh_reg(s, e.span, e.source, None);
    let s = emitted(s, MirInstrView::MakeClosure { dest, function: info.mangled, captures });
    (s, dest)
}

pub open spec fn captured_places(
    s: FlattenView,
    captures: Seq<CaptureView>,
    i: nat,
    out: Seq<MirClosureCaptureView>,
) -> (FlattenView, Seq<MirClosureCaptureView>)
    decreases captures, (captures.len() - i) as nat,
{
    if i >= captures.len() {
        (s, out)
    } else {
        let capture = captures[i as int];
        let (s, place) = place_of_name(s, capture.name);
        let out = out.push(
            MirClosureCaptureView { place, moved: capture.kind == CaptureKind::Move }
        );
        captured_places(s, captures, i + 1, out)
    }
}

/// Read a variable: the function it names, the closure it names, or its
/// value.
#[verifier::opaque]
pub open spec fn lowered_identifier(
    s: FlattenView,
    e: ExprView,
    name: Seq<char>,
    h: Option<HirExprView>,
) -> (FlattenView, Reg) {
    match resolved_target(h) {
        Some(target) => lowered_constant(s, e, ConstView::Function(target)),
        None => match nested_named(s.nested, name, 0) {
            Some(info) => lowered_closure(s, e, info),
            None => if !s.vars.contains(name) && names_function(s.overloads.functions, name, 0) {
                lowered_constant(s, e, ConstView::Function(name))
            } else {
                lowered_read(s, e, name, h)
            },
        },
    }
}

#[verifier::opaque]
pub open spec fn lowered_read(
    s: FlattenView,
    e: ExprView,
    name: Seq<char>,
    h: Option<HirExprView>,
) -> (FlattenView, Reg) {
    let (s, var) = slot_of_use(s, name, h);
    let (s, dest) = fresh_reg(s, e.span, e.source, Some(var));
    let s = if bears_origin(h) {
        let place = whole_place(var, slot_type(s.var_types, var));
        let s = emitted(s, MirInstrView::MakeRef { dest, place });
        s
    } else {
        match alias_of(s.aliases, var) {
            Some(loan) => {
                let s = emitted(
                    s,
                    MirInstrView::LoadPlace { dest, place: accessed_through(loan.place, var) },
                );
                s
            },
            None => if holds_slot(s.runtime_aliases, var, 0) {
                let (s, handle) = fresh_reg(s, e.span, e.source, Some(var));
                let place = place_of_handle(s, var);
                let s = emitted(s, MirInstrView::MakeRef { dest: handle, place });
                let s = emitted(s, MirInstrView::ReadRef { dest, reference: handle });
                s
            } else {
                let s = emitted(s, MirInstrView::UseVar { dest, var, mode: UseMode::Copy });
                s
            },
        }
    };
    (s, dest)
}

impl Flatten {
    /// See [`with_var_type`].
    pub fn set_var_type(self, var: u32, ty: Ty) -> (r: Flatten)
        ensures
            r@ == with_var_type(self@, var, ty@),
    {
        proof { reveal(with_var_type); }
        let mut this = self;
        let item = (var, ty);
        let ghost before = slot_ty_list_view(this.var_types@);
        let ghost added = (item.0, item.1@);
        this.var_types.push(item);
        assert(slot_ty_list_view(this.var_types@) =~= before.push(added));
        return this;
    }

    /// See [`with_opt_var_type`].
    pub fn set_opt_var_type(self, var: u32, ty: &Option<Ty>) -> (r: Flatten)
        ensures
            r@ == with_opt_var_type(self@, var, opt_view(*ty)),
    {
        proof { reveal(with_opt_var_type); }
        let mut this = self;
        match ty {
            Some(ty) => {
                return this.set_var_type(var, clone_ty(ty));
            },
            None => {
                return this;
            },
        }
    }

    /// See [`with_reg_type`].
    pub fn set_reg_type(self, reg: Reg, ty: Option<Ty>) -> (r: Flatten)
        ensures
            r@ == with_reg_type(self@, reg, opt_view(ty)),
    {
        proof { reveal(with_reg_type); }
        let mut this = self;
        match ty {
            Some(ty) => {
                let item = (reg.0, ty);
                let ghost before = slot_ty_list_view(this.reg_types@);
                let ghost added = (item.0, item.1@);
                this.reg_types.push(item);
                assert(slot_ty_list_view(this.reg_types@) =~= before.push(added));
                return this;
            },
            None => {
                return this;
            },
        }
    }

    /// See [`with_owner_var`].
    pub fn set_owner_var(self, owner: OwnerId, var: u32) -> (r: Flatten)
        ensures
            r@ == with_owner_var(self@, owner, var),
    {
        proof { reveal(with_owner_var); }
        let mut this = self;
        this.owner_vars.push((owner, var));
        return this;
    }

    /// See [`with_alias`].
    pub fn set_alias(self, var: u32, loan: Loan) -> (r: Flatten)
        ensures
            r@ == with_alias(self@, var, loan@),
    {
        proof { reveal(with_alias); }
        let mut this = self;
        let item = (var, loan);
        let ghost before = slot_loan_list_view(this.aliases@);
        let ghost added = (item.0, item.1@);
        this.aliases.push(item);
        assert(slot_loan_list_view(this.aliases@) =~= before.push(added));
        return this;
    }

    /// See [`with_loans`].
    pub fn set_loans(self, var: u32, loans: Vec<Loan>) -> (r: Flatten)
        ensures
            r@ == with_loans(self@, var, loan_list_view(loans@)),
    {
        proof { reveal(with_loans); }
        let mut this = self;
        let item = (var, loans);
        let ghost before = slot_loans_list_view(this.aggregate_loans@);
        let ghost added = (item.0, loan_list_view(item.1@));
        this.aggregate_loans.push(item);
        assert(slot_loans_list_view(this.aggregate_loans@) =~= before.push(added));
        return this;
    }

    /// See [`with_runtime_alias`].
    pub fn add_runtime_alias(self, var: u32) -> (r: Flatten)
        ensures
            r@ == with_runtime_alias(self@, var),
    {
        proof { reveal(with_runtime_alias); }
        let mut this = self;
        this.runtime_aliases.push(var);
        return this;
    }

    /// See [`at_block`].
    pub fn goto(self, block: usize) -> (r: Flatten)
        ensures
            r@ == at_block(self@, block),
    {
        proof { reveal(at_block); }
        let mut this = self;
        this.cur = block;
        return this;
    }

    /// See [`fresh_slot`].
    pub fn fresh_var(self) -> (r: (Flatten, u32))
        ensures
            r.0@ == fresh_slot(self@).0,
            r.1 == fresh_slot(self@).1,
    {
        proof { reveal(fresh_slot); }
        let mut this = self;
        let count: usize = this.vars.len();
        let name = cat2("$sc", show_usize(count).as_str());
        let ghost before = string_list_view(this.vars@);
        let ghost added = name@;
        this.vars.push(name);
        assert(string_list_view(this.vars@) =~= before.push(added));
        return (this, count as u32);
    }

    /// See [`slot_of_use`].
    pub fn expression_var(self, name: &String, h: Option<&HirExpr>) -> (r: (Flatten, u32))
        ensures
            r.0@ == slot_of_use(self@, name@, opt_view(h)).0,
            r.1 == slot_of_use(self@, name@, opt_view(h)).1,
    {
        proof { reveal(slot_of_use); }
        let mut this = self;
        let bound = this.owner_var(h);
        match bound {
            Some(var) => {
                return (this, var);
            },
            None => {
                return this.var(name);
            },
        }
    }

    /// See [`bound_slot`].
    pub fn owner_var(&self, h: Option<&HirExpr>) -> (r: Option<u32>)
        ensures
            r == bound_slot(self@, opt_view(h)),
    {
        proof { reveal(bound_slot); }
        match fact_owner(h) {
            Some(owner) => find_owner_var(&self.owner_vars, owner),
            None => None,
        }
    }

    /// See [`place_of_slot`].
    pub fn slot_place(&self, var: u32) -> (r: MirPlace)
        ensures
            r@ == place_of_slot(self@, var),
    {
        proof { reveal(place_of_slot); }
        match find_alias(&self.aliases, var) {
            Some(loan) => through(loan.place, var),
            None => root_place(var, find_slot_ty(&self.var_types, var)),
        }
    }

    /// See [`place_of_handle`].
    pub fn handle_place(&self, var: u32) -> (r: MirPlace)
        ensures
            r@ == place_of_handle(self@, var),
    {
        proof { reveal(place_of_handle); }
        through(root_place(var, find_slot_ty(&self.var_types, var)), var)
    }

    /// See [`place_of_name`].
    pub fn resolved_place(self, name: &String) -> (r: (Flatten, MirPlace))
        ensures
            r.0@ == place_of_name(self@, name@).0,
            r.1@ == place_of_name(self@, name@).1,
    {
        proof { reveal(place_of_name); }
        let mut this = self;
        let (next, var) = this.var(name);
        this = next;
        let result = this.slot_place(var);
        return (this, result);
    }

    /// See [`place_of_use`].
    pub fn place_root(self, name: &String, h: Option<&HirExpr>) -> (r: (Flatten, MirPlace))
        ensures
            r.0@ == place_of_use(self@, name@, opt_view(h)).0,
            r.1@ == place_of_use(self@, name@, opt_view(h)).1,
    {
        proof { reveal(place_of_use); }
        let mut this = self;
        let bound = this.owner_var(h);
        let place = match bound {
            Some(var) => this.slot_place(var),
            None => {
                let (next, value) = this.resolved_place(name);
                this = next;
                value
            },
        };
        if place.root_ty.is_none() {
            let ty = fact_any_ty(h);
            this = this.set_opt_var_type(place.root, &ty);
            return (this, typed_root(place, ty));
        } else {
            return (this, place);
        }
    }

    /// See [`lowered_constant`].
    pub fn constant(self, e: &Expr, k: Const) -> (r: (Flatten, Reg))
        ensures
            r.0@ == lowered_constant(self@, e@, k@).0,
            r.1 == lowered_constant(self@, e@, k@).1,
    {
        proof { reveal(lowered_constant); }
        let mut this = self;
        let (next, dest) = this.fresh(e.span, &e.source, None);
        this = next;
        let instr = MirInstr::Const { dest, k };
        proof { unfold_mir_instr(instr); }
        this = this.emit(instr);
        return (this, dest);
    }

    /// See [`defined`].
    pub fn define(self, var: u32, src: Reg, ty: Option<Ty>) -> (r: Flatten)
        ensures
            r@ == defined(self@, var, src, opt_view(ty)),
    {
        proof { reveal(defined); }
        let mut this = self;
        let instr = MirInstr::DefVar { var, src, binding_ty: ty };
        proof { unfold_mir_instr(instr); }
        return this.emit(instr);
    }

    /// See [`marked_unsupported`].
    pub fn unsupported(self, text: String) -> (r: Flatten)
        ensures
            r@ == marked_unsupported(self@, text@),
    {
        proof { reveal(marked_unsupported); }
        let mut this = self;
        let instr = MirInstr::Unsupported(text);
        proof { unfold_mir_instr(instr); }
        return this.emit(instr);
    }

    /// See [`lowered_closure`].
    pub fn make_closure(self, e: &Expr, info: &NestedInfo) -> (r: (Flatten, Reg))
        ensures
            r.0@ == lowered_closure(self@, e@, info@).0,
            r.1 == lowered_closure(self@, e@, info@).1,
    {
        proof { reveal(lowered_closure); }
        let mut this = self;
        let (next, captures) = this.capture_places(&info.captures);
        this = next;
        let (next2, dest) = this.fresh(e.span, &e.source, None);
        this = next2;
        let instr = MirInstr::MakeClosure { dest, function: (&info.mangled).clone(), captures };
        proof { unfold_mir_instr(instr); }
        this = this.emit(instr);
        return (this, dest);
    }

    /// See [`captured_places`].
    pub fn capture_places(self, captures: &Vec<Capture>) -> (r: (Flatten, Vec<MirClosureCapture>))
        ensures
            r.0@ == captured_places(
                self@,
                capture_list_view(captures@),
                0,
                Seq::<MirClosureCaptureView>::empty(),
            ).0,
            mir_closure_capture_list_view(r.1@) == captured_places(
                self@,
                capture_list_view(captures@),
                0,
                Seq::<MirClosureCaptureView>::empty(),
            ).1,
        decreases captures@, 0nat,
    {
        let mut this = self;
        let mut out: Vec<MirClosureCapture> = Vec::new();
        assert(mir_closure_capture_list_view(out@) =~= Seq::<MirClosureCaptureView>::empty());
        let ghost goal = captured_places(
            self@,
            capture_list_view(captures@),
            0,
            Seq::<MirClosureCaptureView>::empty(),
        );
        let mut i: usize = 0;
        while i < captures.len()
            invariant
                i <= captures@.len(),
                capture_list_view(captures@).len() == captures@.len(),
                captured_places(
                    this@,
                    capture_list_view(captures@),
                    i as nat,
                    mir_closure_capture_list_view(out@),
                ) == goal,
                goal == captured_places(
                    self@,
                    capture_list_view(captures@),
                    0,
                    Seq::<MirClosureCaptureView>::empty(),
                ),
            decreases captures@.len() - i,
        {
            let capture = &captures[i];
            assert(capture_list_view(captures@)[i as int] == capture@);
            let (next, place) = this.resolved_place(&capture.name);
            this = next;
            let item = MirClosureCapture { place, moved: capture.kind == CaptureKind::Move };
            let ghost before = mir_closure_capture_list_view(out@);
            let ghost added = item@;
            out.push(item);
            assert(mir_closure_capture_list_view(out@) =~= before.push(added));
            i = i + 1;
        }
        (this, out)
    }

    /// See [`lowered_identifier`].
    pub fn identifier(self, e: &Expr, name: &String, h: Option<&HirExpr>) -> (r: (Flatten, Reg))
        ensures
            r.0@ == lowered_identifier(self@, e@, name@, opt_view(h)).0,
            r.1 == lowered_identifier(self@, e@, name@, opt_view(h)).1,
    {
        proof { reveal(lowered_identifier); }
        let mut this = self;
        match resolved_callable(h) {
            Some(target) => {
                return this.constant(e, Const::Function(target));
            },
            None => {
                match find_nested(&this.nested, name) {
                    Some(info) => {
                        return this.make_closure(e, &info);
                    },
                    None => {
                        if !contains_name(&this.vars, name) && is_function(
                            &this.overloads.functions,
                            name,
                        ) {
                            return this.constant(e, Const::Function(name.clone()));
                        } else {
                            return this.read_var(e, name, h);
                        }
                    },
                }
            },
        }
    }

    /// See [`lowered_read`].
    pub fn read_var(self, e: &Expr, name: &String, h: Option<&HirExpr>) -> (r: (Flatten, Reg))
        ensures
            r.0@ == lowered_read(self@, e@, name@, opt_view(h)).0,
            r.1 == lowered_read(self@, e@, name@, opt_view(h)).1,
    {
        proof { reveal(lowered_read); }
        let mut this = self;
        let (next, var) = this.expression_var(name, h);
        this = next;
        let (next2, dest) = this.fresh(e.span, &e.source, Some(var));
        this = next2;
        if is_origin_bearing_pointer(h) {
            let place = root_place(var, find_slot_ty(&this.var_types, var));
            let instr = MirInstr::MakeRef { dest, place };
            proof { unfold_mir_instr(instr); }
            this = this.emit(instr);
        } else {
            match find_alias(&this.aliases, var) {
                Some(loan) => {
                    let instr2 = MirInstr::LoadPlace { dest, place: through(loan.place, var) };
                    proof { unfold_mir_instr(instr2); }
                    this = this.emit(instr2);
                },
                None => {
                    if contains_slot(&this.runtime_aliases, var) {
                        let (next3, handle) = this.fresh(e.span, &e.source, Some(var));
                        this = next3;
                        let place = this.handle_place(var);
                        let instr3 = MirInstr::MakeRef { dest: handle, place };
                        proof { unfold_mir_instr(instr3); }
                        this = this.emit(instr3);
                        let instr4 = MirInstr::ReadRef { dest, reference: handle };
                        proof { unfold_mir_instr(instr4); }
                        this = this.emit(instr4);
                    } else {
                        let instr5 = MirInstr::UseVar { dest, var, mode: UseMode::Copy };
                        proof { unfold_mir_instr(instr5); }
                        this = this.emit(instr5);
                    }
                },
            }
        }
        return (this, dest);
    }
}

#[verifier::opaque]
pub open spec fn with_root_ty(place: MirPlaceView, ty: Option<TyView>) -> MirPlaceView {
    let place = MirPlaceView { root_ty: ty, ..place };
    let place = MirPlaceView { ty: ty, ..place };
    place
}

/// See [`with_root_ty`].
pub fn typed_root(place: MirPlace, ty: Option<Ty>) -> (r: MirPlace)
    ensures
        r@ == with_root_ty(place@, opt_view(ty)),
{
    proof { reveal(with_root_ty); }
    let mut place = place;
    place.root_ty = (match (&ty) { Some(y) => Some(clone_ty(y)), None => None });
    place.ty = ty;
    place
}

} // verus!
