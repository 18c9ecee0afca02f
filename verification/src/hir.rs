//! Control-flow graphs of basic blocks, with expressions still nested.

use crate::ast::{Expr, ExprView, Stmt, StmtView, clone_expr, clone_stmt, expr_view, stmt_view};
use crate::checked::{
    CheckedComprehensionBinding, CheckedComprehensionBindingView, CheckedExpr, CheckedExprView,
    CheckedNodeId, EffectFacts, EffectFactsView, IterationProtocol, IterationProtocolView,
    SemanticAdjustment, SemanticAdjustmentView, ValueCategory,
    checked_comprehension_binding_list_view, checked_expr_list_view,
    clone_checked_comprehension_binding_list, clone_effect_facts, clone_iteration_protocol,
    clone_semantic_adjustment_list, effect_facts_view, iteration_protocol_view,
    semantic_adjustment_list_view,
};
use crate::graph::{BlockGraph, BlockGraphView, block_graph_view};
use crate::origin::OwnerId;
use crate::text::{copy_vec, string_list_view};
use crate::types::{Ty, TyView, clone_ty, slot_ty_list_view, ty_view};
use vstd::prelude::*;

verus! {

/// One step from storage to a part of it.
#[derive(Debug, PartialEq, Eq)]
#[allow(inconsistent_fields)]
pub enum HirPlaceProjectionKind {
    Field(String),
    Index(CheckedNodeId),
    Variant(usize),
}

/// What a [`HirPlaceProjectionKind`] holds.
#[allow(inconsistent_fields)]
pub enum HirPlaceProjectionKindView {
    Field(Seq<char>),
    Index(CheckedNodeId),
    Variant(usize),
}

/// A projection with the types on both sides of it.
#[derive(Debug, PartialEq, Eq)]
pub struct HirPlaceProjection {
    pub kind: HirPlaceProjectionKind,
    pub base_ty: Ty,
    pub ty: Ty,
}

/// What a [`HirPlaceProjection`] holds.
pub struct HirPlaceProjectionView {
    pub kind: HirPlaceProjectionKindView,
    pub base_ty: TyView,
    pub ty: TyView,
}

/// The checked shape of a place.
#[derive(Debug, PartialEq, Eq)]
pub struct HirPlace {
    pub owner: OwnerId,
    pub root_ty: Ty,
    pub projections: Vec<HirPlaceProjection>,
    pub ty: Ty,
}

/// What a [`HirPlace`] holds.
pub struct HirPlaceView {
    pub owner: OwnerId,
    pub root_ty: TyView,
    pub projections: Seq<HirPlaceProjectionView>,
    pub ty: TyView,
}

/// An expression with its checked facts.
#[derive(Debug, PartialEq, Eq)]
pub struct HirExpr {
    pub syntax: Expr,
    pub checked: Option<CheckedNodeId>,
    pub ty: Option<Ty>,
    pub category: ValueCategory,
    pub effects: EffectFacts,
    pub adjustments: Vec<SemanticAdjustment>,
    /// Checked children in the structural order of `syntax`.
    pub children: Vec<HirExpr>,
    /// The checked place shape when the expression denotes storage.
    pub place: Option<HirPlace>,
    /// Generator binders of a comprehension, in the order of its `for` clauses.
    pub comprehension_bindings: Vec<CheckedComprehensionBinding>,
}

/// What a [`HirExpr`] holds.
pub struct HirExprView {
    pub syntax: ExprView,
    pub checked: Option<CheckedNodeId>,
    pub ty: Option<TyView>,
    pub category: ValueCategory,
    pub effects: EffectFactsView,
    pub adjustments: Seq<SemanticAdjustmentView>,
    pub children: Seq<HirExprView>,
    pub place: Option<HirPlaceView>,
    pub comprehension_bindings: Seq<CheckedComprehensionBindingView>,
}

/// A statement kept whole, with its checked expressions.
#[derive(Debug, PartialEq, Eq)]
pub struct HirStmt {
    pub syntax: Stmt,
    /// Checked roots owned directly by the statement, in syntax order.
    pub expressions: Vec<HirExpr>,
}

/// What a [`HirStmt`] holds.
pub struct HirStmtView {
    pub syntax: StmtView,
    pub expressions: Seq<HirExprView>,
}

/// A straight-line instruction of a basic block.
#[derive(Debug, PartialEq, Eq)]
#[allow(inconsistent_fields)]
pub enum HirInstr {
    /// A variable definition. Reassignments have no binding type.
    Bind { dest: u32, expr: HirExpr, binding_ty: Option<Ty> },
    /// An expression evaluated for its effect.
    Eval(HirExpr),
    /// Any other straight-line statement, kept whole.
    Stmt(HirStmt),
    Drop(u32),
    /// Turn the iterable in `iter` into an iterator.
    GetIter { iter: u32, protocol: IterationProtocol },
    /// Whether `iter` yields another element.
    HasNext { iter: u32, dest: u32, method: Option<String> },
    /// Bind the current element and advance `iter`.
    Next { iter: u32, dest: u32, method: Option<String> },
    /// A `try`, with the headers and exits of the loops around it.
    Try { stmt: HirStmt, loop_targets: Vec<(usize, usize)> },
}

/// What a [`HirInstr`] holds.
#[allow(inconsistent_fields)]
pub enum HirInstrView {
    Bind { dest: u32, expr: HirExprView, binding_ty: Option<TyView> },
    Eval(HirExprView),
    Stmt(HirStmtView),
    Drop(u32),
    GetIter { iter: u32, protocol: IterationProtocolView },
    HasNext { iter: u32, dest: u32, method: Option<Seq<char>> },
    Next { iter: u32, dest: u32, method: Option<Seq<char>> },
    Try { stmt: HirStmtView, loop_targets: Seq<(usize, usize)> },
}

/// How a block hands control on.
#[derive(Debug, PartialEq, Eq)]
#[allow(inconsistent_fields)]
pub enum Terminator {
    Jump(usize),
    Branch { cond: HirExpr, then_b: usize, else_b: usize },
    Return(Option<HirExpr>),
    /// The normal end of a region.
    FallOff,
    /// A jump to a block of the enclosing function.
    EscapeJump(usize),
}

/// What a [`Terminator`] holds.
#[allow(inconsistent_fields)]
pub enum TerminatorView {
    Jump(usize),
    Branch { cond: HirExprView, then_b: usize, else_b: usize },
    Return(Option<HirExprView>),
    FallOff,
    EscapeJump(usize),
}

/// A basic block.
#[derive(Debug, PartialEq, Eq)]
pub struct BasicBlock {
    pub instrs: Vec<HirInstr>,
    pub term: Option<Terminator>,
}

/// What a [`BasicBlock`] holds.
pub struct BasicBlockView {
    pub instrs: Seq<HirInstrView>,
    pub term: Option<TerminatorView>,
}

/// The control-flow graph of a function body or statement list.
#[derive(Debug)]
pub struct Cfg {
    pub g: BlockGraph,
    pub blocks: Vec<BasicBlock>,
    pub entry: usize,
    /// The name of each variable slot.
    pub vars: Vec<String>,
    /// How many leading slots are parameters.
    pub n_params: usize,
    pub checked_expressions: Vec<CheckedExpr>,
    /// Checked storage types of slots.
    pub var_types: Vec<(u32, Ty)>,
    /// Whether all blocks and edges found room.
    pub complete: bool,
}

/// What a [`Cfg`] holds.
pub struct CfgView {
    pub g: BlockGraphView,
    pub blocks: Seq<BasicBlockView>,
    pub entry: usize,
    pub vars: Seq<Seq<char>>,
    pub n_params: usize,
    pub checked_expressions: Seq<CheckedExprView>,
    pub var_types: Seq<(u32, TyView)>,
    pub complete: bool,
}

pub open spec fn hir_place_projection_kind_view(x: HirPlaceProjectionKind) -> HirPlaceProjectionKindView
    decreases x,
{
    match x {
        HirPlaceProjectionKind::Field(a0) => HirPlaceProjectionKindView::Field(a0@),
        HirPlaceProjectionKind::Index(a0) => HirPlaceProjectionKindView::Index(a0),
        HirPlaceProjectionKind::Variant(a0) => HirPlaceProjectionKindView::Variant(a0),
    }
}

impl View for HirPlaceProjectionKind {
    type V = HirPlaceProjectionKindView;

    open spec fn view(&self) -> HirPlaceProjectionKindView {
        hir_place_projection_kind_view(*self)
    }
}

pub fn clone_hir_place_projection_kind(x: &HirPlaceProjectionKind) -> (r: HirPlaceProjectionKind)
    ensures
        hir_place_projection_kind_view(r) == hir_place_projection_kind_view(*x),
    decreases x,
{
    match x {
        HirPlaceProjectionKind::Field(a0) => HirPlaceProjectionKind::Field(a0.clone()),
        HirPlaceProjectionKind::Index(a0) => HirPlaceProjectionKind::Index(*a0),
        HirPlaceProjectionKind::Variant(a0) => HirPlaceProjectionKind::Variant(*a0),
    }
}

impl Clone for HirPlaceProjectionKind {
    fn clone(&self) -> (r: Self)
        ensures
            r@ == self@,
    {
        clone_hir_place_projection_kind(self)
    }
}

pub open spec fn hir_place_projection_view(x: HirPlaceProjection) -> HirPlaceProjectionView
    decreases x,
{
    HirPlaceProjectionView {
        kind: hir_place_projection_kind_view(x.kind),
        base_ty: ty_view(x.base_ty),
        ty: ty_view(x.ty),
    }
}

impl View for HirPlaceProjection {
    type V = HirPlaceProjectionView;

    open spec fn view(&self) -> HirPlaceProjectionView {
        hir_place_projection_view(*self)
    }
}

pub fn clone_hir_place_projection(x: &HirPlaceProjection) -> (r: HirPlaceProjection)
    ensures
        hir_place_projection_view(r) == hir_place_projection_view(*x),
    decreases x,
{
    HirPlaceProjection {
        kind: clone_hir_place_projection_kind((&x.kind)),
        base_ty: clone_ty((&x.base_ty)),
        ty: clone_ty((&x.ty)),
    }
}

impl Clone for HirPlaceProjection {
    fn clone(&self) -> (r: Self)
        ensures
            r@ == self@,
    {
        clone_hir_place_projection(self)
    }
}

pub open spec fn hir_place_view(x: HirPlace) -> HirPlaceView
    decreases x,
{
    HirPlaceView {
        owner: x.owner,
        root_ty: ty_view(x.root_ty),
        projections: hir_place_projection_list_view(x.projections@),
        ty: ty_view(x.ty),
    }
}

impl View for HirPlace {
    type V = HirPlaceView;

    open spec fn view(&self) -> HirPlaceView {
        hir_place_view(*self)
    }
}

pub fn clone_hir_place(x: &HirPlace) -> (r: HirPlace)
    ensures
        hir_place_view(r) == hir_place_view(*x),
    decreases x,
{
    let r = HirPlace {
        owner: x.owner,
        root_ty: clone_ty((&x.root_ty)),
        projections: clone_hir_place_projection_list((&x.projections)),
        ty: clone_ty((&x.ty)),
    };
    proof {
        unfold_hir_place(*x);
        unfold_hir_place(r);
    }
    r
}

impl Clone for HirPlace {
    fn clone(&self) -> (r: Self)
        ensures
            r@ == self@,
    {
        clone_hir_place(self)
    }
}

pub open spec fn hir_expr_view(x: HirExpr) -> HirExprView
    decreases x,
{
    HirExprView {
        syntax: expr_view(x.syntax),
        checked: x.checked,
        ty: (match x.ty { Some(y) => Some(ty_view(y)), None => None }),
        category: x.category,
        effects: effect_facts_view(x.effects),
        adjustments: semantic_adjustment_list_view(x.adjustments@),
        children: hir_expr_list_view(x.children@),
        place: (match x.place { Some(y) => Some(hir_place_view(y)), None => None }),
        comprehension_bindings: checked_comprehension_binding_list_view(x.comprehension_bindings@),
    }
}

impl View for HirExpr {
    type V = HirExprView;

    open spec fn view(&self) -> HirExprView {
        hir_expr_view(*self)
    }
}

pub fn clone_hir_expr(x: &HirExpr) -> (r: HirExpr)
    ensures
        hir_expr_view(r) == hir_expr_view(*x),
    decreases x,
{
    let r = HirExpr {
        syntax: clone_expr((&x.syntax)),
        checked: x.checked,
        ty: (match (&x.ty) { Some(y) => Some(clone_ty(y)), None => None }),
        category: x.category,
        effects: clone_effect_facts((&x.effects)),
        adjustments: clone_semantic_adjustment_list((&x.adjustments)),
        children: clone_hir_expr_list((&x.children)),
        place: (match (&x.place) { Some(y) => Some(clone_hir_place(y)), None => None }),
        comprehension_bindings: clone_checked_comprehension_binding_list((&x.comprehension_bindings)),
    };
    proof {
        unfold_hir_expr(*x);
        unfold_hir_expr(r);
    }
    r
}

impl Clone for HirExpr {
    fn clone(&self) -> (r: Self)
        ensures
            r@ == self@,
    {
        clone_hir_expr(self)
    }
}

pub open spec fn hir_stmt_view(x: HirStmt) -> HirStmtView
    decreases x,
{
    HirStmtView {
        syntax: stmt_view(x.syntax),
        expressions: hir_expr_list_view(x.expressions@),
    }
}

impl View for HirStmt {
    type V = HirStmtView;

    open spec fn view(&self) -> HirStmtView {
        hir_stmt_view(*self)
    }
}

pub fn clone_hir_stmt(x: &HirStmt) -> (r: HirStmt)
    ensures
        hir_stmt_view(r) == hir_stmt_view(*x),
    decreases x,
{
    let r = HirStmt {
        syntax: clone_stmt((&x.syntax)),
        expressions: clone_hir_expr_list((&x.expressions)),
    };
    proof {
        unfold_hir_stmt(*x);
        unfold_hir_stmt(r);
    }
    r
}

impl Clone for HirStmt {
    fn clone(&self) -> (r: Self)
        ensures
            r@ == self@,
    {
        clone_hir_stmt(self)
    }
}

pub open spec fn hir_instr_view(x: HirInstr) -> HirInstrView
    decreases x,
{
    match x {
        HirInstr::Bind { dest, expr, binding_ty } => HirInstrView::Bind { dest, expr: hir_expr_view(expr), binding_ty: (match binding_ty { Some(y) => Some(ty_view(y)), None => None }) },
        HirInstr::Eval(a0) => HirInstrView::Eval(hir_expr_view(a0)),
        HirInstr::Stmt(a0) => HirInstrView::Stmt(hir_stmt_view(a0)),
        HirInstr::Drop(a0) => HirInstrView::Drop(a0),
        HirInstr::GetIter { iter, protocol } => HirInstrView::GetIter { iter, protocol: iteration_protocol_view(protocol) },
        HirInstr::HasNext { iter, dest, method } => HirInstrView::HasNext { iter, dest, method: (match method { Some(y) => Some(y@), None => None }) },
        HirInstr::Next { iter, dest, method } => HirInstrView::Next { iter, dest, method: (match method { Some(y) => Some(y@), None => None }) },
        HirInstr::Try { stmt, loop_targets } => HirInstrView::Try { stmt: hir_stmt_view(stmt), loop_targets: loop_targets@ },
    }
}

impl View for HirInstr {
    type V = HirInstrView;

    open spec fn view(&self) -> HirInstrView {
        hir_instr_view(*self)
    }
}

pub fn clone_hir_instr(x: &HirInstr) -> (r: HirInstr)
    ensures
        hir_instr_view(r) == hir_instr_view(*x),
    decreases x,
{
    match x {
        HirInstr::Bind { dest, expr, binding_ty } => HirInstr::Bind { dest: *dest, expr: clone_hir_expr(expr), binding_ty: (match binding_ty { Some(y) => Some(clone_ty(y)), None => None }) },
        HirInstr::Eval(a0) => HirInstr::Eval(clone_hir_expr(a0)),
        HirInstr::Stmt(a0) => HirInstr::Stmt(clone_hir_stmt(a0)),
        HirInstr::Drop(a0) => HirInstr::Drop(*a0),
        HirInstr::GetIter { iter, protocol } => HirInstr::GetIter { iter: *iter, protocol: clone_iteration_protocol(protocol) },
        HirInstr::HasNext { iter, dest, method } => HirInstr::HasNext { iter: *iter, dest: *dest, method: (match method { Some(y) => Some(y.clone()), None => None }) },
        HirInstr::Next { iter, dest, method } => HirInstr::Next { iter: *iter, dest: *dest, method: (match method { Some(y) => Some(y.clone()), None => None }) },
        HirInstr::Try { stmt, loop_targets } => HirInstr::Try { stmt: clone_hir_stmt(stmt), loop_targets: copy_vec(loop_targets) },
    }
}

impl Clone for HirInstr {
    fn clone(&self) -> (r: Self)
        ensures
            r@ == self@,
    {
        clone_hir_instr(self)
    }
}

pub open spec fn terminator_view(x: Terminator) -> TerminatorView
    decreases x,
{
    match x {
        Terminator::Jump(a0) => TerminatorView::Jump(a0),
        Terminator::Branch { cond, then_b, else_b } => TerminatorView::Branch { cond: hir_expr_view(cond), then_b, else_b },
        Terminator::Return(a0) => TerminatorView::Return((match a0 { Some(y) => Some(hir_expr_view(y)), None => None })),
        Terminator::FallOff => TerminatorView::FallOff,
        Terminator::EscapeJump(a0) => TerminatorView::EscapeJump(a0),
    }
}

impl View for Terminator {
    type V = TerminatorView;

    open spec fn view(&self) -> TerminatorView {
        terminator_view(*self)
    }
}

pub fn clone_terminator(x: &Terminator) -> (r: Terminator)
    ensures
        terminator_view(r) == terminator_view(*x),
    decreases x,
{
    match x {
        Terminator::Jump(a0) => Terminator::Jump(*a0),
        Terminator::Branch { cond, then_b, else_b } => Terminator::Branch { cond: clone_hir_expr(cond), then_b: *then_b, else_b: *else_b },
        Terminator::Return(a0) => Terminator::Return((match a0 { Some(y) => Some(clone_hir_expr(y)), None => None })),
        Terminator::FallOff => Terminator::FallOff,
        Terminator::EscapeJump(a0) => Terminator::EscapeJump(*a0),
    }
}

impl Clone for Terminator {
    fn clone(&self) -> (r: Self)
        ensures
            r@ == self@,
    {
        clone_terminator(self)
    }
}

pub open spec fn basic_block_view(x: BasicBlock) -> BasicBlockView
    decreases x,
{
    BasicBlockView {
        instrs: hir_instr_list_view(x.instrs@),
        term: (match x.term { Some(y) => Some(terminator_view(y)), None => None }),
    }
}

impl View for BasicBlock {
    type V = BasicBlockView;

    open spec fn view(&self) -> BasicBlockView {
        basic_block_view(*self)
    }
}

pub fn clone_basic_block(x: &BasicBlock) -> (r: BasicBlock)
    ensures
        basic_block_view(r) == basic_block_view(*x),
    decreases x,
{
    let r = BasicBlock {
        instrs: clone_hir_instr_list((&x.instrs)),
        term: (match (&x.term) { Some(y) => Some(clone_terminator(y)), None => None }),
    };
    proof {
        unfold_basic_block(*x);
        unfold_basic_block(r);
    }
    r
}

impl Clone for BasicBlock {
    fn clone(&self) -> (r: Self)
        ensures
            r@ == self@,
    {
        clone_basic_block(self)
    }
}

pub open spec fn cfg_view(x: Cfg) -> CfgView
    decreases x,
{
    CfgView {
        g: block_graph_view(x.g),
        blocks: basic_block_list_view(x.blocks@),
        entry: x.entry,
        vars: string_list_view(x.vars@),
        n_params: x.n_params,
        checked_expressions: checked_expr_list_view(x.checked_expressions@),
        var_types: slot_ty_list_view(x.var_types@),
        complete: x.complete,
    }
}

impl View for Cfg {
    type V = CfgView;

    open spec fn view(&self) -> CfgView {
        cfg_view(*self)
    }
}

pub open spec fn hir_place_projection_list_view(s: Seq<HirPlaceProjection>) -> Seq<HirPlaceProjectionView>
    decreases s,
{
    Seq::new(s.len(), |i: int| if 0 <= i < s.len() { hir_place_projection_view(s[i]) } else { arbitrary() })
}

pub fn clone_hir_place_projection_list(v: &Vec<HirPlaceProjection>) -> (r: Vec<HirPlaceProjection>)
    ensures
        hir_place_projection_list_view(r@) == hir_place_projection_list_view(v@),
        r@.len() == v@.len(),
    decreases v@,
{
    let mut r: Vec<HirPlaceProjection> = Vec::new();
    for i in 0..v.len()
        invariant
            r@.len() == i,
            forall|j: int| 0 <= j < i ==> hir_place_projection_view((#[trigger] r@[j])) == hir_place_projection_view(v@[j]),
    {
        r.push(clone_hir_place_projection((&v[i])));
    }
    assert(hir_place_projection_list_view(r@) =~= hir_place_projection_list_view(v@));
    r
}

pub open spec fn hir_expr_list_view(s: Seq<HirExpr>) -> Seq<HirExprView>
    decreases s,
{
    Seq::new(s.len(), |i: int| if 0 <= i < s.len() { hir_expr_view(s[i]) } else { arbitrary() })
}

pub fn clone_hir_expr_list(v: &Vec<HirExpr>) -> (r: Vec<HirExpr>)
    ensures
        hir_expr_list_view(r@) == hir_expr_list_view(v@),
        r@.len() == v@.len(),
    decreases v@,
{
    let mut r: Vec<HirExpr> = Vec::new();
    for i in 0..v.len()
        invariant
            r@.len() == i,
            forall|j: int| 0 <= j < i ==> hir_expr_view((#[trigger] r@[j])) == hir_expr_view(v@[j]),
    {
        r.push(clone_hir_expr((&v[i])));
    }
    assert(hir_expr_list_view(r@) =~= hir_expr_list_view(v@));
    r
}

pub open spec fn hir_stmt_list_view(s: Seq<HirStmt>) -> Seq<HirStmtView>
    decreases s,
{
    Seq::new(s.len(), |i: int| if 0 <= i < s.len() { hir_stmt_view(s[i]) } else { arbitrary() })
}

pub fn clone_hir_stmt_list(v: &Vec<HirStmt>) -> (r: Vec<HirStmt>)
    ensures
        hir_stmt_list_view(r@) == hir_stmt_list_view(v@),
        r@.len() == v@.len(),
    decreases v@,
{
    let mut r: Vec<HirStmt> = Vec::new();
    for i in 0..v.len()
        invariant
            r@.len() == i,
            forall|j: int| 0 <= j < i ==> hir_stmt_view((#[trigger] r@[j])) == hir_stmt_view(v@[j]),
    {
        r.push(clone_hir_stmt((&v[i])));
    }
    assert(hir_stmt_list_view(r@) =~= hir_stmt_list_view(v@));
    r
}

pub open spec fn hir_instr_list_view(s: Seq<HirInstr>) -> Seq<HirInstrView>
    decreases s,
{
    Seq::new(s.len(), |i: int| if 0 <= i < s.len() { hir_instr_view(s[i]) } else { arbitrary() })
}

pub fn clone_hir_instr_list(v: &Vec<HirInstr>) -> (r: Vec<HirInstr>)
    ensures
        hir_instr_list_view(r@) == hir_instr_list_view(v@),
        r@.len() == v@.len(),
    decreases v@,
{
    let mut r: Vec<HirInstr> = Vec::new();
    for i in 0..v.len()
        invariant
            r@.len() == i,
            forall|j: int| 0 <= j < i ==> hir_instr_view((#[trigger] r@[j])) == hir_instr_view(v@[j]),
    {
        r.push(clone_hir_instr((&v[i])));
    }
    assert(hir_instr_list_view(r@) =~= hir_instr_list_view(v@));
    r
}

pub open spec fn basic_block_list_view(s: Seq<BasicBlock>) -> Seq<BasicBlockView>
    decreases s,
{
    Seq::new(s.len(), |i: int| if 0 <= i < s.len() { basic_block_view(s[i]) } else { arbitrary() })
}

pub fn clone_basic_block_list(v: &Vec<BasicBlock>) -> (r: Vec<BasicBlock>)
    ensures
        basic_block_list_view(r@) == basic_block_list_view(v@),
        r@.len() == v@.len(),
    decreases v@,
{
    let mut r: Vec<BasicBlock> = Vec::new();
    for i in 0..v.len()
        invariant
            r@.len() == i,
            forall|j: int| 0 <= j < i ==> basic_block_view((#[trigger] r@[j])) == basic_block_view(v@[j]),
    {
        r.push(clone_basic_block((&v[i])));
    }
    assert(basic_block_list_view(r@) =~= basic_block_list_view(v@));
    r
}

pub proof fn unfold_hir_place(x: HirPlace)
    ensures
        hir_place_view(x) == (HirPlaceView { owner: x.owner, root_ty: ty_view(x.root_ty), projections: hir_place_projection_list_view(x.projections@), ty: ty_view(x.ty) }),
{
        assert(hir_place_view(x).projections =~= hir_place_projection_list_view(x.projections@));
}

pub proof fn unfold_hir_expr(x: HirExpr)
    ensures
        hir_expr_view(x) == (HirExprView { syntax: expr_view(x.syntax), checked: x.checked, ty: (match x.ty { Some(y) => Some(ty_view(y)), None => None }), category: x.category, effects: effect_facts_view(x.effects), adjustments: semantic_adjustment_list_view(x.adjustments@), children: hir_expr_list_view(x.children@), place: (match x.place { Some(y) => Some(hir_place_view(y)), None => None }), comprehension_bindings: checked_comprehension_binding_list_view(x.comprehension_bindings@) }),
{
        assert(hir_expr_view(x).adjustments =~= semantic_adjustment_list_view(x.adjustments@));
        assert(hir_expr_view(x).children =~= hir_expr_list_view(x.children@));
        assert(hir_expr_view(x).comprehension_bindings =~= checked_comprehension_binding_list_view(x.comprehension_bindings@));
}

pub proof fn unfold_hir_stmt(x: HirStmt)
    ensures
        hir_stmt_view(x) == (HirStmtView { syntax: stmt_view(x.syntax), expressions: hir_expr_list_view(x.expressions@) }),
{
        assert(hir_stmt_view(x).expressions =~= hir_expr_list_view(x.expressions@));
}

pub proof fn unfold_basic_block(x: BasicBlock)
    ensures
        basic_block_view(x) == (BasicBlockView { instrs: hir_instr_list_view(x.instrs@), term: (match x.term { Some(y) => Some(terminator_view(y)), None => None }) }),
{
        assert(basic_block_view(x).instrs =~= hir_instr_list_view(x.instrs@));
}

pub proof fn unfold_cfg(x: Cfg)
    ensures
        cfg_view(x) == (CfgView { g: block_graph_view(x.g), blocks: basic_block_list_view(x.blocks@), entry: x.entry, vars: string_list_view(x.vars@), n_params: x.n_params, checked_expressions: checked_expr_list_view(x.checked_expressions@), var_types: slot_ty_list_view(x.var_types@), complete: x.complete }),
{
        assert(cfg_view(x).blocks =~= basic_block_list_view(x.blocks@));
        assert(cfg_view(x).vars =~= string_list_view(x.vars@));
        assert(cfg_view(x).checked_expressions =~= checked_expr_list_view(x.checked_expressions@));
        assert(cfg_view(x).var_types =~= slot_ty_list_view(x.var_types@));
}

} // verus!
