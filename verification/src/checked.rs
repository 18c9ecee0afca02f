//! Facts the checker records about a program.

use crate::ast::{
    Dtype, Expr, ExprView, SliceKind, Stmt, StmtView, clone_expr, clone_stmt_list, expr_view,
    stmt_list_view,
};
use crate::origin::OwnerId;
use crate::text::{clone_string_list, copy_vec, same_string, string_list_view};
use crate::token::Span;
use crate::types::{
    Ty, TyView, clone_ty, clone_ty_list, clone_ty_pair_list, ty_list_view, ty_pair_list_view,
    ty_view,
};
use vstd::prelude::*;

verus! {

/// Stable identity of a checked expression.
#[derive(Debug, Clone, Copy, PartialEq, Eq, PartialOrd, Ord, Hash, Structural)]
pub struct CheckedNodeId(pub u32);

/// Whether an expression denotes a value or storage.
#[derive(Debug, Clone, Copy, PartialEq, Eq, Structural)]
pub enum ValueCategory {
    Value,
    Place,
}

/// How a loop holds what it iterates over.
#[derive(Debug, Clone, Copy, PartialEq, Eq, Structural)]
pub enum IterationMode {
    Borrowed,
    Owned,
}

/// The calls that drive a loop, as the checker resolved them.
#[derive(Debug, PartialEq, Eq)]
pub struct IterationProtocol {
    pub mode: IterationMode,
    pub prepare: Vec<String>,
    pub has_next: Option<String>,
    pub next: Option<String>,
}

/// What a [`IterationProtocol`] holds.
pub struct IterationProtocolView {
    pub mode: IterationMode,
    pub prepare: Seq<Seq<char>>,
    pub has_next: Option<Seq<char>>,
    pub next: Option<Seq<char>>,
}

/// The effect contract of an expression.
#[derive(Debug, PartialEq, Eq)]
pub struct EffectFacts {
    pub raises: Option<Ty>,
}

/// What a [`EffectFacts`] holds.
pub struct EffectFactsView {
    pub raises: Option<TyView>,
}

/// What the checker decided about an expression beyond its type.
#[derive(Debug, PartialEq, Eq)]
#[allow(inconsistent_fields)]
pub enum SemanticAdjustment {
    BorrowShared,
    BorrowMutable,
    ResolveCallable(String),
    ImplicitConversion(String),
    PointerToPlace { mutable: bool },
    ConstructVariant { alternatives: Vec<Ty>, index: usize },
    VariantIs { index: usize },
    VariantTypeSupported { supported: bool },
    VariantSet { index: usize },
    VariantTake { index: usize, checked: bool },
    VariantReplace { input_index: usize, output_index: usize, checked: bool },
    VariantProject { alternatives: Vec<Ty>, index: usize },
    ConstructSimd { dtype: Dtype, width: i64 },
    SliceDescriptors { descriptors: Vec<Option<SliceKind>>, set_value_keyword: Option<String> },
    Iterate(IterationProtocol),
    ExplicitDestroy,
}

/// What a [`SemanticAdjustment`] holds.
#[allow(inconsistent_fields)]
pub enum SemanticAdjustmentView {
    BorrowShared,
    BorrowMutable,
    ResolveCallable(Seq<char>),
    ImplicitConversion(Seq<char>),
    PointerToPlace { mutable: bool },
    ConstructVariant { alternatives: Seq<TyView>, index: usize },
    VariantIs { index: usize },
    VariantTypeSupported { supported: bool },
    VariantSet { index: usize },
    VariantTake { index: usize, checked: bool },
    VariantReplace { input_index: usize, output_index: usize, checked: bool },
    VariantProject { alternatives: Seq<TyView>, index: usize },
    ConstructSimd { dtype: Dtype, width: i64 },
    SliceDescriptors { descriptors: Seq<Option<SliceKind>>, set_value_keyword: Option<Seq<char>> },
    Iterate(IterationProtocolView),
    ExplicitDestroy,
}

/// A generator binder of a comprehension.
#[derive(Debug, PartialEq, Eq)]
pub struct CheckedComprehensionBinding {
    pub owner: OwnerId,
    pub ty: Ty,
}

/// What a [`CheckedComprehensionBinding`] holds.
pub struct CheckedComprehensionBindingView {
    pub owner: OwnerId,
    pub ty: TyView,
}

/// A checked expression with what the checker found out about it.
#[derive(Debug, PartialEq, Eq)]
pub struct CheckedExpr {
    pub id: CheckedNodeId,
    pub syntax: Expr,
    pub ty: Option<Ty>,
    pub place_ty: Option<Ty>,
    pub binding: Option<OwnerId>,
    pub binding_ty: Option<Ty>,
    pub category: ValueCategory,
    pub effects: EffectFacts,
    pub adjustments: Vec<SemanticAdjustment>,
    pub children: Vec<CheckedNodeId>,
    pub comprehension_bindings: Vec<CheckedComprehensionBinding>,
}

/// What a [`CheckedExpr`] holds.
pub struct CheckedExprView {
    pub id: CheckedNodeId,
    pub syntax: ExprView,
    pub ty: Option<TyView>,
    pub place_ty: Option<TyView>,
    pub binding: Option<OwnerId>,
    pub binding_ty: Option<TyView>,
    pub category: ValueCategory,
    pub effects: EffectFactsView,
    pub adjustments: Seq<SemanticAdjustmentView>,
    pub children: Seq<CheckedNodeId>,
    pub comprehension_bindings: Seq<CheckedComprehensionBindingView>,
}

/// A default value known at compile time.
#[derive(Debug, PartialEq, Eq)]
#[allow(inconsistent_fields)]
pub enum CheckedConst {
    Int(i64),
    /// The IEEE-754 bits of a float.
    Float(u64),
    Bool(bool),
    Str(String),
    NoneValue,
}

/// What a [`CheckedConst`] holds.
#[allow(inconsistent_fields)]
pub enum CheckedConstView {
    Int(i64),
    Float(u64),
    Bool(bool),
    Str(Seq<char>),
    NoneValue,
}

/// Where a type annotation stands.
#[derive(Debug, PartialEq, Eq)]
#[allow(inconsistent_fields)]
pub enum AnnotationSite {
    FunctionParam { module: Option<String>, declaration: Span, param: usize },
    StructField { module: Option<String>, declaration: Span, field: usize },
    MethodParam { module: Option<String>, declaration: Span, method: usize, param: usize },
}

/// What a [`AnnotationSite`] holds.
#[allow(inconsistent_fields)]
pub enum AnnotationSiteView {
    FunctionParam { module: Option<Seq<char>>, declaration: Span, param: usize },
    StructField { module: Option<Seq<char>>, declaration: Span, field: usize },
    MethodParam { module: Option<Seq<char>>, declaration: Span, method: usize, param: usize },
}

/// The checked type of an annotation.
#[derive(Debug, PartialEq, Eq)]
pub struct AnnotationType {
    pub site: AnnotationSite,
    pub ty: Ty,
}

/// What a [`AnnotationType`] holds.
pub struct AnnotationTypeView {
    pub site: AnnotationSiteView,
    pub ty: TyView,
}

/// A struct whose values must be destroyed by a named call.
#[derive(Debug, PartialEq, Eq)]
pub struct ExplicitDestroy {
    pub name: String,
    pub message: String,
    pub destructors: Vec<(String, bool)>,
}

/// What a [`ExplicitDestroy`] holds.
pub struct ExplicitDestroyView {
    pub name: Seq<char>,
    pub message: Seq<char>,
    pub destructors: Seq<(Seq<char>, bool)>,
}

/// A declared function name, with whether a call of it with so many arguments
/// is ambiguous by name.
#[derive(Debug, PartialEq, Eq)]
pub struct OverloadEntry {
    pub name: String,
    pub argc: usize,
    pub overloaded: bool,
}

/// What a [`OverloadEntry`] holds.
pub struct OverloadEntryView {
    pub name: Seq<char>,
    pub argc: usize,
    pub overloaded: bool,
}

/// The function names of a program.
#[derive(Debug, PartialEq, Eq)]
pub struct OverloadSets {
    pub functions: Vec<OverloadEntry>,
}

/// What a [`OverloadSets`] holds.
pub struct OverloadSetsView {
    pub functions: Seq<OverloadEntryView>,
}

/// The name a function or method declaration is lowered under.
#[derive(Debug, PartialEq, Eq)]
pub struct LoweredName {
    pub module: Option<String>,
    pub declaration: Span,
    pub method: Option<usize>,
    pub name: String,
}

/// What a [`LoweredName`] holds.
pub struct LoweredNameView {
    pub module: Option<Seq<char>>,
    pub declaration: Span,
    pub method: Option<usize>,
    pub name: Seq<char>,
}

/// A checked program: its syntax and the facts recorded about it.
#[derive(Debug, PartialEq, Eq)]
pub struct CheckedProgram {
    pub statements: Vec<Stmt>,
    pub expressions: Vec<CheckedExpr>,
    pub annotations: Vec<AnnotationType>,
    pub explicit_destroy: Vec<ExplicitDestroy>,
    pub overloads: OverloadSets,
    pub lowered_names: Vec<LoweredName>,
    pub coercions: Vec<(Ty, Ty)>,
}

/// What a [`CheckedProgram`] holds.
pub struct CheckedProgramView {
    pub statements: Seq<StmtView>,
    pub expressions: Seq<CheckedExprView>,
    pub annotations: Seq<AnnotationTypeView>,
    pub explicit_destroy: Seq<ExplicitDestroyView>,
    pub overloads: OverloadSetsView,
    pub lowered_names: Seq<LoweredNameView>,
    pub coercions: Seq<(TyView, TyView)>,
}

pub open spec fn iteration_protocol_view(x: IterationProtocol) -> IterationProtocolView
    decreases x,
{
    IterationProtocolView {
        mode: x.mode,
        prepare: string_list_view(x.prepare@),
        has_next: (match x.has_next { Some(y) => Some(y@), None => None }),
        next: (match x.next { Some(y) => Some(y@), None => None }),
    }
}

impl View for IterationProtocol {
    type V = IterationProtocolView;

    open spec fn view(&self) -> IterationProtocolView {
        iteration_protocol_view(*self)
    }
}

pub fn clone_iteration_protocol(x: &IterationProtocol) -> (r: IterationProtocol)
    ensures
        iteration_protocol_view(r) == iteration_protocol_view(*x),
    decreases x,
{
    let r = IterationProtocol {
        mode: x.mode,
        prepare: clone_string_list((&x.prepare)),
        has_next: (match (&x.has_next) { Some(y) => Some(y.clone()), None => None }),
        next: (match (&x.next) { Some(y) => Some(y.clone()), None => None }),
    };
    proof {
        unfold_iteration_protocol(*x);
        unfold_iteration_protocol(r);
    }
    r
}

impl Clone for IterationProtocol {
    fn clone(&self) -> (r: Self)
        ensures
            r@ == self@,
    {
        clone_iteration_protocol(self)
    }
}

pub open spec fn effect_facts_view(x: EffectFacts) -> EffectFactsView
    decreases x,
{
    EffectFactsView {
        raises: (match x.raises { Some(y) => Some(ty_view(y)), None => None }),
    }
}

impl View for EffectFacts {
    type V = EffectFactsView;

    open spec fn view(&self) -> EffectFactsView {
        effect_facts_view(*self)
    }
}

pub fn clone_effect_facts(x: &EffectFacts) -> (r: EffectFacts)
    ensures
        effect_facts_view(r) == effect_facts_view(*x),
    decreases x,
{
    EffectFacts {
        raises: (match (&x.raises) { Some(y) => Some(clone_ty(y)), None => None }),
    }
}

impl Clone for EffectFacts {
    fn clone(&self) -> (r: Self)
        ensures
            r@ == self@,
    {
        clone_effect_facts(self)
    }
}

pub open spec fn semantic_adjustment_view(x: SemanticAdjustment) -> SemanticAdjustmentView
    decreases x,
{
    match x {
        SemanticAdjustment::BorrowShared => SemanticAdjustmentView::BorrowShared,
        SemanticAdjustment::BorrowMutable => SemanticAdjustmentView::BorrowMutable,
        SemanticAdjustment::ResolveCallable(a0) => SemanticAdjustmentView::ResolveCallable(a0@),
        SemanticAdjustment::ImplicitConversion(a0) => SemanticAdjustmentView::ImplicitConversion(a0@),
        SemanticAdjustment::PointerToPlace { mutable } => SemanticAdjustmentView::PointerToPlace { mutable },
        SemanticAdjustment::ConstructVariant { alternatives, index } => SemanticAdjustmentView::ConstructVariant { alternatives: ty_list_view(alternatives@), index },
        SemanticAdjustment::VariantIs { index } => SemanticAdjustmentView::VariantIs { index },
        SemanticAdjustment::VariantTypeSupported { supported } => SemanticAdjustmentView::VariantTypeSupported { supported },
        SemanticAdjustment::VariantSet { index } => SemanticAdjustmentView::VariantSet { index },
        SemanticAdjustment::VariantTake { index, checked } => SemanticAdjustmentView::VariantTake { index, checked },
        SemanticAdjustment::VariantReplace { input_index, output_index, checked } => SemanticAdjustmentView::VariantReplace { input_index, output_index, checked },
        SemanticAdjustment::VariantProject { alternatives, index } => SemanticAdjustmentView::VariantProject { alternatives: ty_list_view(alternatives@), index },
        SemanticAdjustment::ConstructSimd { dtype, width } => SemanticAdjustmentView::ConstructSimd { dtype, width },
        SemanticAdjustment::SliceDescriptors { descriptors, set_value_keyword } => SemanticAdjustmentView::SliceDescriptors { descriptors: descriptors@, set_value_keyword: (match set_value_keyword { Some(y) => Some(y@), None => None }) },
        SemanticAdjustment::Iterate(a0) => SemanticAdjustmentView::Iterate(iteration_protocol_view(a0)),
        SemanticAdjustment::ExplicitDestroy => SemanticAdjustmentView::ExplicitDestroy,
    }
}

impl View for SemanticAdjustment {
    type V = SemanticAdjustmentView;

    open spec fn view(&self) -> SemanticAdjustmentView {
        semantic_adjustment_view(*self)
    }
}

pub fn clone_semantic_adjustment(x: &SemanticAdjustment) -> (r: SemanticAdjustment)
    ensures
        semantic_adjustment_view(r) == semantic_adjustment_view(*x),
    decreases x,
{
    let r = match x {
        SemanticAdjustment::BorrowShared => SemanticAdjustment::BorrowShared,
        SemanticAdjustment::BorrowMutable => SemanticAdjustment::BorrowMutable,
        SemanticAdjustment::ResolveCallable(a0) => SemanticAdjustment::ResolveCallable(a0.clone()),
        SemanticAdjustment::ImplicitConversion(a0) => SemanticAdjustment::ImplicitConversion(a0.clone()),
        SemanticAdjustment::PointerToPlace { mutable } => SemanticAdjustment::PointerToPlace { mutable: *mutable },
        SemanticAdjustment::ConstructVariant { alternatives, index } => SemanticAdjustment::ConstructVariant { alternatives: clone_ty_list(alternatives), index: *index },
        SemanticAdjustment::VariantIs { index } => SemanticAdjustment::VariantIs { index: *index },
        SemanticAdjustment::VariantTypeSupported { supported } => SemanticAdjustment::VariantTypeSupported { supported: *supported },
        SemanticAdjustment::VariantSet { index } => SemanticAdjustment::VariantSet { index: *index },
        SemanticAdjustment::VariantTake { index, checked } => SemanticAdjustment::VariantTake { index: *index, checked: *checked },
        SemanticAdjustment::VariantReplace { input_index, output_index, checked } => SemanticAdjustment::VariantReplace { input_index: *input_index, output_index: *output_index, checked: *checked },
        SemanticAdjustment::VariantProject { alternatives, index } => SemanticAdjustment::VariantProject { alternatives: clone_ty_list(alternatives), index: *index },
        SemanticAdjustment::ConstructSimd { dtype, width } => SemanticAdjustment::ConstructSimd { dtype: *dtype, width: *width },
        SemanticAdjustment::SliceDescriptors { descriptors, set_value_keyword } => SemanticAdjustment::SliceDescriptors { descriptors: copy_vec(descriptors), set_value_keyword: (match set_value_keyword { Some(y) => Some(y.clone()), None => None }) },
        SemanticAdjustment::Iterate(a0) => SemanticAdjustment::Iterate(clone_iteration_protocol(a0)),
        SemanticAdjustment::ExplicitDestroy => SemanticAdjustment::ExplicitDestroy,
    };
    proof {
        unfold_semantic_adjustment(*x);
        unfold_semantic_adjustment(r);
    }
    r
}

impl Clone for SemanticAdjustment {
    fn clone(&self) -> (r: Self)
        ensures
            r@ == self@,
    {
        clone_semantic_adjustment(self)
    }
}

pub open spec fn checked_comprehension_binding_view(x: CheckedComprehensionBinding) -> CheckedComprehensionBindingView
    decreases x,
{
    CheckedComprehensionBindingView {
        owner: x.owner,
        ty: ty_view(x.ty),
    }
}

impl View for CheckedComprehensionBinding {
    type V = CheckedComprehensionBindingView;

    open spec fn view(&self) -> CheckedComprehensionBindingView {
        checked_comprehension_binding_view(*self)
    }
}

pub fn clone_checked_comprehension_binding(x: &CheckedComprehensionBinding) -> (r: CheckedComprehensionBinding)
    ensures
        checked_comprehension_binding_view(r) == checked_comprehension_binding_view(*x),
    decreases x,
{
    CheckedComprehensionBinding {
        owner: x.owner,
        ty: clone_ty((&x.ty)),
    }
}

impl Clone for CheckedComprehensionBinding {
    fn clone(&self) -> (r: Self)
        ensures
            r@ == self@,
    {
        clone_checked_comprehension_binding(self)
    }
}

pub open spec fn checked_expr_view(x: CheckedExpr) -> CheckedExprView
    decreases x,
{
    CheckedExprView {
        id: x.id,
        syntax: expr_view(x.syntax),
        ty: (match x.ty { Some(y) => Some(ty_view(y)), None => None }),
        place_ty: (match x.place_ty { Some(y) => Some(ty_view(y)), None => None }),
        binding: x.binding,
        binding_ty: (match x.binding_ty { Some(y) => Some(ty_view(y)), None => None }),
        category: x.category,
        effects: effect_facts_view(x.effects),
        adjustments: semantic_adjustment_list_view(x.adjustments@),
        children: x.children@,
        comprehension_bindings: checked_comprehension_binding_list_view(x.comprehension_bindings@),
    }
}

impl View for CheckedExpr {
    type V = CheckedExprView;

    open spec fn view(&self) -> CheckedExprView {
        checked_expr_view(*self)
    }
}

pub fn clone_checked_expr(x: &CheckedExpr) -> (r: CheckedExpr)
    ensures
        checked_expr_view(r) == checked_expr_view(*x),
    decreases x,
{
    let r = CheckedExpr {
        id: x.id,
        syntax: clone_expr((&x.syntax)),
        ty: (match (&x.ty) { Some(y) => Some(clone_ty(y)), None => None }),
        place_ty: (match (&x.place_ty) { Some(y) => Some(clone_ty(y)), None => None }),
        binding: x.binding,
        binding_ty: (match (&x.binding_ty) { Some(y) => Some(clone_ty(y)), None => None }),
        category: x.category,
        effects: clone_effect_facts((&x.effects)),
        adjustments: clone_semantic_adjustment_list((&x.adjustments)),
        children: copy_vec((&x.children)),
        comprehension_bindings: clone_checked_comprehension_binding_list((&x.comprehension_bindings)),
    };
    proof {
        unfold_checked_expr(*x);
        unfold_checked_expr(r);
    }
    r
}

impl Clone for CheckedExpr {
    fn clone(&self) -> (r: Self)
        ensures
            r@ == self@,
    {
        clone_checked_expr(self)
    }
}

pub open spec fn checked_const_view(x: CheckedConst) -> CheckedConstView
    decreases x,
{
    match x {
        CheckedConst::Int(a0) => CheckedConstView::Int(a0),
        CheckedConst::Float(a0) => CheckedConstView::Float(a0),
        CheckedConst::Bool(a0) => CheckedConstView::Bool(a0),
        CheckedConst::Str(a0) => CheckedConstView::Str(a0@),
        CheckedConst::NoneValue => CheckedConstView::NoneValue,
    }
}

impl View for CheckedConst {
    type V = CheckedConstView;

    open spec fn view(&self) -> CheckedConstView {
        checked_const_view(*self)
    }
}

pub fn clone_checked_const(x: &CheckedConst) -> (r: CheckedConst)
    ensures
        checked_const_view(r) == checked_const_view(*x),
    decreases x,
{
    match x {
        CheckedConst::Int(a0) => CheckedConst::Int(*a0),
        CheckedConst::Float(a0) => CheckedConst::Float(*a0),
        CheckedConst::Bool(a0) => CheckedConst::Bool(*a0),
        CheckedConst::Str(a0) => CheckedConst::Str(a0.clone()),
        CheckedConst::NoneValue => CheckedConst::NoneValue,
    }
}

impl Clone for CheckedConst {
    fn clone(&self) -> (r: Self)
        ensures
            r@ == self@,
    {
        clone_checked_const(self)
    }
}

pub open spec fn annotation_site_view(x: AnnotationSite) -> AnnotationSiteView
    decreases x,
{
    match x {
        AnnotationSite::FunctionParam { module, declaration, param } => AnnotationSiteView::FunctionParam { module: (match module { Some(y) => Some(y@), None => None }), declaration, param },
        AnnotationSite::StructField { module, declaration, field } => AnnotationSiteView::StructField { module: (match module { Some(y) => Some(y@), None => None }), declaration, field },
        AnnotationSite::MethodParam { module, declaration, method, param } => AnnotationSiteView::MethodParam { module: (match module { Some(y) => Some(y@), None => None }), declaration, method, param },
    }
}

impl View for AnnotationSite {
    type V = AnnotationSiteView;

    open spec fn view(&self) -> AnnotationSiteView {
        annotation_site_view(*self)
    }
}

pub fn clone_annotation_site(x: &AnnotationSite) -> (r: AnnotationSite)
    ensures
        annotation_site_view(r) == annotation_site_view(*x),
    decreases x,
{
    match x {
        AnnotationSite::FunctionParam { module, declaration, param } => AnnotationSite::FunctionParam { module: (match module { Some(y) => Some(y.clone()), None => None }), declaration: *declaration, param: *param },
        AnnotationSite::StructField { module, declaration, field } => AnnotationSite::StructField { module: (match module { Some(y) => Some(y.clone()), None => None }), declaration: *declaration, field: *field },
        AnnotationSite::MethodParam { module, declaration, method, param } => AnnotationSite::MethodParam { module: (match module { Some(y) => Some(y.clone()), None => None }), declaration: *declaration, method: *method, param: *param },
    }
}

impl Clone for AnnotationSite {
    fn clone(&self) -> (r: Self)
        ensures
            r@ == self@,
    {
        clone_annotation_site(self)
    }
}

pub open spec fn annotation_type_view(x: AnnotationType) -> AnnotationTypeView
    decreases x,
{
    AnnotationTypeView {
        site: annotation_site_view(x.site),
        ty: ty_view(x.ty),
    }
}

impl View for AnnotationType {
    type V = AnnotationTypeView;

    open spec fn view(&self) -> AnnotationTypeView {
        annotation_type_view(*self)
    }
}

pub fn clone_annotation_type(x: &AnnotationType) -> (r: AnnotationType)
    ensures
        annotation_type_view(r) == annotation_type_view(*x),
    decreases x,
{
    AnnotationType {
        site: clone_annotation_site((&x.site)),
        ty: clone_ty((&x.ty)),
    }
}

impl Clone for AnnotationType {
    fn clone(&self) -> (r: Self)
        ensures
            r@ == self@,
    {
        clone_annotation_type(self)
    }
}

pub open spec fn explicit_destroy_view(x: ExplicitDestroy) -> ExplicitDestroyView
    decreases x,
{
    ExplicitDestroyView {
        name: x.name@,
        message: x.message@,
        destructors: flagged_name_list_view(x.destructors@),
    }
}

impl View for ExplicitDestroy {
    type V = ExplicitDestroyView;

    open spec fn view(&self) -> ExplicitDestroyView {
        explicit_destroy_view(*self)
    }
}

pub fn clone_explicit_destroy(x: &ExplicitDestroy) -> (r: ExplicitDestroy)
    ensures
        explicit_destroy_view(r) == explicit_destroy_view(*x),
    decreases x,
{
    let r = ExplicitDestroy {
        name: (&x.name).clone(),
        message: (&x.message).clone(),
        destructors: clone_flagged_name_list((&x.destructors)),
    };
    proof {
        unfold_explicit_destroy(*x);
        unfold_explicit_destroy(r);
    }
    r
}

impl Clone for ExplicitDestroy {
    fn clone(&self) -> (r: Self)
        ensures
            r@ == self@,
    {
        clone_explicit_destroy(self)
    }
}

pub open spec fn overload_entry_view(x: OverloadEntry) -> OverloadEntryView
    decreases x,
{
    OverloadEntryView {
        name: x.name@,
        argc: x.argc,
        overloaded: x.overloaded,
    }
}

impl View for OverloadEntry {
    type V = OverloadEntryView;

    open spec fn view(&self) -> OverloadEntryView {
        overload_entry_view(*self)
    }
}

pub fn clone_overload_entry(x: &OverloadEntry) -> (r: OverloadEntry)
    ensures
        overload_entry_view(r) == overload_entry_view(*x),
    decreases x,
{
    OverloadEntry {
        name: (&x.name).clone(),
        argc: x.argc,
        overloaded: x.overloaded,
    }
}

impl Clone for OverloadEntry {
    fn clone(&self) -> (r: Self)
        ensures
            r@ == self@,
    {
        clone_overload_entry(self)
    }
}

pub open spec fn overload_sets_view(x: OverloadSets) -> OverloadSetsView
    decreases x,
{
    OverloadSetsView {
        functions: overload_entry_list_view(x.functions@),
    }
}

impl View for OverloadSets {
    type V = OverloadSetsView;

    open spec fn view(&self) -> OverloadSetsView {
        overload_sets_view(*self)
    }
}

pub fn clone_overload_sets(x: &OverloadSets) -> (r: OverloadSets)
    ensures
        overload_sets_view(r) == overload_sets_view(*x),
    decreases x,
{
    let r = OverloadSets {
        functions: clone_overload_entry_list((&x.functions)),
    };
    proof {
        unfold_overload_sets(*x);
        unfold_overload_sets(r);
    }
    r
}

impl Clone for OverloadSets {
    fn clone(&self) -> (r: Self)
        ensures
            r@ == self@,
    {
        clone_overload_sets(self)
    }
}

pub open spec fn lowered_name_view(x: LoweredName) -> LoweredNameView
    decreases x,
{
    LoweredNameView {
        module: (match x.module { Some(y) => Some(y@), None => None }),
        declaration: x.declaration,
        method: x.method,
        name: x.name@,
    }
}

impl View for LoweredName {
    type V = LoweredNameView;

    open spec fn view(&self) -> LoweredNameView {
        lowered_name_view(*self)
    }
}

pub fn clone_lowered_name(x: &LoweredName) -> (r: LoweredName)
    ensures
        lowered_name_view(r) == lowered_name_view(*x),
    decreases x,
{
    LoweredName {
        module: (match (&x.module) { Some(y) => Some(y.clone()), None => None }),
        declaration: x.declaration,
        method: x.method,
        name: (&x.name).clone(),
    }
}

impl Clone for LoweredName {
    fn clone(&self) -> (r: Self)
        ensures
            r@ == self@,
    {
        clone_lowered_name(self)
    }
}

pub open spec fn checked_program_view(x: CheckedProgram) -> CheckedProgramView
    decreases x,
{
    CheckedProgramView {
        statements: stmt_list_view(x.statements@),
        expressions: checked_expr_list_view(x.expressions@),
        annotations: annotation_type_list_view(x.annotations@),
        explicit_destroy: explicit_destroy_list_view(x.explicit_destroy@),
        overloads: overload_sets_view(x.overloads),
        lowered_names: lowered_name_list_view(x.lowered_names@),
        coercions: ty_pair_list_view(x.coercions@),
    }
}

impl View for CheckedProgram {
    type V = CheckedProgramView;

    open spec fn view(&self) -> CheckedProgramView {
        checked_program_view(*self)
    }
}

pub fn clone_checked_program(x: &CheckedProgram) -> (r: CheckedProgram)
    ensures
        checked_program_view(r) == checked_program_view(*x),
    decreases x,
{
    let r = CheckedProgram {
        statements: clone_stmt_list((&x.statements)),
        expressions: clone_checked_expr_list((&x.expressions)),
        annotations: clone_annotation_type_list((&x.annotations)),
        explicit_destroy: clone_explicit_destroy_list((&x.explicit_destroy)),
        overloads: clone_overload_sets((&x.overloads)),
        lowered_names: clone_lowered_name_list((&x.lowered_names)),
        coercions: clone_ty_pair_list((&x.coercions)),
    };
    proof {
        unfold_checked_program(*x);
        unfold_checked_program(r);
    }
    r
}

impl Clone for CheckedProgram {
    fn clone(&self) -> (r: Self)
        ensures
            r@ == self@,
    {
        clone_checked_program(self)
    }
}

pub open spec fn semantic_adjustment_list_view(s: Seq<SemanticAdjustment>) -> Seq<SemanticAdjustmentView>
    decreases s,
{
    Seq::new(s.len(), |i: int| if 0 <= i < s.len() { semantic_adjustment_view(s[i]) } else { arbitrary() })
}

pub fn clone_semantic_adjustment_list(v: &Vec<SemanticAdjustment>) -> (r: Vec<SemanticAdjustment>)
    ensures
        semantic_adjustment_list_view(r@) == semantic_adjustment_list_view(v@),
        r@.len() == v@.len(),
    decreases v@,
{
    let mut r: Vec<SemanticAdjustment> = Vec::new();
    for i in 0..v.len()
        invariant
            r@.len() == i,
            forall|j: int| 0 <= j < i ==> semantic_adjustment_view((#[trigger] r@[j])) == semantic_adjustment_view(v@[j]),
    {
        r.push(clone_semantic_adjustment((&v[i])));
    }
    assert(semantic_adjustment_list_view(r@) =~= semantic_adjustment_list_view(v@));
    r
}

pub open spec fn checked_comprehension_binding_list_view(s: Seq<CheckedComprehensionBinding>) -> Seq<CheckedComprehensionBindingView>
    decreases s,
{
    Seq::new(s.len(), |i: int| if 0 <= i < s.len() { checked_comprehension_binding_view(s[i]) } else { arbitrary() })
}

pub fn clone_checked_comprehension_binding_list(v: &Vec<CheckedComprehensionBinding>) -> (r: Vec<CheckedComprehensionBinding>)
    ensures
        checked_comprehension_binding_list_view(r@) == checked_comprehension_binding_list_view(v@),
        r@.len() == v@.len(),
    decreases v@,
{
    let mut r: Vec<CheckedComprehensionBinding> = Vec::new();
    for i in 0..v.len()
        invariant
            r@.len() == i,
            forall|j: int| 0 <= j < i ==> checked_comprehension_binding_view((#[trigger] r@[j])) == checked_comprehension_binding_view(v@[j]),
    {
        r.push(clone_checked_comprehension_binding((&v[i])));
    }
    assert(checked_comprehension_binding_list_view(r@) =~= checked_comprehension_binding_list_view(v@));
    r
}

pub open spec fn checked_expr_list_view(s: Seq<CheckedExpr>) -> Seq<CheckedExprView>
    decreases s,
{
    Seq::new(s.len(), |i: int| if 0 <= i < s.len() { checked_expr_view(s[i]) } else { arbitrary() })
}

pub fn clone_checked_expr_list(v: &Vec<CheckedExpr>) -> (r: Vec<CheckedExpr>)
    ensures
        checked_expr_list_view(r@) == checked_expr_list_view(v@),
        r@.len() == v@.len(),
    decreases v@,
{
    let mut r: Vec<CheckedExpr> = Vec::new();
    for i in 0..v.len()
        invariant
            r@.len() == i,
            forall|j: int| 0 <= j < i ==> checked_expr_view((#[trigger] r@[j])) == checked_expr_view(v@[j]),
    {
        r.push(clone_checked_expr((&v[i])));
    }
    assert(checked_expr_list_view(r@) =~= checked_expr_list_view(v@));
    r
}

pub open spec fn annotation_type_list_view(s: Seq<AnnotationType>) -> Seq<AnnotationTypeView>
    decreases s,
{
    Seq::new(s.len(), |i: int| if 0 <= i < s.len() { annotation_type_view(s[i]) } else { arbitrary() })
}

pub fn clone_annotation_type_list(v: &Vec<AnnotationType>) -> (r: Vec<AnnotationType>)
    ensures
        annotation_type_list_view(r@) == annotation_type_list_view(v@),
        r@.len() == v@.len(),
    decreases v@,
{
    let mut r: Vec<AnnotationType> = Vec::new();
    for i in 0..v.len()
        invariant
            r@.len() == i,
            forall|j: int| 0 <= j < i ==> annotation_type_view((#[trigger] r@[j])) == annotation_type_view(v@[j]),
    {
        r.push(clone_annotation_type((&v[i])));
    }
    assert(annotation_type_list_view(r@) =~= annotation_type_list_view(v@));
    r
}

pub open spec fn explicit_destroy_list_view(s: Seq<ExplicitDestroy>) -> Seq<ExplicitDestroyView>
    decreases s,
{
    Seq::new(s.len(), |i: int| if 0 <= i < s.len() { explicit_destroy_view(s[i]) } else { arbitrary() })
}

pub fn clone_explicit_destroy_list(v: &Vec<ExplicitDestroy>) -> (r: Vec<ExplicitDestroy>)
    ensures
        explicit_destroy_list_view(r@) == explicit_destroy_list_view(v@),
        r@.len() == v@.len(),
    decreases v@,
{
    let mut r: Vec<ExplicitDestroy> = Vec::new();
    for i in 0..v.len()
        invariant
            r@.len() == i,
            forall|j: int| 0 <= j < i ==> explicit_destroy_view((#[trigger] r@[j])) == explicit_destroy_view(v@[j]),
    {
        r.push(clone_explicit_destroy((&v[i])));
    }
    assert(explicit_destroy_list_view(r@) =~= explicit_destroy_list_view(v@));
    r
}

pub open spec fn overload_entry_list_view(s: Seq<OverloadEntry>) -> Seq<OverloadEntryView>
    decreases s,
{
    Seq::new(s.len(), |i: int| if 0 <= i < s.len() { overload_entry_view(s[i]) } else { arbitrary() })
}

pub fn clone_overload_entry_list(v: &Vec<OverloadEntry>) -> (r: Vec<OverloadEntry>)
    ensures
        overload_entry_list_view(r@) == overload_entry_list_view(v@),
        r@.len() == v@.len(),
    decreases v@,
{
    let mut r: Vec<OverloadEntry> = Vec::new();
    for i in 0..v.len()
        invariant
            r@.len() == i,
            forall|j: int| 0 <= j < i ==> overload_entry_view((#[trigger] r@[j])) == overload_entry_view(v@[j]),
    {
        r.push(clone_overload_entry((&v[i])));
    }
    assert(overload_entry_list_view(r@) =~= overload_entry_list_view(v@));
    r
}

pub open spec fn lowered_name_list_view(s: Seq<LoweredName>) -> Seq<LoweredNameView>
    decreases s,
{
    Seq::new(s.len(), |i: int| if 0 <= i < s.len() { lowered_name_view(s[i]) } else { arbitrary() })
}

pub fn clone_lowered_name_list(v: &Vec<LoweredName>) -> (r: Vec<LoweredName>)
    ensures
        lowered_name_list_view(r@) == lowered_name_list_view(v@),
        r@.len() == v@.len(),
    decreases v@,
{
    let mut r: Vec<LoweredName> = Vec::new();
    for i in 0..v.len()
        invariant
            r@.len() == i,
            forall|j: int| 0 <= j < i ==> lowered_name_view((#[trigger] r@[j])) == lowered_name_view(v@[j]),
    {
        r.push(clone_lowered_name((&v[i])));
    }
    assert(lowered_name_list_view(r@) =~= lowered_name_list_view(v@));
    r
}

pub open spec fn flagged_name_list_view(s: Seq<(String, bool)>) -> Seq<(Seq<char>, bool)>
    decreases s,
{
    Seq::new(s.len(), |i: int| if 0 <= i < s.len() { (s[i].0@, s[i].1) } else { arbitrary() })
}

pub fn clone_flagged_name_list(v: &Vec<(String, bool)>) -> (r: Vec<(String, bool)>)
    ensures
        flagged_name_list_view(r@) == flagged_name_list_view(v@),
        r@.len() == v@.len(),
    decreases v@,
{
    let mut r: Vec<(String, bool)> = Vec::new();
    for i in 0..v.len()
        invariant
            r@.len() == i,
            forall|j: int| 0 <= j < i ==> ((#[trigger] r@[j]).0@, (#[trigger] r@[j]).1) == (v@[j].0@, v@[j].1),
    {
        r.push(((&(&v[i]).0).clone(), *(&(&v[i]).1)));
    }
    assert(flagged_name_list_view(r@) =~= flagged_name_list_view(v@));
    r
}

pub open spec fn opt_const_list_view(s: Seq<Option<CheckedConst>>) -> Seq<Option<CheckedConstView>>
    decreases s,
{
    Seq::new(s.len(), |i: int| if 0 <= i < s.len() { (match s[i] { Some(y) => Some(checked_const_view(y)), None => None }) } else { arbitrary() })
}

pub fn clone_opt_const_list(v: &Vec<Option<CheckedConst>>) -> (r: Vec<Option<CheckedConst>>)
    ensures
        opt_const_list_view(r@) == opt_const_list_view(v@),
        r@.len() == v@.len(),
    decreases v@,
{
    let mut r: Vec<Option<CheckedConst>> = Vec::new();
    for i in 0..v.len()
        invariant
            r@.len() == i,
            forall|j: int| 0 <= j < i ==> (match (#[trigger] r@[j]) { Some(y) => Some(checked_const_view(y)), None => None }) == (match v@[j] { Some(y) => Some(checked_const_view(y)), None => None }),
    {
        r.push((match (&v[i]) { Some(y) => Some(clone_checked_const(y)), None => None }));
    }
    assert(opt_const_list_view(r@) =~= opt_const_list_view(v@));
    r
}

pub proof fn unfold_iteration_protocol(x: IterationProtocol)
    ensures
        iteration_protocol_view(x) == (IterationProtocolView { mode: x.mode, prepare: string_list_view(x.prepare@), has_next: (match x.has_next { Some(y) => Some(y@), None => None }), next: (match x.next { Some(y) => Some(y@), None => None }) }),
{
        assert(iteration_protocol_view(x).prepare =~= string_list_view(x.prepare@));
}

pub proof fn unfold_semantic_adjustment(x: SemanticAdjustment)
    ensures
        match x {
            SemanticAdjustment::ConstructVariant { alternatives, index } => semantic_adjustment_view(x) == (SemanticAdjustmentView::ConstructVariant { alternatives: ty_list_view(alternatives@), index }),
            SemanticAdjustment::VariantProject { alternatives, index } => semantic_adjustment_view(x) == (SemanticAdjustmentView::VariantProject { alternatives: ty_list_view(alternatives@), index }),
            _ => true,
        },
{
    match x {
        SemanticAdjustment::ConstructVariant { alternatives, index } => {
            assert(semantic_adjustment_view(x)->ConstructVariant_alternatives =~= ty_list_view(alternatives@));
        },
        SemanticAdjustment::VariantProject { alternatives, index } => {
            assert(semantic_adjustment_view(x)->VariantProject_alternatives =~= ty_list_view(alternatives@));
        },
        _ => {},
    }
}

pub proof fn unfold_checked_expr(x: CheckedExpr)
    ensures
        checked_expr_view(x) == (CheckedExprView { id: x.id, syntax: expr_view(x.syntax), ty: (match x.ty { Some(y) => Some(ty_view(y)), None => None }), place_ty: (match x.place_ty { Some(y) => Some(ty_view(y)), None => None }), binding: x.binding, binding_ty: (match x.binding_ty { Some(y) => Some(ty_view(y)), None => None }), category: x.category, effects: effect_facts_view(x.effects), adjustments: semantic_adjustment_list_view(x.adjustments@), children: x.children@, comprehension_bindings: checked_comprehension_binding_list_view(x.comprehension_bindings@) }),
{
        assert(checked_expr_view(x).adjustments =~= semantic_adjustment_list_view(x.adjustments@));
        assert(checked_expr_view(x).comprehension_bindings =~= checked_comprehension_binding_list_view(x.comprehension_bindings@));
}

pub proof fn unfold_explicit_destroy(x: ExplicitDestroy)
    ensures
        explicit_destroy_view(x) == (ExplicitDestroyView { name: x.name@, message: x.message@, destructors: flagged_name_list_view(x.destructors@) }),
{
        assert(explicit_destroy_view(x).destructors =~= flagged_name_list_view(x.destructors@));
}

pub proof fn unfold_overload_sets(x: OverloadSets)
    ensures
        overload_sets_view(x) == (OverloadSetsView { functions: overload_entry_list_view(x.functions@) }),
{
        assert(overload_sets_view(x).functions =~= overload_entry_list_view(x.functions@));
}

pub proof fn unfold_checked_program(x: CheckedProgram)
    ensures
        checked_program_view(x) == (CheckedProgramView { statements: stmt_list_view(x.statements@), expressions: checked_expr_list_view(x.expressions@), annotations: annotation_type_list_view(x.annotations@), explicit_destroy: explicit_destroy_list_view(x.explicit_destroy@), overloads: overload_sets_view(x.overloads), lowered_names: lowered_name_list_view(x.lowered_names@), coercions: ty_pair_list_view(x.coercions@) }),
{
        assert(checked_program_view(x).statements =~= stmt_list_view(x.statements@));
        assert(checked_program_view(x).expressions =~= checked_expr_list_view(x.expressions@));
        assert(checked_program_view(x).annotations =~= annotation_type_list_view(x.annotations@));
        assert(checked_program_view(x).explicit_destroy =~= explicit_destroy_list_view(x.explicit_destroy@));
        assert(checked_program_view(x).lowered_names =~= lowered_name_list_view(x.lowered_names@));
        assert(checked_program_view(x).coercions =~= ty_pair_list_view(x.coercions@));
}

/// Whether two values hold the same.
pub fn same_annotation_site(a: &AnnotationSite, b: &AnnotationSite) -> (r: bool)
    ensures
        r == (annotation_site_view(*a) == annotation_site_view(*b)),
    decreases a,
{
    match (a, b) {
        (AnnotationSite::FunctionParam { module: p0, declaration: p1, param: p2 }, AnnotationSite::FunctionParam { module: q0, declaration: q1, param: q2 }) => (match (p0, q0) { (Some(p), Some(q)) => same_string(p, q), (None, None) => true, _ => false }) && p1.0 == q1.0 && p1.1 == q1.1 && *p2 == *q2,
        (AnnotationSite::StructField { module: p0, declaration: p1, field: p2 }, AnnotationSite::StructField { module: q0, declaration: q1, field: q2 }) => (match (p0, q0) { (Some(p), Some(q)) => same_string(p, q), (None, None) => true, _ => false }) && p1.0 == q1.0 && p1.1 == q1.1 && *p2 == *q2,
        (AnnotationSite::MethodParam { module: p0, declaration: p1, method: p2, param: p3 }, AnnotationSite::MethodParam { module: q0, declaration: q1, method: q2, param: q3 }) => (match (p0, q0) { (Some(p), Some(q)) => same_string(p, q), (None, None) => true, _ => false }) && p1.0 == q1.0 && p1.1 == q1.1 && *p2 == *q2 && *p3 == *q3,
        _ => false,
    }
}

/// The node of an identity. A later node hides an earlier one of the same
/// identity.
pub open spec fn node_by_id(nodes: Seq<CheckedExprView>, id: CheckedNodeId) -> Option<CheckedExprView>
    decreases nodes.len(),
{
    if nodes.len() == 0 {
        None
    } else if nodes.last().id == id {
        Some(nodes.last())
    } else {
        node_by_id(nodes.drop_last(), id)
    }
}

/// See [`node_by_id`].
pub fn find_checked(nodes: &Vec<CheckedExpr>, id: CheckedNodeId) -> (r: Option<&CheckedExpr>)
    ensures
        (match r { Some(v) => Some(v@), None => None }) == node_by_id(
            checked_expr_list_view(nodes@),
            id,
        ),
{
    let ghost all = checked_expr_list_view(nodes@);
    let mut i: usize = nodes.len();
    assert(all.take(i as int) =~= all);
    while i > 0
        invariant
            i <= nodes@.len(),
            all == checked_expr_list_view(nodes@),
            all.len() == nodes@.len(),
            node_by_id(all, id) == node_by_id(all.take(i as int), id),
        decreases i,
    {
        assert(all.take(i as int).last() == all[i - 1]);
        assert(all.take(i as int).drop_last() =~= all.take(i - 1));
        i = i - 1;
        if nodes[i].id == id {
            return Some(&nodes[i]);
        }
    }
    None
}

/// The identity of the first node from `i` on that stands where `e` stands.
pub open spec fn node_id_at(nodes: Seq<CheckedExprView>, e: ExprView, i: nat) -> Option<CheckedNodeId>
    decreases nodes.len() - i,
{
    if i >= nodes.len() {
        None
    } else if nodes[i as int].syntax.span == e.span && nodes[i as int].syntax.source == e.source {
        Some(nodes[i as int].id)
    } else {
        node_id_at(nodes, e, i + 1)
    }
}

/// See [`node_id_at`].
pub fn find_node_at(nodes: &Vec<CheckedExpr>, e: &Expr) -> (r: Option<CheckedNodeId>)
    ensures
        r == node_id_at(checked_expr_list_view(nodes@), e@, 0),
{
    let ghost all = checked_expr_list_view(nodes@);
    let mut i: usize = 0;
    while i < nodes.len()
        invariant
            i <= nodes@.len(),
            all == checked_expr_list_view(nodes@),
            all.len() == nodes@.len(),
            node_id_at(all, e@, i as nat) == node_id_at(all, e@, 0),
        decreases nodes@.len() - i,
    {
        let node = &nodes[i];
        assert(all[i as int] == node@);
        let there = node.syntax.span.0 == e.span.0 && node.syntax.span.1 == e.span.1 && (match (
            &node.syntax.source,
            &e.source,
        ) {
            (Some(a), Some(b)) => same_string(a, b),
            (None, None) => true,
            _ => false,
        });
        if there {
            return Some(node.id);
        }
        i = i + 1;
    }
    None
}

} // verus!
