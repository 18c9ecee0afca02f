//! The three-address intermediate representation.

use crate::ast::{Dtype, InfixOp, PrefixOp, SliceKind};
use crate::checked::{
    CheckedConst, CheckedConstView, IterationMode, clone_flagged_name_list, clone_opt_const_list,
    flagged_name_list_view, opt_const_list_view,
};
use crate::text::{clone_string_list, copy_vec, opt_view, string_list_view};
use crate::token::Span;
use crate::types::{
    Ty, TyView, clone_named_ty_list, clone_slot_ty_list, clone_ty, clone_ty_list,
    clone_ty_pair_list, named_ty_list_view, slot_ty_list_view, ty_list_view, ty_pair_list_view,
    ty_view,
};
use vstd::prelude::*;

verus! {

/// A virtual register: a fresh one per intermediate value.
#[derive(Debug, Clone, Copy, PartialEq, Eq, Structural)]
pub struct Reg(pub u32);

/// How a variable is used at a site.
#[derive(Debug, Clone, Copy, PartialEq, Eq, Structural)]
pub enum UseMode {
    Copy,
    Move,
    BorrowShared,
    BorrowMut,
}

/// A literal known at compile time.
#[derive(Debug, PartialEq, Eq)]
#[allow(inconsistent_fields)]
pub enum Const {
    Int(i64),
    /// The IEEE-754 bits of a float.
    Float(u64),
    Bool(bool),
    Str(String),
    NoneValue,
    Function(String),
}

/// What a [`Const`] holds.
#[allow(inconsistent_fields)]
pub enum ConstView {
    Int(i64),
    Float(u64),
    Bool(bool),
    Str(Seq<char>),
    NoneValue,
    Function(Seq<char>),
}

/// The callee of a direct call.
#[derive(Debug, PartialEq, Eq)]
pub struct FuncRef {
    pub name: String,
}

/// What a [`FuncRef`] holds.
pub struct FuncRefView {
    pub name: Seq<char>,
}

/// One step of a place.
#[derive(Debug, PartialEq, Eq)]
#[allow(inconsistent_fields)]
pub enum Proj {
    Field(String),
    /// The subscript, evaluated once into a register.
    Index(Reg),
    Variant(usize),
}

/// What a [`Proj`] holds.
#[allow(inconsistent_fields)]
pub enum ProjView {
    Field(Seq<char>),
    Index(Reg),
    Variant(usize),
}

/// A writable location: a root variable and a chain of projections.
#[derive(Debug, PartialEq, Eq)]
pub struct MirPlace {
    pub root: u32,
    pub root_ty: Option<Ty>,
    pub proj: Vec<Proj>,
    /// The type after each projection, as far as known.
    pub projection_tys: Vec<Ty>,
    pub ty: Option<Ty>,
    /// The local reference through which the place is accessed.
    pub through: Option<u32>,
}

/// What a [`MirPlace`] holds.
pub struct MirPlaceView {
    pub root: u32,
    pub root_ty: Option<TyView>,
    pub proj: Seq<ProjView>,
    pub projection_tys: Seq<TyView>,
    pub ty: Option<TyView>,
    pub through: Option<u32>,
}

/// A captured place of a closure.
#[derive(Debug, PartialEq, Eq)]
pub struct MirClosureCapture {
    pub place: MirPlace,
    pub moved: bool,
}

/// What a [`MirClosureCapture`] holds.
pub struct MirClosureCaptureView {
    pub place: MirPlaceView,
    pub moved: bool,
}

/// One argument of a subscript with several.
#[derive(Debug, PartialEq, Eq)]
#[allow(inconsistent_fields)]
pub enum MirSubscriptArg {
    Index(Reg),
    Slice { kind: SliceKind, lower: Option<Reg>, upper: Option<Reg>, step: Option<Reg> },
}

/// What a [`MirSubscriptArg`] holds.
#[allow(inconsistent_fields)]
pub enum MirSubscriptArgView {
    Index(Reg),
    Slice { kind: SliceKind, lower: Option<Reg>, upper: Option<Reg>, step: Option<Reg> },
}

/// A three-address instruction.
#[derive(Debug, PartialEq, Eq)]
#[allow(inconsistent_fields)]
pub enum MirInstr {
    BeginLoan { reference: u32, place: MirPlace, mutable: bool, marker: Reg },
    MakeRef { dest: Reg, place: MirPlace },
    ReadRef { dest: Reg, reference: Reg },
    WriteRef { reference: Reg, value: Reg },
    Const { dest: Reg, k: Const },
    UseVar { dest: Reg, var: u32, mode: UseMode },
    MovePlace { dest: Reg, place: MirPlace },
    ConsumePlace { place: MirPlace, marker: Reg },
    ConsumeVar { var: u32 },
    KeepAlive { var: u32 },
    DefVar { var: u32, src: Reg, binding_ty: Option<Ty> },
    UnOp { op: PrefixOp, dest: Reg, a: Reg },
    BinOp { op: InfixOp, dest: Reg, a: Reg, b: Reg },
    Call { dest: Reg, func: FuncRef, raises: Option<Ty>, args: Vec<Reg>, kwargs: Vec<(String, Reg)>, arg_places: Vec<Option<MirPlace>>, param_arg_regs: Vec<Option<Reg>> },
    CallIndirect { dest: Reg, callee: Reg, raises: Option<Ty>, args: Vec<Reg>, kwargs: Vec<(String, Reg)> },
    MethodCall { dest: Reg, recv: Reg, method: String, resolved: Option<String>, raises: Option<Ty>, args: Vec<Reg>, kwargs: Vec<(String, Reg)>, recv_place: Option<MirPlace>, arg_places: Vec<Option<MirPlace>> },
    GetField { dest: Reg, base: Reg, field: String },
    Index { dest: Reg, base: Reg, index: Reg },
    Slice { dest: Reg, object: Reg, kind: SliceKind, lower: Option<Reg>, upper: Option<Reg>, step: Option<Reg>, resolved: Option<String> },
    MultiIndex { dest: Reg, object: Reg, args: Vec<MirSubscriptArg>, resolved: Option<String> },
    MultiSet { receiver_place: MirPlace, args: Vec<MirSubscriptArg>, value: Reg, value_keyword: Option<String>, resolved: Option<String> },
    Store { place: MirPlace, src: Reg },
    StoreRef { place: MirPlace, reference: Reg },
    LoadPlace { dest: Reg, place: MirPlace },
    MakeList { dest: Reg, elems: Vec<Reg>, element_type: Option<Ty> },
    MakeSet { dest: Reg, elems: Vec<Reg>, element_type: Option<Ty> },
    MakeDict { dest: Reg, entries: Vec<(Reg, Reg)>, key_type: Option<Ty>, value_type: Option<Ty> },
    MakeTuple { dest: Reg, elems: Vec<Reg>, element_types: Option<Vec<Ty>> },
    MakeVariant { dest: Reg, alternatives: Vec<Ty>, index: usize, value: Reg },
    MakeSimd { dest: Reg, dtype: Dtype, width: usize, elems: Vec<Reg> },
    MakeClosure { dest: Reg, function: String, captures: Vec<MirClosureCapture> },
    CollectionInsert { collection: u32, key: Option<Reg>, value: Reg },
    VariantIs { dest: Reg, variant: Reg, index: usize },
    VariantGet { dest: Reg, variant: Reg, index: usize },
    VariantSet { dest: Reg, place: MirPlace, index: usize, value: Reg },
    VariantTake { dest: Reg, variant: Reg, index: usize, checked: bool },
    VariantReplace { dest: Reg, place: MirPlace, input_index: usize, output_index: usize, value: Reg, checked: bool },
    Raise { src: Reg },
    Try { body: Vec<MirBlock>, handler: Option<(Option<u32>, Vec<MirBlock>)>, orelse: Option<Vec<MirBlock>>, finalbody: Option<Vec<MirBlock>>, cleanup: Vec<u32> },
    Drop { reg: Reg },
    DropVar { var: u32 },
    /// A construct that is not lowered.
    Unsupported(String),
    GetIter { iter: u32, mode: IterationMode, prepare: Vec<String> },
    HasNext { dest: Reg, iter: u32, method: Option<String> },
    Next { dest: Reg, iter: u32, method: Option<String> },
}

/// What a [`MirInstr`] holds.
#[allow(inconsistent_fields)]
pub enum MirInstrView {
    BeginLoan { reference: u32, place: MirPlaceView, mutable: bool, marker: Reg },
    MakeRef { dest: Reg, place: MirPlaceView },
    ReadRef { dest: Reg, reference: Reg },
    WriteRef { reference: Reg, value: Reg },
    Const { dest: Reg, k: ConstView },
    UseVar { dest: Reg, var: u32, mode: UseMode },
    MovePlace { dest: Reg, place: MirPlaceView },
    ConsumePlace { place: MirPlaceView, marker: Reg },
    ConsumeVar { var: u32 },
    KeepAlive { var: u32 },
    DefVar { var: u32, src: Reg, binding_ty: Option<TyView> },
    UnOp { op: PrefixOp, dest: Reg, a: Reg },
    BinOp { op: InfixOp, dest: Reg, a: Reg, b: Reg },
    Call { dest: Reg, func: FuncRefView, raises: Option<TyView>, args: Seq<Reg>, kwargs: Seq<(Seq<char>, Reg)>, arg_places: Seq<Option<MirPlaceView>>, param_arg_regs: Seq<Option<Reg>> },
    CallIndirect { dest: Reg, callee: Reg, raises: Option<TyView>, args: Seq<Reg>, kwargs: Seq<(Seq<char>, Reg)> },
    MethodCall { dest: Reg, recv: Reg, method: Seq<char>, resolved: Option<Seq<char>>, raises: Option<TyView>, args: Seq<Reg>, kwargs: Seq<(Seq<char>, Reg)>, recv_place: Option<MirPlaceView>, arg_places: Seq<Option<MirPlaceView>> },
    GetField { dest: Reg, base: Reg, field: Seq<char> },
    Index { dest: Reg, base: Reg, index: Reg },
    Slice { dest: Reg, object: Reg, kind: SliceKind, lower: Option<Reg>, upper: Option<Reg>, step: Option<Reg>, resolved: Option<Seq<char>> },
    MultiIndex { dest: Reg, object: Reg, args: Seq<MirSubscriptArgView>, resolved: Option<Seq<char>> },
    MultiSet { receiver_place: MirPlaceView, args: Seq<MirSubscriptArgView>, value: Reg, value_keyword: Option<Seq<char>>, resolved: Option<Seq<char>> },
    Store { place: MirPlaceView, src: Reg },
    StoreRef { place: MirPlaceView, reference: Reg },
    LoadPlace { dest: Reg, place: MirPlaceView },
    MakeList { dest: Reg, elems: Seq<Reg>, element_type: Option<TyView> },
    MakeSet { dest: Reg, elems: Seq<Reg>, element_type: Option<TyView> },
    MakeDict { dest: Reg, entries: Seq<(Reg, Reg)>, key_type: Option<TyView>, value_type: Option<TyView> },
    MakeTuple { dest: Reg, elems: Seq<Reg>, element_types: Option<Seq<TyView>> },
    MakeVariant { dest: Reg, alternatives: Seq<TyView>, index: usize, value: Reg },
    MakeSimd { dest: Reg, dtype: Dtype, width: usize, elems: Seq<Reg> },
    MakeClosure { dest: Reg, function: Seq<char>, captures: Seq<MirClosureCaptureView> },
    CollectionInsert { collection: u32, key: Option<Reg>, value: Reg },
    VariantIs { dest: Reg, variant: Reg, index: usize },
    VariantGet { dest: Reg, variant: Reg, index: usize },
    VariantSet { dest: Reg, place: MirPlaceView, index: usize, value: Reg },
    VariantTake { dest: Reg, variant: Reg, index: usize, checked: bool },
    VariantReplace { dest: Reg, place: MirPlaceView, input_index: usize, output_index: usize, value: Reg, checked: bool },
    Raise { src: Reg },
    Try { body: Seq<MirBlockView>, handler: Option<(Option<u32>, Seq<MirBlockView>)>, orelse: Option<Seq<MirBlockView>>, finalbody: Option<Seq<MirBlockView>>, cleanup: Seq<u32> },
    Drop { reg: Reg },
    DropVar { var: u32 },
    Unsupported(Seq<char>),
    GetIter { iter: u32, mode: IterationMode, prepare: Seq<Seq<char>> },
    HasNext { dest: Reg, iter: u32, method: Option<Seq<char>> },
    Next { dest: Reg, iter: u32, method: Option<Seq<char>> },
}

/// How a block hands control on.
#[derive(Debug, PartialEq, Eq)]
#[allow(inconsistent_fields)]
pub enum MirTerm {
    Jump(usize),
    Branch { cond: Reg, then_b: usize, else_b: usize },
    Return(Option<Reg>),
    /// The normal end of a `try` region.
    FallOff,
    /// A jump out of a region, to a block of the enclosing function.
    EscapeJump { target: usize, cleanup: Vec<u32> },
}

/// What a [`MirTerm`] holds.
#[allow(inconsistent_fields)]
pub enum MirTermView {
    Jump(usize),
    Branch { cond: Reg, then_b: usize, else_b: usize },
    Return(Option<Reg>),
    FallOff,
    EscapeJump { target: usize, cleanup: Seq<u32> },
}

/// A basic block.
#[derive(Debug, PartialEq, Eq)]
pub struct MirBlock {
    pub instrs: Vec<MirInstr>,
    pub term: MirTerm,
}

/// What a [`MirBlock`] holds.
pub struct MirBlockView {
    pub instrs: Seq<MirInstrView>,
    pub term: MirTermView,
}

/// Where a register comes from.
#[derive(Debug, PartialEq, Eq)]
pub struct RegOrigin {
    pub span: Span,
    pub source: Option<String>,
    pub var: Option<u32>,
}

/// What a [`RegOrigin`] holds.
pub struct RegOriginView {
    pub span: Span,
    pub source: Option<Seq<char>>,
    pub var: Option<u32>,
}

/// The origin of each register, by register number.
#[derive(Debug, PartialEq, Eq)]
pub struct SpanTable {
    pub entries: Vec<RegOrigin>,
}

/// What a [`SpanTable`] holds.
pub struct SpanTableView {
    pub entries: Seq<RegOriginView>,
}

/// A lowered function.
#[derive(Debug, PartialEq, Eq)]
pub struct MirFunction {
    pub blocks: Vec<MirBlock>,
    pub n_regs: u32,
    pub n_vars: usize,
    pub var_names: Vec<String>,
    pub n_params: usize,
    pub param_types: Vec<Ty>,
    pub owned_params: Vec<bool>,
    pub ref_params: Vec<bool>,
    pub raises: bool,
    pub ret_ty: Option<Ty>,
    pub returns_reference: bool,
    pub spans: SpanTable,
    pub reg_types: Vec<(u32, Ty)>,
    /// Whether all registers and blocks found room.
    pub complete: bool,
}

/// What a [`MirFunction`] holds.
pub struct MirFunctionView {
    pub blocks: Seq<MirBlockView>,
    pub n_regs: u32,
    pub n_vars: usize,
    pub var_names: Seq<Seq<char>>,
    pub n_params: usize,
    pub param_types: Seq<TyView>,
    pub owned_params: Seq<bool>,
    pub ref_params: Seq<bool>,
    pub raises: bool,
    pub ret_ty: Option<TyView>,
    pub returns_reference: bool,
    pub spans: SpanTableView,
    pub reg_types: Seq<(u32, TyView)>,
    pub complete: bool,
}

/// What execution needs to know of a struct.
#[derive(Debug, PartialEq, Eq)]
pub struct MirStructDeclaration {
    pub name: String,
    pub fields: Vec<(String, Ty)>,
    pub mut_self_methods: Vec<String>,
    pub fieldwise_init: bool,
    pub param_decls: Vec<(String, bool)>,
    pub explicit_destroy_message: Option<String>,
    pub explicit_destructors: Vec<(String, bool)>,
}

/// What a [`MirStructDeclaration`] holds.
pub struct MirStructDeclarationView {
    pub name: Seq<char>,
    pub fields: Seq<(Seq<char>, TyView)>,
    pub mut_self_methods: Seq<Seq<char>>,
    pub fieldwise_init: bool,
    pub param_decls: Seq<(Seq<char>, bool)>,
    pub explicit_destroy_message: Option<Seq<char>>,
    pub explicit_destructors: Seq<(Seq<char>, bool)>,
}

/// What execution needs to know of a function.
#[derive(Debug, PartialEq, Eq)]
pub struct MirFunctionDeclaration {
    pub lowered_name: String,
    pub param_names: Vec<String>,
    pub param_types: Vec<Ty>,
    pub ref_params: Vec<bool>,
    pub defaults: Vec<Option<CheckedConst>>,
    pub required: Vec<bool>,
    pub variadic: Option<Ty>,
    pub variadic_index: Option<usize>,
    pub kw_variadic: Option<Ty>,
    pub kw_variadic_index: Option<usize>,
    pub positional_only: Option<usize>,
    pub keyword_only: Option<usize>,
    pub param_decls: Vec<(String, bool)>,
}

/// What a [`MirFunctionDeclaration`] holds.
pub struct MirFunctionDeclarationView {
    pub lowered_name: Seq<char>,
    pub param_names: Seq<Seq<char>>,
    pub param_types: Seq<TyView>,
    pub ref_params: Seq<bool>,
    pub defaults: Seq<Option<CheckedConstView>>,
    pub required: Seq<bool>,
    pub variadic: Option<TyView>,
    pub variadic_index: Option<usize>,
    pub kw_variadic: Option<TyView>,
    pub kw_variadic_index: Option<usize>,
    pub positional_only: Option<usize>,
    pub keyword_only: Option<usize>,
    pub param_decls: Seq<(Seq<char>, bool)>,
}

/// The declarations of a program.
#[derive(Debug, PartialEq, Eq)]
pub struct MirDeclarations {
    pub structs: Vec<MirStructDeclaration>,
    pub functions: Vec<MirFunctionDeclaration>,
    /// The pairs of types of which the first coerces into the second.
    pub coercions: Vec<(Ty, Ty)>,
}

/// What a [`MirDeclarations`] holds.
pub struct MirDeclarationsView {
    pub structs: Seq<MirStructDeclarationView>,
    pub functions: Seq<MirFunctionDeclarationView>,
    pub coercions: Seq<(TyView, TyView)>,
}

/// A lowered program.
#[derive(Debug, PartialEq, Eq)]
pub struct MirProgram {
    pub functions: Vec<(String, MirFunction)>,
    pub declarations: MirDeclarations,
    /// Violations of the checked-program contract.
    pub invariant_errors: Vec<String>,
}

/// What a [`MirProgram`] holds.
pub struct MirProgramView {
    pub functions: Seq<(Seq<char>, MirFunctionView)>,
    pub declarations: MirDeclarationsView,
    pub invariant_errors: Seq<Seq<char>>,
}

pub open spec fn const_view(x: Const) -> ConstView
    decreases x,
{
    match x {
        Const::Int(a0) => ConstView::Int(a0),
        Const::Float(a0) => ConstView::Float(a0),
        Const::Bool(a0) => ConstView::Bool(a0),
        Const::Str(a0) => ConstView::Str(a0@),
        Const::NoneValue => ConstView::NoneValue,
        Const::Function(a0) => ConstView::Function(a0@),
    }
}

impl View for Const {
    type V = ConstView;

    open spec fn view(&self) -> ConstView {
        const_view(*self)
    }
}

pub fn clone_const(x: &Const) -> (r: Const)
    ensures
        const_view(r) == const_view(*x),
    decreases x,
{
    match x {
        Const::Int(a0) => Const::Int(*a0),
        Const::Float(a0) => Const::Float(*a0),
        Const::Bool(a0) => Const::Bool(*a0),
        Const::Str(a0) => Const::Str(a0.clone()),
        Const::NoneValue => Const::NoneValue,
        Const::Function(a0) => Const::Function(a0.clone()),
    }
}

impl Clone for Const {
    fn clone(&self) -> (r: Self)
        ensures
            r@ == self@,
    {
        clone_const(self)
    }
}

pub open spec fn func_ref_view(x: FuncRef) -> FuncRefView
    decreases x,
{
    FuncRefView {
        name: x.name@,
    }
}

impl View for FuncRef {
    type V = FuncRefView;

    open spec fn view(&self) -> FuncRefView {
        func_ref_view(*self)
    }
}

pub fn clone_func_ref(x: &FuncRef) -> (r: FuncRef)
    ensures
        func_ref_view(r) == func_ref_view(*x),
    decreases x,
{
    FuncRef {
        name: (&x.name).clone(),
    }
}

impl Clone for FuncRef {
    fn clone(&self) -> (r: Self)
        ensures
            r@ == self@,
    {
        clone_func_ref(self)
    }
}

pub open spec fn proj_view(x: Proj) -> ProjView
    decreases x,
{
    match x {
        Proj::Field(a0) => ProjView::Field(a0@),
        Proj::Index(a0) => ProjView::Index(a0),
        Proj::Variant(a0) => ProjView::Variant(a0),
    }
}

impl View for Proj {
    type V = ProjView;

    open spec fn view(&self) -> ProjView {
        proj_view(*self)
    }
}

pub fn clone_proj(x: &Proj) -> (r: Proj)
    ensures
        proj_view(r) == proj_view(*x),
    decreases x,
{
    match x {
        Proj::Field(a0) => Proj::Field(a0.clone()),
        Proj::Index(a0) => Proj::Index(*a0),
        Proj::Variant(a0) => Proj::Variant(*a0),
    }
}

impl Clone for Proj {
    fn clone(&self) -> (r: Self)
        ensures
            r@ == self@,
    {
        clone_proj(self)
    }
}

pub open spec fn mir_place_view(x: MirPlace) -> MirPlaceView
    decreases x,
{
    MirPlaceView {
        root: x.root,
        root_ty: (match x.root_ty { Some(y) => Some(ty_view(y)), None => None }),
        proj: proj_list_view(x.proj@),
        projection_tys: ty_list_view(x.projection_tys@),
        ty: (match x.ty { Some(y) => Some(ty_view(y)), None => None }),
        through: x.through,
    }
}

impl View for MirPlace {
    type V = MirPlaceView;

    open spec fn view(&self) -> MirPlaceView {
        mir_place_view(*self)
    }
}

pub fn clone_mir_place(x: &MirPlace) -> (r: MirPlace)
    ensures
        mir_place_view(r) == mir_place_view(*x),
    decreases x,
{
    let r = MirPlace {
        root: x.root,
        root_ty: (match (&x.root_ty) { Some(y) => Some(clone_ty(y)), None => None }),
        proj: clone_proj_list((&x.proj)),
        projection_tys: clone_ty_list((&x.projection_tys)),
        ty: (match (&x.ty) { Some(y) => Some(clone_ty(y)), None => None }),
        through: x.through,
    };
    proof {
        unfold_mir_place(*x);
        unfold_mir_place(r);
    }
    r
}

impl Clone for MirPlace {
    fn clone(&self) -> (r: Self)
        ensures
            r@ == self@,
    {
        clone_mir_place(self)
    }
}

pub open spec fn mir_closure_capture_view(x: MirClosureCapture) -> MirClosureCaptureView
    decreases x,
{
    MirClosureCaptureView {
        place: mir_place_view(x.place),
        moved: x.moved,
    }
}

impl View for MirClosureCapture {
    type V = MirClosureCaptureView;

    open spec fn view(&self) -> MirClosureCaptureView {
        mir_closure_capture_view(*self)
    }
}

pub fn clone_mir_closure_capture(x: &MirClosureCapture) -> (r: MirClosureCapture)
    ensures
        mir_closure_capture_view(r) == mir_closure_capture_view(*x),
    decreases x,
{
    MirClosureCapture {
        place: clone_mir_place((&x.place)),
        moved: x.moved,
    }
}

impl Clone for MirClosureCapture {
    fn clone(&self) -> (r: Self)
        ensures
            r@ == self@,
    {
        clone_mir_closure_capture(self)
    }
}

pub open spec fn mir_subscript_arg_view(x: MirSubscriptArg) -> MirSubscriptArgView
    decreases x,
{
    match x {
        MirSubscriptArg::Index(a0) => MirSubscriptArgView::Index(a0),
        MirSubscriptArg::Slice { kind, lower, upper, step } => MirSubscriptArgView::Slice { kind, lower, upper, step },
    }
}

impl View for MirSubscriptArg {
    type V = MirSubscriptArgView;

    open spec fn view(&self) -> MirSubscriptArgView {
        mir_subscript_arg_view(*self)
    }
}

pub fn clone_mir_subscript_arg(x: &MirSubscriptArg) -> (r: MirSubscriptArg)
    ensures
        mir_subscript_arg_view(r) == mir_subscript_arg_view(*x),
    decreases x,
{
    match x {
        MirSubscriptArg::Index(a0) => MirSubscriptArg::Index(*a0),
        MirSubscriptArg::Slice { kind, lower, upper, step } => MirSubscriptArg::Slice { kind: *kind, lower: *lower, upper: *upper, step: *step },
    }
}

impl Clone for MirSubscriptArg {
    fn clone(&self) -> (r: Self)
        ensures
            r@ == self@,
    {
        clone_mir_subscript_arg(self)
    }
}

pub open spec fn mir_instr_view(x: MirInstr) -> MirInstrView
    decreases x,
{
    match x {
        MirInstr::BeginLoan { reference, place, mutable, marker } => MirInstrView::BeginLoan { reference, place: mir_place_view(place), mutable, marker },
        MirInstr::MakeRef { dest, place } => MirInstrView::MakeRef { dest, place: mir_place_view(place) },
        MirInstr::ReadRef { dest, reference } => MirInstrView::ReadRef { dest, reference },
        MirInstr::WriteRef { reference, value } => MirInstrView::WriteRef { reference, value },
        MirInstr::Const { dest, k } => MirInstrView::Const { dest, k: const_view(k) },
        MirInstr::UseVar { dest, var, mode } => MirInstrView::UseVar { dest, var, mode },
        MirInstr::MovePlace { dest, place } => MirInstrView::MovePlace { dest, place: mir_place_view(place) },
        MirInstr::ConsumePlace { place, marker } => MirInstrView::ConsumePlace { place: mir_place_view(place), marker },
        MirInstr::ConsumeVar { var } => MirInstrView::ConsumeVar { var },
        MirInstr::KeepAlive { var } => MirInstrView::KeepAlive { var },
        MirInstr::DefVar { var, src, binding_ty } => MirInstrView::DefVar { var, src, binding_ty: (match binding_ty { Some(y) => Some(ty_view(y)), None => None }) },
        MirInstr::UnOp { op, dest, a } => MirInstrView::UnOp { op, dest, a },
        MirInstr::BinOp { op, dest, a, b } => MirInstrView::BinOp { op, dest, a, b },
        MirInstr::Call { dest, func, raises, args, kwargs, arg_places, param_arg_regs } => MirInstrView::Call { dest, func: func_ref_view(func), raises: (match raises { Some(y) => Some(ty_view(y)), None => None }), args: args@, kwargs: kw_reg_list_view(kwargs@), arg_places: opt_place_list_view(arg_places@), param_arg_regs: param_arg_regs@ },
        MirInstr::CallIndirect { dest, callee, raises, args, kwargs } => MirInstrView::CallIndirect { dest, callee, raises: (match raises { Some(y) => Some(ty_view(y)), None => None }), args: args@, kwargs: kw_reg_list_view(kwargs@) },
        MirInstr::MethodCall { dest, recv, method, resolved, raises, args, kwargs, recv_place, arg_places } => MirInstrView::MethodCall { dest, recv, method: method@, resolved: (match resolved { Some(y) => Some(y@), None => None }), raises: (match raises { Some(y) => Some(ty_view(y)), None => None }), args: args@, kwargs: kw_reg_list_view(kwargs@), recv_place: (match recv_place { Some(y) => Some(mir_place_view(y)), None => None }), arg_places: opt_place_list_view(arg_places@) },
        MirInstr::GetField { dest, base, field } => MirInstrView::GetField { dest, base, field: field@ },
        MirInstr::Index { dest, base, index } => MirInstrView::Index { dest, base, index },
        MirInstr::Slice { dest, object, kind, lower, upper, step, resolved } => MirInstrView::Slice { dest, object, kind, lower, upper, step, resolved: (match resolved { Some(y) => Some(y@), None => None }) },
        MirInstr::MultiIndex { dest, object, args, resolved } => MirInstrView::MultiIndex { dest, object, args: mir_subscript_arg_list_view(args@), resolved: (match resolved { Some(y) => Some(y@), None => None }) },
        MirInstr::MultiSet { receiver_place, args, value, value_keyword, resolved } => MirInstrView::MultiSet { receiver_place: mir_place_view(receiver_place), args: mir_subscript_arg_list_view(args@), value, value_keyword: (match value_keyword { Some(y) => Some(y@), None => None }), resolved: (match resolved { Some(y) => Some(y@), None => None }) },
        MirInstr::Store { place, src } => MirInstrView::Store { place: mir_place_view(place), src },
        MirInstr::StoreRef { place, reference } => MirInstrView::StoreRef { place: mir_place_view(place), reference },
        MirInstr::LoadPlace { dest, place } => MirInstrView::LoadPlace { dest, place: mir_place_view(place) },
        MirInstr::MakeList { dest, elems, element_type } => MirInstrView::MakeList { dest, elems: elems@, element_type: (match element_type { Some(y) => Some(ty_view(y)), None => None }) },
        MirInstr::MakeSet { dest, elems, element_type } => MirInstrView::MakeSet { dest, elems: elems@, element_type: (match element_type { Some(y) => Some(ty_view(y)), None => None }) },
        MirInstr::MakeDict { dest, entries, key_type, value_type } => MirInstrView::MakeDict { dest, entries: entries@, key_type: (match key_type { Some(y) => Some(ty_view(y)), None => None }), value_type: (match value_type { Some(y) => Some(ty_view(y)), None => None }) },
        MirInstr::MakeTuple { dest, elems, element_types } => MirInstrView::MakeTuple { dest, elems: elems@, element_types: (match element_types { Some(y) => Some(ty_list_view(y@)), None => None }) },
        MirInstr::MakeVariant { dest, alternatives, index, value } => MirInstrView::MakeVariant { dest, alternatives: ty_list_view(alternatives@), index, value },
        MirInstr::MakeSimd { dest, dtype, width, elems } => MirInstrView::MakeSimd { dest, dtype, width, elems: elems@ },
        MirInstr::MakeClosure { dest, function, captures } => MirInstrView::MakeClosure { dest, function: function@, captures: mir_closure_capture_list_view(captures@) },
        MirInstr::CollectionInsert { collection, key, value } => MirInstrView::CollectionInsert { collection, key, value },
        MirInstr::VariantIs { dest, variant, index } => MirInstrView::VariantIs { dest, variant, index },
        MirInstr::VariantGet { dest, variant, index } => MirInstrView::VariantGet { dest, variant, index },
        MirInstr::VariantSet { dest, place, index, value } => MirInstrView::VariantSet { dest, place: mir_place_view(place), index, value },
        MirInstr::VariantTake { dest, variant, index, checked } => MirInstrView::VariantTake { dest, variant, index, checked },
        MirInstr::VariantReplace { dest, place, input_index, output_index, value, checked } => MirInstrView::VariantReplace { dest, place: mir_place_view(place), input_index, output_index, value, checked },
        MirInstr::Raise { src } => MirInstrView::Raise { src },
        MirInstr::Try { body, handler, orelse, finalbody, cleanup } => MirInstrView::Try { body: mir_block_list_view(body@), handler: (match handler { Some(y) => Some((y.0, mir_block_list_view(y.1@))), None => None }), orelse: (match orelse { Some(y) => Some(mir_block_list_view(y@)), None => None }), finalbody: (match finalbody { Some(y) => Some(mir_block_list_view(y@)), None => None }), cleanup: cleanup@ },
        MirInstr::Drop { reg } => MirInstrView::Drop { reg },
        MirInstr::DropVar { var } => MirInstrView::DropVar { var },
        MirInstr::Unsupported(a0) => MirInstrView::Unsupported(a0@),
        MirInstr::GetIter { iter, mode, prepare } => MirInstrView::GetIter { iter, mode, prepare: string_list_view(prepare@) },
        MirInstr::HasNext { dest, iter, method } => MirInstrView::HasNext { dest, iter, method: (match method { Some(y) => Some(y@), None => None }) },
        MirInstr::Next { dest, iter, method } => MirInstrView::Next { dest, iter, method: (match method { Some(y) => Some(y@), None => None }) },
    }
}

impl View for MirInstr {
    type V = MirInstrView;

    open spec fn view(&self) -> MirInstrView {
        mir_instr_view(*self)
    }
}

pub fn clone_mir_instr(x: &MirInstr) -> (r: MirInstr)
    ensures
        mir_instr_view(r) == mir_instr_view(*x),
    decreases x,
{
    let r = match x {
        MirInstr::BeginLoan { reference, place, mutable, marker } => MirInstr::BeginLoan { reference: *reference, place: clone_mir_place(place), mutable: *mutable, marker: *marker },
        MirInstr::MakeRef { dest, place } => MirInstr::MakeRef { dest: *dest, place: clone_mir_place(place) },
        MirInstr::ReadRef { dest, reference } => MirInstr::ReadRef { dest: *dest, reference: *reference },
        MirInstr::WriteRef { reference, value } => MirInstr::WriteRef { reference: *reference, value: *value },
        MirInstr::Const { dest, k } => MirInstr::Const { dest: *dest, k: clone_const(k) },
        MirInstr::UseVar { dest, var, mode } => MirInstr::UseVar { dest: *dest, var: *var, mode: *mode },
        MirInstr::MovePlace { dest, place } => MirInstr::MovePlace { dest: *dest, place: clone_mir_place(place) },
        MirInstr::ConsumePlace { place, marker } => MirInstr::ConsumePlace { place: clone_mir_place(place), marker: *marker },
        MirInstr::ConsumeVar { var } => MirInstr::ConsumeVar { var: *var },
        MirInstr::KeepAlive { var } => MirInstr::KeepAlive { var: *var },
        MirInstr::DefVar { var, src, binding_ty } => MirInstr::DefVar { var: *var, src: *src, binding_ty: (match binding_ty { Some(y) => Some(clone_ty(y)), None => None }) },
        MirInstr::UnOp { op, dest, a } => MirInstr::UnOp { op: *op, dest: *dest, a: *a },
        MirInstr::BinOp { op, dest, a, b } => MirInstr::BinOp { op: *op, dest: *dest, a: *a, b: *b },
        MirInstr::Call { dest, func, raises, args, kwargs, arg_places, param_arg_regs } => MirInstr::Call { dest: *dest, func: clone_func_ref(func), raises: (match raises { Some(y) => Some(clone_ty(y)), None => None }), args: copy_vec(args), kwargs: clone_kw_reg_list(kwargs), arg_places: clone_opt_place_list(arg_places), param_arg_regs: copy_vec(param_arg_regs) },
        MirInstr::CallIndirect { dest, callee, raises, args, kwargs } => MirInstr::CallIndirect { dest: *dest, callee: *callee, raises: (match raises { Some(y) => Some(clone_ty(y)), None => None }), args: copy_vec(args), kwargs: clone_kw_reg_list(kwargs) },
        MirInstr::MethodCall { dest, recv, method, resolved, raises, args, kwargs, recv_place, arg_places } => MirInstr::MethodCall { dest: *dest, recv: *recv, method: method.clone(), resolved: (match resolved { Some(y) => Some(y.clone()), None => None }), raises: (match raises { Some(y) => Some(clone_ty(y)), None => None }), args: copy_vec(args), kwargs: clone_kw_reg_list(kwargs), recv_place: (match recv_place { Some(y) => Some(clone_mir_place(y)), None => None }), arg_places: clone_opt_place_list(arg_places) },
        MirInstr::GetField { dest, base, field } => MirInstr::GetField { dest: *dest, base: *base, field: field.clone() },
        MirInstr::Index { dest, base, index } => MirInstr::Index { dest: *dest, base: *base, index: *index },
        MirInstr::Slice { dest, object, kind, lower, upper, step, resolved } => MirInstr::Slice { dest: *dest, object: *object, kind: *kind, lower: *lower, upper: *upper, step: *step, resolved: (match resolved { Some(y) => Some(y.clone()), None => None }) },
        MirInstr::MultiIndex { dest, object, args, resolved } => MirInstr::MultiIndex { dest: *dest, object: *object, args: clone_mir_subscript_arg_list(args), resolved: (match resolved { Some(y) => Some(y.clone()), None => None }) },
        MirInstr::MultiSet { receiver_place, args, value, value_keyword, resolved } => MirInstr::MultiSet { receiver_place: clone_mir_place(receiver_place), args: clone_mir_subscript_arg_list(args), value: *value, value_keyword: (match value_keyword { Some(y) => Some(y.clone()), None => None }), resolved: (match resolved { Some(y) => Some(y.clone()), None => None }) },
        MirInstr::Store { place, src } => MirInstr::Store { place: clone_mir_place(place), src: *src },
        MirInstr::StoreRef { place, reference } => MirInstr::StoreRef { place: clone_mir_place(place), reference: *reference },
        MirInstr::LoadPlace { dest, place } => MirInstr::LoadPlace { dest: *dest, place: clone_mir_place(place) },
        MirInstr::MakeList { dest, elems, element_type } => MirInstr::MakeList { dest: *dest, elems: copy_vec(elems), element_type: (match element_type { Some(y) => Some(clone_ty(y)), None => None }) },
        MirInstr::MakeSet { dest, elems, element_type } => MirInstr::MakeSet { dest: *dest, elems: copy_vec(elems), element_type: (match element_type { Some(y) => Some(clone_ty(y)), None => None }) },
        MirInstr::MakeDict { dest, entries, key_type, value_type } => MirInstr::MakeDict { dest: *dest, entries: copy_vec(entries), key_type: (match key_type { Some(y) => Some(clone_ty(y)), None => None }), value_type: (match value_type { Some(y) => Some(clone_ty(y)), None => None }) },
        MirInstr::MakeTuple { dest, elems, element_types } => MirInstr::MakeTuple { dest: *dest, elems: copy_vec(elems), element_types: (match element_types { Some(y) => Some(clone_ty_list(y)), None => None }) },
        MirInstr::MakeVariant { dest, alternatives, index, value } => MirInstr::MakeVariant { dest: *dest, alternatives: clone_ty_list(alternatives), index: *index, value: *value },
        MirInstr::MakeSimd { dest, dtype, width, elems } => MirInstr::MakeSimd { dest: *dest, dtype: *dtype, width: *width, elems: copy_vec(elems) },
        MirInstr::MakeClosure { dest, function, captures } => MirInstr::MakeClosure { dest: *dest, function: function.clone(), captures: clone_mir_closure_capture_list(captures) },
        MirInstr::CollectionInsert { collection, key, value } => MirInstr::CollectionInsert { collection: *collection, key: *key, value: *value },
        MirInstr::VariantIs { dest, variant, index } => MirInstr::VariantIs { dest: *dest, variant: *variant, index: *index },
        MirInstr::VariantGet { dest, variant, index } => MirInstr::VariantGet { dest: *dest, variant: *variant, index: *index },
        MirInstr::VariantSet { dest, place, index, value } => MirInstr::VariantSet { dest: *dest, place: clone_mir_place(place), index: *index, value: *value },
        MirInstr::VariantTake { dest, variant, index, checked } => MirInstr::VariantTake { dest: *dest, variant: *variant, index: *index, checked: *checked },
        MirInstr::VariantReplace { dest, place, input_index, output_index, value, checked } => MirInstr::VariantReplace { dest: *dest, place: clone_mir_place(place), input_index: *input_index, output_index: *output_index, value: *value, checked: *checked },
        MirInstr::Raise { src } => MirInstr::Raise { src: *src },
        MirInstr::Try { body, handler, orelse, finalbody, cleanup } => MirInstr::Try { body: clone_mir_block_list(body), handler: (match handler { Some(y) => Some((*(&y.0), clone_mir_block_list((&y.1)))), None => None }), orelse: (match orelse { Some(y) => Some(clone_mir_block_list(y)), None => None }), finalbody: (match finalbody { Some(y) => Some(clone_mir_block_list(y)), None => None }), cleanup: copy_vec(cleanup) },
        MirInstr::Drop { reg } => MirInstr::Drop { reg: *reg },
        MirInstr::DropVar { var } => MirInstr::DropVar { var: *var },
        MirInstr::Unsupported(a0) => MirInstr::Unsupported(a0.clone()),
        MirInstr::GetIter { iter, mode, prepare } => MirInstr::GetIter { iter: *iter, mode: *mode, prepare: clone_string_list(prepare) },
        MirInstr::HasNext { dest, iter, method } => MirInstr::HasNext { dest: *dest, iter: *iter, method: (match method { Some(y) => Some(y.clone()), None => None }) },
        MirInstr::Next { dest, iter, method } => MirInstr::Next { dest: *dest, iter: *iter, method: (match method { Some(y) => Some(y.clone()), None => None }) },
    };
    proof {
        unfold_mir_instr(*x);
        unfold_mir_instr(r);
    }
    r
}

impl Clone for MirInstr {
    fn clone(&self) -> (r: Self)
        ensures
            r@ == self@,
    {
        clone_mir_instr(self)
    }
}

pub open spec fn mir_term_view(x: MirTerm) -> MirTermView
    decreases x,
{
    match x {
        MirTerm::Jump(a0) => MirTermView::Jump(a0),
        MirTerm::Branch { cond, then_b, else_b } => MirTermView::Branch { cond, then_b, else_b },
        MirTerm::Return(a0) => MirTermView::Return(a0),
        MirTerm::FallOff => MirTermView::FallOff,
        MirTerm::EscapeJump { target, cleanup } => MirTermView::EscapeJump { target, cleanup: cleanup@ },
    }
}

impl View for MirTerm {
    type V = MirTermView;

    open spec fn view(&self) -> MirTermView {
        mir_term_view(*self)
    }
}

pub fn clone_mir_term(x: &MirTerm) -> (r: MirTerm)
    ensures
        mir_term_view(r) == mir_term_view(*x),
    decreases x,
{
    match x {
        MirTerm::Jump(a0) => MirTerm::Jump(*a0),
        MirTerm::Branch { cond, then_b, else_b } => MirTerm::Branch { cond: *cond, then_b: *then_b, else_b: *else_b },
        MirTerm::Return(a0) => MirTerm::Return(*a0),
        MirTerm::FallOff => MirTerm::FallOff,
        MirTerm::EscapeJump { target, cleanup } => MirTerm::EscapeJump { target: *target, cleanup: copy_vec(cleanup) },
    }
}

impl Clone for MirTerm {
    fn clone(&self) -> (r: Self)
        ensures
            r@ == self@,
    {
        clone_mir_term(self)
    }
}

pub open spec fn mir_block_view(x: MirBlock) -> MirBlockView
    decreases x,
{
    MirBlockView {
        instrs: mir_instr_list_view(x.instrs@),
        term: mir_term_view(x.term),
    }
}

impl View for MirBlock {
    type V = MirBlockView;

    open spec fn view(&self) -> MirBlockView {
        mir_block_view(*self)
    }
}

pub fn clone_mir_block(x: &MirBlock) -> (r: MirBlock)
    ensures
        mir_block_view(r) == mir_block_view(*x),
    decreases x,
{
    let r = MirBlock {
        instrs: clone_mir_instr_list((&x.instrs)),
        term: clone_mir_term((&x.term)),
    };
    proof {
        unfold_mir_block(*x);
        unfold_mir_block(r);
    }
    r
}

impl Clone for MirBlock {
    fn clone(&self) -> (r: Self)
        ensures
            r@ == self@,
    {
        clone_mir_block(self)
    }
}

pub open spec fn reg_origin_view(x: RegOrigin) -> RegOriginView
    decreases x,
{
    RegOriginView {
        span: x.span,
        source: (match x.source { Some(y) => Some(y@), None => None }),
        var: x.var,
    }
}

impl View for RegOrigin {
    type V = RegOriginView;

    open spec fn view(&self) -> RegOriginView {
        reg_origin_view(*self)
    }
}

pub fn clone_reg_origin(x: &RegOrigin) -> (r: RegOrigin)
    ensures
        reg_origin_view(r) == reg_origin_view(*x),
    decreases x,
{
    RegOrigin {
        span: x.span,
        source: (match (&x.source) { Some(y) => Some(y.clone()), None => None }),
        var: x.var,
    }
}

impl Clone for RegOrigin {
    fn clone(&self) -> (r: Self)
        ensures
            r@ == self@,
    {
        clone_reg_origin(self)
    }
}

pub open spec fn span_table_view(x: SpanTable) -> SpanTableView
    decreases x,
{
    SpanTableView {
        entries: reg_origin_list_view(x.entries@),
    }
}

impl View for SpanTable {
    type V = SpanTableView;

    open spec fn view(&self) -> SpanTableView {
        span_table_view(*self)
    }
}

pub fn clone_span_table(x: &SpanTable) -> (r: SpanTable)
    ensures
        span_table_view(r) == span_table_view(*x),
    decreases x,
{
    let r = SpanTable {
        entries: clone_reg_origin_list((&x.entries)),
    };
    proof {
        unfold_span_table(*x);
        unfold_span_table(r);
    }
    r
}

impl Clone for SpanTable {
    fn clone(&self) -> (r: Self)
        ensures
            r@ == self@,
    {
        clone_span_table(self)
    }
}

pub open spec fn mir_function_view(x: MirFunction) -> MirFunctionView
    decreases x,
{
    MirFunctionView {
        blocks: mir_block_list_view(x.blocks@),
        n_regs: x.n_regs,
        n_vars: x.n_vars,
        var_names: string_list_view(x.var_names@),
        n_params: x.n_params,
        param_types: ty_list_view(x.param_types@),
        owned_params: x.owned_params@,
        ref_params: x.ref_params@,
        raises: x.raises,
        ret_ty: (match x.ret_ty { Some(y) => Some(ty_view(y)), None => None }),
        returns_reference: x.returns_reference,
        spans: span_table_view(x.spans),
        reg_types: slot_ty_list_view(x.reg_types@),
        complete: x.complete,
    }
}

impl View for MirFunction {
    type V = MirFunctionView;

    open spec fn view(&self) -> MirFunctionView {
        mir_function_view(*self)
    }
}

pub fn clone_mir_function(x: &MirFunction) -> (r: MirFunction)
    ensures
        mir_function_view(r) == mir_function_view(*x),
    decreases x,
{
    let r = MirFunction {
        blocks: clone_mir_block_list((&x.blocks)),
        n_regs: x.n_regs,
        n_vars: x.n_vars,
        var_names: clone_string_list((&x.var_names)),
        n_params: x.n_params,
        param_types: clone_ty_list((&x.param_types)),
        owned_params: copy_vec((&x.owned_params)),
        ref_params: copy_vec((&x.ref_params)),
        raises: x.raises,
        ret_ty: (match (&x.ret_ty) { Some(y) => Some(clone_ty(y)), None => None }),
        returns_reference: x.returns_reference,
        spans: clone_span_table((&x.spans)),
        reg_types: clone_slot_ty_list((&x.reg_types)),
        complete: x.complete,
    };
    proof {
        unfold_mir_function(*x);
        unfold_mir_function(r);
    }
    r
}

impl Clone for MirFunction {
    fn clone(&self) -> (r: Self)
        ensures
            r@ == self@,
    {
        clone_mir_function(self)
    }
}

pub open spec fn mir_struct_declaration_view(x: MirStructDeclaration) -> MirStructDeclarationView
    decreases x,
{
    MirStructDeclarationView {
        name: x.name@,
        fields: named_ty_list_view(x.fields@),
        mut_self_methods: string_list_view(x.mut_self_methods@),
        fieldwise_init: x.fieldwise_init,
        param_decls: flagged_name_list_view(x.param_decls@),
        explicit_destroy_message: (match x.explicit_destroy_message { Some(y) => Some(y@), None => None }),
        explicit_destructors: flagged_name_list_view(x.explicit_destructors@),
    }
}

impl View for MirStructDeclaration {
    type V = MirStructDeclarationView;

    open spec fn view(&self) -> MirStructDeclarationView {
        mir_struct_declaration_view(*self)
    }
}

pub fn clone_mir_struct_declaration(x: &MirStructDeclaration) -> (r: MirStructDeclaration)
    ensures
        mir_struct_declaration_view(r) == mir_struct_declaration_view(*x),
    decreases x,
{
    let r = MirStructDeclaration {
        name: (&x.name).clone(),
        fields: clone_named_ty_list((&x.fields)),
        mut_self_methods: clone_string_list((&x.mut_self_methods)),
        fieldwise_init: x.fieldwise_init,
        param_decls: clone_flagged_name_list((&x.param_decls)),
        explicit_destroy_message: (match (&x.explicit_destroy_message) { Some(y) => Some(y.clone()), None => None }),
        explicit_destructors: clone_flagged_name_list((&x.explicit_destructors)),
    };
    proof {
        unfold_mir_struct_declaration(*x);
        unfold_mir_struct_declaration(r);
    }
    r
}

impl Clone for MirStructDeclaration {
    fn clone(&self) -> (r: Self)
        ensures
            r@ == self@,
    {
        clone_mir_struct_declaration(self)
    }
}

pub open spec fn mir_function_declaration_view(x: MirFunctionDeclaration) -> MirFunctionDeclarationView
    decreases x,
{
    MirFunctionDeclarationView {
        lowered_name: x.lowered_name@,
        param_names: string_list_view(x.param_names@),
        param_types: ty_list_view(x.param_types@),
        ref_params: x.ref_params@,
        defaults: opt_const_list_view(x.defaults@),
        required: x.required@,
        variadic: (match x.variadic { Some(y) => Some(ty_view(y)), None => None }),
        variadic_index: x.variadic_index,
        kw_variadic: (match x.kw_variadic { Some(y) => Some(ty_view(y)), None => None }),
        kw_variadic_index: x.kw_variadic_index,
        positional_only: x.positional_only,
        keyword_only: x.keyword_only,
        param_decls: flagged_name_list_view(x.param_decls@),
    }
}

impl View for MirFunctionDeclaration {
    type V = MirFunctionDeclarationView;

    open spec fn view(&self) -> MirFunctionDeclarationView {
        mir_function_declaration_view(*self)
    }
}

pub fn clone_mir_function_declaration(x: &MirFunctionDeclaration) -> (r: MirFunctionDeclaration)
    ensures
        mir_function_declaration_view(r) == mir_function_declaration_view(*x),
    decreases x,
{
    let r = MirFunctionDeclaration {
        lowered_name: (&x.lowered_name).clone(),
        param_names: clone_string_list((&x.param_names)),
        param_types: clone_ty_list((&x.param_types)),
        ref_params: copy_vec((&x.ref_params)),
        defaults: clone_opt_const_list((&x.defaults)),
        required: copy_vec((&x.required)),
        variadic: (match (&x.variadic) { Some(y) => Some(clone_ty(y)), None => None }),
        variadic_index: x.variadic_index,
        kw_variadic: (match (&x.kw_variadic) { Some(y) => Some(clone_ty(y)), None => None }),
        kw_variadic_index: x.kw_variadic_index,
        positional_only: x.positional_only,
        keyword_only: x.keyword_only,
        param_decls: clone_flagged_name_list((&x.param_decls)),
    };
    proof {
        unfold_mir_function_declaration(*x);
        unfold_mir_function_declaration(r);
    }
    r
}

impl Clone for MirFunctionDeclaration {
    fn clone(&self) -> (r: Self)
        ensures
            r@ == self@,
    {
        clone_mir_function_declaration(self)
    }
}

pub open spec fn mir_declarations_view(x: MirDeclarations) -> MirDeclarationsView
    decreases x,
{
    MirDeclarationsView {
        structs: mir_struct_declaration_list_view(x.structs@),
        functions: mir_function_declaration_list_view(x.functions@),
        coercions: ty_pair_list_view(x.coercions@),
    }
}

impl View for MirDeclarations {
    type V = MirDeclarationsView;

    open spec fn view(&self) -> MirDeclarationsView {
        mir_declarations_view(*self)
    }
}

pub fn clone_mir_declarations(x: &MirDeclarations) -> (r: MirDeclarations)
    ensures
        mir_declarations_view(r) == mir_declarations_view(*x),
    decreases x,
{
    let r = MirDeclarations {
        structs: clone_mir_struct_declaration_list((&x.structs)),
        functions: clone_mir_function_declaration_list((&x.functions)),
        coercions: clone_ty_pair_list((&x.coercions)),
    };
    proof {
        unfold_mir_declarations(*x);
        unfold_mir_declarations(r);
    }
    r
}

impl Clone for MirDeclarations {
    fn clone(&self) -> (r: Self)
        ensures
            r@ == self@,
    {
        clone_mir_declarations(self)
    }
}

pub open spec fn mir_program_view(x: MirProgram) -> MirProgramView
    decreases x,
{
    MirProgramView {
        functions: named_function_list_view(x.functions@),
        declarations: mir_declarations_view(x.declarations),
        invariant_errors: string_list_view(x.invariant_errors@),
    }
}

impl View for MirProgram {
    type V = MirProgramView;

    open spec fn view(&self) -> MirProgramView {
        mir_program_view(*self)
    }
}

pub fn clone_mir_program(x: &MirProgram) -> (r: MirProgram)
    ensures
        mir_program_view(r) == mir_program_view(*x),
    decreases x,
{
    let r = MirProgram {
        functions: clone_named_function_list((&x.functions)),
        declarations: clone_mir_declarations((&x.declarations)),
        invariant_errors: clone_string_list((&x.invariant_errors)),
    };
    proof {
        unfold_mir_program(*x);
        unfold_mir_program(r);
    }
    r
}

impl Clone for MirProgram {
    fn clone(&self) -> (r: Self)
        ensures
            r@ == self@,
    {
        clone_mir_program(self)
    }
}

pub open spec fn proj_list_view(s: Seq<Proj>) -> Seq<ProjView>
    decreases s,
{
    Seq::new(s.len(), |i: int| if 0 <= i < s.len() { proj_view(s[i]) } else { arbitrary() })
}

pub fn clone_proj_list(v: &Vec<Proj>) -> (r: Vec<Proj>)
    ensures
        proj_list_view(r@) == proj_list_view(v@),
        r@.len() == v@.len(),
    decreases v@,
{
    let mut r: Vec<Proj> = Vec::new();
    for i in 0..v.len()
        invariant
            r@.len() == i,
            forall|j: int| 0 <= j < i ==> proj_view((#[trigger] r@[j])) == proj_view(v@[j]),
    {
        r.push(clone_proj((&v[i])));
    }
    assert(proj_list_view(r@) =~= proj_list_view(v@));
    r
}

pub open spec fn mir_place_list_view(s: Seq<MirPlace>) -> Seq<MirPlaceView>
    decreases s,
{
    Seq::new(s.len(), |i: int| if 0 <= i < s.len() { mir_place_view(s[i]) } else { arbitrary() })
}

pub fn clone_mir_place_list(v: &Vec<MirPlace>) -> (r: Vec<MirPlace>)
    ensures
        mir_place_list_view(r@) == mir_place_list_view(v@),
        r@.len() == v@.len(),
    decreases v@,
{
    let mut r: Vec<MirPlace> = Vec::new();
    for i in 0..v.len()
        invariant
            r@.len() == i,
            forall|j: int| 0 <= j < i ==> mir_place_view((#[trigger] r@[j])) == mir_place_view(v@[j]),
    {
        r.push(clone_mir_place((&v[i])));
    }
    assert(mir_place_list_view(r@) =~= mir_place_list_view(v@));
    r
}

pub open spec fn mir_closure_capture_list_view(s: Seq<MirClosureCapture>) -> Seq<MirClosureCaptureView>
    decreases s,
{
    Seq::new(s.len(), |i: int| if 0 <= i < s.len() { mir_closure_capture_view(s[i]) } else { arbitrary() })
}

pub fn clone_mir_closure_capture_list(v: &Vec<MirClosureCapture>) -> (r: Vec<MirClosureCapture>)
    ensures
        mir_closure_capture_list_view(r@) == mir_closure_capture_list_view(v@),
        r@.len() == v@.len(),
    decreases v@,
{
    let mut r: Vec<MirClosureCapture> = Vec::new();
    for i in 0..v.len()
        invariant
            r@.len() == i,
            forall|j: int| 0 <= j < i ==> mir_closure_capture_view((#[trigger] r@[j])) == mir_closure_capture_view(v@[j]),
    {
        r.push(clone_mir_closure_capture((&v[i])));
    }
    assert(mir_closure_capture_list_view(r@) =~= mir_closure_capture_list_view(v@));
    r
}

pub open spec fn mir_subscript_arg_list_view(s: Seq<MirSubscriptArg>) -> Seq<MirSubscriptArgView>
    decreases s,
{
    Seq::new(s.len(), |i: int| if 0 <= i < s.len() { mir_subscript_arg_view(s[i]) } else { arbitrary() })
}

pub fn clone_mir_subscript_arg_list(v: &Vec<MirSubscriptArg>) -> (r: Vec<MirSubscriptArg>)
    ensures
        mir_subscript_arg_list_view(r@) == mir_subscript_arg_list_view(v@),
        r@.len() == v@.len(),
    decreases v@,
{
    let mut r: Vec<MirSubscriptArg> = Vec::new();
    for i in 0..v.len()
        invariant
            r@.len() == i,
            forall|j: int| 0 <= j < i ==> mir_subscript_arg_view((#[trigger] r@[j])) == mir_subscript_arg_view(v@[j]),
    {
        r.push(clone_mir_subscript_arg((&v[i])));
    }
    assert(mir_subscript_arg_list_view(r@) =~= mir_subscript_arg_list_view(v@));
    r
}

pub open spec fn mir_instr_list_view(s: Seq<MirInstr>) -> Seq<MirInstrView>
    decreases s,
{
    Seq::new(s.len(), |i: int| if 0 <= i < s.len() { mir_instr_view(s[i]) } else { arbitrary() })
}

pub fn clone_mir_instr_list(v: &Vec<MirInstr>) -> (r: Vec<MirInstr>)
    ensures
        mir_instr_list_view(r@) == mir_instr_list_view(v@),
        r@.len() == v@.len(),
    decreases v@,
{
    let mut r: Vec<MirInstr> = Vec::new();
    for i in 0..v.len()
        invariant
            r@.len() == i,
            forall|j: int| 0 <= j < i ==> mir_instr_view((#[trigger] r@[j])) == mir_instr_view(v@[j]),
    {
        r.push(clone_mir_instr((&v[i])));
    }
    assert(mir_instr_list_view(r@) =~= mir_instr_list_view(v@));
    r
}

pub open spec fn mir_block_list_view(s: Seq<MirBlock>) -> Seq<MirBlockView>
    decreases s,
{
    Seq::new(s.len(), |i: int| if 0 <= i < s.len() { mir_block_view(s[i]) } else { arbitrary() })
}

pub fn clone_mir_block_list(v: &Vec<MirBlock>) -> (r: Vec<MirBlock>)
    ensures
        mir_block_list_view(r@) == mir_block_list_view(v@),
        r@.len() == v@.len(),
    decreases v@,
{
    let mut r: Vec<MirBlock> = Vec::new();
    for i in 0..v.len()
        invariant
            r@.len() == i,
            forall|j: int| 0 <= j < i ==> mir_block_view((#[trigger] r@[j])) == mir_block_view(v@[j]),
    {
        r.push(clone_mir_block((&v[i])));
    }
    assert(mir_block_list_view(r@) =~= mir_block_list_view(v@));
    r
}

pub open spec fn reg_origin_list_view(s: Seq<RegOrigin>) -> Seq<RegOriginView>
    decreases s,
{
    Seq::new(s.len(), |i: int| if 0 <= i < s.len() { reg_origin_view(s[i]) } else { arbitrary() })
}

pub fn clone_reg_origin_list(v: &Vec<RegOrigin>) -> (r: Vec<RegOrigin>)
    ensures
        reg_origin_list_view(r@) == reg_origin_list_view(v@),
        r@.len() == v@.len(),
    decreases v@,
{
    let mut r: Vec<RegOrigin> = Vec::new();
    for i in 0..v.len()
        invariant
            r@.len() == i,
            forall|j: int| 0 <= j < i ==> reg_origin_view((#[trigger] r@[j])) == reg_origin_view(v@[j]),
    {
        r.push(clone_reg_origin((&v[i])));
    }
    assert(reg_origin_list_view(r@) =~= reg_origin_list_view(v@));
    r
}

pub open spec fn mir_struct_declaration_list_view(s: Seq<MirStructDeclaration>) -> Seq<MirStructDeclarationView>
    decreases s,
{
    Seq::new(s.len(), |i: int| if 0 <= i < s.len() { mir_struct_declaration_view(s[i]) } else { arbitrary() })
}

pub fn clone_mir_struct_declaration_list(v: &Vec<MirStructDeclaration>) -> (r: Vec<MirStructDeclaration>)
    ensures
        mir_struct_declaration_list_view(r@) == mir_struct_declaration_list_view(v@),
        r@.len() == v@.len(),
    decreases v@,
{
    let mut r: Vec<MirStructDeclaration> = Vec::new();
    for i in 0..v.len()
        invariant
            r@.len() == i,
            forall|j: int| 0 <= j < i ==> mir_struct_declaration_view((#[trigger] r@[j])) == mir_struct_declaration_view(v@[j]),
    {
        r.push(clone_mir_struct_declaration((&v[i])));
    }
    assert(mir_struct_declaration_list_view(r@) =~= mir_struct_declaration_list_view(v@));
    r
}

pub open spec fn mir_function_declaration_list_view(s: Seq<MirFunctionDeclaration>) -> Seq<MirFunctionDeclarationView>
    decreases s,
{
    Seq::new(s.len(), |i: int| if 0 <= i < s.len() { mir_function_declaration_view(s[i]) } else { arbitrary() })
}

pub fn clone_mir_function_declaration_list(v: &Vec<MirFunctionDeclaration>) -> (r: Vec<MirFunctionDeclaration>)
    ensures
        mir_function_declaration_list_view(r@) == mir_function_declaration_list_view(v@),
        r@.len() == v@.len(),
    decreases v@,
{
    let mut r: Vec<MirFunctionDeclaration> = Vec::new();
    for i in 0..v.len()
        invariant
            r@.len() == i,
            forall|j: int| 0 <= j < i ==> mir_function_declaration_view((#[trigger] r@[j])) == mir_function_declaration_view(v@[j]),
    {
        r.push(clone_mir_function_declaration((&v[i])));
    }
    assert(mir_function_declaration_list_view(r@) =~= mir_function_declaration_list_view(v@));
    r
}

pub open spec fn kw_reg_list_view(s: Seq<(String, Reg)>) -> Seq<(Seq<char>, Reg)>
    decreases s,
{
    Seq::new(s.len(), |i: int| if 0 <= i < s.len() { (s[i].0@, s[i].1) } else { arbitrary() })
}

pub fn clone_kw_reg_list(v: &Vec<(String, Reg)>) -> (r: Vec<(String, Reg)>)
    ensures
        kw_reg_list_view(r@) == kw_reg_list_view(v@),
        r@.len() == v@.len(),
    decreases v@,
{
    let mut r: Vec<(String, Reg)> = Vec::new();
    for i in 0..v.len()
        invariant
            r@.len() == i,
            forall|j: int| 0 <= j < i ==> ((#[trigger] r@[j]).0@, (#[trigger] r@[j]).1) == (v@[j].0@, v@[j].1),
    {
        r.push(((&(&v[i]).0).clone(), *(&(&v[i]).1)));
    }
    assert(kw_reg_list_view(r@) =~= kw_reg_list_view(v@));
    r
}

pub open spec fn opt_place_list_view(s: Seq<Option<MirPlace>>) -> Seq<Option<MirPlaceView>>
    decreases s,
{
    Seq::new(s.len(), |i: int| if 0 <= i < s.len() { (match s[i] { Some(y) => Some(mir_place_view(y)), None => None }) } else { arbitrary() })
}

pub fn clone_opt_place_list(v: &Vec<Option<MirPlace>>) -> (r: Vec<Option<MirPlace>>)
    ensures
        opt_place_list_view(r@) == opt_place_list_view(v@),
        r@.len() == v@.len(),
    decreases v@,
{
    let mut r: Vec<Option<MirPlace>> = Vec::new();
    for i in 0..v.len()
        invariant
            r@.len() == i,
            forall|j: int| 0 <= j < i ==> (match (#[trigger] r@[j]) { Some(y) => Some(mir_place_view(y)), None => None }) == (match v@[j] { Some(y) => Some(mir_place_view(y)), None => None }),
    {
        r.push((match (&v[i]) { Some(y) => Some(clone_mir_place(y)), None => None }));
    }
    assert(opt_place_list_view(r@) =~= opt_place_list_view(v@));
    r
}

pub open spec fn named_function_list_view(s: Seq<(String, MirFunction)>) -> Seq<(Seq<char>, MirFunctionView)>
    decreases s,
{
    Seq::new(s.len(), |i: int| if 0 <= i < s.len() { (s[i].0@, mir_function_view(s[i].1)) } else { arbitrary() })
}

pub fn clone_named_function_list(v: &Vec<(String, MirFunction)>) -> (r: Vec<(String, MirFunction)>)
    ensures
        named_function_list_view(r@) == named_function_list_view(v@),
        r@.len() == v@.len(),
    decreases v@,
{
    let mut r: Vec<(String, MirFunction)> = Vec::new();
    for i in 0..v.len()
        invariant
            r@.len() == i,
            forall|j: int| 0 <= j < i ==> ((#[trigger] r@[j]).0@, mir_function_view((#[trigger] r@[j]).1)) == (v@[j].0@, mir_function_view(v@[j].1)),
    {
        r.push(((&(&v[i]).0).clone(), clone_mir_function((&(&v[i]).1))));
    }
    assert(named_function_list_view(r@) =~= named_function_list_view(v@));
    r
}

pub proof fn unfold_mir_place(x: MirPlace)
    ensures
        mir_place_view(x) == (MirPlaceView { root: x.root, root_ty: (match x.root_ty { Some(y) => Some(ty_view(y)), None => None }), proj: proj_list_view(x.proj@), projection_tys: ty_list_view(x.projection_tys@), ty: (match x.ty { Some(y) => Some(ty_view(y)), None => None }), through: x.through }),
{
        assert(mir_place_view(x).proj =~= proj_list_view(x.proj@));
        assert(mir_place_view(x).projection_tys =~= ty_list_view(x.projection_tys@));
}

pub proof fn unfold_mir_instr(x: MirInstr)
    ensures
        match x {
            MirInstr::Call { dest, func, raises, args, kwargs, arg_places, param_arg_regs } => mir_instr_view(x) == (MirInstrView::Call { dest, func: func_ref_view(func), raises: (match raises { Some(y) => Some(ty_view(y)), None => None }), args: args@, kwargs: kw_reg_list_view(kwargs@), arg_places: opt_place_list_view(arg_places@), param_arg_regs: param_arg_regs@ }),
            MirInstr::CallIndirect { dest, callee, raises, args, kwargs } => mir_instr_view(x) == (MirInstrView::CallIndirect { dest, callee, raises: (match raises { Some(y) => Some(ty_view(y)), None => None }), args: args@, kwargs: kw_reg_list_view(kwargs@) }),
            MirInstr::MethodCall { dest, recv, method, resolved, raises, args, kwargs, recv_place, arg_places } => mir_instr_view(x) == (MirInstrView::MethodCall { dest, recv, method: method@, resolved: (match resolved { Some(y) => Some(y@), None => None }), raises: (match raises { Some(y) => Some(ty_view(y)), None => None }), args: args@, kwargs: kw_reg_list_view(kwargs@), recv_place: (match recv_place { Some(y) => Some(mir_place_view(y)), None => None }), arg_places: opt_place_list_view(arg_places@) }),
            MirInstr::MultiIndex { dest, object, args, resolved } => mir_instr_view(x) == (MirInstrView::MultiIndex { dest, object, args: mir_subscript_arg_list_view(args@), resolved: (match resolved { Some(y) => Some(y@), None => None }) }),
            MirInstr::MultiSet { receiver_place, args, value, value_keyword, resolved } => mir_instr_view(x) == (MirInstrView::MultiSet { receiver_place: mir_place_view(receiver_place), args: mir_subscript_arg_list_view(args@), value, value_keyword: (match value_keyword { Some(y) => Some(y@), None => None }), resolved: (match resolved { Some(y) => Some(y@), None => None }) }),
            MirInstr::MakeTuple { dest, elems, element_types } => mir_instr_view(x) == (MirInstrView::MakeTuple { dest, elems: elems@, element_types: (match element_types { Some(y) => Some(ty_list_view(y@)), None => None }) }),
            MirInstr::MakeVariant { dest, alternatives, index, value } => mir_instr_view(x) == (MirInstrView::MakeVariant { dest, alternatives: ty_list_view(alternatives@), index, value }),
            MirInstr::MakeClosure { dest, function, captures } => mir_instr_view(x) == (MirInstrView::MakeClosure { dest, function: function@, captures: mir_closure_capture_list_view(captures@) }),
            MirInstr::Try { body, handler, orelse, finalbody, cleanup } => mir_instr_view(x) == (MirInstrView::Try { body: mir_block_list_view(body@), handler: (match handler { Some(y) => Some((y.0, mir_block_list_view(y.1@))), None => None }), orelse: (match orelse { Some(y) => Some(mir_block_list_view(y@)), None => None }), finalbody: (match finalbody { Some(y) => Some(mir_block_list_view(y@)), None => None }), cleanup: cleanup@ }),
            MirInstr::GetIter { iter, mode, prepare } => mir_instr_view(x) == (MirInstrView::GetIter { iter, mode, prepare: string_list_view(prepare@) }),
            _ => true,
        },
{
    match x {
        MirInstr::Call { dest, func, raises, args, kwargs, arg_places, param_arg_regs } => {
            assert(mir_instr_view(x)->Call_kwargs =~= kw_reg_list_view(kwargs@));
            assert(mir_instr_view(x)->Call_arg_places =~= opt_place_list_view(arg_places@));
        },
        MirInstr::CallIndirect { dest, callee, raises, args, kwargs } => {
            assert(mir_instr_view(x)->CallIndirect_kwargs =~= kw_reg_list_view(kwargs@));
        },
        MirInstr::MethodCall { dest, recv, method, resolved, raises, args, kwargs, recv_place, arg_places } => {
            assert(mir_instr_view(x)->MethodCall_kwargs =~= kw_reg_list_view(kwargs@));
            assert(mir_instr_view(x)->MethodCall_arg_places =~= opt_place_list_view(arg_places@));
        },
        MirInstr::MultiIndex { dest, object, args, resolved } => {
            assert(mir_instr_view(x)->MultiIndex_args =~= mir_subscript_arg_list_view(args@));
        },
        MirInstr::MultiSet { receiver_place, args, value, value_keyword, resolved } => {
            assert(mir_instr_view(x)->MultiSet_args =~= mir_subscript_arg_list_view(args@));
        },
        MirInstr::MakeTuple { dest, elems, element_types } => {
            match element_types { Some(y) => {
                assert(mir_instr_view(x)->MakeTuple_element_types->0 =~= ty_list_view(y@));
            }, None => {} }
        },
        MirInstr::MakeVariant { dest, alternatives, index, value } => {
            assert(mir_instr_view(x)->MakeVariant_alternatives =~= ty_list_view(alternatives@));
        },
        MirInstr::MakeClosure { dest, function, captures } => {
            assert(mir_instr_view(x)->MakeClosure_captures =~= mir_closure_capture_list_view(captures@));
        },
        MirInstr::Try { body, handler, orelse, finalbody, cleanup } => {
            assert(mir_instr_view(x)->Try_body =~= mir_block_list_view(body@));
            match handler { Some(y) => {
                assert((mir_instr_view(x)->Try_handler->0).1 =~= mir_block_list_view((y).1@));
            }, None => {} }
            match orelse { Some(y) => {
                assert(mir_instr_view(x)->Try_orelse->0 =~= mir_block_list_view(y@));
            }, None => {} }
            match finalbody { Some(y) => {
                assert(mir_instr_view(x)->Try_finalbody->0 =~= mir_block_list_view(y@));
            }, None => {} }
        },
        MirInstr::GetIter { iter, mode, prepare } => {
            assert(mir_instr_view(x)->GetIter_prepare =~= string_list_view(prepare@));
        },
        _ => {},
    }
}

pub proof fn unfold_mir_block(x: MirBlock)
    ensures
        mir_block_view(x) == (MirBlockView { instrs: mir_instr_list_view(x.instrs@), term: mir_term_view(x.term) }),
{
        assert(mir_block_view(x).instrs =~= mir_instr_list_view(x.instrs@));
}

pub proof fn unfold_span_table(x: SpanTable)
    ensures
        span_table_view(x) == (SpanTableView { entries: reg_origin_list_view(x.entries@) }),
{
        assert(span_table_view(x).entries =~= reg_origin_list_view(x.entries@));
}

pub proof fn unfold_mir_function(x: MirFunction)
    ensures
        mir_function_view(x) == (MirFunctionView { blocks: mir_block_list_view(x.blocks@), n_regs: x.n_regs, n_vars: x.n_vars, var_names: string_list_view(x.var_names@), n_params: x.n_params, param_types: ty_list_view(x.param_types@), owned_params: x.owned_params@, ref_params: x.ref_params@, raises: x.raises, ret_ty: (match x.ret_ty { Some(y) => Some(ty_view(y)), None => None }), returns_reference: x.returns_reference, spans: span_table_view(x.spans), reg_types: slot_ty_list_view(x.reg_types@), complete: x.complete }),
{
        assert(mir_function_view(x).blocks =~= mir_block_list_view(x.blocks@));
        assert(mir_function_view(x).var_names =~= string_list_view(x.var_names@));
        assert(mir_function_view(x).param_types =~= ty_list_view(x.param_types@));
        assert(mir_function_view(x).reg_types =~= slot_ty_list_view(x.reg_types@));
}

pub proof fn unfold_mir_struct_declaration(x: MirStructDeclaration)
    ensures
        mir_struct_declaration_view(x) == (MirStructDeclarationView { name: x.name@, fields: named_ty_list_view(x.fields@), mut_self_methods: string_list_view(x.mut_self_methods@), fieldwise_init: x.fieldwise_init, param_decls: flagged_name_list_view(x.param_decls@), explicit_destroy_message: (match x.explicit_destroy_message { Some(y) => Some(y@), None => None }), explicit_destructors: flagged_name_list_view(x.explicit_destructors@) }),
{
        assert(mir_struct_declaration_view(x).fields =~= named_ty_list_view(x.fields@));
        assert(mir_struct_declaration_view(x).mut_self_methods =~= string_list_view(x.mut_self_methods@));
        assert(mir_struct_declaration_view(x).param_decls =~= flagged_name_list_view(x.param_decls@));
        assert(mir_struct_declaration_view(x).explicit_destructors =~= flagged_name_list_view(x.explicit_destructors@));
}

pub proof fn unfold_mir_function_declaration(x: MirFunctionDeclaration)
    ensures
        mir_function_declaration_view(x) == (MirFunctionDeclarationView { lowered_name: x.lowered_name@, param_names: string_list_view(x.param_names@), param_types: ty_list_view(x.param_types@), ref_params: x.ref_params@, defaults: opt_const_list_view(x.defaults@), required: x.required@, variadic: (match x.variadic { Some(y) => Some(ty_view(y)), None => None }), variadic_index: x.variadic_index, kw_variadic: (match x.kw_variadic { Some(y) => Some(ty_view(y)), None => None }), kw_variadic_index: x.kw_variadic_index, positional_only: x.positional_only, keyword_only: x.keyword_only, param_decls: flagged_name_list_view(x.param_decls@) }),
{
        assert(mir_function_declaration_view(x).param_names =~= string_list_view(x.param_names@));
        assert(mir_function_declaration_view(x).param_types =~= ty_list_view(x.param_types@));
        assert(mir_function_declaration_view(x).defaults =~= opt_const_list_view(x.defaults@));
        assert(mir_function_declaration_view(x).param_decls =~= flagged_name_list_view(x.param_decls@));
}

pub proof fn unfold_mir_declarations(x: MirDeclarations)
    ensures
        mir_declarations_view(x) == (MirDeclarationsView { structs: mir_struct_declaration_list_view(x.structs@), functions: mir_function_declaration_list_view(x.functions@), coercions: ty_pair_list_view(x.coercions@) }),
{
        assert(mir_declarations_view(x).structs =~= mir_struct_declaration_list_view(x.structs@));
        assert(mir_declarations_view(x).functions =~= mir_function_declaration_list_view(x.functions@));
        assert(mir_declarations_view(x).coercions =~= ty_pair_list_view(x.coercions@));
}

pub proof fn unfold_mir_program(x: MirProgram)
    ensures
        mir_program_view(x) == (MirProgramView { functions: named_function_list_view(x.functions@), declarations: mir_declarations_view(x.declarations), invariant_errors: string_list_view(x.invariant_errors@) }),
{
        assert(mir_program_view(x).functions =~= named_function_list_view(x.functions@));
        assert(mir_program_view(x).invariant_errors =~= string_list_view(x.invariant_errors@));
}

/// A place that is a whole variable.
#[verifier::opaque]
pub open spec fn whole_place(root: u32, ty: Option<TyView>) -> MirPlaceView {
    MirPlaceView {
        root,
        root_ty: ty,
        proj: Seq::empty(),
        projection_tys: Seq::empty(),
        ty,
        through: None,
    }
}

/// See [`whole_place`].
pub fn root_place(root: u32, ty: Option<Ty>) -> (r: MirPlace)
    ensures
        r@ == whole_place(root, opt_view(ty)),
{
    proof { reveal(whole_place); }
    let list: Vec<Proj> = Vec::new();
    assert(proj_list_view(list@) =~= Seq::<ProjView>::empty());
    let list2: Vec<Ty> = Vec::new();
    assert(ty_list_view(list2@) =~= Seq::<TyView>::empty());
    let place = MirPlace {
        root,
        root_ty: (match (&ty) { Some(y) => Some(clone_ty(y)), None => None }),
        proj: list,
        projection_tys: list2,
        ty,
        through: None,
    };
    proof { unfold_mir_place(place); }
    place
}

/// A place one step further, of a known type.
#[verifier::opaque]
pub open spec fn projected(place: MirPlaceView, step: ProjView, ty: TyView) -> MirPlaceView {
    let place = MirPlaceView { proj: place.proj.push(step), ..place };
    let place = MirPlaceView { projection_tys: place.projection_tys.push(ty), ..place };
    let place = MirPlaceView { ty: Some(ty), ..place };
    place
}

/// See [`projected`].
pub fn project(place: MirPlace, step: Proj, ty: Ty) -> (r: MirPlace)
    ensures
        r@ == projected(place@, step@, ty@),
{
    proof { reveal(projected); }
    let mut place = place;
    let ghost before = proj_list_view(place.proj@);
    let ghost added = step@;
    place.proj.push(step);
    assert(proj_list_view(place.proj@) =~= before.push(added));
    let item = clone_ty(&ty);
    let ghost before2 = ty_list_view(place.projection_tys@);
    let ghost added2 = item@;
    place.projection_tys.push(item);
    assert(ty_list_view(place.projection_tys@) =~= before2.push(added2));
    place.ty = Some(ty);
    place
}

/// A place one step further. Without a type the place is no longer fully typed.
#[verifier::opaque]
pub open spec fn projected_opt(
    place: MirPlaceView,
    step: ProjView,
    ty: Option<TyView>,
) -> MirPlaceView {
    match ty {
        Some(ty) => projected(place, step, ty),
        None => {
            let place = MirPlaceView { proj: place.proj.push(step), ..place };
            place
        },
    }
}

/// See [`projected_opt`].
pub fn project_opt(place: MirPlace, step: Proj, ty: Option<Ty>) -> (r: MirPlace)
    ensures
        r@ == projected_opt(place@, step@, opt_view(ty)),
{
    proof { reveal(projected_opt); }
    match ty {
        Some(ty) => project(place, step, ty),
        None => {
            let mut place = place;
            let ghost before = proj_list_view(place.proj@);
            let ghost added = step@;
            place.proj.push(step);
            assert(proj_list_view(place.proj@) =~= before.push(added));
            place
        },
    }
}

/// A place accessed through a local reference.
#[verifier::opaque]
pub open spec fn accessed_through(place: MirPlaceView, reference: u32) -> MirPlaceView {
    let place = MirPlaceView { through: Some(reference), ..place };
    place
}

/// See [`accessed_through`].
pub fn through(place: MirPlace, reference: u32) -> (r: MirPlace)
    ensures
        r@ == accessed_through(place@, reference),
{
    proof { reveal(accessed_through); }
    let mut place = place;
    place.through = Some(reference);
    place
}

/// Whether the type of a place and of each step to it is known.
#[verifier::opaque]
pub open spec fn fully_typed(place: MirPlaceView) -> bool {
    place.root_ty is Some && place.ty is Some && place.proj.len() == place.projection_tys.len()
}

/// See [`fully_typed`].
pub fn is_typed(place: &MirPlace) -> (r: bool)
    ensures
        r == fully_typed(place@),
{
    proof { reveal(fully_typed); }
    place.root_ty.is_some() && place.ty.is_some() && place.proj.len() == place.projection_tys.len()
}

/// A direct callee.
#[verifier::opaque]
pub open spec fn callee_named(name: Seq<char>) -> FuncRefView {
    FuncRefView { name }
}

/// See [`callee_named`].
pub fn named(name: &String) -> (r: FuncRef)
    ensures
        r@ == callee_named(name@),
{
    proof { reveal(callee_named); }
    FuncRef { name: name.clone() }
}

impl FuncRef {
    /// The callee of a name.
    pub fn named(name: &str) -> (r: FuncRef)
        ensures
            r@ == callee_named(name@),
    {
        proof {
            reveal(callee_named);
        }
        FuncRef { name: name.to_owned() }
    }
}

} // verus!
