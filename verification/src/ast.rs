//! The abstract syntax tree.

use crate::text::{clone_string_list, string_list_view};
use crate::token::Span;
use vstd::prelude::*;

verus! {

/// A prefix operator.
#[derive(Debug, Clone, Copy, PartialEq, Eq, Structural)]
pub enum PrefixOp {
    Neg,
    Not,
}

/// A binary operator.
#[derive(Debug, Clone, Copy, PartialEq, Eq, Structural)]
pub enum InfixOp {
    Add,
    Sub,
    Mul,
    Div,
    FloorDiv,
    Mod,
    Pow,
    Eq,
    Ne,
    Lt,
    Gt,
    Le,
    Ge,
    And,
    Or,
    In,
    NotIn,
}

/// A SIMD element type.
#[derive(Debug, Clone, Copy, PartialEq, Eq, Structural)]
pub enum Dtype {
    Int8,
    Int16,
    Int32,
    Int64,
    UInt8,
    UInt16,
    UInt32,
    UInt64,
    Float32,
    Float64,
    Bool,
}

/// How an argument is passed.
#[derive(Debug, Clone, Copy, PartialEq, Eq, Structural)]
pub enum ArgConvention {
    Read,
    Mut,
    Ref,
    Owned,
    Deinit,
    Out,
}

/// Whether a parameter collects arguments.
#[derive(Debug, Clone, Copy, PartialEq, Eq, Structural)]
pub enum ParamKind {
    Regular,
    Variadic,
    KwVariadic,
}

/// How a nested function captures an enclosing local.
#[derive(Debug, Clone, Copy, PartialEq, Eq, Structural)]
pub enum CaptureKind {
    Read,
    Mut,
    Move,
}

/// What a comprehension builds.
#[derive(Debug, Clone, Copy, PartialEq, Eq, Structural)]
pub enum CollectionKind {
    List,
    SetOf,
    Dict,
}

/// The descriptor a slice subscript selects.
#[derive(Debug, Clone, Copy, PartialEq, Eq, Structural)]
pub enum SliceKind {
    Slice,
    Contiguous,
    Strided,
}

/// An expression with its source range.
#[derive(Debug, PartialEq, Eq)]
pub struct Expr {
    pub kind: ExprKind,
    pub span: Span,
    pub source: Option<String>,
}

/// What a [`Expr`] holds.
pub struct ExprView {
    pub kind: ExprKindView,
    pub span: Span,
    pub source: Option<Seq<char>>,
}

/// The forms of expression.
#[derive(Debug, PartialEq, Eq)]
#[allow(inconsistent_fields)]
pub enum ExprKind {
    Int(i64),
    /// The IEEE-754 bits of a float literal.
    Float(u64),
    Bool(bool),
    Str(String),
    NoneLit,
    Uninitialized,
    Identifier(String),
    TypeValue(Type),
    TString { parts: Vec<TStringPart>, raw: bool },
    TypeApply { name: String, args: Vec<ParamArg> },
    Prefix(PrefixOp, Box<Expr>),
    Transfer(Box<Expr>),
    Spread(Box<Expr>),
    Infix(InfixOp, Box<Expr>, Box<Expr>),
    Compare { first: Box<Expr>, rest: Vec<(InfixOp, Expr)> },
    Call { name: String, param_args: Vec<ParamArg>, args: Vec<Expr>, kwargs: Vec<KwArg> },
    Invoke { callee: Box<Expr>, param_args: Vec<ParamArg>, args: Vec<Expr>, kwargs: Vec<KwArg> },
    Member { object: Box<Expr>, field: String },
    MethodCall { object: Box<Expr>, method: String, args: Vec<Expr>, kwargs: Vec<KwArg> },
    Index { object: Box<Expr>, index: Box<Expr> },
    Slice { object: Box<Expr>, lower: Option<Box<Expr>>, upper: Option<Box<Expr>>, step: Option<Box<Expr>> },
    MultiIndex { object: Box<Expr>, args: Vec<SubscriptArg> },
    ListLit(Vec<Expr>),
    TupleLit(Vec<Expr>),
    BraceLit(Vec<(Expr, Option<Expr>)>),
    Comprehension { kind: CollectionKind, key: Option<Box<Expr>>, value: Box<Expr>, clauses: Vec<ComprehensionClause> },
    Named { name: String, value: Box<Expr> },
    IfExpr { cond: Box<Expr>, then_branch: Box<Expr>, else_branch: Box<Expr> },
}

/// What a [`ExprKind`] holds.
#[allow(inconsistent_fields)]
pub enum ExprKindView {
    Int(i64),
    Float(u64),
    Bool(bool),
    Str(Seq<char>),
    NoneLit,
    Uninitialized,
    Identifier(Seq<char>),
    TypeValue(TypeView),
    TString { parts: Seq<TStringPartView>, raw: bool },
    TypeApply { name: Seq<char>, args: Seq<ParamArgView> },
    Prefix(PrefixOp, Box<ExprView>),
    Transfer(Box<ExprView>),
    Spread(Box<ExprView>),
    Infix(InfixOp, Box<ExprView>, Box<ExprView>),
    Compare { first: Box<ExprView>, rest: Seq<(InfixOp, ExprView)> },
    Call { name: Seq<char>, param_args: Seq<ParamArgView>, args: Seq<ExprView>, kwargs: Seq<KwArgView> },
    Invoke { callee: Box<ExprView>, param_args: Seq<ParamArgView>, args: Seq<ExprView>, kwargs: Seq<KwArgView> },
    Member { object: Box<ExprView>, field: Seq<char> },
    MethodCall { object: Box<ExprView>, method: Seq<char>, args: Seq<ExprView>, kwargs: Seq<KwArgView> },
    Index { object: Box<ExprView>, index: Box<ExprView> },
    Slice { object: Box<ExprView>, lower: Option<Box<ExprView>>, upper: Option<Box<ExprView>>, step: Option<Box<ExprView>> },
    MultiIndex { object: Box<ExprView>, args: Seq<SubscriptArgView> },
    ListLit(Seq<ExprView>),
    TupleLit(Seq<ExprView>),
    BraceLit(Seq<(ExprView, Option<ExprView>)>),
    Comprehension { kind: CollectionKind, key: Option<Box<ExprView>>, value: Box<ExprView>, clauses: Seq<ComprehensionClauseView> },
    Named { name: Seq<char>, value: Box<ExprView> },
    IfExpr { cond: Box<ExprView>, then_branch: Box<ExprView>, else_branch: Box<ExprView> },
}

/// A keyword argument.
#[derive(Debug, PartialEq, Eq)]
pub struct KwArg {
    pub name: String,
    pub value: Expr,
}

/// What a [`KwArg`] holds.
pub struct KwArgView {
    pub name: Seq<char>,
    pub value: ExprView,
}

/// One argument of a subscript with several.
#[derive(Debug, PartialEq, Eq)]
#[allow(inconsistent_fields)]
pub enum SubscriptArg {
    Index(Expr),
    Slice { lower: Option<Box<Expr>>, upper: Option<Box<Expr>>, step: Option<Box<Expr>> },
}

/// What a [`SubscriptArg`] holds.
#[allow(inconsistent_fields)]
pub enum SubscriptArgView {
    Index(ExprView),
    Slice { lower: Option<Box<ExprView>>, upper: Option<Box<ExprView>>, step: Option<Box<ExprView>> },
}

/// One clause of a comprehension.
#[derive(Debug, PartialEq, Eq)]
#[allow(inconsistent_fields)]
pub enum ComprehensionClause {
    For { var: String, owned: bool, iter: Box<Expr> },
    If(Box<Expr>),
}

/// What a [`ComprehensionClause`] holds.
#[allow(inconsistent_fields)]
pub enum ComprehensionClauseView {
    For { var: Seq<char>, owned: bool, iter: Box<ExprView> },
    If(Box<ExprView>),
}

/// A piece of a template string.
#[derive(Debug, PartialEq, Eq)]
#[allow(inconsistent_fields)]
pub enum TStringPart {
    Literal(String),
    Expr(Box<Expr>),
}

/// What a [`TStringPart`] holds.
#[allow(inconsistent_fields)]
pub enum TStringPartView {
    Literal(Seq<char>),
    Expr(Box<ExprView>),
}

/// A compile-time argument in brackets.
#[derive(Debug, PartialEq, Eq)]
#[allow(inconsistent_fields)]
pub enum ParamArg {
    Type(Type),
    Value(Expr),
    Named { name: String, value: Box<ParamArg> },
}

/// What a [`ParamArg`] holds.
#[allow(inconsistent_fields)]
pub enum ParamArgView {
    Type(TypeView),
    Value(ExprView),
    Named { name: Seq<char>, value: Box<ParamArgView> },
}

/// A type annotation as written.
#[derive(Debug, PartialEq, Eq)]
#[allow(inconsistent_fields)]
pub enum Type {
    Int,
    UInt,
    Bool,
    String,
    Float64,
    NoneTy,
    SelfType,
    SelfParam(String),
    Named(String, Vec<ParamArg>),
    Assoc { base: Box<Type>, name: String },
    Func { params: Vec<Type>, ret: Box<Type>, thin: bool, raises: bool, raises_type: Option<Box<Type>> },
    Ref { referent: Box<Type>, origin: Option<Box<Expr>> },
}

/// What a [`Type`] holds.
#[allow(inconsistent_fields)]
pub enum TypeView {
    Int,
    UInt,
    Bool,
    String,
    Float64,
    NoneTy,
    SelfType,
    SelfParam(Seq<char>),
    Named(Seq<char>, Seq<ParamArgView>),
    Assoc { base: Box<TypeView>, name: Seq<char> },
    Func { params: Seq<TypeView>, ret: Box<TypeView>, thin: bool, raises: bool, raises_type: Option<Box<TypeView>> },
    Ref { referent: Box<TypeView>, origin: Option<Box<ExprView>> },
}

/// A declared compile-time parameter as written.
#[derive(Debug, PartialEq, Eq)]
pub struct TypeParam {
    pub name: String,
    pub bounds: Vec<String>,
    pub value_type: Option<Type>,
    pub default: Option<Expr>,
    pub infer_only: bool,
}

/// What a [`TypeParam`] holds.
pub struct TypeParamView {
    pub name: Seq<char>,
    pub bounds: Seq<Seq<char>>,
    pub value_type: Option<TypeView>,
    pub default: Option<ExprView>,
    pub infer_only: bool,
}

/// A function parameter.
#[derive(Debug, PartialEq, Eq)]
pub struct FnParam {
    pub name: String,
    pub ty: Type,
    pub default: Option<Expr>,
    pub convention: Option<ArgConvention>,
    pub kind: ParamKind,
}

/// What a [`FnParam`] holds.
pub struct FnParamView {
    pub name: Seq<char>,
    pub ty: TypeView,
    pub default: Option<ExprView>,
    pub convention: Option<ArgConvention>,
    pub kind: ParamKind,
}

/// A struct field.
#[derive(Debug, PartialEq, Eq)]
pub struct Param {
    pub name: String,
    pub ty: Type,
}

/// What a [`Param`] holds.
pub struct ParamView {
    pub name: Seq<char>,
    pub ty: TypeView,
}

/// An associated compile-time member of a struct.
#[derive(Debug, PartialEq, Eq)]
pub struct StructComptime {
    pub name: String,
    pub value: Expr,
}

/// What a [`StructComptime`] holds.
pub struct StructComptimeView {
    pub name: Seq<char>,
    pub value: ExprView,
}

/// A struct method.
#[derive(Debug, PartialEq, Eq)]
pub struct Method {
    pub name: String,
    pub has_self: bool,
    pub self_convention: Option<ArgConvention>,
    pub params: Vec<FnParam>,
    pub positional_only: Option<usize>,
    pub keyword_only: Option<usize>,
    pub raises_type: Option<Type>,
    pub ret: Option<Type>,
    pub body: Vec<Stmt>,
}

/// What a [`Method`] holds.
pub struct MethodView {
    pub name: Seq<char>,
    pub has_self: bool,
    pub self_convention: Option<ArgConvention>,
    pub params: Seq<FnParamView>,
    pub positional_only: Option<usize>,
    pub keyword_only: Option<usize>,
    pub raises_type: Option<TypeView>,
    pub ret: Option<TypeView>,
    pub body: Seq<StmtView>,
}

/// An imported name.
#[derive(Debug, PartialEq, Eq)]
pub struct ImportName {
    pub name: String,
    pub alias: Option<String>,
}

/// What a [`ImportName`] holds.
pub struct ImportNameView {
    pub name: Seq<char>,
    pub alias: Option<Seq<char>>,
}

/// What an import brings in.
#[derive(Debug, PartialEq, Eq)]
#[allow(inconsistent_fields)]
pub enum ImportNames {
    Names(Vec<ImportName>),
    Wildcard,
}

/// What a [`ImportNames`] holds.
#[allow(inconsistent_fields)]
pub enum ImportNamesView {
    Names(Seq<ImportNameView>),
    Wildcard,
}

/// One manager of a `with` statement.
#[derive(Debug, PartialEq, Eq)]
pub struct WithItem {
    pub context: Expr,
    pub var: Option<String>,
}

/// What a [`WithItem`] holds.
pub struct WithItemView {
    pub context: ExprView,
    pub var: Option<Seq<char>>,
}

/// A declared capture of a nested function.
#[derive(Debug, PartialEq, Eq)]
pub struct Capture {
    pub name: String,
    pub kind: CaptureKind,
}

/// What a [`Capture`] holds.
pub struct CaptureView {
    pub name: Seq<char>,
    pub kind: CaptureKind,
}

/// A statement with its source range.
#[derive(Debug, PartialEq, Eq)]
pub struct Stmt {
    pub kind: StmtKind,
    pub span: Span,
    pub module: Option<String>,
}

/// What a [`Stmt`] holds.
pub struct StmtView {
    pub kind: StmtKindView,
    pub span: Span,
    pub module: Option<Seq<char>>,
}

/// The forms of statement.
#[derive(Debug, PartialEq, Eq)]
#[allow(inconsistent_fields)]
pub enum StmtKind {
    VarDecl { name: String, ty: Option<Type>, value: Expr },
    RefDecl { name: String, value: Expr },
    Assign { name: String, value: Expr },
    Comptime { name: String, value: Expr },
    Raise(Expr),
    Return(Option<Expr>),
    Pass,
    Break,
    Continue,
    Import { path: Vec<String> },
    FromImport { level: usize, path: Vec<String>, names: ImportNames },
    SetPlace { place: Expr, value: Expr },
    AugAssign { place: Expr, op: InfixOp, value: Expr },
    Unpack { targets: Vec<Expr>, value: Expr },
    Expr(Expr),
    If { branches: Vec<(Expr, Vec<Stmt>)>, orelse: Option<Vec<Stmt>> },
    ComptimeIf { branches: Vec<(Expr, Vec<Stmt>)>, orelse: Option<Vec<Stmt>> },
    While { cond: Expr, body: Vec<Stmt>, orelse: Option<Vec<Stmt>> },
    For { var: String, reference: bool, owned: bool, iter: Expr, body: Vec<Stmt>, orelse: Option<Vec<Stmt>> },
    ComptimeFor { var: String, iter: Expr, body: Vec<Stmt> },
    Try { body: Vec<Stmt>, except: Option<(Option<String>, Vec<Stmt>)>, orelse: Option<Vec<Stmt>>, finalbody: Option<Vec<Stmt>> },
    With { items: Vec<WithItem>, body: Vec<Stmt> },
    Def { name: String, decorators: Vec<String>, type_params: Vec<TypeParam>, params: Vec<FnParam>, positional_only: Option<usize>, keyword_only: Option<usize>, captures: Option<Vec<Capture>>, raises: bool, raises_type: Option<Type>, ret: Option<Type>, where_clause: Option<Expr>, body: Vec<Stmt> },
    Struct { name: String, decorators: Vec<String>, type_params: Vec<TypeParam>, conforms: Vec<String>, callable_conformance: Option<Type>, conformance_conditions: Vec<Expr>, fields: Vec<Param>, associated: Vec<StructComptime>, methods: Vec<Method>, fieldwise_init: bool },
    Trait { name: String },
}

/// What a [`StmtKind`] holds.
#[allow(inconsistent_fields)]
pub enum StmtKindView {
    VarDecl { name: Seq<char>, ty: Option<TypeView>, value: ExprView },
    RefDecl { name: Seq<char>, value: ExprView },
    Assign { name: Seq<char>, value: ExprView },
    Comptime { name: Seq<char>, value: ExprView },
    Raise(ExprView),
    Return(Option<ExprView>),
    Pass,
    Break,
    Continue,
    Import { path: Seq<Seq<char>> },
    FromImport { level: usize, path: Seq<Seq<char>>, names: ImportNamesView },
    SetPlace { place: ExprView, value: ExprView },
    AugAssign { place: ExprView, op: InfixOp, value: ExprView },
    Unpack { targets: Seq<ExprView>, value: ExprView },
    Expr(ExprView),
    If { branches: Seq<(ExprView, Seq<StmtView>)>, orelse: Option<Seq<StmtView>> },
    ComptimeIf { branches: Seq<(ExprView, Seq<StmtView>)>, orelse: Option<Seq<StmtView>> },
    While { cond: ExprView, body: Seq<StmtView>, orelse: Option<Seq<StmtView>> },
    For { var: Seq<char>, reference: bool, owned: bool, iter: ExprView, body: Seq<StmtView>, orelse: Option<Seq<StmtView>> },
    ComptimeFor { var: Seq<char>, iter: ExprView, body: Seq<StmtView> },
    Try { body: Seq<StmtView>, except: Option<(Option<Seq<char>>, Seq<StmtView>)>, orelse: Option<Seq<StmtView>>, finalbody: Option<Seq<StmtView>> },
    With { items: Seq<WithItemView>, body: Seq<StmtView> },
    Def { name: Seq<char>, decorators: Seq<Seq<char>>, type_params: Seq<TypeParamView>, params: Seq<FnParamView>, positional_only: Option<usize>, keyword_only: Option<usize>, captures: Option<Seq<CaptureView>>, raises: bool, raises_type: Option<TypeView>, ret: Option<TypeView>, where_clause: Option<ExprView>, body: Seq<StmtView> },
    Struct { name: Seq<char>, decorators: Seq<Seq<char>>, type_params: Seq<TypeParamView>, conforms: Seq<Seq<char>>, callable_conformance: Option<TypeView>, conformance_conditions: Seq<ExprView>, fields: Seq<ParamView>, associated: Seq<StructComptimeView>, methods: Seq<MethodView>, fieldwise_init: bool },
    Trait { name: Seq<char> },
}

pub open spec fn expr_view(x: Expr) -> ExprView
    decreases x,
{
    ExprView {
        kind: expr_kind_view(x.kind),
        span: x.span,
        source: (match x.source { Some(y) => Some(y@), None => None }),
    }
}

impl View for Expr {
    type V = ExprView;

    open spec fn view(&self) -> ExprView {
        expr_view(*self)
    }
}

pub fn clone_expr(x: &Expr) -> (r: Expr)
    ensures
        expr_view(r) == expr_view(*x),
    decreases x,
{
    Expr {
        kind: clone_expr_kind((&x.kind)),
        span: x.span,
        source: (match (&x.source) { Some(y) => Some(y.clone()), None => None }),
    }
}

impl Clone for Expr {
    fn clone(&self) -> (r: Self)
        ensures
            r@ == self@,
    {
        clone_expr(self)
    }
}

pub open spec fn expr_kind_view(x: ExprKind) -> ExprKindView
    decreases x,
{
    match x {
        ExprKind::Int(a0) => ExprKindView::Int(a0),
        ExprKind::Float(a0) => ExprKindView::Float(a0),
        ExprKind::Bool(a0) => ExprKindView::Bool(a0),
        ExprKind::Str(a0) => ExprKindView::Str(a0@),
        ExprKind::NoneLit => ExprKindView::NoneLit,
        ExprKind::Uninitialized => ExprKindView::Uninitialized,
        ExprKind::Identifier(a0) => ExprKindView::Identifier(a0@),
        ExprKind::TypeValue(a0) => ExprKindView::TypeValue(type_view(a0)),
        ExprKind::TString { parts, raw } => ExprKindView::TString { parts: t_string_part_list_view(parts@), raw },
        ExprKind::TypeApply { name, args } => ExprKindView::TypeApply { name: name@, args: param_arg_list_view(args@) },
        ExprKind::Prefix(a0, a1) => ExprKindView::Prefix(a0, Box::new(expr_view(*a1))),
        ExprKind::Transfer(a0) => ExprKindView::Transfer(Box::new(expr_view(*a0))),
        ExprKind::Spread(a0) => ExprKindView::Spread(Box::new(expr_view(*a0))),
        ExprKind::Infix(a0, a1, a2) => ExprKindView::Infix(a0, Box::new(expr_view(*a1)), Box::new(expr_view(*a2))),
        ExprKind::Compare { first, rest } => ExprKindView::Compare { first: Box::new(expr_view(*first)), rest: comparison_list_view(rest@) },
        ExprKind::Call { name, param_args, args, kwargs } => ExprKindView::Call { name: name@, param_args: param_arg_list_view(param_args@), args: expr_list_view(args@), kwargs: kw_arg_list_view(kwargs@) },
        ExprKind::Invoke { callee, param_args, args, kwargs } => ExprKindView::Invoke { callee: Box::new(expr_view(*callee)), param_args: param_arg_list_view(param_args@), args: expr_list_view(args@), kwargs: kw_arg_list_view(kwargs@) },
        ExprKind::Member { object, field } => ExprKindView::Member { object: Box::new(expr_view(*object)), field: field@ },
        ExprKind::MethodCall { object, method, args, kwargs } => ExprKindView::MethodCall { object: Box::new(expr_view(*object)), method: method@, args: expr_list_view(args@), kwargs: kw_arg_list_view(kwargs@) },
        ExprKind::Index { object, index } => ExprKindView::Index { object: Box::new(expr_view(*object)), index: Box::new(expr_view(*index)) },
        ExprKind::Slice { object, lower, upper, step } => ExprKindView::Slice { object: Box::new(expr_view(*object)), lower: (match lower { Some(y) => Some(Box::new(expr_view(*y))), None => None }), upper: (match upper { Some(y) => Some(Box::new(expr_view(*y))), None => None }), step: (match step { Some(y) => Some(Box::new(expr_view(*y))), None => None }) },
        ExprKind::MultiIndex { object, args } => ExprKindView::MultiIndex { object: Box::new(expr_view(*object)), args: subscript_arg_list_view(args@) },
        ExprKind::ListLit(a0) => ExprKindView::ListLit(expr_list_view(a0@)),
        ExprKind::TupleLit(a0) => ExprKindView::TupleLit(expr_list_view(a0@)),
        ExprKind::BraceLit(a0) => ExprKindView::BraceLit(entry_list_view(a0@)),
        ExprKind::Comprehension { kind, key, value, clauses } => ExprKindView::Comprehension { kind, key: (match key { Some(y) => Some(Box::new(expr_view(*y))), None => None }), value: Box::new(expr_view(*value)), clauses: comprehension_clause_list_view(clauses@) },
        ExprKind::Named { name, value } => ExprKindView::Named { name: name@, value: Box::new(expr_view(*value)) },
        ExprKind::IfExpr { cond, then_branch, else_branch } => ExprKindView::IfExpr { cond: Box::new(expr_view(*cond)), then_branch: Box::new(expr_view(*then_branch)), else_branch: Box::new(expr_view(*else_branch)) },
    }
}

impl View for ExprKind {
    type V = ExprKindView;

    open spec fn view(&self) -> ExprKindView {
        expr_kind_view(*self)
    }
}

pub fn clone_expr_kind(x: &ExprKind) -> (r: ExprKind)
    ensures
        expr_kind_view(r) == expr_kind_view(*x),
    decreases x,
{
    let r = match x {
        ExprKind::Int(a0) => ExprKind::Int(*a0),
        ExprKind::Float(a0) => ExprKind::Float(*a0),
        ExprKind::Bool(a0) => ExprKind::Bool(*a0),
        ExprKind::Str(a0) => ExprKind::Str(a0.clone()),
        ExprKind::NoneLit => ExprKind::NoneLit,
        ExprKind::Uninitialized => ExprKind::Uninitialized,
        ExprKind::Identifier(a0) => ExprKind::Identifier(a0.clone()),
        ExprKind::TypeValue(a0) => ExprKind::TypeValue(clone_type(a0)),
        ExprKind::TString { parts, raw } => ExprKind::TString { parts: clone_t_string_part_list(parts), raw: *raw },
        ExprKind::TypeApply { name, args } => ExprKind::TypeApply { name: name.clone(), args: clone_param_arg_list(args) },
        ExprKind::Prefix(a0, a1) => ExprKind::Prefix(*a0, Box::new(clone_expr((&**a1)))),
        ExprKind::Transfer(a0) => ExprKind::Transfer(Box::new(clone_expr((&**a0)))),
        ExprKind::Spread(a0) => ExprKind::Spread(Box::new(clone_expr((&**a0)))),
        ExprKind::Infix(a0, a1, a2) => ExprKind::Infix(*a0, Box::new(clone_expr((&**a1))), Box::new(clone_expr((&**a2)))),
        ExprKind::Compare { first, rest } => ExprKind::Compare { first: Box::new(clone_expr((&**first))), rest: clone_comparison_list(rest) },
        ExprKind::Call { name, param_args, args, kwargs } => ExprKind::Call { name: name.clone(), param_args: clone_param_arg_list(param_args), args: clone_expr_list(args), kwargs: clone_kw_arg_list(kwargs) },
        ExprKind::Invoke { callee, param_args, args, kwargs } => ExprKind::Invoke { callee: Box::new(clone_expr((&**callee))), param_args: clone_param_arg_list(param_args), args: clone_expr_list(args), kwargs: clone_kw_arg_list(kwargs) },
        ExprKind::Member { object, field } => ExprKind::Member { object: Box::new(clone_expr((&**object))), field: field.clone() },
        ExprKind::MethodCall { object, method, args, kwargs } => ExprKind::MethodCall { object: Box::new(clone_expr((&**object))), method: method.clone(), args: clone_expr_list(args), kwargs: clone_kw_arg_list(kwargs) },
        ExprKind::Index { object, index } => ExprKind::Index { object: Box::new(clone_expr((&**object))), index: Box::new(clone_expr((&**index))) },
        ExprKind::Slice { object, lower, upper, step } => ExprKind::Slice { object: Box::new(clone_expr((&**object))), lower: (match lower { Some(y) => Some(Box::new(clone_expr((&**y)))), None => None }), upper: (match upper { Some(y) => Some(Box::new(clone_expr((&**y)))), None => None }), step: (match step { Some(y) => Some(Box::new(clone_expr((&**y)))), None => None }) },
        ExprKind::MultiIndex { object, args } => ExprKind::MultiIndex { object: Box::new(clone_expr((&**object))), args: clone_subscript_arg_list(args) },
        ExprKind::ListLit(a0) => ExprKind::ListLit(clone_expr_list(a0)),
        ExprKind::TupleLit(a0) => ExprKind::TupleLit(clone_expr_list(a0)),
        ExprKind::BraceLit(a0) => ExprKind::BraceLit(clone_entry_list(a0)),
        ExprKind::Comprehension { kind, key, value, clauses } => ExprKind::Comprehension { kind: *kind, key: (match key { Some(y) => Some(Box::new(clone_expr((&**y)))), None => None }), value: Box::new(clone_expr((&**value))), clauses: clone_comprehension_clause_list(clauses) },
        ExprKind::Named { name, value } => ExprKind::Named { name: name.clone(), value: Box::new(clone_expr((&**value))) },
        ExprKind::IfExpr { cond, then_branch, else_branch } => ExprKind::IfExpr { cond: Box::new(clone_expr((&**cond))), then_branch: Box::new(clone_expr((&**then_branch))), else_branch: Box::new(clone_expr((&**else_branch))) },
    };
    proof {
        unfold_expr_kind(*x);
        unfold_expr_kind(r);
    }
    r
}

impl Clone for ExprKind {
    fn clone(&self) -> (r: Self)
        ensures
            r@ == self@,
    {
        clone_expr_kind(self)
    }
}

pub open spec fn kw_arg_view(x: KwArg) -> KwArgView
    decreases x,
{
    KwArgView {
        name: x.name@,
        value: expr_view(x.value),
    }
}

impl View for KwArg {
    type V = KwArgView;

    open spec fn view(&self) -> KwArgView {
        kw_arg_view(*self)
    }
}

pub fn clone_kw_arg(x: &KwArg) -> (r: KwArg)
    ensures
        kw_arg_view(r) == kw_arg_view(*x),
    decreases x,
{
    KwArg {
        name: (&x.name).clone(),
        value: clone_expr((&x.value)),
    }
}

impl Clone for KwArg {
    fn clone(&self) -> (r: Self)
        ensures
            r@ == self@,
    {
        clone_kw_arg(self)
    }
}

pub open spec fn subscript_arg_view(x: SubscriptArg) -> SubscriptArgView
    decreases x,
{
    match x {
        SubscriptArg::Index(a0) => SubscriptArgView::Index(expr_view(a0)),
        SubscriptArg::Slice { lower, upper, step } => SubscriptArgView::Slice { lower: (match lower { Some(y) => Some(Box::new(expr_view(*y))), None => None }), upper: (match upper { Some(y) => Some(Box::new(expr_view(*y))), None => None }), step: (match step { Some(y) => Some(Box::new(expr_view(*y))), None => None }) },
    }
}

impl View for SubscriptArg {
    type V = SubscriptArgView;

    open spec fn view(&self) -> SubscriptArgView {
        subscript_arg_view(*self)
    }
}

pub fn clone_subscript_arg(x: &SubscriptArg) -> (r: SubscriptArg)
    ensures
        subscript_arg_view(r) == subscript_arg_view(*x),
    decreases x,
{
    match x {
        SubscriptArg::Index(a0) => SubscriptArg::Index(clone_expr(a0)),
        SubscriptArg::Slice { lower, upper, step } => SubscriptArg::Slice { lower: (match lower { Some(y) => Some(Box::new(clone_expr((&**y)))), None => None }), upper: (match upper { Some(y) => Some(Box::new(clone_expr((&**y)))), None => None }), step: (match step { Some(y) => Some(Box::new(clone_expr((&**y)))), None => None }) },
    }
}

impl Clone for SubscriptArg {
    fn clone(&self) -> (r: Self)
        ensures
            r@ == self@,
    {
        clone_subscript_arg(self)
    }
}

pub open spec fn comprehension_clause_view(x: ComprehensionClause) -> ComprehensionClauseView
    decreases x,
{
    match x {
        ComprehensionClause::For { var, owned, iter } => ComprehensionClauseView::For { var: var@, owned, iter: Box::new(expr_view(*iter)) },
        ComprehensionClause::If(a0) => ComprehensionClauseView::If(Box::new(expr_view(*a0))),
    }
}

impl View for ComprehensionClause {
    type V = ComprehensionClauseView;

    open spec fn view(&self) -> ComprehensionClauseView {
        comprehension_clause_view(*self)
    }
}

pub fn clone_comprehension_clause(x: &ComprehensionClause) -> (r: ComprehensionClause)
    ensures
        comprehension_clause_view(r) == comprehension_clause_view(*x),
    decreases x,
{
    match x {
        ComprehensionClause::For { var, owned, iter } => ComprehensionClause::For { var: var.clone(), owned: *owned, iter: Box::new(clone_expr((&**iter))) },
        ComprehensionClause::If(a0) => ComprehensionClause::If(Box::new(clone_expr((&**a0)))),
    }
}

impl Clone for ComprehensionClause {
    fn clone(&self) -> (r: Self)
        ensures
            r@ == self@,
    {
        clone_comprehension_clause(self)
    }
}

pub open spec fn t_string_part_view(x: TStringPart) -> TStringPartView
    decreases x,
{
    match x {
        TStringPart::Literal(a0) => TStringPartView::Literal(a0@),
        TStringPart::Expr(a0) => TStringPartView::Expr(Box::new(expr_view(*a0))),
    }
}

impl View for TStringPart {
    type V = TStringPartView;

    open spec fn view(&self) -> TStringPartView {
        t_string_part_view(*self)
    }
}

pub fn clone_t_string_part(x: &TStringPart) -> (r: TStringPart)
    ensures
        t_string_part_view(r) == t_string_part_view(*x),
    decreases x,
{
    match x {
        TStringPart::Literal(a0) => TStringPart::Literal(a0.clone()),
        TStringPart::Expr(a0) => TStringPart::Expr(Box::new(clone_expr((&**a0)))),
    }
}

impl Clone for TStringPart {
    fn clone(&self) -> (r: Self)
        ensures
            r@ == self@,
    {
        clone_t_string_part(self)
    }
}

pub open spec fn param_arg_view(x: ParamArg) -> ParamArgView
    decreases x,
{
    match x {
        ParamArg::Type(a0) => ParamArgView::Type(type_view(a0)),
        ParamArg::Value(a0) => ParamArgView::Value(expr_view(a0)),
        ParamArg::Named { name, value } => ParamArgView::Named { name: name@, value: Box::new(param_arg_view(*value)) },
    }
}

impl View for ParamArg {
    type V = ParamArgView;

    open spec fn view(&self) -> ParamArgView {
        param_arg_view(*self)
    }
}

pub fn clone_param_arg(x: &ParamArg) -> (r: ParamArg)
    ensures
        param_arg_view(r) == param_arg_view(*x),
    decreases x,
{
    match x {
        ParamArg::Type(a0) => ParamArg::Type(clone_type(a0)),
        ParamArg::Value(a0) => ParamArg::Value(clone_expr(a0)),
        ParamArg::Named { name, value } => ParamArg::Named { name: name.clone(), value: Box::new(clone_param_arg((&**value))) },
    }
}

impl Clone for ParamArg {
    fn clone(&self) -> (r: Self)
        ensures
            r@ == self@,
    {
        clone_param_arg(self)
    }
}

pub open spec fn type_view(x: Type) -> TypeView
    decreases x,
{
    match x {
        Type::Int => TypeView::Int,
        Type::UInt => TypeView::UInt,
        Type::Bool => TypeView::Bool,
        Type::String => TypeView::String,
        Type::Float64 => TypeView::Float64,
        Type::NoneTy => TypeView::NoneTy,
        Type::SelfType => TypeView::SelfType,
        Type::SelfParam(a0) => TypeView::SelfParam(a0@),
        Type::Named(a0, a1) => TypeView::Named(a0@, param_arg_list_view(a1@)),
        Type::Assoc { base, name } => TypeView::Assoc { base: Box::new(type_view(*base)), name: name@ },
        Type::Func { params, ret, thin, raises, raises_type } => TypeView::Func { params: type_list_view(params@), ret: Box::new(type_view(*ret)), thin, raises, raises_type: (match raises_type { Some(y) => Some(Box::new(type_view(*y))), None => None }) },
        Type::Ref { referent, origin } => TypeView::Ref { referent: Box::new(type_view(*referent)), origin: (match origin { Some(y) => Some(Box::new(expr_view(*y))), None => None }) },
    }
}

impl View for Type {
    type V = TypeView;

    open spec fn view(&self) -> TypeView {
        type_view(*self)
    }
}

pub fn clone_type(x: &Type) -> (r: Type)
    ensures
        type_view(r) == type_view(*x),
    decreases x,
{
    let r = match x {
        Type::Int => Type::Int,
        Type::UInt => Type::UInt,
        Type::Bool => Type::Bool,
        Type::String => Type::String,
        Type::Float64 => Type::Float64,
        Type::NoneTy => Type::NoneTy,
        Type::SelfType => Type::SelfType,
        Type::SelfParam(a0) => Type::SelfParam(a0.clone()),
        Type::Named(a0, a1) => Type::Named(a0.clone(), clone_param_arg_list(a1)),
        Type::Assoc { base, name } => Type::Assoc { base: Box::new(clone_type((&**base))), name: name.clone() },
        Type::Func { params, ret, thin, raises, raises_type } => Type::Func { params: clone_type_list(params), ret: Box::new(clone_type((&**ret))), thin: *thin, raises: *raises, raises_type: (match raises_type { Some(y) => Some(Box::new(clone_type((&**y)))), None => None }) },
        Type::Ref { referent, origin } => Type::Ref { referent: Box::new(clone_type((&**referent))), origin: (match origin { Some(y) => Some(Box::new(clone_expr((&**y)))), None => None }) },
    };
    proof {
        unfold_type(*x);
        unfold_type(r);
    }
    r
}

impl Clone for Type {
    fn clone(&self) -> (r: Self)
        ensures
            r@ == self@,
    {
        clone_type(self)
    }
}

pub open spec fn type_param_view(x: TypeParam) -> TypeParamView
    decreases x,
{
    TypeParamView {
        name: x.name@,
        bounds: string_list_view(x.bounds@),
        value_type: (match x.value_type { Some(y) => Some(type_view(y)), None => None }),
        default: (match x.default { Some(y) => Some(expr_view(y)), None => None }),
        infer_only: x.infer_only,
    }
}

impl View for TypeParam {
    type V = TypeParamView;

    open spec fn view(&self) -> TypeParamView {
        type_param_view(*self)
    }
}

pub fn clone_type_param(x: &TypeParam) -> (r: TypeParam)
    ensures
        type_param_view(r) == type_param_view(*x),
    decreases x,
{
    let r = TypeParam {
        name: (&x.name).clone(),
        bounds: clone_string_list((&x.bounds)),
        value_type: (match (&x.value_type) { Some(y) => Some(clone_type(y)), None => None }),
        default: (match (&x.default) { Some(y) => Some(clone_expr(y)), None => None }),
        infer_only: x.infer_only,
    };
    proof {
        unfold_type_param(*x);
        unfold_type_param(r);
    }
    r
}

impl Clone for TypeParam {
    fn clone(&self) -> (r: Self)
        ensures
            r@ == self@,
    {
        clone_type_param(self)
    }
}

pub open spec fn fn_param_view(x: FnParam) -> FnParamView
    decreases x,
{
    FnParamView {
        name: x.name@,
        ty: type_view(x.ty),
        default: (match x.default { Some(y) => Some(expr_view(y)), None => None }),
        convention: x.convention,
        kind: x.kind,
    }
}

impl View for FnParam {
    type V = FnParamView;

    open spec fn view(&self) -> FnParamView {
        fn_param_view(*self)
    }
}

pub fn clone_fn_param(x: &FnParam) -> (r: FnParam)
    ensures
        fn_param_view(r) == fn_param_view(*x),
    decreases x,
{
    FnParam {
        name: (&x.name).clone(),
        ty: clone_type((&x.ty)),
        default: (match (&x.default) { Some(y) => Some(clone_expr(y)), None => None }),
        convention: x.convention,
        kind: x.kind,
    }
}

impl Clone for FnParam {
    fn clone(&self) -> (r: Self)
        ensures
            r@ == self@,
    {
        clone_fn_param(self)
    }
}

pub open spec fn param_view(x: Param) -> ParamView
    decreases x,
{
    ParamView {
        name: x.name@,
        ty: type_view(x.ty),
    }
}

impl View for Param {
    type V = ParamView;

    open spec fn view(&self) -> ParamView {
        param_view(*self)
    }
}

pub fn clone_param(x: &Param) -> (r: Param)
    ensures
        param_view(r) == param_view(*x),
    decreases x,
{
    Param {
        name: (&x.name).clone(),
        ty: clone_type((&x.ty)),
    }
}

impl Clone for Param {
    fn clone(&self) -> (r: Self)
        ensures
            r@ == self@,
    {
        clone_param(self)
    }
}

pub open spec fn struct_comptime_view(x: StructComptime) -> StructComptimeView
    decreases x,
{
    StructComptimeView {
        name: x.name@,
        value: expr_view(x.value),
    }
}

impl View for StructComptime {
    type V = StructComptimeView;

    open spec fn view(&self) -> StructComptimeView {
        struct_comptime_view(*self)
    }
}

pub fn clone_struct_comptime(x: &StructComptime) -> (r: StructComptime)
    ensures
        struct_comptime_view(r) == struct_comptime_view(*x),
    decreases x,
{
    StructComptime {
        name: (&x.name).clone(),
        value: clone_expr((&x.value)),
    }
}

impl Clone for StructComptime {
    fn clone(&self) -> (r: Self)
        ensures
            r@ == self@,
    {
        clone_struct_comptime(self)
    }
}

pub open spec fn method_view(x: Method) -> MethodView
    decreases x,
{
    MethodView {
        name: x.name@,
        has_self: x.has_self,
        self_convention: x.self_convention,
        params: fn_param_list_view(x.params@),
        positional_only: x.positional_only,
        keyword_only: x.keyword_only,
        raises_type: (match x.raises_type { Some(y) => Some(type_view(y)), None => None }),
        ret: (match x.ret { Some(y) => Some(type_view(y)), None => None }),
        body: stmt_list_view(x.body@),
    }
}

impl View for Method {
    type V = MethodView;

    open spec fn view(&self) -> MethodView {
        method_view(*self)
    }
}

pub fn clone_method(x: &Method) -> (r: Method)
    ensures
        method_view(r) == method_view(*x),
    decreases x,
{
    let r = Method {
        name: (&x.name).clone(),
        has_self: x.has_self,
        self_convention: x.self_convention,
        params: clone_fn_param_list((&x.params)),
        positional_only: x.positional_only,
        keyword_only: x.keyword_only,
        raises_type: (match (&x.raises_type) { Some(y) => Some(clone_type(y)), None => None }),
        ret: (match (&x.ret) { Some(y) => Some(clone_type(y)), None => None }),
        body: clone_stmt_list((&x.body)),
    };
    proof {
        unfold_method(*x);
        unfold_method(r);
    }
    r
}

impl Clone for Method {
    fn clone(&self) -> (r: Self)
        ensures
            r@ == self@,
    {
        clone_method(self)
    }
}

pub open spec fn import_name_view(x: ImportName) -> ImportNameView
    decreases x,
{
    ImportNameView {
        name: x.name@,
        alias: (match x.alias { Some(y) => Some(y@), None => None }),
    }
}

impl View for ImportName {
    type V = ImportNameView;

    open spec fn view(&self) -> ImportNameView {
        import_name_view(*self)
    }
}

pub fn clone_import_name(x: &ImportName) -> (r: ImportName)
    ensures
        import_name_view(r) == import_name_view(*x),
    decreases x,
{
    ImportName {
        name: (&x.name).clone(),
        alias: (match (&x.alias) { Some(y) => Some(y.clone()), None => None }),
    }
}

impl Clone for ImportName {
    fn clone(&self) -> (r: Self)
        ensures
            r@ == self@,
    {
        clone_import_name(self)
    }
}

pub open spec fn import_names_view(x: ImportNames) -> ImportNamesView
    decreases x,
{
    match x {
        ImportNames::Names(a0) => ImportNamesView::Names(import_name_list_view(a0@)),
        ImportNames::Wildcard => ImportNamesView::Wildcard,
    }
}

impl View for ImportNames {
    type V = ImportNamesView;

    open spec fn view(&self) -> ImportNamesView {
        import_names_view(*self)
    }
}

pub fn clone_import_names(x: &ImportNames) -> (r: ImportNames)
    ensures
        import_names_view(r) == import_names_view(*x),
    decreases x,
{
    let r = match x {
        ImportNames::Names(a0) => ImportNames::Names(clone_import_name_list(a0)),
        ImportNames::Wildcard => ImportNames::Wildcard,
    };
    proof {
        unfold_import_names(*x);
        unfold_import_names(r);
    }
    r
}

impl Clone for ImportNames {
    fn clone(&self) -> (r: Self)
        ensures
            r@ == self@,
    {
        clone_import_names(self)
    }
}

pub open spec fn with_item_view(x: WithItem) -> WithItemView
    decreases x,
{
    WithItemView {
        context: expr_view(x.context),
        var: (match x.var { Some(y) => Some(y@), None => None }),
    }
}

impl View for WithItem {
    type V = WithItemView;

    open spec fn view(&self) -> WithItemView {
        with_item_view(*self)
    }
}

pub fn clone_with_item(x: &WithItem) -> (r: WithItem)
    ensures
        with_item_view(r) == with_item_view(*x),
    decreases x,
{
    WithItem {
        context: clone_expr((&x.context)),
        var: (match (&x.var) { Some(y) => Some(y.clone()), None => None }),
    }
}

impl Clone for WithItem {
    fn clone(&self) -> (r: Self)
        ensures
            r@ == self@,
    {
        clone_with_item(self)
    }
}

pub open spec fn capture_view(x: Capture) -> CaptureView
    decreases x,
{
    CaptureView {
        name: x.name@,
        kind: x.kind,
    }
}

impl View for Capture {
    type V = CaptureView;

    open spec fn view(&self) -> CaptureView {
        capture_view(*self)
    }
}

pub fn clone_capture(x: &Capture) -> (r: Capture)
    ensures
        capture_view(r) == capture_view(*x),
    decreases x,
{
    Capture {
        name: (&x.name).clone(),
        kind: x.kind,
    }
}

impl Clone for Capture {
    fn clone(&self) -> (r: Self)
        ensures
            r@ == self@,
    {
        clone_capture(self)
    }
}

pub open spec fn stmt_view(x: Stmt) -> StmtView
    decreases x,
{
    StmtView {
        kind: stmt_kind_view(x.kind),
        span: x.span,
        module: (match x.module { Some(y) => Some(y@), None => None }),
    }
}

impl View for Stmt {
    type V = StmtView;

    open spec fn view(&self) -> StmtView {
        stmt_view(*self)
    }
}

pub fn clone_stmt(x: &Stmt) -> (r: Stmt)
    ensures
        stmt_view(r) == stmt_view(*x),
    decreases x,
{
    Stmt {
        kind: clone_stmt_kind((&x.kind)),
        span: x.span,
        module: (match (&x.module) { Some(y) => Some(y.clone()), None => None }),
    }
}

impl Clone for Stmt {
    fn clone(&self) -> (r: Self)
        ensures
            r@ == self@,
    {
        clone_stmt(self)
    }
}

pub open spec fn stmt_kind_view(x: StmtKind) -> StmtKindView
    decreases x,
{
    match x {
        StmtKind::VarDecl { name, ty, value } => StmtKindView::VarDecl { name: name@, ty: (match ty { Some(y) => Some(type_view(y)), None => None }), value: expr_view(value) },
        StmtKind::RefDecl { name, value } => StmtKindView::RefDecl { name: name@, value: expr_view(value) },
        StmtKind::Assign { name, value } => StmtKindView::Assign { name: name@, value: expr_view(value) },
        StmtKind::Comptime { name, value } => StmtKindView::Comptime { name: name@, value: expr_view(value) },
        StmtKind::Raise(a0) => StmtKindView::Raise(expr_view(a0)),
        StmtKind::Return(a0) => StmtKindView::Return((match a0 { Some(y) => Some(expr_view(y)), None => None })),
        StmtKind::Pass => StmtKindView::Pass,
        StmtKind::Break => StmtKindView::Break,
        StmtKind::Continue => StmtKindView::Continue,
        StmtKind::Import { path } => StmtKindView::Import { path: string_list_view(path@) },
        StmtKind::FromImport { level, path, names } => StmtKindView::FromImport { level, path: string_list_view(path@), names: import_names_view(names) },
        StmtKind::SetPlace { place, value } => StmtKindView::SetPlace { place: expr_view(place), value: expr_view(value) },
        StmtKind::AugAssign { place, op, value } => StmtKindView::AugAssign { place: expr_view(place), op, value: expr_view(value) },
        StmtKind::Unpack { targets, value } => StmtKindView::Unpack { targets: expr_list_view(targets@), value: expr_view(value) },
        StmtKind::Expr(a0) => StmtKindView::Expr(expr_view(a0)),
        StmtKind::If { branches, orelse } => StmtKindView::If { branches: branch_list_view(branches@), orelse: (match orelse { Some(y) => Some(stmt_list_view(y@)), None => None }) },
        StmtKind::ComptimeIf { branches, orelse } => StmtKindView::ComptimeIf { branches: branch_list_view(branches@), orelse: (match orelse { Some(y) => Some(stmt_list_view(y@)), None => None }) },
        StmtKind::While { cond, body, orelse } => StmtKindView::While { cond: expr_view(cond), body: stmt_list_view(body@), orelse: (match orelse { Some(y) => Some(stmt_list_view(y@)), None => None }) },
        StmtKind::For { var, reference, owned, iter, body, orelse } => StmtKindView::For { var: var@, reference, owned, iter: expr_view(iter), body: stmt_list_view(body@), orelse: (match orelse { Some(y) => Some(stmt_list_view(y@)), None => None }) },
        StmtKind::ComptimeFor { var, iter, body } => StmtKindView::ComptimeFor { var: var@, iter: expr_view(iter), body: stmt_list_view(body@) },
        StmtKind::Try { body, except, orelse, finalbody } => StmtKindView::Try { body: stmt_list_view(body@), except: (match except { Some(y) => Some(((match y.0 { Some(y) => Some(y@), None => None }), stmt_list_view(y.1@))), None => None }), orelse: (match orelse { Some(y) => Some(stmt_list_view(y@)), None => None }), finalbody: (match finalbody { Some(y) => Some(stmt_list_view(y@)), None => None }) },
        StmtKind::With { items, body } => StmtKindView::With { items: with_item_list_view(items@), body: stmt_list_view(body@) },
        StmtKind::Def { name, decorators, type_params, params, positional_only, keyword_only, captures, raises, raises_type, ret, where_clause, body } => StmtKindView::Def { name: name@, decorators: string_list_view(decorators@), type_params: type_param_list_view(type_params@), params: fn_param_list_view(params@), positional_only, keyword_only, captures: (match captures { Some(y) => Some(capture_list_view(y@)), None => None }), raises, raises_type: (match raises_type { Some(y) => Some(type_view(y)), None => None }), ret: (match ret { Some(y) => Some(type_view(y)), None => None }), where_clause: (match where_clause { Some(y) => Some(expr_view(y)), None => None }), body: stmt_list_view(body@) },
        StmtKind::Struct { name, decorators, type_params, conforms, callable_conformance, conformance_conditions, fields, associated, methods, fieldwise_init } => StmtKindView::Struct { name: name@, decorators: string_list_view(decorators@), type_params: type_param_list_view(type_params@), conforms: string_list_view(conforms@), callable_conformance: (match callable_conformance { Some(y) => Some(type_view(y)), None => None }), conformance_conditions: expr_list_view(conformance_conditions@), fields: param_list_view(fields@), associated: struct_comptime_list_view(associated@), methods: method_list_view(methods@), fieldwise_init },
        StmtKind::Trait { name } => StmtKindView::Trait { name: name@ },
    }
}

impl View for StmtKind {
    type V = StmtKindView;

    open spec fn view(&self) -> StmtKindView {
        stmt_kind_view(*self)
    }
}

pub fn clone_stmt_kind(x: &StmtKind) -> (r: StmtKind)
    ensures
        stmt_kind_view(r) == stmt_kind_view(*x),
    decreases x,
{
    let r = match x {
        StmtKind::VarDecl { name, ty, value } => StmtKind::VarDecl { name: name.clone(), ty: (match ty { Some(y) => Some(clone_type(y)), None => None }), value: clone_expr(value) },
        StmtKind::RefDecl { name, value } => StmtKind::RefDecl { name: name.clone(), value: clone_expr(value) },
        StmtKind::Assign { name, value } => StmtKind::Assign { name: name.clone(), value: clone_expr(value) },
        StmtKind::Comptime { name, value } => StmtKind::Comptime { name: name.clone(), value: clone_expr(value) },
        StmtKind::Raise(a0) => StmtKind::Raise(clone_expr(a0)),
        StmtKind::Return(a0) => StmtKind::Return((match a0 { Some(y) => Some(clone_expr(y)), None => None })),
        StmtKind::Pass => StmtKind::Pass,
        StmtKind::Break => StmtKind::Break,
        StmtKind::Continue => StmtKind::Continue,
        StmtKind::Import { path } => StmtKind::Import { path: clone_string_list(path) },
        StmtKind::FromImport { level, path, names } => StmtKind::FromImport { level: *level, path: clone_string_list(path), names: clone_import_names(names) },
        StmtKind::SetPlace { place, value } => StmtKind::SetPlace { place: clone_expr(place), value: clone_expr(value) },
        StmtKind::AugAssign { place, op, value } => StmtKind::AugAssign { place: clone_expr(place), op: *op, value: clone_expr(value) },
        StmtKind::Unpack { targets, value } => StmtKind::Unpack { targets: clone_expr_list(targets), value: clone_expr(value) },
        StmtKind::Expr(a0) => StmtKind::Expr(clone_expr(a0)),
        StmtKind::If { branches, orelse } => StmtKind::If { branches: clone_branch_list(branches), orelse: (match orelse { Some(y) => Some(clone_stmt_list(y)), None => None }) },
        StmtKind::ComptimeIf { branches, orelse } => StmtKind::ComptimeIf { branches: clone_branch_list(branches), orelse: (match orelse { Some(y) => Some(clone_stmt_list(y)), None => None }) },
        StmtKind::While { cond, body, orelse } => StmtKind::While { cond: clone_expr(cond), body: clone_stmt_list(body), orelse: (match orelse { Some(y) => Some(clone_stmt_list(y)), None => None }) },
        StmtKind::For { var, reference, owned, iter, body, orelse } => StmtKind::For { var: var.clone(), reference: *reference, owned: *owned, iter: clone_expr(iter), body: clone_stmt_list(body), orelse: (match orelse { Some(y) => Some(clone_stmt_list(y)), None => None }) },
        StmtKind::ComptimeFor { var, iter, body } => StmtKind::ComptimeFor { var: var.clone(), iter: clone_expr(iter), body: clone_stmt_list(body) },
        StmtKind::Try { body, except, orelse, finalbody } => StmtKind::Try { body: clone_stmt_list(body), except: (match except { Some(y) => Some(((match (&y.0) { Some(y) => Some(y.clone()), None => None }), clone_stmt_list((&y.1)))), None => None }), orelse: (match orelse { Some(y) => Some(clone_stmt_list(y)), None => None }), finalbody: (match finalbody { Some(y) => Some(clone_stmt_list(y)), None => None }) },
        StmtKind::With { items, body } => StmtKind::With { items: clone_with_item_list(items), body: clone_stmt_list(body) },
        StmtKind::Def { name, decorators, type_params, params, positional_only, keyword_only, captures, raises, raises_type, ret, where_clause, body } => StmtKind::Def { name: name.clone(), decorators: clone_string_list(decorators), type_params: clone_type_param_list(type_params), params: clone_fn_param_list(params), positional_only: *positional_only, keyword_only: *keyword_only, captures: (match captures { Some(y) => Some(clone_capture_list(y)), None => None }), raises: *raises, raises_type: (match raises_type { Some(y) => Some(clone_type(y)), None => None }), ret: (match ret { Some(y) => Some(clone_type(y)), None => None }), where_clause: (match where_clause { Some(y) => Some(clone_expr(y)), None => None }), body: clone_stmt_list(body) },
        StmtKind::Struct { name, decorators, type_params, conforms, callable_conformance, conformance_conditions, fields, associated, methods, fieldwise_init } => StmtKind::Struct { name: name.clone(), decorators: clone_string_list(decorators), type_params: clone_type_param_list(type_params), conforms: clone_string_list(conforms), callable_conformance: (match callable_conformance { Some(y) => Some(clone_type(y)), None => None }), conformance_conditions: clone_expr_list(conformance_conditions), fields: clone_param_list(fields), associated: clone_struct_comptime_list(associated), methods: clone_method_list(methods), fieldwise_init: *fieldwise_init },
        StmtKind::Trait { name } => StmtKind::Trait { name: name.clone() },
    };
    proof {
        unfold_stmt_kind(*x);
        unfold_stmt_kind(r);
    }
    r
}

impl Clone for StmtKind {
    fn clone(&self) -> (r: Self)
        ensures
            r@ == self@,
    {
        clone_stmt_kind(self)
    }
}

pub open spec fn expr_list_view(s: Seq<Expr>) -> Seq<ExprView>
    decreases s,
{
    Seq::new(s.len(), |i: int| if 0 <= i < s.len() { expr_view(s[i]) } else { arbitrary() })
}

pub fn clone_expr_list(v: &Vec<Expr>) -> (r: Vec<Expr>)
    ensures
        expr_list_view(r@) == expr_list_view(v@),
        r@.len() == v@.len(),
    decreases v@,
{
    let mut r: Vec<Expr> = Vec::new();
    for i in 0..v.len()
        invariant
            r@.len() == i,
            forall|j: int| 0 <= j < i ==> expr_view((#[trigger] r@[j])) == expr_view(v@[j]),
    {
        r.push(clone_expr((&v[i])));
    }
    assert(expr_list_view(r@) =~= expr_list_view(v@));
    r
}

pub open spec fn kw_arg_list_view(s: Seq<KwArg>) -> Seq<KwArgView>
    decreases s,
{
    Seq::new(s.len(), |i: int| if 0 <= i < s.len() { kw_arg_view(s[i]) } else { arbitrary() })
}

pub fn clone_kw_arg_list(v: &Vec<KwArg>) -> (r: Vec<KwArg>)
    ensures
        kw_arg_list_view(r@) == kw_arg_list_view(v@),
        r@.len() == v@.len(),
    decreases v@,
{
    let mut r: Vec<KwArg> = Vec::new();
    for i in 0..v.len()
        invariant
            r@.len() == i,
            forall|j: int| 0 <= j < i ==> kw_arg_view((#[trigger] r@[j])) == kw_arg_view(v@[j]),
    {
        r.push(clone_kw_arg((&v[i])));
    }
    assert(kw_arg_list_view(r@) =~= kw_arg_list_view(v@));
    r
}

pub open spec fn subscript_arg_list_view(s: Seq<SubscriptArg>) -> Seq<SubscriptArgView>
    decreases s,
{
    Seq::new(s.len(), |i: int| if 0 <= i < s.len() { subscript_arg_view(s[i]) } else { arbitrary() })
}

pub fn clone_subscript_arg_list(v: &Vec<SubscriptArg>) -> (r: Vec<SubscriptArg>)
    ensures
        subscript_arg_list_view(r@) == subscript_arg_list_view(v@),
        r@.len() == v@.len(),
    decreases v@,
{
    let mut r: Vec<SubscriptArg> = Vec::new();
    for i in 0..v.len()
        invariant
            r@.len() == i,
            forall|j: int| 0 <= j < i ==> subscript_arg_view((#[trigger] r@[j])) == subscript_arg_view(v@[j]),
    {
        r.push(clone_subscript_arg((&v[i])));
    }
    assert(subscript_arg_list_view(r@) =~= subscript_arg_list_view(v@));
    r
}

pub open spec fn comprehension_clause_list_view(s: Seq<ComprehensionClause>) -> Seq<ComprehensionClauseView>
    decreases s,
{
    Seq::new(s.len(), |i: int| if 0 <= i < s.len() { comprehension_clause_view(s[i]) } else { arbitrary() })
}

pub fn clone_comprehension_clause_list(v: &Vec<ComprehensionClause>) -> (r: Vec<ComprehensionClause>)
    ensures
        comprehension_clause_list_view(r@) == comprehension_clause_list_view(v@),
        r@.len() == v@.len(),
    decreases v@,
{
    let mut r: Vec<ComprehensionClause> = Vec::new();
    for i in 0..v.len()
        invariant
            r@.len() == i,
            forall|j: int| 0 <= j < i ==> comprehension_clause_view((#[trigger] r@[j])) == comprehension_clause_view(v@[j]),
    {
        r.push(clone_comprehension_clause((&v[i])));
    }
    assert(comprehension_clause_list_view(r@) =~= comprehension_clause_list_view(v@));
    r
}

pub open spec fn t_string_part_list_view(s: Seq<TStringPart>) -> Seq<TStringPartView>
    decreases s,
{
    Seq::new(s.len(), |i: int| if 0 <= i < s.len() { t_string_part_view(s[i]) } else { arbitrary() })
}

pub fn clone_t_string_part_list(v: &Vec<TStringPart>) -> (r: Vec<TStringPart>)
    ensures
        t_string_part_list_view(r@) == t_string_part_list_view(v@),
        r@.len() == v@.len(),
    decreases v@,
{
    let mut r: Vec<TStringPart> = Vec::new();
    for i in 0..v.len()
        invariant
            r@.len() == i,
            forall|j: int| 0 <= j < i ==> t_string_part_view((#[trigger] r@[j])) == t_string_part_view(v@[j]),
    {
        r.push(clone_t_string_part((&v[i])));
    }
    assert(t_string_part_list_view(r@) =~= t_string_part_list_view(v@));
    r
}

pub open spec fn param_arg_list_view(s: Seq<ParamArg>) -> Seq<ParamArgView>
    decreases s,
{
    Seq::new(s.len(), |i: int| if 0 <= i < s.len() { param_arg_view(s[i]) } else { arbitrary() })
}

pub fn clone_param_arg_list(v: &Vec<ParamArg>) -> (r: Vec<ParamArg>)
    ensures
        param_arg_list_view(r@) == param_arg_list_view(v@),
        r@.len() == v@.len(),
    decreases v@,
{
    let mut r: Vec<ParamArg> = Vec::new();
    for i in 0..v.len()
        invariant
            r@.len() == i,
            forall|j: int| 0 <= j < i ==> param_arg_view((#[trigger] r@[j])) == param_arg_view(v@[j]),
    {
        r.push(clone_param_arg((&v[i])));
    }
    assert(param_arg_list_view(r@) =~= param_arg_list_view(v@));
    r
}

pub open spec fn type_list_view(s: Seq<Type>) -> Seq<TypeView>
    decreases s,
{
    Seq::new(s.len(), |i: int| if 0 <= i < s.len() { type_view(s[i]) } else { arbitrary() })
}

pub fn clone_type_list(v: &Vec<Type>) -> (r: Vec<Type>)
    ensures
        type_list_view(r@) == type_list_view(v@),
        r@.len() == v@.len(),
    decreases v@,
{
    let mut r: Vec<Type> = Vec::new();
    for i in 0..v.len()
        invariant
            r@.len() == i,
            forall|j: int| 0 <= j < i ==> type_view((#[trigger] r@[j])) == type_view(v@[j]),
    {
        r.push(clone_type((&v[i])));
    }
    assert(type_list_view(r@) =~= type_list_view(v@));
    r
}

pub open spec fn type_param_list_view(s: Seq<TypeParam>) -> Seq<TypeParamView>
    decreases s,
{
    Seq::new(s.len(), |i: int| if 0 <= i < s.len() { type_param_view(s[i]) } else { arbitrary() })
}

pub fn clone_type_param_list(v: &Vec<TypeParam>) -> (r: Vec<TypeParam>)
    ensures
        type_param_list_view(r@) == type_param_list_view(v@),
        r@.len() == v@.len(),
    decreases v@,
{
    let mut r: Vec<TypeParam> = Vec::new();
    for i in 0..v.len()
        invariant
            r@.len() == i,
            forall|j: int| 0 <= j < i ==> type_param_view((#[trigger] r@[j])) == type_param_view(v@[j]),
    {
        r.push(clone_type_param((&v[i])));
    }
    assert(type_param_list_view(r@) =~= type_param_list_view(v@));
    r
}

pub open spec fn fn_param_list_view(s: Seq<FnParam>) -> Seq<FnParamView>
    decreases s,
{
    Seq::new(s.len(), |i: int| if 0 <= i < s.len() { fn_param_view(s[i]) } else { arbitrary() })
}

pub fn clone_fn_param_list(v: &Vec<FnParam>) -> (r: Vec<FnParam>)
    ensures
        fn_param_list_view(r@) == fn_param_list_view(v@),
        r@.len() == v@.len(),
    decreases v@,
{
    let mut r: Vec<FnParam> = Vec::new();
    for i in 0..v.len()
        invariant
            r@.len() == i,
            forall|j: int| 0 <= j < i ==> fn_param_view((#[trigger] r@[j])) == fn_param_view(v@[j]),
    {
        r.push(clone_fn_param((&v[i])));
    }
    assert(fn_param_list_view(r@) =~= fn_param_list_view(v@));
    r
}

pub open spec fn param_list_view(s: Seq<Param>) -> Seq<ParamView>
    decreases s,
{
    Seq::new(s.len(), |i: int| if 0 <= i < s.len() { param_view(s[i]) } else { arbitrary() })
}

pub fn clone_param_list(v: &Vec<Param>) -> (r: Vec<Param>)
    ensures
        param_list_view(r@) == param_list_view(v@),
        r@.len() == v@.len(),
    decreases v@,
{
    let mut r: Vec<Param> = Vec::new();
    for i in 0..v.len()
        invariant
            r@.len() == i,
            forall|j: int| 0 <= j < i ==> param_view((#[trigger] r@[j])) == param_view(v@[j]),
    {
        r.push(clone_param((&v[i])));
    }
    assert(param_list_view(r@) =~= param_list_view(v@));
    r
}

pub open spec fn struct_comptime_list_view(s: Seq<StructComptime>) -> Seq<StructComptimeView>
    decreases s,
{
    Seq::new(s.len(), |i: int| if 0 <= i < s.len() { struct_comptime_view(s[i]) } else { arbitrary() })
}

pub fn clone_struct_comptime_list(v: &Vec<StructComptime>) -> (r: Vec<StructComptime>)
    ensures
        struct_comptime_list_view(r@) == struct_comptime_list_view(v@),
        r@.len() == v@.len(),
    decreases v@,
{
    let mut r: Vec<StructComptime> = Vec::new();
    for i in 0..v.len()
        invariant
            r@.len() == i,
            forall|j: int| 0 <= j < i ==> struct_comptime_view((#[trigger] r@[j])) == struct_comptime_view(v@[j]),
    {
        r.push(clone_struct_comptime((&v[i])));
    }
    assert(struct_comptime_list_view(r@) =~= struct_comptime_list_view(v@));
    r
}

pub open spec fn method_list_view(s: Seq<Method>) -> Seq<MethodView>
    decreases s,
{
    Seq::new(s.len(), |i: int| if 0 <= i < s.len() { method_view(s[i]) } else { arbitrary() })
}

pub fn clone_method_list(v: &Vec<Method>) -> (r: Vec<Method>)
    ensures
        method_list_view(r@) == method_list_view(v@),
        r@.len() == v@.len(),
    decreases v@,
{
    let mut r: Vec<Method> = Vec::new();
    for i in 0..v.len()
        invariant
            r@.len() == i,
            forall|j: int| 0 <= j < i ==> method_view((#[trigger] r@[j])) == method_view(v@[j]),
    {
        r.push(clone_method((&v[i])));
    }
    assert(method_list_view(r@) =~= method_list_view(v@));
    r
}

pub open spec fn import_name_list_view(s: Seq<ImportName>) -> Seq<ImportNameView>
    decreases s,
{
    Seq::new(s.len(), |i: int| if 0 <= i < s.len() { import_name_view(s[i]) } else { arbitrary() })
}

pub fn clone_import_name_list(v: &Vec<ImportName>) -> (r: Vec<ImportName>)
    ensures
        import_name_list_view(r@) == import_name_list_view(v@),
        r@.len() == v@.len(),
    decreases v@,
{
    let mut r: Vec<ImportName> = Vec::new();
    for i in 0..v.len()
        invariant
            r@.len() == i,
            forall|j: int| 0 <= j < i ==> import_name_view((#[trigger] r@[j])) == import_name_view(v@[j]),
    {
        r.push(clone_import_name((&v[i])));
    }
    assert(import_name_list_view(r@) =~= import_name_list_view(v@));
    r
}

pub open spec fn with_item_list_view(s: Seq<WithItem>) -> Seq<WithItemView>
    decreases s,
{
    Seq::new(s.len(), |i: int| if 0 <= i < s.len() { with_item_view(s[i]) } else { arbitrary() })
}

pub fn clone_with_item_list(v: &Vec<WithItem>) -> (r: Vec<WithItem>)
    ensures
        with_item_list_view(r@) == with_item_list_view(v@),
        r@.len() == v@.len(),
    decreases v@,
{
    let mut r: Vec<WithItem> = Vec::new();
    for i in 0..v.len()
        invariant
            r@.len() == i,
            forall|j: int| 0 <= j < i ==> with_item_view((#[trigger] r@[j])) == with_item_view(v@[j]),
    {
        r.push(clone_with_item((&v[i])));
    }
    assert(with_item_list_view(r@) =~= with_item_list_view(v@));
    r
}

pub open spec fn capture_list_view(s: Seq<Capture>) -> Seq<CaptureView>
    decreases s,
{
    Seq::new(s.len(), |i: int| if 0 <= i < s.len() { capture_view(s[i]) } else { arbitrary() })
}

pub fn clone_capture_list(v: &Vec<Capture>) -> (r: Vec<Capture>)
    ensures
        capture_list_view(r@) == capture_list_view(v@),
        r@.len() == v@.len(),
    decreases v@,
{
    let mut r: Vec<Capture> = Vec::new();
    for i in 0..v.len()
        invariant
            r@.len() == i,
            forall|j: int| 0 <= j < i ==> capture_view((#[trigger] r@[j])) == capture_view(v@[j]),
    {
        r.push(clone_capture((&v[i])));
    }
    assert(capture_list_view(r@) =~= capture_list_view(v@));
    r
}

pub open spec fn stmt_list_view(s: Seq<Stmt>) -> Seq<StmtView>
    decreases s,
{
    Seq::new(s.len(), |i: int| if 0 <= i < s.len() { stmt_view(s[i]) } else { arbitrary() })
}

pub fn clone_stmt_list(v: &Vec<Stmt>) -> (r: Vec<Stmt>)
    ensures
        stmt_list_view(r@) == stmt_list_view(v@),
        r@.len() == v@.len(),
    decreases v@,
{
    let mut r: Vec<Stmt> = Vec::new();
    for i in 0..v.len()
        invariant
            r@.len() == i,
            forall|j: int| 0 <= j < i ==> stmt_view((#[trigger] r@[j])) == stmt_view(v@[j]),
    {
        r.push(clone_stmt((&v[i])));
    }
    assert(stmt_list_view(r@) =~= stmt_list_view(v@));
    r
}

pub open spec fn comparison_list_view(s: Seq<(InfixOp, Expr)>) -> Seq<(InfixOp, ExprView)>
    decreases s,
{
    Seq::new(s.len(), |i: int| if 0 <= i < s.len() { (s[i].0, expr_view(s[i].1)) } else { arbitrary() })
}

pub fn clone_comparison_list(v: &Vec<(InfixOp, Expr)>) -> (r: Vec<(InfixOp, Expr)>)
    ensures
        comparison_list_view(r@) == comparison_list_view(v@),
        r@.len() == v@.len(),
    decreases v@,
{
    let mut r: Vec<(InfixOp, Expr)> = Vec::new();
    for i in 0..v.len()
        invariant
            r@.len() == i,
            forall|j: int| 0 <= j < i ==> ((#[trigger] r@[j]).0, expr_view((#[trigger] r@[j]).1)) == (v@[j].0, expr_view(v@[j].1)),
    {
        r.push((*(&(&v[i]).0), clone_expr((&(&v[i]).1))));
    }
    assert(comparison_list_view(r@) =~= comparison_list_view(v@));
    r
}

pub open spec fn entry_list_view(s: Seq<(Expr, Option<Expr>)>) -> Seq<(ExprView, Option<ExprView>)>
    decreases s,
{
    Seq::new(s.len(), |i: int| if 0 <= i < s.len() { (expr_view(s[i].0), (match s[i].1 { Some(y) => Some(expr_view(y)), None => None })) } else { arbitrary() })
}

pub fn clone_entry_list(v: &Vec<(Expr, Option<Expr>)>) -> (r: Vec<(Expr, Option<Expr>)>)
    ensures
        entry_list_view(r@) == entry_list_view(v@),
        r@.len() == v@.len(),
    decreases v@,
{
    let mut r: Vec<(Expr, Option<Expr>)> = Vec::new();
    for i in 0..v.len()
        invariant
            r@.len() == i,
            forall|j: int| 0 <= j < i ==> (expr_view((#[trigger] r@[j]).0), (match (#[trigger] r@[j]).1 { Some(y) => Some(expr_view(y)), None => None })) == (expr_view(v@[j].0), (match v@[j].1 { Some(y) => Some(expr_view(y)), None => None })),
    {
        r.push((clone_expr((&(&v[i]).0)), (match (&(&v[i]).1) { Some(y) => Some(clone_expr(y)), None => None })));
    }
    assert(entry_list_view(r@) =~= entry_list_view(v@));
    r
}

pub open spec fn branch_list_view(s: Seq<(Expr, Vec<Stmt>)>) -> Seq<(ExprView, Seq<StmtView>)>
    decreases s,
{
    Seq::new(s.len(), |i: int| if 0 <= i < s.len() { (expr_view(s[i].0), stmt_list_view(s[i].1@)) } else { arbitrary() })
}

pub fn clone_branch_list(v: &Vec<(Expr, Vec<Stmt>)>) -> (r: Vec<(Expr, Vec<Stmt>)>)
    ensures
        branch_list_view(r@) == branch_list_view(v@),
        r@.len() == v@.len(),
    decreases v@,
{
    let mut r: Vec<(Expr, Vec<Stmt>)> = Vec::new();
    for i in 0..v.len()
        invariant
            r@.len() == i,
            forall|j: int| 0 <= j < i ==> (expr_view((#[trigger] r@[j]).0), stmt_list_view((#[trigger] r@[j]).1@)) == (expr_view(v@[j].0), stmt_list_view(v@[j].1@)),
    {
        r.push((clone_expr((&(&v[i]).0)), clone_stmt_list((&(&v[i]).1))));
    }
    assert(branch_list_view(r@) =~= branch_list_view(v@));
    r
}

pub open spec fn pack_list_view(s: Seq<(String, Vec<Type>)>) -> Seq<(Seq<char>, Seq<TypeView>)>
    decreases s,
{
    Seq::new(s.len(), |i: int| if 0 <= i < s.len() { (s[i].0@, type_list_view(s[i].1@)) } else { arbitrary() })
}

pub fn clone_pack_list(v: &Vec<(String, Vec<Type>)>) -> (r: Vec<(String, Vec<Type>)>)
    ensures
        pack_list_view(r@) == pack_list_view(v@),
        r@.len() == v@.len(),
    decreases v@,
{
    let mut r: Vec<(String, Vec<Type>)> = Vec::new();
    for i in 0..v.len()
        invariant
            r@.len() == i,
            forall|j: int| 0 <= j < i ==> ((#[trigger] r@[j]).0@, type_list_view((#[trigger] r@[j]).1@)) == (v@[j].0@, type_list_view(v@[j].1@)),
    {
        r.push(((&(&v[i]).0).clone(), clone_type_list((&(&v[i]).1))));
    }
    assert(pack_list_view(r@) =~= pack_list_view(v@));
    r
}

pub open spec fn pack_length_list_view(s: Seq<(String, usize)>) -> Seq<(Seq<char>, usize)>
    decreases s,
{
    Seq::new(s.len(), |i: int| if 0 <= i < s.len() { (s[i].0@, s[i].1) } else { arbitrary() })
}

pub fn clone_pack_length_list(v: &Vec<(String, usize)>) -> (r: Vec<(String, usize)>)
    ensures
        pack_length_list_view(r@) == pack_length_list_view(v@),
        r@.len() == v@.len(),
    decreases v@,
{
    let mut r: Vec<(String, usize)> = Vec::new();
    for i in 0..v.len()
        invariant
            r@.len() == i,
            forall|j: int| 0 <= j < i ==> ((#[trigger] r@[j]).0@, (#[trigger] r@[j]).1) == (v@[j].0@, v@[j].1),
    {
        r.push(((&(&v[i]).0).clone(), *(&(&v[i]).1)));
    }
    assert(pack_length_list_view(r@) =~= pack_length_list_view(v@));
    r
}

pub proof fn unfold_expr_kind(x: ExprKind)
    ensures
        match x {
            ExprKind::TString { parts, raw } => expr_kind_view(x) == (ExprKindView::TString { parts: t_string_part_list_view(parts@), raw }),
            ExprKind::TypeApply { name, args } => expr_kind_view(x) == (ExprKindView::TypeApply { name: name@, args: param_arg_list_view(args@) }),
            ExprKind::Compare { first, rest } => expr_kind_view(x) == (ExprKindView::Compare { first: Box::new(expr_view(*first)), rest: comparison_list_view(rest@) }),
            ExprKind::Call { name, param_args, args, kwargs } => expr_kind_view(x) == (ExprKindView::Call { name: name@, param_args: param_arg_list_view(param_args@), args: expr_list_view(args@), kwargs: kw_arg_list_view(kwargs@) }),
            ExprKind::Invoke { callee, param_args, args, kwargs } => expr_kind_view(x) == (ExprKindView::Invoke { callee: Box::new(expr_view(*callee)), param_args: param_arg_list_view(param_args@), args: expr_list_view(args@), kwargs: kw_arg_list_view(kwargs@) }),
            ExprKind::MethodCall { object, method, args, kwargs } => expr_kind_view(x) == (ExprKindView::MethodCall { object: Box::new(expr_view(*object)), method: method@, args: expr_list_view(args@), kwargs: kw_arg_list_view(kwargs@) }),
            ExprKind::MultiIndex { object, args } => expr_kind_view(x) == (ExprKindView::MultiIndex { object: Box::new(expr_view(*object)), args: subscript_arg_list_view(args@) }),
            ExprKind::ListLit(a0) => expr_kind_view(x) == ExprKindView::ListLit(expr_list_view(a0@)),
            ExprKind::TupleLit(a0) => expr_kind_view(x) == ExprKindView::TupleLit(expr_list_view(a0@)),
            ExprKind::BraceLit(a0) => expr_kind_view(x) == ExprKindView::BraceLit(entry_list_view(a0@)),
            ExprKind::Comprehension { kind, key, value, clauses } => expr_kind_view(x) == (ExprKindView::Comprehension { kind, key: (match key { Some(y) => Some(Box::new(expr_view(*y))), None => None }), value: Box::new(expr_view(*value)), clauses: comprehension_clause_list_view(clauses@) }),
            _ => true,
        },
{
    match x {
        ExprKind::TString { parts, raw } => {
            assert(expr_kind_view(x)->TString_parts =~= t_string_part_list_view(parts@));
        },
        ExprKind::TypeApply { name, args } => {
            assert(expr_kind_view(x)->TypeApply_args =~= param_arg_list_view(args@));
        },
        ExprKind::Compare { first, rest } => {
            assert(expr_kind_view(x)->Compare_rest =~= comparison_list_view(rest@));
        },
        ExprKind::Call { name, param_args, args, kwargs } => {
            assert(expr_kind_view(x)->Call_param_args =~= param_arg_list_view(param_args@));
            assert(expr_kind_view(x)->Call_args =~= expr_list_view(args@));
            assert(expr_kind_view(x)->Call_kwargs =~= kw_arg_list_view(kwargs@));
        },
        ExprKind::Invoke { callee, param_args, args, kwargs } => {
            assert(expr_kind_view(x)->Invoke_param_args =~= param_arg_list_view(param_args@));
            assert(expr_kind_view(x)->Invoke_args =~= expr_list_view(args@));
            assert(expr_kind_view(x)->Invoke_kwargs =~= kw_arg_list_view(kwargs@));
        },
        ExprKind::MethodCall { object, method, args, kwargs } => {
            assert(expr_kind_view(x)->MethodCall_args =~= expr_list_view(args@));
            assert(expr_kind_view(x)->MethodCall_kwargs =~= kw_arg_list_view(kwargs@));
        },
        ExprKind::MultiIndex { object, args } => {
            assert(expr_kind_view(x)->MultiIndex_args =~= subscript_arg_list_view(args@));
        },
        ExprKind::ListLit(a0) => {
            assert(expr_kind_view(x)->ListLit_0 =~= expr_list_view(a0@));
        },
        ExprKind::TupleLit(a0) => {
            assert(expr_kind_view(x)->TupleLit_0 =~= expr_list_view(a0@));
        },
        ExprKind::BraceLit(a0) => {
            assert(expr_kind_view(x)->BraceLit_0 =~= entry_list_view(a0@));
        },
        ExprKind::Comprehension { kind, key, value, clauses } => {
            assert(expr_kind_view(x)->Comprehension_clauses =~= comprehension_clause_list_view(clauses@));
        },
        _ => {},
    }
}

pub proof fn unfold_type(x: Type)
    ensures
        match x {
            Type::Named(a0, a1) => type_view(x) == TypeView::Named(a0@, param_arg_list_view(a1@)),
            Type::Func { params, ret, thin, raises, raises_type } => type_view(x) == (TypeView::Func { params: type_list_view(params@), ret: Box::new(type_view(*ret)), thin, raises, raises_type: (match raises_type { Some(y) => Some(Box::new(type_view(*y))), None => None }) }),
            _ => true,
        },
{
    match x {
        Type::Named(a0, a1) => {
            assert(type_view(x)->Named_1 =~= param_arg_list_view(a1@));
        },
        Type::Func { params, ret, thin, raises, raises_type } => {
            assert(type_view(x)->Func_params =~= type_list_view(params@));
        },
        _ => {},
    }
}

pub proof fn unfold_type_param(x: TypeParam)
    ensures
        type_param_view(x) == (TypeParamView { name: x.name@, bounds: string_list_view(x.bounds@), value_type: (match x.value_type { Some(y) => Some(type_view(y)), None => None }), default: (match x.default { Some(y) => Some(expr_view(y)), None => None }), infer_only: x.infer_only }),
{
        assert(type_param_view(x).bounds =~= string_list_view(x.bounds@));
}

pub proof fn unfold_method(x: Method)
    ensures
        method_view(x) == (MethodView { name: x.name@, has_self: x.has_self, self_convention: x.self_convention, params: fn_param_list_view(x.params@), positional_only: x.positional_only, keyword_only: x.keyword_only, raises_type: (match x.raises_type { Some(y) => Some(type_view(y)), None => None }), ret: (match x.ret { Some(y) => Some(type_view(y)), None => None }), body: stmt_list_view(x.body@) }),
{
        assert(method_view(x).params =~= fn_param_list_view(x.params@));
        assert(method_view(x).body =~= stmt_list_view(x.body@));
}

pub proof fn unfold_import_names(x: ImportNames)
    ensures
        match x {
            ImportNames::Names(a0) => import_names_view(x) == ImportNamesView::Names(import_name_list_view(a0@)),
            _ => true,
        },
{
    match x {
        ImportNames::Names(a0) => {
            assert(import_names_view(x)->Names_0 =~= import_name_list_view(a0@));
        },
        _ => {},
    }
}

pub proof fn unfold_stmt_kind(x: StmtKind)
    ensures
        match x {
            StmtKind::Import { path } => stmt_kind_view(x) == (StmtKindView::Import { path: string_list_view(path@) }),
            StmtKind::FromImport { level, path, names } => stmt_kind_view(x) == (StmtKindView::FromImport { level, path: string_list_view(path@), names: import_names_view(names) }),
            StmtKind::Unpack { targets, value } => stmt_kind_view(x) == (StmtKindView::Unpack { targets: expr_list_view(targets@), value: expr_view(value) }),
            StmtKind::If { branches, orelse } => stmt_kind_view(x) == (StmtKindView::If { branches: branch_list_view(branches@), orelse: (match orelse { Some(y) => Some(stmt_list_view(y@)), None => None }) }),
            StmtKind::ComptimeIf { branches, orelse } => stmt_kind_view(x) == (StmtKindView::ComptimeIf { branches: branch_list_view(branches@), orelse: (match orelse { Some(y) => Some(stmt_list_view(y@)), None => None }) }),
            StmtKind::While { cond, body, orelse } => stmt_kind_view(x) == (StmtKindView::While { cond: expr_view(cond), body: stmt_list_view(body@), orelse: (match orelse { Some(y) => Some(stmt_list_view(y@)), None => None }) }),
            StmtKind::For { var, reference, owned, iter, body, orelse } => stmt_kind_view(x) == (StmtKindView::For { var: var@, reference, owned, iter: expr_view(iter), body: stmt_list_view(body@), orelse: (match orelse { Some(y) => Some(stmt_list_view(y@)), None => None }) }),
            StmtKind::ComptimeFor { var, iter, body } => stmt_kind_view(x) == (StmtKindView::ComptimeFor { var: var@, iter: expr_view(iter), body: stmt_list_view(body@) }),
            StmtKind::Try { body, except, orelse, finalbody } => stmt_kind_view(x) == (StmtKindView::Try { body: stmt_list_view(body@), except: (match except { Some(y) => Some(((match y.0 { Some(y) => Some(y@), None => None }), stmt_list_view(y.1@))), None => None }), orelse: (match orelse { Some(y) => Some(stmt_list_view(y@)), None => None }), finalbody: (match finalbody { Some(y) => Some(stmt_list_view(y@)), None => None }) }),
            StmtKind::With { items, body } => stmt_kind_view(x) == (StmtKindView::With { items: with_item_list_view(items@), body: stmt_list_view(body@) }),
            StmtKind::Def { name, decorators, type_params, params, positional_only, keyword_only, captures, raises, raises_type, ret, where_clause, body } => stmt_kind_view(x) == (StmtKindView::Def { name: name@, decorators: string_list_view(decorators@), type_params: type_param_list_view(type_params@), params: fn_param_list_view(params@), positional_only, keyword_only, captures: (match captures { Some(y) => Some(capture_list_view(y@)), None => None }), raises, raises_type: (match raises_type { Some(y) => Some(type_view(y)), None => None }), ret: (match ret { Some(y) => Some(type_view(y)), None => None }), where_clause: (match where_clause { Some(y) => Some(expr_view(y)), None => None }), body: stmt_list_view(body@) }),
            StmtKind::Struct { name, decorators, type_params, conforms, callable_conformance, conformance_conditions, fields, associated, methods, fieldwise_init } => stmt_kind_view(x) == (StmtKindView::Struct { name: name@, decorators: string_list_view(decorators@), type_params: type_param_list_view(type_params@), conforms: string_list_view(conforms@), callable_conformance: (match callable_conformance { Some(y) => Some(type_view(y)), None => None }), conformance_conditions: expr_list_view(conformance_conditions@), fields: param_list_view(fields@), associated: struct_comptime_list_view(associated@), methods: method_list_view(methods@), fieldwise_init }),
            _ => true,
        },
{
    match x {
        StmtKind::Import { path } => {
            assert(stmt_kind_view(x)->Import_path =~= string_list_view(path@));
        },
        StmtKind::FromImport { level, path, names } => {
            assert(stmt_kind_view(x)->FromImport_path =~= string_list_view(path@));
        },
        StmtKind::Unpack { targets, value } => {
            assert(stmt_kind_view(x)->Unpack_targets =~= expr_list_view(targets@));
        },
        StmtKind::If { branches, orelse } => {
            assert(stmt_kind_view(x)->If_branches =~= branch_list_view(branches@));
            match orelse { Some(y) => {
                assert(stmt_kind_view(x)->If_orelse->0 =~= stmt_list_view(y@));
            }, None => {} }
        },
        StmtKind::ComptimeIf { branches, orelse } => {
            assert(stmt_kind_view(x)->ComptimeIf_branches =~= branch_list_view(branches@));
            match orelse { Some(y) => {
                assert(stmt_kind_view(x)->ComptimeIf_orelse->0 =~= stmt_list_view(y@));
            }, None => {} }
        },
        StmtKind::While { cond, body, orelse } => {
            assert(stmt_kind_view(x)->While_body =~= stmt_list_view(body@));
            match orelse { Some(y) => {
                assert(stmt_kind_view(x)->While_orelse->0 =~= stmt_list_view(y@));
            }, None => {} }
        },
        StmtKind::For { var, reference, owned, iter, body, orelse } => {
            assert(stmt_kind_view(x)->For_body =~= stmt_list_view(body@));
            match orelse { Some(y) => {
                assert(stmt_kind_view(x)->For_orelse->0 =~= stmt_list_view(y@));
            }, None => {} }
        },
        StmtKind::ComptimeFor { var, iter, body } => {
            assert(stmt_kind_view(x)->ComptimeFor_body =~= stmt_list_view(body@));
        },
        StmtKind::Try { body, except, orelse, finalbody } => {
            assert(stmt_kind_view(x)->Try_body =~= stmt_list_view(body@));
            match except { Some(y) => {
                assert((stmt_kind_view(x)->Try_except->0).1 =~= stmt_list_view((y).1@));
            }, None => {} }
            match orelse { Some(y) => {
                assert(stmt_kind_view(x)->Try_orelse->0 =~= stmt_list_view(y@));
            }, None => {} }
            match finalbody { Some(y) => {
                assert(stmt_kind_view(x)->Try_finalbody->0 =~= stmt_list_view(y@));
            }, None => {} }
        },
        StmtKind::With { items, body } => {
            assert(stmt_kind_view(x)->With_items =~= with_item_list_view(items@));
            assert(stmt_kind_view(x)->With_body =~= stmt_list_view(body@));
        },
        StmtKind::Def { name, decorators, type_params, params, positional_only, keyword_only, captures, raises, raises_type, ret, where_clause, body } => {
            assert(stmt_kind_view(x)->Def_decorators =~= string_list_view(decorators@));
            assert(stmt_kind_view(x)->Def_type_params =~= type_param_list_view(type_params@));
            assert(stmt_kind_view(x)->Def_params =~= fn_param_list_view(params@));
            match captures { Some(y) => {
                assert(stmt_kind_view(x)->Def_captures->0 =~= capture_list_view(y@));
            }, None => {} }
            assert(stmt_kind_view(x)->Def_body =~= stmt_list_view(body@));
        },
        StmtKind::Struct { name, decorators, type_params, conforms, callable_conformance, conformance_conditions, fields, associated, methods, fieldwise_init } => {
            assert(stmt_kind_view(x)->Struct_decorators =~= string_list_view(decorators@));
            assert(stmt_kind_view(x)->Struct_type_params =~= type_param_list_view(type_params@));
            assert(stmt_kind_view(x)->Struct_conforms =~= string_list_view(conforms@));
            assert(stmt_kind_view(x)->Struct_conformance_conditions =~= expr_list_view(conformance_conditions@));
            assert(stmt_kind_view(x)->Struct_fields =~= param_list_view(fields@));
            assert(stmt_kind_view(x)->Struct_associated =~= struct_comptime_list_view(associated@));
            assert(stmt_kind_view(x)->Struct_methods =~= method_list_view(methods@));
        },
        _ => {},
    }
}

} // verus!
