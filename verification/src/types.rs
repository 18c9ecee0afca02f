//! Checked types and compile-time values.

use crate::origin::{
    Mutability, Origin, OriginView, PointerOrigin, PointerOriginView, clone_origin,
    clone_pointer_origin, origin_view, pointer_origin_view, same_origin, same_pointer_origin,
};
use crate::text::{clone_string_list, same_string, string_list_view};
use vstd::prelude::*;

verus! {

/// Checked reference type: referent, storage origin and access permission.
#[derive(Debug, PartialEq, Eq)]
pub struct RefTy {
    pub referent: Box<Ty>,
    pub origin: Origin,
    pub mutability: Mutability,
}

/// What a [`RefTy`] holds.
pub struct RefTyView {
    pub referent: Box<TyView>,
    pub origin: OriginView,
    pub mutability: Mutability,
}

/// A checked type.
#[derive(Debug, PartialEq, Eq)]
#[allow(inconsistent_fields)]
pub enum Ty {
    Int,
    UInt,
    Bool,
    String,
    Float64,
    NoneTy,
    IntLiteral,
    FloatLiteral,
    List(Box<Ty>),
    SetOf(Box<Ty>),
    Dict(Box<Ty>, Box<Ty>),
    Tuple(Vec<Ty>),
    Variant(Vec<Ty>),
    Struct(String, Vec<TyArg>),
    Ref(RefTy),
    Pointer { element: Box<Ty>, origin: PointerOrigin },
    Param { name: String },
    Assoc { base: Box<Ty>, name: String },
    Func { params: Vec<Ty>, ret: Box<Ty> },
    GenericFunc { params: Vec<Ty>, ret: Box<Ty> },
    Overload(Vec<Ty>),
}

/// What a [`Ty`] holds.
#[allow(inconsistent_fields)]
pub enum TyView {
    Int,
    UInt,
    Bool,
    String,
    Float64,
    NoneTy,
    IntLiteral,
    FloatLiteral,
    List(Box<TyView>),
    SetOf(Box<TyView>),
    Dict(Box<TyView>, Box<TyView>),
    Tuple(Seq<TyView>),
    Variant(Seq<TyView>),
    Struct(Seq<char>, Seq<TyArgView>),
    Ref(RefTyView),
    Pointer { element: Box<TyView>, origin: PointerOriginView },
    Param { name: Seq<char> },
    Assoc { base: Box<TyView>, name: Seq<char> },
    Func { params: Seq<TyView>, ret: Box<TyView> },
    GenericFunc { params: Seq<TyView>, ret: Box<TyView> },
    Overload(Seq<TyView>),
}

/// An argument of a parameterized type.
#[derive(Debug, PartialEq, Eq)]
#[allow(inconsistent_fields)]
pub enum TyArg {
    Ty(Ty),
    Val(CtValue),
}

/// What a [`TyArg`] holds.
#[allow(inconsistent_fields)]
pub enum TyArgView {
    Ty(TyView),
    Val(CtValueView),
}

/// A compile-time value.
#[derive(Debug, PartialEq, Eq)]
#[allow(inconsistent_fields)]
pub enum CtValue {
    Int(i64),
    UInt(u64),
    /// IEEE-754 bits, for deterministic equality and specialization keys.
    Float(u64),
    Bool(bool),
    Str(String),
    Tuple(Vec<CtValue>),
    List(Vec<CtValue>),
    Type(Box<Ty>),
    /// The handle produced by `reflect[T]`. Field selection gives another handle.
    Reflected(Box<Ty>),
    Param(String),
}

/// What a [`CtValue`] holds.
#[allow(inconsistent_fields)]
pub enum CtValueView {
    Int(i64),
    UInt(u64),
    Float(u64),
    Bool(bool),
    Str(Seq<char>),
    Tuple(Seq<CtValueView>),
    List(Seq<CtValueView>),
    Type(Box<TyView>),
    Reflected(Box<TyView>),
    Param(Seq<char>),
}

/// A dependent compile-time expression retained in generic metadata.
#[derive(Debug, PartialEq, Eq)]
#[allow(inconsistent_fields)]
pub enum CtExpr {
    Value(CtValue),
    Param(String),
    Neg(Box<CtExpr>),
    Add(Box<CtExpr>, Box<CtExpr>),
    Sub(Box<CtExpr>, Box<CtExpr>),
    Mul(Box<CtExpr>, Box<CtExpr>),
    FloorDiv(Box<CtExpr>, Box<CtExpr>),
    Mod(Box<CtExpr>, Box<CtExpr>),
    Pow(Box<CtExpr>, Box<CtExpr>),
}

/// What a [`CtExpr`] holds.
#[allow(inconsistent_fields)]
pub enum CtExprView {
    Value(CtValueView),
    Param(Seq<char>),
    Neg(Box<CtExprView>),
    Add(Box<CtExprView>, Box<CtExprView>),
    Sub(Box<CtExprView>, Box<CtExprView>),
    Mul(Box<CtExprView>, Box<CtExprView>),
    FloorDiv(Box<CtExprView>, Box<CtExprView>),
    Mod(Box<CtExprView>, Box<CtExprView>),
    Pow(Box<CtExprView>, Box<CtExprView>),
}

/// A declared compile-time parameter.
#[derive(Debug, PartialEq, Eq)]
#[allow(inconsistent_fields)]
pub enum ParamDecl {
    Type { name: String, bounds: Vec<String>, default: Option<Box<Ty>>, infer_only: bool, variadic: bool },
    Value { name: String, ty: Box<Ty>, default: Option<CtExpr>, infer_only: bool, variadic: bool },
}

/// What a [`ParamDecl`] holds.
#[allow(inconsistent_fields)]
pub enum ParamDeclView {
    Type { name: Seq<char>, bounds: Seq<Seq<char>>, default: Option<Box<TyView>>, infer_only: bool, variadic: bool },
    Value { name: Seq<char>, ty: Box<TyView>, default: Option<CtExprView>, infer_only: bool, variadic: bool },
}

pub open spec fn ref_ty_view(x: RefTy) -> RefTyView
    decreases x,
{
    RefTyView {
        referent: Box::new(ty_view(*x.referent)),
        origin: origin_view(x.origin),
        mutability: x.mutability,
    }
}

impl View for RefTy {
    type V = RefTyView;

    open spec fn view(&self) -> RefTyView {
        ref_ty_view(*self)
    }
}

pub fn clone_ref_ty(x: &RefTy) -> (r: RefTy)
    ensures
        ref_ty_view(r) == ref_ty_view(*x),
    decreases x,
{
    RefTy {
        referent: Box::new(clone_ty((&**(&x.referent)))),
        origin: clone_origin((&x.origin)),
        mutability: x.mutability,
    }
}

impl Clone for RefTy {
    fn clone(&self) -> (r: Self)
        ensures
            r@ == self@,
    {
        clone_ref_ty(self)
    }
}

pub open spec fn ty_view(x: Ty) -> TyView
    decreases x,
{
    match x {
        Ty::Int => TyView::Int,
        Ty::UInt => TyView::UInt,
        Ty::Bool => TyView::Bool,
        Ty::String => TyView::String,
        Ty::Float64 => TyView::Float64,
        Ty::NoneTy => TyView::NoneTy,
        Ty::IntLiteral => TyView::IntLiteral,
        Ty::FloatLiteral => TyView::FloatLiteral,
        Ty::List(a0) => TyView::List(Box::new(ty_view(*a0))),
        Ty::SetOf(a0) => TyView::SetOf(Box::new(ty_view(*a0))),
        Ty::Dict(a0, a1) => TyView::Dict(Box::new(ty_view(*a0)), Box::new(ty_view(*a1))),
        Ty::Tuple(a0) => TyView::Tuple(ty_list_view(a0@)),
        Ty::Variant(a0) => TyView::Variant(ty_list_view(a0@)),
        Ty::Struct(a0, a1) => TyView::Struct(a0@, ty_arg_list_view(a1@)),
        Ty::Ref(a0) => TyView::Ref(ref_ty_view(a0)),
        Ty::Pointer { element, origin } => TyView::Pointer { element: Box::new(ty_view(*element)), origin: pointer_origin_view(origin) },
        Ty::Param { name } => TyView::Param { name: name@ },
        Ty::Assoc { base, name } => TyView::Assoc { base: Box::new(ty_view(*base)), name: name@ },
        Ty::Func { params, ret } => TyView::Func { params: ty_list_view(params@), ret: Box::new(ty_view(*ret)) },
        Ty::GenericFunc { params, ret } => TyView::GenericFunc { params: ty_list_view(params@), ret: Box::new(ty_view(*ret)) },
        Ty::Overload(a0) => TyView::Overload(ty_list_view(a0@)),
    }
}

impl View for Ty {
    type V = TyView;

    open spec fn view(&self) -> TyView {
        ty_view(*self)
    }
}

pub fn clone_ty(x: &Ty) -> (r: Ty)
    ensures
        ty_view(r) == ty_view(*x),
    decreases x,
{
    let r = match x {
        Ty::Int => Ty::Int,
        Ty::UInt => Ty::UInt,
        Ty::Bool => Ty::Bool,
        Ty::String => Ty::String,
        Ty::Float64 => Ty::Float64,
        Ty::NoneTy => Ty::NoneTy,
        Ty::IntLiteral => Ty::IntLiteral,
        Ty::FloatLiteral => Ty::FloatLiteral,
        Ty::List(a0) => Ty::List(Box::new(clone_ty((&**a0)))),
        Ty::SetOf(a0) => Ty::SetOf(Box::new(clone_ty((&**a0)))),
        Ty::Dict(a0, a1) => Ty::Dict(Box::new(clone_ty((&**a0))), Box::new(clone_ty((&**a1)))),
        Ty::Tuple(a0) => Ty::Tuple(clone_ty_list(a0)),
        Ty::Variant(a0) => Ty::Variant(clone_ty_list(a0)),
        Ty::Struct(a0, a1) => Ty::Struct(a0.clone(), clone_ty_arg_list(a1)),
        Ty::Ref(a0) => Ty::Ref(clone_ref_ty(a0)),
        Ty::Pointer { element, origin } => Ty::Pointer { element: Box::new(clone_ty((&**element))), origin: clone_pointer_origin(origin) },
        Ty::Param { name } => Ty::Param { name: name.clone() },
        Ty::Assoc { base, name } => Ty::Assoc { base: Box::new(clone_ty((&**base))), name: name.clone() },
        Ty::Func { params, ret } => Ty::Func { params: clone_ty_list(params), ret: Box::new(clone_ty((&**ret))) },
        Ty::GenericFunc { params, ret } => Ty::GenericFunc { params: clone_ty_list(params), ret: Box::new(clone_ty((&**ret))) },
        Ty::Overload(a0) => Ty::Overload(clone_ty_list(a0)),
    };
    proof {
        unfold_ty(*x);
        unfold_ty(r);
    }
    r
}

impl Clone for Ty {
    fn clone(&self) -> (r: Self)
        ensures
            r@ == self@,
    {
        clone_ty(self)
    }
}

pub open spec fn ty_arg_view(x: TyArg) -> TyArgView
    decreases x,
{
    match x {
        TyArg::Ty(a0) => TyArgView::Ty(ty_view(a0)),
        TyArg::Val(a0) => TyArgView::Val(ct_value_view(a0)),
    }
}

impl View for TyArg {
    type V = TyArgView;

    open spec fn view(&self) -> TyArgView {
        ty_arg_view(*self)
    }
}

pub fn clone_ty_arg(x: &TyArg) -> (r: TyArg)
    ensures
        ty_arg_view(r) == ty_arg_view(*x),
    decreases x,
{
    match x {
        TyArg::Ty(a0) => TyArg::Ty(clone_ty(a0)),
        TyArg::Val(a0) => TyArg::Val(clone_ct_value(a0)),
    }
}

impl Clone for TyArg {
    fn clone(&self) -> (r: Self)
        ensures
            r@ == self@,
    {
        clone_ty_arg(self)
    }
}

pub open spec fn ct_value_view(x: CtValue) -> CtValueView
    decreases x,
{
    match x {
        CtValue::Int(a0) => CtValueView::Int(a0),
        CtValue::UInt(a0) => CtValueView::UInt(a0),
        CtValue::Float(a0) => CtValueView::Float(a0),
        CtValue::Bool(a0) => CtValueView::Bool(a0),
        CtValue::Str(a0) => CtValueView::Str(a0@),
        CtValue::Tuple(a0) => CtValueView::Tuple(ct_value_list_view(a0@)),
        CtValue::List(a0) => CtValueView::List(ct_value_list_view(a0@)),
        CtValue::Type(a0) => CtValueView::Type(Box::new(ty_view(*a0))),
        CtValue::Reflected(a0) => CtValueView::Reflected(Box::new(ty_view(*a0))),
        CtValue::Param(a0) => CtValueView::Param(a0@),
    }
}

impl View for CtValue {
    type V = CtValueView;

    open spec fn view(&self) -> CtValueView {
        ct_value_view(*self)
    }
}

pub fn clone_ct_value(x: &CtValue) -> (r: CtValue)
    ensures
        ct_value_view(r) == ct_value_view(*x),
    decreases x,
{
    let r = match x {
        CtValue::Int(a0) => CtValue::Int(*a0),
        CtValue::UInt(a0) => CtValue::UInt(*a0),
        CtValue::Float(a0) => CtValue::Float(*a0),
        CtValue::Bool(a0) => CtValue::Bool(*a0),
        CtValue::Str(a0) => CtValue::Str(a0.clone()),
        CtValue::Tuple(a0) => CtValue::Tuple(clone_ct_value_list(a0)),
        CtValue::List(a0) => CtValue::List(clone_ct_value_list(a0)),
        CtValue::Type(a0) => CtValue::Type(Box::new(clone_ty((&**a0)))),
        CtValue::Reflected(a0) => CtValue::Reflected(Box::new(clone_ty((&**a0)))),
        CtValue::Param(a0) => CtValue::Param(a0.clone()),
    };
    proof {
        unfold_ct_value(*x);
        unfold_ct_value(r);
    }
    r
}

impl Clone for CtValue {
    fn clone(&self) -> (r: Self)
        ensures
            r@ == self@,
    {
        clone_ct_value(self)
    }
}

pub open spec fn ct_expr_view(x: CtExpr) -> CtExprView
    decreases x,
{
    match x {
        CtExpr::Value(a0) => CtExprView::Value(ct_value_view(a0)),
        CtExpr::Param(a0) => CtExprView::Param(a0@),
        CtExpr::Neg(a0) => CtExprView::Neg(Box::new(ct_expr_view(*a0))),
        CtExpr::Add(a0, a1) => CtExprView::Add(Box::new(ct_expr_view(*a0)), Box::new(ct_expr_view(*a1))),
        CtExpr::Sub(a0, a1) => CtExprView::Sub(Box::new(ct_expr_view(*a0)), Box::new(ct_expr_view(*a1))),
        CtExpr::Mul(a0, a1) => CtExprView::Mul(Box::new(ct_expr_view(*a0)), Box::new(ct_expr_view(*a1))),
        CtExpr::FloorDiv(a0, a1) => CtExprView::FloorDiv(Box::new(ct_expr_view(*a0)), Box::new(ct_expr_view(*a1))),
        CtExpr::Mod(a0, a1) => CtExprView::Mod(Box::new(ct_expr_view(*a0)), Box::new(ct_expr_view(*a1))),
        CtExpr::Pow(a0, a1) => CtExprView::Pow(Box::new(ct_expr_view(*a0)), Box::new(ct_expr_view(*a1))),
    }
}

impl View for CtExpr {
    type V = CtExprView;

    open spec fn view(&self) -> CtExprView {
        ct_expr_view(*self)
    }
}

pub fn clone_ct_expr(x: &CtExpr) -> (r: CtExpr)
    ensures
        ct_expr_view(r) == ct_expr_view(*x),
    decreases x,
{
    match x {
        CtExpr::Value(a0) => CtExpr::Value(clone_ct_value(a0)),
        CtExpr::Param(a0) => CtExpr::Param(a0.clone()),
        CtExpr::Neg(a0) => CtExpr::Neg(Box::new(clone_ct_expr((&**a0)))),
        CtExpr::Add(a0, a1) => CtExpr::Add(Box::new(clone_ct_expr((&**a0))), Box::new(clone_ct_expr((&**a1)))),
        CtExpr::Sub(a0, a1) => CtExpr::Sub(Box::new(clone_ct_expr((&**a0))), Box::new(clone_ct_expr((&**a1)))),
        CtExpr::Mul(a0, a1) => CtExpr::Mul(Box::new(clone_ct_expr((&**a0))), Box::new(clone_ct_expr((&**a1)))),
        CtExpr::FloorDiv(a0, a1) => CtExpr::FloorDiv(Box::new(clone_ct_expr((&**a0))), Box::new(clone_ct_expr((&**a1)))),
        CtExpr::Mod(a0, a1) => CtExpr::Mod(Box::new(clone_ct_expr((&**a0))), Box::new(clone_ct_expr((&**a1)))),
        CtExpr::Pow(a0, a1) => CtExpr::Pow(Box::new(clone_ct_expr((&**a0))), Box::new(clone_ct_expr((&**a1)))),
    }
}

impl Clone for CtExpr {
    fn clone(&self) -> (r: Self)
        ensures
            r@ == self@,
    {
        clone_ct_expr(self)
    }
}

pub open spec fn param_decl_view(x: ParamDecl) -> ParamDeclView
    decreases x,
{
    match x {
        ParamDecl::Type { name, bounds, default, infer_only, variadic } => ParamDeclView::Type { name: name@, bounds: string_list_view(bounds@), default: (match default { Some(y) => Some(Box::new(ty_view(*y))), None => None }), infer_only, variadic },
        ParamDecl::Value { name, ty, default, infer_only, variadic } => ParamDeclView::Value { name: name@, ty: Box::new(ty_view(*ty)), default: (match default { Some(y) => Some(ct_expr_view(y)), None => None }), infer_only, variadic },
    }
}

impl View for ParamDecl {
    type V = ParamDeclView;

    open spec fn view(&self) -> ParamDeclView {
        param_decl_view(*self)
    }
}

pub fn clone_param_decl(x: &ParamDecl) -> (r: ParamDecl)
    ensures
        param_decl_view(r) == param_decl_view(*x),
    decreases x,
{
    let r = match x {
        ParamDecl::Type { name, bounds, default, infer_only, variadic } => ParamDecl::Type { name: name.clone(), bounds: clone_string_list(bounds), default: (match default { Some(y) => Some(Box::new(clone_ty((&**y)))), None => None }), infer_only: *infer_only, variadic: *variadic },
        ParamDecl::Value { name, ty, default, infer_only, variadic } => ParamDecl::Value { name: name.clone(), ty: Box::new(clone_ty((&**ty))), default: (match default { Some(y) => Some(clone_ct_expr(y)), None => None }), infer_only: *infer_only, variadic: *variadic },
    };
    proof {
        unfold_param_decl(*x);
        unfold_param_decl(r);
    }
    r
}

impl Clone for ParamDecl {
    fn clone(&self) -> (r: Self)
        ensures
            r@ == self@,
    {
        clone_param_decl(self)
    }
}

pub open spec fn ty_list_view(s: Seq<Ty>) -> Seq<TyView>
    decreases s,
{
    Seq::new(s.len(), |i: int| if 0 <= i < s.len() { ty_view(s[i]) } else { arbitrary() })
}

pub fn clone_ty_list(v: &Vec<Ty>) -> (r: Vec<Ty>)
    ensures
        ty_list_view(r@) == ty_list_view(v@),
        r@.len() == v@.len(),
    decreases v@,
{
    let mut r: Vec<Ty> = Vec::new();
    for i in 0..v.len()
        invariant
            r@.len() == i,
            forall|j: int| 0 <= j < i ==> ty_view((#[trigger] r@[j])) == ty_view(v@[j]),
    {
        r.push(clone_ty((&v[i])));
    }
    assert(ty_list_view(r@) =~= ty_list_view(v@));
    r
}

pub open spec fn ty_arg_list_view(s: Seq<TyArg>) -> Seq<TyArgView>
    decreases s,
{
    Seq::new(s.len(), |i: int| if 0 <= i < s.len() { ty_arg_view(s[i]) } else { arbitrary() })
}

pub fn clone_ty_arg_list(v: &Vec<TyArg>) -> (r: Vec<TyArg>)
    ensures
        ty_arg_list_view(r@) == ty_arg_list_view(v@),
        r@.len() == v@.len(),
    decreases v@,
{
    let mut r: Vec<TyArg> = Vec::new();
    for i in 0..v.len()
        invariant
            r@.len() == i,
            forall|j: int| 0 <= j < i ==> ty_arg_view((#[trigger] r@[j])) == ty_arg_view(v@[j]),
    {
        r.push(clone_ty_arg((&v[i])));
    }
    assert(ty_arg_list_view(r@) =~= ty_arg_list_view(v@));
    r
}

pub open spec fn ct_value_list_view(s: Seq<CtValue>) -> Seq<CtValueView>
    decreases s,
{
    Seq::new(s.len(), |i: int| if 0 <= i < s.len() { ct_value_view(s[i]) } else { arbitrary() })
}

pub fn clone_ct_value_list(v: &Vec<CtValue>) -> (r: Vec<CtValue>)
    ensures
        ct_value_list_view(r@) == ct_value_list_view(v@),
        r@.len() == v@.len(),
    decreases v@,
{
    let mut r: Vec<CtValue> = Vec::new();
    for i in 0..v.len()
        invariant
            r@.len() == i,
            forall|j: int| 0 <= j < i ==> ct_value_view((#[trigger] r@[j])) == ct_value_view(v@[j]),
    {
        r.push(clone_ct_value((&v[i])));
    }
    assert(ct_value_list_view(r@) =~= ct_value_list_view(v@));
    r
}

pub open spec fn param_decl_list_view(s: Seq<ParamDecl>) -> Seq<ParamDeclView>
    decreases s,
{
    Seq::new(s.len(), |i: int| if 0 <= i < s.len() { param_decl_view(s[i]) } else { arbitrary() })
}

pub fn clone_param_decl_list(v: &Vec<ParamDecl>) -> (r: Vec<ParamDecl>)
    ensures
        param_decl_list_view(r@) == param_decl_list_view(v@),
        r@.len() == v@.len(),
    decreases v@,
{
    let mut r: Vec<ParamDecl> = Vec::new();
    for i in 0..v.len()
        invariant
            r@.len() == i,
            forall|j: int| 0 <= j < i ==> param_decl_view((#[trigger] r@[j])) == param_decl_view(v@[j]),
    {
        r.push(clone_param_decl((&v[i])));
    }
    assert(param_decl_list_view(r@) =~= param_decl_list_view(v@));
    r
}

pub open spec fn binding_list_view(s: Seq<(String, CtValue)>) -> Seq<(Seq<char>, CtValueView)>
    decreases s,
{
    Seq::new(s.len(), |i: int| if 0 <= i < s.len() { (s[i].0@, ct_value_view(s[i].1)) } else { arbitrary() })
}

pub fn clone_binding_list(v: &Vec<(String, CtValue)>) -> (r: Vec<(String, CtValue)>)
    ensures
        binding_list_view(r@) == binding_list_view(v@),
        r@.len() == v@.len(),
    decreases v@,
{
    let mut r: Vec<(String, CtValue)> = Vec::new();
    for i in 0..v.len()
        invariant
            r@.len() == i,
            forall|j: int| 0 <= j < i ==> ((#[trigger] r@[j]).0@, ct_value_view((#[trigger] r@[j]).1)) == (v@[j].0@, ct_value_view(v@[j].1)),
    {
        r.push(((&(&v[i]).0).clone(), clone_ct_value((&(&v[i]).1))));
    }
    assert(binding_list_view(r@) =~= binding_list_view(v@));
    r
}

pub open spec fn ty_pair_list_view(s: Seq<(Ty, Ty)>) -> Seq<(TyView, TyView)>
    decreases s,
{
    Seq::new(s.len(), |i: int| if 0 <= i < s.len() { (ty_view(s[i].0), ty_view(s[i].1)) } else { arbitrary() })
}

pub fn clone_ty_pair_list(v: &Vec<(Ty, Ty)>) -> (r: Vec<(Ty, Ty)>)
    ensures
        ty_pair_list_view(r@) == ty_pair_list_view(v@),
        r@.len() == v@.len(),
    decreases v@,
{
    let mut r: Vec<(Ty, Ty)> = Vec::new();
    for i in 0..v.len()
        invariant
            r@.len() == i,
            forall|j: int| 0 <= j < i ==> (ty_view((#[trigger] r@[j]).0), ty_view((#[trigger] r@[j]).1)) == (ty_view(v@[j].0), ty_view(v@[j].1)),
    {
        r.push((clone_ty((&(&v[i]).0)), clone_ty((&(&v[i]).1))));
    }
    assert(ty_pair_list_view(r@) =~= ty_pair_list_view(v@));
    r
}

pub open spec fn named_ty_list_view(s: Seq<(String, Ty)>) -> Seq<(Seq<char>, TyView)>
    decreases s,
{
    Seq::new(s.len(), |i: int| if 0 <= i < s.len() { (s[i].0@, ty_view(s[i].1)) } else { arbitrary() })
}

pub fn clone_named_ty_list(v: &Vec<(String, Ty)>) -> (r: Vec<(String, Ty)>)
    ensures
        named_ty_list_view(r@) == named_ty_list_view(v@),
        r@.len() == v@.len(),
    decreases v@,
{
    let mut r: Vec<(String, Ty)> = Vec::new();
    for i in 0..v.len()
        invariant
            r@.len() == i,
            forall|j: int| 0 <= j < i ==> ((#[trigger] r@[j]).0@, ty_view((#[trigger] r@[j]).1)) == (v@[j].0@, ty_view(v@[j].1)),
    {
        r.push(((&(&v[i]).0).clone(), clone_ty((&(&v[i]).1))));
    }
    assert(named_ty_list_view(r@) =~= named_ty_list_view(v@));
    r
}

pub open spec fn slot_ty_list_view(s: Seq<(u32, Ty)>) -> Seq<(u32, TyView)>
    decreases s,
{
    Seq::new(s.len(), |i: int| if 0 <= i < s.len() { (s[i].0, ty_view(s[i].1)) } else { arbitrary() })
}

pub fn clone_slot_ty_list(v: &Vec<(u32, Ty)>) -> (r: Vec<(u32, Ty)>)
    ensures
        slot_ty_list_view(r@) == slot_ty_list_view(v@),
        r@.len() == v@.len(),
    decreases v@,
{
    let mut r: Vec<(u32, Ty)> = Vec::new();
    for i in 0..v.len()
        invariant
            r@.len() == i,
            forall|j: int| 0 <= j < i ==> ((#[trigger] r@[j]).0, ty_view((#[trigger] r@[j]).1)) == (v@[j].0, ty_view(v@[j].1)),
    {
        r.push((*(&(&v[i]).0), clone_ty((&(&v[i]).1))));
    }
    assert(slot_ty_list_view(r@) =~= slot_ty_list_view(v@));
    r
}

pub proof fn unfold_ty(x: Ty)
    ensures
        match x {
            Ty::Tuple(a0) => ty_view(x) == TyView::Tuple(ty_list_view(a0@)),
            Ty::Variant(a0) => ty_view(x) == TyView::Variant(ty_list_view(a0@)),
            Ty::Struct(a0, a1) => ty_view(x) == TyView::Struct(a0@, ty_arg_list_view(a1@)),
            Ty::Func { params, ret } => ty_view(x) == (TyView::Func { params: ty_list_view(params@), ret: Box::new(ty_view(*ret)) }),
            Ty::GenericFunc { params, ret } => ty_view(x) == (TyView::GenericFunc { params: ty_list_view(params@), ret: Box::new(ty_view(*ret)) }),
            Ty::Overload(a0) => ty_view(x) == TyView::Overload(ty_list_view(a0@)),
            _ => true,
        },
{
    match x {
        Ty::Tuple(a0) => {
            assert(ty_view(x)->Tuple_0 =~= ty_list_view(a0@));
        },
        Ty::Variant(a0) => {
            assert(ty_view(x)->Variant_0 =~= ty_list_view(a0@));
        },
        Ty::Struct(a0, a1) => {
            assert(ty_view(x)->Struct_1 =~= ty_arg_list_view(a1@));
        },
        Ty::Func { params, ret } => {
            assert(ty_view(x)->Func_params =~= ty_list_view(params@));
        },
        Ty::GenericFunc { params, ret } => {
            assert(ty_view(x)->GenericFunc_params =~= ty_list_view(params@));
        },
        Ty::Overload(a0) => {
            assert(ty_view(x)->Overload_0 =~= ty_list_view(a0@));
        },
        _ => {},
    }
}

pub proof fn unfold_ct_value(x: CtValue)
    ensures
        match x {
            CtValue::Tuple(a0) => ct_value_view(x) == CtValueView::Tuple(ct_value_list_view(a0@)),
            CtValue::List(a0) => ct_value_view(x) == CtValueView::List(ct_value_list_view(a0@)),
            _ => true,
        },
{
    match x {
        CtValue::Tuple(a0) => {
            assert(ct_value_view(x)->Tuple_0 =~= ct_value_list_view(a0@));
        },
        CtValue::List(a0) => {
            assert(ct_value_view(x)->List_0 =~= ct_value_list_view(a0@));
        },
        _ => {},
    }
}

pub proof fn unfold_param_decl(x: ParamDecl)
    ensures
        match x {
            ParamDecl::Type { name, bounds, default, infer_only, variadic } => param_decl_view(x) == (ParamDeclView::Type { name: name@, bounds: string_list_view(bounds@), default: (match default { Some(y) => Some(Box::new(ty_view(*y))), None => None }), infer_only, variadic }),
            _ => true,
        },
{
    match x {
        ParamDecl::Type { name, bounds, default, infer_only, variadic } => {
            assert(param_decl_view(x)->Type_bounds =~= string_list_view(bounds@));
        },
        _ => {},
    }
}

/// Whether two values hold the same.
pub fn same_ref_ty(a: &RefTy, b: &RefTy) -> (r: bool)
    ensures
        r == (ref_ty_view(*a) == ref_ty_view(*b)),
    decreases a,
{
    same_ty((&**(&a.referent)), (&**(&b.referent))) && same_origin((&a.origin), (&b.origin)) && a.mutability == b.mutability
}

/// Whether two values hold the same.
pub fn same_ty(a: &Ty, b: &Ty) -> (r: bool)
    ensures
        r == (ty_view(*a) == ty_view(*b)),
    decreases a,
{
    proof {
        unfold_ty(*a);
        unfold_ty(*b);
    }
    match (a, b) {
        (Ty::Int, Ty::Int) => true,
        (Ty::UInt, Ty::UInt) => true,
        (Ty::Bool, Ty::Bool) => true,
        (Ty::String, Ty::String) => true,
        (Ty::Float64, Ty::Float64) => true,
        (Ty::NoneTy, Ty::NoneTy) => true,
        (Ty::IntLiteral, Ty::IntLiteral) => true,
        (Ty::FloatLiteral, Ty::FloatLiteral) => true,
        (Ty::List(p0), Ty::List(q0)) => same_ty((&**p0), (&**q0)),
        (Ty::SetOf(p0), Ty::SetOf(q0)) => same_ty((&**p0), (&**q0)),
        (Ty::Dict(p0, p1), Ty::Dict(q0, q1)) => same_ty((&**p0), (&**q0)) && same_ty((&**p1), (&**q1)),
        (Ty::Tuple(p0), Ty::Tuple(q0)) => same_ty_list(p0, q0),
        (Ty::Variant(p0), Ty::Variant(q0)) => same_ty_list(p0, q0),
        (Ty::Struct(p0, p1), Ty::Struct(q0, q1)) => same_string(p0, q0) && same_ty_arg_list(p1, q1),
        (Ty::Ref(p0), Ty::Ref(q0)) => same_ref_ty(p0, q0),
        (Ty::Pointer { element: p0, origin: p1 }, Ty::Pointer { element: q0, origin: q1 }) => same_ty((&**p0), (&**q0)) && same_pointer_origin(p1, q1),
        (Ty::Param { name: p0 }, Ty::Param { name: q0 }) => same_string(p0, q0),
        (Ty::Assoc { base: p0, name: p1 }, Ty::Assoc { base: q0, name: q1 }) => same_ty((&**p0), (&**q0)) && same_string(p1, q1),
        (Ty::Func { params: p0, ret: p1 }, Ty::Func { params: q0, ret: q1 }) => same_ty_list(p0, q0) && same_ty((&**p1), (&**q1)),
        (Ty::GenericFunc { params: p0, ret: p1 }, Ty::GenericFunc { params: q0, ret: q1 }) => same_ty_list(p0, q0) && same_ty((&**p1), (&**q1)),
        (Ty::Overload(p0), Ty::Overload(q0)) => same_ty_list(p0, q0),
        _ => false,
    }
}

/// Whether two values hold the same.
pub fn same_ty_arg(a: &TyArg, b: &TyArg) -> (r: bool)
    ensures
        r == (ty_arg_view(*a) == ty_arg_view(*b)),
    decreases a,
{
    match (a, b) {
        (TyArg::Ty(p0), TyArg::Ty(q0)) => same_ty(p0, q0),
        (TyArg::Val(p0), TyArg::Val(q0)) => same_ct_value(p0, q0),
        _ => false,
    }
}

/// Whether two values hold the same.
pub fn same_ct_value(a: &CtValue, b: &CtValue) -> (r: bool)
    ensures
        r == (ct_value_view(*a) == ct_value_view(*b)),
    decreases a,
{
    proof {
        unfold_ct_value(*a);
        unfold_ct_value(*b);
    }
    match (a, b) {
        (CtValue::Int(p0), CtValue::Int(q0)) => *p0 == *q0,
        (CtValue::UInt(p0), CtValue::UInt(q0)) => *p0 == *q0,
        (CtValue::Float(p0), CtValue::Float(q0)) => *p0 == *q0,
        (CtValue::Bool(p0), CtValue::Bool(q0)) => *p0 == *q0,
        (CtValue::Str(p0), CtValue::Str(q0)) => same_string(p0, q0),
        (CtValue::Tuple(p0), CtValue::Tuple(q0)) => same_ct_value_list(p0, q0),
        (CtValue::List(p0), CtValue::List(q0)) => same_ct_value_list(p0, q0),
        (CtValue::Type(p0), CtValue::Type(q0)) => same_ty((&**p0), (&**q0)),
        (CtValue::Reflected(p0), CtValue::Reflected(q0)) => same_ty((&**p0), (&**q0)),
        (CtValue::Param(p0), CtValue::Param(q0)) => same_string(p0, q0),
        _ => false,
    }
}

pub fn same_ty_list(a: &Vec<Ty>, b: &Vec<Ty>) -> (r: bool)
    ensures
        r == (ty_list_view(a@) == ty_list_view(b@)),
    decreases a@,
{
    if a.len() != b.len() {
        assert(ty_list_view(a@).len() != ty_list_view(b@).len());
        return false;
    }
    for i in 0..a.len()
        invariant
            a@.len() == b@.len(),
            forall|j: int| 0 <= j < i ==> ty_view((#[trigger] a@[j])) == ty_view(b@[j]),
    {
        if !(same_ty((&a[i]), (&b[i]))) {
            assert(ty_list_view(a@)[i as int] != ty_list_view(b@)[i as int]);
            return false;
        }
    }
    assert(ty_list_view(a@) =~= ty_list_view(b@));
    true
}

pub fn same_ty_arg_list(a: &Vec<TyArg>, b: &Vec<TyArg>) -> (r: bool)
    ensures
        r == (ty_arg_list_view(a@) == ty_arg_list_view(b@)),
    decreases a@,
{
    if a.len() != b.len() {
        assert(ty_arg_list_view(a@).len() != ty_arg_list_view(b@).len());
        return false;
    }
    for i in 0..a.len()
        invariant
            a@.len() == b@.len(),
            forall|j: int| 0 <= j < i ==> ty_arg_view((#[trigger] a@[j])) == ty_arg_view(b@[j]),
    {
        if !(same_ty_arg((&a[i]), (&b[i]))) {
            assert(ty_arg_list_view(a@)[i as int] != ty_arg_list_view(b@)[i as int]);
            return false;
        }
    }
    assert(ty_arg_list_view(a@) =~= ty_arg_list_view(b@));
    true
}

pub fn same_ct_value_list(a: &Vec<CtValue>, b: &Vec<CtValue>) -> (r: bool)
    ensures
        r == (ct_value_list_view(a@) == ct_value_list_view(b@)),
    decreases a@,
{
    if a.len() != b.len() {
        assert(ct_value_list_view(a@).len() != ct_value_list_view(b@).len());
        return false;
    }
    for i in 0..a.len()
        invariant
            a@.len() == b@.len(),
            forall|j: int| 0 <= j < i ==> ct_value_view((#[trigger] a@[j])) == ct_value_view(b@[j]),
    {
        if !(same_ct_value((&a[i]), (&b[i]))) {
            assert(ct_value_list_view(a@)[i as int] != ct_value_list_view(b@)[i as int]);
            return false;
        }
    }
    assert(ct_value_list_view(a@) =~= ct_value_list_view(b@));
    true
}

} // verus!
