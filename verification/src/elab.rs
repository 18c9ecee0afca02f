//! What compile-time evaluation knows of a program, and its errors.

use crate::ast::{
    Expr, ExprKind, ExprKindView, ExprView, InfixOp, Param, ParamArg, ParamArgView, ParamView,
    PrefixOp, Stmt, StmtKind, StmtKindView, StmtView, StructComptime, StructComptimeView, Type,
    TypeParam, TypeParamView, TypeView, branch_list_view, clone_param_list, clone_stmt,
    clone_stmt_list, clone_struct_comptime_list, param_arg_list_view, param_list_view,
    stmt_list_view, stmt_view, struct_comptime_list_view, type_param_list_view, unfold_expr_kind,
    unfold_stmt_kind, unfold_type,
};
use crate::ct::{literal_ct_value, literal_value};
use crate::flatten::{following_index, next_index};
use crate::nested::{names_of_params, param_names};
use crate::packs::{begins_with_star, starts_with_star};
use crate::text::{
    cat2, cat3, clone_string_list, opt_view, same_string, same_text, string_list_view,
};
use crate::types::{
    CtExpr, CtExprView, CtValue, CtValueView, ParamDecl, ParamDeclView, Ty, TyView,
    binding_list_view, clone_binding_list, clone_ct_value, clone_ct_value_list,
    clone_param_decl_list, clone_ty, ct_value_list_view, ct_value_view, param_decl_list_view,
    same_ct_value_list, ty_list_view, unfold_ct_value, unfold_param_decl, unfold_ty,
};
use crate::values::Value;
use vstd::prelude::*;

verus! {

/// A top-level function that can be called at compile time.
#[derive(Debug, PartialEq, Eq)]
pub struct CtFn {
    pub name: String,
    pub ct_params: Vec<ParamDecl>,
    pub params: Vec<String>,
    pub body: Vec<Stmt>,
}

/// What a [`CtFn`] holds.
pub struct CtFnView {
    pub name: Seq<char>,
    pub ct_params: Seq<ParamDeclView>,
    pub params: Seq<Seq<char>>,
    pub body: Seq<StmtView>,
}

/// What is known of a top-level struct at compile time.
#[derive(Debug, PartialEq, Eq)]
pub struct CtStruct {
    pub name: String,
    pub decls: Vec<ParamDecl>,
    pub associated: Vec<StructComptime>,
    pub fields: Vec<Param>,
}

/// What a [`CtStruct`] holds.
pub struct CtStructView {
    pub name: Seq<char>,
    pub decls: Seq<ParamDeclView>,
    pub associated: Seq<StructComptimeView>,
    pub fields: Seq<ParamView>,
}

/// A generic function that is specialized for each call of it.
#[derive(Debug, PartialEq, Eq)]
pub struct Template {
    pub name: String,
    pub def: Stmt,
}

/// What a [`Template`] holds.
pub struct TemplateView {
    pub name: Seq<char>,
    pub def: StmtView,
}

/// What came of a function run at compile time.
#[derive(Debug, PartialEq, Eq)]
#[allow(inconsistent_fields)]
pub enum CtOutcome {
    Value(CtValue),
    /// The function gave nothing back.
    Nothing,
    /// The function gave back something that is no compile-time value.
    Other(String),
    /// The run failed.
    Failed(String),
    /// There was nothing to run: the called function could not be made ready.
    Stopped(ComptimeError),
}

/// What a [`CtOutcome`] holds.
#[allow(inconsistent_fields)]
pub enum CtOutcomeView {
    Value(CtValueView),
    Nothing,
    Other(Seq<char>),
    Failed(Seq<char>),
    Stopped(ComptimeErrorView),
}

/// The answer to a call at compile time.
#[derive(Debug, PartialEq, Eq)]
pub struct CtReply {
    /// The function that was called.
    pub name: String,
    /// The values of its compile-time parameters.
    pub values: Vec<CtValue>,
    pub args: Vec<CtValue>,
    pub outcome: CtOutcome,
    /// How many steps it took to make the called function ready.
    pub folding: usize,
    /// How many steps the run took.
    pub steps: usize,
}

/// What a [`CtReply`] holds.
pub struct CtReplyView {
    pub name: Seq<char>,
    pub values: Seq<CtValueView>,
    pub args: Seq<CtValueView>,
    pub outcome: CtOutcomeView,
    pub folding: usize,
    pub steps: usize,
}

/// A call at compile time that has to be run.
#[derive(Debug, PartialEq, Eq)]
pub struct CtCall {
    pub name: String,
    /// The values of the compile-time parameters, types among them.
    pub values: Vec<CtValue>,
    /// The functions the run can reach.
    pub needed: Vec<String>,
    /// The values of the compile-time parameters and of the arguments.
    pub locals: Vec<(String, CtValue)>,
    /// The compile-time parameters that are values.
    pub value_params: Vec<(String, CtValue)>,
    pub args: Vec<CtValue>,
    /// How many steps the run may take.
    pub fuel: usize,
}

/// What a [`CtCall`] holds.
pub struct CtCallView {
    pub name: Seq<char>,
    pub values: Seq<CtValueView>,
    pub needed: Seq<Seq<char>>,
    pub locals: Seq<(Seq<char>, CtValueView)>,
    pub value_params: Seq<(Seq<char>, CtValueView)>,
    pub args: Seq<CtValueView>,
    pub fuel: usize,
}

/// Why elaboration stopped.
#[derive(Debug, PartialEq, Eq)]
#[allow(inconsistent_fields)]
pub enum ComptimeError {
    /// An expression that has no compile-time value.
    NotComptime(String),
    /// A condition that is no `Bool`.
    NotBool(String),
    /// A value that had to be an `Int`.
    NotInt(String),
    /// Overflow, division by zero, a negative exponent, an index out of range.
    BadArithmetic(String),
    /// A `comptime for` over something else than a range, tuple or list.
    BadRange(String),
    /// A call with the wrong number of arguments.
    Arity(String),
    /// More steps than allowed.
    QuotaExceeded,
    /// A call that has to be run before elaboration can go on.
    Pending(CtCall),
}

/// What a [`ComptimeError`] holds.
#[allow(inconsistent_fields)]
pub enum ComptimeErrorView {
    NotComptime(Seq<char>),
    NotBool(Seq<char>),
    NotInt(Seq<char>),
    BadArithmetic(Seq<char>),
    BadRange(Seq<char>),
    Arity(Seq<char>),
    QuotaExceeded,
    Pending(CtCallView),
}

/// What compile-time evaluation knows of a program.
#[derive(Debug, PartialEq, Eq)]
pub struct CtContext {
    pub program: Vec<Stmt>,
    pub fns: Vec<CtFn>,
    pub structs: Vec<CtStruct>,
    pub templates: Vec<Template>,
    /// The answers to calls that have been run.
    pub replies: Vec<CtReply>,
}

/// What a [`CtContext`] holds.
pub struct CtContextView {
    pub program: Seq<StmtView>,
    pub fns: Seq<CtFnView>,
    pub structs: Seq<CtStructView>,
    pub templates: Seq<TemplateView>,
    pub replies: Seq<CtReplyView>,
}

/// Why an evaluation stopped, and where.
#[derive(Debug, PartialEq, Eq)]
pub struct Halt {
    pub error: ComptimeError,
    /// Steps left.
    pub fuel: usize,
}

/// What a [`Halt`] holds.
pub struct HaltView {
    pub error: ComptimeErrorView,
    pub fuel: usize,
}

pub open spec fn ct_fn_view(x: CtFn) -> CtFnView
    decreases x,
{
    CtFnView {
        name: x.name@,
        ct_params: param_decl_list_view(x.ct_params@),
        params: string_list_view(x.params@),
        body: stmt_list_view(x.body@),
    }
}

impl View for CtFn {
    type V = CtFnView;

    open spec fn view(&self) -> CtFnView {
        ct_fn_view(*self)
    }
}

pub fn clone_ct_fn(x: &CtFn) -> (r: CtFn)
    ensures
        ct_fn_view(r) == ct_fn_view(*x),
    decreases x,
{
    let r = CtFn {
        name: (&x.name).clone(),
        ct_params: clone_param_decl_list((&x.ct_params)),
        params: clone_string_list((&x.params)),
        body: clone_stmt_list((&x.body)),
    };
    proof {
        unfold_ct_fn(*x);
        unfold_ct_fn(r);
    }
    r
}

impl Clone for CtFn {
    fn clone(&self) -> (r: Self)
        ensures
            r@ == self@,
    {
        clone_ct_fn(self)
    }
}

pub open spec fn ct_struct_view(x: CtStruct) -> CtStructView
    decreases x,
{
    CtStructView {
        name: x.name@,
        decls: param_decl_list_view(x.decls@),
        associated: struct_comptime_list_view(x.associated@),
        fields: param_list_view(x.fields@),
    }
}

impl View for CtStruct {
    type V = CtStructView;

    open spec fn view(&self) -> CtStructView {
        ct_struct_view(*self)
    }
}

pub fn clone_ct_struct(x: &CtStruct) -> (r: CtStruct)
    ensures
        ct_struct_view(r) == ct_struct_view(*x),
    decreases x,
{
    let r = CtStruct {
        name: (&x.name).clone(),
        decls: clone_param_decl_list((&x.decls)),
        associated: clone_struct_comptime_list((&x.associated)),
        fields: clone_param_list((&x.fields)),
    };
    proof {
        unfold_ct_struct(*x);
        unfold_ct_struct(r);
    }
    r
}

impl Clone for CtStruct {
    fn clone(&self) -> (r: Self)
        ensures
            r@ == self@,
    {
        clone_ct_struct(self)
    }
}

pub open spec fn template_view(x: Template) -> TemplateView
    decreases x,
{
    TemplateView {
        name: x.name@,
        def: stmt_view(x.def),
    }
}

impl View for Template {
    type V = TemplateView;

    open spec fn view(&self) -> TemplateView {
        template_view(*self)
    }
}

pub fn clone_template(x: &Template) -> (r: Template)
    ensures
        template_view(r) == template_view(*x),
    decreases x,
{
    Template {
        name: (&x.name).clone(),
        def: clone_stmt((&x.def)),
    }
}

impl Clone for Template {
    fn clone(&self) -> (r: Self)
        ensures
            r@ == self@,
    {
        clone_template(self)
    }
}

pub open spec fn ct_outcome_view(x: CtOutcome) -> CtOutcomeView
    decreases x,
{
    match x {
        CtOutcome::Value(a0) => CtOutcomeView::Value(ct_value_view(a0)),
        CtOutcome::Nothing => CtOutcomeView::Nothing,
        CtOutcome::Other(a0) => CtOutcomeView::Other(a0@),
        CtOutcome::Failed(a0) => CtOutcomeView::Failed(a0@),
        CtOutcome::Stopped(a0) => CtOutcomeView::Stopped(comptime_error_view(a0)),
    }
}

impl View for CtOutcome {
    type V = CtOutcomeView;

    open spec fn view(&self) -> CtOutcomeView {
        ct_outcome_view(*self)
    }
}

pub fn clone_ct_outcome(x: &CtOutcome) -> (r: CtOutcome)
    ensures
        ct_outcome_view(r) == ct_outcome_view(*x),
    decreases x,
{
    match x {
        CtOutcome::Value(a0) => CtOutcome::Value(clone_ct_value(a0)),
        CtOutcome::Nothing => CtOutcome::Nothing,
        CtOutcome::Other(a0) => CtOutcome::Other(a0.clone()),
        CtOutcome::Failed(a0) => CtOutcome::Failed(a0.clone()),
        CtOutcome::Stopped(a0) => CtOutcome::Stopped(clone_comptime_error(a0)),
    }
}

impl Clone for CtOutcome {
    fn clone(&self) -> (r: Self)
        ensures
            r@ == self@,
    {
        clone_ct_outcome(self)
    }
}

pub open spec fn ct_reply_view(x: CtReply) -> CtReplyView
    decreases x,
{
    CtReplyView {
        name: x.name@,
        values: ct_value_list_view(x.values@),
        args: ct_value_list_view(x.args@),
        outcome: ct_outcome_view(x.outcome),
        folding: x.folding,
        steps: x.steps,
    }
}

impl View for CtReply {
    type V = CtReplyView;

    open spec fn view(&self) -> CtReplyView {
        ct_reply_view(*self)
    }
}

pub fn clone_ct_reply(x: &CtReply) -> (r: CtReply)
    ensures
        ct_reply_view(r) == ct_reply_view(*x),
    decreases x,
{
    let r = CtReply {
        name: (&x.name).clone(),
        values: clone_ct_value_list((&x.values)),
        args: clone_ct_value_list((&x.args)),
        outcome: clone_ct_outcome((&x.outcome)),
        folding: x.folding,
        steps: x.steps,
    };
    proof {
        unfold_ct_reply(*x);
        unfold_ct_reply(r);
    }
    r
}

impl Clone for CtReply {
    fn clone(&self) -> (r: Self)
        ensures
            r@ == self@,
    {
        clone_ct_reply(self)
    }
}

pub open spec fn ct_call_view(x: CtCall) -> CtCallView
    decreases x,
{
    CtCallView {
        name: x.name@,
        values: ct_value_list_view(x.values@),
        needed: string_list_view(x.needed@),
        locals: binding_list_view(x.locals@),
        value_params: binding_list_view(x.value_params@),
        args: ct_value_list_view(x.args@),
        fuel: x.fuel,
    }
}

impl View for CtCall {
    type V = CtCallView;

    open spec fn view(&self) -> CtCallView {
        ct_call_view(*self)
    }
}

pub fn clone_ct_call(x: &CtCall) -> (r: CtCall)
    ensures
        ct_call_view(r) == ct_call_view(*x),
    decreases x,
{
    let r = CtCall {
        name: (&x.name).clone(),
        values: clone_ct_value_list((&x.values)),
        needed: clone_string_list((&x.needed)),
        locals: clone_binding_list((&x.locals)),
        value_params: clone_binding_list((&x.value_params)),
        args: clone_ct_value_list((&x.args)),
        fuel: x.fuel,
    };
    proof {
        unfold_ct_call(*x);
        unfold_ct_call(r);
    }
    r
}

impl Clone for CtCall {
    fn clone(&self) -> (r: Self)
        ensures
            r@ == self@,
    {
        clone_ct_call(self)
    }
}

pub open spec fn comptime_error_view(x: ComptimeError) -> ComptimeErrorView
    decreases x,
{
    match x {
        ComptimeError::NotComptime(a0) => ComptimeErrorView::NotComptime(a0@),
        ComptimeError::NotBool(a0) => ComptimeErrorView::NotBool(a0@),
        ComptimeError::NotInt(a0) => ComptimeErrorView::NotInt(a0@),
        ComptimeError::BadArithmetic(a0) => ComptimeErrorView::BadArithmetic(a0@),
        ComptimeError::BadRange(a0) => ComptimeErrorView::BadRange(a0@),
        ComptimeError::Arity(a0) => ComptimeErrorView::Arity(a0@),
        ComptimeError::QuotaExceeded => ComptimeErrorView::QuotaExceeded,
        ComptimeError::Pending(a0) => ComptimeErrorView::Pending(ct_call_view(a0)),
    }
}

impl View for ComptimeError {
    type V = ComptimeErrorView;

    open spec fn view(&self) -> ComptimeErrorView {
        comptime_error_view(*self)
    }
}

pub fn clone_comptime_error(x: &ComptimeError) -> (r: ComptimeError)
    ensures
        comptime_error_view(r) == comptime_error_view(*x),
    decreases x,
{
    match x {
        ComptimeError::NotComptime(a0) => ComptimeError::NotComptime(a0.clone()),
        ComptimeError::NotBool(a0) => ComptimeError::NotBool(a0.clone()),
        ComptimeError::NotInt(a0) => ComptimeError::NotInt(a0.clone()),
        ComptimeError::BadArithmetic(a0) => ComptimeError::BadArithmetic(a0.clone()),
        ComptimeError::BadRange(a0) => ComptimeError::BadRange(a0.clone()),
        ComptimeError::Arity(a0) => ComptimeError::Arity(a0.clone()),
        ComptimeError::QuotaExceeded => ComptimeError::QuotaExceeded,
        ComptimeError::Pending(a0) => ComptimeError::Pending(clone_ct_call(a0)),
    }
}

impl Clone for ComptimeError {
    fn clone(&self) -> (r: Self)
        ensures
            r@ == self@,
    {
        clone_comptime_error(self)
    }
}

pub open spec fn ct_context_view(x: CtContext) -> CtContextView
    decreases x,
{
    CtContextView {
        program: stmt_list_view(x.program@),
        fns: ct_fn_list_view(x.fns@),
        structs: ct_struct_list_view(x.structs@),
        templates: template_list_view(x.templates@),
        replies: ct_reply_list_view(x.replies@),
    }
}

impl View for CtContext {
    type V = CtContextView;

    open spec fn view(&self) -> CtContextView {
        ct_context_view(*self)
    }
}

pub fn clone_ct_context(x: &CtContext) -> (r: CtContext)
    ensures
        ct_context_view(r) == ct_context_view(*x),
    decreases x,
{
    let r = CtContext {
        program: clone_stmt_list((&x.program)),
        fns: clone_ct_fn_list((&x.fns)),
        structs: clone_ct_struct_list((&x.structs)),
        templates: clone_template_list((&x.templates)),
        replies: clone_ct_reply_list((&x.replies)),
    };
    proof {
        unfold_ct_context(*x);
        unfold_ct_context(r);
    }
    r
}

impl Clone for CtContext {
    fn clone(&self) -> (r: Self)
        ensures
            r@ == self@,
    {
        clone_ct_context(self)
    }
}

pub open spec fn halt_view(x: Halt) -> HaltView
    decreases x,
{
    HaltView {
        error: comptime_error_view(x.error),
        fuel: x.fuel,
    }
}

impl View for Halt {
    type V = HaltView;

    open spec fn view(&self) -> HaltView {
        halt_view(*self)
    }
}

pub fn clone_halt(x: &Halt) -> (r: Halt)
    ensures
        halt_view(r) == halt_view(*x),
    decreases x,
{
    Halt {
        error: clone_comptime_error((&x.error)),
        fuel: x.fuel,
    }
}

impl Clone for Halt {
    fn clone(&self) -> (r: Self)
        ensures
            r@ == self@,
    {
        clone_halt(self)
    }
}

pub open spec fn ct_fn_list_view(s: Seq<CtFn>) -> Seq<CtFnView>
    decreases s,
{
    Seq::new(s.len(), |i: int| if 0 <= i < s.len() { ct_fn_view(s[i]) } else { arbitrary() })
}

pub fn clone_ct_fn_list(v: &Vec<CtFn>) -> (r: Vec<CtFn>)
    ensures
        ct_fn_list_view(r@) == ct_fn_list_view(v@),
        r@.len() == v@.len(),
    decreases v@,
{
    let mut r: Vec<CtFn> = Vec::new();
    for i in 0..v.len()
        invariant
            r@.len() == i,
            forall|j: int| 0 <= j < i ==> ct_fn_view((#[trigger] r@[j])) == ct_fn_view(v@[j]),
    {
        r.push(clone_ct_fn((&v[i])));
    }
    assert(ct_fn_list_view(r@) =~= ct_fn_list_view(v@));
    r
}

pub open spec fn ct_struct_list_view(s: Seq<CtStruct>) -> Seq<CtStructView>
    decreases s,
{
    Seq::new(s.len(), |i: int| if 0 <= i < s.len() { ct_struct_view(s[i]) } else { arbitrary() })
}

pub fn clone_ct_struct_list(v: &Vec<CtStruct>) -> (r: Vec<CtStruct>)
    ensures
        ct_struct_list_view(r@) == ct_struct_list_view(v@),
        r@.len() == v@.len(),
    decreases v@,
{
    let mut r: Vec<CtStruct> = Vec::new();
    for i in 0..v.len()
        invariant
            r@.len() == i,
            forall|j: int| 0 <= j < i ==> ct_struct_view((#[trigger] r@[j])) == ct_struct_view(v@[j]),
    {
        r.push(clone_ct_struct((&v[i])));
    }
    assert(ct_struct_list_view(r@) =~= ct_struct_list_view(v@));
    r
}

pub open spec fn template_list_view(s: Seq<Template>) -> Seq<TemplateView>
    decreases s,
{
    Seq::new(s.len(), |i: int| if 0 <= i < s.len() { template_view(s[i]) } else { arbitrary() })
}

pub fn clone_template_list(v: &Vec<Template>) -> (r: Vec<Template>)
    ensures
        template_list_view(r@) == template_list_view(v@),
        r@.len() == v@.len(),
    decreases v@,
{
    let mut r: Vec<Template> = Vec::new();
    for i in 0..v.len()
        invariant
            r@.len() == i,
            forall|j: int| 0 <= j < i ==> template_view((#[trigger] r@[j])) == template_view(v@[j]),
    {
        r.push(clone_template((&v[i])));
    }
    assert(template_list_view(r@) =~= template_list_view(v@));
    r
}

pub open spec fn ct_reply_list_view(s: Seq<CtReply>) -> Seq<CtReplyView>
    decreases s,
{
    Seq::new(s.len(), |i: int| if 0 <= i < s.len() { ct_reply_view(s[i]) } else { arbitrary() })
}

pub fn clone_ct_reply_list(v: &Vec<CtReply>) -> (r: Vec<CtReply>)
    ensures
        ct_reply_list_view(r@) == ct_reply_list_view(v@),
        r@.len() == v@.len(),
    decreases v@,
{
    let mut r: Vec<CtReply> = Vec::new();
    for i in 0..v.len()
        invariant
            r@.len() == i,
            forall|j: int| 0 <= j < i ==> ct_reply_view((#[trigger] r@[j])) == ct_reply_view(v@[j]),
    {
        r.push(clone_ct_reply((&v[i])));
    }
    assert(ct_reply_list_view(r@) =~= ct_reply_list_view(v@));
    r
}

pub proof fn unfold_ct_fn(x: CtFn)
    ensures
        ct_fn_view(x) == (CtFnView { name: x.name@, ct_params: param_decl_list_view(x.ct_params@), params: string_list_view(x.params@), body: stmt_list_view(x.body@) }),
{
        assert(ct_fn_view(x).ct_params =~= param_decl_list_view(x.ct_params@));
        assert(ct_fn_view(x).params =~= string_list_view(x.params@));
        assert(ct_fn_view(x).body =~= stmt_list_view(x.body@));
}

pub proof fn unfold_ct_struct(x: CtStruct)
    ensures
        ct_struct_view(x) == (CtStructView { name: x.name@, decls: param_decl_list_view(x.decls@), associated: struct_comptime_list_view(x.associated@), fields: param_list_view(x.fields@) }),
{
        assert(ct_struct_view(x).decls =~= param_decl_list_view(x.decls@));
        assert(ct_struct_view(x).associated =~= struct_comptime_list_view(x.associated@));
        assert(ct_struct_view(x).fields =~= param_list_view(x.fields@));
}

pub proof fn unfold_ct_reply(x: CtReply)
    ensures
        ct_reply_view(x) == (CtReplyView { name: x.name@, values: ct_value_list_view(x.values@), args: ct_value_list_view(x.args@), outcome: ct_outcome_view(x.outcome), folding: x.folding, steps: x.steps }),
{
        assert(ct_reply_view(x).values =~= ct_value_list_view(x.values@));
        assert(ct_reply_view(x).args =~= ct_value_list_view(x.args@));
}

pub proof fn unfold_ct_call(x: CtCall)
    ensures
        ct_call_view(x) == (CtCallView { name: x.name@, values: ct_value_list_view(x.values@), needed: string_list_view(x.needed@), locals: binding_list_view(x.locals@), value_params: binding_list_view(x.value_params@), args: ct_value_list_view(x.args@), fuel: x.fuel }),
{
        assert(ct_call_view(x).values =~= ct_value_list_view(x.values@));
        assert(ct_call_view(x).needed =~= string_list_view(x.needed@));
        assert(ct_call_view(x).locals =~= binding_list_view(x.locals@));
        assert(ct_call_view(x).value_params =~= binding_list_view(x.value_params@));
        assert(ct_call_view(x).args =~= ct_value_list_view(x.args@));
}

pub proof fn unfold_ct_context(x: CtContext)
    ensures
        ct_context_view(x) == (CtContextView { program: stmt_list_view(x.program@), fns: ct_fn_list_view(x.fns@), structs: ct_struct_list_view(x.structs@), templates: template_list_view(x.templates@), replies: ct_reply_list_view(x.replies@) }),
{
        assert(ct_context_view(x).program =~= stmt_list_view(x.program@));
        assert(ct_context_view(x).fns =~= ct_fn_list_view(x.fns@));
        assert(ct_context_view(x).structs =~= ct_struct_list_view(x.structs@));
        assert(ct_context_view(x).templates =~= template_list_view(x.templates@));
        assert(ct_context_view(x).replies =~= ct_reply_list_view(x.replies@));
}

/// The largest number of steps for a whole program.
#[verifier::opaque]
pub open spec fn step_quota() -> usize {
    100000
}

/// See [`step_quota`].
pub fn quota() -> (r: usize)
    ensures
        r == step_quota(),
{
    proof { reveal(step_quota); }
    100000
}

/// One more than the largest number of steps.
#[verifier::opaque]
pub open spec fn past_quota() -> usize {
    100001
}

/// See [`past_quota`].
pub fn step_limit() -> (r: usize)
    ensures
        r == past_quota(),
{
    proof { reveal(past_quota); }
    100001
}

#[verifier::opaque]
pub open spec fn no_comptime(message: Seq<char>) -> ComptimeErrorView {
    ComptimeErrorView::NotComptime(message)
}

/// See [`no_comptime`].
pub fn not_comptime(message: String) -> (r: ComptimeError)
    ensures
        r@ == no_comptime(message@),
{
    proof { reveal(no_comptime); }
    ComptimeError::NotComptime(message)
}

/// What an error says.
#[verifier::opaque]
pub open spec fn error_text(error: ComptimeErrorView) -> Seq<char> {
    match error {
        ComptimeErrorView::NotComptime(text) => "not a compile-time value: "@ + text,
        ComptimeErrorView::NotBool(text) => "expected a compile-time Bool ("@ + text + ")"@,
        ComptimeErrorView::NotInt(text) => "expected a compile-time Int ("@ + text + ")"@,
        ComptimeErrorView::BadArithmetic(text) => "compile-time arithmetic error: "@ + text,
        ComptimeErrorView::BadRange(text) => "'comptime for' needs a range(...)/tuple/list: "@ + text,
        ComptimeErrorView::Arity(text) => "compile-time call arity: "@ + text,
        ComptimeErrorView::QuotaExceeded => "compile-time execution exceeded the step quota (100000)"@,
        ComptimeErrorView::Pending(call) => "compile-time call of '"@ + call.name + "' has not been run"@,
    }
}

/// See [`error_text`].
pub fn error_message(error: &ComptimeError) -> (r: String)
    ensures
        r@ == error_text(error@),
{
    proof { reveal(error_text); }
    match error {
        ComptimeError::NotComptime(text) => cat2("not a compile-time value: ", text.as_str()),
        ComptimeError::NotBool(text) => cat3("expected a compile-time Bool (", text.as_str(), ")"),
        ComptimeError::NotInt(text) => cat3("expected a compile-time Int (", text.as_str(), ")"),
        ComptimeError::BadArithmetic(text) => cat2("compile-time arithmetic error: ", text.as_str()),
        ComptimeError::BadRange(text) => cat2("'comptime for' needs a range(...)/tuple/list: ", text.as_str()),
        ComptimeError::Arity(text) => cat2("compile-time call arity: ", text.as_str()),
        ComptimeError::QuotaExceeded => "compile-time execution exceeded the step quota (100000)".to_owned(),
        ComptimeError::Pending(call) => cat3("compile-time call of '", &call.name.as_str(), "' has not been run"),
    }
}

/// A value as a boolean.
#[verifier::opaque]
pub open spec fn boolean_of(
    value: CtValueView,
    context: Seq<char>,
) -> Result<bool, ComptimeErrorView> {
    match value {
        CtValueView::Bool(b) => Ok(b),
        _ => Err(ComptimeErrorView::NotBool(context)),
    }
}

/// See [`boolean_of`].
pub fn as_bool(value: &CtValue, context: &str) -> (r: Result<bool, ComptimeError>)
    ensures
        (match r { Ok(v) => Ok(v), Err(v) => Err(v@) }) == boolean_of(value@, context@),
{
    proof { reveal(boolean_of); }
    proof { unfold_ct_value(*value); }
    match value {
        CtValue::Bool(b) => Ok(*b),
        _ => {
            assert(!(value@ is Bool));
            Err(ComptimeError::NotBool(context.to_owned()))
        },
    }
}

/// A value as an integer.
#[verifier::opaque]
pub open spec fn integer_of(
    value: CtValueView,
    context: Seq<char>,
) -> Result<i64, ComptimeErrorView> {
    match value {
        CtValueView::Int(n) => Ok(n),
        _ => Err(ComptimeErrorView::NotInt(context)),
    }
}

/// See [`integer_of`].
pub fn as_int(value: &CtValue, context: &str) -> (r: Result<i64, ComptimeError>)
    ensures
        (match r { Ok(v) => Ok(v), Err(v) => Err(v@) }) == integer_of(value@, context@),
{
    proof { reveal(integer_of); }
    proof { unfold_ct_value(*value); }
    match value {
        CtValue::Int(n) => Ok(*n),
        _ => {
            assert(!(value@ is Int));
            Err(ComptimeError::NotInt(context.to_owned()))
        },
    }
}

/// The elements of a tuple or list.
#[verifier::opaque]
pub open spec fn sequence_of(
    value: CtValueView,
    context: Seq<char>,
) -> Result<Seq<CtValueView>, ComptimeErrorView> {
    match value {
        CtValueView::Tuple(values) => Ok(values),
        CtValueView::List(values) => Ok(values),
        _ => Err(ComptimeErrorView::BadRange(context)),
    }
}

/// See [`sequence_of`].
pub fn as_sequence(value: &CtValue, context: &str) -> (r: Result<Vec<CtValue>, ComptimeError>)
    ensures
        (
            match r { Ok(v) => Ok(ct_value_list_view(v@)), Err(v) => Err(v@) }
        ) == sequence_of(value@, context@),
{
    proof { reveal(sequence_of); }
    proof { unfold_ct_value(*value); }
    match value {
        CtValue::Tuple(values) => Ok(clone_ct_value_list(values)),
        CtValue::List(values) => Ok(clone_ct_value_list(values)),
        _ => {
            assert(!(value@ is Tuple));
            assert(!(value@ is List));
            Err(ComptimeError::BadRange(context.to_owned()))
        },
    }
}

/// One step less.
#[verifier::opaque]
pub open spec fn burnt(fuel: usize) -> Result<usize, ComptimeErrorView> {
    if fuel > 0 {
        Ok((fuel - 1) as usize)
    } else {
        Err(ComptimeErrorView::QuotaExceeded)
    }
}

/// See [`burnt`].
pub fn burn(fuel: usize) -> (r: Result<usize, ComptimeError>)
    ensures
        (match r { Ok(v) => Ok(v), Err(v) => Err(v@) }) == burnt(fuel),
{
    proof { reveal(burnt); }
    if fuel > 0 {
        Ok(fuel - 1)
    } else {
        Err(ComptimeError::QuotaExceeded)
    }
}

/// The scalar type of a name.
#[verifier::opaque]
pub open spec fn scalar_named(name: Seq<char>) -> Option<TyView> {
    if name == "Int"@ {
        Some(TyView::Int)
    } else if name == "UInt"@ {
        Some(TyView::UInt)
    } else if name == "Bool"@ {
        Some(TyView::Bool)
    } else if name == "String"@ {
        Some(TyView::String)
    } else if name == "Float64"@ {
        Some(TyView::Float64)
    } else if name == "None"@ {
        Some(TyView::NoneTy)
    } else {
        None
    }
}

/// See [`scalar_named`].
pub fn scalar_type_name(name: &String) -> (r: Option<Ty>)
    ensures
        opt_view(r) == scalar_named(name@),
{
    proof { reveal(scalar_named); }
    if same_text(name.as_str(), "Int") {
        Some(Ty::Int)
    } else if same_text(name.as_str(), "UInt") {
        Some(Ty::UInt)
    } else if same_text(name.as_str(), "Bool") {
        Some(Ty::Bool)
    } else if same_text(name.as_str(), "String") {
        Some(Ty::String)
    } else if same_text(name.as_str(), "Float64") {
        Some(Ty::Float64)
    } else if same_text(name.as_str(), "None") {
        Some(Ty::NoneTy)
    } else {
        None
    }
}

/// The type of a value parameter whose bound has a name.
#[verifier::opaque]
pub open spec fn value_bound_type(name: Seq<char>) -> Option<TyView> {
    if name == "Int"@ {
        Some(TyView::Int)
    } else if name == "Bool"@ {
        Some(TyView::Bool)
    } else if name == "String"@ {
        Some(TyView::String)
    } else if name == "UInt"@ {
        Some(TyView::UInt)
    } else if name == "Float64"@ {
        Some(TyView::Float64)
    } else {
        None
    }
}

/// See [`value_bound_type`].
pub fn ct_value_param_type(name: &String) -> (r: Option<Ty>)
    ensures
        opt_view(r) == value_bound_type(name@),
{
    proof { reveal(value_bound_type); }
    if same_text(name.as_str(), "Int") {
        Some(Ty::Int)
    } else if same_text(name.as_str(), "Bool") {
        Some(Ty::Bool)
    } else if same_text(name.as_str(), "String") {
        Some(Ty::String)
    } else if same_text(name.as_str(), "UInt") {
        Some(Ty::UInt)
    } else if same_text(name.as_str(), "Float64") {
        Some(Ty::Float64)
    } else {
        None
    }
}

/// The type that a written type of a value parameter stands for: a scalar, or a
/// list or tuple of such.
pub open spec fn source_param_type(source: TypeView) -> Option<TyView>
    decreases source, 0nat,
{
    match source {
        TypeView::Int => Some(TyView::Int),
        TypeView::UInt => Some(TyView::UInt),
        TypeView::Bool => Some(TyView::Bool),
        TypeView::String => Some(TyView::String),
        TypeView::Float64 => Some(TyView::Float64),
        TypeView::NoneTy => Some(TyView::NoneTy),
        TypeView::Named(name, args) => if name == "List"@ && args.len() == 1 {
            match source_param_types(args, 0, Seq::empty()) {
                Some(types) => if types.len() == 1 {
                    Some(TyView::List(Box::new(type_at_front(types))))
                } else {
                    None
                },
                None => None,
            }
        } else if name == "Tuple"@ {
            match source_param_types(args, 0, Seq::empty()) {
                Some(types) => Some(TyView::Tuple(types)),
                None => None,
            }
        } else {
            None
        },
        _ => None,
    }
}

/// See [`source_param_type`].
pub fn ct_param_source_type(source: &Type) -> (r: Option<Ty>)
    ensures
        opt_view(r) == source_param_type(source@),
    decreases source, 0nat,
{
    proof { unfold_type(*source); }
    match source {
        Type::Int => Some(Ty::Int),
        Type::UInt => Some(Ty::UInt),
        Type::Bool => Some(Ty::Bool),
        Type::String => Some(Ty::String),
        Type::Float64 => Some(Ty::Float64),
        Type::NoneTy => Some(Ty::NoneTy),
        Type::Named(name, args) => {
            if same_text(name.as_str(), "List") && args.len() == 1 {
                match ct_param_source_types(args) {
                    Some(types) => {
                        if types.len() == 1 {
                            let ty = Ty::List(Box::new(first_type(types)));
                            proof { unfold_ty(ty); }
                            Some(ty)
                        } else {
                            None
                        }
                    },
                    None => None,
                }
            } else if same_text(name.as_str(), "Tuple") {
                match ct_param_source_types(args) {
                    Some(types) => {
                        let ty2 = Ty::Tuple(types);
                        proof { unfold_ty(ty2); }
                        Some(ty2)
                    },
                    None => None,
                }
            } else {
                None
            }
        },
        _ => {
            assert(!(source@ is Int));
            assert(!(source@ is UInt));
            assert(!(source@ is Bool));
            assert(!(source@ is String));
            assert(!(source@ is Float64));
            assert(!(source@ is NoneTy));
            assert(!(source@ is Named));
            None
        },
    }
}

#[verifier::opaque]
pub open spec fn type_at_front(types: Seq<TyView>) -> TyView {
    if types.len() > 0 {
        types[0]
    } else {
        TyView::NoneTy
    }
}

/// See [`type_at_front`].
pub fn first_type(types: Vec<Ty>) -> (r: Ty)
    ensures
        r@ == type_at_front(ty_list_view(types@)),
{
    proof { reveal(type_at_front); }
    if types.len() > 0 {
        clone_ty((&types[0]))
    } else {
        Ty::NoneTy
    }
}

pub open spec fn source_param_types(
    args: Seq<ParamArgView>,
    i: nat,
    out: Seq<TyView>,
) -> Option<Seq<TyView>>
    decreases args, (args.len() - i) as nat,
{
    if i >= args.len() {
        Some(out)
    } else {
        let arg = args[i as int];
        match source_param_arg(arg) {
            Some(ty) => {
                let out = out.push(ty);
                source_param_types(args, i + 1, out)
            },
            None => None,
        }
    }
}

/// See [`source_param_types`].
pub fn ct_param_source_types(args: &Vec<ParamArg>) -> (r: Option<Vec<Ty>>)
    ensures
        (
            match r { Some(v) => Some(ty_list_view(v@)), None => None }
        ) == source_param_types(param_arg_list_view(args@), 0, Seq::<TyView>::empty()),
    decreases args@, 0nat,
{
    let mut out: Vec<Ty> = Vec::new();
    assert(ty_list_view(out@) =~= Seq::<TyView>::empty());
    let ghost goal = source_param_types(param_arg_list_view(args@), 0, Seq::<TyView>::empty());
    let mut i: usize = 0;
    while i < args.len()
        invariant
            i <= args@.len(),
            param_arg_list_view(args@).len() == args@.len(),
            source_param_types(param_arg_list_view(args@), i as nat, ty_list_view(out@)) == goal,
            goal == source_param_types(param_arg_list_view(args@), 0, Seq::<TyView>::empty()),
        decreases args@.len() - i,
    {
        let arg = &args[i];
        assert(param_arg_list_view(args@)[i as int] == arg@);
        match ct_param_source_arg(arg) {
            Some(ty) => {
                let ghost before = ty_list_view(out@);
                let ghost added = ty@;
                out.push(ty);
                assert(ty_list_view(out@) =~= before.push(added));
            },
            None => {
                return None;
            },
        }
        i = i + 1;
    }
    Some(out)
}

pub open spec fn source_param_arg(arg: ParamArgView) -> Option<TyView>
    decreases arg, 0nat,
{
    match arg {
        ParamArgView::Type(ty) => source_param_type(ty),
        _ => None,
    }
}

/// See [`source_param_arg`].
pub fn ct_param_source_arg(arg: &ParamArg) -> (r: Option<Ty>)
    ensures
        opt_view(r) == source_param_arg(arg@),
    decreases arg, 0nat,
{
    match arg {
        ParamArg::Type(ty) => ct_param_source_type(ty),
        _ => {
            assert(!(arg@ is Type));
            None
        },
    }
}

/// An expression over compile-time parameters.
pub open spec fn dependent_expr(expr: ExprView) -> Option<CtExprView>
    decreases expr, 0nat,
{
    match expr.kind {
        ExprKindView::Identifier(name) => Some(CtExprView::Param(name)),
        ExprKindView::Prefix(op, value) => match op {
            PrefixOp::Neg => match dependent_expr(*value) {
                Some(value) => Some(CtExprView::Neg(Box::new(value))),
                None => None,
            },
            _ => dependent_literal(expr),
        },
        ExprKindView::Infix(op, left, right) => match dependent_expr(*left) {
            Some(left) => match dependent_expr(*right) {
                Some(right) => dependent_operation(op, left, right),
                None => None,
            },
            None => None,
        },
        _ => dependent_literal(expr),
    }
}

/// See [`dependent_expr`].
pub fn ct_expr_from_ast(expr: &Expr) -> (r: Option<CtExpr>)
    ensures
        opt_view(r) == dependent_expr(expr@),
    decreases expr, 0nat,
{
    proof { unfold_expr_kind(expr.kind); }
    match &expr.kind {
        ExprKind::Identifier(name) => Some(CtExpr::Param(name.clone())),
        ExprKind::Prefix(op, value) => {
            match op {
                PrefixOp::Neg => {
                    match ct_expr_from_ast(&**value) {
                        Some(value) => Some(CtExpr::Neg(Box::new(value))),
                        None => None,
                    }
                },
                _ => ct_literal(expr),
            }
        },
        ExprKind::Infix(op, left, right) => {
            match ct_expr_from_ast(&**left) {
                Some(left) => {
                    match ct_expr_from_ast(&**right) {
                        Some(right) => ct_operation(*op, left, right),
                        None => None,
                    }
                },
                None => None,
            }
        },
        _ => {
            assert(!(expr.kind@ is Identifier));
            assert(!(expr.kind@ is Prefix));
            assert(!(expr.kind@ is Infix));
            ct_literal(expr)
        },
    }
}

#[verifier::opaque]
pub open spec fn dependent_literal(expr: ExprView) -> Option<CtExprView> {
    match literal_value(expr) {
        Some(value) => Some(CtExprView::Value(value)),
        None => None,
    }
}

/// See [`dependent_literal`].
pub fn ct_literal(expr: &Expr) -> (r: Option<CtExpr>)
    ensures
        opt_view(r) == dependent_literal(expr@),
{
    proof { reveal(dependent_literal); }
    match literal_ct_value(expr) {
        Some(value) => Some(CtExpr::Value(value)),
        None => None,
    }
}

#[verifier::opaque]
pub open spec fn dependent_operation(
    op: InfixOp,
    left: CtExprView,
    right: CtExprView,
) -> Option<CtExprView> {
    match op {
        InfixOp::Add => Some(CtExprView::Add(Box::new(left), Box::new(right))),
        InfixOp::Sub => Some(CtExprView::Sub(Box::new(left), Box::new(right))),
        InfixOp::Mul => Some(CtExprView::Mul(Box::new(left), Box::new(right))),
        InfixOp::FloorDiv => Some(CtExprView::FloorDiv(Box::new(left), Box::new(right))),
        InfixOp::Mod => Some(CtExprView::Mod(Box::new(left), Box::new(right))),
        InfixOp::Pow => Some(CtExprView::Pow(Box::new(left), Box::new(right))),
        _ => None,
    }
}

/// See [`dependent_operation`].
pub fn ct_operation(op: InfixOp, left: CtExpr, right: CtExpr) -> (r: Option<CtExpr>)
    ensures
        opt_view(r) == dependent_operation(op, left@, right@),
{
    proof { reveal(dependent_operation); }
    match op {
        InfixOp::Add => Some(CtExpr::Add(Box::new(left), Box::new(right))),
        InfixOp::Sub => Some(CtExpr::Sub(Box::new(left), Box::new(right))),
        InfixOp::Mul => Some(CtExpr::Mul(Box::new(left), Box::new(right))),
        InfixOp::FloorDiv => Some(CtExpr::FloorDiv(Box::new(left), Box::new(right))),
        InfixOp::Mod => Some(CtExpr::Mod(Box::new(left), Box::new(right))),
        InfixOp::Pow => Some(CtExpr::Pow(Box::new(left), Box::new(right))),
        _ => None,
    }
}

#[verifier::opaque]
pub open spec fn dependent_default(default: Option<ExprView>) -> Option<CtExprView> {
    match default {
        Some(value) => dependent_expr(value),
        None => None,
    }
}

/// See [`dependent_default`].
pub fn default_expr(default: &Option<Expr>) -> (r: Option<CtExpr>)
    ensures
        opt_view(r) == dependent_default(opt_view(*default)),
{
    proof { reveal(dependent_default); }
    match default {
        Some(value) => ct_expr_from_ast(value),
        None => None,
    }
}

/// The type that the default of a type parameter stands for.
#[verifier::opaque]
pub open spec fn type_default(default: Option<ExprView>) -> Option<Box<TyView>> {
    match default {
        Some(value) => match value.kind {
            ExprKindView::Identifier(name) => type_boxed(scalar_named(name)),
            ExprKindView::TypeValue(ty) => type_boxed(source_param_type(ty)),
            _ => None,
        },
        None => None,
    }
}

/// See [`type_default`].
pub fn default_type(default: &Option<Expr>) -> (r: Option<Box<Ty>>)
    ensures
        (
            match r { Some(v) => Some(Box::new(v@)), None => None }
        ) == type_default(opt_view(*default)),
{
    proof { reveal(type_default); }
    match default {
        Some(value) => {
            proof { unfold_expr_kind(value.kind); }
            match &value.kind {
                ExprKind::Identifier(name) => boxed(scalar_type_name(name)),
                ExprKind::TypeValue(ty) => boxed(ct_param_source_type(ty)),
                _ => {
                    assert(!(value.kind@ is Identifier));
                    assert(!(value.kind@ is TypeValue));
                    None
                },
            }
        },
        None => None,
    }
}

#[verifier::opaque]
pub open spec fn type_boxed(ty: Option<TyView>) -> Option<Box<TyView>> {
    match ty {
        Some(ty) => Some(Box::new(ty)),
        None => None,
    }
}

/// See [`type_boxed`].
pub fn boxed(ty: Option<Ty>) -> (r: Option<Box<Ty>>)
    ensures
        (match r { Some(v) => Some(Box::new(v@)), None => None }) == type_boxed(opt_view(ty)),
{
    proof { reveal(type_boxed); }
    match ty {
        Some(ty) => Some(Box::new(ty)),
        None => None,
    }
}

/// The type of a parameter that takes values.
#[verifier::opaque]
pub open spec fn param_value_type(param: TypeParamView) -> Option<TyView> {
    let written = match param.value_type {
        Some(ty) => source_param_type(ty),
        None => None,
    };
    match written {
        Some(ty) => Some(ty),
        None => if param.bounds.len() == 1 {
            value_bound_type(param.bounds[0])
        } else {
            None
        },
    }
}

/// See [`param_value_type`].
pub fn value_type(param: &TypeParam) -> (r: Option<Ty>)
    ensures
        opt_view(r) == param_value_type(param@),
{
    proof { reveal(param_value_type); }
    let written = match &param.value_type {
        Some(ty) => ct_param_source_type(ty),
        None => None,
    };
    match written {
        Some(ty) => Some(ty),
        None => {
            if param.bounds.len() == 1 {
                ct_value_param_type(&param.bounds[0])
            } else {
                None
            }
        },
    }
}

#[verifier::opaque]
pub open spec fn ct_param(param: TypeParamView) -> ParamDeclView {
    match param_value_type(param) {
        Some(ty) => ParamDeclView::Value {
            name: param.name,
            ty: Box::new(ty),
            default: dependent_default(param.default),
            infer_only: param.infer_only,
            variadic: begins_with_star(param.name),
        },
        None => ParamDeclView::Type {
            name: param.name,
            bounds: param.bounds,
            default: type_default(param.default),
            infer_only: param.infer_only,
            variadic: begins_with_star(param.name),
        },
    }
}

/// See [`ct_param`].
pub fn classify_ct_param(param: &TypeParam) -> (r: ParamDecl)
    ensures
        r@ == ct_param(param@),
{
    proof { reveal(ct_param); }
    match value_type(param) {
        Some(ty) => {
            let decl = ParamDecl::Value {
                name: (&param.name).clone(),
                ty: Box::new(ty),
                default: default_expr(&param.default),
                infer_only: param.infer_only,
                variadic: starts_with_star(&param.name),
            };
            proof { unfold_param_decl(decl); }
            decl
        },
        None => {
            let decl2 = ParamDecl::Type {
                name: (&param.name).clone(),
                bounds: clone_string_list(&param.bounds),
                default: default_type(&param.default),
                infer_only: param.infer_only,
                variadic: starts_with_star(&param.name),
            };
            proof { unfold_param_decl(decl2); }
            decl2
        },
    }
}

/// The compile-time parameters of a declaration. Origins are none.
pub open spec fn ct_params(
    params: Seq<TypeParamView>,
    i: nat,
    out: Seq<ParamDeclView>,
) -> Seq<ParamDeclView>
    decreases params, (params.len() - i) as nat,
{
    if i >= params.len() {
        out
    } else {
        let param = params[i as int];
        if !(param.bounds.len() == 1 && param.bounds[0] == "Origin"@) {
            let out = out.push(ct_param(param));
            ct_params(params, i + 1, out)
        } else {
            ct_params(params, i + 1, out)
        }
    }
}

/// See [`ct_params`].
pub fn classify_ct_params(params: &Vec<TypeParam>) -> (r: Vec<ParamDecl>)
    ensures
        param_decl_list_view(r@) == ct_params(
            type_param_list_view(params@),
            0,
            Seq::<ParamDeclView>::empty(),
        ),
    decreases params@, 0nat,
{
    let mut out: Vec<ParamDecl> = Vec::new();
    assert(param_decl_list_view(out@) =~= Seq::<ParamDeclView>::empty());
    let ghost goal = ct_params(type_param_list_view(params@), 0, Seq::<ParamDeclView>::empty());
    let mut i: usize = 0;
    while i < params.len()
        invariant
            i <= params@.len(),
            type_param_list_view(params@).len() == params@.len(),
            ct_params(type_param_list_view(params@), i as nat, param_decl_list_view(out@)) == goal,
            goal == ct_params(type_param_list_view(params@), 0, Seq::<ParamDeclView>::empty()),
        decreases params@.len() - i,
    {
        let param = &params[i];
        assert(type_param_list_view(params@)[i as int] == param@);
        if !(param.bounds.len() == 1 && same_text(&param.bounds[0].as_str(), "Origin")) {
            let item = classify_ct_param(param);
            let ghost before = param_decl_list_view(out@);
            let ghost added = item@;
            out.push(item);
            assert(param_decl_list_view(out@) =~= before.push(added));
        }
        i = i + 1;
    }
    out
}

#[verifier::opaque]
pub open spec fn name_of_decl(decl: ParamDeclView) -> Seq<char> {
    match decl {
        ParamDeclView::Type { name, .. } => name,
        ParamDeclView::Value { name, .. } => name,
    }
}

/// See [`name_of_decl`].
pub fn decl_name(decl: &ParamDecl) -> (r: String)
    ensures
        r@ == name_of_decl(decl@),
{
    proof { reveal(name_of_decl); }
    proof { unfold_param_decl(*decl); }
    match decl {
        ParamDecl::Type { name, .. } => name.clone(),
        ParamDecl::Value { name, .. } => name.clone(),
    }
}

/// Whether a block holds a `comptime if` or `comptime for`, nested declarations left
/// out.
pub open spec fn block_comptime(body: Seq<StmtView>, i: nat) -> bool
    decreases body, (body.len() - i) as nat,
{
    if i >= body.len() {
        false
    } else {
        let stmt = body[i as int];
        if stmt_comptime(stmt) {
            true
        } else {
            block_comptime(body, i + 1)
        }
    }
}

/// See [`block_comptime`].
pub fn block_has_comptime(body: &Vec<Stmt>) -> (r: bool)
    ensures
        r == block_comptime(stmt_list_view(body@), 0),
    decreases body@, 0nat,
{
    let ghost goal = block_comptime(stmt_list_view(body@), 0);
    let mut i: usize = 0;
    while i < body.len()
        invariant
            i <= body@.len(),
            stmt_list_view(body@).len() == body@.len(),
            block_comptime(stmt_list_view(body@), i as nat) == goal,
            goal == block_comptime(stmt_list_view(body@), 0),
        decreases body@.len() - i,
    {
        let stmt = &body[i];
        assert(stmt_list_view(body@)[i as int] == stmt@);
        if stmt_has_comptime(stmt) {
            return true;
        }
        i = i + 1;
    }
    false
}

pub open spec fn stmt_comptime(stmt: StmtView) -> bool
    decreases stmt, 0nat,
{
    match stmt.kind {
        StmtKindView::ComptimeIf { .. } => true,
        StmtKindView::ComptimeFor { .. } => true,
        StmtKindView::If { branches, orelse } => branches_comptime(branches, 0) || opt_comptime(orelse),
        StmtKindView::While { body, .. } => block_comptime(body, 0),
        StmtKindView::For { body, .. } => block_comptime(body, 0),
        StmtKindView::With { body, .. } => block_comptime(body, 0),
        StmtKindView::Try { body, except, orelse, finalbody } => {
            let handler = match except {
                Some((_, handler)) => block_comptime(handler, 0),
                None => false,
            };
            block_comptime(body, 0) || handler || opt_comptime(orelse) || opt_comptime(finalbody)
        },
        _ => false,
    }
}

/// See [`stmt_comptime`].
pub fn stmt_has_comptime(stmt: &Stmt) -> (r: bool)
    ensures
        r == stmt_comptime(stmt@),
    decreases stmt, 0nat,
{
    proof { unfold_stmt_kind(stmt.kind); }
    match &stmt.kind {
        StmtKind::ComptimeIf { .. } => true,
        StmtKind::ComptimeFor { .. } => true,
        StmtKind::If { branches, orelse } => branches_have_comptime(branches) || opt_has_comptime(orelse),
        StmtKind::While { body, .. } => block_has_comptime(body),
        StmtKind::For { body, .. } => block_has_comptime(body),
        StmtKind::With { body, .. } => block_has_comptime(body),
        StmtKind::Try { body, except, orelse, finalbody } => {
            let handler = match except {
                Some((_, handler)) => block_has_comptime(handler),
                None => false,
            };
            block_has_comptime(body) || handler || opt_has_comptime(orelse) || opt_has_comptime(finalbody)
        },
        _ => {
            assert(!(stmt.kind@ is ComptimeIf));
            assert(!(stmt.kind@ is ComptimeFor));
            assert(!(stmt.kind@ is If));
            assert(!(stmt.kind@ is While));
            assert(!(stmt.kind@ is For));
            assert(!(stmt.kind@ is With));
            assert(!(stmt.kind@ is Try));
            false
        },
    }
}

pub open spec fn branches_comptime(branches: Seq<(ExprView, Seq<StmtView>)>, i: nat) -> bool
    decreases branches, (branches.len() - i) as nat,
{
    if i >= branches.len() {
        false
    } else {
        let branch = branches[i as int];
        if block_comptime(branch.1, 0) {
            true
        } else {
            branches_comptime(branches, i + 1)
        }
    }
}

/// See [`branches_comptime`].
pub fn branches_have_comptime(branches: &Vec<(Expr, Vec<Stmt>)>) -> (r: bool)
    ensures
        r == branches_comptime(branch_list_view(branches@), 0),
    decreases branches@, 0nat,
{
    let ghost goal = branches_comptime(branch_list_view(branches@), 0);
    let mut i: usize = 0;
    while i < branches.len()
        invariant
            i <= branches@.len(),
            branch_list_view(branches@).len() == branches@.len(),
            branches_comptime(branch_list_view(branches@), i as nat) == goal,
            goal == branches_comptime(branch_list_view(branches@), 0),
        decreases branches@.len() - i,
    {
        let branch = &branches[i];
        assert(branch_list_view(branches@)[i as int].0 =~= branch.0@);
        assert(branch_list_view(branches@)[i as int].1 =~= stmt_list_view(branch.1@));
        if block_has_comptime(&branch.1) {
            return true;
        }
        i = i + 1;
    }
    false
}

pub open spec fn opt_comptime(block: Option<Seq<StmtView>>) -> bool
    decreases block, 0nat,
{
    match block {
        Some(body) => block_comptime(body, 0),
        None => false,
    }
}

/// See [`opt_comptime`].
pub fn opt_has_comptime(block: &Option<Vec<Stmt>>) -> (r: bool)
    ensures
        r == opt_comptime(
            (match block { Some(v) => Some(stmt_list_view(v@)), None => None }),
        ),
    decreases block, 0nat,
{
    match block {
        Some(body) => block_has_comptime(body),
        None => false,
    }
}

/// The functions of a program.
pub open spec fn fns_of(program: Seq<StmtView>, i: nat, out: Seq<CtFnView>) -> Seq<CtFnView>
    decreases program, (program.len() - i) as nat,
{
    if i >= program.len() {
        out
    } else {
        let stmt = program[i as int];
        match stmt.kind {
            StmtKindView::Def { name, type_params, params, body, .. } => {
                let out = out.push(
                    CtFnView {
                        name,
                        ct_params: ct_params(type_params, 0, Seq::empty()),
                        params: names_of_params(params, 0, Seq::empty()),
                        body,
                    }
                );
                fns_of(program, i + 1, out)
            },
            _ => fns_of(program, i + 1, out),
        }
    }
}

/// See [`fns_of`].
pub fn collect_fns(program: &Vec<Stmt>) -> (r: Vec<CtFn>)
    ensures
        ct_fn_list_view(r@) == fns_of(stmt_list_view(program@), 0, Seq::<CtFnView>::empty()),
    decreases program@, 0nat,
{
    let mut out: Vec<CtFn> = Vec::new();
    assert(ct_fn_list_view(out@) =~= Seq::<CtFnView>::empty());
    let ghost goal = fns_of(stmt_list_view(program@), 0, Seq::<CtFnView>::empty());
    let mut i: usize = 0;
    while i < program.len()
        invariant
            i <= program@.len(),
            stmt_list_view(program@).len() == program@.len(),
            fns_of(stmt_list_view(program@), i as nat, ct_fn_list_view(out@)) == goal,
            goal == fns_of(stmt_list_view(program@), 0, Seq::<CtFnView>::empty()),
        decreases program@.len() - i,
    {
        let stmt = &program[i];
        assert(stmt_list_view(program@)[i as int] == stmt@);
        proof { unfold_stmt_kind(stmt.kind); }
        match &stmt.kind {
            StmtKind::Def { name, type_params, params, body, .. } => {
                let list: Vec<String> = Vec::new();
                assert(string_list_view(list@) =~= Seq::<Seq<char>>::empty());
                let fn_value = CtFn {
                    name: name.clone(),
                    ct_params: classify_ct_params(type_params),
                    params: param_names(params, list),
                    body: clone_stmt_list(body),
                };
                proof { unfold_ct_fn(fn_value); }
                let ghost before = ct_fn_list_view(out@);
                let ghost added = fn_value@;
                out.push(fn_value);
                assert(ct_fn_list_view(out@) =~= before.push(added));
            },
            _ => {
                assert(!(stmt.kind@ is Def));
            },
        }
        i = i + 1;
    }
    out
}

/// The structs of a program.
pub open spec fn structs_of(
    program: Seq<StmtView>,
    i: nat,
    out: Seq<CtStructView>,
) -> Seq<CtStructView>
    decreases program, (program.len() - i) as nat,
{
    if i >= program.len() {
        out
    } else {
        let stmt = program[i as int];
        match stmt.kind {
            StmtKindView::Struct { name, type_params, associated, fields, .. } => {
                let out = out.push(
                    CtStructView {
                        name,
                        decls: ct_params(type_params, 0, Seq::empty()),
                        associated,
                        fields,
                    }
                );
                structs_of(program, i + 1, out)
            },
            _ => structs_of(program, i + 1, out),
        }
    }
}

/// See [`structs_of`].
pub fn collect_structs(program: &Vec<Stmt>) -> (r: Vec<CtStruct>)
    ensures
        ct_struct_list_view(r@) == structs_of(
            stmt_list_view(program@),
            0,
            Seq::<CtStructView>::empty(),
        ),
    decreases program@, 0nat,
{
    let mut out: Vec<CtStruct> = Vec::new();
    assert(ct_struct_list_view(out@) =~= Seq::<CtStructView>::empty());
    let ghost goal = structs_of(stmt_list_view(program@), 0, Seq::<CtStructView>::empty());
    let mut i: usize = 0;
    while i < program.len()
        invariant
            i <= program@.len(),
            stmt_list_view(program@).len() == program@.len(),
            structs_of(stmt_list_view(program@), i as nat, ct_struct_list_view(out@)) == goal,
            goal == structs_of(stmt_list_view(program@), 0, Seq::<CtStructView>::empty()),
        decreases program@.len() - i,
    {
        let stmt = &program[i];
        assert(stmt_list_view(program@)[i as int] == stmt@);
        proof { unfold_stmt_kind(stmt.kind); }
        match &stmt.kind {
            StmtKind::Struct { name, type_params, associated, fields, .. } => {
                let struct_value = CtStruct {
                    name: name.clone(),
                    decls: classify_ct_params(type_params),
                    associated: clone_struct_comptime_list(associated),
                    fields: clone_param_list(fields),
                };
                proof { unfold_ct_struct(struct_value); }
                let ghost before = ct_struct_list_view(out@);
                let ghost added = struct_value@;
                out.push(struct_value);
                assert(ct_struct_list_view(out@) =~= before.push(added));
            },
            _ => {
                assert(!(stmt.kind@ is Struct));
            },
        }
        i = i + 1;
    }
    out
}

pub open spec fn declares_pack(params: Seq<TypeParamView>, i: nat) -> bool
    decreases params, (params.len() - i) as nat,
{
    if i >= params.len() {
        false
    } else {
        let param = params[i as int];
        if begins_with_star(param.name) {
            true
        } else {
            declares_pack(params, i + 1)
        }
    }
}

/// See [`declares_pack`].
pub fn has_pack(params: &Vec<TypeParam>) -> (r: bool)
    ensures
        r == declares_pack(type_param_list_view(params@), 0),
    decreases params@, 0nat,
{
    let ghost goal = declares_pack(type_param_list_view(params@), 0);
    let mut i: usize = 0;
    while i < params.len()
        invariant
            i <= params@.len(),
            type_param_list_view(params@).len() == params@.len(),
            declares_pack(type_param_list_view(params@), i as nat) == goal,
            goal == declares_pack(type_param_list_view(params@), 0),
        decreases params@.len() - i,
    {
        let param = &params[i];
        assert(type_param_list_view(params@)[i as int] == param@);
        if starts_with_star(&param.name) {
            return true;
        }
        i = i + 1;
    }
    false
}

/// The generic functions that are specialized per call: those whose body decides
/// something at compile time, and those that take a pack.
pub open spec fn templates_of(
    program: Seq<StmtView>,
    i: nat,
    out: Seq<TemplateView>,
) -> Seq<TemplateView>
    decreases program, (program.len() - i) as nat,
{
    if i >= program.len() {
        out
    } else {
        let stmt = program[i as int];
        match stmt.kind {
            StmtKindView::Def { name, type_params, body, .. } => if type_params.len() > 0 && (
                block_comptime(body, 0) || declares_pack(type_params, 0)
            ) {
                let out = out.push(TemplateView { name, def: stmt });
                templates_of(program, i + 1, out)
            } else {
                templates_of(program, i + 1, out)
            },
            _ => templates_of(program, i + 1, out),
        }
    }
}

/// See [`templates_of`].
pub fn collect_specializable(program: &Vec<Stmt>) -> (r: Vec<Template>)
    ensures
        template_list_view(r@) == templates_of(
            stmt_list_view(program@),
            0,
            Seq::<TemplateView>::empty(),
        ),
    decreases program@, 0nat,
{
    let mut out: Vec<Template> = Vec::new();
    assert(template_list_view(out@) =~= Seq::<TemplateView>::empty());
    let ghost goal = templates_of(stmt_list_view(program@), 0, Seq::<TemplateView>::empty());
    let mut i: usize = 0;
    while i < program.len()
        invariant
            i <= program@.len(),
            stmt_list_view(program@).len() == program@.len(),
            templates_of(stmt_list_view(program@), i as nat, template_list_view(out@)) == goal,
            goal == templates_of(stmt_list_view(program@), 0, Seq::<TemplateView>::empty()),
        decreases program@.len() - i,
    {
        let stmt = &program[i];
        assert(stmt_list_view(program@)[i as int] == stmt@);
        proof { unfold_stmt_kind(stmt.kind); }
        match &stmt.kind {
            StmtKind::Def { name, type_params, body, .. } => {
                if type_params.len() > 0 && (block_has_comptime(body) || has_pack(type_params)) {
                    let item = Template { name: name.clone(), def: clone_stmt(stmt) };
                    let ghost before = template_list_view(out@);
                    let ghost added = item@;
                    out.push(item);
                    assert(template_list_view(out@) =~= before.push(added));
                }
            },
            _ => {
                assert(!(stmt.kind@ is Def));
            },
        }
        i = i + 1;
    }
    out
}

/// The function of a name. A later one hides an earlier one.
pub open spec fn fn_named(
    fns: Seq<CtFnView>,
    name: Seq<char>,
    i: nat,
    out: Option<CtFnView>,
) -> Option<CtFnView>
    decreases fns, (fns.len() - i) as nat,
{
    if i >= fns.len() {
        out
    } else {
        let entry = fns[i as int];
        if entry.name == name {
            let out = Some(entry);
            fn_named(fns, name, i + 1, out)
        } else {
            fn_named(fns, name, i + 1, out)
        }
    }
}

/// See [`fn_named`].
pub fn find_fn(fns: &Vec<CtFn>, name: &String) -> (r: Option<CtFn>)
    ensures
        opt_view(r) == fn_named(ct_fn_list_view(fns@), name@, 0, None),
    decreases fns@, 0nat,
{
    let mut out: Option<CtFn> = None;
    let ghost goal = fn_named(ct_fn_list_view(fns@), name@, 0, None);
    let mut i: usize = 0;
    while i < fns.len()
        invariant
            i <= fns@.len(),
            ct_fn_list_view(fns@).len() == fns@.len(),
            fn_named(ct_fn_list_view(fns@), name@, i as nat, opt_view(out)) == goal,
            goal == fn_named(ct_fn_list_view(fns@), name@, 0, None),
        decreases fns@.len() - i,
    {
        let entry = &fns[i];
        assert(ct_fn_list_view(fns@)[i as int] == entry@);
        if same_string(&entry.name, name) {
            out = Some(clone_ct_fn(entry));
        }
        i = i + 1;
    }
    out
}

/// The struct of a name. A later one hides an earlier one.
pub open spec fn struct_named(
    structs: Seq<CtStructView>,
    name: Seq<char>,
    i: nat,
    out: Option<CtStructView>,
) -> Option<CtStructView>
    decreases structs, (structs.len() - i) as nat,
{
    if i >= structs.len() {
        out
    } else {
        let entry = structs[i as int];
        if entry.name == name {
            let out = Some(entry);
            struct_named(structs, name, i + 1, out)
        } else {
            struct_named(structs, name, i + 1, out)
        }
    }
}

/// See [`struct_named`].
pub fn find_struct(structs: &Vec<CtStruct>, name: &String) -> (r: Option<CtStruct>)
    ensures
        opt_view(r) == struct_named(ct_struct_list_view(structs@), name@, 0, None),
    decreases structs@, 0nat,
{
    let mut out: Option<CtStruct> = None;
    let ghost goal = struct_named(ct_struct_list_view(structs@), name@, 0, None);
    let mut i: usize = 0;
    while i < structs.len()
        invariant
            i <= structs@.len(),
            ct_struct_list_view(structs@).len() == structs@.len(),
            struct_named(ct_struct_list_view(structs@), name@, i as nat, opt_view(out)) == goal,
            goal == struct_named(ct_struct_list_view(structs@), name@, 0, None),
        decreases structs@.len() - i,
    {
        let entry = &structs[i];
        assert(ct_struct_list_view(structs@)[i as int] == entry@);
        if same_string(&entry.name, name) {
            out = Some(clone_ct_struct(entry));
        }
        i = i + 1;
    }
    out
}

/// The template of a name. A later one hides an earlier one.
pub open spec fn template_named(
    templates: Seq<TemplateView>,
    name: Seq<char>,
    i: nat,
    out: Option<TemplateView>,
) -> Option<TemplateView>
    decreases templates, (templates.len() - i) as nat,
{
    if i >= templates.len() {
        out
    } else {
        let entry = templates[i as int];
        if entry.name == name {
            let out = Some(entry);
            template_named(templates, name, i + 1, out)
        } else {
            template_named(templates, name, i + 1, out)
        }
    }
}

/// See [`template_named`].
pub fn find_template(templates: &Vec<Template>, name: &String) -> (r: Option<Template>)
    ensures
        opt_view(r) == template_named(template_list_view(templates@), name@, 0, None),
    decreases templates@, 0nat,
{
    let mut out: Option<Template> = None;
    let ghost goal = template_named(template_list_view(templates@), name@, 0, None);
    let mut i: usize = 0;
    while i < templates.len()
        invariant
            i <= templates@.len(),
            template_list_view(templates@).len() == templates@.len(),
            template_named(template_list_view(templates@), name@, i as nat, opt_view(out)) == goal,
            goal == template_named(template_list_view(templates@), name@, 0, None),
        decreases templates@.len() - i,
    {
        let entry = &templates[i];
        assert(template_list_view(templates@)[i as int] == entry@);
        if same_string(&entry.name, name) {
            out = Some(clone_template(entry));
        }
        i = i + 1;
    }
    out
}

pub open spec fn reply_to(
    replies: Seq<CtReplyView>,
    name: Seq<char>,
    values: Seq<CtValueView>,
    args: Seq<CtValueView>,
    i: nat,
    out: Option<CtReplyView>,
) -> Option<CtReplyView>
    decreases replies, (replies.len() - i) as nat,
{
    if i >= replies.len() {
        out
    } else {
        let reply = replies[i as int];
        if reply.name == name && reply.values == values && reply.args == args {
            let out = Some(reply);
            reply_to(replies, name, values, args, i + 1, out)
        } else {
            reply_to(replies, name, values, args, i + 1, out)
        }
    }
}

/// See [`reply_to`].
pub fn find_reply(
    replies: &Vec<CtReply>,
    name: &String,
    values: &Vec<CtValue>,
    args: &Vec<CtValue>,
) -> (r: Option<CtReply>)
    ensures
        opt_view(r) == reply_to(
            ct_reply_list_view(replies@),
            name@,
            ct_value_list_view(values@),
            ct_value_list_view(args@),
            0,
            None,
        ),
    decreases replies@, 0nat,
{
    let mut out: Option<CtReply> = None;
    let ghost goal = reply_to(
        ct_reply_list_view(replies@),
        name@,
        ct_value_list_view(values@),
        ct_value_list_view(args@),
        0,
        None,
    );
    let mut i: usize = 0;
    while i < replies.len()
        invariant
            i <= replies@.len(),
            ct_reply_list_view(replies@).len() == replies@.len(),
            reply_to(
                ct_reply_list_view(replies@),
                name@,
                ct_value_list_view(values@),
                ct_value_list_view(args@),
                i as nat,
                opt_view(out),
            ) == goal,
            goal == reply_to(
                ct_reply_list_view(replies@),
                name@,
                ct_value_list_view(values@),
                ct_value_list_view(args@),
                0,
                None,
            ),
        decreases replies@.len() - i,
    {
        let reply = &replies[i];
        assert(ct_reply_list_view(replies@)[i as int] == reply@);
        if same_string(&reply.name, name) && same_ct_value_list(
            &reply.values,
            values,
        ) && same_ct_value_list(&reply.args, args) {
            out = Some(clone_ct_reply(reply));
        }
        i = i + 1;
    }
    out
}

/// Whether a value is of a type.
pub open spec fn value_has_type(value: CtValueView, ty: TyView) -> bool
    decreases value, 1nat,
{
    match value {
        CtValueView::Int(_) => (ty matches TyView::Int),
        CtValueView::UInt(_) => (ty matches TyView::UInt),
        CtValueView::Float(_) => (ty matches TyView::Float64),
        CtValueView::Bool(_) => (ty matches TyView::Bool),
        CtValueView::Str(_) => (ty matches TyView::String),
        CtValueView::Tuple(values) => match ty {
            TyView::Tuple(types) => values.len() == types.len() && values_typed(values, types, 0, 0),
            _ => false,
        },
        CtValueView::List(values) => match ty {
            TyView::List(element) => values_of_type(values, *element, 0),
            _ => false,
        },
        _ => false,
    }
}

/// See [`value_has_type`].
pub fn ct_value_has_type(value: &CtValue, ty: &Ty) -> (r: bool)
    ensures
        r == value_has_type(value@, ty@),
    decreases value, 1nat,
{
    proof { unfold_ct_value(*value); }
    match value {
        CtValue::Int(_) => matches!(ty, Ty::Int),
        CtValue::UInt(_) => matches!(ty, Ty::UInt),
        CtValue::Float(_) => matches!(ty, Ty::Float64),
        CtValue::Bool(_) => matches!(ty, Ty::Bool),
        CtValue::Str(_) => matches!(ty, Ty::String),
        CtValue::Tuple(values) => {
            proof { unfold_ty(*ty); }
            match ty {
                Ty::Tuple(types) => values.len() == types.len() && values_have_types(values, types),
                _ => {
                    assert(!(ty@ is Tuple));
                    false
                },
            }
        },
        CtValue::List(values) => {
            proof { unfold_ty(*ty); }
            match ty {
                Ty::List(element) => values_have_type(values, &**element),
                _ => {
                    assert(!(ty@ is List));
                    false
                },
            }
        },
        _ => {
            assert(!(value@ is Int));
            assert(!(value@ is UInt));
            assert(!(value@ is Float));
            assert(!(value@ is Bool));
            assert(!(value@ is Str));
            assert(!(value@ is Tuple));
            assert(!(value@ is List));
            false
        },
    }
}

pub open spec fn values_typed(
    values: Seq<CtValueView>,
    types: Seq<TyView>,
    i: nat,
    k: usize,
) -> bool
    decreases values, (values.len() - i) as nat,
{
    if i >= values.len() {
        true
    } else {
        let value = values[i as int];
        if k >= types.len() {
            true
        } else if !value_has_type(value, types[k as int]) {
            false
        } else {
            let k = following_index(k);
            values_typed(values, types, i + 1, k)
        }
    }
}

/// See [`values_typed`].
pub fn values_have_types(values: &Vec<CtValue>, types: &Vec<Ty>) -> (r: bool)
    ensures
        r == values_typed(ct_value_list_view(values@), ty_list_view(types@), 0, 0),
    decreases values@, 0nat,
{
    let mut k: usize = 0;
    let ghost goal = values_typed(ct_value_list_view(values@), ty_list_view(types@), 0, 0);
    let mut i: usize = 0;
    while i < values.len()
        invariant
            i <= values@.len(),
            ct_value_list_view(values@).len() == values@.len(),
            values_typed(ct_value_list_view(values@), ty_list_view(types@), i as nat, k) == goal,
            goal == values_typed(ct_value_list_view(values@), ty_list_view(types@), 0, 0),
        decreases values@.len() - i,
    {
        let value = &values[i];
        assert(ct_value_list_view(values@)[i as int] == value@);
        if k >= types.len() {
            return true;
        }
        if !ct_value_has_type(value, &types[k]) {
            return false;
        }
        k = next_index(k);
        i = i + 1;
    }
    true
}

pub open spec fn values_of_type(values: Seq<CtValueView>, ty: TyView, i: nat) -> bool
    decreases values, (values.len() - i) as nat,
{
    if i >= values.len() {
        true
    } else {
        let value = values[i as int];
        if !value_has_type(value, ty) {
            false
        } else {
            values_of_type(values, ty, i + 1)
        }
    }
}

/// See [`values_of_type`].
pub fn values_have_type(values: &Vec<CtValue>, ty: &Ty) -> (r: bool)
    ensures
        r == values_of_type(ct_value_list_view(values@), ty@, 0),
    decreases values@, 0nat,
{
    let ghost goal = values_of_type(ct_value_list_view(values@), ty@, 0);
    let mut i: usize = 0;
    while i < values.len()
        invariant
            i <= values@.len(),
            ct_value_list_view(values@).len() == values@.len(),
            values_of_type(ct_value_list_view(values@), ty@, i as nat) == goal,
            goal == values_of_type(ct_value_list_view(values@), ty@, 0),
        decreases values@.len() - i,
    {
        let value = &values[i];
        assert(ct_value_list_view(values@)[i as int] == value@);
        if !ct_value_has_type(value, ty) {
            return false;
        }
        i = i + 1;
    }
    true
}

/// Whether two integers compare as an operator says.
#[verifier::opaque]
pub open spec fn ints_compare(op: InfixOp, a: i64, b: i64) -> Result<bool, ComptimeErrorView> {
    match op {
        InfixOp::Eq => Ok(a == b),
        InfixOp::Ne => Ok(a != b),
        InfixOp::Lt => Ok(a < b),
        InfixOp::Gt => Ok(a > b),
        InfixOp::Le => Ok(a <= b),
        InfixOp::Ge => Ok(a >= b),
        _ => Err(no_comptime("not a comparison operator"@)),
    }
}

/// See [`ints_compare`].
pub fn compare_ints(op: InfixOp, a: i64, b: i64) -> (r: Result<bool, ComptimeError>)
    ensures
        (match r { Ok(v) => Ok(v), Err(v) => Err(v@) }) == ints_compare(op, a, b),
{
    proof { reveal(ints_compare); }
    match op {
        InfixOp::Eq => Ok(a == b),
        InfixOp::Ne => Ok(a != b),
        InfixOp::Lt => Ok(a < b),
        InfixOp::Gt => Ok(a > b),
        InfixOp::Le => Ok(a <= b),
        InfixOp::Ge => Ok(a >= b),
        _ => Err(not_comptime("not a comparison operator".to_owned())),
    }
}

} // verus!
