//! Running of programs: scopes, calls and statements.

use crate::arith::{checked_difference, checked_sum, fit};
use crate::ast::{
    ArgConvention, Dtype, Expr, ExprKind, ExprKindView, ExprView, FnParam, FnParamView, InfixOp,
    KwArg, KwArgView, Method, MethodView, Param, ParamArg, ParamArgView, ParamKind, ParamView,
    PrefixOp, Stmt, StmtKind, StmtKindView, StmtView, Type, TypeParam, TypeParamView, TypeView,
    branch_list_view, clone_fn_param_list, clone_pack_length_list, clone_stmt_list, clone_type,
    expr_list_view, fn_param_list_view, kw_arg_list_view, method_list_view, pack_length_list_view,
    param_arg_list_view, param_list_view, stmt_list_view, type_param_list_view, type_view,
    unfold_expr_kind, unfold_stmt_kind, unfold_type,
};
use crate::checked::{clone_flagged_name_list, flagged_name_list_view};
use crate::error::RuntimeError;
use crate::flatten::{following_index, next_index};
use crate::program::{classified, classify_param_decls};
use crate::simd::{
    float_of_value, lane_read, lane_set, read_simd_lane, set_simd_lane, show_value, simd_from,
    value_shown, value_to_float, vector_built,
};
use crate::text::{
    add_name, byte_len, byte_offset, cat2, cat3, cat4, cat5, decimal, insert_name, opt_view,
    same_string, same_text, show_usize, string_list_view,
};
use crate::values::{
    EvalError, EvalErrorView, Known, KnownView, Num, Question, QuestionView, SimdLanes,
    SimdLanesView, Value, ValueView, absolute, apply_infix, apply_list_method, as_num, asked_bits,
    asked_flag, bits_asked, bounds_check, changes_list, clone_eval_error, clone_field_value_list,
    clone_value, clone_value_list, coerce, coerce_like, coerced, common_rank, dtype_from_name,
    dtype_named, dtype_of_alias, eval_error_view, failed_type, field_value_list_view, flag_asked,
    from_scalar_alias, higher_rank, in_int, index_of_value, index_within, int_if_fits,
    is_list_mutator, known_list_view, like_before, list_and, list_answer, list_method, list_query,
    magnitude, num_to_float, num_to_int, num_to_uint, number_as_float, number_as_int,
    number_as_uint, number_of, operator_on, promote_numeric_elems, promoted_numbers, size_value,
    type_failure, type_shown, unfold_value, value_as_index, value_list_view, value_of_size,
    value_type_name, value_view, with_last,
};
use vstd::prelude::*;

verus! {

/// One step of a path to a place.
#[derive(Debug, PartialEq, Eq)]
#[allow(inconsistent_fields)]
pub enum PathStep {
    Field(String),
    Index(i64),
}

/// What a [`PathStep`] holds.
#[allow(inconsistent_fields)]
pub enum PathStepView {
    Field(Seq<char>),
    Index(i64),
}

/// A scope: what its names are bound to, the last binding of a name counts, and the
/// scope around it.
#[derive(Debug, PartialEq, Eq)]
pub struct Scope {
    pub vars: Vec<(String, Value)>,
    pub parent: Option<usize>,
}

/// What a [`Scope`] holds.
pub struct ScopeView {
    pub vars: Seq<(Seq<char>, ValueView)>,
    pub parent: Option<usize>,
}

/// A function: its parameters, its body and the scope it was defined in.
#[derive(Debug, PartialEq, Eq)]
pub struct Closure {
    pub params: Vec<FnParam>,
    pub param_decls: Vec<(String, bool)>,
    pub body: Vec<Stmt>,
    pub env: usize,
    pub mut_self: bool,
}

/// What a [`Closure`] holds.
pub struct ClosureView {
    pub params: Seq<FnParamView>,
    pub param_decls: Seq<(Seq<char>, bool)>,
    pub body: Seq<StmtView>,
    pub env: usize,
    pub mut_self: bool,
}

/// A struct: its fields in order and its methods, by the numbers of their functions.
#[derive(Debug, PartialEq, Eq)]
pub struct StructDef {
    pub name: String,
    pub fields: Vec<(String, Type)>,
    pub param_decls: Vec<(String, bool)>,
    pub methods: Vec<(String, usize)>,
    pub fieldwise_init: bool,
}

/// What a [`StructDef`] holds.
pub struct StructDefView {
    pub name: Seq<char>,
    pub fields: Seq<(Seq<char>, TypeView)>,
    pub param_decls: Seq<(Seq<char>, bool)>,
    pub methods: Seq<(Seq<char>, usize)>,
    pub fieldwise_init: bool,
}

/// A running program: its scopes, the global one first, its functions and structs, and
/// what it has printed.
#[derive(Debug, PartialEq, Eq)]
pub struct Evaluator {
    pub scopes: Vec<Scope>,
    pub closures: Vec<Closure>,
    pub structs: Vec<StructDef>,
    pub output: String,
}

/// What a [`Evaluator`] holds.
pub struct EvaluatorView {
    pub scopes: Seq<ScopeView>,
    pub closures: Seq<ClosureView>,
    pub structs: Seq<StructDefView>,
    pub output: Seq<char>,
}

/// A run that stopped, and why.
#[derive(Debug, PartialEq, Eq)]
pub struct Failure {
    pub machine: Evaluator,
    pub error: EvalError,
}

/// What a [`Failure`] holds.
pub struct FailureView {
    pub machine: EvaluatorView,
    pub error: EvalErrorView,
}

/// What a method gives back, and what became of its receiver.
#[derive(Debug, PartialEq, Eq)]
pub struct MethodResult {
    pub value: Value,
    pub receiver: Value,
    pub mut_self: bool,
}

/// What a [`MethodResult`] holds.
pub struct MethodResultView {
    pub value: ValueView,
    pub receiver: ValueView,
    pub mut_self: bool,
}

/// How a statement ends.
#[derive(Debug, PartialEq, Eq)]
#[allow(inconsistent_fields)]
pub enum Flow {
    Normal,
    Return(Value),
    Break,
    Continue,
}

/// What a [`Flow`] holds.
#[allow(inconsistent_fields)]
pub enum FlowView {
    Normal,
    Return(ValueView),
    Break,
    Continue,
}

pub open spec fn path_step_view(x: PathStep) -> PathStepView
    decreases x,
{
    match x {
        PathStep::Field(a0) => PathStepView::Field(a0@),
        PathStep::Index(a0) => PathStepView::Index(a0),
    }
}

impl View for PathStep {
    type V = PathStepView;

    open spec fn view(&self) -> PathStepView {
        path_step_view(*self)
    }
}

pub fn clone_path_step(x: &PathStep) -> (r: PathStep)
    ensures
        path_step_view(r) == path_step_view(*x),
    decreases x,
{
    match x {
        PathStep::Field(a0) => PathStep::Field(a0.clone()),
        PathStep::Index(a0) => PathStep::Index(*a0),
    }
}

impl Clone for PathStep {
    fn clone(&self) -> (r: Self)
        ensures
            r@ == self@,
    {
        clone_path_step(self)
    }
}

pub open spec fn scope_view(x: Scope) -> ScopeView
    decreases x,
{
    ScopeView {
        vars: field_value_list_view(x.vars@),
        parent: x.parent,
    }
}

impl View for Scope {
    type V = ScopeView;

    open spec fn view(&self) -> ScopeView {
        scope_view(*self)
    }
}

pub fn clone_scope(x: &Scope) -> (r: Scope)
    ensures
        scope_view(r) == scope_view(*x),
    decreases x,
{
    let r = Scope {
        vars: clone_field_value_list((&x.vars)),
        parent: x.parent,
    };
    proof {
        unfold_scope(*x);
        unfold_scope(r);
    }
    r
}

impl Clone for Scope {
    fn clone(&self) -> (r: Self)
        ensures
            r@ == self@,
    {
        clone_scope(self)
    }
}

pub open spec fn closure_view(x: Closure) -> ClosureView
    decreases x,
{
    ClosureView {
        params: fn_param_list_view(x.params@),
        param_decls: flagged_name_list_view(x.param_decls@),
        body: stmt_list_view(x.body@),
        env: x.env,
        mut_self: x.mut_self,
    }
}

impl View for Closure {
    type V = ClosureView;

    open spec fn view(&self) -> ClosureView {
        closure_view(*self)
    }
}

pub fn clone_closure(x: &Closure) -> (r: Closure)
    ensures
        closure_view(r) == closure_view(*x),
    decreases x,
{
    let r = Closure {
        params: clone_fn_param_list((&x.params)),
        param_decls: clone_flagged_name_list((&x.param_decls)),
        body: clone_stmt_list((&x.body)),
        env: x.env,
        mut_self: x.mut_self,
    };
    proof {
        unfold_closure(*x);
        unfold_closure(r);
    }
    r
}

impl Clone for Closure {
    fn clone(&self) -> (r: Self)
        ensures
            r@ == self@,
    {
        clone_closure(self)
    }
}

pub open spec fn struct_def_view(x: StructDef) -> StructDefView
    decreases x,
{
    StructDefView {
        name: x.name@,
        fields: typed_name_list_view(x.fields@),
        param_decls: flagged_name_list_view(x.param_decls@),
        methods: pack_length_list_view(x.methods@),
        fieldwise_init: x.fieldwise_init,
    }
}

impl View for StructDef {
    type V = StructDefView;

    open spec fn view(&self) -> StructDefView {
        struct_def_view(*self)
    }
}

pub fn clone_struct_def(x: &StructDef) -> (r: StructDef)
    ensures
        struct_def_view(r) == struct_def_view(*x),
    decreases x,
{
    let r = StructDef {
        name: (&x.name).clone(),
        fields: clone_typed_name_list((&x.fields)),
        param_decls: clone_flagged_name_list((&x.param_decls)),
        methods: clone_pack_length_list((&x.methods)),
        fieldwise_init: x.fieldwise_init,
    };
    proof {
        unfold_struct_def(*x);
        unfold_struct_def(r);
    }
    r
}

impl Clone for StructDef {
    fn clone(&self) -> (r: Self)
        ensures
            r@ == self@,
    {
        clone_struct_def(self)
    }
}

pub open spec fn evaluator_view(x: Evaluator) -> EvaluatorView
    decreases x,
{
    EvaluatorView {
        scopes: frame_list_view(x.scopes@),
        closures: closure_list_view(x.closures@),
        structs: struct_def_list_view(x.structs@),
        output: x.output@,
    }
}

impl View for Evaluator {
    type V = EvaluatorView;

    open spec fn view(&self) -> EvaluatorView {
        evaluator_view(*self)
    }
}

pub fn clone_evaluator(x: &Evaluator) -> (r: Evaluator)
    ensures
        evaluator_view(r) == evaluator_view(*x),
    decreases x,
{
    let r = Evaluator {
        scopes: clone_frame_list((&x.scopes)),
        closures: clone_closure_list((&x.closures)),
        structs: clone_struct_def_list((&x.structs)),
        output: (&x.output).clone(),
    };
    proof {
        unfold_evaluator(*x);
        unfold_evaluator(r);
    }
    r
}

impl Clone for Evaluator {
    fn clone(&self) -> (r: Self)
        ensures
            r@ == self@,
    {
        clone_evaluator(self)
    }
}

pub open spec fn failure_view(x: Failure) -> FailureView
    decreases x,
{
    FailureView {
        machine: evaluator_view(x.machine),
        error: eval_error_view(x.error),
    }
}

impl View for Failure {
    type V = FailureView;

    open spec fn view(&self) -> FailureView {
        failure_view(*self)
    }
}

pub fn clone_failure(x: &Failure) -> (r: Failure)
    ensures
        failure_view(r) == failure_view(*x),
    decreases x,
{
    Failure {
        machine: clone_evaluator((&x.machine)),
        error: clone_eval_error((&x.error)),
    }
}

impl Clone for Failure {
    fn clone(&self) -> (r: Self)
        ensures
            r@ == self@,
    {
        clone_failure(self)
    }
}

pub open spec fn method_result_view(x: MethodResult) -> MethodResultView
    decreases x,
{
    MethodResultView {
        value: value_view(x.value),
        receiver: value_view(x.receiver),
        mut_self: x.mut_self,
    }
}

impl View for MethodResult {
    type V = MethodResultView;

    open spec fn view(&self) -> MethodResultView {
        method_result_view(*self)
    }
}

pub fn clone_method_result(x: &MethodResult) -> (r: MethodResult)
    ensures
        method_result_view(r) == method_result_view(*x),
    decreases x,
{
    MethodResult {
        value: clone_value((&x.value)),
        receiver: clone_value((&x.receiver)),
        mut_self: x.mut_self,
    }
}

impl Clone for MethodResult {
    fn clone(&self) -> (r: Self)
        ensures
            r@ == self@,
    {
        clone_method_result(self)
    }
}

pub open spec fn flow_view(x: Flow) -> FlowView
    decreases x,
{
    match x {
        Flow::Normal => FlowView::Normal,
        Flow::Return(a0) => FlowView::Return(value_view(a0)),
        Flow::Break => FlowView::Break,
        Flow::Continue => FlowView::Continue,
    }
}

impl View for Flow {
    type V = FlowView;

    open spec fn view(&self) -> FlowView {
        flow_view(*self)
    }
}

pub fn clone_flow(x: &Flow) -> (r: Flow)
    ensures
        flow_view(r) == flow_view(*x),
    decreases x,
{
    match x {
        Flow::Normal => Flow::Normal,
        Flow::Return(a0) => Flow::Return(clone_value(a0)),
        Flow::Break => Flow::Break,
        Flow::Continue => Flow::Continue,
    }
}

impl Clone for Flow {
    fn clone(&self) -> (r: Self)
        ensures
            r@ == self@,
    {
        clone_flow(self)
    }
}

pub open spec fn path_step_list_view(s: Seq<PathStep>) -> Seq<PathStepView>
    decreases s,
{
    Seq::new(s.len(), |i: int| if 0 <= i < s.len() { path_step_view(s[i]) } else { arbitrary() })
}

pub fn clone_path_step_list(v: &Vec<PathStep>) -> (r: Vec<PathStep>)
    ensures
        path_step_list_view(r@) == path_step_list_view(v@),
        r@.len() == v@.len(),
    decreases v@,
{
    let mut r: Vec<PathStep> = Vec::new();
    for i in 0..v.len()
        invariant
            r@.len() == i,
            forall|j: int| 0 <= j < i ==> path_step_view((#[trigger] r@[j])) == path_step_view(v@[j]),
    {
        r.push(clone_path_step((&v[i])));
    }
    assert(path_step_list_view(r@) =~= path_step_list_view(v@));
    r
}

pub open spec fn frame_list_view(s: Seq<Scope>) -> Seq<ScopeView>
    decreases s,
{
    Seq::new(s.len(), |i: int| if 0 <= i < s.len() { scope_view(s[i]) } else { arbitrary() })
}

pub fn clone_frame_list(v: &Vec<Scope>) -> (r: Vec<Scope>)
    ensures
        frame_list_view(r@) == frame_list_view(v@),
        r@.len() == v@.len(),
    decreases v@,
{
    let mut r: Vec<Scope> = Vec::new();
    for i in 0..v.len()
        invariant
            r@.len() == i,
            forall|j: int| 0 <= j < i ==> scope_view((#[trigger] r@[j])) == scope_view(v@[j]),
    {
        r.push(clone_scope((&v[i])));
    }
    assert(frame_list_view(r@) =~= frame_list_view(v@));
    r
}

pub open spec fn closure_list_view(s: Seq<Closure>) -> Seq<ClosureView>
    decreases s,
{
    Seq::new(s.len(), |i: int| if 0 <= i < s.len() { closure_view(s[i]) } else { arbitrary() })
}

pub fn clone_closure_list(v: &Vec<Closure>) -> (r: Vec<Closure>)
    ensures
        closure_list_view(r@) == closure_list_view(v@),
        r@.len() == v@.len(),
    decreases v@,
{
    let mut r: Vec<Closure> = Vec::new();
    for i in 0..v.len()
        invariant
            r@.len() == i,
            forall|j: int| 0 <= j < i ==> closure_view((#[trigger] r@[j])) == closure_view(v@[j]),
    {
        r.push(clone_closure((&v[i])));
    }
    assert(closure_list_view(r@) =~= closure_list_view(v@));
    r
}

pub open spec fn struct_def_list_view(s: Seq<StructDef>) -> Seq<StructDefView>
    decreases s,
{
    Seq::new(s.len(), |i: int| if 0 <= i < s.len() { struct_def_view(s[i]) } else { arbitrary() })
}

pub fn clone_struct_def_list(v: &Vec<StructDef>) -> (r: Vec<StructDef>)
    ensures
        struct_def_list_view(r@) == struct_def_list_view(v@),
        r@.len() == v@.len(),
    decreases v@,
{
    let mut r: Vec<StructDef> = Vec::new();
    for i in 0..v.len()
        invariant
            r@.len() == i,
            forall|j: int| 0 <= j < i ==> struct_def_view((#[trigger] r@[j])) == struct_def_view(v@[j]),
    {
        r.push(clone_struct_def((&v[i])));
    }
    assert(struct_def_list_view(r@) =~= struct_def_list_view(v@));
    r
}

pub open spec fn typed_name_list_view(s: Seq<(String, Type)>) -> Seq<(Seq<char>, TypeView)>
    decreases s,
{
    Seq::new(s.len(), |i: int| if 0 <= i < s.len() { (s[i].0@, type_view(s[i].1)) } else { arbitrary() })
}

pub fn clone_typed_name_list(v: &Vec<(String, Type)>) -> (r: Vec<(String, Type)>)
    ensures
        typed_name_list_view(r@) == typed_name_list_view(v@),
        r@.len() == v@.len(),
    decreases v@,
{
    let mut r: Vec<(String, Type)> = Vec::new();
    for i in 0..v.len()
        invariant
            r@.len() == i,
            forall|j: int| 0 <= j < i ==> ((#[trigger] r@[j]).0@, type_view((#[trigger] r@[j]).1)) == (v@[j].0@, type_view(v@[j].1)),
    {
        r.push(((&(&v[i]).0).clone(), clone_type((&(&v[i]).1))));
    }
    assert(typed_name_list_view(r@) =~= typed_name_list_view(v@));
    r
}

pub proof fn unfold_scope(x: Scope)
    ensures
        scope_view(x) == (ScopeView { vars: field_value_list_view(x.vars@), parent: x.parent }),
{
        assert(scope_view(x).vars =~= field_value_list_view(x.vars@));
}

pub proof fn unfold_closure(x: Closure)
    ensures
        closure_view(x) == (ClosureView { params: fn_param_list_view(x.params@), param_decls: flagged_name_list_view(x.param_decls@), body: stmt_list_view(x.body@), env: x.env, mut_self: x.mut_self }),
{
        assert(closure_view(x).params =~= fn_param_list_view(x.params@));
        assert(closure_view(x).param_decls =~= flagged_name_list_view(x.param_decls@));
        assert(closure_view(x).body =~= stmt_list_view(x.body@));
}

pub proof fn unfold_struct_def(x: StructDef)
    ensures
        struct_def_view(x) == (StructDefView { name: x.name@, fields: typed_name_list_view(x.fields@), param_decls: flagged_name_list_view(x.param_decls@), methods: pack_length_list_view(x.methods@), fieldwise_init: x.fieldwise_init }),
{
        assert(struct_def_view(x).fields =~= typed_name_list_view(x.fields@));
        assert(struct_def_view(x).param_decls =~= flagged_name_list_view(x.param_decls@));
        assert(struct_def_view(x).methods =~= pack_length_list_view(x.methods@));
}

pub proof fn unfold_evaluator(x: Evaluator)
    ensures
        evaluator_view(x) == (EvaluatorView { scopes: frame_list_view(x.scopes@), closures: closure_list_view(x.closures@), structs: struct_def_list_view(x.structs@), output: x.output@ }),
{
        assert(evaluator_view(x).scopes =~= frame_list_view(x.scopes@));
        assert(evaluator_view(x).closures =~= closure_list_view(x.closures@));
        assert(evaluator_view(x).structs =~= struct_def_list_view(x.structs@));
}

/// The value of the last entry of a key.
pub open spec fn slot_named(entries: Seq<(Seq<char>, ValueView)>, key: Seq<char>) -> Option<ValueView>
    decreases entries.len(),
{
    if entries.len() == 0 {
        None
    } else if entries.last().0 == key {
        Some(entries.last().1)
    } else {
        slot_named(entries.drop_last(), key)
    }
}

/// See [`slot_named`].
pub fn find_slot_value(entries: &Vec<(String, Value)>, key: &String) -> (r: Option<Value>)
    ensures
        opt_view(r) == slot_named(field_value_list_view(entries@), key@),
{
    let ghost all = field_value_list_view(entries@);
    let mut i: usize = entries.len();
    assert(all.take(i as int) =~= all);
    while i > 0
        invariant
            i <= entries@.len(),
            all == field_value_list_view(entries@),
            all.len() == entries@.len(),
            slot_named(all, key@) == slot_named(all.take(i as int), key@),
        decreases i,
    {
        assert(all.take(i as int).last() == all[i - 1]);
        assert(all.take(i as int).drop_last() =~= all.take(i - 1));
        i = i - 1;
        if same_string(&entries[i].0, key) {
            return Some(clone_value(&entries[i].1));
        }
    }
    None
}

/// How many bytes a text takes.
pub fn bytes_of(text: &String) -> (r: usize)
    ensures
        r == byte_offset(text@, text@.len()) as usize,
{
    byte_len(text)
}

/// The scopes with one replaced.
pub open spec fn scopes_with(
    scopes: Seq<ScopeView>,
    at: usize,
    scope: ScopeView,
) -> Seq<ScopeView> {
    if at < scopes.len() {
        scopes.update(at as int, scope)
    } else {
        scopes
    }
}

/// See [`scopes_with`].
pub fn set_scope(scopes: Vec<Scope>, at: usize, scope: Scope) -> (r: Vec<Scope>)
    ensures
        frame_list_view(r@) == scopes_with(frame_list_view(scopes@), at, scope@),
{
    let mut out = scopes;
    if at < out.len() {
        out.set(at, scope);
        assert(frame_list_view(out@) =~= frame_list_view(scopes@).update(at as int, scope@));
    }
    out
}


/// A run that stops, with what it has done so far.
#[verifier::opaque]
pub open spec fn failed_with(m: EvaluatorView, error: EvalErrorView) -> FailureView {
    FailureView { machine: m, error }
}

/// See [`failed_with`].
pub fn failure(m: Evaluator, error: EvalError) -> (r: Failure)
    ensures
        r@ == failed_with(m@, error@),
{
    proof { reveal(failed_with); }
    Failure { machine: m, error }
}

#[verifier::opaque]
pub open spec fn value_held(
    m: EvaluatorView,
    made: Result<ValueView, EvalErrorView>,
) -> Result<(EvaluatorView, ValueView), FailureView> {
    match made {
        Ok(value) => Ok((m, value)),
        Err(error) => Err(failed_with(m, error)),
    }
}

/// See [`value_held`].
pub fn hold_value(
    m: Evaluator,
    made: Result<Value, EvalError>,
) -> (r: Result<(Evaluator, Value), Failure>)
    ensures
        (
            match r { Ok(v) => Ok((v.0@, v.1@)), Err(v) => Err(v@) }
        ) == value_held(m@, (match made { Ok(v) => Ok(v@), Err(v) => Err(v@) })),
{
    proof { reveal(value_held); }
    match made {
        Ok(value) => Ok((m, value)),
        Err(error) => Err(failure(m, error)),
    }
}

#[verifier::opaque]
pub open spec fn values_held(
    m: EvaluatorView,
    made: Result<Seq<ValueView>, EvalErrorView>,
) -> Result<(EvaluatorView, Seq<ValueView>), FailureView> {
    match made {
        Ok(values) => Ok((m, values)),
        Err(error) => Err(failed_with(m, error)),
    }
}

/// See [`values_held`].
pub fn hold_values(
    m: Evaluator,
    made: Result<Vec<Value>, EvalError>,
) -> (r: Result<(Evaluator, Vec<Value>), Failure>)
    ensures
        (match r { Ok(v) => Ok((v.0@, value_list_view(v.1@))), Err(v) => Err(v@) }) == values_held(
            m@,
            (match made { Ok(v) => Ok(value_list_view(v@)), Err(v) => Err(v@) }),
        ),
{
    proof { reveal(values_held); }
    match made {
        Ok(values) => Ok((m, values)),
        Err(error) => Err(failure(m, error)),
    }
}

#[verifier::opaque]
pub open spec fn text_held(
    m: EvaluatorView,
    made: Result<Seq<char>, EvalErrorView>,
) -> Result<(EvaluatorView, Seq<char>), FailureView> {
    match made {
        Ok(text) => Ok((m, text)),
        Err(error) => Err(failed_with(m, error)),
    }
}

/// See [`text_held`].
pub fn hold_text(
    m: Evaluator,
    made: Result<String, EvalError>,
) -> (r: Result<(Evaluator, String), Failure>)
    ensures
        (
            match r { Ok(v) => Ok((v.0@, v.1@)), Err(v) => Err(v@) }
        ) == text_held(m@, (match made { Ok(v) => Ok(v@), Err(v) => Err(v@) })),
{
    proof { reveal(text_held); }
    match made {
        Ok(text) => Ok((m, text)),
        Err(error) => Err(failure(m, error)),
    }
}

#[verifier::opaque]
pub open spec fn index_held(
    m: EvaluatorView,
    made: Result<i64, EvalErrorView>,
) -> Result<(EvaluatorView, i64), FailureView> {
    match made {
        Ok(n) => Ok((m, n)),
        Err(error) => Err(failed_with(m, error)),
    }
}

/// See [`index_held`].
pub fn hold_index(
    m: Evaluator,
    made: Result<i64, EvalError>,
) -> (r: Result<(Evaluator, i64), Failure>)
    ensures
        (
            match r { Ok(v) => Ok((v.0@, v.1)), Err(v) => Err(v@) }
        ) == index_held(m@, (match made { Ok(v) => Ok(v), Err(v) => Err(v@) })),
{
    proof { reveal(index_held); }
    match made {
        Ok(n) => Ok((m, n)),
        Err(error) => Err(failure(m, error)),
    }
}

#[verifier::opaque]
pub open spec fn flag_held(
    m: EvaluatorView,
    made: Result<bool, EvalErrorView>,
) -> Result<(EvaluatorView, bool), FailureView> {
    match made {
        Ok(flag) => Ok((m, flag)),
        Err(error) => Err(failed_with(m, error)),
    }
}

/// See [`flag_held`].
pub fn hold_flag(
    m: Evaluator,
    made: Result<bool, EvalError>,
) -> (r: Result<(Evaluator, bool), Failure>)
    ensures
        (
            match r { Ok(v) => Ok((v.0@, v.1)), Err(v) => Err(v@) }
        ) == flag_held(m@, (match made { Ok(v) => Ok(v), Err(v) => Err(v@) })),
{
    proof { reveal(flag_held); }
    match made {
        Ok(flag) => Ok((m, flag)),
        Err(error) => Err(failure(m, error)),
    }
}

#[verifier::opaque]
pub open spec fn failed_by_type(m: EvaluatorView, message: Seq<char>) -> FailureView {
    failed_with(m, EvalErrorView::TypeError(message))
}

/// See [`failed_by_type`].
pub fn type_failed(m: Evaluator, message: String) -> (r: Failure)
    ensures
        r@ == failed_by_type(m@, message@),
{
    proof { reveal(failed_by_type); }
    failure(m, EvalError::TypeError(message))
}

#[verifier::opaque]
pub open spec fn unsupported_in(m: EvaluatorView, what: Seq<char>) -> FailureView {
    failed_with(m, EvalErrorView::Unsupported(what))
}

/// See [`unsupported_in`].
pub fn not_supported(m: Evaluator, what: &str) -> (r: Failure)
    ensures
        r@ == unsupported_in(m@, what@),
{
    proof { reveal(unsupported_in); }
    failure(m, EvalError::Unsupported(what.to_owned()))
}

/// The value of a name, looked up outward from a scope.
pub open spec fn value_in_scope(
    scopes: Seq<ScopeView>,
    env: usize,
    name: Seq<char>,
) -> Option<ValueView>
    decreases env as nat,
{
    if env < scopes.len() {
        match slot_named(scopes[env as int].vars, name) {
            Some(value) => Some(value),
            None => match scopes[env as int].parent {
                Some(parent) => if parent < env {
                    value_in_scope(scopes, parent, name)
                } else {
                    None
                },
                None => None,
            },
        }
    } else {
        None
    }
}

/// See [`value_in_scope`].
pub fn lookup(scopes: &Vec<Scope>, env: usize, name: &String) -> (r: Option<Value>)
    ensures
        opt_view(r) == value_in_scope(frame_list_view(scopes@), env, name@),
    decreases env as nat,
{
    if env < scopes.len() {
        match find_slot_value(&scopes[env].vars, name) {
            Some(value) => Some(value),
            None => {
                match &scopes[env].parent {
                    Some(parent) => {
                        if *parent < env {
                            lookup(scopes, *parent, name)
                        } else {
                            None
                        }
                    },
                    None => None,
                }
            },
        }
    } else {
        None
    }
}

/// The scope that a name belongs to.
pub open spec fn scope_of_name(
    scopes: Seq<ScopeView>,
    env: usize,
    name: Seq<char>,
) -> Option<usize>
    decreases env as nat,
{
    if env < scopes.len() {
        match slot_named(scopes[env as int].vars, name) {
            Some(_) => Some(env),
            None => match scopes[env as int].parent {
                Some(parent) => if parent < env {
                    scope_of_name(scopes, parent, name)
                } else {
                    None
                },
                None => None,
            },
        }
    } else {
        None
    }
}

/// See [`scope_of_name`].
pub fn defining_scope(scopes: &Vec<Scope>, env: usize, name: &String) -> (r: Option<usize>)
    ensures
        r == scope_of_name(frame_list_view(scopes@), env, name@),
    decreases env as nat,
{
    if env < scopes.len() {
        match find_slot_value(&scopes[env].vars, name) {
            Some(_) => Some(env),
            None => {
                match &scopes[env].parent {
                    Some(parent) => {
                        if *parent < env {
                            defining_scope(scopes, *parent, name)
                        } else {
                            None
                        }
                    },
                    None => None,
                }
            },
        }
    } else {
        None
    }
}

#[verifier::opaque]
pub open spec fn scope_and(scope: ScopeView, name: Seq<char>, value: ValueView) -> ScopeView {
    let vars = scope.vars;
    let vars = vars.push((name, value));
    ScopeView { vars, parent: scope.parent }
}

/// See [`scope_and`].
pub fn with_var(scope: Scope, name: &String, value: Value) -> (r: Scope)
    ensures
        r@ == scope_and(scope@, name@, value@),
{
    proof { reveal(scope_and); }
    let mut vars = scope.vars;
    let item = (name.clone(), value);
    let ghost before = field_value_list_view(vars@);
    let ghost added = (item.0@, item.1@);
    vars.push(item);
    assert(field_value_list_view(vars@) =~= before.push(added));
    let scope2 = Scope { vars, parent: scope.parent };
    proof { unfold_scope(scope2); }
    scope2
}

/// Bind a name in a scope. What it was bound to there is hidden.
#[verifier::opaque]
pub open spec fn name_defined(
    m: EvaluatorView,
    env: usize,
    name: Seq<char>,
    value: ValueView,
) -> EvaluatorView {
    if env < m.scopes.len() {
        let scope = scope_and(m.scopes[env as int], name, value);
        EvaluatorView {
            scopes: scopes_with(m.scopes, env, scope),
            closures: m.closures,
            structs: m.structs,
            output: m.output,
        }
    } else {
        m
    }
}

/// See [`name_defined`].
pub fn define_name(m: Evaluator, env: usize, name: &String, value: Value) -> (r: Evaluator)
    ensures
        r@ == name_defined(m@, env, name@, value@),
{
    proof { reveal(name_defined); }
    if env < m.scopes.len() {
        let scope = with_var(clone_scope((&m.scopes[env])), name, value);
        let evaluator = Evaluator {
            scopes: set_scope(m.scopes, env, scope),
            closures: m.closures,
            structs: m.structs,
            output: m.output,
        };
        proof { unfold_evaluator(evaluator); }
        evaluator
    } else {
        m
    }
}

/// A new scope inside another, and its number.
#[verifier::opaque]
pub open spec fn scope_inside(m: EvaluatorView, parent: usize) -> (EvaluatorView, usize) {
    let number = m.scopes.len() as usize;
    let scopes = m.scopes;
    let scopes = scopes.push(ScopeView { vars: Seq::empty(), parent: Some(parent) });
    (EvaluatorView { scopes, closures: m.closures, structs: m.structs, output: m.output }, number)
}

/// See [`scope_inside`].
pub fn child_scope(m: Evaluator, parent: usize) -> (r: (Evaluator, usize))
    ensures
        (r.0@, r.1) == scope_inside(m@, parent),
{
    proof { reveal(scope_inside); }
    let number: usize = m.scopes.len();
    let mut scopes = m.scopes;
    let list: Vec<(String, Value)> = Vec::new();
    assert(field_value_list_view(list@) =~= Seq::<(Seq<char>, ValueView)>::empty());
    let scope = Scope { vars: list, parent: Some(parent) };
    proof { unfold_scope(scope); }
    let ghost before = frame_list_view(scopes@);
    let ghost added = scope@;
    scopes.push(scope);
    assert(frame_list_view(scopes@) =~= before.push(added));
    let evaluator = Evaluator {
        scopes,
        closures: m.closures,
        structs: m.structs,
        output: m.output,
    };
    proof { unfold_evaluator(evaluator); }
    (evaluator, number)
}

/// Give an existing name a new value, in the scope it belongs to.
#[verifier::opaque]
pub open spec fn name_assigned(
    m: EvaluatorView,
    env: usize,
    name: Seq<char>,
    value: ValueView,
    known: Seq<KnownView>,
) -> Result<EvaluatorView, FailureView> {
    match scope_of_name(m.scopes, env, name) {
        Some(at) => match value_in_scope(m.scopes, at, name) {
            Some(existing) => match value_held(m, like_before(value, existing, known)) {
                Ok(out) => {
                    let (m, coerced) = out;
                    Ok(name_defined(m, at, name, coerced))
                },
                Err(error) => Err(error),
            },
            None => Err(name_undeclared(m, name)),
        },
        None => Err(name_undeclared(m, name)),
    }
}

/// See [`name_assigned`].
pub fn assign(
    m: Evaluator,
    env: usize,
    name: &String,
    value: Value,
    known: &Vec<Known>,
) -> (r: Result<Evaluator, Failure>)
    ensures
        (match r { Ok(v) => Ok(v@), Err(v) => Err(v@) }) == name_assigned(
            m@,
            env,
            name@,
            value@,
            known_list_view(known@),
        ),
{
    proof { reveal(name_assigned); }
    match defining_scope(&m.scopes, env, name) {
        Some(at) => {
            match lookup(&m.scopes, at, name) {
                Some(existing) => {
                    let (m, coerced) = match hold_value(m, coerce_like(value, &existing, known)) {
                        Ok(done) => done,
                        Err(error) => {
                            return Err(error);
                        },
                    };
                    Ok(define_name(m, at, name, coerced))
                },
                None => Err(undeclared(m, name)),
            }
        },
        None => Err(undeclared(m, name)),
    }
}

#[verifier::opaque]
pub open spec fn name_undeclared(m: EvaluatorView, name: Seq<char>) -> FailureView {
    failed_with(
        m,
        EvalErrorView::Unsupported(
            "introducing a variable without 'var' ('"@ + name + " = \u{2026}'); write 'var "@ + name + ": T = \u{2026}'"@
        ),
    )
}

/// See [`name_undeclared`].
pub fn undeclared(m: Evaluator, name: &String) -> (r: Failure)
    ensures
        r@ == name_undeclared(m@, name@),
{
    proof { reveal(name_undeclared); }
    failure(
        m,
        EvalError::Unsupported(
            cat5(
                "introducing a variable without 'var' ('",
                name.as_str(),
                " = \u{2026}'); write 'var ",
                name.as_str(),
                ": T = \u{2026}'",
            )
        ),
    )
}

/// The value of a field.
pub open spec fn value_of_field(
    fields: Seq<(Seq<char>, ValueView)>,
    name: Seq<char>,
    i: nat,
) -> Option<ValueView>
    decreases fields, (fields.len() - i) as nat,
{
    if i >= fields.len() {
        None
    } else {
        let field = fields[i as int];
        if field.0 == name {
            Some(field.1)
        } else {
            value_of_field(fields, name, i + 1)
        }
    }
}

/// See [`value_of_field`].
pub fn field_value(fields: &Vec<(String, Value)>, name: &String) -> (r: Option<Value>)
    ensures
        opt_view(r) == value_of_field(field_value_list_view(fields@), name@, 0),
    decreases fields@, 0nat,
{
    let ghost goal = value_of_field(field_value_list_view(fields@), name@, 0);
    let mut i: usize = 0;
    while i < fields.len()
        invariant
            i <= fields@.len(),
            field_value_list_view(fields@).len() == fields@.len(),
            value_of_field(field_value_list_view(fields@), name@, i as nat) == goal,
            goal == value_of_field(field_value_list_view(fields@), name@, 0),
        decreases fields@.len() - i,
    {
        let field = &fields[i];
        assert(field_value_list_view(fields@)[i as int].0 =~= field.0@);
        assert(field_value_list_view(fields@)[i as int].1 =~= field.1@);
        if same_string(&field.0, name) {
            return Some(clone_value(&field.1));
        }
        i = i + 1;
    }
    None
}

/// The fields with the first one of a name replaced.
pub open spec fn fields_with(
    fields: Seq<(Seq<char>, ValueView)>,
    name: Seq<char>,
    value: ValueView,
    i: nat,
    out: Seq<(Seq<char>, ValueView)>,
    done: bool,
) -> Seq<(Seq<char>, ValueView)>
    decreases fields, (fields.len() - i) as nat,
{
    if i >= fields.len() {
        out
    } else {
        let field = fields[i as int];
        if !done && field.0 == name {
            let out = out.push((name, value));
            let done = true;
            fields_with(fields, name, value, i + 1, out, done)
        } else {
            let out = out.push((field.0, field.1));
            fields_with(fields, name, value, i + 1, out, done)
        }
    }
}

/// See [`fields_with`].
pub fn with_field(
    fields: &Vec<(String, Value)>,
    name: &String,
    value: &Value,
) -> (r: Vec<(String, Value)>)
    ensures
        field_value_list_view(r@) == fields_with(
            field_value_list_view(fields@),
            name@,
            value@,
            0,
            Seq::<(Seq<char>, ValueView)>::empty(),
            false,
        ),
    decreases fields@, 0nat,
{
    let mut out: Vec<(String, Value)> = Vec::new();
    assert(field_value_list_view(out@) =~= Seq::<(Seq<char>, ValueView)>::empty());
    let mut done: bool = false;
    let ghost goal = fields_with(
        field_value_list_view(fields@),
        name@,
        value@,
        0,
        Seq::<(Seq<char>, ValueView)>::empty(),
        false,
    );
    let mut i: usize = 0;
    while i < fields.len()
        invariant
            i <= fields@.len(),
            field_value_list_view(fields@).len() == fields@.len(),
            fields_with(
                field_value_list_view(fields@),
                name@,
                value@,
                i as nat,
                field_value_list_view(out@),
                done,
            ) == goal,
            goal == fields_with(
                field_value_list_view(fields@),
                name@,
                value@,
                0,
                Seq::<(Seq<char>, ValueView)>::empty(),
                false,
            ),
        decreases fields@.len() - i,
    {
        let field = &fields[i];
        assert(field_value_list_view(fields@)[i as int].0 =~= field.0@);
        assert(field_value_list_view(fields@)[i as int].1 =~= field.1@);
        if !done && same_string(&field.0, name) {
            let item = (name.clone(), clone_value(value));
            let ghost before = field_value_list_view(out@);
            let ghost added = (item.0@, item.1@);
            out.push(item);
            assert(field_value_list_view(out@) =~= before.push(added));
            done = true;
        } else {
            let item2 = ((&field.0).clone(), clone_value(&field.1));
            let ghost before2 = field_value_list_view(out@);
            let ghost added2 = (item2.0@, item2.1@);
            out.push(item2);
            assert(field_value_list_view(out@) =~= before2.push(added2));
        }
        i = i + 1;
    }
    out
}

/// One step from a value into a part of it.
#[verifier::opaque]
pub open spec fn part_at(
    value: ValueView,
    step: PathStepView,
) -> Result<ValueView, EvalErrorView> {
    match step {
        PathStepView::Field(name) => match value {
            ValueView::Struct { fields, .. } => match value_of_field(fields, name, 0) {
                Some(part) => Ok(part),
                None => Err(type_failure("no field '"@ + name + "'"@)),
            },
            _ => Err(type_failure("cannot access field '"@ + name + "' of "@ + type_shown(value))),
        },
        PathStepView::Index(i) => match value {
            ValueView::List(items) => element_within(items, i),
            _ => Err(type_failure("cannot index "@ + type_shown(value))),
        },
    }
}

/// See [`part_at`].
pub fn step_into(value: &Value, step: &PathStep) -> (r: Result<Value, EvalError>)
    ensures
        (match r { Ok(v) => Ok(v@), Err(v) => Err(v@) }) == part_at(value@, step@),
{
    proof { reveal(part_at); }
    match step {
        PathStep::Field(name) => {
            proof { unfold_value(*value); }
            match value {
                Value::Struct { fields, .. } => {
                    match field_value(fields, name) {
                        Some(part) => Ok(part),
                        None => Err(failed_type(cat3("no field '", name.as_str(), "'"))),
                    }
                },
                _ => {
                    assert(!(value@ is Struct));
                    Err(
                        failed_type(
                            cat4("cannot access field '", name.as_str(), "' of ", value_type_name(value).as_str())
                        )
                    )
                },
            }
        },
        PathStep::Index(i) => {
            proof { unfold_value(*value); }
            match value {
                Value::List(items) => element_of(items, *i),
                _ => {
                    assert(!(value@ is List));
                    Err(failed_type(cat2("cannot index ", value_type_name(value).as_str())))
                },
            }
        },
    }
}

#[verifier::opaque]
pub open spec fn element_within(
    items: Seq<ValueView>,
    i: i64,
) -> Result<ValueView, EvalErrorView> {
    match index_within(i, items.len() as usize, "list"@) {
        Ok(out) => {
            let idx = out;
            if idx < items.len() {
                Ok(items[idx as int])
            } else {
                Err(EvalErrorView::OutOfBounds)
            }
        },
        Err(error) => Err(error),
    }
}

/// See [`element_within`].
pub fn element_of(items: &Vec<Value>, i: i64) -> (r: Result<Value, EvalError>)
    ensures
        (
            match r { Ok(v) => Ok(v@), Err(v) => Err(v@) }
        ) == element_within(value_list_view(items@), i),
{
    proof { reveal(element_within); }
    let idx: usize = match bounds_check(i, items.len(), "list") {
        Ok(done) => done,
        Err(error) => {
            return Err(error);
        },
    };
    if idx < items.len() {
        Ok(clone_value((&items[idx])))
    } else {
        Err(EvalError::OutOfBounds)
    }
}

/// A value with a part of it replaced.
#[verifier::opaque]
pub open spec fn part_replaced(
    value: ValueView,
    step: PathStepView,
    part: ValueView,
) -> Result<ValueView, EvalErrorView> {
    match step {
        PathStepView::Field(name) => match value {
            ValueView::Struct { name: owner, fields, value_params } => Ok(
                ValueView::Struct {
                    name: owner,
                    fields: fields_with(fields, name, part, 0, Seq::empty(), false),
                    value_params,
                }
            ),
            _ => Err(type_failure("cannot access field '"@ + name + "' of "@ + type_shown(value))),
        },
        PathStepView::Index(i) => match value {
            ValueView::List(items) => match index_within(i, items.len() as usize, "list"@) {
                Ok(out) => {
                    let idx = out;
                    Ok(ValueView::List(list_replaced(items, idx, part, 0, Seq::empty(), 0)))
                },
                Err(error) => Err(error),
            },
            _ => Err(type_failure("cannot index "@ + type_shown(value))),
        },
    }
}

/// See [`part_replaced`].
pub fn step_back(value: &Value, step: &PathStep, part: &Value) -> (r: Result<Value, EvalError>)
    ensures
        (match r { Ok(v) => Ok(v@), Err(v) => Err(v@) }) == part_replaced(value@, step@, part@),
{
    proof { reveal(part_replaced); }
    match step {
        PathStep::Field(name) => {
            proof { unfold_value(*value); }
            match value {
                Value::Struct { name: owner, fields, value_params } => {
                    let value2 = Value::Struct {
                        name: owner.clone(),
                        fields: with_field(fields, name, part),
                        value_params: clone_field_value_list(value_params),
                    };
                    proof { unfold_value(value2); }
                    Ok(value2)
                },
                _ => {
                    assert(!(value@ is Struct));
                    Err(
                        failed_type(
                            cat4("cannot access field '", name.as_str(), "' of ", value_type_name(value).as_str())
                        )
                    )
                },
            }
        },
        PathStep::Index(i) => {
            proof { unfold_value(*value); }
            match value {
                Value::List(items) => {
                    let idx: usize = match bounds_check(*i, items.len(), "list") {
                        Ok(done) => done,
                        Err(error) => {
                            return Err(error);
                        },
                    };
                    let value3 = Value::List(replaced_at(items, idx, part));
                    proof { unfold_value(value3); }
                    Ok(value3)
                },
                _ => {
                    assert(!(value@ is List));
                    Err(failed_type(cat2("cannot index ", value_type_name(value).as_str())))
                },
            }
        },
    }
}

pub open spec fn list_replaced(
    items: Seq<ValueView>,
    at: usize,
    part: ValueView,
    i: nat,
    out: Seq<ValueView>,
    k: usize,
) -> Seq<ValueView>
    decreases items, (items.len() - i) as nat,
{
    if i >= items.len() {
        out
    } else {
        let item = items[i as int];
        let out = if k == at {
            let out = out.push(part);
            out
        } else {
            let out = out.push(item);
            out
        };
        let k = following_index(k);
        list_replaced(items, at, part, i + 1, out, k)
    }
}

/// See [`list_replaced`].
pub fn replaced_at(items: &Vec<Value>, at: usize, part: &Value) -> (r: Vec<Value>)
    ensures
        value_list_view(r@) == list_replaced(
            value_list_view(items@),
            at,
            part@,
            0,
            Seq::<ValueView>::empty(),
            0,
        ),
    decreases items@, 0nat,
{
    let mut out: Vec<Value> = Vec::new();
    assert(value_list_view(out@) =~= Seq::<ValueView>::empty());
    let mut k: usize = 0;
    let ghost goal = list_replaced(
        value_list_view(items@),
        at,
        part@,
        0,
        Seq::<ValueView>::empty(),
        0,
    );
    let mut i: usize = 0;
    while i < items.len()
        invariant
            i <= items@.len(),
            value_list_view(items@).len() == items@.len(),
            list_replaced(
                value_list_view(items@),
                at,
                part@,
                i as nat,
                value_list_view(out@),
                k,
            ) == goal,
            goal == list_replaced(
                value_list_view(items@),
                at,
                part@,
                0,
                Seq::<ValueView>::empty(),
                0,
            ),
        decreases items@.len() - i,
    {
        let item = &items[i];
        assert(value_list_view(items@)[i as int] == item@);
        if k == at {
            let item2 = clone_value(part);
            let ghost before = value_list_view(out@);
            let ghost added = item2@;
            out.push(item2);
            assert(value_list_view(out@) =~= before.push(added));
        } else {
            let item3 = clone_value(item);
            let ghost before2 = value_list_view(out@);
            let ghost added2 = item3@;
            out.push(item3);
            assert(value_list_view(out@) =~= before2.push(added2));
        }
        k = next_index(k);
        i = i + 1;
    }
    out
}

/// What the first steps of a path lead to.
pub open spec fn part_of_path(
    path: Seq<PathStepView>,
    root: ValueView,
    count: usize,
    i: nat,
    slot: ValueView,
    k: usize,
) -> Result<ValueView, EvalErrorView>
    decreases path, (path.len() - i) as nat,
{
    if i >= path.len() {
        Ok(slot)
    } else {
        let step = path[i as int];
        if k >= count {
            Ok(slot)
        } else {
            match part_at(slot, step) {
                Ok(out) => {
                    let next = out;
                    let slot = next;
                    let k = following_index(k);
                    part_of_path(path, root, count, i + 1, slot, k)
                },
                Err(error) => Err(error),
            }
        }
    }
}

/// See [`part_of_path`].
pub fn navigate(
    path: &Vec<PathStep>,
    root: &Value,
    count: usize,
) -> (r: Result<Value, EvalError>)
    ensures
        (match r { Ok(v) => Ok(v@), Err(v) => Err(v@) }) == part_of_path(
            path_step_list_view(path@),
            root@,
            count,
            0,
            root@,
            0,
        ),
    decreases path@, 0nat,
{
    let mut slot: Value = clone_value(root);
    let mut k: usize = 0;
    let ghost goal = part_of_path(path_step_list_view(path@), root@, count, 0, root@, 0);
    let mut i: usize = 0;
    while i < path.len()
        invariant
            i <= path@.len(),
            path_step_list_view(path@).len() == path@.len(),
            part_of_path(path_step_list_view(path@), root@, count, i as nat, slot@, k) == goal,
            goal == part_of_path(path_step_list_view(path@), root@, count, 0, root@, 0),
        decreases path@.len() - i,
    {
        let step = &path[i];
        assert(path_step_list_view(path@)[i as int] == step@);
        if k >= count {
            return Ok(slot);
        }
        let next = match step_into(&slot, step) {
            Ok(done) => done,
            Err(error) => {
                return Err(error);
            },
        };
        slot = next;
        k = next_index(k);
        i = i + 1;
    }
    Ok(slot)
}

/// A root with what a path leads to replaced, from the inside out.
pub open spec fn root_with(
    root: ValueView,
    path: Seq<PathStepView>,
    count: usize,
    part: ValueView,
) -> Result<ValueView, EvalErrorView>
    decreases count as nat,
{
    if count > 0 && count <= path.len() {
        match part_of_path(path, root, (count - 1) as usize, 0, root, 0) {
            Ok(out) => {
                let container = out;
                match part_replaced(container, path[(count - 1) as usize as int], part) {
                    Ok(out) => {
                        let made = out;
                        root_with(root, path, (count - 1) as usize, made)
                    },
                    Err(error) => Err(error),
                }
            },
            Err(error) => Err(error),
        }
    } else {
        Ok(part)
    }
}

/// See [`root_with`].
pub fn rebuilt(
    root: &Value,
    path: &Vec<PathStep>,
    count: usize,
    part: Value,
) -> (r: Result<Value, EvalError>)
    ensures
        (match r { Ok(v) => Ok(v@), Err(v) => Err(v@) }) == root_with(
            root@,
            path_step_list_view(path@),
            count,
            part@,
        ),
    decreases count as nat,
{
    if count > 0 && count <= path.len() {
        let container = match navigate(path, root, count - 1) {
            Ok(done) => done,
            Err(error) => {
                return Err(error);
            },
        };
        let made = match step_back(&container, &path[count - 1], &part) {
            Ok(done) => done,
            Err(error) => {
                return Err(error);
            },
        };
        rebuilt(root, path, count - 1, made)
    } else {
        Ok(part)
    }
}

/// What a write puts at a place: the value, or what an operator makes of it.
#[verifier::opaque]
pub open spec fn value_written(
    current: ValueView,
    op: Option<InfixOp>,
    value: ValueView,
    known: Seq<KnownView>,
) -> Result<ValueView, EvalErrorView> {
    match op {
        Some(op) => operator_on(op, current, value, known),
        None => Ok(value),
    }
}

/// See [`value_written`].
pub fn written(
    current: &Value,
    op: Option<InfixOp>,
    value: &Value,
    known: &Vec<Known>,
) -> (r: Result<Value, EvalError>)
    ensures
        (
            match r { Ok(v) => Ok(v@), Err(v) => Err(v@) }
        ) == value_written(current@, op, value@, known_list_view(known@)),
{
    proof { reveal(value_written); }
    match op {
        Some(op) => apply_infix(op, current, value, known),
        None => Ok(clone_value(value)),
    }
}

/// A root with a place in it written. The last step can go to a lane of a vector.
#[verifier::opaque]
pub open spec fn root_updated(
    root: ValueView,
    path: Seq<PathStepView>,
    op: Option<InfixOp>,
    value: ValueView,
    known: Seq<KnownView>,
) -> Result<ValueView, EvalErrorView> {
    let count = path.len() as usize;
    if count == 0 {
        match value_written(root, op, value, known) {
            Ok(out) => {
                let made = out;
                like_before(made, root, known)
            },
            Err(error) => Err(error),
        }
    } else {
        match part_of_path(path, root, (count - 1) as usize, 0, root, 0) {
            Ok(out) => {
                let container = out;
                match path[(count - 1) as usize as int] {
                    PathStepView::Index(i) => match container {
                        ValueView::Simd { dtype, lanes } => lane_updated(
                            root,
                            path,
                            dtype,
                            lanes,
                            i,
                            op,
                            value,
                            known,
                        ),
                        _ => slot_updated(root, path, op, value, known),
                    },
                    _ => slot_updated(root, path, op, value, known),
                }
            },
            Err(error) => Err(error),
        }
    }
}

/// See [`root_updated`].
pub fn updated(
    root: &Value,
    path: &Vec<PathStep>,
    op: Option<InfixOp>,
    value: &Value,
    known: &Vec<Known>,
) -> (r: Result<Value, EvalError>)
    ensures
        (match r { Ok(v) => Ok(v@), Err(v) => Err(v@) }) == root_updated(
            root@,
            path_step_list_view(path@),
            op,
            value@,
            known_list_view(known@),
        ),
{
    proof { reveal(root_updated); }
    let count: usize = path.len();
    if count == 0 {
        let made = match written(root, op, value, known) {
            Ok(done) => done,
            Err(error) => {
                return Err(error);
            },
        };
        coerce_like(made, root, known)
    } else {
        let container = match navigate(path, root, count - 1) {
            Ok(done) => done,
            Err(error) => {
                return Err(error);
            },
        };
        match &path[count - 1] {
            PathStep::Index(i) => {
                proof { unfold_value(container); }
                match &container {
                    Value::Simd { dtype, lanes } => updated_lane(
                        root,
                        path,
                        *dtype,
                        lanes,
                        *i,
                        op,
                        value,
                        known,
                    ),
                    _ => {
                        assert(!(container@ is Simd));
                        updated_slot(root, path, op, value, known)
                    },
                }
            },
            _ => {
                assert(!(path[count - 1 as int]@ is Index));
                updated_slot(root, path, op, value, known)
            },
        }
    }
}

#[verifier::opaque]
pub open spec fn lane_updated(
    root: ValueView,
    path: Seq<PathStepView>,
    dtype: Dtype,
    lanes: SimdLanesView,
    i: i64,
    op: Option<InfixOp>,
    value: ValueView,
    known: Seq<KnownView>,
) -> Result<ValueView, EvalErrorView> {
    match lane_read(dtype, lanes, i) {
        Ok(out) => {
            let current = out;
            match value_written(current, op, value, known) {
                Ok(out) => {
                    let made = out;
                    match lane_set(dtype, lanes, i, made, known) {
                        Ok(out) => {
                            let changed = out;
                            if path.len() > 0 {
                                root_with(
                                    root,
                                    path,
                                    (path.len() - 1) as usize,
                                    ValueView::Simd { dtype, lanes: changed },
                                )
                            } else {
                                Err(EvalErrorView::OutOfBounds)
                            }
                        },
                        Err(error) => Err(error),
                    }
                },
                Err(error) => Err(error),
            }
        },
        Err(error) => Err(error),
    }
}

/// See [`lane_updated`].
pub fn updated_lane(
    root: &Value,
    path: &Vec<PathStep>,
    dtype: Dtype,
    lanes: &SimdLanes,
    i: i64,
    op: Option<InfixOp>,
    value: &Value,
    known: &Vec<Known>,
) -> (r: Result<Value, EvalError>)
    ensures
        (match r { Ok(v) => Ok(v@), Err(v) => Err(v@) }) == lane_updated(
            root@,
            path_step_list_view(path@),
            dtype,
            lanes@,
            i,
            op,
            value@,
            known_list_view(known@),
        ),
{
    proof { reveal(lane_updated); }
    let current = match read_simd_lane(dtype, lanes, i) {
        Ok(done) => done,
        Err(error) => {
            return Err(error);
        },
    };
    let made = match written(&current, op, value, known) {
        Ok(done) => done,
        Err(error) => {
            return Err(error);
        },
    };
    let changed = match set_simd_lane(dtype, lanes, i, &made, known) {
        Ok(done) => done,
        Err(error) => {
            return Err(error);
        },
    };
    if path.len() > 0 {
        let value2 = Value::Simd { dtype, lanes: changed };
        proof { unfold_value(value2); }
        rebuilt(root, path, path.len() - 1, value2)
    } else {
        Err(EvalError::OutOfBounds)
    }
}

#[verifier::opaque]
pub open spec fn slot_updated(
    root: ValueView,
    path: Seq<PathStepView>,
    op: Option<InfixOp>,
    value: ValueView,
    known: Seq<KnownView>,
) -> Result<ValueView, EvalErrorView> {
    match part_of_path(path, root, path.len() as usize, 0, root, 0) {
        Ok(out) => {
            let slot = out;
            match value_written(slot, op, value, known) {
                Ok(out) => {
                    let made = out;
                    match like_before(made, slot, known) {
                        Ok(out) => {
                            let coerced = out;
                            root_with(root, path, path.len() as usize, coerced)
                        },
                        Err(error) => Err(error),
                    }
                },
                Err(error) => Err(error),
            }
        },
        Err(error) => Err(error),
    }
}

/// See [`slot_updated`].
pub fn updated_slot(
    root: &Value,
    path: &Vec<PathStep>,
    op: Option<InfixOp>,
    value: &Value,
    known: &Vec<Known>,
) -> (r: Result<Value, EvalError>)
    ensures
        (match r { Ok(v) => Ok(v@), Err(v) => Err(v@) }) == slot_updated(
            root@,
            path_step_list_view(path@),
            op,
            value@,
            known_list_view(known@),
        ),
{
    proof { reveal(slot_updated); }
    let slot = match navigate(path, root, path.len()) {
        Ok(done) => done,
        Err(error) => {
            return Err(error);
        },
    };
    let made = match written(&slot, op, value, known) {
        Ok(done) => done,
        Err(error) => {
            return Err(error);
        },
    };
    let coerced = match coerce_like(made, &slot, known) {
        Ok(done) => done,
        Err(error) => {
            return Err(error);
        },
    };
    rebuilt(root, path, path.len(), coerced)
}

/// Write a place of a variable, in the scope that the variable belongs to.
#[verifier::opaque]
pub open spec fn place_updated(
    m: EvaluatorView,
    env: usize,
    root: Seq<char>,
    path: Seq<PathStepView>,
    op: Option<InfixOp>,
    value: ValueView,
    known: Seq<KnownView>,
) -> Result<EvaluatorView, FailureView> {
    match scope_of_name(m.scopes, env, root) {
        Some(at) => match value_in_scope(m.scopes, at, root) {
            Some(existing) => match value_held(m, root_updated(existing, path, op, value, known)) {
                Ok(out) => {
                    let (m, made) = out;
                    Ok(name_defined(m, at, root, made))
                },
                Err(error) => Err(error),
            },
            None => Err(failed_with(m, EvalErrorView::UndefinedVariable(root))),
        },
        None => Err(failed_with(m, EvalErrorView::UndefinedVariable(root))),
    }
}

/// See [`place_updated`].
pub fn update_place(
    m: Evaluator,
    env: usize,
    root: &String,
    path: &Vec<PathStep>,
    op: Option<InfixOp>,
    value: &Value,
    known: &Vec<Known>,
) -> (r: Result<Evaluator, Failure>)
    ensures
        (match r { Ok(v) => Ok(v@), Err(v) => Err(v@) }) == place_updated(
            m@,
            env,
            root@,
            path_step_list_view(path@),
            op,
            value@,
            known_list_view(known@),
        ),
{
    proof { reveal(place_updated); }
    match defining_scope(&m.scopes, env, root) {
        Some(at) => {
            match lookup(&m.scopes, at, root) {
                Some(existing) => {
                    let (m, made) = match hold_value(
                        m,
                        updated(&existing, path, op, value, known),
                    ) {
                        Ok(done) => done,
                        Err(error) => {
                            return Err(error);
                        },
                    };
                    Ok(define_name(m, at, root, made))
                },
                None => Err(failure(m, EvalError::UndefinedVariable(root.clone()))),
            }
        },
        None => Err(failure(m, EvalError::UndefinedVariable(root.clone()))),
    }
}

/// Put a value at a place as it is.
#[verifier::opaque]
pub open spec fn place_put(
    m: EvaluatorView,
    env: usize,
    root: Seq<char>,
    path: Seq<PathStepView>,
    value: ValueView,
) -> Result<EvaluatorView, FailureView> {
    match scope_of_name(m.scopes, env, root) {
        Some(at) => match value_in_scope(m.scopes, at, root) {
            Some(existing) => match value_held(
                m,
                root_with(existing, path, path.len() as usize, value),
            ) {
                Ok(out) => {
                    let (m, made) = out;
                    Ok(name_defined(m, at, root, made))
                },
                Err(error) => Err(error),
            },
            None => Err(failed_with(m, EvalErrorView::UndefinedVariable(root))),
        },
        None => Err(failed_with(m, EvalErrorView::UndefinedVariable(root))),
    }
}

/// See [`place_put`].
pub fn put_place(
    m: Evaluator,
    env: usize,
    root: &String,
    path: &Vec<PathStep>,
    value: Value,
) -> (r: Result<Evaluator, Failure>)
    ensures
        (match r { Ok(v) => Ok(v@), Err(v) => Err(v@) }) == place_put(
            m@,
            env,
            root@,
            path_step_list_view(path@),
            value@,
        ),
{
    proof { reveal(place_put); }
    match defining_scope(&m.scopes, env, root) {
        Some(at) => {
            match lookup(&m.scopes, at, root) {
                Some(existing) => {
                    let (m, made) = match hold_value(
                        m,
                        rebuilt(&existing, path, path.len(), value),
                    ) {
                        Ok(done) => done,
                        Err(error) => {
                            return Err(error);
                        },
                    };
                    Ok(define_name(m, at, root, made))
                },
                None => Err(failure(m, EvalError::UndefinedVariable(root.clone()))),
            }
        },
        None => Err(failure(m, EvalError::UndefinedVariable(root.clone()))),
    }
}

/// The value at a place.
#[verifier::opaque]
pub open spec fn place_read(
    scopes: Seq<ScopeView>,
    env: usize,
    root: Seq<char>,
    path: Seq<PathStepView>,
) -> Result<ValueView, EvalErrorView> {
    match value_in_scope(scopes, env, root) {
        Some(existing) => part_of_path(path, existing, path.len() as usize, 0, existing, 0),
        None => Err(EvalErrorView::UndefinedVariable(root)),
    }
}

/// See [`place_read`].
pub fn read_place(
    scopes: &Vec<Scope>,
    env: usize,
    root: &String,
    path: &Vec<PathStep>,
) -> (r: Result<Value, EvalError>)
    ensures
        (match r { Ok(v) => Ok(v@), Err(v) => Err(v@) }) == place_read(
            frame_list_view(scopes@),
            env,
            root@,
            path_step_list_view(path@),
        ),
{
    proof { reveal(place_read); }
    match lookup(scopes, env, root) {
        Some(existing) => navigate(path, &existing, path.len()),
        None => Err(EvalError::UndefinedVariable(root.clone())),
    }
}

#[verifier::opaque]
pub open spec fn prefix_applied(
    op: PrefixOp,
    value: ValueView,
    known: Seq<KnownView>,
) -> Result<ValueView, EvalErrorView> {
    match op {
        PrefixOp::Neg => match value {
            ValueView::Int(n) => int_if_fits(fit(0 - n)),
            ValueView::Float64(bits) => match bits_asked(known, QuestionView::Negated(bits)) {
                Ok(out) => {
                    let negated = out;
                    Ok(ValueView::Float64(negated))
                },
                Err(error) => Err(error),
            },
            _ => Err(type_failure("cannot negate "@ + type_shown(value))),
        },
        PrefixOp::Not => match value {
            ValueView::Bool(b) => Ok(ValueView::Bool(!b)),
            _ => Err(type_failure("'not' requires Bool, got "@ + type_shown(value))),
        },
    }
}

/// See [`prefix_applied`].
pub fn prefix_value(
    op: PrefixOp,
    value: &Value,
    known: &Vec<Known>,
) -> (r: Result<Value, EvalError>)
    ensures
        (
            match r { Ok(v) => Ok(v@), Err(v) => Err(v@) }
        ) == prefix_applied(op, value@, known_list_view(known@)),
{
    proof { reveal(prefix_applied); }
    match op {
        PrefixOp::Neg => {
            proof { unfold_value(*value); }
            match value {
                Value::Int(n) => in_int(checked_difference(0, *n)),
                Value::Float64(bits) => {
                    let negated: u64 = match asked_bits(known, Question::Negated(*bits)) {
                        Ok(done) => done,
                        Err(error) => {
                            return Err(error);
                        },
                    };
                    let value2 = Value::Float64(negated);
                    proof { unfold_value(value2); }
                    Ok(value2)
                },
                _ => {
                    assert(!(value@ is Int));
                    assert(!(value@ is Float64));
                    Err(failed_type(cat2("cannot negate ", value_type_name(value).as_str())))
                },
            }
        },
        PrefixOp::Not => {
            proof { unfold_value(*value); }
            match value {
                Value::Bool(b) => {
                    let value3 = Value::Bool(!(*b));
                    proof { unfold_value(value3); }
                    Ok(value3)
                },
                _ => {
                    assert(!(value@ is Bool));
                    Err(failed_type(cat2("'not' requires Bool, got ", value_type_name(value).as_str())))
                },
            }
        },
    }
}

#[verifier::opaque]
pub open spec fn truth_of(value: ValueView) -> Result<bool, EvalErrorView> {
    match value {
        ValueView::Bool(b) => Ok(b),
        _ => Err(type_failure("expected Bool, got "@ + type_shown(value))),
    }
}

/// See [`truth_of`].
pub fn bool_value(value: &Value) -> (r: Result<bool, EvalError>)
    ensures
        (match r { Ok(v) => Ok(v), Err(v) => Err(v@) }) == truth_of(value@),
{
    proof { reveal(truth_of); }
    proof { unfold_value(*value); }
    match value {
        Value::Bool(b) => Ok(*b),
        _ => {
            assert(!(value@ is Bool));
            Err(failed_type(cat2("expected Bool, got ", value_type_name(value).as_str())))
        },
    }
}

/// The part of a value at an index.
#[verifier::opaque]
pub open spec fn value_indexed(object: ValueView, idx: i64) -> Result<ValueView, EvalErrorView> {
    match object {
        ValueView::Simd { dtype, lanes } => lane_read(dtype, lanes, idx),
        ValueView::List(items) => element_within(items, idx),
        ValueView::Tuple(items) => match index_within(idx, items.len() as usize, "tuple"@) {
            Ok(out) => {
                let i = out;
                if i < items.len() {
                    Ok(items[i as int])
                } else {
                    Err(EvalErrorView::OutOfBounds)
                }
            },
            Err(error) => Err(error),
        },
        _ => Err(type_failure("cannot index "@ + type_shown(object))),
    }
}

/// See [`value_indexed`].
pub fn value_at_index(object: &Value, idx: i64) -> (r: Result<Value, EvalError>)
    ensures
        (match r { Ok(v) => Ok(v@), Err(v) => Err(v@) }) == value_indexed(object@, idx),
{
    proof { reveal(value_indexed); }
    proof { unfold_value(*object); }
    match object {
        Value::Simd { dtype, lanes } => read_simd_lane(*dtype, lanes, idx),
        Value::List(items) => element_of(items, idx),
        Value::Tuple(items) => {
            let i: usize = match bounds_check(idx, items.len(), "tuple") {
                Ok(done) => done,
                Err(error) => {
                    return Err(error);
                },
            };
            if i < items.len() {
                Ok(clone_value((&items[i])))
            } else {
                Err(EvalError::OutOfBounds)
            }
        },
        _ => {
            assert(!(object@ is Simd));
            assert(!(object@ is List));
            assert(!(object@ is Tuple));
            Err(failed_type(cat2("cannot index ", value_type_name(object).as_str())))
        },
    }
}

#[verifier::opaque]
pub open spec fn member_read(
    object: ValueView,
    field: Seq<char>,
) -> Result<ValueView, EvalErrorView> {
    match object {
        ValueView::Struct { name, fields, .. } => match value_of_field(fields, field, 0) {
            Some(value) => Ok(value),
            None => Err(type_failure("'"@ + name + "' has no field '"@ + field + "'"@)),
        },
        _ => Err(type_failure("cannot access field '"@ + field + "' of "@ + type_shown(object))),
    }
}

/// See [`member_read`].
pub fn member_value(object: &Value, field: &String) -> (r: Result<Value, EvalError>)
    ensures
        (match r { Ok(v) => Ok(v@), Err(v) => Err(v@) }) == member_read(object@, field@),
{
    proof { reveal(member_read); }
    proof { unfold_value(*object); }
    match object {
        Value::Struct { name, fields, .. } => {
            match field_value(fields, field) {
                Some(value) => Ok(value),
                None => Err(failed_type(cat5("'", name.as_str(), "' has no field '", field.as_str(), "'"))),
            }
        },
        _ => {
            assert(!(object@ is Struct));
            Err(failed_type(cat4("cannot access field '", field.as_str(), "' of ", value_type_name(object).as_str())))
        },
    }
}

/// The value parameter that `Self.` and a name read, inside a method.
#[verifier::opaque]
pub open spec fn param_of_self(
    scopes: Seq<ScopeView>,
    env: usize,
    field: Seq<char>,
) -> Option<ValueView> {
    match value_in_scope(scopes, env, "self"@) {
        Some(receiver) => match receiver {
            ValueView::Struct { value_params, .. } => value_of_field(value_params, field, 0),
            _ => None,
        },
        None => None,
    }
}

/// See [`param_of_self`].
pub fn self_param(scopes: &Vec<Scope>, env: usize, field: &String) -> (r: Option<Value>)
    ensures
        opt_view(r) == param_of_self(frame_list_view(scopes@), env, field@),
{
    proof { reveal(param_of_self); }
    match lookup(scopes, env, &"self".to_owned()) {
        Some(receiver) => {
            proof { unfold_value(receiver); }
            match receiver {
                Value::Struct { value_params, .. } => field_value(&value_params, field),
                _ => {
                    assert(!(receiver@ is Struct));
                    None
                },
            }
        },
        None => None,
    }
}

pub open spec fn arity_list(closures: Seq<ClosureView>, i: nat, out: Seq<usize>) -> Seq<usize>
    decreases closures, (closures.len() - i) as nat,
{
    if i >= closures.len() {
        out
    } else {
        let closure = closures[i as int];
        let out = out.push(closure.params.len() as usize);
        arity_list(closures, i + 1, out)
    }
}

/// See [`arity_list`].
pub fn arities(closures: &Vec<Closure>) -> (r: Vec<usize>)
    ensures
        r@ == arity_list(closure_list_view(closures@), 0, Seq::<usize>::empty()),
    decreases closures@, 0nat,
{
    let mut out: Vec<usize> = Vec::new();
    let ghost goal = arity_list(closure_list_view(closures@), 0, Seq::<usize>::empty());
    let mut i: usize = 0;
    while i < closures.len()
        invariant
            i <= closures@.len(),
            closure_list_view(closures@).len() == closures@.len(),
            arity_list(closure_list_view(closures@), i as nat, out@) == goal,
            goal == arity_list(closure_list_view(closures@), 0, Seq::<usize>::empty()),
        decreases closures@.len() - i,
    {
        let closure = &closures[i];
        assert(closure_list_view(closures@)[i as int] == closure@);
        out.push(closure.params.len());
        i = i + 1;
    }
    out
}

pub open spec fn printed_line(
    values: Seq<ValueView>,
    arity: Seq<usize>,
    known: Seq<KnownView>,
    i: nat,
    out: Seq<char>,
    first: bool,
) -> Result<Seq<char>, EvalErrorView>
    decreases values, (values.len() - i) as nat,
{
    if i >= values.len() {
        Ok(out)
    } else {
        let value = values[i as int];
        match value_shown(value, arity, known) {
            Ok(taken) => {
                let one = taken;
                let out = if first {
                    one
                } else {
                    out + " "@ + one
                };
                let first = false;
                printed_line(values, arity, known, i + 1, out, first)
            },
            Err(error) => Err(error),
        }
    }
}

/// See [`printed_line`].
pub fn line_of(
    values: &Vec<Value>,
    arity: &Vec<usize>,
    known: &Vec<Known>,
) -> (r: Result<String, EvalError>)
    ensures
        (match r { Ok(v) => Ok(v@), Err(v) => Err(v@) }) == printed_line(
            value_list_view(values@),
            arity@,
            known_list_view(known@),
            0,
            ""@,
            true,
        ),
    decreases values@, 0nat,
{
    let mut out: String = "".to_owned();
    let mut first: bool = true;
    let ghost goal = printed_line(
        value_list_view(values@),
        arity@,
        known_list_view(known@),
        0,
        ""@,
        true,
    );
    let mut i: usize = 0;
    while i < values.len()
        invariant
            i <= values@.len(),
            value_list_view(values@).len() == values@.len(),
            printed_line(
                value_list_view(values@),
                arity@,
                known_list_view(known@),
                i as nat,
                out@,
                first,
            ) == goal,
            goal == printed_line(
                value_list_view(values@),
                arity@,
                known_list_view(known@),
                0,
                ""@,
                true,
            ),
        decreases values@.len() - i,
    {
        let value = &values[i];
        assert(value_list_view(values@)[i as int] == value@);
        let one = match show_value(value, arity, known) {
            Ok(done) => done,
            Err(error) => {
                return Err(error);
            },
        };
        out = if first {
            one
        } else {
            cat3(out.as_str(), " ", &one.as_str())
        };
        first = false;
        i = i + 1;
    }
    Ok(out)
}

/// Print values: one line, with blanks between them.
#[verifier::opaque]
pub open spec fn values_printed(
    m: EvaluatorView,
    values: Seq<ValueView>,
    known: Seq<KnownView>,
) -> Result<(EvaluatorView, ValueView), FailureView> {
    let arity = arity_list(m.closures, 0, Seq::empty());
    match text_held(m, printed_line(values, arity, known, 0, ""@, true)) {
        Ok(out) => {
            let (m, line) = out;
            let output = m.output + line + "\n"@;
            Ok(
                (
                    EvaluatorView {
                        scopes: m.scopes,
                        closures: m.closures,
                        structs: m.structs,
                        output,
                    },
                    ValueView::NoneValue,
                )
            )
        },
        Err(error) => Err(error),
    }
}

/// See [`values_printed`].
pub fn print_values(
    m: Evaluator,
    values: &Vec<Value>,
    known: &Vec<Known>,
) -> (r: Result<(Evaluator, Value), Failure>)
    ensures
        (
            match r { Ok(v) => Ok((v.0@, v.1@)), Err(v) => Err(v@) }
        ) == values_printed(m@, value_list_view(values@), known_list_view(known@)),
{
    proof { reveal(values_printed); }
    let arity = arities(&m.closures);
    let (m, line) = match hold_text(m, line_of(values, &arity, known)) {
        Ok(done) => done,
        Err(error) => {
            return Err(error);
        },
    };
    let output = cat3(&m.output.as_str(), &line.as_str(), "\n");
    let evaluator = Evaluator {
        scopes: m.scopes,
        closures: m.closures,
        structs: m.structs,
        output,
    };
    proof { unfold_evaluator(evaluator); }
    Ok((evaluator, Value::NoneValue))
}

#[verifier::opaque]
pub open spec fn magnitude_of(
    value: ValueView,
    known: Seq<KnownView>,
) -> Result<ValueView, EvalErrorView> {
    match value {
        ValueView::Int(n) => Ok(ValueView::Int(absolute(n))),
        ValueView::Float64(bits) => match bits_asked(known, QuestionView::Magnitude(bits)) {
            Ok(out) => {
                let made = out;
                Ok(ValueView::Float64(made))
            },
            Err(error) => Err(error),
        },
        ValueView::UInt(n) => Ok(ValueView::UInt(n)),
        _ => Err(type_failure("abs() expects a numeric value, got "@ + type_shown(value))),
    }
}

/// See [`magnitude_of`].
pub fn abs_value(value: &Value, known: &Vec<Known>) -> (r: Result<Value, EvalError>)
    ensures
        (
            match r { Ok(v) => Ok(v@), Err(v) => Err(v@) }
        ) == magnitude_of(value@, known_list_view(known@)),
{
    proof { reveal(magnitude_of); }
    proof { unfold_value(*value); }
    match value {
        Value::Int(n) => {
            let value2 = Value::Int(magnitude(*n));
            proof { unfold_value(value2); }
            Ok(value2)
        },
        Value::Float64(bits) => {
            let made: u64 = match asked_bits(known, Question::Magnitude(*bits)) {
                Ok(done) => done,
                Err(error) => {
                    return Err(error);
                },
            };
            let value3 = Value::Float64(made);
            proof { unfold_value(value3); }
            Ok(value3)
        },
        Value::UInt(n) => {
            let value4 = Value::UInt(*n);
            proof { unfold_value(value4); }
            Ok(value4)
        },
        _ => {
            assert(!(value@ is Int));
            assert(!(value@ is Float64));
            assert(!(value@ is UInt));
            Err(failed_type(cat2("abs() expects a numeric value, got ", value_type_name(value).as_str())))
        },
    }
}

#[verifier::opaque]
pub open spec fn rounded(
    value: ValueView,
    known: Seq<KnownView>,
) -> Result<ValueView, EvalErrorView> {
    match float_of_value(value, known) {
        Ok(out) => {
            let bits = out;
            match bits_asked(known, QuestionView::Round(bits)) {
                Ok(out) => {
                    let made = out;
                    Ok(ValueView::Float64(made))
                },
                Err(error) => Err(error),
            }
        },
        Err(error) => Err(error),
    }
}

/// See [`rounded`].
pub fn round_value(value: &Value, known: &Vec<Known>) -> (r: Result<Value, EvalError>)
    ensures
        (
            match r { Ok(v) => Ok(v@), Err(v) => Err(v@) }
        ) == rounded(value@, known_list_view(known@)),
{
    proof { reveal(rounded); }
    let bits: u64 = match value_to_float(value, known) {
        Ok(done) => done,
        Err(error) => {
            return Err(error);
        },
    };
    let made: u64 = match asked_bits(known, Question::Round(bits)) {
        Ok(done) => done,
        Err(error) => {
            return Err(error);
        },
    };
    let value2 = Value::Float64(made);
    proof { unfold_value(value2); }
    Ok(value2)
}

#[verifier::opaque]
pub open spec fn size_of_text(s: Seq<char>) -> ValueView {
    let n = (byte_offset(s, s.len()) as usize);
    value_of_size(n)
}

/// See [`size_of_text`].
pub fn text_size(s: &String) -> (r: Value)
    ensures
        r@ == size_of_text(s@),
{
    proof { reveal(size_of_text); }
    let n: usize = bytes_of(s);
    size_value(n)
}

#[verifier::opaque]
pub open spec fn len_result(value: ValueView) -> Result<ValueView, EvalErrorView> {
    match value {
        ValueView::Str(s) => Ok(size_of_text(s)),
        ValueView::List(items) => Ok(value_of_size(items.len() as usize)),
        _ => Err(type_failure("len() expects a String or List, got "@ + type_shown(value))),
    }
}

/// See [`len_result`].
pub fn len_value(value: &Value) -> (r: Result<Value, EvalError>)
    ensures
        (match r { Ok(v) => Ok(v@), Err(v) => Err(v@) }) == len_result(value@),
{
    proof { reveal(len_result); }
    proof { unfold_value(*value); }
    match value {
        Value::Str(s) => Ok(text_size(s)),
        Value::List(items) => Ok(size_value(items.len())),
        _ => {
            assert(!(value@ is Str));
            assert(!(value@ is List));
            Err(failed_type(cat2("len() expects a String or List, got ", value_type_name(value).as_str())))
        },
    }
}

#[verifier::opaque]
pub open spec fn error_made(value: ValueView) -> Result<ValueView, EvalErrorView> {
    match value {
        ValueView::Str(s) => Ok(ValueView::Error(s)),
        _ => Err(type_failure("Error() expects a String, got "@ + type_shown(value))),
    }
}

/// See [`error_made`].
pub fn error_value(value: &Value) -> (r: Result<Value, EvalError>)
    ensures
        (match r { Ok(v) => Ok(v@), Err(v) => Err(v@) }) == error_made(value@),
{
    proof { reveal(error_made); }
    proof { unfold_value(*value); }
    match value {
        Value::Str(s) => {
            let value2 = Value::Error(s.clone());
            proof { unfold_value(value2); }
            Ok(value2)
        },
        _ => {
            assert(!(value@ is Str));
            Err(failed_type(cat2("Error() expects a String, got ", value_type_name(value).as_str())))
        },
    }
}

/// The built-in functions that take one value.
#[verifier::opaque]
pub open spec fn unary_builtin(name: Seq<char>) -> bool {
    name == "String"@ || name == "abs"@ || name == "round"@ || name == "len"@ || name == "Error"@
}

/// See [`unary_builtin`].
pub fn is_unary_builtin(name: &String) -> (r: bool)
    ensures
        r == unary_builtin(name@),
{
    proof { reveal(unary_builtin); }
    same_text(
        name.as_str(),
        "String",
    ) || same_text(name.as_str(), "abs") || same_text(
        name.as_str(),
        "round",
    ) || same_text(name.as_str(), "len") || same_text(name.as_str(), "Error")
}

#[verifier::opaque]
pub open spec fn unary_result(
    name: Seq<char>,
    value: ValueView,
    arity: Seq<usize>,
    known: Seq<KnownView>,
) -> Result<ValueView, EvalErrorView> {
    if name == "String"@ {
        match value_shown(value, arity, known) {
            Ok(out) => {
                let shown = out;
                Ok(ValueView::Str(shown))
            },
            Err(error) => Err(error),
        }
    } else if name == "abs"@ {
        magnitude_of(value, known)
    } else if name == "round"@ {
        rounded(value, known)
    } else if name == "len"@ {
        len_result(value)
    } else {
        error_made(value)
    }
}

/// See [`unary_result`].
pub fn unary_value(
    name: &String,
    value: &Value,
    arity: &Vec<usize>,
    known: &Vec<Known>,
) -> (r: Result<Value, EvalError>)
    ensures
        (
            match r { Ok(v) => Ok(v@), Err(v) => Err(v@) }
        ) == unary_result(name@, value@, arity@, known_list_view(known@)),
{
    proof { reveal(unary_result); }
    if same_text(name.as_str(), "String") {
        let shown = match show_value(value, arity, known) {
            Ok(done) => done,
            Err(error) => {
                return Err(error);
            },
        };
        let value2 = Value::Str(shown);
        proof { unfold_value(value2); }
        Ok(value2)
    } else if same_text(name.as_str(), "abs") {
        abs_value(value, known)
    } else if same_text(name.as_str(), "round") {
        round_value(value, known)
    } else if same_text(name.as_str(), "len") {
        len_value(value)
    } else {
        error_value(value)
    }
}

/// The smaller or the larger of two numbers, taken to a common kind.
#[verifier::opaque]
pub open spec fn extreme(
    is_min: bool,
    a: ValueView,
    b: ValueView,
    known: Seq<KnownView>,
) -> Result<ValueView, EvalErrorView> {
    match number_of(a) {
        Some(x) => match number_of(b) {
            Some(y) => extreme_number(is_min, x, y, known),
            None => Err(nonnumeric(a, b)),
        },
        None => Err(nonnumeric(a, b)),
    }
}

/// See [`extreme`].
pub fn min_max_value(
    is_min: bool,
    a: &Value,
    b: &Value,
    known: &Vec<Known>,
) -> (r: Result<Value, EvalError>)
    ensures
        (
            match r { Ok(v) => Ok(v@), Err(v) => Err(v@) }
        ) == extreme(is_min, a@, b@, known_list_view(known@)),
{
    proof { reveal(extreme); }
    match as_num(a) {
        Some(x) => {
            match as_num(b) {
                Some(y) => extreme_num(is_min, x, y, known),
                None => Err(not_numeric(a, b)),
            }
        },
        None => Err(not_numeric(a, b)),
    }
}

#[verifier::opaque]
pub open spec fn nonnumeric(a: ValueView, b: ValueView) -> EvalErrorView {
    type_failure("min()/max() expect numeric values, got "@ + type_shown(a) + " and "@ + type_shown(b))
}

/// See [`nonnumeric`].
pub fn not_numeric(a: &Value, b: &Value) -> (r: EvalError)
    ensures
        r@ == nonnumeric(a@, b@),
{
    proof { reveal(nonnumeric); }
    failed_type(
        cat4(
            "min()/max() expect numeric values, got ",
            value_type_name(a).as_str(),
            " and ",
            value_type_name(b).as_str(),
        )
    )
}

#[verifier::opaque]
pub open spec fn extreme_number(
    is_min: bool,
    a: Num,
    b: Num,
    known: Seq<KnownView>,
) -> Result<ValueView, EvalErrorView> {
    if higher_rank(a, b) == 2 {
        match number_as_float(a, known) {
            Ok(out) => {
                let x = out;
                match number_as_float(b, known) {
                    Ok(out) => {
                        let y = out;
                        match flag_asked(known, QuestionView::Binary(InfixOp::Le, x, y)) {
                            Ok(out) => {
                                let below = out;
                                if below == is_min {
                                    Ok(ValueView::Float64(x))
                                } else {
                                    Ok(ValueView::Float64(y))
                                }
                            },
                            Err(error) => Err(error),
                        }
                    },
                    Err(error) => Err(error),
                }
            },
            Err(error) => Err(error),
        }
    } else if higher_rank(a, b) == 1 {
        match number_as_uint(a, known) {
            Ok(out) => {
                let x = out;
                match number_as_uint(b, known) {
                    Ok(out) => {
                        let y = out;
                        if (x <= y) == is_min {
                            Ok(ValueView::UInt(x))
                        } else {
                            Ok(ValueView::UInt(y))
                        }
                    },
                    Err(error) => Err(error),
                }
            },
            Err(error) => Err(error),
        }
    } else {
        match number_as_int(a, known) {
            Ok(out) => {
                let x = out;
                match number_as_int(b, known) {
                    Ok(out) => {
                        let y = out;
                        if (x <= y) == is_min {
                            Ok(ValueView::Int(x))
                        } else {
                            Ok(ValueView::Int(y))
                        }
                    },
                    Err(error) => Err(error),
                }
            },
            Err(error) => Err(error),
        }
    }
}

/// See [`extreme_number`].
pub fn extreme_num(
    is_min: bool,
    a: Num,
    b: Num,
    known: &Vec<Known>,
) -> (r: Result<Value, EvalError>)
    ensures
        (
            match r { Ok(v) => Ok(v@), Err(v) => Err(v@) }
        ) == extreme_number(is_min, a, b, known_list_view(known@)),
{
    proof { reveal(extreme_number); }
    if common_rank(a, b) == 2 {
        let x: u64 = match num_to_float(a, known) {
            Ok(done) => done,
            Err(error) => {
                return Err(error);
            },
        };
        let y: u64 = match num_to_float(b, known) {
            Ok(done) => done,
            Err(error) => {
                return Err(error);
            },
        };
        let below = match asked_flag(known, Question::Binary(InfixOp::Le, x, y)) {
            Ok(done) => done,
            Err(error) => {
                return Err(error);
            },
        };
        if below == is_min {
            let value = Value::Float64(x);
            proof { unfold_value(value); }
            Ok(value)
        } else {
            let value2 = Value::Float64(y);
            proof { unfold_value(value2); }
            Ok(value2)
        }
    } else if common_rank(a, b) == 1 {
        let x: u64 = match num_to_uint(a, known) {
            Ok(done) => done,
            Err(error) => {
                return Err(error);
            },
        };
        let y: u64 = match num_to_uint(b, known) {
            Ok(done) => done,
            Err(error) => {
                return Err(error);
            },
        };
        if (x <= y) == is_min {
            let value3 = Value::UInt(x);
            proof { unfold_value(value3); }
            Ok(value3)
        } else {
            let value4 = Value::UInt(y);
            proof { unfold_value(value4); }
            Ok(value4)
        }
    } else {
        let x: i64 = match num_to_int(a, known) {
            Ok(done) => done,
            Err(error) => {
                return Err(error);
            },
        };
        let y: i64 = match num_to_int(b, known) {
            Ok(done) => done,
            Err(error) => {
                return Err(error);
            },
        };
        if (x <= y) == is_min {
            let value5 = Value::Int(x);
            proof { unfold_value(value5); }
            Ok(value5)
        } else {
            let value6 = Value::Int(y);
            proof { unfold_value(value6); }
            Ok(value6)
        }
    }
}

/// The integers among the arguments of `range`.
pub open spec fn range_numbers(
    values: Seq<ValueView>,
    i: nat,
    out: Seq<i64>,
) -> Result<Seq<i64>, EvalErrorView>
    decreases values, (values.len() - i) as nat,
{
    if i >= values.len() {
        Ok(out)
    } else {
        let value = values[i as int];
        match range_number(value) {
            Ok(taken) => {
                let n = taken;
                let out = out.push(n);
                range_numbers(values, i + 1, out)
            },
            Err(error) => Err(error),
        }
    }
}

/// See [`range_numbers`].
pub fn range_ints(values: &Vec<Value>) -> (r: Result<Vec<i64>, EvalError>)
    ensures
        (match r { Ok(v) => Ok(v@), Err(v) => Err(v@) }) == range_numbers(
            value_list_view(values@),
            0,
            Seq::<i64>::empty(),
        ),
    decreases values@, 0nat,
{
    let mut out: Vec<i64> = Vec::new();
    let ghost goal = range_numbers(value_list_view(values@), 0, Seq::<i64>::empty());
    let mut i: usize = 0;
    while i < values.len()
        invariant
            i <= values@.len(),
            value_list_view(values@).len() == values@.len(),
            range_numbers(value_list_view(values@), i as nat, out@) == goal,
            goal == range_numbers(value_list_view(values@), 0, Seq::<i64>::empty()),
        decreases values@.len() - i,
    {
        let value = &values[i];
        assert(value_list_view(values@)[i as int] == value@);
        let n: i64 = match range_int(value) {
            Ok(done) => done,
            Err(error) => {
                return Err(error);
            },
        };
        out.push(n);
        i = i + 1;
    }
    Ok(out)
}

#[verifier::opaque]
pub open spec fn range_number(value: ValueView) -> Result<i64, EvalErrorView> {
    match value {
        ValueView::Int(n) => Ok(n),
        _ => Err(type_failure("range() expects Int arguments, got "@ + type_shown(value))),
    }
}

/// See [`range_number`].
pub fn range_int(value: &Value) -> (r: Result<i64, EvalError>)
    ensures
        (match r { Ok(v) => Ok(v), Err(v) => Err(v@) }) == range_number(value@),
{
    proof { reveal(range_number); }
    proof { unfold_value(*value); }
    match value {
        Value::Int(n) => Ok(*n),
        _ => {
            assert(!(value@ is Int));
            Err(failed_type(cat2("range() expects Int arguments, got ", value_type_name(value).as_str())))
        },
    }
}

#[verifier::opaque]
pub open spec fn range_made(values: Seq<ValueView>) -> Result<ValueView, EvalErrorView> {
    match range_numbers(values, 0, Seq::empty()) {
        Ok(out) => {
            let ints = out;
            if ints.len() == 1 {
                range_by(0, ints[0], 1)
            } else if ints.len() == 2 {
                range_by(ints[0], ints[1], 1)
            } else if ints.len() == 3 {
                range_by(ints[0], ints[1], ints[2])
            } else {
                Err(type_failure("range() takes 1 to 3 arguments, got "@ + decimal(ints.len() as usize as nat)))
            }
        },
        Err(error) => Err(error),
    }
}

/// See [`range_made`].
pub fn range_value(values: &Vec<Value>) -> (r: Result<Value, EvalError>)
    ensures
        (match r { Ok(v) => Ok(v@), Err(v) => Err(v@) }) == range_made(value_list_view(values@)),
{
    proof { reveal(range_made); }
    let ints = match range_ints(values) {
        Ok(done) => done,
        Err(error) => {
            return Err(error);
        },
    };
    if ints.len() == 1 {
        range_with(0, ints[0], 1)
    } else if ints.len() == 2 {
        range_with(ints[0], ints[1], 1)
    } else if ints.len() == 3 {
        range_with(ints[0], ints[1], ints[2])
    } else {
        Err(failed_type(cat2("range() takes 1 to 3 arguments, got ", show_usize(ints.len()).as_str())))
    }
}

#[verifier::opaque]
pub open spec fn range_by(start: i64, stop: i64, step: i64) -> Result<ValueView, EvalErrorView> {
    if step == 0 {
        Err(type_failure("range() step must not be zero"@))
    } else {
        Ok(ValueView::Range { start, stop, step })
    }
}

/// See [`range_by`].
pub fn range_with(start: i64, stop: i64, step: i64) -> (r: Result<Value, EvalError>)
    ensures
        (match r { Ok(v) => Ok(v@), Err(v) => Err(v@) }) == range_by(start, stop, step),
{
    proof { reveal(range_by); }
    if step == 0 {
        Err(failed_type("range() step must not be zero".to_owned()))
    } else {
        let value = Value::Range { start, stop, step };
        proof { unfold_value(value); }
        Ok(value)
    }
}

/// A number or a flag as another kind of number.
#[verifier::opaque]
pub open spec fn conversion(
    name: Seq<char>,
    value: ValueView,
    known: Seq<KnownView>,
) -> Result<ValueView, EvalErrorView> {
    match value {
        ValueView::Bool(b) => {
            number_converted(name, Num::I(if b {
                1
            } else {
                0
            }), known)
        },
        _ => match number_of(value) {
            Some(n) => number_converted(name, n, known),
            None => Err(type_failure(name + "() expects a numeric or Bool value, got "@ + type_shown(value))),
        },
    }
}

/// See [`conversion`].
pub fn converted(
    name: &String,
    value: &Value,
    known: &Vec<Known>,
) -> (r: Result<Value, EvalError>)
    ensures
        (
            match r { Ok(v) => Ok(v@), Err(v) => Err(v@) }
        ) == conversion(name@, value@, known_list_view(known@)),
{
    proof { reveal(conversion); }
    proof { unfold_value(*value); }
    match value {
        Value::Bool(b) => {
            converted_num(name, Num::I(if *b {
                1
            } else {
                0
            }), known)
        },
        _ => {
            assert(!(value@ is Bool));
            match as_num(value) {
                Some(n) => converted_num(name, n, known),
                None => Err(
                    failed_type(
                        cat3(name.as_str(), "() expects a numeric or Bool value, got ", value_type_name(value).as_str())
                    )
                ),
            }
        },
    }
}

#[verifier::opaque]
pub open spec fn number_converted(
    name: Seq<char>,
    n: Num,
    known: Seq<KnownView>,
) -> Result<ValueView, EvalErrorView> {
    if name == "Int"@ {
        match number_as_int(n, known) {
            Ok(out) => {
                let n = out;
                Ok(ValueView::Int(n))
            },
            Err(error) => Err(error),
        }
    } else if name == "UInt"@ {
        match number_as_uint(n, known) {
            Ok(out) => {
                let n = out;
                Ok(ValueView::UInt(n))
            },
            Err(error) => Err(error),
        }
    } else {
        match number_as_float(n, known) {
            Ok(out) => {
                let bits = out;
                Ok(ValueView::Float64(bits))
            },
            Err(error) => Err(error),
        }
    }
}

/// See [`number_converted`].
pub fn converted_num(name: &String, n: Num, known: &Vec<Known>) -> (r: Result<Value, EvalError>)
    ensures
        (
            match r { Ok(v) => Ok(v@), Err(v) => Err(v@) }
        ) == number_converted(name@, n, known_list_view(known@)),
{
    proof { reveal(number_converted); }
    if same_text(name.as_str(), "Int") {
        let n: i64 = match num_to_int(n, known) {
            Ok(done) => done,
            Err(error) => {
                return Err(error);
            },
        };
        let value = Value::Int(n);
        proof { unfold_value(value); }
        Ok(value)
    } else if same_text(name.as_str(), "UInt") {
        let n: u64 = match num_to_uint(n, known) {
            Ok(done) => done,
            Err(error) => {
                return Err(error);
            },
        };
        let value2 = Value::UInt(n);
        proof { unfold_value(value2); }
        Ok(value2)
    } else {
        let bits: u64 = match num_to_float(n, known) {
            Ok(done) => done,
            Err(error) => {
                return Err(error);
            },
        };
        let value3 = Value::Float64(bits);
        proof { unfold_value(value3); }
        Ok(value3)
    }
}

#[verifier::opaque]
pub open spec fn conversion_name(name: Seq<char>) -> bool {
    name == "Int"@ || name == "UInt"@ || name == "Float64"@
}

/// See [`conversion_name`].
pub fn is_conversion(name: &String) -> (r: bool)
    ensures
        r == conversion_name(name@),
{
    proof { reveal(conversion_name); }
    same_text(name.as_str(), "Int") || same_text(name.as_str(), "UInt") || same_text(name.as_str(), "Float64")
}

/// The integers of a range, as long as they stay within 64 bits.
pub open spec fn values_in_range(
    at: i64,
    stop: i64,
    step: i64,
    found: Seq<ValueView>,
    fuel: u64,
) -> Result<Seq<ValueView>, EvalErrorView>
    decreases fuel as nat,
{
    if step > 0 && at < stop || step < 0 && at > stop {
        if fuel == 0 {
            Err(EvalErrorView::Exhausted)
        } else {
            let out = list_and(found, ValueView::Int(at));
            match fit(at + step) {
                Some(next) => values_in_range(next, stop, step, out, (fuel - 1) as u64),
                None => Err(EvalErrorView::Overflow),
            }
        }
    } else {
        Ok(found)
    }
}

/// See [`values_in_range`].
pub fn range_items(
    at: i64,
    stop: i64,
    step: i64,
    found: Vec<Value>,
    fuel: u64,
) -> (r: Result<Vec<Value>, EvalError>)
    ensures
        (
            match r { Ok(v) => Ok(value_list_view(v@)), Err(v) => Err(v@) }
        ) == values_in_range(at, stop, step, value_list_view(found@), fuel),
{
    let mut out = found;
    let mut next: i64 = at;
    let mut left: u64 = fuel;
    while step > 0 && next < stop || step < 0 && next > stop
        invariant
            values_in_range(next, stop, step, value_list_view(out@), left) == values_in_range(
                at,
                stop,
                step,
                value_list_view(found@),
                fuel,
            ),
        decreases left,
    {
        if left == 0 {
            return Err(EvalError::Exhausted);
        }
        let value = Value::Int(next);
        proof { unfold_value(value); }
        out = with_last(out, &value);
        match checked_sum(next, step) {
            Some(n) => {
                next = n;
                left = left - 1;
            },
            None => {
                return Err(EvalError::Overflow);
            },
        }
    }
    Ok(out)
}

/// The values that a `for` loop goes over.
#[verifier::opaque]
pub open spec fn values_of_loop(
    value: ValueView,
    fuel: u64,
) -> Result<Seq<ValueView>, EvalErrorView> {
    match value {
        ValueView::Range { start, stop, step } => values_in_range(
            start,
            stop,
            step,
            Seq::empty(),
            fuel,
        ),
        ValueView::List(items) => Ok(items),
        _ => Err(type_failure("'for' loop requires a range or List, got "@ + type_shown(value))),
    }
}

/// See [`values_of_loop`].
pub fn loop_values(value: &Value, fuel: u64) -> (r: Result<Vec<Value>, EvalError>)
    ensures
        (
            match r { Ok(v) => Ok(value_list_view(v@)), Err(v) => Err(v@) }
        ) == values_of_loop(value@, fuel),
{
    proof { reveal(values_of_loop); }
    proof { unfold_value(*value); }
    match value {
        Value::Range { start, stop, step } => {
            let list: Vec<Value> = Vec::new();
            assert(value_list_view(list@) =~= Seq::<ValueView>::empty());
            range_items(*start, *stop, *step, list, fuel)
        },
        Value::List(items) => Ok(clone_value_list(items)),
        _ => {
            assert(!(value@ is Range));
            assert(!(value@ is List));
            Err(failed_type(cat2("'for' loop requires a range or List, got ", value_type_name(value).as_str())))
        },
    }
}

/// The message that a value raises.
#[verifier::opaque]
pub open spec fn message_raised(value: ValueView) -> EvalErrorView {
    match value {
        ValueView::Error(message) => EvalErrorView::Raised(message),
        ValueView::Str(message) => EvalErrorView::Raised(message),
        _ => type_failure("cannot raise "@ + type_shown(value)),
    }
}

/// See [`message_raised`].
pub fn raised_message(value: &Value) -> (r: EvalError)
    ensures
        r@ == message_raised(value@),
{
    proof { reveal(message_raised); }
    proof { unfold_value(*value); }
    match value {
        Value::Error(message) => EvalError::Raised(message.clone()),
        Value::Str(message) => EvalError::Raised(message.clone()),
        _ => {
            assert(!(value@ is Error));
            assert(!(value@ is Str));
            failed_type(cat2("cannot raise ", value_type_name(value).as_str()))
        },
    }
}

pub open spec fn struct_defined(
    structs: Seq<StructDefView>,
    name: Seq<char>,
    i: nat,
    out: Option<StructDefView>,
) -> Option<StructDefView>
    decreases structs, (structs.len() - i) as nat,
{
    if i >= structs.len() {
        out
    } else {
        let def = structs[i as int];
        if def.name == name {
            let out = Some(def);
            struct_defined(structs, name, i + 1, out)
        } else {
            struct_defined(structs, name, i + 1, out)
        }
    }
}

/// See [`struct_defined`].
pub fn find_def(structs: &Vec<StructDef>, name: &String) -> (r: Option<StructDef>)
    ensures
        opt_view(r) == struct_defined(struct_def_list_view(structs@), name@, 0, None),
    decreases structs@, 0nat,
{
    let mut out: Option<StructDef> = None;
    let ghost goal = struct_defined(struct_def_list_view(structs@), name@, 0, None);
    let mut i: usize = 0;
    while i < structs.len()
        invariant
            i <= structs@.len(),
            struct_def_list_view(structs@).len() == structs@.len(),
            struct_defined(struct_def_list_view(structs@), name@, i as nat, opt_view(out)) == goal,
            goal == struct_defined(struct_def_list_view(structs@), name@, 0, None),
        decreases structs@.len() - i,
    {
        let def = &structs[i];
        assert(struct_def_list_view(structs@)[i as int] == def@);
        if same_string(&def.name, name) {
            out = Some(clone_struct_def(def));
        }
        i = i + 1;
    }
    out
}

pub open spec fn method_defined(
    methods: Seq<(Seq<char>, usize)>,
    name: Seq<char>,
    i: nat,
    out: Option<usize>,
) -> Option<usize>
    decreases methods, (methods.len() - i) as nat,
{
    if i >= methods.len() {
        out
    } else {
        let method = methods[i as int];
        if method.0 == name {
            let out = Some(method.1);
            method_defined(methods, name, i + 1, out)
        } else {
            method_defined(methods, name, i + 1, out)
        }
    }
}

/// See [`method_defined`].
pub fn find_method(methods: &Vec<(String, usize)>, name: &String) -> (r: Option<usize>)
    ensures
        r == method_defined(pack_length_list_view(methods@), name@, 0, None),
    decreases methods@, 0nat,
{
    let mut out: Option<usize> = None;
    let ghost goal = method_defined(pack_length_list_view(methods@), name@, 0, None);
    let mut i: usize = 0;
    while i < methods.len()
        invariant
            i <= methods@.len(),
            pack_length_list_view(methods@).len() == methods@.len(),
            method_defined(pack_length_list_view(methods@), name@, i as nat, out) == goal,
            goal == method_defined(pack_length_list_view(methods@), name@, 0, None),
        decreases methods@.len() - i,
    {
        let method = &methods[i];
        assert(pack_length_list_view(methods@)[i as int].0 =~= method.0@);
        if same_string(&method.0, name) {
            out = Some(method.1);
        }
        i = i + 1;
    }
    out
}

pub open spec fn declared_fields(
    fields: Seq<ParamView>,
    i: nat,
    out: Seq<(Seq<char>, TypeView)>,
) -> Seq<(Seq<char>, TypeView)>
    decreases fields, (fields.len() - i) as nat,
{
    if i >= fields.len() {
        out
    } else {
        let field = fields[i as int];
        let out = out.push((field.name, field.ty));
        declared_fields(fields, i + 1, out)
    }
}

/// See [`declared_fields`].
pub fn field_decls(fields: &Vec<Param>) -> (r: Vec<(String, Type)>)
    ensures
        typed_name_list_view(r@) == declared_fields(
            param_list_view(fields@),
            0,
            Seq::<(Seq<char>, TypeView)>::empty(),
        ),
    decreases fields@, 0nat,
{
    let mut out: Vec<(String, Type)> = Vec::new();
    assert(typed_name_list_view(out@) =~= Seq::<(Seq<char>, TypeView)>::empty());
    let ghost goal = declared_fields(
        param_list_view(fields@),
        0,
        Seq::<(Seq<char>, TypeView)>::empty(),
    );
    let mut i: usize = 0;
    while i < fields.len()
        invariant
            i <= fields@.len(),
            param_list_view(fields@).len() == fields@.len(),
            declared_fields(param_list_view(fields@), i as nat, typed_name_list_view(out@)) == goal,
            goal == declared_fields(
                param_list_view(fields@),
                0,
                Seq::<(Seq<char>, TypeView)>::empty(),
            ),
        decreases fields@.len() - i,
    {
        let field = &fields[i];
        assert(param_list_view(fields@)[i as int] == field@);
        let item = ((&field.name).clone(), clone_type(&field.ty));
        let ghost before = typed_name_list_view(out@);
        let ghost added = (item.0@, item.1@);
        out.push(item);
        assert(typed_name_list_view(out@) =~= before.push(added));
        i = i + 1;
    }
    out
}

#[verifier::opaque]
pub open spec fn closure_added(m: EvaluatorView, closure: ClosureView) -> (EvaluatorView, usize) {
    let number = m.closures.len() as usize;
    let closures = m.closures;
    let closures = closures.push(closure);
    (EvaluatorView { scopes: m.scopes, closures, structs: m.structs, output: m.output }, number)
}

/// See [`closure_added`].
pub fn with_closure(m: Evaluator, closure: Closure) -> (r: (Evaluator, usize))
    ensures
        (r.0@, r.1) == closure_added(m@, closure@),
{
    proof { reveal(closure_added); }
    let number: usize = m.closures.len();
    let mut closures = m.closures;
    let ghost before = closure_list_view(closures@);
    let ghost added = closure@;
    closures.push(closure);
    assert(closure_list_view(closures@) =~= before.push(added));
    let evaluator = Evaluator { scopes: m.scopes, closures, structs: m.structs, output: m.output };
    proof { unfold_evaluator(evaluator); }
    (evaluator, number)
}

/// The methods of a struct, each a function of the scope the struct is in.
pub open spec fn methods_added(
    methods: Seq<MethodView>,
    env: usize,
    i: nat,
    m: EvaluatorView,
    out: Seq<(Seq<char>, usize)>,
) -> (EvaluatorView, Seq<(Seq<char>, usize)>)
    decreases methods, (methods.len() - i) as nat,
{
    if i >= methods.len() {
        (m, out)
    } else {
        let method = methods[i as int];
        let made = closure_of_method(method, env);
        let (next, number) = closure_added(m, made);
        let m = next;
        let out = out.push((method.name, number));
        methods_added(methods, env, i + 1, m, out)
    }
}

/// See [`methods_added`].
pub fn method_closures(
    methods: &Vec<Method>,
    env: usize,
    start: Evaluator,
) -> (r: (Evaluator, Vec<(String, usize)>))
    ensures
        (r.0@, pack_length_list_view(r.1@)) == methods_added(
            method_list_view(methods@),
            env,
            0,
            start@,
            Seq::<(Seq<char>, usize)>::empty(),
        ),
    decreases methods@, 0nat,
{
    let mut m: Evaluator = start;
    let mut out: Vec<(String, usize)> = Vec::new();
    assert(pack_length_list_view(out@) =~= Seq::<(Seq<char>, usize)>::empty());
    let ghost goal = methods_added(
        method_list_view(methods@),
        env,
        0,
        start@,
        Seq::<(Seq<char>, usize)>::empty(),
    );
    let mut i: usize = 0;
    while i < methods.len()
        invariant
            i <= methods@.len(),
            method_list_view(methods@).len() == methods@.len(),
            methods_added(
                method_list_view(methods@),
                env,
                i as nat,
                m@,
                pack_length_list_view(out@),
            ) == goal,
            goal == methods_added(
                method_list_view(methods@),
                env,
                0,
                start@,
                Seq::<(Seq<char>, usize)>::empty(),
            ),
        decreases methods@.len() - i,
    {
        let method = &methods[i];
        assert(method_list_view(methods@)[i as int] == method@);
        let made = method_closure(method, env);
        let (next, number) = with_closure(m, made);
        m = next;
        let item = ((&method.name).clone(), number);
        let ghost before = pack_length_list_view(out@);
        let ghost added = (item.0@, item.1);
        out.push(item);
        assert(pack_length_list_view(out@) =~= before.push(added));
        i = i + 1;
    }
    (m, out)
}

#[verifier::opaque]
pub open spec fn closure_of_method(method: MethodView, env: usize) -> ClosureView {
    let mut_self = match method.self_convention {
        Some(convention) => (convention matches ArgConvention::Mut),
        None => false,
    };
    ClosureView {
        params: method.params,
        param_decls: Seq::empty(),
        body: method.body,
        env,
        mut_self,
    }
}

/// See [`closure_of_method`].
pub fn method_closure(method: &Method, env: usize) -> (r: Closure)
    ensures
        r@ == closure_of_method(method@, env),
{
    proof { reveal(closure_of_method); }
    let mut_self = match &method.self_convention {
        Some(convention) => matches!(convention, ArgConvention::Mut),
        None => false,
    };
    let list: Vec<(String, bool)> = Vec::new();
    assert(flagged_name_list_view(list@) =~= Seq::<(Seq<char>, bool)>::empty());
    let closure = Closure {
        params: clone_fn_param_list(&method.params),
        param_decls: list,
        body: clone_stmt_list(&method.body),
        env,
        mut_self,
    };
    proof { unfold_closure(closure); }
    closure
}

/// Record a struct: its fields in order, and its methods.
#[verifier::opaque]
pub open spec fn struct_registered(
    m: EvaluatorView,
    name: Seq<char>,
    type_params: Seq<TypeParamView>,
    fields: Seq<ParamView>,
    methods: Seq<MethodView>,
    fieldwise_init: bool,
    env: usize,
) -> EvaluatorView {
    let (m, made) = methods_added(methods, env, 0, m, Seq::empty());
    let def = StructDefView {
        name,
        fields: declared_fields(fields, 0, Seq::empty()),
        param_decls: classified(type_params, 0, Seq::empty()),
        methods: made,
        fieldwise_init,
    };
    let structs = m.structs;
    let structs = structs.push(def);
    EvaluatorView { scopes: m.scopes, closures: m.closures, structs, output: m.output }
}

/// See [`struct_registered`].
pub fn register_struct(
    m: Evaluator,
    name: &String,
    type_params: &Vec<TypeParam>,
    fields: &Vec<Param>,
    methods: &Vec<Method>,
    fieldwise_init: bool,
    env: usize,
) -> (r: Evaluator)
    ensures
        r@ == struct_registered(
            m@,
            name@,
            type_param_list_view(type_params@),
            param_list_view(fields@),
            method_list_view(methods@),
            fieldwise_init,
            env,
        ),
{
    proof { reveal(struct_registered); }
    let (m, made) = method_closures(methods, env, m);
    let def2 = StructDef {
        name: name.clone(),
        fields: field_decls(fields),
        param_decls: classify_param_decls(type_params),
        methods: made,
        fieldwise_init,
    };
    proof { unfold_struct_def(def2); }
    let def = def2;
    let mut structs = m.structs;
    let ghost before = struct_def_list_view(structs@);
    let ghost added = def@;
    structs.push(def);
    assert(struct_def_list_view(structs@) =~= before.push(added));
    let evaluator = Evaluator { scopes: m.scopes, closures: m.closures, structs, output: m.output };
    proof { unfold_evaluator(evaluator); }
    evaluator
}

/// How many parameters come before one that collects the rest.
pub open spec fn regular_params(params: Seq<FnParamView>, i: nat, k: usize) -> usize
    decreases params, (params.len() - i) as nat,
{
    if i >= params.len() {
        k
    } else {
        let param = params[i as int];
        if (param.kind matches ParamKind::Variadic) {
            k
        } else {
            let k = following_index(k);
            regular_params(params, i + 1, k)
        }
    }
}

/// See [`regular_params`].
pub fn regular_count(params: &Vec<FnParam>) -> (r: usize)
    ensures
        r == regular_params(fn_param_list_view(params@), 0, 0),
    decreases params@, 0nat,
{
    let mut k: usize = 0;
    let ghost goal = regular_params(fn_param_list_view(params@), 0, 0);
    let mut i: usize = 0;
    while i < params.len()
        invariant
            i <= params@.len(),
            fn_param_list_view(params@).len() == params@.len(),
            regular_params(fn_param_list_view(params@), i as nat, k) == goal,
            goal == regular_params(fn_param_list_view(params@), 0, 0),
        decreases params@.len() - i,
    {
        let param = &params[i];
        assert(fn_param_list_view(params@)[i as int] == param@);
        if matches!(param.kind, ParamKind::Variadic) {
            return k;
        }
        k = next_index(k);
        i = i + 1;
    }
    k
}

/// Which argument each parameter takes.
#[verifier::opaque]
pub open spec fn argument_at(k: usize, argc: usize) -> Option<usize> {
    if k < argc {
        Some(k)
    } else {
        None
    }
}

/// See [`argument_at`].
pub fn positional(k: usize, argc: usize) -> (r: Option<usize>)
    ensures
        r == argument_at(k, argc),
{
    proof { reveal(argument_at); }
    if k < argc {
        Some(k)
    } else {
        None
    }
}

pub open spec fn keyword_position(
    kwargs: Seq<KwArgView>,
    name: Seq<char>,
    i: nat,
    k: usize,
) -> Option<usize>
    decreases kwargs, (kwargs.len() - i) as nat,
{
    if i >= kwargs.len() {
        None
    } else {
        let kwarg = kwargs[i as int];
        if kwarg.name == name {
            Some(k)
        } else {
            let k = following_index(k);
            keyword_position(kwargs, name, i + 1, k)
        }
    }
}

/// See [`keyword_position`].
pub fn keyword_at(kwargs: &Vec<KwArg>, name: &String) -> (r: Option<usize>)
    ensures
        r == keyword_position(kw_arg_list_view(kwargs@), name@, 0, 0),
    decreases kwargs@, 0nat,
{
    let mut k: usize = 0;
    let ghost goal = keyword_position(kw_arg_list_view(kwargs@), name@, 0, 0);
    let mut i: usize = 0;
    while i < kwargs.len()
        invariant
            i <= kwargs@.len(),
            kw_arg_list_view(kwargs@).len() == kwargs@.len(),
            keyword_position(kw_arg_list_view(kwargs@), name@, i as nat, k) == goal,
            goal == keyword_position(kw_arg_list_view(kwargs@), name@, 0, 0),
        decreases kwargs@.len() - i,
    {
        let kwarg = &kwargs[i];
        assert(kw_arg_list_view(kwargs@)[i as int] == kwarg@);
        if same_string(&kwarg.name, name) {
            return Some(k);
        }
        k = next_index(k);
        i = i + 1;
    }
    None
}

/// Whether a keyword goes to a parameter behind the positional arguments.
pub open spec fn keyword_known(
    params: Seq<FnParamView>,
    name: Seq<char>,
    argc: usize,
    regular: usize,
    i: nat,
    k: usize,
) -> bool
    decreases params, (params.len() - i) as nat,
{
    if i >= params.len() {
        false
    } else {
        let param = params[i as int];
        if k >= argc && k < regular && param.name == name {
            true
        } else {
            let k = following_index(k);
            keyword_known(params, name, argc, regular, i + 1, k)
        }
    }
}

/// See [`keyword_known`].
pub fn keyword_fits(
    params: &Vec<FnParam>,
    name: &String,
    argc: usize,
    regular: usize,
) -> (r: bool)
    ensures
        r == keyword_known(fn_param_list_view(params@), name@, argc, regular, 0, 0),
    decreases params@, 0nat,
{
    let mut k: usize = 0;
    let ghost goal = keyword_known(fn_param_list_view(params@), name@, argc, regular, 0, 0);
    let mut i: usize = 0;
    while i < params.len()
        invariant
            i <= params@.len(),
            fn_param_list_view(params@).len() == params@.len(),
            keyword_known(fn_param_list_view(params@), name@, argc, regular, i as nat, k) == goal,
            goal == keyword_known(fn_param_list_view(params@), name@, argc, regular, 0, 0),
        decreases params@.len() - i,
    {
        let param = &params[i];
        assert(fn_param_list_view(params@)[i as int] == param@);
        if k >= argc && k < regular && same_string(&param.name, name) {
            return true;
        }
        k = next_index(k);
        i = i + 1;
    }
    false
}

pub open spec fn keywords_known(
    kwargs: Seq<KwArgView>,
    params: Seq<FnParamView>,
    argc: usize,
    regular: usize,
    i: nat,
) -> bool
    decreases kwargs, (kwargs.len() - i) as nat,
{
    if i >= kwargs.len() {
        true
    } else {
        let kwarg = kwargs[i as int];
        if !keyword_known(params, kwarg.name, argc, regular, 0, 0) {
            false
        } else {
            keywords_known(kwargs, params, argc, regular, i + 1)
        }
    }
}

/// See [`keywords_known`].
pub fn keywords_fit(
    kwargs: &Vec<KwArg>,
    params: &Vec<FnParam>,
    argc: usize,
    regular: usize,
) -> (r: bool)
    ensures
        r == keywords_known(
            kw_arg_list_view(kwargs@),
            fn_param_list_view(params@),
            argc,
            regular,
            0,
        ),
    decreases kwargs@, 0nat,
{
    let ghost goal = keywords_known(
        kw_arg_list_view(kwargs@),
        fn_param_list_view(params@),
        argc,
        regular,
        0,
    );
    let mut i: usize = 0;
    while i < kwargs.len()
        invariant
            i <= kwargs@.len(),
            kw_arg_list_view(kwargs@).len() == kwargs@.len(),
            keywords_known(
                kw_arg_list_view(kwargs@),
                fn_param_list_view(params@),
                argc,
                regular,
                i as nat,
            ) == goal,
            goal == keywords_known(
                kw_arg_list_view(kwargs@),
                fn_param_list_view(params@),
                argc,
                regular,
                0,
            ),
        decreases kwargs@.len() - i,
    {
        let kwarg = &kwargs[i];
        assert(kw_arg_list_view(kwargs@)[i as int] == kwarg@);
        if !keyword_fits(params, &kwarg.name, argc, regular) {
            return false;
        }
        i = i + 1;
    }
    true
}

/// Whether a call gives its parameters what they need: no more positional arguments than
/// there are places for, and only keywords of parameters that are still free.
#[verifier::opaque]
pub open spec fn arguments_fit(
    closure: ClosureView,
    argc: usize,
    kwargs: Seq<KwArgView>,
) -> bool {
    let regular = regular_params(closure.params, 0, 0);
    (
        argc <= regular || regular < closure.params.len()
    ) && keywords_known(kwargs, closure.params, argc, regular, 0)
}

/// See [`arguments_fit`].
pub fn call_fits(closure: &Closure, argc: usize, kwargs: &Vec<KwArg>) -> (r: bool)
    ensures
        r == arguments_fit(closure@, argc, kw_arg_list_view(kwargs@)),
{
    proof { reveal(arguments_fit); }
    let regular: usize = regular_count(&closure.params);
    (
        argc <= regular || regular < closure.params.len()
    ) && keywords_fit(kwargs, &closure.params, argc, regular)
}

/// The arguments behind the regular parameters, at the type of the parameter that
/// collects them.
pub open spec fn values_left_over(
    args: Seq<ValueView>,
    regular: usize,
    ty: TypeView,
    known: Seq<KnownView>,
    i: nat,
    out: Seq<ValueView>,
    k: usize,
) -> Result<Seq<ValueView>, EvalErrorView>
    decreases args, (args.len() - i) as nat,
{
    if i >= args.len() {
        Ok(out)
    } else {
        let arg = args[i as int];
        match coerced(arg, ty, known) {
            Ok(taken) => {
                let made = taken;
                let out = if k >= regular {
                    let out = out.push(made);
                    out
                } else {
                    out
                };
                let k = following_index(k);
                values_left_over(args, regular, ty, known, i + 1, out, k)
            },
            Err(error) => Err(error),
        }
    }
}

/// See [`values_left_over`].
pub fn overflow_values(
    args: &Vec<Value>,
    regular: usize,
    ty: &Type,
    known: &Vec<Known>,
) -> (r: Result<Vec<Value>, EvalError>)
    ensures
        (match r { Ok(v) => Ok(value_list_view(v@)), Err(v) => Err(v@) }) == values_left_over(
            value_list_view(args@),
            regular,
            ty@,
            known_list_view(known@),
            0,
            Seq::<ValueView>::empty(),
            0,
        ),
    decreases args@, 0nat,
{
    let mut out: Vec<Value> = Vec::new();
    assert(value_list_view(out@) =~= Seq::<ValueView>::empty());
    let mut k: usize = 0;
    let ghost goal = values_left_over(
        value_list_view(args@),
        regular,
        ty@,
        known_list_view(known@),
        0,
        Seq::<ValueView>::empty(),
        0,
    );
    let mut i: usize = 0;
    while i < args.len()
        invariant
            i <= args@.len(),
            value_list_view(args@).len() == args@.len(),
            values_left_over(
                value_list_view(args@),
                regular,
                ty@,
                known_list_view(known@),
                i as nat,
                value_list_view(out@),
                k,
            ) == goal,
            goal == values_left_over(
                value_list_view(args@),
                regular,
                ty@,
                known_list_view(known@),
                0,
                Seq::<ValueView>::empty(),
                0,
            ),
        decreases args@.len() - i,
    {
        let arg = &args[i];
        assert(value_list_view(args@)[i as int] == arg@);
        let made = match coerce(clone_value(arg), ty, known) {
            Ok(done) => done,
            Err(error) => {
                return Err(error);
            },
        };
        if k >= regular {
            let ghost before = value_list_view(out@);
            let ghost added = made@;
            out.push(made);
            assert(value_list_view(out@) =~= before.push(added));
        }
        k = next_index(k);
        i = i + 1;
    }
    Ok(out)
}

pub open spec fn all_defined(
    values: Seq<(Seq<char>, ValueView)>,
    env: usize,
    i: nat,
    m: EvaluatorView,
) -> EvaluatorView
    decreases values, (values.len() - i) as nat,
{
    if i >= values.len() {
        m
    } else {
        let entry = values[i as int];
        let m = name_defined(m, env, entry.0, entry.1);
        all_defined(values, env, i + 1, m)
    }
}

/// See [`all_defined`].
pub fn define_all(values: &Vec<(String, Value)>, start: Evaluator, env: usize) -> (r: Evaluator)
    ensures
        r@ == all_defined(field_value_list_view(values@), env, 0, start@),
    decreases values@, 0nat,
{
    let mut m: Evaluator = start;
    let ghost goal = all_defined(field_value_list_view(values@), env, 0, start@);
    let mut i: usize = 0;
    while i < values.len()
        invariant
            i <= values@.len(),
            field_value_list_view(values@).len() == values@.len(),
            all_defined(field_value_list_view(values@), env, i as nat, m@) == goal,
            goal == all_defined(field_value_list_view(values@), env, 0, start@),
        decreases values@.len() - i,
    {
        let entry = &values[i];
        assert(field_value_list_view(values@)[i as int].0 =~= entry.0@);
        assert(field_value_list_view(values@)[i as int].1 =~= entry.1@);
        m = define_name(m, env, &entry.0, clone_value(&entry.1));
        i = i + 1;
    }
    m
}

#[verifier::opaque]
pub open spec fn rest_bound(
    m: EvaluatorView,
    call_env: usize,
    closure: ClosureView,
    args: Seq<ValueView>,
    known: Seq<KnownView>,
) -> Result<EvaluatorView, FailureView> {
    let regular = regular_params(closure.params, 0, 0);
    if regular < closure.params.len() {
        match values_held(
            m,
            values_left_over(
                args,
                regular,
                closure.params[regular as int].ty,
                known,
                0,
                Seq::empty(),
                0,
            ),
        ) {
            Ok(out) => {
                let (m, items) = out;
                Ok(
                    name_defined(
                        m,
                        call_env,
                        closure.params[regular as int].name,
                        ValueView::List(items),
                    )
                )
            },
            Err(error) => Err(error),
        }
    } else {
        Ok(m)
    }
}

/// See [`rest_bound`].
pub fn bind_variadic(
    m: Evaluator,
    call_env: usize,
    closure: &Closure,
    args: &Vec<Value>,
    known: &Vec<Known>,
) -> (r: Result<Evaluator, Failure>)
    ensures
        (match r { Ok(v) => Ok(v@), Err(v) => Err(v@) }) == rest_bound(
            m@,
            call_env,
            closure@,
            value_list_view(args@),
            known_list_view(known@),
        ),
{
    proof { reveal(rest_bound); }
    let regular: usize = regular_count(&closure.params);
    if regular < closure.params.len() {
        let (m, items) = match hold_values(
            m,
            overflow_values(args, regular, &closure.params[regular].ty, known),
        ) {
            Ok(done) => done,
            Err(error) => {
                return Err(error);
            },
        };
        let value = Value::List(items);
        proof { unfold_value(value); }
        Ok(define_name(m, call_env, &closure.params[regular].name, value))
    } else {
        Ok(m)
    }
}

#[verifier::opaque]
pub open spec fn value_returned(flow: FlowView) -> ValueView {
    match flow {
        FlowView::Return(value) => value,
        _ => ValueView::NoneValue,
    }
}

/// See [`value_returned`].
pub fn flow_value(flow: &Flow) -> (r: Value)
    ensures
        r@ == value_returned(flow@),
{
    proof { reveal(value_returned); }
    match flow {
        Flow::Return(value) => clone_value(value),
        _ => {
            assert(!(flow@ is Return));
            Value::NoneValue
        },
    }
}

/// What one step of a loop does to the loop: go on, end, or leave the function.
#[verifier::opaque]
pub open spec fn ends_loop(flow: FlowView) -> bool {
    (flow matches FlowView::Break) || (flow matches FlowView::Return(_))
}

/// See [`ends_loop`].
pub fn loop_ends(flow: &Flow) -> (r: bool)
    ensures
        r == ends_loop(flow@),
{
    proof { reveal(ends_loop); }
    matches!(flow, Flow::Break) || matches!(flow, Flow::Return(_))
}

#[verifier::opaque]
pub open spec fn flow_after_loop(flow: FlowView) -> FlowView {
    match flow {
        FlowView::Return(value) => FlowView::Return(value),
        _ => FlowView::Normal,
    }
}

/// See [`flow_after_loop`].
pub fn after_loop(flow: Flow) -> (r: Flow)
    ensures
        r@ == flow_after_loop(flow@),
{
    proof { reveal(flow_after_loop); }
    match flow {
        Flow::Return(value) => Flow::Return(value),
        _ => {
            assert(!(flow@ is Return));
            Flow::Normal
        },
    }
}

#[verifier::opaque]
pub open spec fn value_is_closure(value: ValueView) -> bool {
    (value matches ValueView::Closure(_))
}

/// See [`value_is_closure`].
pub fn is_closure(value: &Value) -> (r: bool)
    ensures
        r == value_is_closure(value@),
{
    proof { reveal(value_is_closure); }
    matches!(value, Value::Closure(_))
}

/// Whether an error stops the whole run, and is no error of the program.
#[verifier::opaque]
pub open spec fn run_stopped(error: EvalErrorView) -> bool {
    match error {
        EvalErrorView::Asked(_) => true,
        EvalErrorView::Overflow => true,
        EvalErrorView::OutOfBounds => true,
        EvalErrorView::Exhausted => true,
        _ => false,
    }
}

/// See [`run_stopped`].
pub fn stops_run(error: &EvalError) -> (r: bool)
    ensures
        r == run_stopped(error@),
{
    proof { reveal(run_stopped); }
    match error {
        EvalError::Asked(_) => true,
        EvalError::Overflow => true,
        EvalError::OutOfBounds => true,
        EvalError::Exhausted => true,
        _ => {
            assert(!(error@ is Asked));
            assert(!(error@ is Overflow));
            assert(!(error@ is OutOfBounds));
            assert(!(error@ is Exhausted));
            false
        },
    }
}

/// The values of expressions, in order.
pub open spec fn values_of_exprs(
    exprs: Seq<ExprView>,
    env: usize,
    known: Seq<KnownView>,
    fuel: u64,
    i: nat,
    m: EvaluatorView,
    out: Seq<ValueView>,
) -> Result<(EvaluatorView, Seq<ValueView>), FailureView>
    decreases fuel, 0nat, exprs, 0nat, (exprs.len() - i) as nat,
{
    if i >= exprs.len() {
        Ok((m, out))
    } else {
        let expr = exprs[i as int];
        match value_of_expr(expr, env, m, known, fuel) {
            Ok(taken) => {
                let (next, value) = taken;
                let m = next;
                let out = out.push(value);
                values_of_exprs(exprs, env, known, fuel, i + 1, m, out)
            },
            Err(error) => Err(error),
        }
    }
}

/// See [`values_of_exprs`].
pub fn eval_exprs(
    exprs: &Vec<Expr>,
    env: usize,
    start: Evaluator,
    known: &Vec<Known>,
    fuel: u64,
) -> (r: Result<(Evaluator, Vec<Value>), Failure>)
    ensures
        (
            match r { Ok(v) => Ok((v.0@, value_list_view(v.1@))), Err(v) => Err(v@) }
        ) == values_of_exprs(
            expr_list_view(exprs@),
            env,
            known_list_view(known@),
            fuel,
            0,
            start@,
            Seq::<ValueView>::empty(),
        ),
    decreases fuel, 0nat, exprs@, 0nat, 0nat,
{
    let mut m: Evaluator = start;
    let mut out: Vec<Value> = Vec::new();
    assert(value_list_view(out@) =~= Seq::<ValueView>::empty());
    let ghost goal = values_of_exprs(
        expr_list_view(exprs@),
        env,
        known_list_view(known@),
        fuel,
        0,
        start@,
        Seq::<ValueView>::empty(),
    );
    let mut i: usize = 0;
    while i < exprs.len()
        invariant
            i <= exprs@.len(),
            expr_list_view(exprs@).len() == exprs@.len(),
            values_of_exprs(
                expr_list_view(exprs@),
                env,
                known_list_view(known@),
                fuel,
                i as nat,
                m@,
                value_list_view(out@),
            ) == goal,
            goal == values_of_exprs(
                expr_list_view(exprs@),
                env,
                known_list_view(known@),
                fuel,
                0,
                start@,
                Seq::<ValueView>::empty(),
            ),
        decreases exprs@.len() - i,
    {
        let expr = &exprs[i];
        assert(expr_list_view(exprs@)[i as int] == expr@);
        let (next, value) = match eval_expr(expr, env, m, known, fuel) {
            Ok(done) => done,
            Err(error) => {
                return Err(error);
            },
        };
        m = next;
        let ghost before = value_list_view(out@);
        let ghost added = value@;
        out.push(value);
        assert(value_list_view(out@) =~= before.push(added));
        i = i + 1;
    }
    Ok((m, out))
}

pub open spec fn values_of_kwargs(
    kwargs: Seq<KwArgView>,
    env: usize,
    known: Seq<KnownView>,
    fuel: u64,
    i: nat,
    m: EvaluatorView,
    out: Seq<ValueView>,
) -> Result<(EvaluatorView, Seq<ValueView>), FailureView>
    decreases fuel, 0nat, kwargs, 0nat, (kwargs.len() - i) as nat,
{
    if i >= kwargs.len() {
        Ok((m, out))
    } else {
        let kwarg = kwargs[i as int];
        match value_of_expr(kwarg.value, env, m, known, fuel) {
            Ok(taken) => {
                let (next, value) = taken;
                let m = next;
                let out = out.push(value);
                values_of_kwargs(kwargs, env, known, fuel, i + 1, m, out)
            },
            Err(error) => Err(error),
        }
    }
}

/// See [`values_of_kwargs`].
pub fn eval_kwargs(
    kwargs: &Vec<KwArg>,
    env: usize,
    start: Evaluator,
    known: &Vec<Known>,
    fuel: u64,
) -> (r: Result<(Evaluator, Vec<Value>), Failure>)
    ensures
        (
            match r { Ok(v) => Ok((v.0@, value_list_view(v.1@))), Err(v) => Err(v@) }
        ) == values_of_kwargs(
            kw_arg_list_view(kwargs@),
            env,
            known_list_view(known@),
            fuel,
            0,
            start@,
            Seq::<ValueView>::empty(),
        ),
    decreases fuel, 0nat, kwargs@, 0nat, 0nat,
{
    let mut m: Evaluator = start;
    let mut out: Vec<Value> = Vec::new();
    assert(value_list_view(out@) =~= Seq::<ValueView>::empty());
    let ghost goal = values_of_kwargs(
        kw_arg_list_view(kwargs@),
        env,
        known_list_view(known@),
        fuel,
        0,
        start@,
        Seq::<ValueView>::empty(),
    );
    let mut i: usize = 0;
    while i < kwargs.len()
        invariant
            i <= kwargs@.len(),
            kw_arg_list_view(kwargs@).len() == kwargs@.len(),
            values_of_kwargs(
                kw_arg_list_view(kwargs@),
                env,
                known_list_view(known@),
                fuel,
                i as nat,
                m@,
                value_list_view(out@),
            ) == goal,
            goal == values_of_kwargs(
                kw_arg_list_view(kwargs@),
                env,
                known_list_view(known@),
                fuel,
                0,
                start@,
                Seq::<ValueView>::empty(),
            ),
        decreases kwargs@.len() - i,
    {
        let kwarg = &kwargs[i];
        assert(kw_arg_list_view(kwargs@)[i as int] == kwarg@);
        let (next, value) = match eval_expr(&kwarg.value, env, m, known, fuel) {
            Ok(done) => done,
            Err(error) => {
                return Err(error);
            },
        };
        m = next;
        let ghost before = value_list_view(out@);
        let ghost added = value@;
        out.push(value);
        assert(value_list_view(out@) =~= before.push(added));
        i = i + 1;
    }
    Ok((m, out))
}

/// The arguments of the parameters that are values; those of types are left out.
pub open spec fn values_of_params(
    param_args: Seq<ParamArgView>,
    decls: Seq<(Seq<char>, bool)>,
    env: usize,
    known: Seq<KnownView>,
    fuel: u64,
    i: nat,
    m: EvaluatorView,
    out: Seq<(Seq<char>, ValueView)>,
    k: usize,
) -> Result<(EvaluatorView, Seq<(Seq<char>, ValueView)>), FailureView>
    decreases fuel, 0nat, param_args, 0nat, (param_args.len() - i) as nat,
{
    if i >= param_args.len() {
        Ok((m, out))
    } else {
        let arg = param_args[i as int];
        if k >= decls.len() {
            Ok((m, out))
        } else {
            match value_of_param(arg, decls[k as int].1, env, m, known, fuel) {
                Ok(taken) => {
                    let (next, value) = taken;
                    let m = next;
                    let out = if decls[k as int].1 {
                        let out = out.push((decls[k as int].0, value));
                        out
                    } else {
                        out
                    };
                    let k = following_index(k);
                    values_of_params(param_args, decls, env, known, fuel, i + 1, m, out, k)
                },
                Err(error) => Err(error),
            }
        }
    }
}

/// See [`values_of_params`].
pub fn eval_value_params(
    param_args: &Vec<ParamArg>,
    decls: &Vec<(String, bool)>,
    env: usize,
    start: Evaluator,
    known: &Vec<Known>,
    fuel: u64,
) -> (r: Result<(Evaluator, Vec<(String, Value)>), Failure>)
    ensures
        (
            match r { Ok(v) => Ok((v.0@, field_value_list_view(v.1@))), Err(v) => Err(v@) }
        ) == values_of_params(
            param_arg_list_view(param_args@),
            flagged_name_list_view(decls@),
            env,
            known_list_view(known@),
            fuel,
            0,
            start@,
            Seq::<(Seq<char>, ValueView)>::empty(),
            0,
        ),
    decreases fuel, 0nat, param_args@, 0nat, 0nat,
{
    let mut m: Evaluator = start;
    let mut out: Vec<(String, Value)> = Vec::new();
    assert(field_value_list_view(out@) =~= Seq::<(Seq<char>, ValueView)>::empty());
    let mut k: usize = 0;
    let ghost goal = values_of_params(
        param_arg_list_view(param_args@),
        flagged_name_list_view(decls@),
        env,
        known_list_view(known@),
        fuel,
        0,
        start@,
        Seq::<(Seq<char>, ValueView)>::empty(),
        0,
    );
    let mut i: usize = 0;
    while i < param_args.len()
        invariant
            i <= param_args@.len(),
            param_arg_list_view(param_args@).len() == param_args@.len(),
            values_of_params(
                param_arg_list_view(param_args@),
                flagged_name_list_view(decls@),
                env,
                known_list_view(known@),
                fuel,
                i as nat,
                m@,
                field_value_list_view(out@),
                k,
            ) == goal,
            goal == values_of_params(
                param_arg_list_view(param_args@),
                flagged_name_list_view(decls@),
                env,
                known_list_view(known@),
                fuel,
                0,
                start@,
                Seq::<(Seq<char>, ValueView)>::empty(),
                0,
            ),
        decreases param_args@.len() - i,
    {
        let arg = &param_args[i];
        assert(param_arg_list_view(param_args@)[i as int] == arg@);
        if k >= decls.len() {
            return Ok((m, out));
        }
        let (next, value) = match eval_value_param(arg, decls[k].1, env, m, known, fuel) {
            Ok(done) => done,
            Err(error) => {
                return Err(error);
            },
        };
        m = next;
        if decls[k].1 {
            let item = ((&decls[k].0).clone(), value);
            let ghost before = field_value_list_view(out@);
            let ghost added = (item.0@, item.1@);
            out.push(item);
            assert(field_value_list_view(out@) =~= before.push(added));
        }
        k = next_index(k);
        i = i + 1;
    }
    Ok((m, out))
}

pub open spec fn value_of_param(
    arg: ParamArgView,
    is_value: bool,
    env: usize,
    m: EvaluatorView,
    known: Seq<KnownView>,
    fuel: u64,
) -> Result<(EvaluatorView, ValueView), FailureView>
    decreases fuel, 0nat, arg, 0nat, 0nat,
{
    match arg {
        ParamArgView::Value(expr) => if is_value {
            value_of_expr(expr, env, m, known, fuel)
        } else {
            Ok((m, ValueView::NoneValue))
        },
        _ => Ok((m, ValueView::NoneValue)),
    }
}

/// See [`value_of_param`].
pub fn eval_value_param(
    arg: &ParamArg,
    is_value: bool,
    env: usize,
    m: Evaluator,
    known: &Vec<Known>,
    fuel: u64,
) -> (r: Result<(Evaluator, Value), Failure>)
    ensures
        (
            match r { Ok(v) => Ok((v.0@, v.1@)), Err(v) => Err(v@) }
        ) == value_of_param(arg@, is_value, env, m@, known_list_view(known@), fuel),
    decreases fuel, 0nat, arg, 0nat, 0nat,
{
    match arg {
        ParamArg::Value(expr) => {
            if is_value {
                eval_expr(expr, env, m, known, fuel)
            } else {
                Ok((m, Value::NoneValue))
            }
        },
        _ => {
            assert(!(arg@ is Value));
            Ok((m, Value::NoneValue))
        },
    }
}

/// The value of an expression.
pub open spec fn value_of_expr(
    expr: ExprView,
    env: usize,
    m: EvaluatorView,
    known: Seq<KnownView>,
    fuel: u64,
) -> Result<(EvaluatorView, ValueView), FailureView>
    decreases fuel, 0nat, expr, 9nat, 0nat,
{
    match expr.kind {
        ExprKindView::Int(n) => Ok((m, ValueView::Int(n))),
        ExprKindView::Float(bits) => Ok((m, ValueView::Float64(bits))),
        ExprKindView::Bool(b) => Ok((m, ValueView::Bool(b))),
        ExprKindView::Str(s) => Ok((m, ValueView::Str(s))),
        ExprKindView::NoneLit => Ok((m, ValueView::NoneValue)),
        ExprKindView::Identifier(name) => value_of_variable(name, env, m),
        ExprKindView::Prefix(op, operand) => match value_of_expr(*operand, env, m, known, fuel) {
            Ok(out) => {
                let (m, value) = out;
                value_held(m, prefix_applied(op, value, known))
            },
            Err(error) => Err(error),
        },
        ExprKindView::Transfer(inner) => value_of_expr(*inner, env, m, known, fuel),
        ExprKindView::ListLit(elems) => match values_of_exprs(
            elems,
            env,
            known,
            fuel,
            0,
            m,
            Seq::empty(),
        ) {
            Ok(out) => {
                let (m, items) = out;
                match values_held(m, promoted_numbers(items, known)) {
                    Ok(out) => {
                        let (m, made) = out;
                        Ok((m, ValueView::List(made)))
                    },
                    Err(error) => Err(error),
                }
            },
            Err(error) => Err(error),
        },
        ExprKindView::TupleLit(elems) => match values_of_exprs(
            elems,
            env,
            known,
            fuel,
            0,
            m,
            Seq::empty(),
        ) {
            Ok(out) => {
                let (m, items) = out;
                Ok((m, ValueView::Tuple(items)))
            },
            Err(error) => Err(error),
        },
        ExprKindView::Infix(_, _, _) => value_of_infix(expr, env, m, known, fuel),
        ExprKindView::Call { .. } => value_of_call(expr, env, m, known, fuel),
        ExprKindView::Member { .. } => value_of_member(expr, env, m, known, fuel),
        ExprKindView::MethodCall { .. } => value_of_method(expr, env, m, known, fuel),
        ExprKindView::Index { .. } => value_of_subscript(expr, env, m, known, fuel),
        ExprKindView::Named { name, .. } => Err(walrus_unsupported(m, name)),
        ExprKindView::IfExpr { .. } => Err(unsupported_in(m, "conditional expression"@)),
        ExprKindView::Compare { .. } => Err(unsupported_in(m, "chained comparison"@)),
        ExprKindView::Slice { .. } => Err(unsupported_in(m, "slice subscript"@)),
        ExprKindView::TString { .. } => Err(unsupported_in(m, "t-string"@)),
        _ => Err(unsupported_in(m, "expression"@)),
    }
}

/// See [`value_of_expr`].
pub fn eval_expr(
    expr: &Expr,
    env: usize,
    m: Evaluator,
    known: &Vec<Known>,
    fuel: u64,
) -> (r: Result<(Evaluator, Value), Failure>)
    ensures
        (
            match r { Ok(v) => Ok((v.0@, v.1@)), Err(v) => Err(v@) }
        ) == value_of_expr(expr@, env, m@, known_list_view(known@), fuel),
    decreases fuel, 0nat, expr, 9nat, 0nat,
{
    proof { unfold_expr_kind(expr.kind); }
    match &expr.kind {
        ExprKind::Int(n) => {
            let value2 = Value::Int(*n);
            proof { unfold_value(value2); }
            Ok((m, value2))
        },
        ExprKind::Float(bits) => {
            let value3 = Value::Float64(*bits);
            proof { unfold_value(value3); }
            Ok((m, value3))
        },
        ExprKind::Bool(b) => {
            let value4 = Value::Bool(*b);
            proof { unfold_value(value4); }
            Ok((m, value4))
        },
        ExprKind::Str(s) => {
            let value5 = Value::Str(s.clone());
            proof { unfold_value(value5); }
            Ok((m, value5))
        },
        ExprKind::NoneLit => Ok((m, Value::NoneValue)),
        ExprKind::Identifier(name) => eval_name(name, env, m),
        ExprKind::Prefix(op, operand) => {
            let (m, value) = match eval_expr(&**operand, env, m, known, fuel) {
                Ok(done) => done,
                Err(error) => {
                    return Err(error);
                },
            };
            hold_value(m, prefix_value(*op, &value, known))
        },
        ExprKind::Transfer(inner) => eval_expr(&**inner, env, m, known, fuel),
        ExprKind::ListLit(elems) => {
            let (m, items) = match eval_exprs(elems, env, m, known, fuel) {
                Ok(done) => done,
                Err(error) => {
                    return Err(error);
                },
            };
            let (m, made) = match hold_values(m, promote_numeric_elems(&items, known)) {
                Ok(done) => done,
                Err(error) => {
                    return Err(error);
                },
            };
            let value6 = Value::List(made);
            proof { unfold_value(value6); }
            Ok((m, value6))
        },
        ExprKind::TupleLit(elems) => {
            let (m, items) = match eval_exprs(elems, env, m, known, fuel) {
                Ok(done) => done,
                Err(error) => {
                    return Err(error);
                },
            };
            let value7 = Value::Tuple(items);
            proof { unfold_value(value7); }
            Ok((m, value7))
        },
        ExprKind::Infix(_, _, _) => eval_operator(expr, env, m, known, fuel),
        ExprKind::Call { .. } => eval_function_call(expr, env, m, known, fuel),
        ExprKind::Member { .. } => eval_field(expr, env, m, known, fuel),
        ExprKind::MethodCall { .. } => eval_method_call(expr, env, m, known, fuel),
        ExprKind::Index { .. } => eval_subscript(expr, env, m, known, fuel),
        ExprKind::Named { name, .. } => Err(no_walrus(m, name)),
        ExprKind::IfExpr { .. } => Err(not_supported(m, "conditional expression")),
        ExprKind::Compare { .. } => Err(not_supported(m, "chained comparison")),
        ExprKind::Slice { .. } => Err(not_supported(m, "slice subscript")),
        ExprKind::TString { .. } => Err(not_supported(m, "t-string")),
        _ => {
            assert(!(expr.kind@ is Int));
            assert(!(expr.kind@ is Float));
            assert(!(expr.kind@ is Bool));
            assert(!(expr.kind@ is Str));
            assert(!(expr.kind@ is NoneLit));
            assert(!(expr.kind@ is Identifier));
            assert(!(expr.kind@ is Prefix));
            assert(!(expr.kind@ is Transfer));
            assert(!(expr.kind@ is ListLit));
            assert(!(expr.kind@ is TupleLit));
            assert(!(expr.kind@ is Infix));
            assert(!(expr.kind@ is Call));
            assert(!(expr.kind@ is Member));
            assert(!(expr.kind@ is MethodCall));
            assert(!(expr.kind@ is Index));
            assert(!(expr.kind@ is Named));
            assert(!(expr.kind@ is IfExpr));
            assert(!(expr.kind@ is Compare));
            assert(!(expr.kind@ is Slice));
            assert(!(expr.kind@ is TString));
            Err(not_supported(m, "expression"))
        },
    }
}

#[verifier::opaque]
pub open spec fn walrus_unsupported(m: EvaluatorView, name: Seq<char>) -> FailureView {
    failed_with(
        m,
        EvalErrorView::Unsupported(
            "the walrus operator ':=' ('"@ + name + " := \u{2026}'); assign on its own line with 'var'"@
        ),
    )
}

/// See [`walrus_unsupported`].
pub fn no_walrus(m: Evaluator, name: &String) -> (r: Failure)
    ensures
        r@ == walrus_unsupported(m@, name@),
{
    proof { reveal(walrus_unsupported); }
    failure(
        m,
        EvalError::Unsupported(
            cat3("the walrus operator ':=' ('", name.as_str(), " := \u{2026}'); assign on its own line with 'var'")
        ),
    )
}

#[verifier::opaque]
pub open spec fn value_of_variable(
    name: Seq<char>,
    env: usize,
    m: EvaluatorView,
) -> Result<(EvaluatorView, ValueView), FailureView> {
    match value_in_scope(m.scopes, env, name) {
        Some(value) => Ok((m, value)),
        None => Err(failed_with(m, EvalErrorView::UndefinedVariable(name))),
    }
}

/// See [`value_of_variable`].
pub fn eval_name(
    name: &String,
    env: usize,
    m: Evaluator,
) -> (r: Result<(Evaluator, Value), Failure>)
    ensures
        (
            match r { Ok(v) => Ok((v.0@, v.1@)), Err(v) => Err(v@) }
        ) == value_of_variable(name@, env, m@),
{
    proof { reveal(value_of_variable); }
    match lookup(&m.scopes, env, name) {
        Some(value) => Ok((m, value)),
        None => Err(failure(m, EvalError::UndefinedVariable(name.clone()))),
    }
}

pub open spec fn truth_of_expr(
    expr: ExprView,
    env: usize,
    m: EvaluatorView,
    known: Seq<KnownView>,
    fuel: u64,
) -> Result<(EvaluatorView, bool), FailureView>
    decreases fuel, 0nat, expr, 10nat, 0nat,
{
    match value_of_expr(expr, env, m, known, fuel) {
        Ok(out) => {
            let (m, value) = out;
            flag_held(m, truth_of(value))
        },
        Err(error) => Err(error),
    }
}

/// See [`truth_of_expr`].
pub fn eval_bool(
    expr: &Expr,
    env: usize,
    m: Evaluator,
    known: &Vec<Known>,
    fuel: u64,
) -> (r: Result<(Evaluator, bool), Failure>)
    ensures
        (
            match r { Ok(v) => Ok((v.0@, v.1)), Err(v) => Err(v@) }
        ) == truth_of_expr(expr@, env, m@, known_list_view(known@), fuel),
    decreases fuel, 0nat, expr, 10nat, 0nat,
{
    let (m, value) = match eval_expr(expr, env, m, known, fuel) {
        Ok(done) => done,
        Err(error) => {
            return Err(error);
        },
    };
    hold_flag(m, bool_value(&value))
}

/// The value of an operator. `and` and `or` look at the right operand only if they need
/// it.
pub open spec fn value_of_infix(
    expr: ExprView,
    env: usize,
    m: EvaluatorView,
    known: Seq<KnownView>,
    fuel: u64,
) -> Result<(EvaluatorView, ValueView), FailureView>
    decreases fuel, 0nat, expr, 8nat, 0nat,
{
    match expr.kind {
        ExprKindView::Infix(op, left, right) => match op {
            InfixOp::And => match truth_of_expr(*left, env, m, known, fuel) {
                Ok(out) => {
                    let (m, l) = out;
                    if l {
                        match truth_of_expr(*right, env, m, known, fuel) {
                            Ok(out) => {
                                let (m, r) = out;
                                Ok((m, ValueView::Bool(r)))
                            },
                            Err(error) => Err(error),
                        }
                    } else {
                        Ok((m, ValueView::Bool(false)))
                    }
                },
                Err(error) => Err(error),
            },
            InfixOp::Or => match truth_of_expr(*left, env, m, known, fuel) {
                Ok(out) => {
                    let (m, l) = out;
                    if l {
                        Ok((m, ValueView::Bool(true)))
                    } else {
                        match truth_of_expr(*right, env, m, known, fuel) {
                            Ok(out) => {
                                let (m, r) = out;
                                Ok((m, ValueView::Bool(r)))
                            },
                            Err(error) => Err(error),
                        }
                    }
                },
                Err(error) => Err(error),
            },
            _ => match value_of_expr(*left, env, m, known, fuel) {
                Ok(out) => {
                    let (m, l) = out;
                    match value_of_expr(*right, env, m, known, fuel) {
                        Ok(out) => {
                            let (m, r) = out;
                            value_held(m, operator_on(op, l, r, known))
                        },
                        Err(error) => Err(error),
                    }
                },
                Err(error) => Err(error),
            },
        },
        _ => Err(unsupported_in(m, "expression"@)),
    }
}

/// See [`value_of_infix`].
pub fn eval_operator(
    expr: &Expr,
    env: usize,
    m: Evaluator,
    known: &Vec<Known>,
    fuel: u64,
) -> (r: Result<(Evaluator, Value), Failure>)
    ensures
        (
            match r { Ok(v) => Ok((v.0@, v.1@)), Err(v) => Err(v@) }
        ) == value_of_infix(expr@, env, m@, known_list_view(known@), fuel),
    decreases fuel, 0nat, expr, 8nat, 0nat,
{
    proof { unfold_expr_kind(expr.kind); }
    match &expr.kind {
        ExprKind::Infix(op, left, right) => {
            match op {
                InfixOp::And => {
                    let (m, l) = match eval_bool(&**left, env, m, known, fuel) {
                        Ok(done) => done,
                        Err(error) => {
                            return Err(error);
                        },
                    };
                    if l {
                        let (m, r) = match eval_bool(&**right, env, m, known, fuel) {
                            Ok(done) => done,
                            Err(error) => {
                                return Err(error);
                            },
                        };
                        let value = Value::Bool(r);
                        proof { unfold_value(value); }
                        Ok((m, value))
                    } else {
                        let value2 = Value::Bool(false);
                        proof { unfold_value(value2); }
                        Ok((m, value2))
                    }
                },
                InfixOp::Or => {
                    let (m, l) = match eval_bool(&**left, env, m, known, fuel) {
                        Ok(done) => done,
                        Err(error) => {
                            return Err(error);
                        },
                    };
                    if l {
                        let value3 = Value::Bool(true);
                        proof { unfold_value(value3); }
                        Ok((m, value3))
                    } else {
                        let (m, r) = match eval_bool(&**right, env, m, known, fuel) {
                            Ok(done) => done,
                            Err(error) => {
                                return Err(error);
                            },
                        };
                        let value4 = Value::Bool(r);
                        proof { unfold_value(value4); }
                        Ok((m, value4))
                    }
                },
                _ => {
                    let (m, l) = match eval_expr(&**left, env, m, known, fuel) {
                        Ok(done) => done,
                        Err(error) => {
                            return Err(error);
                        },
                    };
                    let (m, r) = match eval_expr(&**right, env, m, known, fuel) {
                        Ok(done) => done,
                        Err(error) => {
                            return Err(error);
                        },
                    };
                    hold_value(m, apply_infix(*op, &l, &r, known))
                },
            }
        },
        _ => {
            assert(!(expr.kind@ is Infix));
            Err(not_supported(m, "expression"))
        },
    }
}

pub open spec fn value_of_member(
    expr: ExprView,
    env: usize,
    m: EvaluatorView,
    known: Seq<KnownView>,
    fuel: u64,
) -> Result<(EvaluatorView, ValueView), FailureView>
    decreases fuel, 0nat, expr, 8nat, 0nat,
{
    match expr.kind {
        ExprKindView::Member { object, field } => if names_self_type(*object) && param_of_self(
            m.scopes,
            env,
            field,
        ) is Some {
            let found = self_param_read(m.scopes, env, field);
            value_held(m, found)
        } else {
            match value_of_expr(*object, env, m, known, fuel) {
                Ok(out) => {
                    let (m, value) = out;
                    value_held(m, member_read(value, field))
                },
                Err(error) => Err(error),
            }
        },
        _ => Err(unsupported_in(m, "expression"@)),
    }
}

/// See [`value_of_member`].
pub fn eval_field(
    expr: &Expr,
    env: usize,
    m: Evaluator,
    known: &Vec<Known>,
    fuel: u64,
) -> (r: Result<(Evaluator, Value), Failure>)
    ensures
        (
            match r { Ok(v) => Ok((v.0@, v.1@)), Err(v) => Err(v@) }
        ) == value_of_member(expr@, env, m@, known_list_view(known@), fuel),
    decreases fuel, 0nat, expr, 8nat, 0nat,
{
    proof { unfold_expr_kind(expr.kind); }
    match &expr.kind {
        ExprKind::Member { object, field } => {
            if is_self_type(&**object) && self_param(&m.scopes, env, field).is_some() {
                let found = read_self_param(&m.scopes, env, field);
                hold_value(m, found)
            } else {
                let (m, value) = match eval_expr(&**object, env, m, known, fuel) {
                    Ok(done) => done,
                    Err(error) => {
                        return Err(error);
                    },
                };
                hold_value(m, member_value(&value, field))
            }
        },
        _ => {
            assert(!(expr.kind@ is Member));
            Err(not_supported(m, "expression"))
        },
    }
}

#[verifier::opaque]
pub open spec fn names_self_type(expr: ExprView) -> bool {
    match expr.kind {
        ExprKindView::Identifier(name) => name == "Self"@,
        _ => false,
    }
}

/// See [`names_self_type`].
pub fn is_self_type(expr: &Expr) -> (r: bool)
    ensures
        r == names_self_type(expr@),
{
    proof { reveal(names_self_type); }
    proof { unfold_expr_kind(expr.kind); }
    match &expr.kind {
        ExprKind::Identifier(name) => same_text(name.as_str(), "Self"),
        _ => {
            assert(!(expr.kind@ is Identifier));
            false
        },
    }
}

#[verifier::opaque]
pub open spec fn self_param_read(
    scopes: Seq<ScopeView>,
    env: usize,
    field: Seq<char>,
) -> Result<ValueView, EvalErrorView> {
    match param_of_self(scopes, env, field) {
        Some(value) => Ok(value),
        None => Err(EvalErrorView::OutOfBounds),
    }
}

/// See [`self_param_read`].
pub fn read_self_param(
    scopes: &Vec<Scope>,
    env: usize,
    field: &String,
) -> (r: Result<Value, EvalError>)
    ensures
        (
            match r { Ok(v) => Ok(v@), Err(v) => Err(v@) }
        ) == self_param_read(frame_list_view(scopes@), env, field@),
{
    proof { reveal(self_param_read); }
    match self_param(scopes, env, field) {
        Some(value) => Ok(value),
        None => Err(EvalError::OutOfBounds),
    }
}

pub open spec fn value_of_subscript(
    expr: ExprView,
    env: usize,
    m: EvaluatorView,
    known: Seq<KnownView>,
    fuel: u64,
) -> Result<(EvaluatorView, ValueView), FailureView>
    decreases fuel, 0nat, expr, 8nat, 0nat,
{
    match expr.kind {
        ExprKindView::Index { object, index } => match value_of_expr(*object, env, m, known, fuel) {
            Ok(out) => {
                let (m, value) = out;
                match value_of_expr(*index, env, m, known, fuel) {
                    Ok(out) => {
                        let (m, at) = out;
                        match index_held(m, index_of_value(at)) {
                            Ok(out) => {
                                let (m, idx) = out;
                                value_held(m, value_indexed(value, idx))
                            },
                            Err(error) => Err(error),
                        }
                    },
                    Err(error) => Err(error),
                }
            },
            Err(error) => Err(error),
        },
        _ => Err(unsupported_in(m, "expression"@)),
    }
}

/// See [`value_of_subscript`].
pub fn eval_subscript(
    expr: &Expr,
    env: usize,
    m: Evaluator,
    known: &Vec<Known>,
    fuel: u64,
) -> (r: Result<(Evaluator, Value), Failure>)
    ensures
        (
            match r { Ok(v) => Ok((v.0@, v.1@)), Err(v) => Err(v@) }
        ) == value_of_subscript(expr@, env, m@, known_list_view(known@), fuel),
    decreases fuel, 0nat, expr, 8nat, 0nat,
{
    proof { unfold_expr_kind(expr.kind); }
    match &expr.kind {
        ExprKind::Index { object, index } => {
            let (m, value) = match eval_expr(&**object, env, m, known, fuel) {
                Ok(done) => done,
                Err(error) => {
                    return Err(error);
                },
            };
            let (m, at) = match eval_expr(&**index, env, m, known, fuel) {
                Ok(done) => done,
                Err(error) => {
                    return Err(error);
                },
            };
            let (m, idx) = match hold_index(m, value_as_index(&at)) {
                Ok(done) => done,
                Err(error) => {
                    return Err(error);
                },
            };
            hold_value(m, value_at_index(&value, idx))
        },
        _ => {
            assert(!(expr.kind@ is Index));
            Err(not_supported(m, "expression"))
        },
    }
}

/// The variable that a place belongs to, and the path to the place.
pub open spec fn place_decomposed(
    place: ExprView,
    env: usize,
    m: EvaluatorView,
    known: Seq<KnownView>,
    fuel: u64,
) -> Result<(EvaluatorView, (Seq<char>, Seq<PathStepView>)), FailureView>
    decreases fuel, 0nat, place, 8nat, 0nat,
{
    match place.kind {
        ExprKindView::Identifier(name) => Ok((m, (name, Seq::empty()))),
        ExprKindView::Member { object, field } => match place_decomposed(
            *object,
            env,
            m,
            known,
            fuel,
        ) {
            Ok(out) => {
                let (m, found) = out;
                Ok((m, path_and(found, PathStepView::Field(field))))
            },
            Err(error) => Err(error),
        },
        ExprKindView::Index { object, index } => match place_decomposed(
            *object,
            env,
            m,
            known,
            fuel,
        ) {
            Ok(out) => {
                let (m, found) = out;
                match value_of_expr(*index, env, m, known, fuel) {
                    Ok(out) => {
                        let (m, at) = out;
                        match index_held(m, index_of_value(at)) {
                            Ok(out) => {
                                let (m, i) = out;
                                Ok((m, path_and(found, PathStepView::Index(i))))
                            },
                            Err(error) => Err(error),
                        }
                    },
                    Err(error) => Err(error),
                }
            },
            Err(error) => Err(error),
        },
        _ => Err(failed_by_type(m, "invalid assignment target"@)),
    }
}

/// See [`place_decomposed`].
pub fn decompose_place(
    place: &Expr,
    env: usize,
    m: Evaluator,
    known: &Vec<Known>,
    fuel: u64,
) -> (r: Result<(Evaluator, (String, Vec<PathStep>)), Failure>)
    ensures
        (
            match r {
                Ok(v) => Ok((v.0@, (v.1.0@, path_step_list_view(v.1.1@)))),
                Err(v) => Err(v@),
            }
        ) == place_decomposed(place@, env, m@, known_list_view(known@), fuel),
    decreases fuel, 0nat, place, 8nat, 0nat,
{
    proof { unfold_expr_kind(place.kind); }
    match &place.kind {
        ExprKind::Identifier(name) => {
            let list: Vec<PathStep> = Vec::new();
            assert(path_step_list_view(list@) =~= Seq::<PathStepView>::empty());
            Ok((m, (name.clone(), list)))
        },
        ExprKind::Member { object, field } => {
            let (m, found) = match decompose_place(&**object, env, m, known, fuel) {
                Ok(done) => done,
                Err(error) => {
                    return Err(error);
                },
            };
            Ok((m, stepped(found, PathStep::Field(field.clone()))))
        },
        ExprKind::Index { object, index } => {
            let (m, found) = match decompose_place(&**object, env, m, known, fuel) {
                Ok(done) => done,
                Err(error) => {
                    return Err(error);
                },
            };
            let (m, at) = match eval_expr(&**index, env, m, known, fuel) {
                Ok(done) => done,
                Err(error) => {
                    return Err(error);
                },
            };
            let (m, i) = match hold_index(m, value_as_index(&at)) {
                Ok(done) => done,
                Err(error) => {
                    return Err(error);
                },
            };
            Ok((m, stepped(found, PathStep::Index(i))))
        },
        _ => {
            assert(!(place.kind@ is Identifier));
            assert(!(place.kind@ is Member));
            assert(!(place.kind@ is Index));
            Err(type_failed(m, "invalid assignment target".to_owned()))
        },
    }
}

#[verifier::opaque]
pub open spec fn path_and(
    found: (Seq<char>, Seq<PathStepView>),
    step: PathStepView,
) -> (Seq<char>, Seq<PathStepView>) {
    let path = found.1;
    let path = path.push(step);
    (found.0, path)
}

/// See [`path_and`].
pub fn stepped(found: (String, Vec<PathStep>), step: PathStep) -> (r: (String, Vec<PathStep>))
    ensures
        (r.0@, path_step_list_view(r.1@)) == path_and(
            (found.0@, path_step_list_view(found.1@)),
            step@,
        ),
{
    proof { reveal(path_and); }
    let mut path = found.1;
    let ghost before = path_step_list_view(path@);
    let ghost added = step@;
    path.push(step);
    assert(path_step_list_view(path@) =~= before.push(added));
    (found.0, path)
}

/// A call of a function: a name that is bound first, then what is built in.
pub open spec fn value_of_call(
    expr: ExprView,
    env: usize,
    m: EvaluatorView,
    known: Seq<KnownView>,
    fuel: u64,
) -> Result<(EvaluatorView, ValueView), FailureView>
    decreases fuel, 0nat, expr, 8nat, 0nat,
{
    match expr.kind {
        ExprKindView::Call { name, .. } => match value_in_scope(m.scopes, env, name) {
            Some(callee) => match callee {
                ValueView::Closure(id) => value_of_closure(expr, id, env, m, known, fuel),
                _ => Err(failed_with(m, EvalErrorView::NotCallable(name))),
            },
            None => value_of_builtin(expr, env, m, known, fuel),
        },
        _ => Err(unsupported_in(m, "expression"@)),
    }
}

/// See [`value_of_call`].
pub fn eval_function_call(
    expr: &Expr,
    env: usize,
    m: Evaluator,
    known: &Vec<Known>,
    fuel: u64,
) -> (r: Result<(Evaluator, Value), Failure>)
    ensures
        (
            match r { Ok(v) => Ok((v.0@, v.1@)), Err(v) => Err(v@) }
        ) == value_of_call(expr@, env, m@, known_list_view(known@), fuel),
    decreases fuel, 0nat, expr, 8nat, 0nat,
{
    proof { unfold_expr_kind(expr.kind); }
    match &expr.kind {
        ExprKind::Call { name, .. } => {
            match lookup(&m.scopes, env, name) {
                Some(callee) => {
                    proof { unfold_value(callee); }
                    match callee {
                        Value::Closure(id) => call_closure(expr, id, env, m, known, fuel),
                        _ => {
                            assert(!(callee@ is Closure));
                            Err(failure(m, EvalError::NotCallable(name.clone())))
                        },
                    }
                },
                None => eval_builtin(expr, env, m, known, fuel),
            }
        },
        _ => {
            assert(!(expr.kind@ is Call));
            Err(not_supported(m, "expression"))
        },
    }
}

pub open spec fn value_of_builtin(
    expr: ExprView,
    env: usize,
    m: EvaluatorView,
    known: Seq<KnownView>,
    fuel: u64,
) -> Result<(EvaluatorView, ValueView), FailureView>
    decreases fuel, 0nat, expr, 7nat, 0nat,
{
    match expr.kind {
        ExprKindView::Call { name, args, .. } => if name == "print"@ {
            match values_of_exprs(args, env, known, fuel, 0, m, Seq::empty()) {
                Ok(out) => {
                    let (m, values) = out;
                    values_printed(m, values, known)
                },
                Err(error) => Err(error),
            }
        } else if unary_builtin(name) {
            match value_of_argument(args, 0, env, m, known, fuel) {
                Ok(out) => {
                    let (m, value) = out;
                    let arity = arity_list(m.closures, 0, Seq::empty());
                    value_held(m, unary_result(name, value, arity, known))
                },
                Err(error) => Err(error),
            }
        } else if name == "min"@ || name == "max"@ {
            match value_of_argument(args, 0, env, m, known, fuel) {
                Ok(out) => {
                    let (m, a) = out;
                    match value_of_argument(args, 1, env, m, known, fuel) {
                        Ok(out) => {
                            let (m, b) = out;
                            value_held(m, extreme(name == "min"@, a, b, known))
                        },
                        Err(error) => Err(error),
                    }
                },
                Err(error) => Err(error),
            }
        } else if name == "range"@ {
            match values_of_exprs(args, env, known, fuel, 0, m, Seq::empty()) {
                Ok(out) => {
                    let (m, values) = out;
                    value_held(m, range_made(values))
                },
                Err(error) => Err(error),
            }
        } else if conversion_name(name) {
            value_of_conversion(name, args, env, m, known, fuel)
        } else {
            value_of_constructor(expr, env, m, known, fuel)
        },
        _ => Err(unsupported_in(m, "expression"@)),
    }
}

/// See [`value_of_builtin`].
pub fn eval_builtin(
    expr: &Expr,
    env: usize,
    m: Evaluator,
    known: &Vec<Known>,
    fuel: u64,
) -> (r: Result<(Evaluator, Value), Failure>)
    ensures
        (
            match r { Ok(v) => Ok((v.0@, v.1@)), Err(v) => Err(v@) }
        ) == value_of_builtin(expr@, env, m@, known_list_view(known@), fuel),
    decreases fuel, 0nat, expr, 7nat, 0nat,
{
    proof { unfold_expr_kind(expr.kind); }
    match &expr.kind {
        ExprKind::Call { name, args, .. } => {
            if same_text(name.as_str(), "print") {
                let (m, values) = match eval_exprs(args, env, m, known, fuel) {
                    Ok(done) => done,
                    Err(error) => {
                        return Err(error);
                    },
                };
                print_values(m, &values, known)
            } else if is_unary_builtin(name) {
                let (m, value) = match eval_arg(args, 0, env, m, known, fuel) {
                    Ok(done) => done,
                    Err(error) => {
                        return Err(error);
                    },
                };
                let arity = arities(&m.closures);
                hold_value(m, unary_value(name, &value, &arity, known))
            } else if same_text(name.as_str(), "min") || same_text(name.as_str(), "max") {
                let (m, a) = match eval_arg(args, 0, env, m, known, fuel) {
                    Ok(done) => done,
                    Err(error) => {
                        return Err(error);
                    },
                };
                let (m, b) = match eval_arg(args, 1, env, m, known, fuel) {
                    Ok(done) => done,
                    Err(error) => {
                        return Err(error);
                    },
                };
                hold_value(m, min_max_value(same_text(name.as_str(), "min"), &a, &b, known))
            } else if same_text(name.as_str(), "range") {
                let (m, values) = match eval_exprs(args, env, m, known, fuel) {
                    Ok(done) => done,
                    Err(error) => {
                        return Err(error);
                    },
                };
                hold_value(m, range_value(&values))
            } else if is_conversion(name) {
                eval_conversion(name, args, env, m, known, fuel)
            } else {
                eval_constructor(expr, env, m, known, fuel)
            }
        },
        _ => {
            assert(!(expr.kind@ is Call));
            Err(not_supported(m, "expression"))
        },
    }
}

/// One argument; the others are not looked at.
pub open spec fn value_of_argument(
    args: Seq<ExprView>,
    k: usize,
    env: usize,
    m: EvaluatorView,
    known: Seq<KnownView>,
    fuel: u64,
) -> Result<(EvaluatorView, ValueView), FailureView>
    decreases fuel, 0nat, args, 1nat, 0nat,
{
    if k < args.len() {
        value_of_expr(args[k as int], env, m, known, fuel)
    } else {
        Err(failed_with(m, EvalErrorView::OutOfBounds))
    }
}

/// See [`value_of_argument`].
pub fn eval_arg(
    args: &Vec<Expr>,
    k: usize,
    env: usize,
    m: Evaluator,
    known: &Vec<Known>,
    fuel: u64,
) -> (r: Result<(Evaluator, Value), Failure>)
    ensures
        (match r { Ok(v) => Ok((v.0@, v.1@)), Err(v) => Err(v@) }) == value_of_argument(
            expr_list_view(args@),
            k,
            env,
            m@,
            known_list_view(known@),
            fuel,
        ),
    decreases fuel, 0nat, args@, 1nat, 0nat,
{
    if k < args.len() {
        eval_expr(&args[k], env, m, known, fuel)
    } else {
        Err(failure(m, EvalError::OutOfBounds))
    }
}

pub open spec fn value_of_conversion(
    name: Seq<char>,
    args: Seq<ExprView>,
    env: usize,
    m: EvaluatorView,
    known: Seq<KnownView>,
    fuel: u64,
) -> Result<(EvaluatorView, ValueView), FailureView>
    decreases fuel, 0nat, args, 2nat, 0nat,
{
    if args.len() != 1 {
        Err(
            failed_with(
                m,
                EvalErrorView::ArityMismatch { name, expected: 1, got: args.len() as usize },
            )
        )
    } else {
        match value_of_argument(args, 0, env, m, known, fuel) {
            Ok(out) => {
                let (m, value) = out;
                value_held(m, conversion(name, value, known))
            },
            Err(error) => Err(error),
        }
    }
}

/// See [`value_of_conversion`].
pub fn eval_conversion(
    name: &String,
    args: &Vec<Expr>,
    env: usize,
    m: Evaluator,
    known: &Vec<Known>,
    fuel: u64,
) -> (r: Result<(Evaluator, Value), Failure>)
    ensures
        (match r { Ok(v) => Ok((v.0@, v.1@)), Err(v) => Err(v@) }) == value_of_conversion(
            name@,
            expr_list_view(args@),
            env,
            m@,
            known_list_view(known@),
            fuel,
        ),
    decreases fuel, 0nat, args@, 2nat, 0nat,
{
    if args.len() != 1 {
        Err(
            failure(
                m,
                EvalError::ArityMismatch { name: name.clone(), expected: 1, got: args.len() },
            )
        )
    } else {
        let (m, value) = match eval_arg(args, 0, env, m, known, fuel) {
            Ok(done) => done,
            Err(error) => {
                return Err(error);
            },
        };
        hold_value(m, converted(name, &value, known))
    }
}

/// A call that makes a list, a vector or a struct.
pub open spec fn value_of_constructor(
    expr: ExprView,
    env: usize,
    m: EvaluatorView,
    known: Seq<KnownView>,
    fuel: u64,
) -> Result<(EvaluatorView, ValueView), FailureView>
    decreases fuel, 0nat, expr, 6nat, 0nat,
{
    match expr.kind {
        ExprKindView::Call { name, args, .. } => if name == "List"@ {
            value_of_list(expr, env, m, known, fuel)
        } else if name == "SIMD"@ {
            value_of_simd(expr, env, m, known, fuel)
        } else {
            match dtype_of_alias(name) {
                Some(dtype) => value_of_simd_with(dtype, 1, args, env, m, known, fuel),
                None => value_of_construction(expr, env, m, known, fuel),
            }
        },
        _ => Err(unsupported_in(m, "expression"@)),
    }
}

/// See [`value_of_constructor`].
pub fn eval_constructor(
    expr: &Expr,
    env: usize,
    m: Evaluator,
    known: &Vec<Known>,
    fuel: u64,
) -> (r: Result<(Evaluator, Value), Failure>)
    ensures
        (
            match r { Ok(v) => Ok((v.0@, v.1@)), Err(v) => Err(v@) }
        ) == value_of_constructor(expr@, env, m@, known_list_view(known@), fuel),
    decreases fuel, 0nat, expr, 6nat, 0nat,
{
    proof { unfold_expr_kind(expr.kind); }
    match &expr.kind {
        ExprKind::Call { name, args, .. } => {
            if same_text(name.as_str(), "List") {
                eval_list_construction(expr, env, m, known, fuel)
            } else if same_text(name.as_str(), "SIMD") {
                eval_simd_construction(expr, env, m, known, fuel)
            } else {
                match from_scalar_alias(name) {
                    Some(dtype) => eval_simd_construction_with(dtype, 1, args, env, m, known, fuel),
                    None => eval_construction(expr, env, m, known, fuel),
                }
            }
        },
        _ => {
            assert(!(expr.kind@ is Call));
            Err(not_supported(m, "expression"))
        },
    }
}

#[verifier::opaque]
pub open spec fn type_of_elements(param_args: Seq<ParamArgView>) -> Option<TypeView> {
    if param_args.len() > 0 {
        match param_args[0] {
            ParamArgView::Type(ty) => Some(ty),
            ParamArgView::Value(expr) => match expr.kind {
                ExprKindView::Identifier(id) => Some(TypeView::Named(id, Seq::empty())),
                _ => None,
            },
            _ => None,
        }
    } else {
        None
    }
}

/// See [`type_of_elements`].
pub fn list_element_type(param_args: &Vec<ParamArg>) -> (r: Option<Type>)
    ensures
        opt_view(r) == type_of_elements(param_arg_list_view(param_args@)),
{
    proof { reveal(type_of_elements); }
    if param_args.len() > 0 {
        match &param_args[0] {
            ParamArg::Type(ty) => Some(clone_type(ty)),
            ParamArg::Value(expr) => {
                proof { unfold_expr_kind(expr.kind); }
                match &expr.kind {
                    ExprKind::Identifier(id) => {
                        let list: Vec<ParamArg> = Vec::new();
                        assert(param_arg_list_view(list@) =~= Seq::<ParamArgView>::empty());
                        let type_value = Type::Named(id.clone(), list);
                        proof { unfold_type(type_value); }
                        Some(type_value)
                    },
                    _ => {
                        assert(!(expr.kind@ is Identifier));
                        None
                    },
                }
            },
            _ => {
                assert(!(param_args[0]@ is Type));
                assert(!(param_args[0]@ is Value));
                None
            },
        }
    } else {
        None
    }
}

pub open spec fn values_coerced(
    items: Seq<ValueView>,
    ty: TypeView,
    known: Seq<KnownView>,
    i: nat,
    out: Seq<ValueView>,
) -> Result<Seq<ValueView>, EvalErrorView>
    decreases items, (items.len() - i) as nat,
{
    if i >= items.len() {
        Ok(out)
    } else {
        let item = items[i as int];
        match coerced(item, ty, known) {
            Ok(taken) => {
                let made = taken;
                let out = out.push(made);
                values_coerced(items, ty, known, i + 1, out)
            },
            Err(error) => Err(error),
        }
    }
}

/// See [`values_coerced`].
pub fn coerce_values(
    items: &Vec<Value>,
    ty: &Type,
    known: &Vec<Known>,
) -> (r: Result<Vec<Value>, EvalError>)
    ensures
        (match r { Ok(v) => Ok(value_list_view(v@)), Err(v) => Err(v@) }) == values_coerced(
            value_list_view(items@),
            ty@,
            known_list_view(known@),
            0,
            Seq::<ValueView>::empty(),
        ),
    decreases items@, 0nat,
{
    let mut out: Vec<Value> = Vec::new();
    assert(value_list_view(out@) =~= Seq::<ValueView>::empty());
    let ghost goal = values_coerced(
        value_list_view(items@),
        ty@,
        known_list_view(known@),
        0,
        Seq::<ValueView>::empty(),
    );
    let mut i: usize = 0;
    while i < items.len()
        invariant
            i <= items@.len(),
            value_list_view(items@).len() == items@.len(),
            values_coerced(
                value_list_view(items@),
                ty@,
                known_list_view(known@),
                i as nat,
                value_list_view(out@),
            ) == goal,
            goal == values_coerced(
                value_list_view(items@),
                ty@,
                known_list_view(known@),
                0,
                Seq::<ValueView>::empty(),
            ),
        decreases items@.len() - i,
    {
        let item = &items[i];
        assert(value_list_view(items@)[i as int] == item@);
        let made = match coerce(clone_value(item), ty, known) {
            Ok(done) => done,
            Err(error) => {
                return Err(error);
            },
        };
        let ghost before = value_list_view(out@);
        let ghost added = made@;
        out.push(made);
        assert(value_list_view(out@) =~= before.push(added));
        i = i + 1;
    }
    Ok(out)
}

/// A list from its elements, at the element type if one is given.
pub open spec fn value_of_list(
    expr: ExprView,
    env: usize,
    m: EvaluatorView,
    known: Seq<KnownView>,
    fuel: u64,
) -> Result<(EvaluatorView, ValueView), FailureView>
    decreases fuel, 0nat, expr, 5nat, 0nat,
{
    match expr.kind {
        ExprKindView::Call { param_args, args, .. } => match values_of_exprs(
            args,
            env,
            known,
            fuel,
            0,
            m,
            Seq::empty(),
        ) {
            Ok(out) => {
                let (m, items) = out;
                match match type_of_elements(param_args) {
                    Some(ty) => values_held(m, values_coerced(items, ty, known, 0, Seq::empty())),
                    None => values_held(m, promoted_numbers(items, known)),
                } {
                    Ok(out) => {
                        let (m, made) = out;
                        Ok((m, ValueView::List(made)))
                    },
                    Err(error) => Err(error),
                }
            },
            Err(error) => Err(error),
        },
        _ => Err(unsupported_in(m, "expression"@)),
    }
}

/// See [`value_of_list`].
pub fn eval_list_construction(
    expr: &Expr,
    env: usize,
    m: Evaluator,
    known: &Vec<Known>,
    fuel: u64,
) -> (r: Result<(Evaluator, Value), Failure>)
    ensures
        (
            match r { Ok(v) => Ok((v.0@, v.1@)), Err(v) => Err(v@) }
        ) == value_of_list(expr@, env, m@, known_list_view(known@), fuel),
    decreases fuel, 0nat, expr, 5nat, 0nat,
{
    proof { unfold_expr_kind(expr.kind); }
    match &expr.kind {
        ExprKind::Call { param_args, args, .. } => {
            let (m, items) = match eval_exprs(args, env, m, known, fuel) {
                Ok(done) => done,
                Err(error) => {
                    return Err(error);
                },
            };
            let (m, made) = match match list_element_type(param_args) {
        Some(ty) => hold_values(m, coerce_values(&items, &ty, known)),
        None => hold_values(m, promote_numeric_elems(&items, known)),
    } {
                Ok(done) => done,
                Err(error) => {
                    return Err(error);
                },
            };
            let value = Value::List(made);
            proof { unfold_value(value); }
            Ok((m, value))
        },
        _ => {
            assert(!(expr.kind@ is Call));
            Err(not_supported(m, "expression"))
        },
    }
}

#[verifier::opaque]
pub open spec fn dtype_of_args(param_args: Seq<ParamArgView>) -> Result<Dtype, EvalErrorView> {
    if param_args.len() > 0 {
        match param_args[0] {
            ParamArgView::Value(expr) => match expr.kind {
                ExprKindView::Member { field, .. } => match dtype_named(field) {
                    Some(dtype) => Ok(dtype),
                    None => Err(type_failure("bad dtype '"@ + field + "'"@)),
                },
                _ => Err(type_failure("SIMD needs a DType"@)),
            },
            _ => Err(type_failure("SIMD needs a DType"@)),
        }
    } else {
        Err(type_failure("SIMD needs a DType"@))
    }
}

/// See [`dtype_of_args`].
pub fn simd_dtype(param_args: &Vec<ParamArg>) -> (r: Result<Dtype, EvalError>)
    ensures
        (
            match r { Ok(v) => Ok(v), Err(v) => Err(v@) }
        ) == dtype_of_args(param_arg_list_view(param_args@)),
{
    proof { reveal(dtype_of_args); }
    if param_args.len() > 0 {
        match &param_args[0] {
            ParamArg::Value(expr) => {
                proof { unfold_expr_kind(expr.kind); }
                match &expr.kind {
                    ExprKind::Member { field, .. } => {
                        match dtype_from_name(field) {
                            Some(dtype) => Ok(dtype),
                            None => Err(failed_type(cat3("bad dtype '", field.as_str(), "'"))),
                        }
                    },
                    _ => {
                        assert(!(expr.kind@ is Member));
                        Err(failed_type("SIMD needs a DType".to_owned()))
                    },
                }
            },
            _ => {
                assert(!(param_args[0]@ is Value));
                Err(failed_type("SIMD needs a DType".to_owned()))
            },
        }
    } else {
        Err(failed_type("SIMD needs a DType".to_owned()))
    }
}

#[verifier::opaque]
pub open spec fn dtype_held(
    m: EvaluatorView,
    made: Result<Dtype, EvalErrorView>,
) -> Result<(EvaluatorView, Dtype), FailureView> {
    match made {
        Ok(dtype) => Ok((m, dtype)),
        Err(error) => Err(failed_with(m, error)),
    }
}

/// See [`dtype_held`].
pub fn hold_dtype(
    m: Evaluator,
    made: Result<Dtype, EvalError>,
) -> (r: Result<(Evaluator, Dtype), Failure>)
    ensures
        (
            match r { Ok(v) => Ok((v.0@, v.1)), Err(v) => Err(v@) }
        ) == dtype_held(m@, (match made { Ok(v) => Ok(v), Err(v) => Err(v@) })),
{
    proof { reveal(dtype_held); }
    match made {
        Ok(dtype) => Ok((m, dtype)),
        Err(error) => Err(failure(m, error)),
    }
}

#[verifier::opaque]
pub open spec fn width_of(value: ValueView) -> Result<i64, EvalErrorView> {
    match value {
        ValueView::Int(w) => Ok(w),
        _ => Err(type_failure("SIMD width must be Int, got "@ + type_shown(value))),
    }
}

/// See [`width_of`].
pub fn width_value(value: &Value) -> (r: Result<i64, EvalError>)
    ensures
        (match r { Ok(v) => Ok(v), Err(v) => Err(v@) }) == width_of(value@),
{
    proof { reveal(width_of); }
    proof { unfold_value(*value); }
    match value {
        Value::Int(w) => Ok(*w),
        _ => {
            assert(!(value@ is Int));
            Err(failed_type(cat2("SIMD width must be Int, got ", value_type_name(value).as_str())))
        },
    }
}

pub open spec fn value_of_simd(
    expr: ExprView,
    env: usize,
    m: EvaluatorView,
    known: Seq<KnownView>,
    fuel: u64,
) -> Result<(EvaluatorView, ValueView), FailureView>
    decreases fuel, 0nat, expr, 5nat, 0nat,
{
    match expr.kind {
        ExprKindView::Call { param_args, args, .. } => match dtype_held(
            m,
            dtype_of_args(param_args),
        ) {
            Ok(out) => {
                let (m, dtype) = out;
                match value_of_width(param_args, env, m, known, fuel) {
                    Ok(out) => {
                        let (m, width) = out;
                        value_of_simd_with(dtype, width, args, env, m, known, fuel)
                    },
                    Err(error) => Err(error),
                }
            },
            Err(error) => Err(error),
        },
        _ => Err(unsupported_in(m, "expression"@)),
    }
}

/// See [`value_of_simd`].
pub fn eval_simd_construction(
    expr: &Expr,
    env: usize,
    m: Evaluator,
    known: &Vec<Known>,
    fuel: u64,
) -> (r: Result<(Evaluator, Value), Failure>)
    ensures
        (
            match r { Ok(v) => Ok((v.0@, v.1@)), Err(v) => Err(v@) }
        ) == value_of_simd(expr@, env, m@, known_list_view(known@), fuel),
    decreases fuel, 0nat, expr, 5nat, 0nat,
{
    proof { unfold_expr_kind(expr.kind); }
    match &expr.kind {
        ExprKind::Call { param_args, args, .. } => {
            let (m, dtype) = match hold_dtype(m, simd_dtype(param_args)) {
                Ok(done) => done,
                Err(error) => {
                    return Err(error);
                },
            };
            let (m, width) = match eval_width(param_args, env, m, known, fuel) {
                Ok(done) => done,
                Err(error) => {
                    return Err(error);
                },
            };
            eval_simd_construction_with(dtype, width, args, env, m, known, fuel)
        },
        _ => {
            assert(!(expr.kind@ is Call));
            Err(not_supported(m, "expression"))
        },
    }
}

pub open spec fn value_of_width(
    param_args: Seq<ParamArgView>,
    env: usize,
    m: EvaluatorView,
    known: Seq<KnownView>,
    fuel: u64,
) -> Result<(EvaluatorView, i64), FailureView>
    decreases fuel, 0nat, param_args, 1nat, 0nat,
{
    if param_args.len() > 1 {
        match param_args[1] {
            ParamArgView::Value(expr) => match value_of_expr(expr, env, m, known, fuel) {
                Ok(out) => {
                    let (m, value) = out;
                    index_held(m, width_of(value))
                },
                Err(error) => Err(error),
            },
            _ => Err(failed_by_type(m, "SIMD needs a width"@)),
        }
    } else {
        Err(failed_by_type(m, "SIMD needs a width"@))
    }
}

/// See [`value_of_width`].
pub fn eval_width(
    param_args: &Vec<ParamArg>,
    env: usize,
    m: Evaluator,
    known: &Vec<Known>,
    fuel: u64,
) -> (r: Result<(Evaluator, i64), Failure>)
    ensures
        (match r { Ok(v) => Ok((v.0@, v.1)), Err(v) => Err(v@) }) == value_of_width(
            param_arg_list_view(param_args@),
            env,
            m@,
            known_list_view(known@),
            fuel,
        ),
    decreases fuel, 0nat, param_args@, 1nat, 0nat,
{
    if param_args.len() > 1 {
        match &param_args[1] {
            ParamArg::Value(expr) => {
                let (m, value) = match eval_expr(expr, env, m, known, fuel) {
                    Ok(done) => done,
                    Err(error) => {
                        return Err(error);
                    },
                };
                hold_index(m, width_value(&value))
            },
            _ => {
                assert(!(param_args[1]@ is Value));
                Err(type_failed(m, "SIMD needs a width".to_owned()))
            },
        }
    } else {
        Err(type_failed(m, "SIMD needs a width".to_owned()))
    }
}

pub open spec fn value_of_simd_with(
    dtype: Dtype,
    width: i64,
    args: Seq<ExprView>,
    env: usize,
    m: EvaluatorView,
    known: Seq<KnownView>,
    fuel: u64,
) -> Result<(EvaluatorView, ValueView), FailureView>
    decreases fuel, 0nat, args, 2nat, 0nat,
{
    match values_of_exprs(args, env, known, fuel, 0, m, Seq::empty()) {
        Ok(out) => {
            let (m, values) = out;
            if width >= 0 && width <= 4294967295 {
                value_held(m, vector_built(dtype, width as usize, values, known))
            } else {
                Err(failed_with(m, EvalErrorView::OutOfBounds))
            }
        },
        Err(error) => Err(error),
    }
}

/// See [`value_of_simd_with`].
pub fn eval_simd_construction_with(
    dtype: Dtype,
    width: i64,
    args: &Vec<Expr>,
    env: usize,
    m: Evaluator,
    known: &Vec<Known>,
    fuel: u64,
) -> (r: Result<(Evaluator, Value), Failure>)
    ensures
        (match r { Ok(v) => Ok((v.0@, v.1@)), Err(v) => Err(v@) }) == value_of_simd_with(
            dtype,
            width,
            expr_list_view(args@),
            env,
            m@,
            known_list_view(known@),
            fuel,
        ),
    decreases fuel, 0nat, args@, 2nat, 0nat,
{
    let (m, values) = match eval_exprs(args, env, m, known, fuel) {
        Ok(done) => done,
        Err(error) => {
            return Err(error);
        },
    };
    if width >= 0 && width <= 4294967295 {
        hold_value(m, simd_from(dtype, width as usize, &values, known))
    } else {
        Err(failure(m, EvalError::OutOfBounds))
    }
}

/// A struct from the values of its fields, in their order.
pub open spec fn value_of_construction(
    expr: ExprView,
    env: usize,
    m: EvaluatorView,
    known: Seq<KnownView>,
    fuel: u64,
) -> Result<(EvaluatorView, ValueView), FailureView>
    decreases fuel, 0nat, expr, 5nat, 0nat,
{
    match expr.kind {
        ExprKindView::Call {
            name,
            param_args,
            args,
            ..
        } => match struct_defined(m.structs, name, 0, None) {
            Some(def) => if !def.fieldwise_init {
                Err(failed_by_type(m, "struct '"@ + name + "' has no constructor"@))
            } else if def.fields.len() != args.len() {
                Err(
                    failed_with(
                        m,
                        EvalErrorView::ArityMismatch {
                            name,
                            expected: def.fields.len() as usize,
                            got: args.len() as usize,
                        },
                    )
                )
            } else {
                match values_of_params(
                    param_args,
                    def.param_decls,
                    env,
                    known,
                    fuel,
                    0,
                    m,
                    Seq::empty(),
                    0,
                ) {
                    Ok(out) => {
                        let (m, value_params) = out;
                        match values_of_fields(
                            args,
                            def.fields,
                            env,
                            known,
                            fuel,
                            0,
                            m,
                            Seq::empty(),
                            0,
                        ) {
                            Ok(out) => {
                                let (m, fields) = out;
                                Ok((m, ValueView::Struct { name, fields, value_params }))
                            },
                            Err(error) => Err(error),
                        }
                    },
                    Err(error) => Err(error),
                }
            },
            None => Err(failed_with(m, EvalErrorView::UndefinedVariable(name))),
        },
        _ => Err(unsupported_in(m, "expression"@)),
    }
}

/// See [`value_of_construction`].
pub fn eval_construction(
    expr: &Expr,
    env: usize,
    m: Evaluator,
    known: &Vec<Known>,
    fuel: u64,
) -> (r: Result<(Evaluator, Value), Failure>)
    ensures
        (
            match r { Ok(v) => Ok((v.0@, v.1@)), Err(v) => Err(v@) }
        ) == value_of_construction(expr@, env, m@, known_list_view(known@), fuel),
    decreases fuel, 0nat, expr, 5nat, 0nat,
{
    proof { unfold_expr_kind(expr.kind); }
    match &expr.kind {
        ExprKind::Call { name, param_args, args, .. } => {
            match find_def(&m.structs, name) {
                Some(def) => {
                    if !def.fieldwise_init {
                        Err(type_failed(m, cat3("struct '", name.as_str(), "' has no constructor")))
                    } else if def.fields.len() != args.len() {
                        Err(
                            failure(
                                m,
                                EvalError::ArityMismatch {
                                    name: name.clone(),
                                    expected: def.fields.len(),
                                    got: args.len(),
                                },
                            )
                        )
                    } else {
                        let (m, value_params) = match eval_value_params(
                            param_args,
                            &def.param_decls,
                            env,
                            m,
                            known,
                            fuel,
                        ) {
                            Ok(done) => done,
                            Err(error) => {
                                return Err(error);
                            },
                        };
                        let (m, fields) = match eval_fields(
                            args,
                            &def.fields,
                            env,
                            m,
                            known,
                            fuel,
                        ) {
                            Ok(done) => done,
                            Err(error) => {
                                return Err(error);
                            },
                        };
                        let value = Value::Struct { name: name.clone(), fields, value_params };
                        proof { unfold_value(value); }
                        Ok((m, value))
                    }
                },
                None => Err(failure(m, EvalError::UndefinedVariable(name.clone()))),
            }
        },
        _ => {
            assert(!(expr.kind@ is Call));
            Err(not_supported(m, "expression"))
        },
    }
}

pub open spec fn values_of_fields(
    args: Seq<ExprView>,
    fields: Seq<(Seq<char>, TypeView)>,
    env: usize,
    known: Seq<KnownView>,
    fuel: u64,
    i: nat,
    m: EvaluatorView,
    out: Seq<(Seq<char>, ValueView)>,
    k: usize,
) -> Result<(EvaluatorView, Seq<(Seq<char>, ValueView)>), FailureView>
    decreases fuel, 0nat, args, 0nat, (args.len() - i) as nat,
{
    if i >= args.len() {
        Ok((m, out))
    } else {
        let arg = args[i as int];
        if k >= fields.len() {
            Ok((m, out))
        } else {
            match value_of_expr(arg, env, m, known, fuel) {
                Ok(taken) => {
                    let (next, value) = taken;
                    match value_held(next, coerced(value, fields[k as int].1, known)) {
                        Ok(taken) => {
                            let (after, made) = taken;
                            let m = after;
                            let out = out.push((fields[k as int].0, made));
                            let k = following_index(k);
                            values_of_fields(args, fields, env, known, fuel, i + 1, m, out, k)
                        },
                        Err(error) => Err(error),
                    }
                },
                Err(error) => Err(error),
            }
        }
    }
}

/// See [`values_of_fields`].
pub fn eval_fields(
    args: &Vec<Expr>,
    fields: &Vec<(String, Type)>,
    env: usize,
    start: Evaluator,
    known: &Vec<Known>,
    fuel: u64,
) -> (r: Result<(Evaluator, Vec<(String, Value)>), Failure>)
    ensures
        (
            match r { Ok(v) => Ok((v.0@, field_value_list_view(v.1@))), Err(v) => Err(v@) }
        ) == values_of_fields(
            expr_list_view(args@),
            typed_name_list_view(fields@),
            env,
            known_list_view(known@),
            fuel,
            0,
            start@,
            Seq::<(Seq<char>, ValueView)>::empty(),
            0,
        ),
    decreases fuel, 0nat, args@, 0nat, 0nat,
{
    let mut m: Evaluator = start;
    let mut out: Vec<(String, Value)> = Vec::new();
    assert(field_value_list_view(out@) =~= Seq::<(Seq<char>, ValueView)>::empty());
    let mut k: usize = 0;
    let ghost goal = values_of_fields(
        expr_list_view(args@),
        typed_name_list_view(fields@),
        env,
        known_list_view(known@),
        fuel,
        0,
        start@,
        Seq::<(Seq<char>, ValueView)>::empty(),
        0,
    );
    let mut i: usize = 0;
    while i < args.len()
        invariant
            i <= args@.len(),
            expr_list_view(args@).len() == args@.len(),
            values_of_fields(
                expr_list_view(args@),
                typed_name_list_view(fields@),
                env,
                known_list_view(known@),
                fuel,
                i as nat,
                m@,
                field_value_list_view(out@),
                k,
            ) == goal,
            goal == values_of_fields(
                expr_list_view(args@),
                typed_name_list_view(fields@),
                env,
                known_list_view(known@),
                fuel,
                0,
                start@,
                Seq::<(Seq<char>, ValueView)>::empty(),
                0,
            ),
        decreases args@.len() - i,
    {
        let arg = &args[i];
        assert(expr_list_view(args@)[i as int] == arg@);
        if k >= fields.len() {
            return Ok((m, out));
        }
        let (next, value) = match eval_expr(arg, env, m, known, fuel) {
            Ok(done) => done,
            Err(error) => {
                return Err(error);
            },
        };
        let (after, made) = match hold_value(next, coerce(value, &fields[k].1, known)) {
            Ok(done) => done,
            Err(error) => {
                return Err(error);
            },
        };
        m = after;
        let item = ((&fields[k].0).clone(), made);
        let ghost before = field_value_list_view(out@);
        let ghost added = (item.0@, item.1@);
        out.push(item);
        assert(field_value_list_view(out@) =~= before.push(added));
        k = next_index(k);
        i = i + 1;
    }
    Ok((m, out))
}

/// Bind the parameters of a call. A default is evaluated in the scope of the function.
pub open spec fn params_bound(
    params: Seq<FnParamView>,
    regular: usize,
    name: Seq<char>,
    args: Seq<ValueView>,
    kwargs: Seq<KwArgView>,
    kw_values: Seq<ValueView>,
    home: usize,
    call_env: usize,
    known: Seq<KnownView>,
    fuel: u64,
    i: nat,
    m: EvaluatorView,
    k: usize,
) -> Result<EvaluatorView, FailureView>
    decreases fuel, 3nat, params, 0nat, (params.len() - i) as nat,
{
    if i >= params.len() {
        Ok(m)
    } else {
        let param = params[i as int];
        if k >= regular {
            Ok(m)
        } else {
            match argument_of(
                param,
                k,
                regular,
                name,
                args,
                kwargs,
                kw_values,
                home,
                m,
                known,
                fuel,
            ) {
                Ok(out) => {
                    let (next, value) = out;
                    match value_held(next, coerced(value, param.ty, known)) {
                        Ok(out) => {
                            let (after, made) = out;
                            let m = name_defined(after, call_env, param.name, made);
                            let k = following_index(k);
                            params_bound(
                                params,
                                regular,
                                name,
                                args,
                                kwargs,
                                kw_values,
                                home,
                                call_env,
                                known,
                                fuel,
                                i + 1,
                                m,
                                k,
                            )
                        },
                        Err(error) => Err(error),
                    }
                },
                Err(error) => Err(error),
            }
        }
    }
}

/// See [`params_bound`].
pub fn bind_params(
    params: &Vec<FnParam>,
    regular: usize,
    name: &String,
    args: &Vec<Value>,
    kwargs: &Vec<KwArg>,
    kw_values: &Vec<Value>,
    home: usize,
    call_env: usize,
    start: Evaluator,
    known: &Vec<Known>,
    fuel: u64,
) -> (r: Result<Evaluator, Failure>)
    ensures
        (match r { Ok(v) => Ok(v@), Err(v) => Err(v@) }) == params_bound(
            fn_param_list_view(params@),
            regular,
            name@,
            value_list_view(args@),
            kw_arg_list_view(kwargs@),
            value_list_view(kw_values@),
            home,
            call_env,
            known_list_view(known@),
            fuel,
            0,
            start@,
            0,
        ),
    decreases fuel, 3nat, params@, 0nat, 0nat,
{
    let mut m: Evaluator = start;
    let mut k: usize = 0;
    let ghost goal = params_bound(
        fn_param_list_view(params@),
        regular,
        name@,
        value_list_view(args@),
        kw_arg_list_view(kwargs@),
        value_list_view(kw_values@),
        home,
        call_env,
        known_list_view(known@),
        fuel,
        0,
        start@,
        0,
    );
    let mut i: usize = 0;
    while i < params.len()
        invariant
            i <= params@.len(),
            fn_param_list_view(params@).len() == params@.len(),
            params_bound(
                fn_param_list_view(params@),
                regular,
                name@,
                value_list_view(args@),
                kw_arg_list_view(kwargs@),
                value_list_view(kw_values@),
                home,
                call_env,
                known_list_view(known@),
                fuel,
                i as nat,
                m@,
                k,
            ) == goal,
            goal == params_bound(
                fn_param_list_view(params@),
                regular,
                name@,
                value_list_view(args@),
                kw_arg_list_view(kwargs@),
                value_list_view(kw_values@),
                home,
                call_env,
                known_list_view(known@),
                fuel,
                0,
                start@,
                0,
            ),
        decreases params@.len() - i,
    {
        let param = &params[i];
        assert(fn_param_list_view(params@)[i as int] == param@);
        if k >= regular {
            return Ok(m);
        }
        let (next, value) = match argument(
            param,
            k,
            regular,
            name,
            args,
            kwargs,
            kw_values,
            home,
            m,
            known,
            fuel,
        ) {
            Ok(done) => done,
            Err(error) => {
                return Err(error);
            },
        };
        let (after, made) = match hold_value(next, coerce(value, &param.ty, known)) {
            Ok(done) => done,
            Err(error) => {
                return Err(error);
            },
        };
        m = define_name(after, call_env, &param.name, made);
        k = next_index(k);
        i = i + 1;
    }
    Ok(m)
}

pub open spec fn argument_of(
    param: FnParamView,
    k: usize,
    regular: usize,
    name: Seq<char>,
    args: Seq<ValueView>,
    kwargs: Seq<KwArgView>,
    kw_values: Seq<ValueView>,
    home: usize,
    m: EvaluatorView,
    known: Seq<KnownView>,
    fuel: u64,
) -> Result<(EvaluatorView, ValueView), FailureView>
    decreases fuel, 2nat, param, 0nat, 0nat,
{
    if k < args.len() {
        Ok((m, args[k as int]))
    } else {
        match keyword_position(kwargs, param.name, 0, 0) {
            Some(at) => if at < kw_values.len() {
                Ok((m, kw_values[at as int]))
            } else {
                Err(failed_with(m, EvalErrorView::OutOfBounds))
            },
            None => match param.default {
                Some(default) => value_of_expr(default, home, m, known, fuel),
                None => Err(
                    failed_with(
                        m,
                        EvalErrorView::ArityMismatch {
                            name,
                            expected: regular,
                            got: sum_of(args.len() as usize, kwargs.len() as usize),
                        },
                    )
                ),
            },
        }
    }
}

/// See [`argument_of`].
pub fn argument(
    param: &FnParam,
    k: usize,
    regular: usize,
    name: &String,
    args: &Vec<Value>,
    kwargs: &Vec<KwArg>,
    kw_values: &Vec<Value>,
    home: usize,
    m: Evaluator,
    known: &Vec<Known>,
    fuel: u64,
) -> (r: Result<(Evaluator, Value), Failure>)
    ensures
        (match r { Ok(v) => Ok((v.0@, v.1@)), Err(v) => Err(v@) }) == argument_of(
            param@,
            k,
            regular,
            name@,
            value_list_view(args@),
            kw_arg_list_view(kwargs@),
            value_list_view(kw_values@),
            home,
            m@,
            known_list_view(known@),
            fuel,
        ),
    decreases fuel, 2nat, param, 0nat, 0nat,
{
    if k < args.len() {
        Ok((m, clone_value((&args[k]))))
    } else {
        match keyword_at(kwargs, &param.name) {
            Some(at) => {
                if at < kw_values.len() {
                    Ok((m, clone_value((&kw_values[at]))))
                } else {
                    Err(failure(m, EvalError::OutOfBounds))
                }
            },
            None => {
                match &param.default {
                    Some(default) => eval_expr(default, home, m, known, fuel),
                    None => Err(
                        failure(
                            m,
                            EvalError::ArityMismatch {
                                name: name.clone(),
                                expected: regular,
                                got: total(args.len(), kwargs.len()),
                            },
                        )
                    ),
                }
            },
        }
    }
}

#[verifier::opaque]
pub open spec fn sum_of(a: usize, b: usize) -> usize {
    if a <= 2147483647 && b <= 2147483647 {
        (a + b) as usize
    } else {
        a
    }
}

/// See [`sum_of`].
pub fn total(a: usize, b: usize) -> (r: usize)
    ensures
        r == sum_of(a, b),
{
    proof { reveal(sum_of); }
    if a <= 2147483647 && b <= 2147483647 {
        a + b
    } else {
        a
    }
}

/// A call of a function: arguments first, then a scope inside the one it was defined in.
pub open spec fn value_of_closure(
    expr: ExprView,
    id: usize,
    env: usize,
    m: EvaluatorView,
    known: Seq<KnownView>,
    fuel: u64,
) -> Result<(EvaluatorView, ValueView), FailureView>
    decreases fuel, 0nat, expr, 7nat, 0nat,
{
    match expr.kind {
        ExprKindView::Call { name, param_args, args, kwargs } => if id >= m.closures.len() {
            Err(failed_with(m, EvalErrorView::OutOfBounds))
        } else if fuel == 0 {
            Err(failed_with(m, EvalErrorView::Exhausted))
        } else {
            let closure = m.closures[id as int];
            match values_of_exprs(args, env, known, fuel, 0, m, Seq::empty()) {
                Ok(out) => {
                    let (m, arg_values) = out;
                    match values_of_kwargs(kwargs, env, known, fuel, 0, m, Seq::empty()) {
                        Ok(out) => {
                            let (m, kw_values) = out;
                            if !arguments_fit(closure, arg_values.len() as usize, kwargs) {
                                Err(
                                    failed_with(
                                        m,
                                        EvalErrorView::ArityMismatch {
                                            name,
                                            expected: regular_params(closure.params, 0, 0),
                                            got: sum_of(args.len() as usize, kwargs.len() as usize),
                                        },
                                    )
                                )
                            } else {
                                match values_of_params(
                                    param_args,
                                    closure.param_decls,
                                    env,
                                    known,
                                    fuel,
                                    0,
                                    m,
                                    Seq::empty(),
                                    0,
                                ) {
                                    Ok(out) => {
                                        let (m, value_params) = out;
                                        closure_run(
                                            closure,
                                            name,
                                            arg_values,
                                            kwargs,
                                            kw_values,
                                            value_params,
                                            m,
                                            known,
                                            (fuel - 1) as u64,
                                        )
                                    },
                                    Err(error) => Err(error),
                                }
                            }
                        },
                        Err(error) => Err(error),
                    }
                },
                Err(error) => Err(error),
            }
        },
        _ => Err(unsupported_in(m, "expression"@)),
    }
}

/// See [`value_of_closure`].
pub fn call_closure(
    expr: &Expr,
    id: usize,
    env: usize,
    m: Evaluator,
    known: &Vec<Known>,
    fuel: u64,
) -> (r: Result<(Evaluator, Value), Failure>)
    ensures
        (
            match r { Ok(v) => Ok((v.0@, v.1@)), Err(v) => Err(v@) }
        ) == value_of_closure(expr@, id, env, m@, known_list_view(known@), fuel),
    decreases fuel, 0nat, expr, 7nat, 0nat,
{
    proof { unfold_expr_kind(expr.kind); }
    match &expr.kind {
        ExprKind::Call { name, param_args, args, kwargs } => {
            if id >= m.closures.len() {
                Err(failure(m, EvalError::OutOfBounds))
            } else if fuel == 0 {
                Err(failure(m, EvalError::Exhausted))
            } else {
                let closure = clone_closure((&m.closures[id]));
                let (m, arg_values) = match eval_exprs(args, env, m, known, fuel) {
                    Ok(done) => done,
                    Err(error) => {
                        return Err(error);
                    },
                };
                let (m, kw_values) = match eval_kwargs(kwargs, env, m, known, fuel) {
                    Ok(done) => done,
                    Err(error) => {
                        return Err(error);
                    },
                };
                if !call_fits(&closure, arg_values.len(), kwargs) {
                    Err(
                        failure(
                            m,
                            EvalError::ArityMismatch {
                                name: name.clone(),
                                expected: regular_count(&closure.params),
                                got: total(args.len(), kwargs.len()),
                            },
                        )
                    )
                } else {
                    let (m, value_params) = match eval_value_params(
                        param_args,
                        &closure.param_decls,
                        env,
                        m,
                        known,
                        fuel,
                    ) {
                        Ok(done) => done,
                        Err(error) => {
                            return Err(error);
                        },
                    };
                    run_closure(
                        &closure,
                        name,
                        &arg_values,
                        kwargs,
                        &kw_values,
                        &value_params,
                        m,
                        known,
                        fuel - 1,
                    )
                }
            }
        },
        _ => {
            assert(!(expr.kind@ is Call));
            Err(not_supported(m, "expression"))
        },
    }
}

pub open spec fn closure_run(
    closure: ClosureView,
    name: Seq<char>,
    args: Seq<ValueView>,
    kwargs: Seq<KwArgView>,
    kw_values: Seq<ValueView>,
    value_params: Seq<(Seq<char>, ValueView)>,
    m: EvaluatorView,
    known: Seq<KnownView>,
    fuel: u64,
) -> Result<(EvaluatorView, ValueView), FailureView>
    decreases fuel, 4nat, closure, 0nat, 0nat,
{
    let (m, call_env) = scope_inside(m, closure.env);
    let m = all_defined(value_params, call_env, 0, m);
    match params_bound(
        closure.params,
        regular_params(closure.params, 0, 0),
        name,
        args,
        kwargs,
        kw_values,
        closure.env,
        call_env,
        known,
        fuel,
        0,
        m,
        0,
    ) {
        Ok(out) => {
            let m = out;
            match rest_bound(m, call_env, closure, args, known) {
                Ok(out) => {
                    let m = out;
                    match block_run(closure.body, call_env, known, fuel, 0, m) {
                        Ok(out) => {
                            let (m, flow) = out;
                            Ok((m, value_returned(flow)))
                        },
                        Err(error) => Err(error),
                    }
                },
                Err(error) => Err(error),
            }
        },
        Err(error) => Err(error),
    }
}

/// See [`closure_run`].
pub fn run_closure(
    closure: &Closure,
    name: &String,
    args: &Vec<Value>,
    kwargs: &Vec<KwArg>,
    kw_values: &Vec<Value>,
    value_params: &Vec<(String, Value)>,
    m: Evaluator,
    known: &Vec<Known>,
    fuel: u64,
) -> (r: Result<(Evaluator, Value), Failure>)
    ensures
        (match r { Ok(v) => Ok((v.0@, v.1@)), Err(v) => Err(v@) }) == closure_run(
            closure@,
            name@,
            value_list_view(args@),
            kw_arg_list_view(kwargs@),
            value_list_view(kw_values@),
            field_value_list_view(value_params@),
            m@,
            known_list_view(known@),
            fuel,
        ),
    decreases fuel, 4nat, closure, 0nat, 0nat,
{
    let (m, call_env) = child_scope(m, closure.env);
    let m = define_all(value_params, m, call_env);
    let m = match bind_params(
        &closure.params,
        regular_count(&closure.params),
        name,
        args,
        kwargs,
        kw_values,
        closure.env,
        call_env,
        m,
        known,
        fuel,
    ) {
        Ok(done) => done,
        Err(error) => {
            return Err(error);
        },
    };
    let m = match bind_variadic(m, call_env, closure, args, known) {
        Ok(done) => done,
        Err(error) => {
            return Err(error);
        },
    };
    let (m, flow) = match exec_block(&closure.body, call_env, m, known, fuel) {
        Ok(done) => done,
        Err(error) => {
            return Err(error);
        },
    };
    Ok((m, flow_value(&flow)))
}

/// What a method call works on: a place, or the machine without one.
pub open spec fn place_of_receiver(
    object: ExprView,
    env: usize,
    m: EvaluatorView,
    known: Seq<KnownView>,
    fuel: u64,
) -> Result<(EvaluatorView, Option<(Seq<char>, Seq<PathStepView>)>), FailureView>
    decreases fuel, 0nat, object, 9nat, 0nat,
{
    match place_decomposed(object, env, m, known, fuel) {
        Ok(found) => Ok((found.0, Some(found.1))),
        Err(failed) => if run_stopped(failed.error) {
            Err(failed)
        } else {
            Ok((failed.machine, None))
        },
    }
}

/// See [`place_of_receiver`].
pub fn method_place(
    object: &Expr,
    env: usize,
    m: Evaluator,
    known: &Vec<Known>,
    fuel: u64,
) -> (r: Result<(Evaluator, Option<(String, Vec<PathStep>)>), Failure>)
    ensures
        (
            match r {
                Ok(v) => Ok(
                    (
                        v.0@,
                        (
                            match v.1 {
                                Some(v1) => Some((v1.0@, path_step_list_view(v1.1@))),
                                None => None,
                            }
                        ),
                    )
                ),
                Err(v) => Err(v@),
            }
        ) == place_of_receiver(object@, env, m@, known_list_view(known@), fuel),
    decreases fuel, 0nat, object, 9nat, 0nat,
{
    match decompose_place(object, env, m, known, fuel) {
        Ok(found) => Ok((found.0, Some(found.1))),
        Err(failed) => {
            if stops_run(&failed.error) {
                Err(failed)
            } else {
                Ok((failed.machine, None))
            }
        },
    }
}

pub open spec fn value_of_method(
    expr: ExprView,
    env: usize,
    m: EvaluatorView,
    known: Seq<KnownView>,
    fuel: u64,
) -> Result<(EvaluatorView, ValueView), FailureView>
    decreases fuel, 0nat, expr, 8nat, 0nat,
{
    match expr.kind {
        ExprKindView::MethodCall { object, method, args, .. } => match values_of_exprs(
            args,
            env,
            known,
            fuel,
            0,
            m,
            Seq::empty(),
        ) {
            Ok(out) => {
                let (m, arg_values) = out;
                match place_of_receiver(*object, env, m, known, fuel) {
                    Ok(out) => {
                        let (m, place) = out;
                        match place {
                            Some(place) => if fuel == 0 {
                                Err(failed_with(m, EvalErrorView::Exhausted))
                            } else {
                                place_method(
                                    place.0,
                                    place.1,
                                    method,
                                    arg_values,
                                    env,
                                    m,
                                    known,
                                    (fuel - 1) as u64,
                                )
                            },
                            None => match value_of_expr(*object, env, m, known, fuel) {
                                Ok(out) => {
                                    let (m, receiver) = out;
                                    if fuel == 0 {
                                        Err(failed_with(m, EvalErrorView::Exhausted))
                                    } else {
                                        method_of_value(
                                            receiver,
                                            method,
                                            arg_values,
                                            m,
                                            known,
                                            (fuel - 1) as u64,
                                        )
                                    }
                                },
                                Err(error) => Err(error),
                            },
                        }
                    },
                    Err(error) => Err(error),
                }
            },
            Err(error) => Err(error),
        },
        _ => Err(unsupported_in(m, "expression"@)),
    }
}

/// See [`value_of_method`].
pub fn eval_method_call(
    expr: &Expr,
    env: usize,
    m: Evaluator,
    known: &Vec<Known>,
    fuel: u64,
) -> (r: Result<(Evaluator, Value), Failure>)
    ensures
        (
            match r { Ok(v) => Ok((v.0@, v.1@)), Err(v) => Err(v@) }
        ) == value_of_method(expr@, env, m@, known_list_view(known@), fuel),
    decreases fuel, 0nat, expr, 8nat, 0nat,
{
    proof { unfold_expr_kind(expr.kind); }
    match &expr.kind {
        ExprKind::MethodCall { object, method, args, .. } => {
            let (m, arg_values) = match eval_exprs(args, env, m, known, fuel) {
                Ok(done) => done,
                Err(error) => {
                    return Err(error);
                },
            };
            let (m, place) = match method_place(&**object, env, m, known, fuel) {
                Ok(done) => done,
                Err(error) => {
                    return Err(error);
                },
            };
            match place {
                Some(place) => {
                    if fuel == 0 {
                        Err(failure(m, EvalError::Exhausted))
                    } else {
                        method_on_place(
                            &place.0,
                            &place.1,
                            method,
                            &arg_values,
                            env,
                            m,
                            known,
                            fuel - 1,
                        )
                    }
                },
                None => {
                    let (m, receiver) = match eval_expr(&**object, env, m, known, fuel) {
                        Ok(done) => done,
                        Err(error) => {
                            return Err(error);
                        },
                    };
                    if fuel == 0 {
                        Err(failure(m, EvalError::Exhausted))
                    } else {
                        method_on_value(&receiver, method, &arg_values, m, known, fuel - 1)
                    }
                },
            }
        },
        _ => {
            assert(!(expr.kind@ is MethodCall));
            Err(not_supported(m, "expression"))
        },
    }
}

#[verifier::opaque]
pub open spec fn method_missing(
    m: EvaluatorView,
    method: Seq<char>,
    value: ValueView,
) -> FailureView {
    failed_by_type(m, "cannot call method '"@ + method + "' on "@ + type_shown(value))
}

/// See [`method_missing`].
pub fn no_method(m: Evaluator, method: &String, value: &Value) -> (r: Failure)
    ensures
        r@ == method_missing(m@, method@, value@),
{
    proof { reveal(method_missing); }
    type_failed(m, cat4("cannot call method '", method.as_str(), "' on ", value_type_name(value).as_str()))
}

/// A method on a place, which it can change.
pub open spec fn place_method(
    root: Seq<char>,
    path: Seq<PathStepView>,
    method: Seq<char>,
    args: Seq<ValueView>,
    env: usize,
    m: EvaluatorView,
    known: Seq<KnownView>,
    fuel: u64,
) -> Result<(EvaluatorView, ValueView), FailureView>
    decreases fuel, 6nat, args, 0nat, 0nat,
{
    let found = place_read(m.scopes, env, root, path);
    match value_held(m, found) {
        Ok(out) => {
            let (m, receiver) = out;
            match receiver {
                ValueView::List(items) => if changes_list(method) {
                    list_changed(root, path, items, method, args, env, m, known)
                } else {
                    value_held(m, list_answer(items, method, args, known))
                },
                ValueView::Struct { name, .. } => match struct_method(
                    name,
                    method,
                    receiver,
                    args,
                    m,
                    known,
                    fuel,
                ) {
                    Ok(out) => {
                        let (m, made) = out;
                        if made.mut_self {
                            match place_updated(m, env, root, path, None, made.receiver, known) {
                                Ok(out) => {
                                    let m = out;
                                    Ok((m, made.value))
                                },
                                Err(error) => Err(error),
                            }
                        } else {
                            Ok((m, made.value))
                        }
                    },
                    Err(error) => Err(error),
                },
                _ => Err(method_missing(m, method, receiver)),
            }
        },
        Err(error) => Err(error),
    }
}

/// See [`place_method`].
pub fn method_on_place(
    root: &String,
    path: &Vec<PathStep>,
    method: &String,
    args: &Vec<Value>,
    env: usize,
    m: Evaluator,
    known: &Vec<Known>,
    fuel: u64,
) -> (r: Result<(Evaluator, Value), Failure>)
    ensures
        (match r { Ok(v) => Ok((v.0@, v.1@)), Err(v) => Err(v@) }) == place_method(
            root@,
            path_step_list_view(path@),
            method@,
            value_list_view(args@),
            env,
            m@,
            known_list_view(known@),
            fuel,
        ),
    decreases fuel, 6nat, args@, 0nat, 0nat,
{
    let found = read_place(&m.scopes, env, root, path);
    let (m, receiver) = match hold_value(m, found) {
        Ok(done) => done,
        Err(error) => {
            return Err(error);
        },
    };
    proof { unfold_value(receiver); }
    match &receiver {
        Value::List(items) => {
            if is_list_mutator(method) {
                change_list(root, path, items, method, args, env, m, known)
            } else {
                hold_value(m, list_query(items, method, args, known))
            }
        },
        Value::Struct { name, .. } => {
            let (m, made) = match run_struct_method(name, method, &receiver, args, m, known, fuel) {
                Ok(done) => done,
                Err(error) => {
                    return Err(error);
                },
            };
            if made.mut_self {
                let m = match update_place(m, env, root, path, None, &made.receiver, known) {
                    Ok(done) => done,
                    Err(error) => {
                        return Err(error);
                    },
                };
                Ok((m, made.value))
            } else {
                Ok((m, made.value))
            }
        },
        _ => {
            assert(!(receiver@ is List));
            assert(!(receiver@ is Struct));
            Err(no_method(m, method, &receiver))
        },
    }
}

#[verifier::opaque]
pub open spec fn list_changed(
    root: Seq<char>,
    path: Seq<PathStepView>,
    items: Seq<ValueView>,
    method: Seq<char>,
    args: Seq<ValueView>,
    env: usize,
    m: EvaluatorView,
    known: Seq<KnownView>,
) -> Result<(EvaluatorView, ValueView), FailureView> {
    match list_method(items, method, args, known) {
        Ok(done) => match place_put(m, env, root, path, ValueView::List(done.0)) {
            Ok(out) => {
                let m = out;
                Ok((m, done.1))
            },
            Err(error) => Err(error),
        },
        Err(error) => Err(failed_with(m, error)),
    }
}

/// See [`list_changed`].
pub fn change_list(
    root: &String,
    path: &Vec<PathStep>,
    items: &Vec<Value>,
    method: &String,
    args: &Vec<Value>,
    env: usize,
    m: Evaluator,
    known: &Vec<Known>,
) -> (r: Result<(Evaluator, Value), Failure>)
    ensures
        (match r { Ok(v) => Ok((v.0@, v.1@)), Err(v) => Err(v@) }) == list_changed(
            root@,
            path_step_list_view(path@),
            value_list_view(items@),
            method@,
            value_list_view(args@),
            env,
            m@,
            known_list_view(known@),
        ),
{
    proof { reveal(list_changed); }
    match apply_list_method(items, method, args, known) {
        Ok(done) => {
            let value = Value::List(done.0);
            proof { unfold_value(value); }
            let m = match put_place(m, env, root, path, value) {
                Ok(done) => done,
                Err(error) => {
                    return Err(error);
                },
            };
            Ok((m, done.1))
        },
        Err(error) => Err(failure(m, error)),
    }
}

/// A method on a value that is at no place.
pub open spec fn method_of_value(
    receiver: ValueView,
    method: Seq<char>,
    args: Seq<ValueView>,
    m: EvaluatorView,
    known: Seq<KnownView>,
    fuel: u64,
) -> Result<(EvaluatorView, ValueView), FailureView>
    decreases fuel, 6nat, args, 0nat, 0nat,
{
    match receiver {
        ValueView::List(items) => value_held(m, list_answer(items, method, args, known)),
        ValueView::Struct { name, .. } => match struct_method(
            name,
            method,
            receiver,
            args,
            m,
            known,
            fuel,
        ) {
            Ok(out) => {
                let (m, made) = out;
                Ok((m, made.value))
            },
            Err(error) => Err(error),
        },
        _ => Err(method_missing(m, method, receiver)),
    }
}

/// See [`method_of_value`].
pub fn method_on_value(
    receiver: &Value,
    method: &String,
    args: &Vec<Value>,
    m: Evaluator,
    known: &Vec<Known>,
    fuel: u64,
) -> (r: Result<(Evaluator, Value), Failure>)
    ensures
        (match r { Ok(v) => Ok((v.0@, v.1@)), Err(v) => Err(v@) }) == method_of_value(
            receiver@,
            method@,
            value_list_view(args@),
            m@,
            known_list_view(known@),
            fuel,
        ),
    decreases fuel, 6nat, args@, 0nat, 0nat,
{
    proof { unfold_value(*receiver); }
    match receiver {
        Value::List(items) => hold_value(m, list_query(items, method, args, known)),
        Value::Struct { name, .. } => {
            let (m, made) = match run_struct_method(name, method, receiver, args, m, known, fuel) {
                Ok(done) => done,
                Err(error) => {
                    return Err(error);
                },
            };
            Ok((m, made.value))
        },
        _ => {
            assert(!(receiver@ is List));
            assert(!(receiver@ is Struct));
            Err(no_method(m, method, receiver))
        },
    }
}

#[verifier::opaque]
pub open spec fn method_number(
    structs: Seq<StructDefView>,
    name: Seq<char>,
    method: Seq<char>,
) -> Option<usize> {
    match struct_defined(structs, name, 0, None) {
        Some(def) => method_defined(def.methods, method, 0, None),
        None => None,
    }
}

/// See [`method_number`].
pub fn method_of(structs: &Vec<StructDef>, name: &String, method: &String) -> (r: Option<usize>)
    ensures
        r == method_number(struct_def_list_view(structs@), name@, method@),
{
    proof { reveal(method_number); }
    match find_def(structs, name) {
        Some(def) => find_method(&def.methods, method),
        None => None,
    }
}

pub open spec fn params_defined(
    params: Seq<FnParamView>,
    args: Seq<ValueView>,
    env: usize,
    known: Seq<KnownView>,
    i: nat,
    m: EvaluatorView,
    k: usize,
) -> Result<EvaluatorView, FailureView>
    decreases params, (params.len() - i) as nat,
{
    if i >= params.len() {
        Ok(m)
    } else {
        let param = params[i as int];
        if k >= args.len() {
            Ok(m)
        } else {
            match value_held(m, coerced(args[k as int], param.ty, known)) {
                Ok(out) => {
                    let (next, made) = out;
                    let m = name_defined(next, env, param.name, made);
                    let k = following_index(k);
                    params_defined(params, args, env, known, i + 1, m, k)
                },
                Err(error) => Err(error),
            }
        }
    }
}

/// See [`params_defined`].
pub fn define_params(
    params: &Vec<FnParam>,
    args: &Vec<Value>,
    start: Evaluator,
    env: usize,
    known: &Vec<Known>,
) -> (r: Result<Evaluator, Failure>)
    ensures
        (match r { Ok(v) => Ok(v@), Err(v) => Err(v@) }) == params_defined(
            fn_param_list_view(params@),
            value_list_view(args@),
            env,
            known_list_view(known@),
            0,
            start@,
            0,
        ),
    decreases params@, 0nat,
{
    let mut m: Evaluator = start;
    let mut k: usize = 0;
    let ghost goal = params_defined(
        fn_param_list_view(params@),
        value_list_view(args@),
        env,
        known_list_view(known@),
        0,
        start@,
        0,
    );
    let mut i: usize = 0;
    while i < params.len()
        invariant
            i <= params@.len(),
            fn_param_list_view(params@).len() == params@.len(),
            params_defined(
                fn_param_list_view(params@),
                value_list_view(args@),
                env,
                known_list_view(known@),
                i as nat,
                m@,
                k,
            ) == goal,
            goal == params_defined(
                fn_param_list_view(params@),
                value_list_view(args@),
                env,
                known_list_view(known@),
                0,
                start@,
                0,
            ),
        decreases params@.len() - i,
    {
        let param = &params[i];
        assert(fn_param_list_view(params@)[i as int] == param@);
        if k >= args.len() {
            return Ok(m);
        }
        let (next, made) = match hold_value(m, coerce(clone_value((&args[k])), &param.ty, known)) {
            Ok(done) => done,
            Err(error) => {
                return Err(error);
            },
        };
        m = define_name(next, env, &param.name, made);
        k = next_index(k);
        i = i + 1;
    }
    Ok(m)
}

/// Run a method of a struct with the receiver as `self`.
pub open spec fn struct_method(
    name: Seq<char>,
    method: Seq<char>,
    receiver: ValueView,
    args: Seq<ValueView>,
    m: EvaluatorView,
    known: Seq<KnownView>,
    fuel: u64,
) -> Result<(EvaluatorView, MethodResultView), FailureView>
    decreases fuel, 5nat, args, 0nat, 0nat,
{
    match method_number(m.structs, name, method) {
        Some(id) => if id < m.closures.len() {
            let closure = m.closures[id as int];
            if closure.params.len() != args.len() {
                Err(
                    failed_with(
                        m,
                        EvalErrorView::ArityMismatch {
                            name: method,
                            expected: closure.params.len() as usize,
                            got: args.len() as usize,
                        },
                    )
                )
            } else {
                let (m, call_env) = scope_inside(m, closure.env);
                let m = name_defined(m, call_env, "self"@, receiver);
                match params_defined(closure.params, args, call_env, known, 0, m, 0) {
                    Ok(out) => {
                        let m = out;
                        match block_run(closure.body, call_env, known, fuel, 0, m) {
                            Ok(out) => {
                                let (m, flow) = out;
                                Ok(method_finished(m, call_env, flow, closure.mut_self))
                            },
                            Err(error) => Err(error),
                        }
                    },
                    Err(error) => Err(error),
                }
            }
        } else {
            Err(failed_with(m, EvalErrorView::OutOfBounds))
        },
        None => Err(failed_by_type(m, "'"@ + name + "' has no method '"@ + method + "'"@)),
    }
}

/// See [`struct_method`].
pub fn run_struct_method(
    name: &String,
    method: &String,
    receiver: &Value,
    args: &Vec<Value>,
    m: Evaluator,
    known: &Vec<Known>,
    fuel: u64,
) -> (r: Result<(Evaluator, MethodResult), Failure>)
    ensures
        (match r { Ok(v) => Ok((v.0@, v.1@)), Err(v) => Err(v@) }) == struct_method(
            name@,
            method@,
            receiver@,
            value_list_view(args@),
            m@,
            known_list_view(known@),
            fuel,
        ),
    decreases fuel, 5nat, args@, 0nat, 0nat,
{
    match method_of(&m.structs, name, method) {
        Some(id) => {
            if id < m.closures.len() {
                let closure = clone_closure((&m.closures[id]));
                if closure.params.len() != args.len() {
                    Err(
                        failure(
                            m,
                            EvalError::ArityMismatch {
                                name: method.clone(),
                                expected: closure.params.len(),
                                got: args.len(),
                            },
                        )
                    )
                } else {
                    let (m, call_env) = child_scope(m, closure.env);
                    let m = define_name(m, call_env, &"self".to_owned(), clone_value(receiver));
                    let m = match define_params(&closure.params, args, m, call_env, known) {
                        Ok(done) => done,
                        Err(error) => {
                            return Err(error);
                        },
                    };
                    let (m, flow) = match exec_block(&closure.body, call_env, m, known, fuel) {
                        Ok(done) => done,
                        Err(error) => {
                            return Err(error);
                        },
                    };
                    Ok(finished_method(m, call_env, &flow, closure.mut_self))
                }
            } else {
                Err(failure(m, EvalError::OutOfBounds))
            }
        },
        None => Err(type_failed(m, cat5("'", name.as_str(), "' has no method '", method.as_str(), "'"))),
    }
}

#[verifier::opaque]
pub open spec fn method_finished(
    m: EvaluatorView,
    call_env: usize,
    flow: FlowView,
    mut_self: bool,
) -> (EvaluatorView, MethodResultView) {
    let receiver = match value_in_scope(m.scopes, call_env, "self"@) {
        Some(value) => value,
        None => ValueView::NoneValue,
    };
    (m, MethodResultView { value: value_returned(flow), receiver, mut_self })
}

/// See [`method_finished`].
pub fn finished_method(
    m: Evaluator,
    call_env: usize,
    flow: &Flow,
    mut_self: bool,
) -> (r: (Evaluator, MethodResult))
    ensures
        (r.0@, r.1@) == method_finished(m@, call_env, flow@, mut_self),
{
    proof { reveal(method_finished); }
    let receiver = match lookup(&m.scopes, call_env, &"self".to_owned()) {
        Some(value) => value,
        None => Value::NoneValue,
    };
    (m, MethodResult { value: flow_value(flow), receiver, mut_self })
}

/// Run statements until one of them leaves the block.
pub open spec fn block_run(
    body: Seq<StmtView>,
    env: usize,
    known: Seq<KnownView>,
    fuel: u64,
    i: nat,
    m: EvaluatorView,
) -> Result<(EvaluatorView, FlowView), FailureView>
    decreases fuel, 1nat, body, 0nat, (body.len() - i) as nat,
{
    if i >= body.len() {
        Ok((m, FlowView::Normal))
    } else {
        let stmt = body[i as int];
        match stmt_run(stmt, env, m, known, fuel) {
            Ok(out) => {
                let (next, flow) = out;
                let m = next;
                if !((flow matches FlowView::Normal)) {
                    Ok((m, flow))
                } else {
                    block_run(body, env, known, fuel, i + 1, m)
                }
            },
            Err(error) => Err(error),
        }
    }
}

/// See [`block_run`].
pub fn exec_block(
    body: &Vec<Stmt>,
    env: usize,
    start: Evaluator,
    known: &Vec<Known>,
    fuel: u64,
) -> (r: Result<(Evaluator, Flow), Failure>)
    ensures
        (match r { Ok(v) => Ok((v.0@, v.1@)), Err(v) => Err(v@) }) == block_run(
            stmt_list_view(body@),
            env,
            known_list_view(known@),
            fuel,
            0,
            start@,
        ),
    decreases fuel, 1nat, body@, 0nat, 0nat,
{
    let mut m: Evaluator = start;
    let ghost goal = block_run(
        stmt_list_view(body@),
        env,
        known_list_view(known@),
        fuel,
        0,
        start@,
    );
    let mut i: usize = 0;
    while i < body.len()
        invariant
            i <= body@.len(),
            stmt_list_view(body@).len() == body@.len(),
            block_run(
                stmt_list_view(body@),
                env,
                known_list_view(known@),
                fuel,
                i as nat,
                m@,
            ) == goal,
            goal == block_run(stmt_list_view(body@), env, known_list_view(known@), fuel, 0, start@),
        decreases body@.len() - i,
    {
        let stmt = &body[i];
        assert(stmt_list_view(body@)[i as int] == stmt@);
        let (next, flow) = match exec_stmt(stmt, env, m, known, fuel) {
            Ok(done) => done,
            Err(error) => {
                return Err(error);
            },
        };
        m = next;
        if !matches!(flow, Flow::Normal) {
            return Ok((m, flow));
        }
        i = i + 1;
    }
    Ok((m, Flow::Normal))
}

pub open spec fn block_run_inside(
    body: Seq<StmtView>,
    env: usize,
    m: EvaluatorView,
    known: Seq<KnownView>,
    fuel: u64,
) -> Result<(EvaluatorView, FlowView), FailureView>
    decreases fuel, 1nat, body, 1nat, 0nat,
{
    let (m, inner) = scope_inside(m, env);
    block_run(body, inner, known, fuel, 0, m)
}

/// See [`block_run_inside`].
pub fn exec_inside(
    body: &Vec<Stmt>,
    env: usize,
    m: Evaluator,
    known: &Vec<Known>,
    fuel: u64,
) -> (r: Result<(Evaluator, Flow), Failure>)
    ensures
        (match r { Ok(v) => Ok((v.0@, v.1@)), Err(v) => Err(v@) }) == block_run_inside(
            stmt_list_view(body@),
            env,
            m@,
            known_list_view(known@),
            fuel,
        ),
    decreases fuel, 1nat, body@, 1nat, 0nat,
{
    let (m, inner) = child_scope(m, env);
    exec_block(body, inner, m, known, fuel)
}

pub open spec fn opt_block_run(
    body: Option<Seq<StmtView>>,
    env: usize,
    m: EvaluatorView,
    known: Seq<KnownView>,
    fuel: u64,
) -> Result<(EvaluatorView, FlowView), FailureView>
    decreases fuel, 1nat, body, 2nat, 0nat,
{
    match body {
        Some(body) => block_run_inside(body, env, m, known, fuel),
        None => Ok((m, FlowView::Normal)),
    }
}

/// See [`opt_block_run`].
pub fn exec_opt(
    body: &Option<Vec<Stmt>>,
    env: usize,
    m: Evaluator,
    known: &Vec<Known>,
    fuel: u64,
) -> (r: Result<(Evaluator, Flow), Failure>)
    ensures
        (match r { Ok(v) => Ok((v.0@, v.1@)), Err(v) => Err(v@) }) == opt_block_run(
            (match body { Some(v) => Some(stmt_list_view(v@)), None => None }),
            env,
            m@,
            known_list_view(known@),
            fuel,
        ),
    decreases fuel, 1nat, body, 2nat, 0nat,
{
    match body {
        Some(body) => exec_inside(body, env, m, known, fuel),
        None => Ok((m, Flow::Normal)),
    }
}

/// Run one statement.
pub open spec fn stmt_run(
    stmt: StmtView,
    env: usize,
    m: EvaluatorView,
    known: Seq<KnownView>,
    fuel: u64,
) -> Result<(EvaluatorView, FlowView), FailureView>
    decreases fuel, 1nat, stmt, 9nat, 0nat,
{
    match stmt.kind {
        StmtKindView::VarDecl { name, ty, value } => var_run(name, ty, value, env, m, known, fuel),
        StmtKindView::Assign { name, value } => assign_run(name, value, env, m, known, fuel),
        StmtKindView::SetPlace { .. } => write_run(stmt, env, m, known, fuel),
        StmtKindView::AugAssign { .. } => write_run(stmt, env, m, known, fuel),
        StmtKindView::Comptime { name, value } => match value_of_expr(value, env, m, known, fuel) {
            Ok(out) => {
                let (m, value) = out;
                Ok((name_defined(m, env, name, value), FlowView::Normal))
            },
            Err(error) => Err(error),
        },
        StmtKindView::Return(value) => return_run(value, env, m, known, fuel),
        StmtKindView::Pass => Ok((m, FlowView::Normal)),
        StmtKindView::Break => Ok((m, FlowView::Break)),
        StmtKindView::Continue => Ok((m, FlowView::Continue)),
        StmtKindView::Raise(value) => match value_of_expr(value, env, m, known, fuel) {
            Ok(out) => {
                let (m, value) = out;
                Err(failed_with(m, message_raised(value)))
            },
            Err(error) => Err(error),
        },
        StmtKindView::Expr(value) => match value_of_expr(value, env, m, known, fuel) {
            Ok(out) => {
                let (m, _) = out;
                Ok((m, FlowView::Normal))
            },
            Err(error) => Err(error),
        },
        StmtKindView::Trait { .. } => Ok((m, FlowView::Normal)),
        StmtKindView::Import { .. } => Ok((m, FlowView::Normal)),
        StmtKindView::FromImport { .. } => Ok((m, FlowView::Normal)),
        StmtKindView::Unpack { .. } => Err(unsupported_in(m, "tuple unpacking"@)),
        StmtKindView::With { .. } => Err(unsupported_in(m, "with statement"@)),
        StmtKindView::ComptimeIf { .. } => Err(unsupported_in(m, "comptime if"@)),
        StmtKindView::ComptimeFor { .. } => Err(unsupported_in(m, "comptime for"@)),
        StmtKindView::RefDecl { .. } => Err(unsupported_in(m, "reference binding"@)),
        _ => compound_run(stmt, env, m, known, fuel),
    }
}

/// See [`stmt_run`].
pub fn exec_stmt(
    stmt: &Stmt,
    env: usize,
    m: Evaluator,
    known: &Vec<Known>,
    fuel: u64,
) -> (r: Result<(Evaluator, Flow), Failure>)
    ensures
        (
            match r { Ok(v) => Ok((v.0@, v.1@)), Err(v) => Err(v@) }
        ) == stmt_run(stmt@, env, m@, known_list_view(known@), fuel),
    decreases fuel, 1nat, stmt, 9nat, 0nat,
{
    proof { unfold_stmt_kind(stmt.kind); }
    match &stmt.kind {
        StmtKind::VarDecl { name, ty, value } => exec_var(name, ty, value, env, m, known, fuel),
        StmtKind::Assign { name, value } => exec_assign(name, value, env, m, known, fuel),
        StmtKind::SetPlace { .. } => exec_write(stmt, env, m, known, fuel),
        StmtKind::AugAssign { .. } => exec_write(stmt, env, m, known, fuel),
        StmtKind::Comptime { name, value } => {
            let (m, value) = match eval_expr(value, env, m, known, fuel) {
                Ok(done) => done,
                Err(error) => {
                    return Err(error);
                },
            };
            Ok((define_name(m, env, name, value), Flow::Normal))
        },
        StmtKind::Return(value) => exec_return(value, env, m, known, fuel),
        StmtKind::Pass => Ok((m, Flow::Normal)),
        StmtKind::Break => Ok((m, Flow::Break)),
        StmtKind::Continue => Ok((m, Flow::Continue)),
        StmtKind::Raise(value) => {
            let (m, value) = match eval_expr(value, env, m, known, fuel) {
                Ok(done) => done,
                Err(error) => {
                    return Err(error);
                },
            };
            Err(failure(m, raised_message(&value)))
        },
        StmtKind::Expr(value) => {
            let (m, _) = match eval_expr(value, env, m, known, fuel) {
                Ok(done) => done,
                Err(error) => {
                    return Err(error);
                },
            };
            Ok((m, Flow::Normal))
        },
        StmtKind::Trait { .. } => Ok((m, Flow::Normal)),
        StmtKind::Import { .. } => Ok((m, Flow::Normal)),
        StmtKind::FromImport { .. } => Ok((m, Flow::Normal)),
        StmtKind::Unpack { .. } => Err(not_supported(m, "tuple unpacking")),
        StmtKind::With { .. } => Err(not_supported(m, "with statement")),
        StmtKind::ComptimeIf { .. } => Err(not_supported(m, "comptime if")),
        StmtKind::ComptimeFor { .. } => Err(not_supported(m, "comptime for")),
        StmtKind::RefDecl { .. } => Err(not_supported(m, "reference binding")),
        _ => {
            assert(!(stmt.kind@ is VarDecl));
            assert(!(stmt.kind@ is Assign));
            assert(!(stmt.kind@ is SetPlace));
            assert(!(stmt.kind@ is AugAssign));
            assert(!(stmt.kind@ is Comptime));
            assert(!(stmt.kind@ is Return));
            assert(!(stmt.kind@ is Pass));
            assert(!(stmt.kind@ is Break));
            assert(!(stmt.kind@ is Continue));
            assert(!(stmt.kind@ is Raise));
            assert(!(stmt.kind@ is Expr));
            assert(!(stmt.kind@ is Trait));
            assert(!(stmt.kind@ is Import));
            assert(!(stmt.kind@ is FromImport));
            assert(!(stmt.kind@ is Unpack));
            assert(!(stmt.kind@ is With));
            assert(!(stmt.kind@ is ComptimeIf));
            assert(!(stmt.kind@ is ComptimeFor));
            assert(!(stmt.kind@ is RefDecl));
            exec_compound(stmt, env, m, known, fuel)
        },
    }
}

pub open spec fn var_run(
    name: Seq<char>,
    ty: Option<TypeView>,
    value: ExprView,
    env: usize,
    m: EvaluatorView,
    known: Seq<KnownView>,
    fuel: u64,
) -> Result<(EvaluatorView, FlowView), FailureView>
    decreases fuel, 0nat, value, 11nat, 0nat,
{
    match value_of_expr(value, env, m, known, fuel) {
        Ok(out) => {
            let (m, value) = out;
            match match ty {
                Some(ty) => value_held(m, coerced(value, ty, known)),
                None => Ok((m, value)),
            } {
                Ok(out) => {
                    let (m, made) = out;
                    Ok((name_defined(m, env, name, made), FlowView::Normal))
                },
                Err(error) => Err(error),
            }
        },
        Err(error) => Err(error),
    }
}

/// See [`var_run`].
pub fn exec_var(
    name: &String,
    ty: &Option<Type>,
    value: &Expr,
    env: usize,
    m: Evaluator,
    known: &Vec<Known>,
    fuel: u64,
) -> (r: Result<(Evaluator, Flow), Failure>)
    ensures
        (match r { Ok(v) => Ok((v.0@, v.1@)), Err(v) => Err(v@) }) == var_run(
            name@,
            opt_view(*ty),
            value@,
            env,
            m@,
            known_list_view(known@),
            fuel,
        ),
    decreases fuel, 0nat, value, 11nat, 0nat,
{
    let (m, value) = match eval_expr(value, env, m, known, fuel) {
        Ok(done) => done,
        Err(error) => {
            return Err(error);
        },
    };
    let (m, made) = match match ty {
        Some(ty) => hold_value(m, coerce(value, ty, known)),
        None => Ok((m, value)),
    } {
        Ok(done) => done,
        Err(error) => {
            return Err(error);
        },
    };
    Ok((define_name(m, env, name, made), Flow::Normal))
}

pub open spec fn assign_run(
    name: Seq<char>,
    value: ExprView,
    env: usize,
    m: EvaluatorView,
    known: Seq<KnownView>,
    fuel: u64,
) -> Result<(EvaluatorView, FlowView), FailureView>
    decreases fuel, 0nat, value, 11nat, 0nat,
{
    match value_of_expr(value, env, m, known, fuel) {
        Ok(out) => {
            let (m, value) = out;
            if value_is_closure(value) {
                Err(failed_with(m, EvalErrorView::ClosureEscape))
            } else {
                match name_assigned(m, env, name, value, known) {
                    Ok(out) => {
                        let m = out;
                        Ok((m, FlowView::Normal))
                    },
                    Err(error) => Err(error),
                }
            }
        },
        Err(error) => Err(error),
    }
}

/// See [`assign_run`].
pub fn exec_assign(
    name: &String,
    value: &Expr,
    env: usize,
    m: Evaluator,
    known: &Vec<Known>,
    fuel: u64,
) -> (r: Result<(Evaluator, Flow), Failure>)
    ensures
        (
            match r { Ok(v) => Ok((v.0@, v.1@)), Err(v) => Err(v@) }
        ) == assign_run(name@, value@, env, m@, known_list_view(known@), fuel),
    decreases fuel, 0nat, value, 11nat, 0nat,
{
    let (m, value) = match eval_expr(value, env, m, known, fuel) {
        Ok(done) => done,
        Err(error) => {
            return Err(error);
        },
    };
    if is_closure(&value) {
        Err(failure(m, EvalError::ClosureEscape))
    } else {
        let m = match assign(m, env, name, value, known) {
            Ok(done) => done,
            Err(error) => {
                return Err(error);
            },
        };
        Ok((m, Flow::Normal))
    }
}

/// Write a place: with a value, or with what an operator makes of the place and a value.
pub open spec fn write_run(
    stmt: StmtView,
    env: usize,
    m: EvaluatorView,
    known: Seq<KnownView>,
    fuel: u64,
) -> Result<(EvaluatorView, FlowView), FailureView>
    decreases fuel, 1nat, stmt, 8nat, 0nat,
{
    match stmt.kind {
        StmtKindView::SetPlace { place, value } => match place_decomposed(
            place,
            env,
            m,
            known,
            fuel,
        ) {
            Ok(out) => {
                let (m, found) = out;
                match value_of_expr(value, env, m, known, fuel) {
                    Ok(out) => {
                        let (m, value) = out;
                        match place_updated(m, env, found.0, found.1, None, value, known) {
                            Ok(out) => {
                                let m = out;
                                Ok((m, FlowView::Normal))
                            },
                            Err(error) => Err(error),
                        }
                    },
                    Err(error) => Err(error),
                }
            },
            Err(error) => Err(error),
        },
        StmtKindView::AugAssign { place, op, value } => match place_decomposed(
            place,
            env,
            m,
            known,
            fuel,
        ) {
            Ok(out) => {
                let (m, found) = out;
                match value_of_expr(value, env, m, known, fuel) {
                    Ok(out) => {
                        let (m, value) = out;
                        match place_updated(m, env, found.0, found.1, Some(op), value, known) {
                            Ok(out) => {
                                let m = out;
                                Ok((m, FlowView::Normal))
                            },
                            Err(error) => Err(error),
                        }
                    },
                    Err(error) => Err(error),
                }
            },
            Err(error) => Err(error),
        },
        _ => Err(unsupported_in(m, "statement"@)),
    }
}

/// See [`write_run`].
pub fn exec_write(
    stmt: &Stmt,
    env: usize,
    m: Evaluator,
    known: &Vec<Known>,
    fuel: u64,
) -> (r: Result<(Evaluator, Flow), Failure>)
    ensures
        (
            match r { Ok(v) => Ok((v.0@, v.1@)), Err(v) => Err(v@) }
        ) == write_run(stmt@, env, m@, known_list_view(known@), fuel),
    decreases fuel, 1nat, stmt, 8nat, 0nat,
{
    proof { unfold_stmt_kind(stmt.kind); }
    match &stmt.kind {
        StmtKind::SetPlace { place, value } => {
            let (m, found) = match decompose_place(place, env, m, known, fuel) {
                Ok(done) => done,
                Err(error) => {
                    return Err(error);
                },
            };
            let (m, value) = match eval_expr(value, env, m, known, fuel) {
                Ok(done) => done,
                Err(error) => {
                    return Err(error);
                },
            };
            let m = match update_place(m, env, &found.0, &found.1, None, &value, known) {
                Ok(done) => done,
                Err(error) => {
                    return Err(error);
                },
            };
            Ok((m, Flow::Normal))
        },
        StmtKind::AugAssign { place, op, value } => {
            let (m, found) = match decompose_place(place, env, m, known, fuel) {
                Ok(done) => done,
                Err(error) => {
                    return Err(error);
                },
            };
            let (m, value) = match eval_expr(value, env, m, known, fuel) {
                Ok(done) => done,
                Err(error) => {
                    return Err(error);
                },
            };
            let m = match update_place(m, env, &found.0, &found.1, Some(*op), &value, known) {
                Ok(done) => done,
                Err(error) => {
                    return Err(error);
                },
            };
            Ok((m, Flow::Normal))
        },
        _ => {
            assert(!(stmt.kind@ is SetPlace));
            assert(!(stmt.kind@ is AugAssign));
            Err(not_supported(m, "statement"))
        },
    }
}

pub open spec fn return_run(
    value: Option<ExprView>,
    env: usize,
    m: EvaluatorView,
    known: Seq<KnownView>,
    fuel: u64,
) -> Result<(EvaluatorView, FlowView), FailureView>
    decreases fuel, 0nat, value, 11nat, 0nat,
{
    match value {
        Some(expr) => match value_of_expr(expr, env, m, known, fuel) {
            Ok(out) => {
                let (m, value) = out;
                if value_is_closure(value) {
                    Err(failed_with(m, EvalErrorView::ClosureEscape))
                } else {
                    Ok((m, FlowView::Return(value)))
                }
            },
            Err(error) => Err(error),
        },
        None => Ok((m, FlowView::Return(ValueView::NoneValue))),
    }
}

/// See [`return_run`].
pub fn exec_return(
    value: &Option<Expr>,
    env: usize,
    m: Evaluator,
    known: &Vec<Known>,
    fuel: u64,
) -> (r: Result<(Evaluator, Flow), Failure>)
    ensures
        (
            match r { Ok(v) => Ok((v.0@, v.1@)), Err(v) => Err(v@) }
        ) == return_run(opt_view(*value), env, m@, known_list_view(known@), fuel),
    decreases fuel, 0nat, value, 11nat, 0nat,
{
    match value {
        Some(expr) => {
            let (m, value) = match eval_expr(expr, env, m, known, fuel) {
                Ok(done) => done,
                Err(error) => {
                    return Err(error);
                },
            };
            if is_closure(&value) {
                Err(failure(m, EvalError::ClosureEscape))
            } else {
                Ok((m, Flow::Return(value)))
            }
        },
        None => Ok((m, Flow::Return(Value::NoneValue))),
    }
}

/// Run a statement that has blocks.
pub open spec fn compound_run(
    stmt: StmtView,
    env: usize,
    m: EvaluatorView,
    known: Seq<KnownView>,
    fuel: u64,
) -> Result<(EvaluatorView, FlowView), FailureView>
    decreases fuel, 1nat, stmt, 8nat, 0nat,
{
    match stmt.kind {
        StmtKindView::If { branches, orelse } => match branches_run(
            branches,
            env,
            known,
            fuel,
            0,
            m,
        ) {
            Ok(out) => {
                let (m, chosen) = out;
                match chosen {
                    Some(flow) => Ok((m, flow)),
                    None => opt_block_run(orelse, env, m, known, fuel),
                }
            },
            Err(error) => Err(error),
        },
        StmtKindView::While { cond, body, orelse } => if orelse is Some {
            Err(unsupported_in(m, "loop else"@))
        } else {
            while_run(cond, body, env, m, known, fuel)
        },
        StmtKindView::For { var, iter, body, orelse, .. } => if orelse is Some {
            Err(unsupported_in(m, "loop else"@))
        } else {
            match value_of_expr(iter, env, m, known, fuel) {
                Ok(out) => {
                    let (m, over) = out;
                    match values_held(m, values_of_loop(over, fuel)) {
                        Ok(out) => {
                            let (m, items) = out;
                            items_run(items, var, body, env, known, fuel, 0, m)
                        },
                        Err(error) => Err(error),
                    }
                },
                Err(error) => Err(error),
            }
        },
        StmtKindView::Try { .. } => try_run(stmt, env, m, known, fuel),
        StmtKindView::Def { name, type_params, params, body, .. } => {
            let closure = ClosureView {
                params,
                param_decls: classified(type_params, 0, Seq::empty()),
                body,
                env,
                mut_self: false,
            };
            let (m, id) = closure_added(m, closure);
            Ok((name_defined(m, env, name, ValueView::Closure(id)), FlowView::Normal))
        },
        StmtKindView::Struct { name, type_params, fields, methods, fieldwise_init, .. } => Ok(
            (
                struct_registered(m, name, type_params, fields, methods, fieldwise_init, env),
                FlowView::Normal,
            )
        ),
        _ => Err(unsupported_in(m, "statement"@)),
    }
}

/// See [`compound_run`].
pub fn exec_compound(
    stmt: &Stmt,
    env: usize,
    m: Evaluator,
    known: &Vec<Known>,
    fuel: u64,
) -> (r: Result<(Evaluator, Flow), Failure>)
    ensures
        (
            match r { Ok(v) => Ok((v.0@, v.1@)), Err(v) => Err(v@) }
        ) == compound_run(stmt@, env, m@, known_list_view(known@), fuel),
    decreases fuel, 1nat, stmt, 8nat, 0nat,
{
    proof { unfold_stmt_kind(stmt.kind); }
    match &stmt.kind {
        StmtKind::If { branches, orelse } => {
            let (m, chosen) = match exec_branches(branches, env, m, known, fuel) {
                Ok(done) => done,
                Err(error) => {
                    return Err(error);
                },
            };
            match chosen {
                Some(flow) => Ok((m, flow)),
                None => exec_opt(orelse, env, m, known, fuel),
            }
        },
        StmtKind::While { cond, body, orelse } => {
            if orelse.is_some() {
                Err(not_supported(m, "loop else"))
            } else {
                exec_while(cond, body, env, m, known, fuel)
            }
        },
        StmtKind::For { var, iter, body, orelse, .. } => {
            if orelse.is_some() {
                Err(not_supported(m, "loop else"))
            } else {
                let (m, over) = match eval_expr(iter, env, m, known, fuel) {
                    Ok(done) => done,
                    Err(error) => {
                        return Err(error);
                    },
                };
                let (m, items) = match hold_values(m, loop_values(&over, fuel)) {
                    Ok(done) => done,
                    Err(error) => {
                        return Err(error);
                    },
                };
                exec_items(&items, var, body, env, m, known, fuel)
            }
        },
        StmtKind::Try { .. } => exec_try(stmt, env, m, known, fuel),
        StmtKind::Def { name, type_params, params, body, .. } => {
            let closure2 = Closure {
                params: clone_fn_param_list(params),
                param_decls: classify_param_decls(type_params),
                body: clone_stmt_list(body),
                env,
                mut_self: false,
            };
            proof { unfold_closure(closure2); }
            let closure = closure2;
            let (m, id) = with_closure(m, closure);
            let value = Value::Closure(id);
            proof { unfold_value(value); }
            Ok((define_name(m, env, name, value), Flow::Normal))
        },
        StmtKind::Struct { name, type_params, fields, methods, fieldwise_init, .. } => Ok(
            (
                register_struct(m, name, type_params, fields, methods, *fieldwise_init, env),
                Flow::Normal,
            )
        ),
        _ => {
            assert(!(stmt.kind@ is If));
            assert(!(stmt.kind@ is While));
            assert(!(stmt.kind@ is For));
            assert(!(stmt.kind@ is Try));
            assert(!(stmt.kind@ is Def));
            assert(!(stmt.kind@ is Struct));
            Err(not_supported(m, "statement"))
        },
    }
}

/// Run the first branch whose condition holds, if there is one.
pub open spec fn branches_run(
    branches: Seq<(ExprView, Seq<StmtView>)>,
    env: usize,
    known: Seq<KnownView>,
    fuel: u64,
    i: nat,
    m: EvaluatorView,
) -> Result<(EvaluatorView, Option<FlowView>), FailureView>
    decreases fuel, 1nat, branches, 0nat, (branches.len() - i) as nat,
{
    if i >= branches.len() {
        Ok((m, None))
    } else {
        let branch = branches[i as int];
        match truth_of_expr(branch.0, env, m, known, fuel) {
            Ok(out) => {
                let (next, chosen) = out;
                let m = next;
                if chosen {
                    branch_run(branch.1, env, m, known, fuel)
                } else {
                    branches_run(branches, env, known, fuel, i + 1, m)
                }
            },
            Err(error) => Err(error),
        }
    }
}

/// See [`branches_run`].
pub fn exec_branches(
    branches: &Vec<(Expr, Vec<Stmt>)>,
    env: usize,
    start: Evaluator,
    known: &Vec<Known>,
    fuel: u64,
) -> (r: Result<(Evaluator, Option<Flow>), Failure>)
    ensures
        (match r { Ok(v) => Ok((v.0@, opt_view(v.1))), Err(v) => Err(v@) }) == branches_run(
            branch_list_view(branches@),
            env,
            known_list_view(known@),
            fuel,
            0,
            start@,
        ),
    decreases fuel, 1nat, branches@, 0nat, 0nat,
{
    let mut m: Evaluator = start;
    let ghost goal = branches_run(
        branch_list_view(branches@),
        env,
        known_list_view(known@),
        fuel,
        0,
        start@,
    );
    let mut i: usize = 0;
    while i < branches.len()
        invariant
            i <= branches@.len(),
            branch_list_view(branches@).len() == branches@.len(),
            branches_run(
                branch_list_view(branches@),
                env,
                known_list_view(known@),
                fuel,
                i as nat,
                m@,
            ) == goal,
            goal == branches_run(
                branch_list_view(branches@),
                env,
                known_list_view(known@),
                fuel,
                0,
                start@,
            ),
        decreases branches@.len() - i,
    {
        let branch = &branches[i];
        assert(branch_list_view(branches@)[i as int].0 =~= branch.0@);
        assert(branch_list_view(branches@)[i as int].1 =~= stmt_list_view(branch.1@));
        let (next, chosen) = match eval_bool(&branch.0, env, m, known, fuel) {
            Ok(done) => done,
            Err(error) => {
                return Err(error);
            },
        };
        m = next;
        if chosen {
            return taken_branch(&branch.1, env, m, known, fuel);
        }
        i = i + 1;
    }
    Ok((m, None))
}

pub open spec fn branch_run(
    body: Seq<StmtView>,
    env: usize,
    m: EvaluatorView,
    known: Seq<KnownView>,
    fuel: u64,
) -> Result<(EvaluatorView, Option<FlowView>), FailureView>
    decreases fuel, 1nat, body, 2nat, 0nat,
{
    match block_run_inside(body, env, m, known, fuel) {
        Ok(out) => {
            let (m, flow) = out;
            Ok((m, Some(flow)))
        },
        Err(error) => Err(error),
    }
}

/// See [`branch_run`].
pub fn taken_branch(
    body: &Vec<Stmt>,
    env: usize,
    m: Evaluator,
    known: &Vec<Known>,
    fuel: u64,
) -> (r: Result<(Evaluator, Option<Flow>), Failure>)
    ensures
        (
            match r { Ok(v) => Ok((v.0@, opt_view(v.1))), Err(v) => Err(v@) }
        ) == branch_run(stmt_list_view(body@), env, m@, known_list_view(known@), fuel),
    decreases fuel, 1nat, body@, 2nat, 0nat,
{
    let (m, flow) = match exec_inside(body, env, m, known, fuel) {
        Ok(done) => done,
        Err(error) => {
            return Err(error);
        },
    };
    Ok((m, Some(flow)))
}

pub open spec fn while_run(
    cond: ExprView,
    body: Seq<StmtView>,
    env: usize,
    m: EvaluatorView,
    known: Seq<KnownView>,
    fuel: u64,
) -> Result<(EvaluatorView, FlowView), FailureView>
    decreases fuel, 1nat, body, 3nat, 0nat,
{
    match truth_of_expr(cond, env, m, known, fuel) {
        Ok(out) => {
            let (m, goes_on) = out;
            if !goes_on {
                Ok((m, FlowView::Normal))
            } else if fuel == 0 {
                Err(failed_with(m, EvalErrorView::Exhausted))
            } else {
                match block_run_inside(body, env, m, known, fuel) {
                    Ok(out) => {
                        let (m, flow) = out;
                        if ends_loop(flow) {
                            Ok((m, flow_after_loop(flow)))
                        } else {
                            while_run(cond, body, env, m, known, (fuel - 1) as u64)
                        }
                    },
                    Err(error) => Err(error),
                }
            }
        },
        Err(error) => Err(error),
    }
}

/// See [`while_run`].
pub fn exec_while(
    cond: &Expr,
    body: &Vec<Stmt>,
    env: usize,
    m: Evaluator,
    known: &Vec<Known>,
    fuel: u64,
) -> (r: Result<(Evaluator, Flow), Failure>)
    ensures
        (match r { Ok(v) => Ok((v.0@, v.1@)), Err(v) => Err(v@) }) == while_run(
            cond@,
            stmt_list_view(body@),
            env,
            m@,
            known_list_view(known@),
            fuel,
        ),
    decreases fuel, 1nat, body@, 3nat, 0nat,
{
    let ghost start = m@;
    let mut at = m;
    let mut left: u64 = fuel;
    loop
        invariant
            left <= fuel,
            start == m@,
            while_run(
                cond@,
                stmt_list_view(body@),
                env,
                at@,
                known_list_view(known@),
                left,
            ) == while_run(
                cond@,
                stmt_list_view(body@),
                env,
                start,
                known_list_view(known@),
                fuel,
            ),
        decreases left,
    {
        let (next, goes_on) = match eval_bool(cond, env, at, known, left) {
            Ok(done) => done,
            Err(error) => {
                return Err(error);
            },
        };
        if !goes_on {
            return Ok((next, Flow::Normal));
        }
        if left == 0 {
            return Err(failure(next, EvalError::Exhausted));
        }
        let (after, flow) = match exec_inside(body, env, next, known, left) {
            Ok(done) => done,
            Err(error) => {
                return Err(error);
            },
        };
        if loop_ends(&flow) {
            return Ok((after, after_loop(flow)));
        }
        at = after;
        left = left - 1;
    }
}

/// Run a body once for each value, in a scope of its own.
pub open spec fn items_run(
    items: Seq<ValueView>,
    var: Seq<char>,
    body: Seq<StmtView>,
    env: usize,
    known: Seq<KnownView>,
    fuel: u64,
    i: nat,
    m: EvaluatorView,
) -> Result<(EvaluatorView, FlowView), FailureView>
    decreases fuel, 1nat, body, 3nat, (items.len() - i) as nat,
{
    if i >= items.len() {
        Ok((m, FlowView::Normal))
    } else {
        let item = items[i as int];
        match item_run(item, var, body, env, m, known, fuel) {
            Ok(out) => {
                let (next, flow) = out;
                let m = next;
                if ends_loop(flow) {
                    Ok((m, flow_after_loop(flow)))
                } else {
                    items_run(items, var, body, env, known, fuel, i + 1, m)
                }
            },
            Err(error) => Err(error),
        }
    }
}

/// See [`items_run`].
pub fn exec_items(
    items: &Vec<Value>,
    var: &String,
    body: &Vec<Stmt>,
    env: usize,
    start: Evaluator,
    known: &Vec<Known>,
    fuel: u64,
) -> (r: Result<(Evaluator, Flow), Failure>)
    ensures
        (match r { Ok(v) => Ok((v.0@, v.1@)), Err(v) => Err(v@) }) == items_run(
            value_list_view(items@),
            var@,
            stmt_list_view(body@),
            env,
            known_list_view(known@),
            fuel,
            0,
            start@,
        ),
    decreases fuel, 1nat, body@, 3nat, 0nat,
{
    let mut m: Evaluator = start;
    let ghost goal = items_run(
        value_list_view(items@),
        var@,
        stmt_list_view(body@),
        env,
        known_list_view(known@),
        fuel,
        0,
        start@,
    );
    let mut i: usize = 0;
    while i < items.len()
        invariant
            i <= items@.len(),
            value_list_view(items@).len() == items@.len(),
            items_run(
                value_list_view(items@),
                var@,
                stmt_list_view(body@),
                env,
                known_list_view(known@),
                fuel,
                i as nat,
                m@,
            ) == goal,
            goal == items_run(
                value_list_view(items@),
                var@,
                stmt_list_view(body@),
                env,
                known_list_view(known@),
                fuel,
                0,
                start@,
            ),
        decreases items@.len() - i,
    {
        let item = &items[i];
        assert(value_list_view(items@)[i as int] == item@);
        let (next, flow) = match exec_item(item, var, body, env, m, known, fuel) {
            Ok(done) => done,
            Err(error) => {
                return Err(error);
            },
        };
        m = next;
        if loop_ends(&flow) {
            return Ok((m, after_loop(flow)));
        }
        i = i + 1;
    }
    Ok((m, Flow::Normal))
}

pub open spec fn item_run(
    item: ValueView,
    var: Seq<char>,
    body: Seq<StmtView>,
    env: usize,
    m: EvaluatorView,
    known: Seq<KnownView>,
    fuel: u64,
) -> Result<(EvaluatorView, FlowView), FailureView>
    decreases fuel, 1nat, body, 2nat, 0nat,
{
    let (m, inner) = scope_inside(m, env);
    let m = name_defined(m, inner, var, item);
    block_run(body, inner, known, fuel, 0, m)
}

/// See [`item_run`].
pub fn exec_item(
    item: &Value,
    var: &String,
    body: &Vec<Stmt>,
    env: usize,
    m: Evaluator,
    known: &Vec<Known>,
    fuel: u64,
) -> (r: Result<(Evaluator, Flow), Failure>)
    ensures
        (match r { Ok(v) => Ok((v.0@, v.1@)), Err(v) => Err(v@) }) == item_run(
            item@,
            var@,
            stmt_list_view(body@),
            env,
            m@,
            known_list_view(known@),
            fuel,
        ),
    decreases fuel, 1nat, body@, 2nat, 0nat,
{
    let (m, inner) = child_scope(m, env);
    let m = define_name(m, inner, var, clone_value(item));
    exec_block(body, inner, m, known, fuel)
}

/// Run a `try`: what the body raises goes to the handler, `else` follows a body that ends
/// normally, and `finally` comes last, whatever happened.
pub open spec fn try_run(
    stmt: StmtView,
    env: usize,
    m: EvaluatorView,
    known: Seq<KnownView>,
    fuel: u64,
) -> Result<(EvaluatorView, FlowView), FailureView>
    decreases fuel, 1nat, stmt, 7nat, 0nat,
{
    match stmt.kind {
        StmtKindView::Try { body, except, orelse, finalbody } => {
            let outcome = match block_run_inside(body, env, m, known, fuel) {
                Ok(done) => body_ended(orelse, done.0, done.1, env, known, fuel),
                Err(failed) => body_failed(except, failed, env, known, fuel),
            };
            finally_run(finalbody, outcome, env, known, fuel)
        },
        _ => Err(unsupported_in(m, "statement"@)),
    }
}

/// See [`try_run`].
pub fn exec_try(
    stmt: &Stmt,
    env: usize,
    m: Evaluator,
    known: &Vec<Known>,
    fuel: u64,
) -> (r: Result<(Evaluator, Flow), Failure>)
    ensures
        (
            match r { Ok(v) => Ok((v.0@, v.1@)), Err(v) => Err(v@) }
        ) == try_run(stmt@, env, m@, known_list_view(known@), fuel),
    decreases fuel, 1nat, stmt, 7nat, 0nat,
{
    proof { unfold_stmt_kind(stmt.kind); }
    match &stmt.kind {
        StmtKind::Try { body, except, orelse, finalbody } => {
            let outcome = match exec_inside(body, env, m, known, fuel) {
                Ok(done) => after_body(orelse, done.0, done.1, env, known, fuel),
                Err(failed) => after_failure(except, failed, env, known, fuel),
            };
            exec_finally(finalbody, outcome, env, known, fuel)
        },
        _ => {
            assert(!(stmt.kind@ is Try));
            Err(not_supported(m, "statement"))
        },
    }
}

pub open spec fn body_ended(
    orelse: Option<Seq<StmtView>>,
    m: EvaluatorView,
    flow: FlowView,
    env: usize,
    known: Seq<KnownView>,
    fuel: u64,
) -> Result<(EvaluatorView, FlowView), FailureView>
    decreases fuel, 1nat, orelse, 3nat, 0nat,
{
    match flow {
        FlowView::Normal => opt_block_run(orelse, env, m, known, fuel),
        other => Ok((m, other)),
    }
}

/// See [`body_ended`].
pub fn after_body(
    orelse: &Option<Vec<Stmt>>,
    m: Evaluator,
    flow: Flow,
    env: usize,
    known: &Vec<Known>,
    fuel: u64,
) -> (r: Result<(Evaluator, Flow), Failure>)
    ensures
        (match r { Ok(v) => Ok((v.0@, v.1@)), Err(v) => Err(v@) }) == body_ended(
            (match orelse { Some(v) => Some(stmt_list_view(v@)), None => None }),
            m@,
            flow@,
            env,
            known_list_view(known@),
            fuel,
        ),
    decreases fuel, 1nat, orelse, 3nat, 0nat,
{
    match flow {
        Flow::Normal => exec_opt(orelse, env, m, known, fuel),
        other => Ok((m, other)),
    }
}

pub open spec fn body_failed(
    except: Option<(Option<Seq<char>>, Seq<StmtView>)>,
    failed: FailureView,
    env: usize,
    known: Seq<KnownView>,
    fuel: u64,
) -> Result<(EvaluatorView, FlowView), FailureView>
    decreases fuel, 1nat, except, 3nat, 0nat,
{
    match failed.error {
        EvalErrorView::Raised(message) => match except {
            Some(handler) => handler_run(
                handler.0,
                handler.1,
                message,
                failed.machine,
                env,
                known,
                fuel,
            ),
            None => Err(failed),
        },
        _ => Err(failed),
    }
}

/// See [`body_failed`].
pub fn after_failure(
    except: &Option<(Option<String>, Vec<Stmt>)>,
    failed: Failure,
    env: usize,
    known: &Vec<Known>,
    fuel: u64,
) -> (r: Result<(Evaluator, Flow), Failure>)
    ensures
        (match r { Ok(v) => Ok((v.0@, v.1@)), Err(v) => Err(v@) }) == body_failed(
            (match except { Some(v) => Some((opt_view(v.0), stmt_list_view(v.1@))), None => None }),
            failed@,
            env,
            known_list_view(known@),
            fuel,
        ),
    decreases fuel, 1nat, except, 3nat, 0nat,
{
    match &failed.error {
        EvalError::Raised(message) => {
            match except {
                Some(handler) => exec_handler(
                    &handler.0,
                    &handler.1,
                    message,
                    failed.machine,
                    env,
                    known,
                    fuel,
                ),
                None => Err(failed),
            }
        },
        _ => {
            assert(!(failed.error@ is Raised));
            Err(failed)
        },
    }
}

pub open spec fn handler_run(
    name: Option<Seq<char>>,
    body: Seq<StmtView>,
    message: Seq<char>,
    m: EvaluatorView,
    env: usize,
    known: Seq<KnownView>,
    fuel: u64,
) -> Result<(EvaluatorView, FlowView), FailureView>
    decreases fuel, 1nat, body, 1nat, 0nat,
{
    let (m, inner) = scope_inside(m, env);
    let m = match name {
        Some(name) => name_defined(m, inner, name, ValueView::Error(message)),
        None => m,
    };
    block_run(body, inner, known, fuel, 0, m)
}

/// See [`handler_run`].
pub fn exec_handler(
    name: &Option<String>,
    body: &Vec<Stmt>,
    message: &String,
    m: Evaluator,
    env: usize,
    known: &Vec<Known>,
    fuel: u64,
) -> (r: Result<(Evaluator, Flow), Failure>)
    ensures
        (match r { Ok(v) => Ok((v.0@, v.1@)), Err(v) => Err(v@) }) == handler_run(
            opt_view(*name),
            stmt_list_view(body@),
            message@,
            m@,
            env,
            known_list_view(known@),
            fuel,
        ),
    decreases fuel, 1nat, body@, 1nat, 0nat,
{
    let (m, inner) = child_scope(m, env);
    let m = match name {
        Some(name) => {
            let value = Value::Error(message.clone());
            proof { unfold_value(value); }
            define_name(m, inner, name, value)
        },
        None => m,
    };
    exec_block(body, inner, m, known, fuel)
}

pub open spec fn finally_run(
    finalbody: Option<Seq<StmtView>>,
    outcome: Result<(EvaluatorView, FlowView), FailureView>,
    env: usize,
    known: Seq<KnownView>,
    fuel: u64,
) -> Result<(EvaluatorView, FlowView), FailureView>
    decreases fuel, 1nat, finalbody, 3nat, 0nat,
{
    match finalbody {
        Some(body) => match outcome {
            Ok(done) => match block_run_inside(body, env, done.0, known, fuel) {
                Ok(out) => {
                    let (m, flow) = out;
                    Ok((m, flow_overriding(flow, done.1)))
                },
                Err(error) => Err(error),
            },
            Err(failed) => if run_stopped(failed.error) {
                Err(failed)
            } else {
                match block_run_inside(body, env, failed.machine, known, fuel) {
                    Ok(out) => {
                        let (m, flow) = out;
                        match flow {
                            FlowView::Normal => Err(failed_with(m, failed.error)),
                            other => Ok((m, other)),
                        }
                    },
                    Err(error) => Err(error),
                }
            },
        },
        None => outcome,
    }
}

/// See [`finally_run`].
pub fn exec_finally(
    finalbody: &Option<Vec<Stmt>>,
    outcome: Result<(Evaluator, Flow), Failure>,
    env: usize,
    known: &Vec<Known>,
    fuel: u64,
) -> (r: Result<(Evaluator, Flow), Failure>)
    ensures
        (match r { Ok(v) => Ok((v.0@, v.1@)), Err(v) => Err(v@) }) == finally_run(
            (match finalbody { Some(v) => Some(stmt_list_view(v@)), None => None }),
            (match outcome { Ok(v) => Ok((v.0@, v.1@)), Err(v) => Err(v@) }),
            env,
            known_list_view(known@),
            fuel,
        ),
    decreases fuel, 1nat, finalbody, 3nat, 0nat,
{
    match finalbody {
        Some(body) => {
            match outcome {
                Ok(done) => {
                    let (m, flow) = match exec_inside(body, env, done.0, known, fuel) {
                        Ok(done) => done,
                        Err(error) => {
                            return Err(error);
                        },
                    };
                    Ok((m, overriding(flow, done.1)))
                },
                Err(failed) => {
                    if stops_run(&failed.error) {
                        Err(failed)
                    } else {
                        let (m, flow) = match exec_inside(body, env, failed.machine, known, fuel) {
                            Ok(done) => done,
                            Err(error) => {
                                return Err(error);
                            },
                        };
                        match flow {
                            Flow::Normal => Err(failure(m, failed.error)),
                            other => Ok((m, other)),
                        }
                    }
                },
            }
        },
        None => outcome,
    }
}

#[verifier::opaque]
pub open spec fn flow_overriding(flow: FlowView, outcome: FlowView) -> FlowView {
    match flow {
        FlowView::Normal => outcome,
        other => other,
    }
}

/// See [`flow_overriding`].
pub fn overriding(flow: Flow, outcome: Flow) -> (r: Flow)
    ensures
        r@ == flow_overriding(flow@, outcome@),
{
    proof { reveal(flow_overriding); }
    match flow {
        Flow::Normal => outcome,
        other => other,
    }
}

/// A machine that has run nothing.
#[verifier::opaque]
pub open spec fn fresh_evaluator() -> EvaluatorView {
    let global = seq![ScopeView { vars: Seq::empty(), parent: None }];
    EvaluatorView { scopes: global, closures: Seq::empty(), structs: Seq::empty(), output: ""@ }
}

/// See [`fresh_evaluator`].
pub fn fresh_machine() -> (r: Evaluator)
    ensures
        r@ == fresh_evaluator(),
{
    proof { reveal(fresh_evaluator); }
    let list: Vec<(String, Value)> = Vec::new();
    assert(field_value_list_view(list@) =~= Seq::<(Seq<char>, ValueView)>::empty());
    let scope = Scope { vars: list, parent: None };
    proof { unfold_scope(scope); }
    let list2: Vec<(String, Value)> = Vec::new();
    assert(field_value_list_view(list2@) =~= Seq::<(Seq<char>, ValueView)>::empty());
    let scope2 = Scope { vars: list2, parent: None };
    proof { unfold_scope(scope2); }
    let ghost seen = scope2@;
    let list3 = vec![scope2];
    assert(frame_list_view(list3@) =~= seq![seen]);
    let global = list3;
    let list4: Vec<Closure> = Vec::new();
    assert(closure_list_view(list4@) =~= Seq::<ClosureView>::empty());
    let list5: Vec<StructDef> = Vec::new();
    assert(struct_def_list_view(list5@) =~= Seq::<StructDefView>::empty());
    let evaluator = Evaluator { scopes: global, closures: list4, structs: list5, output: "".to_owned() };
    proof { unfold_evaluator(evaluator); }
    evaluator
}

/// Run a program in the global scope, and then its `main` if it has one without
/// parameters.
#[verifier::opaque]
pub open spec fn program_run(
    program: Seq<StmtView>,
    m: EvaluatorView,
    known: Seq<KnownView>,
    fuel: u64,
) -> Result<EvaluatorView, FailureView> {
    match block_run(program, 0, known, fuel, 0, m) {
        Ok(out) => {
            let (m, _) = out;
            match value_in_scope(m.scopes, 0, "main"@) {
                Some(value) => match value {
                    ValueView::Closure(id) => main_run(id, m, known, fuel),
                    _ => Ok(m),
                },
                None => Ok(m),
            }
        },
        Err(error) => Err(error),
    }
}

/// See [`program_run`].
pub fn run_program(
    program: &Vec<Stmt>,
    m: Evaluator,
    known: &Vec<Known>,
    fuel: u64,
) -> (r: Result<Evaluator, Failure>)
    ensures
        (match r { Ok(v) => Ok(v@), Err(v) => Err(v@) }) == program_run(
            stmt_list_view(program@),
            m@,
            known_list_view(known@),
            fuel,
        ),
{
    proof { reveal(program_run); }
    let (m, _) = match exec_block(program, 0, m, known, fuel) {
        Ok(done) => done,
        Err(error) => {
            return Err(error);
        },
    };
    match lookup(&m.scopes, 0, &"main".to_owned()) {
        Some(value) => {
            proof { unfold_value(value); }
            match value {
                Value::Closure(id) => run_main(id, m, known, fuel),
                _ => {
                    assert(!(value@ is Closure));
                    Ok(m)
                },
            }
        },
        None => Ok(m),
    }
}

#[verifier::opaque]
pub open spec fn main_run(
    id: usize,
    m: EvaluatorView,
    known: Seq<KnownView>,
    fuel: u64,
) -> Result<EvaluatorView, FailureView> {
    if id < m.closures.len() && m.closures[id as int].params.len() == 0 {
        let closure = m.closures[id as int];
        let no_kwargs = Seq::<KwArgView>::empty();
        let no_values = Seq::<ValueView>::empty();
        let no_params = Seq::<(Seq<char>, ValueView)>::empty();
        if fuel == 0 {
            Err(failed_with(m, EvalErrorView::Exhausted))
        } else {
            match closure_run(
                closure,
                "main"@,
                no_values,
                no_kwargs,
                no_values,
                no_params,
                m,
                known,
                (fuel - 1) as u64,
            ) {
                Ok(out) => {
                    let (m, _) = out;
                    Ok(m)
                },
                Err(error) => Err(error),
            }
        }
    } else {
        Ok(m)
    }
}

/// See [`main_run`].
pub fn run_main(
    id: usize,
    m: Evaluator,
    known: &Vec<Known>,
    fuel: u64,
) -> (r: Result<Evaluator, Failure>)
    ensures
        (
            match r { Ok(v) => Ok(v@), Err(v) => Err(v@) }
        ) == main_run(id, m@, known_list_view(known@), fuel),
{
    proof { reveal(main_run); }
    if id < m.closures.len() && m.closures[id].params.len() == 0 {
        let closure = clone_closure((&m.closures[id]));
        let no_kwargs: Vec<KwArg> = Vec::new();
        assert(kw_arg_list_view(no_kwargs@) =~= Seq::<KwArgView>::empty());
        let no_values: Vec<Value> = Vec::new();
        assert(value_list_view(no_values@) =~= Seq::<ValueView>::empty());
        let no_params: Vec<(String, Value)> = Vec::new();
        assert(field_value_list_view(no_params@) =~= Seq::<(Seq<char>, ValueView)>::empty());
        if fuel == 0 {
            Err(failure(m, EvalError::Exhausted))
        } else {
            let (m, _) = match run_closure(
                &closure,
                &"main".to_owned(),
                &no_values,
                &no_kwargs,
                &no_values,
                &no_params,
                m,
                known,
                fuel - 1,
            ) {
                Ok(done) => done,
                Err(error) => {
                    return Err(error);
                },
            };
            Ok(m)
        }
    } else {
        Ok(m)
    }
}

pub open spec fn names_bound(
    vars: Seq<(Seq<char>, ValueView)>,
    i: nat,
    out: Seq<Seq<char>>,
) -> Seq<Seq<char>>
    decreases vars, (vars.len() - i) as nat,
{
    if i >= vars.len() {
        out
    } else {
        let var = vars[i as int];
        let out = insert_name(out, var.0);
        names_bound(vars, i + 1, out)
    }
}

/// See [`names_bound`].
pub fn names_of_vars(vars: &Vec<(String, Value)>) -> (r: Vec<String>)
    ensures
        string_list_view(r@) == names_bound(
            field_value_list_view(vars@),
            0,
            Seq::<Seq<char>>::empty(),
        ),
    decreases vars@, 0nat,
{
    let mut out: Vec<String> = Vec::new();
    assert(string_list_view(out@) =~= Seq::<Seq<char>>::empty());
    let ghost goal = names_bound(field_value_list_view(vars@), 0, Seq::<Seq<char>>::empty());
    let mut i: usize = 0;
    while i < vars.len()
        invariant
            i <= vars@.len(),
            field_value_list_view(vars@).len() == vars@.len(),
            names_bound(field_value_list_view(vars@), i as nat, string_list_view(out@)) == goal,
            goal == names_bound(field_value_list_view(vars@), 0, Seq::<Seq<char>>::empty()),
        decreases vars@.len() - i,
    {
        let var = &vars[i];
        assert(field_value_list_view(vars@)[i as int].0 =~= var.0@);
        assert(field_value_list_view(vars@)[i as int].1 =~= var.1@);
        out = add_name(out, (&var.0).clone());
        i = i + 1;
    }
    out
}

pub open spec fn bindings_named(
    names: Seq<Seq<char>>,
    vars: Seq<(Seq<char>, ValueView)>,
    i: nat,
    out: Seq<(Seq<char>, ValueView)>,
) -> Seq<(Seq<char>, ValueView)>
    decreases names, (names.len() - i) as nat,
{
    if i >= names.len() {
        out
    } else {
        let name = names[i as int];
        match slot_named(vars, name) {
            Some(value) => {
                let out = out.push((name, value));
                bindings_named(names, vars, i + 1, out)
            },
            None => bindings_named(names, vars, i + 1, out),
        }
    }
}

/// See [`bindings_named`].
pub fn bindings_of(
    names: &Vec<String>,
    vars: &Vec<(String, Value)>,
) -> (r: Vec<(String, Value)>)
    ensures
        field_value_list_view(r@) == bindings_named(
            string_list_view(names@),
            field_value_list_view(vars@),
            0,
            Seq::<(Seq<char>, ValueView)>::empty(),
        ),
    decreases names@, 0nat,
{
    let mut out: Vec<(String, Value)> = Vec::new();
    assert(field_value_list_view(out@) =~= Seq::<(Seq<char>, ValueView)>::empty());
    let ghost goal = bindings_named(
        string_list_view(names@),
        field_value_list_view(vars@),
        0,
        Seq::<(Seq<char>, ValueView)>::empty(),
    );
    let mut i: usize = 0;
    while i < names.len()
        invariant
            i <= names@.len(),
            string_list_view(names@).len() == names@.len(),
            bindings_named(
                string_list_view(names@),
                field_value_list_view(vars@),
                i as nat,
                field_value_list_view(out@),
            ) == goal,
            goal == bindings_named(
                string_list_view(names@),
                field_value_list_view(vars@),
                0,
                Seq::<(Seq<char>, ValueView)>::empty(),
            ),
        decreases names@.len() - i,
    {
        let name = &names[i];
        assert(string_list_view(names@)[i as int] == name@);
        match find_slot_value(vars, name) {
            Some(value) => {
                let item = (name.clone(), value);
                let ghost before = field_value_list_view(out@);
                let ghost added = (item.0@, item.1@);
                out.push(item);
                assert(field_value_list_view(out@) =~= before.push(added));
            },
            None => {},
        }
        i = i + 1;
    }
    out
}

/// What the global names are bound to, in the order of the names.
#[verifier::opaque]
pub open spec fn bindings_global(scopes: Seq<ScopeView>) -> Seq<(Seq<char>, ValueView)> {
    if scopes.len() > 0 {
        bindings_named(
            names_bound(scopes[0].vars, 0, Seq::empty()),
            scopes[0].vars,
            0,
            Seq::empty(),
        )
    } else {
        Seq::empty()
    }
}

/// See [`bindings_global`].
pub fn global_values(scopes: &Vec<Scope>) -> (r: Vec<(String, Value)>)
    ensures
        field_value_list_view(r@) == bindings_global(frame_list_view(scopes@)),
{
    proof { reveal(bindings_global); }
    if scopes.len() > 0 {
        bindings_of(&names_of_vars(&scopes[0].vars), &scopes[0].vars)
    } else {
        let list: Vec<(String, Value)> = Vec::new();
        assert(field_value_list_view(list@) =~= Seq::<(Seq<char>, ValueView)>::empty());
        list
    }
}

/// What a run makes of a program, with the questions that were answered before.
pub open spec fn evaluated(
    machine: EvaluatorView,
    program: Seq<StmtView>,
    known: Seq<KnownView>,
    fuel: u64,
) -> Result<EvaluatorView, FailureView> {
    program_run(program, machine, known, fuel)
}

impl Evaluator {
    /// A machine that has run nothing.
    pub fn new() -> (r: Self)
        ensures
            r@ == fresh_evaluator(),
    {
        fresh_machine()
    }

    /// What has been printed so far.
    pub fn output(&self) -> (r: String)
        ensures
            r@ == self@.output,
    {
        proof {
            unfold_evaluator(*self);
        }
        self.output.clone()
    }

    /// Run a program, and then its `main`. `fuel` bounds how deep calls nest and how often
    /// loops go round. A loop in a loop has what the outer one has left.
    pub fn eval_program(self, program: &Vec<Stmt>, known: &Vec<Known>, fuel: u64) -> (r: Result<
        Evaluator,
        Failure,
    >)
        ensures
            (match r {
                Ok(v) => Ok(v@),
                Err(v) => Err(v@),
            }) == evaluated(self@, stmt_list_view(program@), known_list_view(known@), fuel),
    {
        run_program(program, self, known, fuel)
    }

    /// What the global names are bound to, in the order of the names.
    pub fn global_bindings(&self) -> (r: Vec<(String, Value)>)
        ensures
            field_value_list_view(r@) == bindings_global(self@.scopes),
    {
        proof {
            unfold_evaluator(*self);
        }
        global_values(&self.scopes)
    }
}

impl Default for Evaluator {
    fn default() -> (r: Self)
        ensures
            r@ == fresh_evaluator(),
    {
        Evaluator::new()
    }
}

/// The error that a program shows for what stopped it. A question, an overflow, a missing
/// element and too many steps are no errors of the program's own.
pub fn runtime_error(error: &EvalError) -> (r: Option<RuntimeError>)
    ensures
        r is None <==> run_stopped(error@),
        match r {
            Some(shown) => shown.spec_message() == error_text(error@),
            None => true,
        },
{
    proof {
        reveal(run_stopped);
    }
    match error {
        EvalError::UndefinedVariable(name) => Some(RuntimeError::UndefinedVariable(name.clone())),
        EvalError::NotCallable(name) => Some(RuntimeError::NotCallable(name.clone())),
        EvalError::ArityMismatch { name, expected, got } => Some(
            RuntimeError::ArityMismatch { name: name.clone(), expected: *expected, got: *got },
        ),
        EvalError::TypeError(message) => Some(RuntimeError::TypeError(message.clone())),
        EvalError::ClosureEscape => Some(RuntimeError::ClosureEscape),
        EvalError::Raised(message) => Some(RuntimeError::Raised(message.clone())),
        EvalError::Unsupported(what) => Some(RuntimeError::Unsupported(what.clone())),
        EvalError::Asked(_) => None,
        EvalError::Overflow => None,
        EvalError::OutOfBounds => None,
        EvalError::Exhausted => None,
    }
}

/// What an error of a program says.
pub open spec fn error_text(error: EvalErrorView) -> Seq<char> {
    match error {
        EvalErrorView::UndefinedVariable(name) => "Undefined variable '"@ + name + "'"@,
        EvalErrorView::NotCallable(name) => "'"@ + name + "' is not callable"@,
        EvalErrorView::ArityMismatch { name, expected, got } => "'"@ + name + "' expects "@
            + decimal(expected as nat) + " argument(s), got "@ + decimal(got as nat),
        EvalErrorView::TypeError(message) => "Type error: "@ + message,
        EvalErrorView::ClosureEscape =>
            "closures cannot escape their defining scope (downward funargs only)"@,
        EvalErrorView::Raised(message) => "unhandled error: "@ + message,
        EvalErrorView::Unsupported(what) => "unsupported feature: "@ + what,
        _ => Seq::empty(),
    }
}

} // verus!
