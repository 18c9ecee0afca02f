//! Calls of templates as calls of specializations.

use crate::ast::{
    ComprehensionClause, ComprehensionClauseView, Expr, ExprKind, ExprKindView, ExprView, InfixOp,
    KwArg, KwArgView, Method, MethodView, ParamArg, ParamArgView, Stmt, StmtKind, StmtKindView,
    StmtView, SubscriptArg, SubscriptArgView, Type, WithItem, WithItemView, branch_list_view,
    clone_capture_list, clone_expr, clone_expr_kind, clone_expr_list, clone_fn_param_list,
    clone_param_arg, clone_param_arg_list, clone_param_list, clone_stmt, clone_stmt_kind,
    clone_stmt_list, clone_struct_comptime_list, clone_type, clone_type_param_list,
    comparison_list_view, comprehension_clause_list_view, entry_list_view, expr_list_view,
    kw_arg_list_view, method_list_view, param_arg_list_view, stmt_list_view, stmt_view,
    subscript_arg_list_view, unfold_expr_kind, unfold_method, unfold_stmt_kind,
    with_item_list_view,
};
use crate::ct::{Bindings, ct_eval};
use crate::elab::{
    ComptimeError, ComptimeErrorView, CtContext, CtContextView, Template, TemplateView,
    classify_ct_params, ct_params, decl_name, find_template, name_of_decl, no_comptime,
    not_comptime, template_named,
};
use crate::evaluate::{param_arg_type, resolve_ct_arg, resolved_arg, type_of_param_arg};
use crate::flatten::{following_index, next_index};
use crate::mangle::{mangle, mangled};
use crate::packs::{begins_with_star, starts_with_star, trim_stars, without_stars};
use crate::show::{show_ty, ty_text};
use crate::text::{
    cat3, cat4, cat5, cat6, clone_string_list, contains_name, decimal, opt_view, same_text,
    show_usize, string_list_view,
};
use crate::types::{
    CtExpr, CtValue, CtValueView, ParamDecl, ParamDeclView, Ty, TyArg, TyArgView, TyView,
    binding_list_view, clone_binding_list, clone_ct_value, clone_ct_value_list, clone_ty,
    ct_value_list_view, param_decl_list_view, same_ty, ty_arg_list_view, ty_list_view,
    unfold_ct_value, unfold_param_decl, unfold_ty,
};
use crate::values::Value;
use vstd::prelude::*;

verus! {

/// A specialization that has been asked for.
#[derive(Debug, PartialEq, Eq)]
pub struct Job {
    pub orig: String,
    pub vals: Vec<CtValue>,
    /// Where the specialization was asked for.
    pub site: String,
}

/// What a [`Job`] holds.
pub struct JobView {
    pub orig: Seq<char>,
    pub vals: Seq<CtValueView>,
    pub site: Seq<char>,
}

/// The specializations a program asks for.
#[derive(Debug, PartialEq, Eq)]
pub struct Mono {
    /// Steps left.
    pub fuel: usize,
    /// Specializations that have been asked for and not made, the oldest first.
    pub queue: Vec<Job>,
    /// The names of all specializations that have been asked for.
    pub done: Vec<String>,
}

/// What a [`Mono`] holds.
pub struct MonoView {
    pub fuel: usize,
    pub queue: Seq<JobView>,
    pub done: Seq<Seq<char>>,
}

/// A specialization of a template.
#[derive(Debug, PartialEq, Eq)]
pub struct Made {
    pub orig: String,
    pub def: Stmt,
}

/// What a [`Made`] holds.
pub struct MadeView {
    pub orig: Seq<char>,
    pub def: StmtView,
}

/// The values of the compile-time arguments of a call, and the arguments that stay.
#[derive(Debug, PartialEq, Eq)]
pub struct SpecArgs {
    pub vals: Vec<CtValue>,
    pub kept: Vec<ParamArg>,
}

/// What a [`SpecArgs`] holds.
pub struct SpecArgsView {
    pub vals: Seq<CtValueView>,
    pub kept: Seq<ParamArgView>,
}

pub open spec fn job_view(x: Job) -> JobView
    decreases x,
{
    JobView {
        orig: x.orig@,
        vals: ct_value_list_view(x.vals@),
        site: x.site@,
    }
}

impl View for Job {
    type V = JobView;

    open spec fn view(&self) -> JobView {
        job_view(*self)
    }
}

pub fn clone_job(x: &Job) -> (r: Job)
    ensures
        job_view(r) == job_view(*x),
    decreases x,
{
    let r = Job {
        orig: (&x.orig).clone(),
        vals: clone_ct_value_list((&x.vals)),
        site: (&x.site).clone(),
    };
    proof {
        unfold_job(*x);
        unfold_job(r);
    }
    r
}

impl Clone for Job {
    fn clone(&self) -> (r: Self)
        ensures
            r@ == self@,
    {
        clone_job(self)
    }
}

pub open spec fn mono_view(x: Mono) -> MonoView
    decreases x,
{
    MonoView {
        fuel: x.fuel,
        queue: job_list_view(x.queue@),
        done: string_list_view(x.done@),
    }
}

impl View for Mono {
    type V = MonoView;

    open spec fn view(&self) -> MonoView {
        mono_view(*self)
    }
}

pub fn clone_mono(x: &Mono) -> (r: Mono)
    ensures
        mono_view(r) == mono_view(*x),
    decreases x,
{
    let r = Mono {
        fuel: x.fuel,
        queue: clone_job_list((&x.queue)),
        done: clone_string_list((&x.done)),
    };
    proof {
        unfold_mono(*x);
        unfold_mono(r);
    }
    r
}

impl Clone for Mono {
    fn clone(&self) -> (r: Self)
        ensures
            r@ == self@,
    {
        clone_mono(self)
    }
}

pub open spec fn made_view(x: Made) -> MadeView
    decreases x,
{
    MadeView {
        orig: x.orig@,
        def: stmt_view(x.def),
    }
}

impl View for Made {
    type V = MadeView;

    open spec fn view(&self) -> MadeView {
        made_view(*self)
    }
}

pub fn clone_made(x: &Made) -> (r: Made)
    ensures
        made_view(r) == made_view(*x),
    decreases x,
{
    Made {
        orig: (&x.orig).clone(),
        def: clone_stmt((&x.def)),
    }
}

impl Clone for Made {
    fn clone(&self) -> (r: Self)
        ensures
            r@ == self@,
    {
        clone_made(self)
    }
}

pub open spec fn spec_args_view(x: SpecArgs) -> SpecArgsView
    decreases x,
{
    SpecArgsView {
        vals: ct_value_list_view(x.vals@),
        kept: param_arg_list_view(x.kept@),
    }
}

impl View for SpecArgs {
    type V = SpecArgsView;

    open spec fn view(&self) -> SpecArgsView {
        spec_args_view(*self)
    }
}

pub fn clone_spec_args(x: &SpecArgs) -> (r: SpecArgs)
    ensures
        spec_args_view(r) == spec_args_view(*x),
    decreases x,
{
    let r = SpecArgs {
        vals: clone_ct_value_list((&x.vals)),
        kept: clone_param_arg_list((&x.kept)),
    };
    proof {
        unfold_spec_args(*x);
        unfold_spec_args(r);
    }
    r
}

impl Clone for SpecArgs {
    fn clone(&self) -> (r: Self)
        ensures
            r@ == self@,
    {
        clone_spec_args(self)
    }
}

pub open spec fn job_list_view(s: Seq<Job>) -> Seq<JobView>
    decreases s,
{
    Seq::new(s.len(), |i: int| if 0 <= i < s.len() { job_view(s[i]) } else { arbitrary() })
}

pub fn clone_job_list(v: &Vec<Job>) -> (r: Vec<Job>)
    ensures
        job_list_view(r@) == job_list_view(v@),
        r@.len() == v@.len(),
    decreases v@,
{
    let mut r: Vec<Job> = Vec::new();
    for i in 0..v.len()
        invariant
            r@.len() == i,
            forall|j: int| 0 <= j < i ==> job_view((#[trigger] r@[j])) == job_view(v@[j]),
    {
        r.push(clone_job((&v[i])));
    }
    assert(job_list_view(r@) =~= job_list_view(v@));
    r
}

pub open spec fn made_list_view(s: Seq<Made>) -> Seq<MadeView>
    decreases s,
{
    Seq::new(s.len(), |i: int| if 0 <= i < s.len() { made_view(s[i]) } else { arbitrary() })
}

pub fn clone_made_list(v: &Vec<Made>) -> (r: Vec<Made>)
    ensures
        made_list_view(r@) == made_list_view(v@),
        r@.len() == v@.len(),
    decreases v@,
{
    let mut r: Vec<Made> = Vec::new();
    for i in 0..v.len()
        invariant
            r@.len() == i,
            forall|j: int| 0 <= j < i ==> made_view((#[trigger] r@[j])) == made_view(v@[j]),
    {
        r.push(clone_made((&v[i])));
    }
    assert(made_list_view(r@) =~= made_list_view(v@));
    r
}

pub proof fn unfold_job(x: Job)
    ensures
        job_view(x) == (JobView { orig: x.orig@, vals: ct_value_list_view(x.vals@), site: x.site@ }),
{
        assert(job_view(x).vals =~= ct_value_list_view(x.vals@));
}

pub proof fn unfold_mono(x: Mono)
    ensures
        mono_view(x) == (MonoView { fuel: x.fuel, queue: job_list_view(x.queue@), done: string_list_view(x.done@) }),
{
        assert(mono_view(x).queue =~= job_list_view(x.queue@));
        assert(mono_view(x).done =~= string_list_view(x.done@));
}

pub proof fn unfold_spec_args(x: SpecArgs)
    ensures
        spec_args_view(x) == (SpecArgsView { vals: ct_value_list_view(x.vals@), kept: param_arg_list_view(x.kept@) }),
{
        assert(spec_args_view(x).vals =~= ct_value_list_view(x.vals@));
        assert(spec_args_view(x).kept =~= param_arg_list_view(x.kept@));
}

/// The value that a default has with parameters bound.
pub fn default_value(default: &CtExpr, values: &Vec<(String, CtValue)>) -> (r: Option<CtValue>)
    ensures
        opt_view(r) == ct_eval(default@, binding_list_view(values@)),
{
    let parameters = Bindings { entries: clone_binding_list(values) };
    default.value_in(&parameters)
}


/// The type of an argument of a pack, as far as it can be seen before checking.
pub open spec fn evident_type(expr: ExprView) -> Result<TyView, ComptimeErrorView>
    decreases expr, 0nat,
{
    match expr.kind {
        ExprKindView::Int(_) => Ok(TyView::Int),
        ExprKindView::Float(_) => Ok(TyView::Float64),
        ExprKindView::Bool(_) => Ok(TyView::Bool),
        ExprKindView::Str(_) => Ok(TyView::String),
        ExprKindView::NoneLit => Ok(TyView::NoneTy),
        ExprKindView::Call { name, .. } => Ok(type_constructed(name)),
        ExprKindView::Prefix(_, value) => evident_type(*value),
        ExprKindView::Transfer(value) => evident_type(*value),
        ExprKindView::Infix(op, left, right) => match evident_type(*left) {
            Ok(out) => {
                let left = out;
                match evident_type(*right) {
                    Ok(out) => {
                        let right = out;
                        type_of_operation(op, left, right)
                    },
                    Err(error) => Err(error),
                }
            },
            Err(error) => Err(error),
        },
        ExprKindView::ListLit(values) => match evident_elements(values, 0, Seq::empty(), true) {
            Ok(out) => {
                let types = out;
                type_of_list(types)
            },
            Err(error) => Err(error),
        },
        ExprKindView::TupleLit(values) => match evident_types(values, 0, Seq::empty()) {
            Ok(out) => {
                let types = out;
                Ok(TyView::Tuple(types))
            },
            Err(error) => Err(error),
        },
        ExprKindView::IfExpr { then_branch, else_branch, .. } => match evident_type(*then_branch) {
            Ok(out) => {
                let then_ty = out;
                match evident_type(*else_branch) {
                    Ok(out) => {
                        let else_ty = out;
                        if then_ty == else_ty {
                            Ok(then_ty)
                        } else {
                            Err(no_comptime("conditional pack argument branches have different types"@))
                        }
                    },
                    Err(error) => Err(error),
                }
            },
            Err(error) => Err(error),
        },
        _ => Err(
            no_comptime(
                "a heterogeneous pack specialization needs an expression whose type is statically evident before checking"@
            )
        ),
    }
}

/// See [`evident_type`].
pub fn infer_pack_argument_type(expr: &Expr) -> (r: Result<Ty, ComptimeError>)
    ensures
        (match r { Ok(v) => Ok(v@), Err(v) => Err(v@) }) == evident_type(expr@),
    decreases expr, 0nat,
{
    proof { unfold_expr_kind(expr.kind); }
    match &expr.kind {
        ExprKind::Int(_) => Ok(Ty::Int),
        ExprKind::Float(_) => Ok(Ty::Float64),
        ExprKind::Bool(_) => Ok(Ty::Bool),
        ExprKind::Str(_) => Ok(Ty::String),
        ExprKind::NoneLit => Ok(Ty::NoneTy),
        ExprKind::Call { name, .. } => Ok(constructed_type(name)),
        ExprKind::Prefix(_, value) => infer_pack_argument_type(&**value),
        ExprKind::Transfer(value) => infer_pack_argument_type(&**value),
        ExprKind::Infix(op, left, right) => {
            let left = match infer_pack_argument_type(&**left) {
                Ok(done) => done,
                Err(error) => {
                    return Err(error);
                },
            };
            let right = match infer_pack_argument_type(&**right) {
                Ok(done) => done,
                Err(error) => {
                    return Err(error);
                },
            };
            operation_type(*op, left, right)
        },
        ExprKind::ListLit(values) => {
            let types = match infer_element_types(values) {
                Ok(done) => done,
                Err(error) => {
                    return Err(error);
                },
            };
            list_type(&types)
        },
        ExprKind::TupleLit(values) => {
            let types = match infer_types(values) {
                Ok(done) => done,
                Err(error) => {
                    return Err(error);
                },
            };
            let ty = Ty::Tuple(types);
            proof { unfold_ty(ty); }
            Ok(ty)
        },
        ExprKind::IfExpr { then_branch, else_branch, .. } => {
            let then_ty = match infer_pack_argument_type(&**then_branch) {
                Ok(done) => done,
                Err(error) => {
                    return Err(error);
                },
            };
            let else_ty = match infer_pack_argument_type(&**else_branch) {
                Ok(done) => done,
                Err(error) => {
                    return Err(error);
                },
            };
            if same_ty(&then_ty, &else_ty) {
                Ok(then_ty)
            } else {
                Err(not_comptime("conditional pack argument branches have different types".to_owned()))
            }
        },
        _ => {
            assert(!(expr.kind@ is Int));
            assert(!(expr.kind@ is Float));
            assert(!(expr.kind@ is Bool));
            assert(!(expr.kind@ is Str));
            assert(!(expr.kind@ is NoneLit));
            assert(!(expr.kind@ is Call));
            assert(!(expr.kind@ is Prefix));
            assert(!(expr.kind@ is Transfer));
            assert(!(expr.kind@ is Infix));
            assert(!(expr.kind@ is ListLit));
            assert(!(expr.kind@ is TupleLit));
            assert(!(expr.kind@ is IfExpr));
            Err(
                not_comptime(
                    "a heterogeneous pack specialization needs an expression whose type is statically evident before checking".to_owned()
                )
            )
        },
    }
}

#[verifier::opaque]
pub open spec fn type_constructed(name: Seq<char>) -> TyView {
    if name == "Int"@ {
        TyView::Int
    } else if name == "UInt"@ {
        TyView::UInt
    } else if name == "Float64"@ {
        TyView::Float64
    } else if name == "Bool"@ {
        TyView::Bool
    } else if name == "String"@ {
        TyView::String
    } else {
        TyView::Struct(name, Seq::empty())
    }
}

/// See [`type_constructed`].
pub fn constructed_type(name: &String) -> (r: Ty)
    ensures
        r@ == type_constructed(name@),
{
    proof { reveal(type_constructed); }
    if same_text(name.as_str(), "Int") {
        Ty::Int
    } else if same_text(name.as_str(), "UInt") {
        Ty::UInt
    } else if same_text(name.as_str(), "Float64") {
        Ty::Float64
    } else if same_text(name.as_str(), "Bool") {
        Ty::Bool
    } else if same_text(name.as_str(), "String") {
        Ty::String
    } else {
        let list: Vec<TyArg> = Vec::new();
        assert(ty_arg_list_view(list@) =~= Seq::<TyArgView>::empty());
        let ty = Ty::Struct(name.clone(), list);
        proof { unfold_ty(ty); }
        ty
    }
}

#[verifier::opaque]
pub open spec fn bool_operator(op: InfixOp) -> bool {
    match op {
        InfixOp::Eq => true,
        InfixOp::Ne => true,
        InfixOp::Lt => true,
        InfixOp::Le => true,
        InfixOp::Gt => true,
        InfixOp::Ge => true,
        InfixOp::And => true,
        InfixOp::Or => true,
        _ => false,
    }
}

/// See [`bool_operator`].
pub fn gives_bool(op: InfixOp) -> (r: bool)
    ensures
        r == bool_operator(op),
{
    proof { reveal(bool_operator); }
    match op {
        InfixOp::Eq => true,
        InfixOp::Ne => true,
        InfixOp::Lt => true,
        InfixOp::Le => true,
        InfixOp::Gt => true,
        InfixOp::Ge => true,
        InfixOp::And => true,
        InfixOp::Or => true,
        _ => false,
    }
}

#[verifier::opaque]
pub open spec fn int_and_float(left: TyView, right: TyView) -> bool {
    match left {
        TyView::Int => (right matches TyView::Float64),
        TyView::Float64 => (right matches TyView::Int),
        _ => false,
    }
}

/// See [`int_and_float`].
pub fn mixed_numbers(left: &Ty, right: &Ty) -> (r: bool)
    ensures
        r == int_and_float(left@, right@),
{
    proof { reveal(int_and_float); }
    proof { unfold_ty(*left); }
    match left {
        Ty::Int => matches!(right, Ty::Float64),
        Ty::Float64 => matches!(right, Ty::Int),
        _ => {
            assert(!(left@ is Int));
            assert(!(left@ is Float64));
            false
        },
    }
}

#[verifier::opaque]
pub open spec fn type_of_operation(
    op: InfixOp,
    left: TyView,
    right: TyView,
) -> Result<TyView, ComptimeErrorView> {
    if bool_operator(op) {
        Ok(TyView::Bool)
    } else if left == right {
        Ok(left)
    } else if int_and_float(left, right) {
        Ok(TyView::Float64)
    } else {
        Err(no_comptime("cannot infer a pack element type for operands "@ + ty_text(left) + " and "@ + ty_text(right)))
    }
}

/// See [`type_of_operation`].
pub fn operation_type(op: InfixOp, left: Ty, right: Ty) -> (r: Result<Ty, ComptimeError>)
    ensures
        (match r { Ok(v) => Ok(v@), Err(v) => Err(v@) }) == type_of_operation(op, left@, right@),
{
    proof { reveal(type_of_operation); }
    if gives_bool(op) {
        Ok(Ty::Bool)
    } else if same_ty(&left, &right) {
        Ok(left)
    } else if mixed_numbers(&left, &right) {
        Ok(Ty::Float64)
    } else {
        Err(
            not_comptime(
                cat4(
                    "cannot infer a pack element type for operands ",
                    show_ty(&left).as_str(),
                    " and ",
                    show_ty(&right).as_str(),
                )
            )
        )
    }
}

pub open spec fn evident_types(
    values: Seq<ExprView>,
    i: nat,
    out: Seq<TyView>,
) -> Result<Seq<TyView>, ComptimeErrorView>
    decreases values, (values.len() - i) as nat,
{
    if i >= values.len() {
        Ok(out)
    } else {
        let value = values[i as int];
        match evident_type(value) {
            Ok(taken) => {
                let ty = taken;
                let out = out.push(ty);
                evident_types(values, i + 1, out)
            },
            Err(error) => Err(error),
        }
    }
}

/// See [`evident_types`].
pub fn infer_types(values: &Vec<Expr>) -> (r: Result<Vec<Ty>, ComptimeError>)
    ensures
        (
            match r { Ok(v) => Ok(ty_list_view(v@)), Err(v) => Err(v@) }
        ) == evident_types(expr_list_view(values@), 0, Seq::<TyView>::empty()),
    decreases values@, 0nat,
{
    let mut out: Vec<Ty> = Vec::new();
    assert(ty_list_view(out@) =~= Seq::<TyView>::empty());
    let ghost goal = evident_types(expr_list_view(values@), 0, Seq::<TyView>::empty());
    let mut i: usize = 0;
    while i < values.len()
        invariant
            i <= values@.len(),
            expr_list_view(values@).len() == values@.len(),
            evident_types(expr_list_view(values@), i as nat, ty_list_view(out@)) == goal,
            goal == evident_types(expr_list_view(values@), 0, Seq::<TyView>::empty()),
        decreases values@.len() - i,
    {
        let value = &values[i];
        assert(expr_list_view(values@)[i as int] == value@);
        let ty = match infer_pack_argument_type(value) {
            Ok(done) => done,
            Err(error) => {
                return Err(error);
            },
        };
        let ghost before = ty_list_view(out@);
        let ghost added = ty@;
        out.push(ty);
        assert(ty_list_view(out@) =~= before.push(added));
        i = i + 1;
    }
    Ok(out)
}

/// The types of the elements of a list: of the first one, and of the others as far
/// as they have one.
pub open spec fn evident_elements(
    values: Seq<ExprView>,
    i: nat,
    out: Seq<TyView>,
    first: bool,
) -> Result<Seq<TyView>, ComptimeErrorView>
    decreases values, (values.len() - i) as nat,
{
    if i >= values.len() {
        Ok(out)
    } else {
        let value = values[i as int];
        match evident_type(value) {
            Ok(ty) => {
                let out = out.push(ty);
                let first = false;
                evident_elements(values, i + 1, out, first)
            },
            Err(error) => if first {
                Err(error)
            } else {
                Err(list_uneven())
            },
        }
    }
}

/// See [`evident_elements`].
pub fn infer_element_types(values: &Vec<Expr>) -> (r: Result<Vec<Ty>, ComptimeError>)
    ensures
        (
            match r { Ok(v) => Ok(ty_list_view(v@)), Err(v) => Err(v@) }
        ) == evident_elements(expr_list_view(values@), 0, Seq::<TyView>::empty(), true),
    decreases values@, 0nat,
{
    let mut out: Vec<Ty> = Vec::new();
    assert(ty_list_view(out@) =~= Seq::<TyView>::empty());
    let mut first: bool = true;
    let ghost goal = evident_elements(expr_list_view(values@), 0, Seq::<TyView>::empty(), true);
    let mut i: usize = 0;
    while i < values.len()
        invariant
            i <= values@.len(),
            expr_list_view(values@).len() == values@.len(),
            evident_elements(expr_list_view(values@), i as nat, ty_list_view(out@), first) == goal,
            goal == evident_elements(expr_list_view(values@), 0, Seq::<TyView>::empty(), true),
        decreases values@.len() - i,
    {
        let value = &values[i];
        assert(expr_list_view(values@)[i as int] == value@);
        match infer_pack_argument_type(value) {
            Ok(ty) => {
                let ghost before = ty_list_view(out@);
                let ghost added = ty@;
                out.push(ty);
                assert(ty_list_view(out@) =~= before.push(added));
            },
            Err(error) => {
                return if first {
                    Err(error)
                } else {
                    Err(uneven_list())
                };
            },
        }
        first = false;
        i = i + 1;
    }
    Ok(out)
}

#[verifier::opaque]
pub open spec fn list_uneven() -> ComptimeErrorView {
    no_comptime("a list pack argument must have one element type"@)
}

/// See [`list_uneven`].
pub fn uneven_list() -> (r: ComptimeError)
    ensures
        r@ == list_uneven(),
{
    proof { reveal(list_uneven); }
    not_comptime("a list pack argument must have one element type".to_owned())
}

pub open spec fn types_all_same(types: Seq<TyView>, first: TyView, i: nat) -> bool
    decreases types, (types.len() - i) as nat,
{
    if i >= types.len() {
        true
    } else {
        let ty = types[i as int];
        if !(ty == first) {
            false
        } else {
            types_all_same(types, first, i + 1)
        }
    }
}

/// See [`types_all_same`].
pub fn all_same(types: &Vec<Ty>, first: &Ty) -> (r: bool)
    ensures
        r == types_all_same(ty_list_view(types@), first@, 0),
    decreases types@, 0nat,
{
    let ghost goal = types_all_same(ty_list_view(types@), first@, 0);
    let mut i: usize = 0;
    while i < types.len()
        invariant
            i <= types@.len(),
            ty_list_view(types@).len() == types@.len(),
            types_all_same(ty_list_view(types@), first@, i as nat) == goal,
            goal == types_all_same(ty_list_view(types@), first@, 0),
        decreases types@.len() - i,
    {
        let ty = &types[i];
        assert(ty_list_view(types@)[i as int] == ty@);
        if !same_ty(ty, first) {
            return false;
        }
        i = i + 1;
    }
    true
}

#[verifier::opaque]
pub open spec fn type_of_list(types: Seq<TyView>) -> Result<TyView, ComptimeErrorView> {
    if types.len() == 0 {
        Err(no_comptime("cannot infer an empty list pack argument"@))
    } else if types_all_same(types, types[0], 0) {
        Ok(TyView::List(Box::new(types[0])))
    } else {
        Err(list_uneven())
    }
}

/// See [`type_of_list`].
pub fn list_type(types: &Vec<Ty>) -> (r: Result<Ty, ComptimeError>)
    ensures
        (match r { Ok(v) => Ok(v@), Err(v) => Err(v@) }) == type_of_list(ty_list_view(types@)),
{
    proof { reveal(type_of_list); }
    if types.len() == 0 {
        Err(not_comptime("cannot infer an empty list pack argument".to_owned()))
    } else if all_same(types, &types[0]) {
        let ty = Ty::List(Box::new(clone_ty((&types[0]))));
        proof { unfold_ty(ty); }
        Ok(ty)
    } else {
        Err(uneven_list())
    }
}

/// The compile-time parameters of a template.
#[verifier::opaque]
pub open spec fn decls_of_template(
    template: TemplateView,
) -> Result<Seq<ParamDeclView>, ComptimeErrorView> {
    match template.def.kind {
        StmtKindView::Def { type_params, .. } => Ok(ct_params(type_params, 0, Seq::empty())),
        _ => Err(no_comptime("specialization registry entry '"@ + template.name + "' is not a function"@)),
    }
}

/// See [`decls_of_template`].
pub fn template_decls(template: &Template) -> (r: Result<Vec<ParamDecl>, ComptimeError>)
    ensures
        (
            match r { Ok(v) => Ok(param_decl_list_view(v@)), Err(v) => Err(v@) }
        ) == decls_of_template(template@),
{
    proof { reveal(decls_of_template); }
    proof { unfold_stmt_kind(template.def.kind); }
    match &template.def.kind {
        StmtKind::Def { type_params, .. } => Ok(classify_ct_params(type_params)),
        _ => {
            assert(!(template.def.kind@ is Def));
            Err(not_comptime(cat3("specialization registry entry '", &template.name.as_str(), "' is not a function")))
        },
    }
}

pub open spec fn values_of_types(
    types: Seq<TyView>,
    i: nat,
    out: Seq<CtValueView>,
) -> Seq<CtValueView>
    decreases types, (types.len() - i) as nat,
{
    if i >= types.len() {
        out
    } else {
        let ty = types[i as int];
        let out = out.push(CtValueView::Type(Box::new(ty)));
        values_of_types(types, i + 1, out)
    }
}

/// See [`values_of_types`].
pub fn type_values(types: &Vec<Ty>) -> (r: Vec<CtValue>)
    ensures
        ct_value_list_view(r@) == values_of_types(
            ty_list_view(types@),
            0,
            Seq::<CtValueView>::empty(),
        ),
    decreases types@, 0nat,
{
    let mut out: Vec<CtValue> = Vec::new();
    assert(ct_value_list_view(out@) =~= Seq::<CtValueView>::empty());
    let ghost goal = values_of_types(ty_list_view(types@), 0, Seq::<CtValueView>::empty());
    let mut i: usize = 0;
    while i < types.len()
        invariant
            i <= types@.len(),
            ty_list_view(types@).len() == types@.len(),
            values_of_types(ty_list_view(types@), i as nat, ct_value_list_view(out@)) == goal,
            goal == values_of_types(ty_list_view(types@), 0, Seq::<CtValueView>::empty()),
        decreases types@.len() - i,
    {
        let ty = &types[i];
        assert(ty_list_view(types@)[i as int] == ty@);
        let value = CtValue::Type(Box::new(clone_ty(ty)));
        proof { unfold_ct_value(value); }
        let ghost before = ct_value_list_view(out@);
        let ghost added = value@;
        out.push(value);
        assert(ct_value_list_view(out@) =~= before.push(added));
        i = i + 1;
    }
    out
}

pub open spec fn types_of_param_args(
    args: Seq<ParamArgView>,
    consts: Seq<(Seq<char>, CtValueView)>,
    cx: CtContextView,
    i: nat,
    out: Seq<TyView>,
    fuel: usize,
) -> Result<(Seq<TyView>, usize), ComptimeErrorView>
    decreases args, (args.len() - i) as nat,
{
    if i >= args.len() {
        Ok((out, fuel))
    } else {
        let arg = args[i as int];
        match type_of_param_arg(arg, consts, cx, fuel, 4294967295) {
            Ok(taken) => {
                let (ty, rest) = taken;
                let out = out.push(ty);
                let fuel = rest;
                types_of_param_args(args, consts, cx, i + 1, out, fuel)
            },
            Err(error) => Err(error.error),
        }
    }
}

/// See [`types_of_param_args`].
pub fn param_arg_types(
    args: &Vec<ParamArg>,
    consts: &Vec<(String, CtValue)>,
    cx: &CtContext,
    start: usize,
) -> (r: Result<(Vec<Ty>, usize), ComptimeError>)
    ensures
        (
            match r { Ok(v) => Ok((ty_list_view(v.0@), v.1)), Err(v) => Err(v@) }
        ) == types_of_param_args(
            param_arg_list_view(args@),
            binding_list_view(consts@),
            cx@,
            0,
            Seq::<TyView>::empty(),
            start,
        ),
    decreases args@, 0nat,
{
    let mut out: Vec<Ty> = Vec::new();
    assert(ty_list_view(out@) =~= Seq::<TyView>::empty());
    let mut fuel: usize = start;
    let ghost goal = types_of_param_args(
        param_arg_list_view(args@),
        binding_list_view(consts@),
        cx@,
        0,
        Seq::<TyView>::empty(),
        start,
    );
    let mut i: usize = 0;
    while i < args.len()
        invariant
            i <= args@.len(),
            param_arg_list_view(args@).len() == args@.len(),
            types_of_param_args(
                param_arg_list_view(args@),
                binding_list_view(consts@),
                cx@,
                i as nat,
                ty_list_view(out@),
                fuel,
            ) == goal,
            goal == types_of_param_args(
                param_arg_list_view(args@),
                binding_list_view(consts@),
                cx@,
                0,
                Seq::<TyView>::empty(),
                start,
            ),
        decreases args@.len() - i,
    {
        let arg = &args[i];
        assert(param_arg_list_view(args@)[i as int] == arg@);
        let (ty, rest) = match param_arg_type(arg, consts, cx, fuel, 4294967295) {
            Ok(done) => done,
            Err(error) => {
                return Err(error.error);
            },
        };
        let ghost before = ty_list_view(out@);
        let ghost added = ty@;
        out.push(ty);
        assert(ty_list_view(out@) =~= before.push(added));
        fuel = rest;
        i = i + 1;
    }
    Ok((out, fuel))
}

pub open spec fn values_of_pack(
    args: Seq<ParamArgView>,
    decl: ParamDeclView,
    consts: Seq<(Seq<char>, CtValueView)>,
    cx: CtContextView,
    i: nat,
    out: Seq<CtValueView>,
    fuel: usize,
) -> Result<(Seq<CtValueView>, usize), ComptimeErrorView>
    decreases args, (args.len() - i) as nat,
{
    if i >= args.len() {
        Ok((out, fuel))
    } else {
        let arg = args[i as int];
        match resolved_arg(decl, arg, consts, cx, fuel, 4294967295) {
            Ok(taken) => {
                let (value, rest) = taken;
                let out = out.push(value);
                let fuel = rest;
                values_of_pack(args, decl, consts, cx, i + 1, out, fuel)
            },
            Err(error) => Err(error.error),
        }
    }
}

/// See [`values_of_pack`].
pub fn pack_values(
    args: &Vec<ParamArg>,
    decl: &ParamDecl,
    consts: &Vec<(String, CtValue)>,
    cx: &CtContext,
    start: usize,
) -> (r: Result<(Vec<CtValue>, usize), ComptimeError>)
    ensures
        (
            match r { Ok(v) => Ok((ct_value_list_view(v.0@), v.1)), Err(v) => Err(v@) }
        ) == values_of_pack(
            param_arg_list_view(args@),
            decl@,
            binding_list_view(consts@),
            cx@,
            0,
            Seq::<CtValueView>::empty(),
            start,
        ),
    decreases args@, 0nat,
{
    let mut out: Vec<CtValue> = Vec::new();
    assert(ct_value_list_view(out@) =~= Seq::<CtValueView>::empty());
    let mut fuel: usize = start;
    let ghost goal = values_of_pack(
        param_arg_list_view(args@),
        decl@,
        binding_list_view(consts@),
        cx@,
        0,
        Seq::<CtValueView>::empty(),
        start,
    );
    let mut i: usize = 0;
    while i < args.len()
        invariant
            i <= args@.len(),
            param_arg_list_view(args@).len() == args@.len(),
            values_of_pack(
                param_arg_list_view(args@),
                decl@,
                binding_list_view(consts@),
                cx@,
                i as nat,
                ct_value_list_view(out@),
                fuel,
            ) == goal,
            goal == values_of_pack(
                param_arg_list_view(args@),
                decl@,
                binding_list_view(consts@),
                cx@,
                0,
                Seq::<CtValueView>::empty(),
                start,
            ),
        decreases args@.len() - i,
    {
        let arg = &args[i];
        assert(param_arg_list_view(args@)[i as int] == arg@);
        let (value, rest) = match resolve_ct_arg(decl, arg, consts, cx, fuel, 4294967295) {
            Ok(done) => done,
            Err(error) => {
                return Err(error.error);
            },
        };
        let ghost before = ct_value_list_view(out@);
        let ghost added = value@;
        out.push(value);
        assert(ct_value_list_view(out@) =~= before.push(added));
        fuel = rest;
        i = i + 1;
    }
    Ok((out, fuel))
}

#[verifier::opaque]
pub open spec fn in_pack(values: Seq<CtValueView>) -> SpecArgsView {
    let pack = CtValueView::Tuple(values);
    let vals = seq![pack];
    SpecArgsView { vals, kept: Seq::empty() }
}

/// See [`in_pack`].
pub fn packed(values: Vec<CtValue>) -> (r: SpecArgs)
    ensures
        r@ == in_pack(ct_value_list_view(values@)),
{
    proof { reveal(in_pack); }
    let value = CtValue::Tuple(values);
    proof { unfold_ct_value(value); }
    let pack = value;
    let ghost seen = pack@;
    let list = vec![pack];
    assert(ct_value_list_view(list@) =~= seq![seen]);
    let vals = list;
    let list2: Vec<ParamArg> = Vec::new();
    assert(param_arg_list_view(list2@) =~= Seq::<ParamArgView>::empty());
    let args = SpecArgs { vals, kept: list2 };
    proof { unfold_spec_args(args); }
    args
}

/// A pack of types: as written, or as evident from the arguments.
#[verifier::opaque]
pub open spec fn pack_of_types(
    param_args: Seq<ParamArgView>,
    args: Seq<ExprView>,
    consts: Seq<(Seq<char>, CtValueView)>,
    cx: CtContextView,
    fuel: usize,
) -> Result<(SpecArgsView, usize), ComptimeErrorView> {
    if param_args.len() == 0 {
        match evident_types(args, 0, Seq::empty()) {
            Ok(out) => {
                let types = out;
                Ok((in_pack(values_of_types(types, 0, Seq::empty())), fuel))
            },
            Err(error) => Err(error),
        }
    } else {
        match types_of_param_args(param_args, consts, cx, 0, Seq::empty(), fuel) {
            Ok(out) => {
                let (types, fuel) = out;
                Ok((in_pack(values_of_types(types, 0, Seq::empty())), fuel))
            },
            Err(error) => Err(error),
        }
    }
}

/// See [`pack_of_types`].
pub fn type_pack(
    param_args: &Vec<ParamArg>,
    args: &Vec<Expr>,
    consts: &Vec<(String, CtValue)>,
    cx: &CtContext,
    fuel: usize,
) -> (r: Result<(SpecArgs, usize), ComptimeError>)
    ensures
        (match r { Ok(v) => Ok((v.0@, v.1)), Err(v) => Err(v@) }) == pack_of_types(
            param_arg_list_view(param_args@),
            expr_list_view(args@),
            binding_list_view(consts@),
            cx@,
            fuel,
        ),
{
    proof { reveal(pack_of_types); }
    if param_args.len() == 0 {
        let types = match infer_types(args) {
            Ok(done) => done,
            Err(error) => {
                return Err(error);
            },
        };
        Ok((packed(type_values(&types)), fuel))
    } else {
        let (types, fuel) = match param_arg_types(param_args, consts, cx, fuel) {
            Ok(done) => done,
            Err(error) => {
                return Err(error);
            },
        };
        Ok((packed(type_values(&types)), fuel))
    }
}

/// Whether the parameters from a place on all have a default value.
pub open spec fn defaulted_from(
    decls: Seq<ParamDeclView>,
    from: usize,
    i: nat,
    k: usize,
) -> bool
    decreases decls, (decls.len() - i) as nat,
{
    if i >= decls.len() {
        true
    } else {
        let decl = decls[i as int];
        if k >= from && !decl_defaulted(decl) {
            false
        } else {
            let k = following_index(k);
            defaulted_from(decls, from, i + 1, k)
        }
    }
}

/// See [`defaulted_from`].
pub fn defaults_from(decls: &Vec<ParamDecl>, from: usize) -> (r: bool)
    ensures
        r == defaulted_from(param_decl_list_view(decls@), from, 0, 0),
    decreases decls@, 0nat,
{
    let mut k: usize = 0;
    let ghost goal = defaulted_from(param_decl_list_view(decls@), from, 0, 0);
    let mut i: usize = 0;
    while i < decls.len()
        invariant
            i <= decls@.len(),
            param_decl_list_view(decls@).len() == decls@.len(),
            defaulted_from(param_decl_list_view(decls@), from, i as nat, k) == goal,
            goal == defaulted_from(param_decl_list_view(decls@), from, 0, 0),
        decreases decls@.len() - i,
    {
        let decl = &decls[i];
        assert(param_decl_list_view(decls@)[i as int] == decl@);
        if k >= from && !has_default(decl) {
            return false;
        }
        k = next_index(k);
        i = i + 1;
    }
    true
}

#[verifier::opaque]
pub open spec fn decl_defaulted(decl: ParamDeclView) -> bool {
    match decl {
        ParamDeclView::Value { default, .. } => default is Some,
        _ => false,
    }
}

/// See [`decl_defaulted`].
pub fn has_default(decl: &ParamDecl) -> (r: bool)
    ensures
        r == decl_defaulted(decl@),
{
    proof { reveal(decl_defaulted); }
    proof { unfold_param_decl(*decl); }
    match decl {
        ParamDecl::Value { default, .. } => default.is_some(),
        _ => {
            assert(!(decl@ is Value));
            false
        },
    }
}

/// The value of one compile-time argument of a call; a type also stays an argument.
#[verifier::opaque]
pub open spec fn arg_of_spec(
    decl: ParamDeclView,
    arg: ParamArgView,
    consts: Seq<(Seq<char>, CtValueView)>,
    cx: CtContextView,
    fuel: usize,
) -> Result<(CtValueView, usize), ComptimeErrorView> {
    match decl {
        ParamDeclView::Value { .. } => match resolved_arg(decl, arg, consts, cx, fuel, 4294967295) {
            Ok(out) => {
                let (value, fuel) = out;
                Ok((value, fuel))
            },
            Err(error) => Err(error.error),
        },
        ParamDeclView::Type { .. } => match type_of_param_arg(arg, consts, cx, fuel, 4294967295) {
            Ok(out) => {
                let (ty, fuel) = out;
                Ok((CtValueView::Type(Box::new(ty)), fuel))
            },
            Err(error) => Err(error.error),
        },
    }
}

/// See [`arg_of_spec`].
pub fn spec_arg(
    decl: &ParamDecl,
    arg: &ParamArg,
    consts: &Vec<(String, CtValue)>,
    cx: &CtContext,
    fuel: usize,
) -> (r: Result<(CtValue, usize), ComptimeError>)
    ensures
        (
            match r { Ok(v) => Ok((v.0@, v.1)), Err(v) => Err(v@) }
        ) == arg_of_spec(decl@, arg@, binding_list_view(consts@), cx@, fuel),
{
    proof { reveal(arg_of_spec); }
    proof { unfold_param_decl(*decl); }
    match decl {
        ParamDecl::Value { .. } => {
            let (value, fuel) = match resolve_ct_arg(decl, arg, consts, cx, fuel, 4294967295) {
                Ok(done) => done,
                Err(error) => {
                    return Err(error.error);
                },
            };
            Ok((value, fuel))
        },
        ParamDecl::Type { .. } => {
            let (ty, fuel) = match param_arg_type(arg, consts, cx, fuel, 4294967295) {
                Ok(done) => done,
                Err(error) => {
                    return Err(error.error);
                },
            };
            let value2 = CtValue::Type(Box::new(ty));
            proof { unfold_ct_value(value2); }
            Ok((value2, fuel))
        },
    }
}

pub open spec fn args_of_spec(
    args: Seq<ParamArgView>,
    decls: Seq<ParamDeclView>,
    consts: Seq<(Seq<char>, CtValueView)>,
    cx: CtContextView,
    i: nat,
    vals: Seq<CtValueView>,
    kept: Seq<ParamArgView>,
    fuel: usize,
    k: usize,
) -> Result<(SpecArgsView, usize), ComptimeErrorView>
    decreases args, (args.len() - i) as nat,
{
    if i >= args.len() {
        Ok((SpecArgsView { vals, kept }, fuel))
    } else {
        let arg = args[i as int];
        if k >= decls.len() {
            Ok((SpecArgsView { vals, kept }, fuel))
        } else {
            match arg_of_spec(decls[k as int], arg, consts, cx, fuel) {
                Ok(out) => {
                    let (value, rest) = out;
                    let vals = vals.push(value);
                    let fuel = rest;
                    let kept = if (decls[k as int] matches ParamDeclView::Type { .. }) {
                        let kept = kept.push(arg);
                        kept
                    } else {
                        kept
                    };
                    let k = following_index(k);
                    args_of_spec(args, decls, consts, cx, i + 1, vals, kept, fuel, k)
                },
                Err(error) => Err(error),
            }
        }
    }
}

/// See [`args_of_spec`].
pub fn spec_args(
    args: &Vec<ParamArg>,
    decls: &Vec<ParamDecl>,
    consts: &Vec<(String, CtValue)>,
    cx: &CtContext,
    start: usize,
) -> (r: Result<(SpecArgs, usize), ComptimeError>)
    ensures
        (match r { Ok(v) => Ok((v.0@, v.1)), Err(v) => Err(v@) }) == args_of_spec(
            param_arg_list_view(args@),
            param_decl_list_view(decls@),
            binding_list_view(consts@),
            cx@,
            0,
            Seq::<CtValueView>::empty(),
            Seq::<ParamArgView>::empty(),
            start,
            0,
        ),
    decreases args@, 0nat,
{
    let mut vals: Vec<CtValue> = Vec::new();
    assert(ct_value_list_view(vals@) =~= Seq::<CtValueView>::empty());
    let mut kept: Vec<ParamArg> = Vec::new();
    assert(param_arg_list_view(kept@) =~= Seq::<ParamArgView>::empty());
    let mut fuel: usize = start;
    let mut k: usize = 0;
    let ghost goal = args_of_spec(
        param_arg_list_view(args@),
        param_decl_list_view(decls@),
        binding_list_view(consts@),
        cx@,
        0,
        Seq::<CtValueView>::empty(),
        Seq::<ParamArgView>::empty(),
        start,
        0,
    );
    let mut i: usize = 0;
    while i < args.len()
        invariant
            i <= args@.len(),
            param_arg_list_view(args@).len() == args@.len(),
            args_of_spec(
                param_arg_list_view(args@),
                param_decl_list_view(decls@),
                binding_list_view(consts@),
                cx@,
                i as nat,
                ct_value_list_view(vals@),
                param_arg_list_view(kept@),
                fuel,
                k,
            ) == goal,
            goal == args_of_spec(
                param_arg_list_view(args@),
                param_decl_list_view(decls@),
                binding_list_view(consts@),
                cx@,
                0,
                Seq::<CtValueView>::empty(),
                Seq::<ParamArgView>::empty(),
                start,
                0,
            ),
        decreases args@.len() - i,
    {
        let arg = &args[i];
        assert(param_arg_list_view(args@)[i as int] == arg@);
        if k >= decls.len() {
            let args2 = SpecArgs { vals, kept };
            proof { unfold_spec_args(args2); }
            return Ok((args2, fuel));
        }
        let (value, rest) = match spec_arg(&decls[k], arg, consts, cx, fuel) {
            Ok(done) => done,
            Err(error) => {
                return Err(error);
            },
        };
        let ghost before = ct_value_list_view(vals@);
        let ghost added = value@;
        vals.push(value);
        assert(ct_value_list_view(vals@) =~= before.push(added));
        fuel = rest;
        if matches!(&decls[k], ParamDecl::Type { .. }) {
            let item = clone_param_arg(arg);
            let ghost before2 = param_arg_list_view(kept@);
            let ghost added2 = item@;
            kept.push(item);
            assert(param_arg_list_view(kept@) =~= before2.push(added2));
        }
        k = next_index(k);
        i = i + 1;
    }
    let args3 = SpecArgs { vals, kept };
    proof { unfold_spec_args(args3); }
    Ok((args3, fuel))
}

/// The values so far under the names of their parameters, types left out.
pub open spec fn scope_of_defaults(
    vals: Seq<CtValueView>,
    decls: Seq<ParamDeclView>,
    i: nat,
    out: Seq<(Seq<char>, CtValueView)>,
    k: usize,
) -> Seq<(Seq<char>, CtValueView)>
    decreases vals, (vals.len() - i) as nat,
{
    if i >= vals.len() {
        out
    } else {
        let value = vals[i as int];
        if k >= decls.len() {
            out
        } else {
            let out = if !((value matches CtValueView::Type(_))) {
                let out = out.push((without_stars(name_of_decl(decls[k as int])), value));
                out
            } else {
                out
            };
            let k = following_index(k);
            scope_of_defaults(vals, decls, i + 1, out, k)
        }
    }
}

/// See [`scope_of_defaults`].
pub fn default_scope(vals: &Vec<CtValue>, decls: &Vec<ParamDecl>) -> (r: Vec<(String, CtValue)>)
    ensures
        binding_list_view(r@) == scope_of_defaults(
            ct_value_list_view(vals@),
            param_decl_list_view(decls@),
            0,
            Seq::<(Seq<char>, CtValueView)>::empty(),
            0,
        ),
    decreases vals@, 0nat,
{
    let mut out: Vec<(String, CtValue)> = Vec::new();
    assert(binding_list_view(out@) =~= Seq::<(Seq<char>, CtValueView)>::empty());
    let mut k: usize = 0;
    let ghost goal = scope_of_defaults(
        ct_value_list_view(vals@),
        param_decl_list_view(decls@),
        0,
        Seq::<(Seq<char>, CtValueView)>::empty(),
        0,
    );
    let mut i: usize = 0;
    while i < vals.len()
        invariant
            i <= vals@.len(),
            ct_value_list_view(vals@).len() == vals@.len(),
            scope_of_defaults(
                ct_value_list_view(vals@),
                param_decl_list_view(decls@),
                i as nat,
                binding_list_view(out@),
                k,
            ) == goal,
            goal == scope_of_defaults(
                ct_value_list_view(vals@),
                param_decl_list_view(decls@),
                0,
                Seq::<(Seq<char>, CtValueView)>::empty(),
                0,
            ),
        decreases vals@.len() - i,
    {
        let value = &vals[i];
        assert(ct_value_list_view(vals@)[i as int] == value@);
        if k >= decls.len() {
            return out;
        }
        if !matches!(value, CtValue::Type(_)) {
            let item = (trim_stars(&decl_name(&decls[k])), clone_ct_value(value));
            let ghost before = binding_list_view(out@);
            let ghost added = (item.0@, item.1@);
            out.push(item);
            assert(binding_list_view(out@) =~= before.push(added));
        }
        k = next_index(k);
        i = i + 1;
    }
    out
}

#[verifier::opaque]
pub open spec fn decl_default(
    decl: ParamDeclView,
    scope: Seq<(Seq<char>, CtValueView)>,
) -> Result<CtValueView, ComptimeErrorView> {
    let value = match decl {
        ParamDeclView::Value { default, .. } => match default {
            Some(default) => ct_eval(default, scope),
            None => None,
        },
        _ => None,
    };
    match value {
        Some(value) => Ok(value),
        None => Err(no_comptime("cannot evaluate default for parameter '"@ + name_of_decl(decl) + "'"@)),
    }
}

/// See [`decl_default`].
pub fn default_of(
    decl: &ParamDecl,
    scope: &Vec<(String, CtValue)>,
) -> (r: Result<CtValue, ComptimeError>)
    ensures
        (
            match r { Ok(v) => Ok(v@), Err(v) => Err(v@) }
        ) == decl_default(decl@, binding_list_view(scope@)),
{
    proof { reveal(decl_default); }
    proof { unfold_param_decl(*decl); }
    let value = match decl {
        ParamDecl::Value { default, .. } => {
            match default {
                Some(default) => default_value(default, scope),
                None => None,
            }
        },
        _ => {
            assert(!(decl@ is Value));
            None
        },
    };
    match value {
        Some(value) => Ok(value),
        None => Err(not_comptime(cat3("cannot evaluate default for parameter '", decl_name(decl).as_str(), "'"))),
    }
}

/// The values of the parameters without argument, each seeing those before it.
pub open spec fn and_defaults(
    decls: Seq<ParamDeclView>,
    from: usize,
    i: nat,
    vals: Seq<CtValueView>,
    k: usize,
) -> Result<Seq<CtValueView>, ComptimeErrorView>
    decreases decls, (decls.len() - i) as nat,
{
    if i >= decls.len() {
        Ok(vals)
    } else {
        let decl = decls[i as int];
        match and_default(vals, decl, decls, k >= from) {
            Ok(out) => {
                let more = out;
                let vals = more;
                let k = following_index(k);
                and_defaults(decls, from, i + 1, vals, k)
            },
            Err(error) => Err(error),
        }
    }
}

/// See [`and_defaults`].
pub fn with_defaults(
    decls: &Vec<ParamDecl>,
    found: Vec<CtValue>,
    from: usize,
) -> (r: Result<Vec<CtValue>, ComptimeError>)
    ensures
        (match r { Ok(v) => Ok(ct_value_list_view(v@)), Err(v) => Err(v@) }) == and_defaults(
            param_decl_list_view(decls@),
            from,
            0,
            ct_value_list_view(found@),
            0,
        ),
    decreases decls@, 0nat,
{
    let mut vals: Vec<CtValue> = found;
    let mut k: usize = 0;
    let ghost goal = and_defaults(
        param_decl_list_view(decls@),
        from,
        0,
        ct_value_list_view(found@),
        0,
    );
    let mut i: usize = 0;
    while i < decls.len()
        invariant
            i <= decls@.len(),
            param_decl_list_view(decls@).len() == decls@.len(),
            and_defaults(
                param_decl_list_view(decls@),
                from,
                i as nat,
                ct_value_list_view(vals@),
                k,
            ) == goal,
            goal == and_defaults(
                param_decl_list_view(decls@),
                from,
                0,
                ct_value_list_view(found@),
                0,
            ),
        decreases decls@.len() - i,
    {
        let decl = &decls[i];
        assert(param_decl_list_view(decls@)[i as int] == decl@);
        let more = match with_default(vals, decl, decls, k >= from) {
            Ok(done) => done,
            Err(error) => {
                return Err(error);
            },
        };
        vals = more;
        k = next_index(k);
        i = i + 1;
    }
    Ok(vals)
}

#[verifier::opaque]
pub open spec fn and_default(
    vals: Seq<CtValueView>,
    decl: ParamDeclView,
    decls: Seq<ParamDeclView>,
    missing: bool,
) -> Result<Seq<CtValueView>, ComptimeErrorView> {
    if missing {
        let scope = scope_of_defaults(vals, decls, 0, Seq::empty(), 0);
        match decl_default(decl, scope) {
            Ok(out) => {
                let value = out;
                let out = vals;
                let out = out.push(value);
                Ok(out)
            },
            Err(error) => Err(error),
        }
    } else {
        Ok(vals)
    }
}

/// See [`and_default`].
pub fn with_default(
    vals: Vec<CtValue>,
    decl: &ParamDecl,
    decls: &Vec<ParamDecl>,
    missing: bool,
) -> (r: Result<Vec<CtValue>, ComptimeError>)
    ensures
        (match r { Ok(v) => Ok(ct_value_list_view(v@)), Err(v) => Err(v@) }) == and_default(
            ct_value_list_view(vals@),
            decl@,
            param_decl_list_view(decls@),
            missing,
        ),
{
    proof { reveal(and_default); }
    if missing {
        let scope = default_scope(&vals, decls);
        let value = match default_of(decl, &scope) {
            Ok(done) => done,
            Err(error) => {
                return Err(error);
            },
        };
        let mut out = vals;
        let ghost before = ct_value_list_view(out@);
        let ghost added = value@;
        out.push(value);
        assert(ct_value_list_view(out@) =~= before.push(added));
        Ok(out)
    } else {
        Ok(vals)
    }
}

/// The compile-time arguments of a call of a template: their values, and those that
/// stay because the specialization is generic in them.
#[verifier::opaque]
pub open spec fn resolved_spec(
    name: Seq<char>,
    decls: Seq<ParamDeclView>,
    param_args: Seq<ParamArgView>,
    args: Seq<ExprView>,
    consts: Seq<(Seq<char>, CtValueView)>,
    cx: CtContextView,
    fuel: usize,
) -> Result<(SpecArgsView, usize), ComptimeErrorView> {
    if decls.len() == 1 && one_value_pack(decls) {
        match values_of_pack(param_args, decls[0], consts, cx, 0, Seq::empty(), fuel) {
            Ok(out) => {
                let (values, fuel) = out;
                Ok((in_pack(values), fuel))
            },
            Err(error) => Err(error),
        }
    } else if one_type_pack(decls) {
        pack_of_types(param_args, args, consts, cx, fuel)
    } else if param_args.len() > decls.len() || !defaulted_from(
        decls,
        param_args.len() as usize,
        0,
        0,
    ) {
        Err(
            ComptimeErrorView::Arity(
                "generic '"@ + name + "' must be called with "@ + decimal(decls.len() as usize as nat) + " explicit argument(s), got "@ + decimal(
                    param_args.len() as usize as nat
                )
            )
        )
    } else {
        match args_of_spec(param_args, decls, consts, cx, 0, Seq::empty(), Seq::empty(), fuel, 0) {
            Ok(out) => {
                let (found, fuel) = out;
                match and_defaults(decls, param_args.len() as usize, 0, found.vals, 0) {
                    Ok(out) => {
                        let vals = out;
                        Ok((SpecArgsView { vals, kept: found.kept }, fuel))
                    },
                    Err(error) => Err(error),
                }
            },
            Err(error) => Err(error),
        }
    }
}

/// See [`resolved_spec`].
pub fn resolve_spec_args(
    name: &String,
    decls: &Vec<ParamDecl>,
    param_args: &Vec<ParamArg>,
    args: &Vec<Expr>,
    consts: &Vec<(String, CtValue)>,
    cx: &CtContext,
    fuel: usize,
) -> (r: Result<(SpecArgs, usize), ComptimeError>)
    ensures
        (match r { Ok(v) => Ok((v.0@, v.1)), Err(v) => Err(v@) }) == resolved_spec(
            name@,
            param_decl_list_view(decls@),
            param_arg_list_view(param_args@),
            expr_list_view(args@),
            binding_list_view(consts@),
            cx@,
            fuel,
        ),
{
    proof { reveal(resolved_spec); }
    if decls.len() == 1 && is_value_pack(decls) {
        let (values, fuel) = match pack_values(param_args, &decls[0], consts, cx, fuel) {
            Ok(done) => done,
            Err(error) => {
                return Err(error);
            },
        };
        Ok((packed(values), fuel))
    } else if is_type_pack(decls) {
        type_pack(param_args, args, consts, cx, fuel)
    } else if param_args.len() > decls.len() || !defaults_from(decls, param_args.len()) {
        Err(
            ComptimeError::Arity(
                cat6(
                    "generic '",
                    name.as_str(),
                    "' must be called with ",
                    show_usize(decls.len()).as_str(),
                    " explicit argument(s), got ",
                    show_usize(param_args.len()).as_str(),
                )
            )
        )
    } else {
        let (found, fuel) = match spec_args(param_args, decls, consts, cx, fuel) {
            Ok(done) => done,
            Err(error) => {
                return Err(error);
            },
        };
        let vals = match with_defaults(decls, found.vals, param_args.len()) {
            Ok(done) => done,
            Err(error) => {
                return Err(error);
            },
        };
        let args2 = SpecArgs { vals, kept: found.kept };
        proof { unfold_spec_args(args2); }
        Ok((args2, fuel))
    }
}

#[verifier::opaque]
pub open spec fn one_value_pack(decls: Seq<ParamDeclView>) -> bool {
    if decls.len() == 1 {
        match decls[0] {
            ParamDeclView::Value { variadic, .. } => variadic,
            _ => false,
        }
    } else {
        false
    }
}

/// See [`one_value_pack`].
pub fn is_value_pack(decls: &Vec<ParamDecl>) -> (r: bool)
    ensures
        r == one_value_pack(param_decl_list_view(decls@)),
{
    proof { reveal(one_value_pack); }
    if decls.len() == 1 {
        proof { unfold_param_decl(decls[0]); }
        match &decls[0] {
            ParamDecl::Value { variadic, .. } => *variadic,
            _ => {
                assert(!(decls[0]@ is Value));
                false
            },
        }
    } else {
        false
    }
}

#[verifier::opaque]
pub open spec fn one_type_pack(decls: Seq<ParamDeclView>) -> bool {
    if decls.len() == 1 {
        match decls[0] {
            ParamDeclView::Type { name, .. } => begins_with_star(name),
            _ => false,
        }
    } else {
        false
    }
}

/// See [`one_type_pack`].
pub fn is_type_pack(decls: &Vec<ParamDecl>) -> (r: bool)
    ensures
        r == one_type_pack(param_decl_list_view(decls@)),
{
    proof { reveal(one_type_pack); }
    if decls.len() == 1 {
        proof { unfold_param_decl(decls[0]); }
        match &decls[0] {
            ParamDecl::Type { name, .. } => starts_with_star(name),
            _ => {
                assert(!(decls[0]@ is Type));
                false
            },
        }
    } else {
        false
    }
}

/// Where an expression stands, for messages.
#[verifier::opaque]
pub open spec fn expr_site(expr: ExprView) -> Seq<char> {
    match expr.source {
        Some(source) => source + ":"@ + decimal(expr.span.0 as nat) + ".."@ + decimal(expr.span.1 as nat),
        None => decimal(expr.span.0 as nat) + ".."@ + decimal(expr.span.1 as nat),
    }
}

/// See [`expr_site`].
pub fn site_of(expr: &Expr) -> (r: String)
    ensures
        r@ == expr_site(expr@),
{
    proof { reveal(expr_site); }
    match &expr.source {
        Some(source) => cat5(
            source.as_str(),
            ":",
            show_usize(expr.span.0).as_str(),
            "..",
            show_usize(expr.span.1).as_str(),
        ),
        None => cat3(show_usize(expr.span.0).as_str(), "..", show_usize(expr.span.1).as_str()),
    }
}

/// A specialization is asked for once.
#[verifier::opaque]
pub open spec fn asked(
    mono: MonoView,
    mangled_name: Seq<char>,
    name: Seq<char>,
    vals: Seq<CtValueView>,
    site: Seq<char>,
    fuel: usize,
) -> MonoView {
    if mono.done.contains(mangled_name) {
        MonoView { fuel, queue: mono.queue, done: mono.done }
    } else {
        let queue = mono.queue;
        let queue = queue.push(JobView { orig: name, vals, site });
        let done = mono.done;
        let done = done.push(mangled_name);
        MonoView { fuel, queue, done }
    }
}

/// See [`asked`].
pub fn ask(
    mono: Mono,
    mangled_name: &String,
    name: &String,
    vals: Vec<CtValue>,
    site: &String,
    fuel: usize,
) -> (r: Mono)
    ensures
        r@ == asked(mono@, mangled_name@, name@, ct_value_list_view(vals@), site@, fuel),
{
    proof { reveal(asked); }
    if contains_name(&mono.done, mangled_name) {
        let mono2 = Mono { fuel, queue: mono.queue, done: mono.done };
        proof { unfold_mono(mono2); }
        mono2
    } else {
        let mut queue = mono.queue;
        let job = Job { orig: name.clone(), vals, site: site.clone() };
        proof { unfold_job(job); }
        let ghost before = job_list_view(queue@);
        let ghost added = job@;
        queue.push(job);
        assert(job_list_view(queue@) =~= before.push(added));
        let mut done = mono.done;
        let item = mangled_name.clone();
        let ghost before2 = string_list_view(done@);
        let ghost added2 = item@;
        done.push(item);
        assert(string_list_view(done@) =~= before2.push(added2));
        let mono3 = Mono { fuel, queue, done };
        proof { unfold_mono(mono3); }
        mono3
    }
}

/// A call. One of a template goes to the specialization for its arguments.
#[verifier::opaque]
pub open spec fn call_specialized(
    name: Seq<char>,
    param_args: Seq<ParamArgView>,
    args: Seq<ExprView>,
    kwargs: Seq<KwArgView>,
    site: Seq<char>,
    consts: Seq<(Seq<char>, CtValueView)>,
    cx: CtContextView,
    mono: MonoView,
) -> Result<(ExprKindView, MonoView), ComptimeErrorView> {
    match template_named(cx.templates, name, 0, None) {
        Some(template) => match decls_of_template(template) {
            Ok(out) => {
                let decls = out;
                match resolved_spec(name, decls, param_args, args, consts, cx, mono.fuel) {
                    Ok(out) => {
                        let (found, fuel) = out;
                        let special = mangled(found.vals, 0, name);
                        let mono = asked(mono, special, name, found.vals, site, fuel);
                        Ok(
                            (
                                ExprKindView::Call {
                                    name: special,
                                    param_args: found.kept,
                                    args,
                                    kwargs,
                                },
                                mono,
                            )
                        )
                    },
                    Err(error) => Err(error),
                }
            },
            Err(error) => Err(error),
        },
        None => Ok((ExprKindView::Call { name, param_args, args, kwargs }, mono)),
    }
}

/// See [`call_specialized`].
pub fn specialized_call(
    name: &String,
    param_args: &Vec<ParamArg>,
    args: Vec<Expr>,
    kwargs: Vec<KwArg>,
    site: &String,
    consts: &Vec<(String, CtValue)>,
    cx: &CtContext,
    mono: Mono,
) -> (r: Result<(ExprKind, Mono), ComptimeError>)
    ensures
        (match r { Ok(v) => Ok((v.0@, v.1@)), Err(v) => Err(v@) }) == call_specialized(
            name@,
            param_arg_list_view(param_args@),
            expr_list_view(args@),
            kw_arg_list_view(kwargs@),
            site@,
            binding_list_view(consts@),
            cx@,
            mono@,
        ),
{
    proof { reveal(call_specialized); }
    match find_template(&cx.templates, name) {
        Some(template) => {
            let decls = match template_decls(&template) {
                Ok(done) => done,
                Err(error) => {
                    return Err(error);
                },
            };
            let (found, fuel) = match resolve_spec_args(
                name,
                &decls,
                param_args,
                &args,
                consts,
                cx,
                mono.fuel,
            ) {
                Ok(done) => done,
                Err(error) => {
                    return Err(error);
                },
            };
            let special = mangle(&found.vals, name.clone());
            let mono = ask(mono, &special, name, found.vals, site, fuel);
            let kind = ExprKind::Call { name: special, param_args: found.kept, args, kwargs };
            proof { unfold_expr_kind(kind); }
            Ok((kind, mono))
        },
        None => {
            let kind2 = ExprKind::Call {
                name: name.clone(),
                param_args: clone_param_arg_list(param_args),
                args,
                kwargs,
            };
            proof { unfold_expr_kind(kind2); }
            Ok((kind2, mono))
        },
    }
}

/// An expression whose calls of templates go to specializations, which are asked for.
pub open spec fn specialized_expr(
    expr: ExprView,
    consts: Seq<(Seq<char>, CtValueView)>,
    cx: CtContextView,
    mono: MonoView,
) -> Result<(ExprView, MonoView), ComptimeErrorView>
    decreases expr, 0nat,
{
    let site = expr_site(expr);
    match specialized_expr_kind(expr.kind, site, consts, cx, mono) {
        Ok(out) => {
            let (kind, mono) = out;
            Ok((ExprView { kind, span: expr.span, source: expr.source }, mono))
        },
        Err(error) => Err(error),
    }
}

/// See [`specialized_expr`].
pub fn mono_expr(
    expr: &Expr,
    consts: &Vec<(String, CtValue)>,
    cx: &CtContext,
    mono: Mono,
) -> (r: Result<(Expr, Mono), ComptimeError>)
    ensures
        (
            match r { Ok(v) => Ok((v.0@, v.1@)), Err(v) => Err(v@) }
        ) == specialized_expr(expr@, binding_list_view(consts@), cx@, mono@),
    decreases expr, 0nat,
{
    let site = site_of(expr);
    let (kind, mono) = match mono_expr_kind(&expr.kind, &site, consts, cx, mono) {
        Ok(done) => done,
        Err(error) => {
            return Err(error);
        },
    };
    Ok(
        (
            Expr {
                kind,
                span: expr.span,
                source: (match (&expr.source) { Some(y) => Some(y.clone()), None => None }),
            },
            mono,
        )
    )
}

pub open spec fn specialized_comprehension_clause(
    comprehension_clause: ComprehensionClauseView,
    consts: Seq<(Seq<char>, CtValueView)>,
    cx: CtContextView,
    mono: MonoView,
) -> Result<(ComprehensionClauseView, MonoView), ComptimeErrorView>
    decreases comprehension_clause, 0nat,
{
    match comprehension_clause {
        ComprehensionClauseView::For { var, owned, iter } => match specialized_expr(
            *iter,
            consts,
            cx,
            mono,
        ) {
            Ok(out) => {
                let (new_iter, mono) = out;
                Ok((ComprehensionClauseView::For { var, owned, iter: Box::new(new_iter) }, mono))
            },
            Err(error) => Err(error),
        },
        ComprehensionClauseView::If(a0) => match specialized_expr(*a0, consts, cx, mono) {
            Ok(out) => {
                let (new_a0, mono) = out;
                Ok((ComprehensionClauseView::If(Box::new(new_a0)), mono))
            },
            Err(error) => Err(error),
        },
    }
}

/// See [`specialized_comprehension_clause`].
pub fn mono_comprehension_clause(
    comprehension_clause: &ComprehensionClause,
    consts: &Vec<(String, CtValue)>,
    cx: &CtContext,
    mono: Mono,
) -> (r: Result<(ComprehensionClause, Mono), ComptimeError>)
    ensures
        (
            match r { Ok(v) => Ok((v.0@, v.1@)), Err(v) => Err(v@) }
        ) == specialized_comprehension_clause(
            comprehension_clause@,
            binding_list_view(consts@),
            cx@,
            mono@,
        ),
    decreases comprehension_clause, 0nat,
{
    match comprehension_clause {
        ComprehensionClause::For { var, owned, iter } => {
            let (new_iter, mono) = match mono_expr(&**iter, consts, cx, mono) {
                Ok(done) => done,
                Err(error) => {
                    return Err(error);
                },
            };
            Ok(
                (
                    ComprehensionClause::For {
                        var: var.clone(),
                        owned: *owned,
                        iter: Box::new(new_iter),
                    },
                    mono,
                )
            )
        },
        ComprehensionClause::If(a0) => {
            let (new_a0, mono) = match mono_expr(&**a0, consts, cx, mono) {
                Ok(done) => done,
                Err(error) => {
                    return Err(error);
                },
            };
            Ok((ComprehensionClause::If(Box::new(new_a0)), mono))
        },
    }
}

pub open spec fn specialized_comprehension_clause_list(
    items: Seq<ComprehensionClauseView>,
    consts: Seq<(Seq<char>, CtValueView)>,
    cx: CtContextView,
    i: nat,
    out: Seq<ComprehensionClauseView>,
    mono: MonoView,
) -> Result<(Seq<ComprehensionClauseView>, MonoView), ComptimeErrorView>
    decreases items, (items.len() - i) as nat,
{
    if i >= items.len() {
        Ok((out, mono))
    } else {
        let item = items[i as int];
        match specialized_comprehension_clause(item, consts, cx, mono) {
            Ok(taken) => {
                let (mapped, rest) = taken;
                let mono = rest;
                let out = out.push(mapped);
                specialized_comprehension_clause_list(items, consts, cx, i + 1, out, mono)
            },
            Err(error) => Err(error),
        }
    }
}

/// See [`specialized_comprehension_clause_list`].
pub fn mono_comprehension_clause_list(
    items: &Vec<ComprehensionClause>,
    consts: &Vec<(String, CtValue)>,
    cx: &CtContext,
    start: Mono,
) -> (r: Result<(Vec<ComprehensionClause>, Mono), ComptimeError>)
    ensures
        (
            match r { Ok(v) => Ok((comprehension_clause_list_view(v.0@), v.1@)), Err(v) => Err(v@) }
        ) == specialized_comprehension_clause_list(
            comprehension_clause_list_view(items@),
            binding_list_view(consts@),
            cx@,
            0,
            Seq::<ComprehensionClauseView>::empty(),
            start@,
        ),
    decreases items@, 0nat,
{
    let mut out: Vec<ComprehensionClause> = Vec::new();
    assert(comprehension_clause_list_view(out@) =~= Seq::<ComprehensionClauseView>::empty());
    let mut mono: Mono = start;
    let ghost goal = specialized_comprehension_clause_list(
        comprehension_clause_list_view(items@),
        binding_list_view(consts@),
        cx@,
        0,
        Seq::<ComprehensionClauseView>::empty(),
        start@,
    );
    let mut i: usize = 0;
    while i < items.len()
        invariant
            i <= items@.len(),
            comprehension_clause_list_view(items@).len() == items@.len(),
            specialized_comprehension_clause_list(
                comprehension_clause_list_view(items@),
                binding_list_view(consts@),
                cx@,
                i as nat,
                comprehension_clause_list_view(out@),
                mono@,
            ) == goal,
            goal == specialized_comprehension_clause_list(
                comprehension_clause_list_view(items@),
                binding_list_view(consts@),
                cx@,
                0,
                Seq::<ComprehensionClauseView>::empty(),
                start@,
            ),
        decreases items@.len() - i,
    {
        let item = &items[i];
        assert(comprehension_clause_list_view(items@)[i as int] == item@);
        let (mapped, rest) = match mono_comprehension_clause(item, consts, cx, mono) {
            Ok(done) => done,
            Err(error) => {
                return Err(error);
            },
        };
        mono = rest;
        let ghost before = comprehension_clause_list_view(out@);
        let ghost added = mapped@;
        out.push(mapped);
        assert(comprehension_clause_list_view(out@) =~= before.push(added));
        i = i + 1;
    }
    Ok((out, mono))
}

pub open spec fn specialized_opt_boxed_expr(
    value: Option<Box<ExprView>>,
    consts: Seq<(Seq<char>, CtValueView)>,
    cx: CtContextView,
    mono: MonoView,
) -> Result<(Option<Box<ExprView>>, MonoView), ComptimeErrorView>
    decreases value, 0nat,
{
    match value {
        Some(value) => match specialized_expr(*value, consts, cx, mono) {
            Ok(out) => {
                let (mapped, mono) = out;
                Ok((Some(Box::new(mapped)), mono))
            },
            Err(error) => Err(error),
        },
        None => Ok((None, mono)),
    }
}

/// See [`specialized_opt_boxed_expr`].
pub fn mono_opt_boxed_expr(
    value: &Option<Box<Expr>>,
    consts: &Vec<(String, CtValue)>,
    cx: &CtContext,
    mono: Mono,
) -> (r: Result<(Option<Box<Expr>>, Mono), ComptimeError>)
    ensures
        (
            match r {
                Ok(v) => Ok(((match v.0 { Some(v1) => Some(Box::new(v1@)), None => None }), v.1@)),
                Err(v) => Err(v@),
            }
        ) == specialized_opt_boxed_expr(
            (match value { Some(v) => Some(Box::new(v@)), None => None }),
            binding_list_view(consts@),
            cx@,
            mono@,
        ),
    decreases value, 0nat,
{
    match value {
        Some(value) => {
            let (mapped, mono) = match mono_expr(&**value, consts, cx, mono) {
                Ok(done) => done,
                Err(error) => {
                    return Err(error);
                },
            };
            Ok((Some(Box::new(mapped)), mono))
        },
        None => Ok((None, mono)),
    }
}

pub open spec fn specialized_kw_arg(
    kw_arg: KwArgView,
    consts: Seq<(Seq<char>, CtValueView)>,
    cx: CtContextView,
    mono: MonoView,
) -> Result<(KwArgView, MonoView), ComptimeErrorView>
    decreases kw_arg, 0nat,
{
    match specialized_expr(kw_arg.value, consts, cx, mono) {
        Ok(out) => {
            let (new_value, mono) = out;
            Ok((KwArgView { name: kw_arg.name, value: new_value }, mono))
        },
        Err(error) => Err(error),
    }
}

/// See [`specialized_kw_arg`].
pub fn mono_kw_arg(
    kw_arg: &KwArg,
    consts: &Vec<(String, CtValue)>,
    cx: &CtContext,
    mono: Mono,
) -> (r: Result<(KwArg, Mono), ComptimeError>)
    ensures
        (
            match r { Ok(v) => Ok((v.0@, v.1@)), Err(v) => Err(v@) }
        ) == specialized_kw_arg(kw_arg@, binding_list_view(consts@), cx@, mono@),
    decreases kw_arg, 0nat,
{
    let (new_value, mono) = match mono_expr(&kw_arg.value, consts, cx, mono) {
        Ok(done) => done,
        Err(error) => {
            return Err(error);
        },
    };
    Ok((KwArg { name: (&kw_arg.name).clone(), value: new_value }, mono))
}

pub open spec fn specialized_kw_arg_list(
    items: Seq<KwArgView>,
    consts: Seq<(Seq<char>, CtValueView)>,
    cx: CtContextView,
    i: nat,
    out: Seq<KwArgView>,
    mono: MonoView,
) -> Result<(Seq<KwArgView>, MonoView), ComptimeErrorView>
    decreases items, (items.len() - i) as nat,
{
    if i >= items.len() {
        Ok((out, mono))
    } else {
        let item = items[i as int];
        match specialized_kw_arg(item, consts, cx, mono) {
            Ok(taken) => {
                let (mapped, rest) = taken;
                let mono = rest;
                let out = out.push(mapped);
                specialized_kw_arg_list(items, consts, cx, i + 1, out, mono)
            },
            Err(error) => Err(error),
        }
    }
}

/// See [`specialized_kw_arg_list`].
pub fn mono_kw_arg_list(
    items: &Vec<KwArg>,
    consts: &Vec<(String, CtValue)>,
    cx: &CtContext,
    start: Mono,
) -> (r: Result<(Vec<KwArg>, Mono), ComptimeError>)
    ensures
        (
            match r { Ok(v) => Ok((kw_arg_list_view(v.0@), v.1@)), Err(v) => Err(v@) }
        ) == specialized_kw_arg_list(
            kw_arg_list_view(items@),
            binding_list_view(consts@),
            cx@,
            0,
            Seq::<KwArgView>::empty(),
            start@,
        ),
    decreases items@, 0nat,
{
    let mut out: Vec<KwArg> = Vec::new();
    assert(kw_arg_list_view(out@) =~= Seq::<KwArgView>::empty());
    let mut mono: Mono = start;
    let ghost goal = specialized_kw_arg_list(
        kw_arg_list_view(items@),
        binding_list_view(consts@),
        cx@,
        0,
        Seq::<KwArgView>::empty(),
        start@,
    );
    let mut i: usize = 0;
    while i < items.len()
        invariant
            i <= items@.len(),
            kw_arg_list_view(items@).len() == items@.len(),
            specialized_kw_arg_list(
                kw_arg_list_view(items@),
                binding_list_view(consts@),
                cx@,
                i as nat,
                kw_arg_list_view(out@),
                mono@,
            ) == goal,
            goal == specialized_kw_arg_list(
                kw_arg_list_view(items@),
                binding_list_view(consts@),
                cx@,
                0,
                Seq::<KwArgView>::empty(),
                start@,
            ),
        decreases items@.len() - i,
    {
        let item = &items[i];
        assert(kw_arg_list_view(items@)[i as int] == item@);
        let (mapped, rest) = match mono_kw_arg(item, consts, cx, mono) {
            Ok(done) => done,
            Err(error) => {
                return Err(error);
            },
        };
        mono = rest;
        let ghost before = kw_arg_list_view(out@);
        let ghost added = mapped@;
        out.push(mapped);
        assert(kw_arg_list_view(out@) =~= before.push(added));
        i = i + 1;
    }
    Ok((out, mono))
}

pub open spec fn specialized_expr_list(
    items: Seq<ExprView>,
    consts: Seq<(Seq<char>, CtValueView)>,
    cx: CtContextView,
    i: nat,
    out: Seq<ExprView>,
    mono: MonoView,
) -> Result<(Seq<ExprView>, MonoView), ComptimeErrorView>
    decreases items, (items.len() - i) as nat,
{
    if i >= items.len() {
        Ok((out, mono))
    } else {
        let item = items[i as int];
        match specialized_expr(item, consts, cx, mono) {
            Ok(taken) => {
                let (mapped, rest) = taken;
                let mono = rest;
                let out = out.push(mapped);
                specialized_expr_list(items, consts, cx, i + 1, out, mono)
            },
            Err(error) => Err(error),
        }
    }
}

/// See [`specialized_expr_list`].
pub fn mono_expr_list(
    items: &Vec<Expr>,
    consts: &Vec<(String, CtValue)>,
    cx: &CtContext,
    start: Mono,
) -> (r: Result<(Vec<Expr>, Mono), ComptimeError>)
    ensures
        (
            match r { Ok(v) => Ok((expr_list_view(v.0@), v.1@)), Err(v) => Err(v@) }
        ) == specialized_expr_list(
            expr_list_view(items@),
            binding_list_view(consts@),
            cx@,
            0,
            Seq::<ExprView>::empty(),
            start@,
        ),
    decreases items@, 0nat,
{
    let mut out: Vec<Expr> = Vec::new();
    assert(expr_list_view(out@) =~= Seq::<ExprView>::empty());
    let mut mono: Mono = start;
    let ghost goal = specialized_expr_list(
        expr_list_view(items@),
        binding_list_view(consts@),
        cx@,
        0,
        Seq::<ExprView>::empty(),
        start@,
    );
    let mut i: usize = 0;
    while i < items.len()
        invariant
            i <= items@.len(),
            expr_list_view(items@).len() == items@.len(),
            specialized_expr_list(
                expr_list_view(items@),
                binding_list_view(consts@),
                cx@,
                i as nat,
                expr_list_view(out@),
                mono@,
            ) == goal,
            goal == specialized_expr_list(
                expr_list_view(items@),
                binding_list_view(consts@),
                cx@,
                0,
                Seq::<ExprView>::empty(),
                start@,
            ),
        decreases items@.len() - i,
    {
        let item = &items[i];
        assert(expr_list_view(items@)[i as int] == item@);
        let (mapped, rest) = match mono_expr(item, consts, cx, mono) {
            Ok(done) => done,
            Err(error) => {
                return Err(error);
            },
        };
        mono = rest;
        let ghost before = expr_list_view(out@);
        let ghost added = mapped@;
        out.push(mapped);
        assert(expr_list_view(out@) =~= before.push(added));
        i = i + 1;
    }
    Ok((out, mono))
}

pub open spec fn specialized_subscript_arg(
    subscript_arg: SubscriptArgView,
    consts: Seq<(Seq<char>, CtValueView)>,
    cx: CtContextView,
    mono: MonoView,
) -> Result<(SubscriptArgView, MonoView), ComptimeErrorView>
    decreases subscript_arg, 0nat,
{
    match subscript_arg {
        SubscriptArgView::Index(a0) => match specialized_expr(a0, consts, cx, mono) {
            Ok(out) => {
                let (new_a0, mono) = out;
                Ok((SubscriptArgView::Index(new_a0), mono))
            },
            Err(error) => Err(error),
        },
        SubscriptArgView::Slice { lower, upper, step } => match specialized_opt_boxed_expr(
            lower,
            consts,
            cx,
            mono,
        ) {
            Ok(out) => {
                let (new_lower, mono) = out;
                match specialized_opt_boxed_expr(upper, consts, cx, mono) {
                    Ok(out) => {
                        let (new_upper, mono) = out;
                        match specialized_opt_boxed_expr(step, consts, cx, mono) {
                            Ok(out) => {
                                let (new_step, mono) = out;
                                Ok(
                                    (
                                        SubscriptArgView::Slice {
                                            lower: new_lower,
                                            upper: new_upper,
                                            step: new_step,
                                        },
                                        mono,
                                    )
                                )
                            },
                            Err(error) => Err(error),
                        }
                    },
                    Err(error) => Err(error),
                }
            },
            Err(error) => Err(error),
        },
    }
}

/// See [`specialized_subscript_arg`].
pub fn mono_subscript_arg(
    subscript_arg: &SubscriptArg,
    consts: &Vec<(String, CtValue)>,
    cx: &CtContext,
    mono: Mono,
) -> (r: Result<(SubscriptArg, Mono), ComptimeError>)
    ensures
        (match r { Ok(v) => Ok((v.0@, v.1@)), Err(v) => Err(v@) }) == specialized_subscript_arg(
            subscript_arg@,
            binding_list_view(consts@),
            cx@,
            mono@,
        ),
    decreases subscript_arg, 0nat,
{
    match subscript_arg {
        SubscriptArg::Index(a0) => {
            let (new_a0, mono) = match mono_expr(a0, consts, cx, mono) {
                Ok(done) => done,
                Err(error) => {
                    return Err(error);
                },
            };
            Ok((SubscriptArg::Index(new_a0), mono))
        },
        SubscriptArg::Slice { lower, upper, step } => {
            let (new_lower, mono) = match mono_opt_boxed_expr(lower, consts, cx, mono) {
                Ok(done) => done,
                Err(error) => {
                    return Err(error);
                },
            };
            let (new_upper, mono) = match mono_opt_boxed_expr(upper, consts, cx, mono) {
                Ok(done) => done,
                Err(error) => {
                    return Err(error);
                },
            };
            let (new_step, mono) = match mono_opt_boxed_expr(step, consts, cx, mono) {
                Ok(done) => done,
                Err(error) => {
                    return Err(error);
                },
            };
            Ok((SubscriptArg::Slice { lower: new_lower, upper: new_upper, step: new_step }, mono))
        },
    }
}

pub open spec fn specialized_subscript_arg_list(
    items: Seq<SubscriptArgView>,
    consts: Seq<(Seq<char>, CtValueView)>,
    cx: CtContextView,
    i: nat,
    out: Seq<SubscriptArgView>,
    mono: MonoView,
) -> Result<(Seq<SubscriptArgView>, MonoView), ComptimeErrorView>
    decreases items, (items.len() - i) as nat,
{
    if i >= items.len() {
        Ok((out, mono))
    } else {
        let item = items[i as int];
        match specialized_subscript_arg(item, consts, cx, mono) {
            Ok(taken) => {
                let (mapped, rest) = taken;
                let mono = rest;
                let out = out.push(mapped);
                specialized_subscript_arg_list(items, consts, cx, i + 1, out, mono)
            },
            Err(error) => Err(error),
        }
    }
}

/// See [`specialized_subscript_arg_list`].
pub fn mono_subscript_arg_list(
    items: &Vec<SubscriptArg>,
    consts: &Vec<(String, CtValue)>,
    cx: &CtContext,
    start: Mono,
) -> (r: Result<(Vec<SubscriptArg>, Mono), ComptimeError>)
    ensures
        (
            match r { Ok(v) => Ok((subscript_arg_list_view(v.0@), v.1@)), Err(v) => Err(v@) }
        ) == specialized_subscript_arg_list(
            subscript_arg_list_view(items@),
            binding_list_view(consts@),
            cx@,
            0,
            Seq::<SubscriptArgView>::empty(),
            start@,
        ),
    decreases items@, 0nat,
{
    let mut out: Vec<SubscriptArg> = Vec::new();
    assert(subscript_arg_list_view(out@) =~= Seq::<SubscriptArgView>::empty());
    let mut mono: Mono = start;
    let ghost goal = specialized_subscript_arg_list(
        subscript_arg_list_view(items@),
        binding_list_view(consts@),
        cx@,
        0,
        Seq::<SubscriptArgView>::empty(),
        start@,
    );
    let mut i: usize = 0;
    while i < items.len()
        invariant
            i <= items@.len(),
            subscript_arg_list_view(items@).len() == items@.len(),
            specialized_subscript_arg_list(
                subscript_arg_list_view(items@),
                binding_list_view(consts@),
                cx@,
                i as nat,
                subscript_arg_list_view(out@),
                mono@,
            ) == goal,
            goal == specialized_subscript_arg_list(
                subscript_arg_list_view(items@),
                binding_list_view(consts@),
                cx@,
                0,
                Seq::<SubscriptArgView>::empty(),
                start@,
            ),
        decreases items@.len() - i,
    {
        let item = &items[i];
        assert(subscript_arg_list_view(items@)[i as int] == item@);
        let (mapped, rest) = match mono_subscript_arg(item, consts, cx, mono) {
            Ok(done) => done,
            Err(error) => {
                return Err(error);
            },
        };
        mono = rest;
        let ghost before = subscript_arg_list_view(out@);
        let ghost added = mapped@;
        out.push(mapped);
        assert(subscript_arg_list_view(out@) =~= before.push(added));
        i = i + 1;
    }
    Ok((out, mono))
}

pub open spec fn specialized_comparison_list(
    items: Seq<(InfixOp, ExprView)>,
    consts: Seq<(Seq<char>, CtValueView)>,
    cx: CtContextView,
    i: nat,
    out: Seq<(InfixOp, ExprView)>,
    mono: MonoView,
) -> Result<(Seq<(InfixOp, ExprView)>, MonoView), ComptimeErrorView>
    decreases items, (items.len() - i) as nat,
{
    if i >= items.len() {
        Ok((out, mono))
    } else {
        let item = items[i as int];
        match specialized_expr(item.1, consts, cx, mono) {
            Ok(taken) => {
                let (mapped_1, rest) = taken;
                let mono = rest;
                let out = out.push((item.0, mapped_1));
                specialized_comparison_list(items, consts, cx, i + 1, out, mono)
            },
            Err(error) => Err(error),
        }
    }
}

/// See [`specialized_comparison_list`].
pub fn mono_comparison_list(
    items: &Vec<(InfixOp, Expr)>,
    consts: &Vec<(String, CtValue)>,
    cx: &CtContext,
    start: Mono,
) -> (r: Result<(Vec<(InfixOp, Expr)>, Mono), ComptimeError>)
    ensures
        (
            match r { Ok(v) => Ok((comparison_list_view(v.0@), v.1@)), Err(v) => Err(v@) }
        ) == specialized_comparison_list(
            comparison_list_view(items@),
            binding_list_view(consts@),
            cx@,
            0,
            Seq::<(InfixOp, ExprView)>::empty(),
            start@,
        ),
    decreases items@, 0nat,
{
    let mut out: Vec<(InfixOp, Expr)> = Vec::new();
    assert(comparison_list_view(out@) =~= Seq::<(InfixOp, ExprView)>::empty());
    let mut mono: Mono = start;
    let ghost goal = specialized_comparison_list(
        comparison_list_view(items@),
        binding_list_view(consts@),
        cx@,
        0,
        Seq::<(InfixOp, ExprView)>::empty(),
        start@,
    );
    let mut i: usize = 0;
    while i < items.len()
        invariant
            i <= items@.len(),
            comparison_list_view(items@).len() == items@.len(),
            specialized_comparison_list(
                comparison_list_view(items@),
                binding_list_view(consts@),
                cx@,
                i as nat,
                comparison_list_view(out@),
                mono@,
            ) == goal,
            goal == specialized_comparison_list(
                comparison_list_view(items@),
                binding_list_view(consts@),
                cx@,
                0,
                Seq::<(InfixOp, ExprView)>::empty(),
                start@,
            ),
        decreases items@.len() - i,
    {
        let item = &items[i];
        assert(comparison_list_view(items@)[i as int].1 =~= item.1@);
        let (mapped_1, rest) = match mono_expr(&item.1, consts, cx, mono) {
            Ok(done) => done,
            Err(error) => {
                return Err(error);
            },
        };
        mono = rest;
        let item2 = (item.0, mapped_1);
        let ghost before = comparison_list_view(out@);
        let ghost added = (item2.0, item2.1@);
        out.push(item2);
        assert(comparison_list_view(out@) =~= before.push(added));
        i = i + 1;
    }
    Ok((out, mono))
}

pub open spec fn specialized_opt_expr(
    value: Option<ExprView>,
    consts: Seq<(Seq<char>, CtValueView)>,
    cx: CtContextView,
    mono: MonoView,
) -> Result<(Option<ExprView>, MonoView), ComptimeErrorView>
    decreases value, 0nat,
{
    match value {
        Some(value) => match specialized_expr(value, consts, cx, mono) {
            Ok(out) => {
                let (mapped, mono) = out;
                Ok((Some(mapped), mono))
            },
            Err(error) => Err(error),
        },
        None => Ok((None, mono)),
    }
}

/// See [`specialized_opt_expr`].
pub fn mono_opt_expr(
    value: &Option<Expr>,
    consts: &Vec<(String, CtValue)>,
    cx: &CtContext,
    mono: Mono,
) -> (r: Result<(Option<Expr>, Mono), ComptimeError>)
    ensures
        (
            match r { Ok(v) => Ok((opt_view(v.0), v.1@)), Err(v) => Err(v@) }
        ) == specialized_opt_expr(opt_view(*value), binding_list_view(consts@), cx@, mono@),
    decreases value, 0nat,
{
    match value {
        Some(value) => {
            let (mapped, mono) = match mono_expr(value, consts, cx, mono) {
                Ok(done) => done,
                Err(error) => {
                    return Err(error);
                },
            };
            Ok((Some(mapped), mono))
        },
        None => Ok((None, mono)),
    }
}

pub open spec fn specialized_entry_list(
    items: Seq<(ExprView, Option<ExprView>)>,
    consts: Seq<(Seq<char>, CtValueView)>,
    cx: CtContextView,
    i: nat,
    out: Seq<(ExprView, Option<ExprView>)>,
    mono: MonoView,
) -> Result<(Seq<(ExprView, Option<ExprView>)>, MonoView), ComptimeErrorView>
    decreases items, (items.len() - i) as nat,
{
    if i >= items.len() {
        Ok((out, mono))
    } else {
        let item = items[i as int];
        match specialized_expr(item.0, consts, cx, mono) {
            Ok(taken) => {
                let (mapped_0, rest) = taken;
                let mono = rest;
                match specialized_opt_expr(item.1, consts, cx, mono) {
                    Ok(taken) => {
                        let (mapped_1, rest) = taken;
                        let mono = rest;
                        let out = out.push((mapped_0, mapped_1));
                        specialized_entry_list(items, consts, cx, i + 1, out, mono)
                    },
                    Err(error) => Err(error),
                }
            },
            Err(error) => Err(error),
        }
    }
}

/// See [`specialized_entry_list`].
pub fn mono_entry_list(
    items: &Vec<(Expr, Option<Expr>)>,
    consts: &Vec<(String, CtValue)>,
    cx: &CtContext,
    start: Mono,
) -> (r: Result<(Vec<(Expr, Option<Expr>)>, Mono), ComptimeError>)
    ensures
        (
            match r { Ok(v) => Ok((entry_list_view(v.0@), v.1@)), Err(v) => Err(v@) }
        ) == specialized_entry_list(
            entry_list_view(items@),
            binding_list_view(consts@),
            cx@,
            0,
            Seq::<(ExprView, Option<ExprView>)>::empty(),
            start@,
        ),
    decreases items@, 0nat,
{
    let mut out: Vec<(Expr, Option<Expr>)> = Vec::new();
    assert(entry_list_view(out@) =~= Seq::<(ExprView, Option<ExprView>)>::empty());
    let mut mono: Mono = start;
    let ghost goal = specialized_entry_list(
        entry_list_view(items@),
        binding_list_view(consts@),
        cx@,
        0,
        Seq::<(ExprView, Option<ExprView>)>::empty(),
        start@,
    );
    let mut i: usize = 0;
    while i < items.len()
        invariant
            i <= items@.len(),
            entry_list_view(items@).len() == items@.len(),
            specialized_entry_list(
                entry_list_view(items@),
                binding_list_view(consts@),
                cx@,
                i as nat,
                entry_list_view(out@),
                mono@,
            ) == goal,
            goal == specialized_entry_list(
                entry_list_view(items@),
                binding_list_view(consts@),
                cx@,
                0,
                Seq::<(ExprView, Option<ExprView>)>::empty(),
                start@,
            ),
        decreases items@.len() - i,
    {
        let item = &items[i];
        assert(entry_list_view(items@)[i as int].0 =~= item.0@);
        assert(entry_list_view(items@)[i as int].1 =~= opt_view(item.1));
        let (mapped_0, rest) = match mono_expr(&item.0, consts, cx, mono) {
            Ok(done) => done,
            Err(error) => {
                return Err(error);
            },
        };
        mono = rest;
        let (mapped_1, rest) = match mono_opt_expr(&item.1, consts, cx, mono) {
            Ok(done) => done,
            Err(error) => {
                return Err(error);
            },
        };
        mono = rest;
        let item2 = (mapped_0, mapped_1);
        let ghost before = entry_list_view(out@);
        let ghost added = (item2.0@, opt_view(item2.1));
        out.push(item2);
        assert(entry_list_view(out@) =~= before.push(added));
        i = i + 1;
    }
    Ok((out, mono))
}

pub open spec fn specialized_expr_kind(
    expr_kind: ExprKindView,
    site: Seq<char>,
    consts: Seq<(Seq<char>, CtValueView)>,
    cx: CtContextView,
    mono: MonoView,
) -> Result<(ExprKindView, MonoView), ComptimeErrorView>
    decreases expr_kind, 2nat,
{
    match expr_kind {
        ExprKindView::Prefix(a0, a1) => match specialized_expr(*a1, consts, cx, mono) {
            Ok(out) => {
                let (new_a1, mono) = out;
                Ok((ExprKindView::Prefix(a0, Box::new(new_a1)), mono))
            },
            Err(error) => Err(error),
        },
        ExprKindView::Transfer(a0) => match specialized_expr(*a0, consts, cx, mono) {
            Ok(out) => {
                let (new_a0, mono) = out;
                Ok((ExprKindView::Transfer(Box::new(new_a0)), mono))
            },
            Err(error) => Err(error),
        },
        ExprKindView::Spread(a0) => match specialized_expr(*a0, consts, cx, mono) {
            Ok(out) => {
                let (new_a0, mono) = out;
                Ok((ExprKindView::Spread(Box::new(new_a0)), mono))
            },
            Err(error) => Err(error),
        },
        ExprKindView::Infix(a0, a1, a2) => match specialized_expr(*a1, consts, cx, mono) {
            Ok(out) => {
                let (new_a1, mono) = out;
                match specialized_expr(*a2, consts, cx, mono) {
                    Ok(out) => {
                        let (new_a2, mono) = out;
                        Ok((ExprKindView::Infix(a0, Box::new(new_a1), Box::new(new_a2)), mono))
                    },
                    Err(error) => Err(error),
                }
            },
            Err(error) => Err(error),
        },
        ExprKindView::Compare { first, rest } => match specialized_expr(*first, consts, cx, mono) {
            Ok(out) => {
                let (new_first, mono) = out;
                match specialized_comparison_list(rest, consts, cx, 0, Seq::empty(), mono) {
                    Ok(out) => {
                        let (new_rest, mono) = out;
                        Ok(
                            (
                                ExprKindView::Compare {
                                    first: Box::new(new_first),
                                    rest: new_rest,
                                },
                                mono,
                            )
                        )
                    },
                    Err(error) => Err(error),
                }
            },
            Err(error) => Err(error),
        },
        ExprKindView::Call { name, param_args, args, kwargs } => match specialized_expr_list(
            args,
            consts,
            cx,
            0,
            Seq::empty(),
            mono,
        ) {
            Ok(out) => {
                let (new_args, mono) = out;
                match specialized_kw_arg_list(kwargs, consts, cx, 0, Seq::empty(), mono) {
                    Ok(out) => {
                        let (new_kwargs, mono) = out;
                        call_specialized(
                            name,
                            param_args,
                            new_args,
                            new_kwargs,
                            site,
                            consts,
                            cx,
                            mono,
                        )
                    },
                    Err(error) => Err(error),
                }
            },
            Err(error) => Err(error),
        },
        _ => specialized_expr_kind_more(expr_kind, site, consts, cx, mono),
    }
}

/// See [`specialized_expr_kind`].
pub fn mono_expr_kind(
    expr_kind: &ExprKind,
    site: &String,
    consts: &Vec<(String, CtValue)>,
    cx: &CtContext,
    mono: Mono,
) -> (r: Result<(ExprKind, Mono), ComptimeError>)
    ensures
        (match r { Ok(v) => Ok((v.0@, v.1@)), Err(v) => Err(v@) }) == specialized_expr_kind(
            expr_kind@,
            site@,
            binding_list_view(consts@),
            cx@,
            mono@,
        ),
    decreases expr_kind, 2nat,
{
    proof { unfold_expr_kind(*expr_kind); }
    match expr_kind {
        ExprKind::Prefix(a0, a1) => {
            let (new_a1, mono) = match mono_expr(&**a1, consts, cx, mono) {
                Ok(done) => done,
                Err(error) => {
                    return Err(error);
                },
            };
            let kind = ExprKind::Prefix(*a0, Box::new(new_a1));
            proof { unfold_expr_kind(kind); }
            Ok((kind, mono))
        },
        ExprKind::Transfer(a0) => {
            let (new_a0, mono) = match mono_expr(&**a0, consts, cx, mono) {
                Ok(done) => done,
                Err(error) => {
                    return Err(error);
                },
            };
            let kind2 = ExprKind::Transfer(Box::new(new_a0));
            proof { unfold_expr_kind(kind2); }
            Ok((kind2, mono))
        },
        ExprKind::Spread(a0) => {
            let (new_a0, mono) = match mono_expr(&**a0, consts, cx, mono) {
                Ok(done) => done,
                Err(error) => {
                    return Err(error);
                },
            };
            let kind3 = ExprKind::Spread(Box::new(new_a0));
            proof { unfold_expr_kind(kind3); }
            Ok((kind3, mono))
        },
        ExprKind::Infix(a0, a1, a2) => {
            let (new_a1, mono) = match mono_expr(&**a1, consts, cx, mono) {
                Ok(done) => done,
                Err(error) => {
                    return Err(error);
                },
            };
            let (new_a2, mono) = match mono_expr(&**a2, consts, cx, mono) {
                Ok(done) => done,
                Err(error) => {
                    return Err(error);
                },
            };
            let kind4 = ExprKind::Infix(*a0, Box::new(new_a1), Box::new(new_a2));
            proof { unfold_expr_kind(kind4); }
            Ok((kind4, mono))
        },
        ExprKind::Compare { first, rest } => {
            let (new_first, mono) = match mono_expr(&**first, consts, cx, mono) {
                Ok(done) => done,
                Err(error) => {
                    return Err(error);
                },
            };
            let (new_rest, mono) = match mono_comparison_list(rest, consts, cx, mono) {
                Ok(done) => done,
                Err(error) => {
                    return Err(error);
                },
            };
            let kind5 = ExprKind::Compare { first: Box::new(new_first), rest: new_rest };
            proof { unfold_expr_kind(kind5); }
            Ok((kind5, mono))
        },
        ExprKind::Call { name, param_args, args, kwargs } => {
            let (new_args, mono) = match mono_expr_list(args, consts, cx, mono) {
                Ok(done) => done,
                Err(error) => {
                    return Err(error);
                },
            };
            let (new_kwargs, mono) = match mono_kw_arg_list(kwargs, consts, cx, mono) {
                Ok(done) => done,
                Err(error) => {
                    return Err(error);
                },
            };
            specialized_call(name, param_args, new_args, new_kwargs, site, consts, cx, mono)
        },
        _ => {
            assert(!(expr_kind@ is Prefix));
            assert(!(expr_kind@ is Transfer));
            assert(!(expr_kind@ is Spread));
            assert(!(expr_kind@ is Infix));
            assert(!(expr_kind@ is Compare));
            assert(!(expr_kind@ is Call));
            mono_expr_kind_more(expr_kind, site, consts, cx, mono)
        },
    }
}

pub open spec fn specialized_expr_kind_more(
    expr_kind: ExprKindView,
    site: Seq<char>,
    consts: Seq<(Seq<char>, CtValueView)>,
    cx: CtContextView,
    mono: MonoView,
) -> Result<(ExprKindView, MonoView), ComptimeErrorView>
    decreases expr_kind, 1nat,
{
    match expr_kind {
        ExprKindView::Member { object, field } => match specialized_expr(
            *object,
            consts,
            cx,
            mono,
        ) {
            Ok(out) => {
                let (new_object, mono) = out;
                Ok((ExprKindView::Member { object: Box::new(new_object), field }, mono))
            },
            Err(error) => Err(error),
        },
        ExprKindView::MethodCall {
            object,
            method,
            args,
            kwargs,
        } => match specialized_expr(*object, consts, cx, mono) {
            Ok(out) => {
                let (new_object, mono) = out;
                match specialized_expr_list(args, consts, cx, 0, Seq::empty(), mono) {
                    Ok(out) => {
                        let (new_args, mono) = out;
                        match specialized_kw_arg_list(kwargs, consts, cx, 0, Seq::empty(), mono) {
                            Ok(out) => {
                                let (new_kwargs, mono) = out;
                                Ok(
                                    (
                                        ExprKindView::MethodCall {
                                            object: Box::new(new_object),
                                            method,
                                            args: new_args,
                                            kwargs: new_kwargs,
                                        },
                                        mono,
                                    )
                                )
                            },
                            Err(error) => Err(error),
                        }
                    },
                    Err(error) => Err(error),
                }
            },
            Err(error) => Err(error),
        },
        ExprKindView::Index { object, index } => match specialized_expr(*object, consts, cx, mono) {
            Ok(out) => {
                let (new_object, mono) = out;
                match specialized_expr(*index, consts, cx, mono) {
                    Ok(out) => {
                        let (new_index, mono) = out;
                        Ok(
                            (
                                ExprKindView::Index {
                                    object: Box::new(new_object),
                                    index: Box::new(new_index),
                                },
                                mono,
                            )
                        )
                    },
                    Err(error) => Err(error),
                }
            },
            Err(error) => Err(error),
        },
        ExprKindView::Slice {
            object,
            lower,
            upper,
            step,
        } => match specialized_expr(*object, consts, cx, mono) {
            Ok(out) => {
                let (new_object, mono) = out;
                match specialized_opt_boxed_expr(lower, consts, cx, mono) {
                    Ok(out) => {
                        let (new_lower, mono) = out;
                        match specialized_opt_boxed_expr(upper, consts, cx, mono) {
                            Ok(out) => {
                                let (new_upper, mono) = out;
                                match specialized_opt_boxed_expr(step, consts, cx, mono) {
                                    Ok(out) => {
                                        let (new_step, mono) = out;
                                        Ok(
                                            (
                                                ExprKindView::Slice {
                                                    object: Box::new(new_object),
                                                    lower: new_lower,
                                                    upper: new_upper,
                                                    step: new_step,
                                                },
                                                mono,
                                            )
                                        )
                                    },
                                    Err(error) => Err(error),
                                }
                            },
                            Err(error) => Err(error),
                        }
                    },
                    Err(error) => Err(error),
                }
            },
            Err(error) => Err(error),
        },
        ExprKindView::MultiIndex { object, args } => match specialized_expr(
            *object,
            consts,
            cx,
            mono,
        ) {
            Ok(out) => {
                let (new_object, mono) = out;
                match specialized_subscript_arg_list(args, consts, cx, 0, Seq::empty(), mono) {
                    Ok(out) => {
                        let (new_args, mono) = out;
                        Ok(
                            (
                                ExprKindView::MultiIndex {
                                    object: Box::new(new_object),
                                    args: new_args,
                                },
                                mono,
                            )
                        )
                    },
                    Err(error) => Err(error),
                }
            },
            Err(error) => Err(error),
        },
        ExprKindView::ListLit(a0) => match specialized_expr_list(
            a0,
            consts,
            cx,
            0,
            Seq::empty(),
            mono,
        ) {
            Ok(out) => {
                let (new_a0, mono) = out;
                Ok((ExprKindView::ListLit(new_a0), mono))
            },
            Err(error) => Err(error),
        },
        _ => specialized_expr_kind_further(expr_kind, site, consts, cx, mono),
    }
}

/// See [`specialized_expr_kind_more`].
pub fn mono_expr_kind_more(
    expr_kind: &ExprKind,
    site: &String,
    consts: &Vec<(String, CtValue)>,
    cx: &CtContext,
    mono: Mono,
) -> (r: Result<(ExprKind, Mono), ComptimeError>)
    ensures
        (match r { Ok(v) => Ok((v.0@, v.1@)), Err(v) => Err(v@) }) == specialized_expr_kind_more(
            expr_kind@,
            site@,
            binding_list_view(consts@),
            cx@,
            mono@,
        ),
    decreases expr_kind, 1nat,
{
    proof { unfold_expr_kind(*expr_kind); }
    match expr_kind {
        ExprKind::Member { object, field } => {
            let (new_object, mono) = match mono_expr(&**object, consts, cx, mono) {
                Ok(done) => done,
                Err(error) => {
                    return Err(error);
                },
            };
            let kind = ExprKind::Member { object: Box::new(new_object), field: field.clone() };
            proof { unfold_expr_kind(kind); }
            Ok((kind, mono))
        },
        ExprKind::MethodCall { object, method, args, kwargs } => {
            let (new_object, mono) = match mono_expr(&**object, consts, cx, mono) {
                Ok(done) => done,
                Err(error) => {
                    return Err(error);
                },
            };
            let (new_args, mono) = match mono_expr_list(args, consts, cx, mono) {
                Ok(done) => done,
                Err(error) => {
                    return Err(error);
                },
            };
            let (new_kwargs, mono) = match mono_kw_arg_list(kwargs, consts, cx, mono) {
                Ok(done) => done,
                Err(error) => {
                    return Err(error);
                },
            };
            let kind2 = ExprKind::MethodCall {
                object: Box::new(new_object),
                method: method.clone(),
                args: new_args,
                kwargs: new_kwargs,
            };
            proof { unfold_expr_kind(kind2); }
            Ok((kind2, mono))
        },
        ExprKind::Index { object, index } => {
            let (new_object, mono) = match mono_expr(&**object, consts, cx, mono) {
                Ok(done) => done,
                Err(error) => {
                    return Err(error);
                },
            };
            let (new_index, mono) = match mono_expr(&**index, consts, cx, mono) {
                Ok(done) => done,
                Err(error) => {
                    return Err(error);
                },
            };
            let kind3 = ExprKind::Index {
                object: Box::new(new_object),
                index: Box::new(new_index),
            };
            proof { unfold_expr_kind(kind3); }
            Ok((kind3, mono))
        },
        ExprKind::Slice { object, lower, upper, step } => {
            let (new_object, mono) = match mono_expr(&**object, consts, cx, mono) {
                Ok(done) => done,
                Err(error) => {
                    return Err(error);
                },
            };
            let (new_lower, mono) = match mono_opt_boxed_expr(lower, consts, cx, mono) {
                Ok(done) => done,
                Err(error) => {
                    return Err(error);
                },
            };
            let (new_upper, mono) = match mono_opt_boxed_expr(upper, consts, cx, mono) {
                Ok(done) => done,
                Err(error) => {
                    return Err(error);
                },
            };
            let (new_step, mono) = match mono_opt_boxed_expr(step, consts, cx, mono) {
                Ok(done) => done,
                Err(error) => {
                    return Err(error);
                },
            };
            let kind4 = ExprKind::Slice {
                object: Box::new(new_object),
                lower: new_lower,
                upper: new_upper,
                step: new_step,
            };
            proof { unfold_expr_kind(kind4); }
            Ok((kind4, mono))
        },
        ExprKind::MultiIndex { object, args } => {
            let (new_object, mono) = match mono_expr(&**object, consts, cx, mono) {
                Ok(done) => done,
                Err(error) => {
                    return Err(error);
                },
            };
            let (new_args, mono) = match mono_subscript_arg_list(args, consts, cx, mono) {
                Ok(done) => done,
                Err(error) => {
                    return Err(error);
                },
            };
            let kind5 = ExprKind::MultiIndex { object: Box::new(new_object), args: new_args };
            proof { unfold_expr_kind(kind5); }
            Ok((kind5, mono))
        },
        ExprKind::ListLit(a0) => {
            let (new_a0, mono) = match mono_expr_list(a0, consts, cx, mono) {
                Ok(done) => done,
                Err(error) => {
                    return Err(error);
                },
            };
            let kind6 = ExprKind::ListLit(new_a0);
            proof { unfold_expr_kind(kind6); }
            Ok((kind6, mono))
        },
        _ => {
            assert(!(expr_kind@ is Member));
            assert(!(expr_kind@ is MethodCall));
            assert(!(expr_kind@ is Index));
            assert(!(expr_kind@ is Slice));
            assert(!(expr_kind@ is MultiIndex));
            assert(!(expr_kind@ is ListLit));
            mono_expr_kind_further(expr_kind, site, consts, cx, mono)
        },
    }
}

pub open spec fn specialized_expr_kind_further(
    expr_kind: ExprKindView,
    site: Seq<char>,
    consts: Seq<(Seq<char>, CtValueView)>,
    cx: CtContextView,
    mono: MonoView,
) -> Result<(ExprKindView, MonoView), ComptimeErrorView>
    decreases expr_kind, 0nat,
{
    match expr_kind {
        ExprKindView::TupleLit(a0) => match specialized_expr_list(
            a0,
            consts,
            cx,
            0,
            Seq::empty(),
            mono,
        ) {
            Ok(out) => {
                let (new_a0, mono) = out;
                Ok((ExprKindView::TupleLit(new_a0), mono))
            },
            Err(error) => Err(error),
        },
        ExprKindView::BraceLit(a0) => match specialized_entry_list(
            a0,
            consts,
            cx,
            0,
            Seq::empty(),
            mono,
        ) {
            Ok(out) => {
                let (new_a0, mono) = out;
                Ok((ExprKindView::BraceLit(new_a0), mono))
            },
            Err(error) => Err(error),
        },
        ExprKindView::Comprehension { kind, key, value, clauses } => match specialized_comprehension_clause_list(
            clauses,
            consts,
            cx,
            0,
            Seq::empty(),
            mono,
        ) {
            Ok(out) => {
                let (new_clauses, mono) = out;
                match specialized_opt_boxed_expr(key, consts, cx, mono) {
                    Ok(out) => {
                        let (new_key, mono) = out;
                        match specialized_expr(*value, consts, cx, mono) {
                            Ok(out) => {
                                let (new_value, mono) = out;
                                Ok(
                                    (
                                        ExprKindView::Comprehension {
                                            kind,
                                            key: new_key,
                                            value: Box::new(new_value),
                                            clauses: new_clauses,
                                        },
                                        mono,
                                    )
                                )
                            },
                            Err(error) => Err(error),
                        }
                    },
                    Err(error) => Err(error),
                }
            },
            Err(error) => Err(error),
        },
        ExprKindView::Named { name, value } => match specialized_expr(*value, consts, cx, mono) {
            Ok(out) => {
                let (new_value, mono) = out;
                Ok((ExprKindView::Named { name, value: Box::new(new_value) }, mono))
            },
            Err(error) => Err(error),
        },
        ExprKindView::IfExpr {
            cond,
            then_branch,
            else_branch,
        } => match specialized_expr(*cond, consts, cx, mono) {
            Ok(out) => {
                let (new_cond, mono) = out;
                match specialized_expr(*then_branch, consts, cx, mono) {
                    Ok(out) => {
                        let (new_then_branch, mono) = out;
                        match specialized_expr(*else_branch, consts, cx, mono) {
                            Ok(out) => {
                                let (new_else_branch, mono) = out;
                                Ok(
                                    (
                                        ExprKindView::IfExpr {
                                            cond: Box::new(new_cond),
                                            then_branch: Box::new(new_then_branch),
                                            else_branch: Box::new(new_else_branch),
                                        },
                                        mono,
                                    )
                                )
                            },
                            Err(error) => Err(error),
                        }
                    },
                    Err(error) => Err(error),
                }
            },
            Err(error) => Err(error),
        },
        _ => Ok((expr_kind, mono)),
    }
}

/// See [`specialized_expr_kind_further`].
pub fn mono_expr_kind_further(
    expr_kind: &ExprKind,
    site: &String,
    consts: &Vec<(String, CtValue)>,
    cx: &CtContext,
    mono: Mono,
) -> (r: Result<(ExprKind, Mono), ComptimeError>)
    ensures
        (match r { Ok(v) => Ok((v.0@, v.1@)), Err(v) => Err(v@) }) == specialized_expr_kind_further(
            expr_kind@,
            site@,
            binding_list_view(consts@),
            cx@,
            mono@,
        ),
    decreases expr_kind, 0nat,
{
    proof { unfold_expr_kind(*expr_kind); }
    match expr_kind {
        ExprKind::TupleLit(a0) => {
            let (new_a0, mono) = match mono_expr_list(a0, consts, cx, mono) {
                Ok(done) => done,
                Err(error) => {
                    return Err(error);
                },
            };
            let kind2 = ExprKind::TupleLit(new_a0);
            proof { unfold_expr_kind(kind2); }
            Ok((kind2, mono))
        },
        ExprKind::BraceLit(a0) => {
            let (new_a0, mono) = match mono_entry_list(a0, consts, cx, mono) {
                Ok(done) => done,
                Err(error) => {
                    return Err(error);
                },
            };
            let kind3 = ExprKind::BraceLit(new_a0);
            proof { unfold_expr_kind(kind3); }
            Ok((kind3, mono))
        },
        ExprKind::Comprehension { kind, key, value, clauses } => {
            let (new_clauses, mono) = match mono_comprehension_clause_list(
                clauses,
                consts,
                cx,
                mono,
            ) {
                Ok(done) => done,
                Err(error) => {
                    return Err(error);
                },
            };
            let (new_key, mono) = match mono_opt_boxed_expr(key, consts, cx, mono) {
                Ok(done) => done,
                Err(error) => {
                    return Err(error);
                },
            };
            let (new_value, mono) = match mono_expr(&**value, consts, cx, mono) {
                Ok(done) => done,
                Err(error) => {
                    return Err(error);
                },
            };
            let kind4 = ExprKind::Comprehension {
                kind: *kind,
                key: new_key,
                value: Box::new(new_value),
                clauses: new_clauses,
            };
            proof { unfold_expr_kind(kind4); }
            Ok((kind4, mono))
        },
        ExprKind::Named { name, value } => {
            let (new_value, mono) = match mono_expr(&**value, consts, cx, mono) {
                Ok(done) => done,
                Err(error) => {
                    return Err(error);
                },
            };
            let kind5 = ExprKind::Named { name: name.clone(), value: Box::new(new_value) };
            proof { unfold_expr_kind(kind5); }
            Ok((kind5, mono))
        },
        ExprKind::IfExpr { cond, then_branch, else_branch } => {
            let (new_cond, mono) = match mono_expr(&**cond, consts, cx, mono) {
                Ok(done) => done,
                Err(error) => {
                    return Err(error);
                },
            };
            let (new_then_branch, mono) = match mono_expr(&**then_branch, consts, cx, mono) {
                Ok(done) => done,
                Err(error) => {
                    return Err(error);
                },
            };
            let (new_else_branch, mono) = match mono_expr(&**else_branch, consts, cx, mono) {
                Ok(done) => done,
                Err(error) => {
                    return Err(error);
                },
            };
            let kind6 = ExprKind::IfExpr {
                cond: Box::new(new_cond),
                then_branch: Box::new(new_then_branch),
                else_branch: Box::new(new_else_branch),
            };
            proof { unfold_expr_kind(kind6); }
            Ok((kind6, mono))
        },
        _ => {
            assert(!(expr_kind@ is TupleLit));
            assert(!(expr_kind@ is BraceLit));
            assert(!(expr_kind@ is Comprehension));
            assert(!(expr_kind@ is Named));
            assert(!(expr_kind@ is IfExpr));
            Ok((clone_expr_kind(expr_kind), mono))
        },
    }
}

pub open spec fn specialized_stmt_list(
    items: Seq<StmtView>,
    consts: Seq<(Seq<char>, CtValueView)>,
    cx: CtContextView,
    i: nat,
    out: Seq<StmtView>,
    mono: MonoView,
) -> Result<(Seq<StmtView>, MonoView), ComptimeErrorView>
    decreases items, (items.len() - i) as nat,
{
    if i >= items.len() {
        Ok((out, mono))
    } else {
        let item = items[i as int];
        match specialized_stmt(item, consts, cx, mono) {
            Ok(taken) => {
                let (mapped, rest) = taken;
                let mono = rest;
                let out = out.push(mapped);
                specialized_stmt_list(items, consts, cx, i + 1, out, mono)
            },
            Err(error) => Err(error),
        }
    }
}

/// See [`specialized_stmt_list`].
pub fn mono_stmt_list(
    items: &Vec<Stmt>,
    consts: &Vec<(String, CtValue)>,
    cx: &CtContext,
    start: Mono,
) -> (r: Result<(Vec<Stmt>, Mono), ComptimeError>)
    ensures
        (
            match r { Ok(v) => Ok((stmt_list_view(v.0@), v.1@)), Err(v) => Err(v@) }
        ) == specialized_stmt_list(
            stmt_list_view(items@),
            binding_list_view(consts@),
            cx@,
            0,
            Seq::<StmtView>::empty(),
            start@,
        ),
    decreases items@, 0nat,
{
    let mut out: Vec<Stmt> = Vec::new();
    assert(stmt_list_view(out@) =~= Seq::<StmtView>::empty());
    let mut mono: Mono = start;
    let ghost goal = specialized_stmt_list(
        stmt_list_view(items@),
        binding_list_view(consts@),
        cx@,
        0,
        Seq::<StmtView>::empty(),
        start@,
    );
    let mut i: usize = 0;
    while i < items.len()
        invariant
            i <= items@.len(),
            stmt_list_view(items@).len() == items@.len(),
            specialized_stmt_list(
                stmt_list_view(items@),
                binding_list_view(consts@),
                cx@,
                i as nat,
                stmt_list_view(out@),
                mono@,
            ) == goal,
            goal == specialized_stmt_list(
                stmt_list_view(items@),
                binding_list_view(consts@),
                cx@,
                0,
                Seq::<StmtView>::empty(),
                start@,
            ),
        decreases items@.len() - i,
    {
        let item = &items[i];
        assert(stmt_list_view(items@)[i as int] == item@);
        let (mapped, rest) = match mono_stmt(item, consts, cx, mono) {
            Ok(done) => done,
            Err(error) => {
                return Err(error);
            },
        };
        mono = rest;
        let ghost before = stmt_list_view(out@);
        let ghost added = mapped@;
        out.push(mapped);
        assert(stmt_list_view(out@) =~= before.push(added));
        i = i + 1;
    }
    Ok((out, mono))
}

pub open spec fn specialized_branch_list(
    items: Seq<(ExprView, Seq<StmtView>)>,
    consts: Seq<(Seq<char>, CtValueView)>,
    cx: CtContextView,
    i: nat,
    out: Seq<(ExprView, Seq<StmtView>)>,
    mono: MonoView,
) -> Result<(Seq<(ExprView, Seq<StmtView>)>, MonoView), ComptimeErrorView>
    decreases items, (items.len() - i) as nat,
{
    if i >= items.len() {
        Ok((out, mono))
    } else {
        let item = items[i as int];
        match specialized_expr(item.0, consts, cx, mono) {
            Ok(taken) => {
                let (mapped_0, rest) = taken;
                let mono = rest;
                match specialized_stmt_list(item.1, consts, cx, 0, Seq::empty(), mono) {
                    Ok(taken) => {
                        let (mapped_1, rest) = taken;
                        let mono = rest;
                        let out = out.push((mapped_0, mapped_1));
                        specialized_branch_list(items, consts, cx, i + 1, out, mono)
                    },
                    Err(error) => Err(error),
                }
            },
            Err(error) => Err(error),
        }
    }
}

/// See [`specialized_branch_list`].
pub fn mono_branch_list(
    items: &Vec<(Expr, Vec<Stmt>)>,
    consts: &Vec<(String, CtValue)>,
    cx: &CtContext,
    start: Mono,
) -> (r: Result<(Vec<(Expr, Vec<Stmt>)>, Mono), ComptimeError>)
    ensures
        (
            match r { Ok(v) => Ok((branch_list_view(v.0@), v.1@)), Err(v) => Err(v@) }
        ) == specialized_branch_list(
            branch_list_view(items@),
            binding_list_view(consts@),
            cx@,
            0,
            Seq::<(ExprView, Seq<StmtView>)>::empty(),
            start@,
        ),
    decreases items@, 0nat,
{
    let mut out: Vec<(Expr, Vec<Stmt>)> = Vec::new();
    assert(branch_list_view(out@) =~= Seq::<(ExprView, Seq<StmtView>)>::empty());
    let mut mono: Mono = start;
    let ghost goal = specialized_branch_list(
        branch_list_view(items@),
        binding_list_view(consts@),
        cx@,
        0,
        Seq::<(ExprView, Seq<StmtView>)>::empty(),
        start@,
    );
    let mut i: usize = 0;
    while i < items.len()
        invariant
            i <= items@.len(),
            branch_list_view(items@).len() == items@.len(),
            specialized_branch_list(
                branch_list_view(items@),
                binding_list_view(consts@),
                cx@,
                i as nat,
                branch_list_view(out@),
                mono@,
            ) == goal,
            goal == specialized_branch_list(
                branch_list_view(items@),
                binding_list_view(consts@),
                cx@,
                0,
                Seq::<(ExprView, Seq<StmtView>)>::empty(),
                start@,
            ),
        decreases items@.len() - i,
    {
        let item = &items[i];
        assert(branch_list_view(items@)[i as int].0 =~= item.0@);
        assert(branch_list_view(items@)[i as int].1 =~= stmt_list_view(item.1@));
        let (mapped_0, rest) = match mono_expr(&item.0, consts, cx, mono) {
            Ok(done) => done,
            Err(error) => {
                return Err(error);
            },
        };
        mono = rest;
        let (mapped_1, rest) = match mono_stmt_list(&item.1, consts, cx, mono) {
            Ok(done) => done,
            Err(error) => {
                return Err(error);
            },
        };
        mono = rest;
        let item2 = (mapped_0, mapped_1);
        let ghost before = branch_list_view(out@);
        let ghost added = (item2.0@, stmt_list_view(item2.1@));
        out.push(item2);
        assert(branch_list_view(out@) =~= before.push(added));
        i = i + 1;
    }
    Ok((out, mono))
}

pub open spec fn specialized_opt_stmt_list(
    value: Option<Seq<StmtView>>,
    consts: Seq<(Seq<char>, CtValueView)>,
    cx: CtContextView,
    mono: MonoView,
) -> Result<(Option<Seq<StmtView>>, MonoView), ComptimeErrorView>
    decreases value, 0nat,
{
    match value {
        Some(value) => match specialized_stmt_list(value, consts, cx, 0, Seq::empty(), mono) {
            Ok(out) => {
                let (mapped, mono) = out;
                Ok((Some(mapped), mono))
            },
            Err(error) => Err(error),
        },
        None => Ok((None, mono)),
    }
}

/// See [`specialized_opt_stmt_list`].
pub fn mono_opt_stmt_list(
    value: &Option<Vec<Stmt>>,
    consts: &Vec<(String, CtValue)>,
    cx: &CtContext,
    mono: Mono,
) -> (r: Result<(Option<Vec<Stmt>>, Mono), ComptimeError>)
    ensures
        (
            match r {
                Ok(v) => Ok(
                    ((match v.0 { Some(v1) => Some(stmt_list_view(v1@)), None => None }), v.1@)
                ),
                Err(v) => Err(v@),
            }
        ) == specialized_opt_stmt_list(
            (match value { Some(v) => Some(stmt_list_view(v@)), None => None }),
            binding_list_view(consts@),
            cx@,
            mono@,
        ),
    decreases value, 0nat,
{
    match value {
        Some(value) => {
            let (mapped, mono) = match mono_stmt_list(value, consts, cx, mono) {
                Ok(done) => done,
                Err(error) => {
                    return Err(error);
                },
            };
            Ok((Some(mapped), mono))
        },
        None => Ok((None, mono)),
    }
}

pub open spec fn specialized_opt_opt_string_stmt_list(
    value: Option<(Option<Seq<char>>, Seq<StmtView>)>,
    consts: Seq<(Seq<char>, CtValueView)>,
    cx: CtContextView,
    mono: MonoView,
) -> Result<(Option<(Option<Seq<char>>, Seq<StmtView>)>, MonoView), ComptimeErrorView>
    decreases value, 0nat,
{
    match value {
        Some(value) => match specialized_stmt_list(value.1, consts, cx, 0, Seq::empty(), mono) {
            Ok(out) => {
                let (mapped_1, mono) = out;
                Ok((Some((value.0, mapped_1)), mono))
            },
            Err(error) => Err(error),
        },
        None => Ok((None, mono)),
    }
}

/// See [`specialized_opt_opt_string_stmt_list`].
pub fn mono_opt_opt_string_stmt_list(
    value: &Option<(Option<String>, Vec<Stmt>)>,
    consts: &Vec<(String, CtValue)>,
    cx: &CtContext,
    mono: Mono,
) -> (r: Result<(Option<(Option<String>, Vec<Stmt>)>, Mono), ComptimeError>)
    ensures
        (
            match r {
                Ok(v) => Ok(
                    (
                        (
                            match v.0 {
                                Some(v1) => Some((opt_view(v1.0), stmt_list_view(v1.1@))),
                                None => None,
                            }
                        ),
                        v.1@,
                    )
                ),
                Err(v) => Err(v@),
            }
        ) == specialized_opt_opt_string_stmt_list(
            (match value { Some(v) => Some((opt_view(v.0), stmt_list_view(v.1@))), None => None }),
            binding_list_view(consts@),
            cx@,
            mono@,
        ),
    decreases value, 0nat,
{
    match value {
        Some(value) => {
            let (mapped_1, mono) = match mono_stmt_list(&value.1, consts, cx, mono) {
                Ok(done) => done,
                Err(error) => {
                    return Err(error);
                },
            };
            Ok(
                (
                    Some(
                        ((match (&value.0) { Some(y) => Some(y.clone()), None => None }), mapped_1)
                    ),
                    mono,
                )
            )
        },
        None => Ok((None, mono)),
    }
}

pub open spec fn specialized_with_item(
    with_item: WithItemView,
    consts: Seq<(Seq<char>, CtValueView)>,
    cx: CtContextView,
    mono: MonoView,
) -> Result<(WithItemView, MonoView), ComptimeErrorView>
    decreases with_item, 0nat,
{
    match specialized_expr(with_item.context, consts, cx, mono) {
        Ok(out) => {
            let (new_context, mono) = out;
            Ok((WithItemView { context: new_context, var: with_item.var }, mono))
        },
        Err(error) => Err(error),
    }
}

/// See [`specialized_with_item`].
pub fn mono_with_item(
    with_item: &WithItem,
    consts: &Vec<(String, CtValue)>,
    cx: &CtContext,
    mono: Mono,
) -> (r: Result<(WithItem, Mono), ComptimeError>)
    ensures
        (
            match r { Ok(v) => Ok((v.0@, v.1@)), Err(v) => Err(v@) }
        ) == specialized_with_item(with_item@, binding_list_view(consts@), cx@, mono@),
    decreases with_item, 0nat,
{
    let (new_context, mono) = match mono_expr(&with_item.context, consts, cx, mono) {
        Ok(done) => done,
        Err(error) => {
            return Err(error);
        },
    };
    Ok(
        (
            WithItem {
                context: new_context,
                var: (match (&with_item.var) { Some(y) => Some(y.clone()), None => None }),
            },
            mono,
        )
    )
}

pub open spec fn specialized_with_item_list(
    items: Seq<WithItemView>,
    consts: Seq<(Seq<char>, CtValueView)>,
    cx: CtContextView,
    i: nat,
    out: Seq<WithItemView>,
    mono: MonoView,
) -> Result<(Seq<WithItemView>, MonoView), ComptimeErrorView>
    decreases items, (items.len() - i) as nat,
{
    if i >= items.len() {
        Ok((out, mono))
    } else {
        let item = items[i as int];
        match specialized_with_item(item, consts, cx, mono) {
            Ok(taken) => {
                let (mapped, rest) = taken;
                let mono = rest;
                let out = out.push(mapped);
                specialized_with_item_list(items, consts, cx, i + 1, out, mono)
            },
            Err(error) => Err(error),
        }
    }
}

/// See [`specialized_with_item_list`].
pub fn mono_with_item_list(
    items: &Vec<WithItem>,
    consts: &Vec<(String, CtValue)>,
    cx: &CtContext,
    start: Mono,
) -> (r: Result<(Vec<WithItem>, Mono), ComptimeError>)
    ensures
        (
            match r { Ok(v) => Ok((with_item_list_view(v.0@), v.1@)), Err(v) => Err(v@) }
        ) == specialized_with_item_list(
            with_item_list_view(items@),
            binding_list_view(consts@),
            cx@,
            0,
            Seq::<WithItemView>::empty(),
            start@,
        ),
    decreases items@, 0nat,
{
    let mut out: Vec<WithItem> = Vec::new();
    assert(with_item_list_view(out@) =~= Seq::<WithItemView>::empty());
    let mut mono: Mono = start;
    let ghost goal = specialized_with_item_list(
        with_item_list_view(items@),
        binding_list_view(consts@),
        cx@,
        0,
        Seq::<WithItemView>::empty(),
        start@,
    );
    let mut i: usize = 0;
    while i < items.len()
        invariant
            i <= items@.len(),
            with_item_list_view(items@).len() == items@.len(),
            specialized_with_item_list(
                with_item_list_view(items@),
                binding_list_view(consts@),
                cx@,
                i as nat,
                with_item_list_view(out@),
                mono@,
            ) == goal,
            goal == specialized_with_item_list(
                with_item_list_view(items@),
                binding_list_view(consts@),
                cx@,
                0,
                Seq::<WithItemView>::empty(),
                start@,
            ),
        decreases items@.len() - i,
    {
        let item = &items[i];
        assert(with_item_list_view(items@)[i as int] == item@);
        let (mapped, rest) = match mono_with_item(item, consts, cx, mono) {
            Ok(done) => done,
            Err(error) => {
                return Err(error);
            },
        };
        mono = rest;
        let ghost before = with_item_list_view(out@);
        let ghost added = mapped@;
        out.push(mapped);
        assert(with_item_list_view(out@) =~= before.push(added));
        i = i + 1;
    }
    Ok((out, mono))
}

pub open spec fn specialized_method(
    method: MethodView,
    consts: Seq<(Seq<char>, CtValueView)>,
    cx: CtContextView,
    mono: MonoView,
) -> Result<(MethodView, MonoView), ComptimeErrorView>
    decreases method, 0nat,
{
    match specialized_stmt_list(method.body, consts, cx, 0, Seq::empty(), mono) {
        Ok(out) => {
            let (new_body, mono) = out;
            Ok(
                (
                    MethodView {
                        name: method.name,
                        has_self: method.has_self,
                        self_convention: method.self_convention,
                        params: method.params,
                        positional_only: method.positional_only,
                        keyword_only: method.keyword_only,
                        raises_type: method.raises_type,
                        ret: method.ret,
                        body: new_body,
                    },
                    mono,
                )
            )
        },
        Err(error) => Err(error),
    }
}

/// See [`specialized_method`].
pub fn mono_method(
    method: &Method,
    consts: &Vec<(String, CtValue)>,
    cx: &CtContext,
    mono: Mono,
) -> (r: Result<(Method, Mono), ComptimeError>)
    ensures
        (
            match r { Ok(v) => Ok((v.0@, v.1@)), Err(v) => Err(v@) }
        ) == specialized_method(method@, binding_list_view(consts@), cx@, mono@),
    decreases method, 0nat,
{
    let (new_body, mono) = match mono_stmt_list(&method.body, consts, cx, mono) {
        Ok(done) => done,
        Err(error) => {
            return Err(error);
        },
    };
    let method2 = Method {
        name: (&method.name).clone(),
        has_self: method.has_self,
        self_convention: method.self_convention,
        params: clone_fn_param_list(&method.params),
        positional_only: method.positional_only,
        keyword_only: method.keyword_only,
        raises_type: (match (&method.raises_type) { Some(y) => Some(clone_type(y)), None => None }),
        ret: (match (&method.ret) { Some(y) => Some(clone_type(y)), None => None }),
        body: new_body,
    };
    proof { unfold_method(method2); }
    Ok((method2, mono))
}

pub open spec fn specialized_method_list(
    items: Seq<MethodView>,
    consts: Seq<(Seq<char>, CtValueView)>,
    cx: CtContextView,
    i: nat,
    out: Seq<MethodView>,
    mono: MonoView,
) -> Result<(Seq<MethodView>, MonoView), ComptimeErrorView>
    decreases items, (items.len() - i) as nat,
{
    if i >= items.len() {
        Ok((out, mono))
    } else {
        let item = items[i as int];
        match specialized_method(item, consts, cx, mono) {
            Ok(taken) => {
                let (mapped, rest) = taken;
                let mono = rest;
                let out = out.push(mapped);
                specialized_method_list(items, consts, cx, i + 1, out, mono)
            },
            Err(error) => Err(error),
        }
    }
}

/// See [`specialized_method_list`].
pub fn mono_method_list(
    items: &Vec<Method>,
    consts: &Vec<(String, CtValue)>,
    cx: &CtContext,
    start: Mono,
) -> (r: Result<(Vec<Method>, Mono), ComptimeError>)
    ensures
        (
            match r { Ok(v) => Ok((method_list_view(v.0@), v.1@)), Err(v) => Err(v@) }
        ) == specialized_method_list(
            method_list_view(items@),
            binding_list_view(consts@),
            cx@,
            0,
            Seq::<MethodView>::empty(),
            start@,
        ),
    decreases items@, 0nat,
{
    let mut out: Vec<Method> = Vec::new();
    assert(method_list_view(out@) =~= Seq::<MethodView>::empty());
    let mut mono: Mono = start;
    let ghost goal = specialized_method_list(
        method_list_view(items@),
        binding_list_view(consts@),
        cx@,
        0,
        Seq::<MethodView>::empty(),
        start@,
    );
    let mut i: usize = 0;
    while i < items.len()
        invariant
            i <= items@.len(),
            method_list_view(items@).len() == items@.len(),
            specialized_method_list(
                method_list_view(items@),
                binding_list_view(consts@),
                cx@,
                i as nat,
                method_list_view(out@),
                mono@,
            ) == goal,
            goal == specialized_method_list(
                method_list_view(items@),
                binding_list_view(consts@),
                cx@,
                0,
                Seq::<MethodView>::empty(),
                start@,
            ),
        decreases items@.len() - i,
    {
        let item = &items[i];
        assert(method_list_view(items@)[i as int] == item@);
        let (mapped, rest) = match mono_method(item, consts, cx, mono) {
            Ok(done) => done,
            Err(error) => {
                return Err(error);
            },
        };
        mono = rest;
        let ghost before = method_list_view(out@);
        let ghost added = mapped@;
        out.push(mapped);
        assert(method_list_view(out@) =~= before.push(added));
        i = i + 1;
    }
    Ok((out, mono))
}

pub open spec fn specialized_stmt_kind(
    stmt_kind: StmtKindView,
    consts: Seq<(Seq<char>, CtValueView)>,
    cx: CtContextView,
    mono: MonoView,
) -> Result<(StmtKindView, MonoView), ComptimeErrorView>
    decreases stmt_kind, 3nat,
{
    match stmt_kind {
        StmtKindView::VarDecl { name, ty, value } => match specialized_expr(
            value,
            consts,
            cx,
            mono,
        ) {
            Ok(out) => {
                let (new_value, mono) = out;
                Ok((StmtKindView::VarDecl { name, ty, value: new_value }, mono))
            },
            Err(error) => Err(error),
        },
        StmtKindView::RefDecl { name, value } => match specialized_expr(value, consts, cx, mono) {
            Ok(out) => {
                let (new_value, mono) = out;
                Ok((StmtKindView::RefDecl { name, value: new_value }, mono))
            },
            Err(error) => Err(error),
        },
        StmtKindView::Assign { name, value } => match specialized_expr(value, consts, cx, mono) {
            Ok(out) => {
                let (new_value, mono) = out;
                Ok((StmtKindView::Assign { name, value: new_value }, mono))
            },
            Err(error) => Err(error),
        },
        StmtKindView::Comptime { name, value } => match specialized_expr(value, consts, cx, mono) {
            Ok(out) => {
                let (new_value, mono) = out;
                Ok((StmtKindView::Comptime { name, value: new_value }, mono))
            },
            Err(error) => Err(error),
        },
        StmtKindView::Raise(a0) => match specialized_expr(a0, consts, cx, mono) {
            Ok(out) => {
                let (new_a0, mono) = out;
                Ok((StmtKindView::Raise(new_a0), mono))
            },
            Err(error) => Err(error),
        },
        StmtKindView::Return(a0) => match specialized_opt_expr(a0, consts, cx, mono) {
            Ok(out) => {
                let (new_a0, mono) = out;
                Ok((StmtKindView::Return(new_a0), mono))
            },
            Err(error) => Err(error),
        },
        _ => specialized_stmt_kind_more(stmt_kind, consts, cx, mono),
    }
}

/// See [`specialized_stmt_kind`].
pub fn mono_stmt_kind(
    stmt_kind: &StmtKind,
    consts: &Vec<(String, CtValue)>,
    cx: &CtContext,
    mono: Mono,
) -> (r: Result<(StmtKind, Mono), ComptimeError>)
    ensures
        (
            match r { Ok(v) => Ok((v.0@, v.1@)), Err(v) => Err(v@) }
        ) == specialized_stmt_kind(stmt_kind@, binding_list_view(consts@), cx@, mono@),
    decreases stmt_kind, 3nat,
{
    proof { unfold_stmt_kind(*stmt_kind); }
    match stmt_kind {
        StmtKind::VarDecl { name, ty, value } => {
            let (new_value, mono) = match mono_expr(value, consts, cx, mono) {
                Ok(done) => done,
                Err(error) => {
                    return Err(error);
                },
            };
            let kind = StmtKind::VarDecl {
                name: name.clone(),
                ty: (match ty { Some(y) => Some(clone_type(y)), None => None }),
                value: new_value,
            };
            proof { unfold_stmt_kind(kind); }
            Ok((kind, mono))
        },
        StmtKind::RefDecl { name, value } => {
            let (new_value, mono) = match mono_expr(value, consts, cx, mono) {
                Ok(done) => done,
                Err(error) => {
                    return Err(error);
                },
            };
            let kind2 = StmtKind::RefDecl { name: name.clone(), value: new_value };
            proof { unfold_stmt_kind(kind2); }
            Ok((kind2, mono))
        },
        StmtKind::Assign { name, value } => {
            let (new_value, mono) = match mono_expr(value, consts, cx, mono) {
                Ok(done) => done,
                Err(error) => {
                    return Err(error);
                },
            };
            let kind3 = StmtKind::Assign { name: name.clone(), value: new_value };
            proof { unfold_stmt_kind(kind3); }
            Ok((kind3, mono))
        },
        StmtKind::Comptime { name, value } => {
            let (new_value, mono) = match mono_expr(value, consts, cx, mono) {
                Ok(done) => done,
                Err(error) => {
                    return Err(error);
                },
            };
            let kind4 = StmtKind::Comptime { name: name.clone(), value: new_value };
            proof { unfold_stmt_kind(kind4); }
            Ok((kind4, mono))
        },
        StmtKind::Raise(a0) => {
            let (new_a0, mono) = match mono_expr(a0, consts, cx, mono) {
                Ok(done) => done,
                Err(error) => {
                    return Err(error);
                },
            };
            let kind5 = StmtKind::Raise(new_a0);
            proof { unfold_stmt_kind(kind5); }
            Ok((kind5, mono))
        },
        StmtKind::Return(a0) => {
            let (new_a0, mono) = match mono_opt_expr(a0, consts, cx, mono) {
                Ok(done) => done,
                Err(error) => {
                    return Err(error);
                },
            };
            let kind6 = StmtKind::Return(new_a0);
            proof { unfold_stmt_kind(kind6); }
            Ok((kind6, mono))
        },
        _ => {
            assert(!(stmt_kind@ is VarDecl));
            assert(!(stmt_kind@ is RefDecl));
            assert(!(stmt_kind@ is Assign));
            assert(!(stmt_kind@ is Comptime));
            assert(!(stmt_kind@ is Raise));
            assert(!(stmt_kind@ is Return));
            mono_stmt_kind_more(stmt_kind, consts, cx, mono)
        },
    }
}

pub open spec fn specialized_stmt_kind_more(
    stmt_kind: StmtKindView,
    consts: Seq<(Seq<char>, CtValueView)>,
    cx: CtContextView,
    mono: MonoView,
) -> Result<(StmtKindView, MonoView), ComptimeErrorView>
    decreases stmt_kind, 2nat,
{
    match stmt_kind {
        StmtKindView::SetPlace { place, value } => match specialized_expr(place, consts, cx, mono) {
            Ok(out) => {
                let (new_place, mono) = out;
                match specialized_expr(value, consts, cx, mono) {
                    Ok(out) => {
                        let (new_value, mono) = out;
                        Ok((StmtKindView::SetPlace { place: new_place, value: new_value }, mono))
                    },
                    Err(error) => Err(error),
                }
            },
            Err(error) => Err(error),
        },
        StmtKindView::AugAssign { place, op, value } => match specialized_expr(
            place,
            consts,
            cx,
            mono,
        ) {
            Ok(out) => {
                let (new_place, mono) = out;
                match specialized_expr(value, consts, cx, mono) {
                    Ok(out) => {
                        let (new_value, mono) = out;
                        Ok(
                            (
                                StmtKindView::AugAssign { place: new_place, op, value: new_value },
                                mono,
                            )
                        )
                    },
                    Err(error) => Err(error),
                }
            },
            Err(error) => Err(error),
        },
        StmtKindView::Unpack { targets, value } => match specialized_expr_list(
            targets,
            consts,
            cx,
            0,
            Seq::empty(),
            mono,
        ) {
            Ok(out) => {
                let (new_targets, mono) = out;
                match specialized_expr(value, consts, cx, mono) {
                    Ok(out) => {
                        let (new_value, mono) = out;
                        Ok((StmtKindView::Unpack { targets: new_targets, value: new_value }, mono))
                    },
                    Err(error) => Err(error),
                }
            },
            Err(error) => Err(error),
        },
        StmtKindView::Expr(a0) => match specialized_expr(a0, consts, cx, mono) {
            Ok(out) => {
                let (new_a0, mono) = out;
                Ok((StmtKindView::Expr(new_a0), mono))
            },
            Err(error) => Err(error),
        },
        StmtKindView::If { branches, orelse } => match specialized_branch_list(
            branches,
            consts,
            cx,
            0,
            Seq::empty(),
            mono,
        ) {
            Ok(out) => {
                let (new_branches, mono) = out;
                match specialized_opt_stmt_list(orelse, consts, cx, mono) {
                    Ok(out) => {
                        let (new_orelse, mono) = out;
                        Ok((StmtKindView::If { branches: new_branches, orelse: new_orelse }, mono))
                    },
                    Err(error) => Err(error),
                }
            },
            Err(error) => Err(error),
        },
        StmtKindView::ComptimeIf { branches, orelse } => match specialized_branch_list(
            branches,
            consts,
            cx,
            0,
            Seq::empty(),
            mono,
        ) {
            Ok(out) => {
                let (new_branches, mono) = out;
                match specialized_opt_stmt_list(orelse, consts, cx, mono) {
                    Ok(out) => {
                        let (new_orelse, mono) = out;
                        Ok(
                            (
                                StmtKindView::ComptimeIf {
                                    branches: new_branches,
                                    orelse: new_orelse,
                                },
                                mono,
                            )
                        )
                    },
                    Err(error) => Err(error),
                }
            },
            Err(error) => Err(error),
        },
        _ => specialized_stmt_kind_further(stmt_kind, consts, cx, mono),
    }
}

/// See [`specialized_stmt_kind_more`].
pub fn mono_stmt_kind_more(
    stmt_kind: &StmtKind,
    consts: &Vec<(String, CtValue)>,
    cx: &CtContext,
    mono: Mono,
) -> (r: Result<(StmtKind, Mono), ComptimeError>)
    ensures
        (
            match r { Ok(v) => Ok((v.0@, v.1@)), Err(v) => Err(v@) }
        ) == specialized_stmt_kind_more(stmt_kind@, binding_list_view(consts@), cx@, mono@),
    decreases stmt_kind, 2nat,
{
    proof { unfold_stmt_kind(*stmt_kind); }
    match stmt_kind {
        StmtKind::SetPlace { place, value } => {
            let (new_place, mono) = match mono_expr(place, consts, cx, mono) {
                Ok(done) => done,
                Err(error) => {
                    return Err(error);
                },
            };
            let (new_value, mono) = match mono_expr(value, consts, cx, mono) {
                Ok(done) => done,
                Err(error) => {
                    return Err(error);
                },
            };
            let kind = StmtKind::SetPlace { place: new_place, value: new_value };
            proof { unfold_stmt_kind(kind); }
            Ok((kind, mono))
        },
        StmtKind::AugAssign { place, op, value } => {
            let (new_place, mono) = match mono_expr(place, consts, cx, mono) {
                Ok(done) => done,
                Err(error) => {
                    return Err(error);
                },
            };
            let (new_value, mono) = match mono_expr(value, consts, cx, mono) {
                Ok(done) => done,
                Err(error) => {
                    return Err(error);
                },
            };
            let kind2 = StmtKind::AugAssign { place: new_place, op: *op, value: new_value };
            proof { unfold_stmt_kind(kind2); }
            Ok((kind2, mono))
        },
        StmtKind::Unpack { targets, value } => {
            let (new_targets, mono) = match mono_expr_list(targets, consts, cx, mono) {
                Ok(done) => done,
                Err(error) => {
                    return Err(error);
                },
            };
            let (new_value, mono) = match mono_expr(value, consts, cx, mono) {
                Ok(done) => done,
                Err(error) => {
                    return Err(error);
                },
            };
            let kind3 = StmtKind::Unpack { targets: new_targets, value: new_value };
            proof { unfold_stmt_kind(kind3); }
            Ok((kind3, mono))
        },
        StmtKind::Expr(a0) => {
            let (new_a0, mono) = match mono_expr(a0, consts, cx, mono) {
                Ok(done) => done,
                Err(error) => {
                    return Err(error);
                },
            };
            let kind4 = StmtKind::Expr(new_a0);
            proof { unfold_stmt_kind(kind4); }
            Ok((kind4, mono))
        },
        StmtKind::If { branches, orelse } => {
            let (new_branches, mono) = match mono_branch_list(branches, consts, cx, mono) {
                Ok(done) => done,
                Err(error) => {
                    return Err(error);
                },
            };
            let (new_orelse, mono) = match mono_opt_stmt_list(orelse, consts, cx, mono) {
                Ok(done) => done,
                Err(error) => {
                    return Err(error);
                },
            };
            let kind5 = StmtKind::If { branches: new_branches, orelse: new_orelse };
            proof { unfold_stmt_kind(kind5); }
            Ok((kind5, mono))
        },
        StmtKind::ComptimeIf { branches, orelse } => {
            let (new_branches, mono) = match mono_branch_list(branches, consts, cx, mono) {
                Ok(done) => done,
                Err(error) => {
                    return Err(error);
                },
            };
            let (new_orelse, mono) = match mono_opt_stmt_list(orelse, consts, cx, mono) {
                Ok(done) => done,
                Err(error) => {
                    return Err(error);
                },
            };
            let kind6 = StmtKind::ComptimeIf { branches: new_branches, orelse: new_orelse };
            proof { unfold_stmt_kind(kind6); }
            Ok((kind6, mono))
        },
        _ => {
            assert(!(stmt_kind@ is SetPlace));
            assert(!(stmt_kind@ is AugAssign));
            assert(!(stmt_kind@ is Unpack));
            assert(!(stmt_kind@ is Expr));
            assert(!(stmt_kind@ is If));
            assert(!(stmt_kind@ is ComptimeIf));
            mono_stmt_kind_further(stmt_kind, consts, cx, mono)
        },
    }
}

pub open spec fn specialized_stmt_kind_further(
    stmt_kind: StmtKindView,
    consts: Seq<(Seq<char>, CtValueView)>,
    cx: CtContextView,
    mono: MonoView,
) -> Result<(StmtKindView, MonoView), ComptimeErrorView>
    decreases stmt_kind, 1nat,
{
    match stmt_kind {
        StmtKindView::While { cond, body, orelse } => match specialized_expr(
            cond,
            consts,
            cx,
            mono,
        ) {
            Ok(out) => {
                let (new_cond, mono) = out;
                match specialized_stmt_list(body, consts, cx, 0, Seq::empty(), mono) {
                    Ok(out) => {
                        let (new_body, mono) = out;
                        Ok((StmtKindView::While { cond: new_cond, body: new_body, orelse }, mono))
                    },
                    Err(error) => Err(error),
                }
            },
            Err(error) => Err(error),
        },
        StmtKindView::For {
            var,
            reference,
            owned,
            iter,
            body,
            orelse,
        } => match specialized_expr(iter, consts, cx, mono) {
            Ok(out) => {
                let (new_iter, mono) = out;
                match specialized_stmt_list(body, consts, cx, 0, Seq::empty(), mono) {
                    Ok(out) => {
                        let (new_body, mono) = out;
                        Ok(
                            (
                                StmtKindView::For {
                                    var,
                                    reference,
                                    owned,
                                    iter: new_iter,
                                    body: new_body,
                                    orelse,
                                },
                                mono,
                            )
                        )
                    },
                    Err(error) => Err(error),
                }
            },
            Err(error) => Err(error),
        },
        StmtKindView::ComptimeFor { var, iter, body } => match specialized_expr(
            iter,
            consts,
            cx,
            mono,
        ) {
            Ok(out) => {
                let (new_iter, mono) = out;
                match specialized_stmt_list(body, consts, cx, 0, Seq::empty(), mono) {
                    Ok(out) => {
                        let (new_body, mono) = out;
                        Ok(
                            (
                                StmtKindView::ComptimeFor { var, iter: new_iter, body: new_body },
                                mono,
                            )
                        )
                    },
                    Err(error) => Err(error),
                }
            },
            Err(error) => Err(error),
        },
        StmtKindView::Try { body, except, orelse, finalbody } => match specialized_stmt_list(
            body,
            consts,
            cx,
            0,
            Seq::empty(),
            mono,
        ) {
            Ok(out) => {
                let (new_body, mono) = out;
                match specialized_opt_opt_string_stmt_list(except, consts, cx, mono) {
                    Ok(out) => {
                        let (new_except, mono) = out;
                        match specialized_opt_stmt_list(orelse, consts, cx, mono) {
                            Ok(out) => {
                                let (new_orelse, mono) = out;
                                match specialized_opt_stmt_list(finalbody, consts, cx, mono) {
                                    Ok(out) => {
                                        let (new_finalbody, mono) = out;
                                        Ok(
                                            (
                                                StmtKindView::Try {
                                                    body: new_body,
                                                    except: new_except,
                                                    orelse: new_orelse,
                                                    finalbody: new_finalbody,
                                                },
                                                mono,
                                            )
                                        )
                                    },
                                    Err(error) => Err(error),
                                }
                            },
                            Err(error) => Err(error),
                        }
                    },
                    Err(error) => Err(error),
                }
            },
            Err(error) => Err(error),
        },
        StmtKindView::With { items, body } => match specialized_with_item_list(
            items,
            consts,
            cx,
            0,
            Seq::empty(),
            mono,
        ) {
            Ok(out) => {
                let (new_items, mono) = out;
                match specialized_stmt_list(body, consts, cx, 0, Seq::empty(), mono) {
                    Ok(out) => {
                        let (new_body, mono) = out;
                        Ok((StmtKindView::With { items: new_items, body: new_body }, mono))
                    },
                    Err(error) => Err(error),
                }
            },
            Err(error) => Err(error),
        },
        StmtKindView::Def {
            name,
            decorators,
            type_params,
            params,
            positional_only,
            keyword_only,
            captures,
            raises,
            raises_type,
            ret,
            where_clause,
            body,
        } => match specialized_stmt_list(body, consts, cx, 0, Seq::empty(), mono) {
            Ok(out) => {
                let (new_body, mono) = out;
                Ok(
                    (
                        StmtKindView::Def {
                            name,
                            decorators,
                            type_params,
                            params,
                            positional_only,
                            keyword_only,
                            captures,
                            raises,
                            raises_type,
                            ret,
                            where_clause,
                            body: new_body,
                        },
                        mono,
                    )
                )
            },
            Err(error) => Err(error),
        },
        _ => specialized_stmt_kind_rest(stmt_kind, consts, cx, mono),
    }
}

/// See [`specialized_stmt_kind_further`].
pub fn mono_stmt_kind_further(
    stmt_kind: &StmtKind,
    consts: &Vec<(String, CtValue)>,
    cx: &CtContext,
    mono: Mono,
) -> (r: Result<(StmtKind, Mono), ComptimeError>)
    ensures
        (match r { Ok(v) => Ok((v.0@, v.1@)), Err(v) => Err(v@) }) == specialized_stmt_kind_further(
            stmt_kind@,
            binding_list_view(consts@),
            cx@,
            mono@,
        ),
    decreases stmt_kind, 1nat,
{
    proof { unfold_stmt_kind(*stmt_kind); }
    match stmt_kind {
        StmtKind::While { cond, body, orelse } => {
            let (new_cond, mono) = match mono_expr(cond, consts, cx, mono) {
                Ok(done) => done,
                Err(error) => {
                    return Err(error);
                },
            };
            let (new_body, mono) = match mono_stmt_list(body, consts, cx, mono) {
                Ok(done) => done,
                Err(error) => {
                    return Err(error);
                },
            };
            let kind = StmtKind::While {
                cond: new_cond,
                body: new_body,
                orelse: (match orelse { Some(y) => Some(clone_stmt_list(y)), None => None }),
            };
            proof { unfold_stmt_kind(kind); }
            Ok((kind, mono))
        },
        StmtKind::For { var, reference, owned, iter, body, orelse } => {
            let (new_iter, mono) = match mono_expr(iter, consts, cx, mono) {
                Ok(done) => done,
                Err(error) => {
                    return Err(error);
                },
            };
            let (new_body, mono) = match mono_stmt_list(body, consts, cx, mono) {
                Ok(done) => done,
                Err(error) => {
                    return Err(error);
                },
            };
            let kind2 = StmtKind::For {
                var: var.clone(),
                reference: *reference,
                owned: *owned,
                iter: new_iter,
                body: new_body,
                orelse: (match orelse { Some(y) => Some(clone_stmt_list(y)), None => None }),
            };
            proof { unfold_stmt_kind(kind2); }
            Ok((kind2, mono))
        },
        StmtKind::ComptimeFor { var, iter, body } => {
            let (new_iter, mono) = match mono_expr(iter, consts, cx, mono) {
                Ok(done) => done,
                Err(error) => {
                    return Err(error);
                },
            };
            let (new_body, mono) = match mono_stmt_list(body, consts, cx, mono) {
                Ok(done) => done,
                Err(error) => {
                    return Err(error);
                },
            };
            let kind3 = StmtKind::ComptimeFor { var: var.clone(), iter: new_iter, body: new_body };
            proof { unfold_stmt_kind(kind3); }
            Ok((kind3, mono))
        },
        StmtKind::Try { body, except, orelse, finalbody } => {
            let (new_body, mono) = match mono_stmt_list(body, consts, cx, mono) {
                Ok(done) => done,
                Err(error) => {
                    return Err(error);
                },
            };
            let (new_except, mono) = match mono_opt_opt_string_stmt_list(except, consts, cx, mono) {
                Ok(done) => done,
                Err(error) => {
                    return Err(error);
                },
            };
            let (new_orelse, mono) = match mono_opt_stmt_list(orelse, consts, cx, mono) {
                Ok(done) => done,
                Err(error) => {
                    return Err(error);
                },
            };
            let (new_finalbody, mono) = match mono_opt_stmt_list(finalbody, consts, cx, mono) {
                Ok(done) => done,
                Err(error) => {
                    return Err(error);
                },
            };
            let kind4 = StmtKind::Try {
                body: new_body,
                except: new_except,
                orelse: new_orelse,
                finalbody: new_finalbody,
            };
            proof { unfold_stmt_kind(kind4); }
            Ok((kind4, mono))
        },
        StmtKind::With { items, body } => {
            let (new_items, mono) = match mono_with_item_list(items, consts, cx, mono) {
                Ok(done) => done,
                Err(error) => {
                    return Err(error);
                },
            };
            let (new_body, mono) = match mono_stmt_list(body, consts, cx, mono) {
                Ok(done) => done,
                Err(error) => {
                    return Err(error);
                },
            };
            let kind5 = StmtKind::With { items: new_items, body: new_body };
            proof { unfold_stmt_kind(kind5); }
            Ok((kind5, mono))
        },
        StmtKind::Def {
            name,
            decorators,
            type_params,
            params,
            positional_only,
            keyword_only,
            captures,
            raises,
            raises_type,
            ret,
            where_clause,
            body,
        } => {
            let (new_body, mono) = match mono_stmt_list(body, consts, cx, mono) {
                Ok(done) => done,
                Err(error) => {
                    return Err(error);
                },
            };
            let kind6 = StmtKind::Def {
                name: name.clone(),
                decorators: clone_string_list(decorators),
                type_params: clone_type_param_list(type_params),
                params: clone_fn_param_list(params),
                positional_only: *positional_only,
                keyword_only: *keyword_only,
                captures: (match captures { Some(y) => Some(clone_capture_list(y)), None => None }),
                raises: *raises,
                raises_type: (match raises_type { Some(y) => Some(clone_type(y)), None => None }),
                ret: (match ret { Some(y) => Some(clone_type(y)), None => None }),
                where_clause: (match where_clause { Some(y) => Some(clone_expr(y)), None => None }),
                body: new_body,
            };
            proof { unfold_stmt_kind(kind6); }
            Ok((kind6, mono))
        },
        _ => {
            assert(!(stmt_kind@ is While));
            assert(!(stmt_kind@ is For));
            assert(!(stmt_kind@ is ComptimeFor));
            assert(!(stmt_kind@ is Try));
            assert(!(stmt_kind@ is With));
            assert(!(stmt_kind@ is Def));
            mono_stmt_kind_rest(stmt_kind, consts, cx, mono)
        },
    }
}

pub open spec fn specialized_stmt_kind_rest(
    stmt_kind: StmtKindView,
    consts: Seq<(Seq<char>, CtValueView)>,
    cx: CtContextView,
    mono: MonoView,
) -> Result<(StmtKindView, MonoView), ComptimeErrorView>
    decreases stmt_kind, 0nat,
{
    match stmt_kind {
        StmtKindView::Struct {
            name,
            decorators,
            type_params,
            conforms,
            callable_conformance,
            conformance_conditions,
            fields,
            associated,
            methods,
            fieldwise_init,
        } => match specialized_method_list(methods, consts, cx, 0, Seq::empty(), mono) {
            Ok(out) => {
                let (new_methods, mono) = out;
                Ok(
                    (
                        StmtKindView::Struct {
                            name,
                            decorators,
                            type_params,
                            conforms,
                            callable_conformance,
                            conformance_conditions,
                            fields,
                            associated,
                            methods: new_methods,
                            fieldwise_init,
                        },
                        mono,
                    )
                )
            },
            Err(error) => Err(error),
        },
        _ => Ok((stmt_kind, mono)),
    }
}

/// See [`specialized_stmt_kind_rest`].
pub fn mono_stmt_kind_rest(
    stmt_kind: &StmtKind,
    consts: &Vec<(String, CtValue)>,
    cx: &CtContext,
    mono: Mono,
) -> (r: Result<(StmtKind, Mono), ComptimeError>)
    ensures
        (
            match r { Ok(v) => Ok((v.0@, v.1@)), Err(v) => Err(v@) }
        ) == specialized_stmt_kind_rest(stmt_kind@, binding_list_view(consts@), cx@, mono@),
    decreases stmt_kind, 0nat,
{
    proof { unfold_stmt_kind(*stmt_kind); }
    match stmt_kind {
        StmtKind::Struct {
            name,
            decorators,
            type_params,
            conforms,
            callable_conformance,
            conformance_conditions,
            fields,
            associated,
            methods,
            fieldwise_init,
        } => {
            let (new_methods, mono) = match mono_method_list(methods, consts, cx, mono) {
                Ok(done) => done,
                Err(error) => {
                    return Err(error);
                },
            };
            let kind = StmtKind::Struct {
                name: name.clone(),
                decorators: clone_string_list(decorators),
                type_params: clone_type_param_list(type_params),
                conforms: clone_string_list(conforms),
                callable_conformance: (
                    match callable_conformance { Some(y) => Some(clone_type(y)), None => None }
                ),
                conformance_conditions: clone_expr_list(conformance_conditions),
                fields: clone_param_list(fields),
                associated: clone_struct_comptime_list(associated),
                methods: new_methods,
                fieldwise_init: *fieldwise_init,
            };
            proof { unfold_stmt_kind(kind); }
            Ok((kind, mono))
        },
        _ => {
            assert(!(stmt_kind@ is Struct));
            Ok((clone_stmt_kind(stmt_kind), mono))
        },
    }
}

pub open spec fn specialized_stmt(
    stmt: StmtView,
    consts: Seq<(Seq<char>, CtValueView)>,
    cx: CtContextView,
    mono: MonoView,
) -> Result<(StmtView, MonoView), ComptimeErrorView>
    decreases stmt, 0nat,
{
    match specialized_stmt_kind(stmt.kind, consts, cx, mono) {
        Ok(out) => {
            let (new_kind, mono) = out;
            Ok((StmtView { kind: new_kind, span: stmt.span, module: stmt.module }, mono))
        },
        Err(error) => Err(error),
    }
}

/// See [`specialized_stmt`].
pub fn mono_stmt(
    stmt: &Stmt,
    consts: &Vec<(String, CtValue)>,
    cx: &CtContext,
    mono: Mono,
) -> (r: Result<(Stmt, Mono), ComptimeError>)
    ensures
        (
            match r { Ok(v) => Ok((v.0@, v.1@)), Err(v) => Err(v@) }
        ) == specialized_stmt(stmt@, binding_list_view(consts@), cx@, mono@),
    decreases stmt, 0nat,
{
    let (new_kind, mono) = match mono_stmt_kind(&stmt.kind, consts, cx, mono) {
        Ok(done) => done,
        Err(error) => {
            return Err(error);
        },
    };
    Ok(
        (
            Stmt {
                kind: new_kind,
                span: stmt.span,
                module: (match (&stmt.module) { Some(y) => Some(y.clone()), None => None }),
            },
            mono,
        )
    )
}

} // verus!
