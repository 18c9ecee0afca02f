//! Elaboration: `comptime` constants, branches and loops are resolved, and `with`
//! becomes `try`.

use crate::ast::{
    Expr, ExprKind, ExprKindView, ExprView, KwArg, KwArgView, Method, MethodView, ParamArg,
    ParamArgView, Stmt, StmtKind, StmtKindView, StmtView, Type, TypeView, WithItem, WithItemView,
    branch_list_view, clone_capture_list, clone_expr, clone_expr_list, clone_fn_param_list,
    clone_param_list, clone_stmt, clone_struct_comptime_list, clone_type, clone_type_param_list,
    expr_list_view, kw_arg_list_view, method_list_view, param_arg_list_view, stmt_list_view,
    type_list_view, unfold_expr_kind, unfold_method, unfold_stmt_kind, unfold_type,
    with_item_list_view,
};
use crate::ct::literal_of;
use crate::elab::{
    ComptimeError, ComptimeErrorView, CtContext, CtContextView, as_bool, boolean_of, burn, burnt,
    find_template, no_comptime, not_comptime, template_named,
};
use crate::evaluate::{
    eval, eval_iter, evaluated, evaluated_iter, handle_type, nested_too_deep, too_deep,
    type_of_handle,
};
use crate::rewrite::{rewrite_stmt_list, rewritten_stmt_list};
use crate::show::{show_ty, ty_text};
use crate::stamp::{stamp_stmt_list, stamped_stmt_list};
use crate::text::{cat3, cat4, clone_string_list, decimal, opt_view, show_usize};
use crate::token::Span;
use crate::types::{
    CtValue, CtValueView, Ty, TyArg, TyArgView, TyView, binding_list_view, clone_binding_list,
    clone_ct_value, ct_value_list_view, ty_arg_list_view, ty_list_view, unfold_ty,
};
use crate::values::Value;
use vstd::prelude::*;

verus! {

/// What elaboration carries from statement to statement.
#[derive(Debug, PartialEq, Eq)]
pub struct ElabState {
    /// Steps left.
    pub fuel: usize,
    /// The compile-time values in scope.
    pub env: Vec<(String, CtValue)>,
    /// The constants of the module.
    pub top: Vec<(String, CtValue)>,
}

/// What a [`ElabState`] holds.
pub struct ElabStateView {
    pub fuel: usize,
    pub env: Seq<(Seq<char>, CtValueView)>,
    pub top: Seq<(Seq<char>, CtValueView)>,
}

pub open spec fn elab_state_view(x: ElabState) -> ElabStateView
    decreases x,
{
    ElabStateView {
        fuel: x.fuel,
        env: binding_list_view(x.env@),
        top: binding_list_view(x.top@),
    }
}

impl View for ElabState {
    type V = ElabStateView;

    open spec fn view(&self) -> ElabStateView {
        elab_state_view(*self)
    }
}

pub fn clone_elab_state(x: &ElabState) -> (r: ElabState)
    ensures
        elab_state_view(r) == elab_state_view(*x),
    decreases x,
{
    let r = ElabState {
        fuel: x.fuel,
        env: clone_binding_list((&x.env)),
        top: clone_binding_list((&x.top)),
    };
    proof {
        unfold_elab_state(*x);
        unfold_elab_state(r);
    }
    r
}

impl Clone for ElabState {
    fn clone(&self) -> (r: Self)
        ensures
            r@ == self@,
    {
        clone_elab_state(self)
    }
}

pub proof fn unfold_elab_state(x: ElabState)
    ensures
        elab_state_view(x) == (ElabStateView { fuel: x.fuel, env: binding_list_view(x.env@), top: binding_list_view(x.top@) }),
{
        assert(elab_state_view(x).env =~= binding_list_view(x.env@));
        assert(elab_state_view(x).top =~= binding_list_view(x.top@));
}

#[verifier::opaque]
pub open spec fn unplaced(kind: StmtKindView, span: Span) -> StmtView {
    StmtView { kind, span, module: None }
}

/// See [`unplaced`].
pub fn mk(kind: StmtKind, span: Span) -> (r: Stmt)
    ensures
        r@ == unplaced(kind@, span),
{
    proof { reveal(unplaced); }
    Stmt { kind, span, module: None }
}

#[verifier::opaque]
pub open spec fn expr_unplaced(kind: ExprKindView, span: Span) -> ExprView {
    ExprView { kind, span, source: None }
}

/// See [`expr_unplaced`].
pub fn unplaced_expr(kind: ExprKind, span: Span) -> (r: Expr)
    ensures
        r@ == expr_unplaced(kind@, span),
{
    proof { reveal(expr_unplaced); }
    Expr { kind, span, source: None }
}

#[verifier::opaque]
pub open spec fn single(kind: StmtKindView, span: Span) -> Seq<StmtView> {
    seq![unplaced(kind, span)]
}

/// See [`single`].
pub fn one(kind: StmtKind, span: Span) -> (r: Vec<Stmt>)
    ensures
        stmt_list_view(r@) == single(kind@, span),
{
    proof { reveal(single); }
    let item = mk(kind, span);
    let ghost seen = item@;
    let list = vec![item];
    assert(stmt_list_view(list@) =~= seq![seen]);
    list
}

/// A type that some handle's `T` names, as it is written in source; other types with
/// the types in them so resolved.
pub open spec fn resolved_type(
    source: TypeView,
    scope: Seq<(Seq<char>, CtValueView)>,
) -> Result<TypeView, ComptimeErrorView>
    decreases source, 1nat,
{
    match handle_in(source, scope) {
        Some(ty) => match source_type(ty) {
            Some(written) => Ok(written),
            None => Err(
                no_comptime("reflected type '"@ + ty_text(ty) + "' cannot be represented in a source annotation"@)
            ),
        },
        None => resolved_inner(source, scope),
    }
}

/// See [`resolved_type`].
pub fn resolve_reflected_type(
    source: &Type,
    scope: &Vec<(String, CtValue)>,
) -> (r: Result<Type, ComptimeError>)
    ensures
        (
            match r { Ok(v) => Ok(v@), Err(v) => Err(v@) }
        ) == resolved_type(source@, binding_list_view(scope@)),
    decreases source, 1nat,
{
    match handle_named(source, scope) {
        Some(ty) => {
            match source_type_from_ty(&ty) {
                Some(written) => Ok(written),
                None => Err(
                    not_comptime(
                        cat3(
                            "reflected type '",
                            show_ty(&ty).as_str(),
                            "' cannot be represented in a source annotation",
                        )
                    )
                ),
            }
        },
        None => resolve_inner_types(source, scope),
    }
}

#[verifier::opaque]
pub open spec fn handle_in(
    source: TypeView,
    scope: Seq<(Seq<char>, CtValueView)>,
) -> Option<TyView> {
    match source {
        TypeView::Assoc { base, name } => type_of_handle(*base, name, scope),
        _ => None,
    }
}

/// See [`handle_in`].
pub fn handle_named(source: &Type, scope: &Vec<(String, CtValue)>) -> (r: Option<Ty>)
    ensures
        opt_view(r) == handle_in(source@, binding_list_view(scope@)),
{
    proof { reveal(handle_in); }
    proof { unfold_type(*source); }
    match source {
        Type::Assoc { base, name } => handle_type(&**base, name, scope),
        _ => {
            assert(!(source@ is Assoc));
            None
        },
    }
}

pub open spec fn resolved_inner(
    source: TypeView,
    scope: Seq<(Seq<char>, CtValueView)>,
) -> Result<TypeView, ComptimeErrorView>
    decreases source, 0nat,
{
    match source {
        TypeView::Named(name, args) => match resolved_param_args(args, scope, 0, Seq::empty()) {
            Ok(out) => {
                let args = out;
                Ok(TypeView::Named(name, args))
            },
            Err(error) => Err(error),
        },
        TypeView::Assoc { base, name } => match resolved_type(*base, scope) {
            Ok(out) => {
                let base = out;
                Ok(TypeView::Assoc { base: Box::new(base), name })
            },
            Err(error) => Err(error),
        },
        TypeView::Func {
            params,
            ret,
            thin,
            raises,
            raises_type,
        } => match resolved_types(params, scope, 0, Seq::empty()) {
            Ok(out) => {
                let params = out;
                match resolved_type(*ret, scope) {
                    Ok(out) => {
                        let ret = out;
                        match resolved_opt_type(raises_type, scope) {
                            Ok(out) => {
                                let raises_type = out;
                                Ok(
                                    TypeView::Func {
                                        params,
                                        ret: Box::new(ret),
                                        thin,
                                        raises,
                                        raises_type,
                                    }
                                )
                            },
                            Err(error) => Err(error),
                        }
                    },
                    Err(error) => Err(error),
                }
            },
            Err(error) => Err(error),
        },
        TypeView::Ref { referent, origin } => match resolved_type(*referent, scope) {
            Ok(out) => {
                let referent = out;
                Ok(TypeView::Ref { referent: Box::new(referent), origin })
            },
            Err(error) => Err(error),
        },
        _ => Ok(source),
    }
}

/// See [`resolved_inner`].
pub fn resolve_inner_types(
    source: &Type,
    scope: &Vec<(String, CtValue)>,
) -> (r: Result<Type, ComptimeError>)
    ensures
        (
            match r { Ok(v) => Ok(v@), Err(v) => Err(v@) }
        ) == resolved_inner(source@, binding_list_view(scope@)),
    decreases source, 0nat,
{
    proof { unfold_type(*source); }
    match source {
        Type::Named(name, args) => {
            let args = match resolve_reflected_args(args, scope) {
                Ok(done) => done,
                Err(error) => {
                    return Err(error);
                },
            };
            let type_value = Type::Named(name.clone(), args);
            proof { unfold_type(type_value); }
            Ok(type_value)
        },
        Type::Assoc { base, name } => {
            let base = match resolve_reflected_type(&**base, scope) {
                Ok(done) => done,
                Err(error) => {
                    return Err(error);
                },
            };
            let type_value2 = Type::Assoc { base: Box::new(base), name: name.clone() };
            proof { unfold_type(type_value2); }
            Ok(type_value2)
        },
        Type::Func { params, ret, thin, raises, raises_type } => {
            let params = match resolve_reflected_types(params, scope) {
                Ok(done) => done,
                Err(error) => {
                    return Err(error);
                },
            };
            let ret = match resolve_reflected_type(&**ret, scope) {
                Ok(done) => done,
                Err(error) => {
                    return Err(error);
                },
            };
            let raises_type = match resolve_opt_type(raises_type, scope) {
                Ok(done) => done,
                Err(error) => {
                    return Err(error);
                },
            };
            let type_value3 = Type::Func {
                params,
                ret: Box::new(ret),
                thin: *thin,
                raises: *raises,
                raises_type,
            };
            proof { unfold_type(type_value3); }
            Ok(type_value3)
        },
        Type::Ref { referent, origin } => {
            let referent = match resolve_reflected_type(&**referent, scope) {
                Ok(done) => done,
                Err(error) => {
                    return Err(error);
                },
            };
            let type_value4 = Type::Ref {
                referent: Box::new(referent),
                origin: (
                    match origin { Some(y) => Some(Box::new(clone_expr((&**y)))), None => None }
                ),
            };
            proof { unfold_type(type_value4); }
            Ok(type_value4)
        },
        _ => {
            assert(!(source@ is Named));
            assert(!(source@ is Assoc));
            assert(!(source@ is Func));
            assert(!(source@ is Ref));
            Ok(clone_type(source))
        },
    }
}

pub open spec fn resolved_opt_type(
    ty: Option<Box<TypeView>>,
    scope: Seq<(Seq<char>, CtValueView)>,
) -> Result<Option<Box<TypeView>>, ComptimeErrorView>
    decreases ty, 0nat,
{
    match ty {
        Some(ty) => match resolved_type(*ty, scope) {
            Ok(out) => {
                let ty = out;
                Ok(Some(Box::new(ty)))
            },
            Err(error) => Err(error),
        },
        None => Ok(None),
    }
}

/// See [`resolved_opt_type`].
pub fn resolve_opt_type(
    ty: &Option<Box<Type>>,
    scope: &Vec<(String, CtValue)>,
) -> (r: Result<Option<Box<Type>>, ComptimeError>)
    ensures
        (
            match r {
                Ok(v) => Ok((match v { Some(v1) => Some(Box::new(v1@)), None => None })),
                Err(v) => Err(v@),
            }
        ) == resolved_opt_type(
            (match ty { Some(v) => Some(Box::new(v@)), None => None }),
            binding_list_view(scope@),
        ),
    decreases ty, 0nat,
{
    match ty {
        Some(ty) => {
            let ty = match resolve_reflected_type(&**ty, scope) {
                Ok(done) => done,
                Err(error) => {
                    return Err(error);
                },
            };
            Ok(Some(Box::new(ty)))
        },
        None => Ok(None),
    }
}

pub open spec fn resolved_types(
    types: Seq<TypeView>,
    scope: Seq<(Seq<char>, CtValueView)>,
    i: nat,
    out: Seq<TypeView>,
) -> Result<Seq<TypeView>, ComptimeErrorView>
    decreases types, (types.len() - i) as nat,
{
    if i >= types.len() {
        Ok(out)
    } else {
        let ty = types[i as int];
        match resolved_type(ty, scope) {
            Ok(taken) => {
                let resolved = taken;
                let out = out.push(resolved);
                resolved_types(types, scope, i + 1, out)
            },
            Err(error) => Err(error),
        }
    }
}

/// See [`resolved_types`].
pub fn resolve_reflected_types(
    types: &Vec<Type>,
    scope: &Vec<(String, CtValue)>,
) -> (r: Result<Vec<Type>, ComptimeError>)
    ensures
        (match r { Ok(v) => Ok(type_list_view(v@)), Err(v) => Err(v@) }) == resolved_types(
            type_list_view(types@),
            binding_list_view(scope@),
            0,
            Seq::<TypeView>::empty(),
        ),
    decreases types@, 0nat,
{
    let mut out: Vec<Type> = Vec::new();
    assert(type_list_view(out@) =~= Seq::<TypeView>::empty());
    let ghost goal = resolved_types(
        type_list_view(types@),
        binding_list_view(scope@),
        0,
        Seq::<TypeView>::empty(),
    );
    let mut i: usize = 0;
    while i < types.len()
        invariant
            i <= types@.len(),
            type_list_view(types@).len() == types@.len(),
            resolved_types(
                type_list_view(types@),
                binding_list_view(scope@),
                i as nat,
                type_list_view(out@),
            ) == goal,
            goal == resolved_types(
                type_list_view(types@),
                binding_list_view(scope@),
                0,
                Seq::<TypeView>::empty(),
            ),
        decreases types@.len() - i,
    {
        let ty = &types[i];
        assert(type_list_view(types@)[i as int] == ty@);
        let resolved = match resolve_reflected_type(ty, scope) {
            Ok(done) => done,
            Err(error) => {
                return Err(error);
            },
        };
        let ghost before = type_list_view(out@);
        let ghost added = resolved@;
        out.push(resolved);
        assert(type_list_view(out@) =~= before.push(added));
        i = i + 1;
    }
    Ok(out)
}

pub open spec fn resolved_param_args(
    args: Seq<ParamArgView>,
    scope: Seq<(Seq<char>, CtValueView)>,
    i: nat,
    out: Seq<ParamArgView>,
) -> Result<Seq<ParamArgView>, ComptimeErrorView>
    decreases args, (args.len() - i) as nat,
{
    if i >= args.len() {
        Ok(out)
    } else {
        let arg = args[i as int];
        match resolved_param_arg(arg, scope) {
            Ok(taken) => {
                let resolved = taken;
                let out = out.push(resolved);
                resolved_param_args(args, scope, i + 1, out)
            },
            Err(error) => Err(error),
        }
    }
}

/// See [`resolved_param_args`].
pub fn resolve_reflected_args(
    args: &Vec<ParamArg>,
    scope: &Vec<(String, CtValue)>,
) -> (r: Result<Vec<ParamArg>, ComptimeError>)
    ensures
        (
            match r { Ok(v) => Ok(param_arg_list_view(v@)), Err(v) => Err(v@) }
        ) == resolved_param_args(
            param_arg_list_view(args@),
            binding_list_view(scope@),
            0,
            Seq::<ParamArgView>::empty(),
        ),
    decreases args@, 0nat,
{
    let mut out: Vec<ParamArg> = Vec::new();
    assert(param_arg_list_view(out@) =~= Seq::<ParamArgView>::empty());
    let ghost goal = resolved_param_args(
        param_arg_list_view(args@),
        binding_list_view(scope@),
        0,
        Seq::<ParamArgView>::empty(),
    );
    let mut i: usize = 0;
    while i < args.len()
        invariant
            i <= args@.len(),
            param_arg_list_view(args@).len() == args@.len(),
            resolved_param_args(
                param_arg_list_view(args@),
                binding_list_view(scope@),
                i as nat,
                param_arg_list_view(out@),
            ) == goal,
            goal == resolved_param_args(
                param_arg_list_view(args@),
                binding_list_view(scope@),
                0,
                Seq::<ParamArgView>::empty(),
            ),
        decreases args@.len() - i,
    {
        let arg = &args[i];
        assert(param_arg_list_view(args@)[i as int] == arg@);
        let resolved = match resolve_reflected_param_arg(arg, scope) {
            Ok(done) => done,
            Err(error) => {
                return Err(error);
            },
        };
        let ghost before = param_arg_list_view(out@);
        let ghost added = resolved@;
        out.push(resolved);
        assert(param_arg_list_view(out@) =~= before.push(added));
        i = i + 1;
    }
    Ok(out)
}

pub open spec fn resolved_param_arg(
    arg: ParamArgView,
    scope: Seq<(Seq<char>, CtValueView)>,
) -> Result<ParamArgView, ComptimeErrorView>
    decreases arg, 0nat,
{
    match arg {
        ParamArgView::Type(ty) => match resolved_type(ty, scope) {
            Ok(out) => {
                let ty = out;
                Ok(ParamArgView::Type(ty))
            },
            Err(error) => Err(error),
        },
        ParamArgView::Value(value) => Ok(ParamArgView::Value(value)),
        ParamArgView::Named { name, value } => match resolved_param_arg(*value, scope) {
            Ok(out) => {
                let value = out;
                Ok(ParamArgView::Named { name, value: Box::new(value) })
            },
            Err(error) => Err(error),
        },
    }
}

/// See [`resolved_param_arg`].
pub fn resolve_reflected_param_arg(
    arg: &ParamArg,
    scope: &Vec<(String, CtValue)>,
) -> (r: Result<ParamArg, ComptimeError>)
    ensures
        (
            match r { Ok(v) => Ok(v@), Err(v) => Err(v@) }
        ) == resolved_param_arg(arg@, binding_list_view(scope@)),
    decreases arg, 0nat,
{
    match arg {
        ParamArg::Type(ty) => {
            let ty = match resolve_reflected_type(ty, scope) {
                Ok(done) => done,
                Err(error) => {
                    return Err(error);
                },
            };
            Ok(ParamArg::Type(ty))
        },
        ParamArg::Value(value) => Ok(ParamArg::Value(clone_expr(value))),
        ParamArg::Named { name, value } => {
            let value = match resolve_reflected_param_arg(&**value, scope) {
                Ok(done) => done,
                Err(error) => {
                    return Err(error);
                },
            };
            Ok(ParamArg::Named { name: name.clone(), value: Box::new(value) })
        },
    }
}

/// A type as it is written in source.
pub open spec fn source_type(ty: TyView) -> Option<TypeView>
    decreases ty, 0nat,
{
    match ty {
        TyView::Int => Some(TypeView::Int),
        TyView::IntLiteral => Some(TypeView::Int),
        TyView::UInt => Some(TypeView::UInt),
        TyView::Bool => Some(TypeView::Bool),
        TyView::String => Some(TypeView::String),
        TyView::Float64 => Some(TypeView::Float64),
        TyView::FloatLiteral => Some(TypeView::Float64),
        TyView::NoneTy => Some(TypeView::NoneTy),
        TyView::List(element) => match source_type(*element) {
            Some(out) => {
                let element = out;
                Some(TypeView::Named("List"@, seq![ParamArgView::Type(element)]))
            },
            None => None,
        },
        TyView::Tuple(elements) => match source_types(elements, 0, Seq::empty()) {
            Some(out) => {
                let args = out;
                Some(TypeView::Named("Tuple"@, args))
            },
            None => None,
        },
        TyView::Struct(name, args) => match source_args(args, 0, Seq::empty()) {
            Some(out) => {
                let args = out;
                Some(TypeView::Named(name, args))
            },
            None => None,
        },
        _ => None,
    }
}

/// See [`source_type`].
pub fn source_type_from_ty(ty: &Ty) -> (r: Option<Type>)
    ensures
        opt_view(r) == source_type(ty@),
    decreases ty, 0nat,
{
    proof { unfold_ty(*ty); }
    match ty {
        Ty::Int => Some(Type::Int),
        Ty::IntLiteral => Some(Type::Int),
        Ty::UInt => Some(Type::UInt),
        Ty::Bool => Some(Type::Bool),
        Ty::String => Some(Type::String),
        Ty::Float64 => Some(Type::Float64),
        Ty::FloatLiteral => Some(Type::Float64),
        Ty::NoneTy => Some(Type::NoneTy),
        Ty::List(element) => {
            let element = match source_type_from_ty(&**element) {
                Some(found) => found,
                None => {
                    return None;
                },
            };
            let item = ParamArg::Type(element);
            let ghost seen = item@;
            let list = vec![item];
            assert(param_arg_list_view(list@) =~= seq![seen]);
            let type_value = Type::Named("List".to_owned(), list);
            proof { unfold_type(type_value); }
            Some(type_value)
        },
        Ty::Tuple(elements) => {
            let args = match source_types_from_tys(elements) {
                Some(found) => found,
                None => {
                    return None;
                },
            };
            let type_value2 = Type::Named("Tuple".to_owned(), args);
            proof { unfold_type(type_value2); }
            Some(type_value2)
        },
        Ty::Struct(name, args) => {
            let args = match source_args_from_ty_args(args) {
                Some(found) => found,
                None => {
                    return None;
                },
            };
            let type_value3 = Type::Named(name.clone(), args);
            proof { unfold_type(type_value3); }
            Some(type_value3)
        },
        _ => {
            assert(!(ty@ is Int));
            assert(!(ty@ is IntLiteral));
            assert(!(ty@ is UInt));
            assert(!(ty@ is Bool));
            assert(!(ty@ is String));
            assert(!(ty@ is Float64));
            assert(!(ty@ is FloatLiteral));
            assert(!(ty@ is NoneTy));
            assert(!(ty@ is List));
            assert(!(ty@ is Tuple));
            assert(!(ty@ is Struct));
            None
        },
    }
}

pub open spec fn source_types(
    types: Seq<TyView>,
    i: nat,
    out: Seq<ParamArgView>,
) -> Option<Seq<ParamArgView>>
    decreases types, (types.len() - i) as nat,
{
    if i >= types.len() {
        Some(out)
    } else {
        let ty = types[i as int];
        match source_type(ty) {
            Some(taken) => {
                let written = taken;
                let out = out.push(ParamArgView::Type(written));
                source_types(types, i + 1, out)
            },
            None => None,
        }
    }
}

/// See [`source_types`].
pub fn source_types_from_tys(types: &Vec<Ty>) -> (r: Option<Vec<ParamArg>>)
    ensures
        (
            match r { Some(v) => Some(param_arg_list_view(v@)), None => None }
        ) == source_types(ty_list_view(types@), 0, Seq::<ParamArgView>::empty()),
    decreases types@, 0nat,
{
    let mut out: Vec<ParamArg> = Vec::new();
    assert(param_arg_list_view(out@) =~= Seq::<ParamArgView>::empty());
    let ghost goal = source_types(ty_list_view(types@), 0, Seq::<ParamArgView>::empty());
    let mut i: usize = 0;
    while i < types.len()
        invariant
            i <= types@.len(),
            ty_list_view(types@).len() == types@.len(),
            source_types(ty_list_view(types@), i as nat, param_arg_list_view(out@)) == goal,
            goal == source_types(ty_list_view(types@), 0, Seq::<ParamArgView>::empty()),
        decreases types@.len() - i,
    {
        let ty = &types[i];
        assert(ty_list_view(types@)[i as int] == ty@);
        let written = match source_type_from_ty(ty) {
            Some(found) => found,
            None => {
                return None;
            },
        };
        let item = ParamArg::Type(written);
        let ghost before = param_arg_list_view(out@);
        let ghost added = item@;
        out.push(item);
        assert(param_arg_list_view(out@) =~= before.push(added));
        i = i + 1;
    }
    Some(out)
}

pub open spec fn source_args(
    args: Seq<TyArgView>,
    i: nat,
    out: Seq<ParamArgView>,
) -> Option<Seq<ParamArgView>>
    decreases args, (args.len() - i) as nat,
{
    if i >= args.len() {
        Some(out)
    } else {
        let arg = args[i as int];
        match source_arg(arg) {
            Some(taken) => {
                let written = taken;
                let out = out.push(written);
                source_args(args, i + 1, out)
            },
            None => None,
        }
    }
}

/// See [`source_args`].
pub fn source_args_from_ty_args(args: &Vec<TyArg>) -> (r: Option<Vec<ParamArg>>)
    ensures
        (
            match r { Some(v) => Some(param_arg_list_view(v@)), None => None }
        ) == source_args(ty_arg_list_view(args@), 0, Seq::<ParamArgView>::empty()),
    decreases args@, 0nat,
{
    let mut out: Vec<ParamArg> = Vec::new();
    assert(param_arg_list_view(out@) =~= Seq::<ParamArgView>::empty());
    let ghost goal = source_args(ty_arg_list_view(args@), 0, Seq::<ParamArgView>::empty());
    let mut i: usize = 0;
    while i < args.len()
        invariant
            i <= args@.len(),
            ty_arg_list_view(args@).len() == args@.len(),
            source_args(ty_arg_list_view(args@), i as nat, param_arg_list_view(out@)) == goal,
            goal == source_args(ty_arg_list_view(args@), 0, Seq::<ParamArgView>::empty()),
        decreases args@.len() - i,
    {
        let arg = &args[i];
        assert(ty_arg_list_view(args@)[i as int] == arg@);
        let written = match source_arg_from_ty_arg(arg) {
            Some(found) => found,
            None => {
                return None;
            },
        };
        let ghost before = param_arg_list_view(out@);
        let ghost added = written@;
        out.push(written);
        assert(param_arg_list_view(out@) =~= before.push(added));
        i = i + 1;
    }
    Some(out)
}

pub open spec fn source_arg(arg: TyArgView) -> Option<ParamArgView>
    decreases arg, 0nat,
{
    match arg {
        TyArgView::Ty(ty) => match source_type(ty) {
            Some(out) => {
                let ty = out;
                Some(ParamArgView::Type(ty))
            },
            None => None,
        },
        TyArgView::Val(value) => match literal_of(value, (0, 0)) {
            Some(out) => {
                let value = out;
                Some(ParamArgView::Value(value))
            },
            None => None,
        },
    }
}

/// See [`source_arg`].
pub fn source_arg_from_ty_arg(arg: &TyArg) -> (r: Option<ParamArg>)
    ensures
        opt_view(r) == source_arg(arg@),
    decreases arg, 0nat,
{
    match arg {
        TyArg::Ty(ty) => {
            let ty = match source_type_from_ty(ty) {
                Some(found) => found,
                None => {
                    return None;
                },
            };
            Some(ParamArg::Type(ty))
        },
        TyArg::Val(value) => {
            let value = match value.materialize((0, 0)) {
                Some(found) => found,
                None => {
                    return None;
                },
            };
            Some(ParamArg::Value(value))
        },
    }
}

#[verifier::opaque]
pub open spec fn and_value(
    values: Seq<(Seq<char>, CtValueView)>,
    name: Seq<char>,
    value: CtValueView,
) -> Seq<(Seq<char>, CtValueView)> {
    let out = values;
    let out = out.push((name, value));
    out
}

/// See [`and_value`].
pub fn with_value(
    values: Vec<(String, CtValue)>,
    name: &String,
    value: &CtValue,
) -> (r: Vec<(String, CtValue)>)
    ensures
        binding_list_view(r@) == and_value(binding_list_view(values@), name@, value@),
{
    proof { reveal(and_value); }
    let mut out = values;
    let item = (name.clone(), clone_ct_value(value));
    let ghost before = binding_list_view(out@);
    let ghost added = (item.0@, item.1@);
    out.push(item);
    assert(binding_list_view(out@) =~= before.push(added));
    out
}

/// A constant: its value is known from here on. One that has a literal stays as a
/// definition of it.
#[verifier::opaque]
pub open spec fn constant_elaborated(
    name: Seq<char>,
    value: CtValueView,
    span: Span,
    in_fn: bool,
    st: ElabStateView,
) -> (Seq<StmtView>, ElabStateView) {
    let top = if in_fn {
        st.top
    } else {
        and_value(st.top, name, value)
    };
    let env = and_value(st.env, name, value);
    let state = ElabStateView { fuel: st.fuel, env, top };
    let kept = match literal_of(value, span) {
        Some(literal) => single(StmtKindView::Comptime { name, value: literal }, span),
        None => Seq::empty(),
    };
    (kept, state)
}

/// See [`constant_elaborated`].
pub fn elab_constant(
    name: &String,
    value: &CtValue,
    span: Span,
    in_fn: bool,
    st: ElabState,
) -> (r: (Vec<Stmt>, ElabState))
    ensures
        (stmt_list_view(r.0@), r.1@) == constant_elaborated(name@, value@, span, in_fn, st@),
{
    proof { reveal(constant_elaborated); }
    let top = if in_fn {
        st.top
    } else {
        with_value(st.top, name, value)
    };
    let env = with_value(st.env, name, value);
    let state2 = ElabState { fuel: st.fuel, env, top };
    proof { unfold_elab_state(state2); }
    let state = state2;
    let kept = match value.materialize(span) {
        Some(literal) => {
            let kind = StmtKind::Comptime { name: name.clone(), value: literal };
            proof { unfold_stmt_kind(kind); }
            one(kind, span)
        },
        None => {
            let list: Vec<Stmt> = Vec::new();
            assert(stmt_list_view(list@) =~= Seq::<StmtView>::empty());
            list
        },
    };
    (kept, state)
}

#[verifier::opaque]
pub open spec fn fuel_set(st: ElabStateView, fuel: usize) -> ElabStateView {
    ElabStateView { fuel, env: st.env, top: st.top }
}

/// See [`fuel_set`].
pub fn with_fuel(st: ElabState, fuel: usize) -> (r: ElabState)
    ensures
        r@ == fuel_set(st@, fuel),
{
    proof { reveal(fuel_set); }
    let state = ElabState { fuel, env: st.env, top: st.top };
    proof { unfold_elab_state(state); }
    state
}

/// Statements put behind others.
pub fn joined_stmts(more: &Vec<Stmt>, found: Vec<Stmt>) -> (r: Vec<Stmt>)
    ensures
        stmt_list_view(r@) == stmt_list_view(found@) + stmt_list_view(more@),
{
    let mut r = found;
    for i in 0..more.len()
        invariant
            stmt_list_view(r@) == stmt_list_view(found@) + stmt_list_view(more@).take(i as int),
    {
        let ghost before = r@;
        r.push(clone_stmt(&more[i]));
        assert(stmt_list_view(r@) =~= stmt_list_view(before).push(stmt_list_view(more@)[i as int]));
        assert(stmt_list_view(r@) =~= stmt_list_view(found@) + stmt_list_view(more@).take(i + 1));
    }
    assert(stmt_list_view(more@).take(more@.len() as int) =~= stmt_list_view(more@));
    r
}

#[verifier::opaque]
pub open spec fn stamped_by(stmts: Seq<StmtView>, module: Option<Seq<char>>) -> Seq<StmtView> {
    match module {
        Some(source) => stamped_stmt_list(stmts, source, 0, Seq::empty()),
        None => stmts,
    }
}

/// See [`stamped_by`].
pub fn stamped_all(stmts: Vec<Stmt>, module: &Option<String>) -> (r: Vec<Stmt>)
    ensures
        stmt_list_view(r@) == stamped_by(stmt_list_view(stmts@), opt_view(*module)),
{
    proof { reveal(stamped_by); }
    match module {
        Some(source) => stamp_stmt_list(&stmts, source),
        None => stmts,
    }
}

/// A method call without arguments.
#[verifier::opaque]
pub open spec fn called_plainly(object: Seq<char>, method: Seq<char>, span: Span) -> ExprView {
    let receiver = expr_unplaced(ExprKindView::Identifier(object), span);
    expr_unplaced(
        ExprKindView::MethodCall {
            object: Box::new(receiver),
            method,
            args: Seq::empty(),
            kwargs: Seq::empty(),
        },
        span,
    )
}

/// See [`called_plainly`].
pub fn plain_call(object: &String, method: &str, span: Span) -> (r: Expr)
    ensures
        r@ == called_plainly(object@, method@, span),
{
    proof { reveal(called_plainly); }
    let kind = ExprKind::Identifier(object.clone());
    proof { unfold_expr_kind(kind); }
    let receiver = unplaced_expr(kind, span);
    let list: Vec<Expr> = Vec::new();
    assert(expr_list_view(list@) =~= Seq::<ExprView>::empty());
    let list2: Vec<KwArg> = Vec::new();
    assert(kw_arg_list_view(list2@) =~= Seq::<KwArgView>::empty());
    let kind2 = ExprKind::MethodCall {
        object: Box::new(receiver),
        method: method.to_owned(),
        args: list,
        kwargs: list2,
    };
    proof { unfold_expr_kind(kind2); }
    unplaced_expr(kind2, span)
}

#[verifier::opaque]
pub open spec fn entering(item: WithItemView, manager: Seq<char>, span: Span) -> StmtView {
    let enter = called_plainly(manager, "__enter__"@, span);
    match item.var {
        Some(name) => unplaced(StmtKindView::VarDecl { name, ty: None, value: enter }, span),
        None => unplaced(StmtKindView::Expr(enter), span),
    }
}

/// See [`entering`].
pub fn enter_stmt(item: &WithItem, manager: &String, span: Span) -> (r: Stmt)
    ensures
        r@ == entering(item@, manager@, span),
{
    proof { reveal(entering); }
    let enter = plain_call(manager, "__enter__", span);
    match &item.var {
        Some(name) => {
            let kind = StmtKind::VarDecl { name: name.clone(), ty: None, value: enter };
            proof { unfold_stmt_kind(kind); }
            mk(kind, span)
        },
        None => {
            let kind2 = StmtKind::Expr(enter);
            proof { unfold_stmt_kind(kind2); }
            mk(kind2, span)
        },
    }
}

/// A body inside one context manager: the manager is bound and entered, and is left
/// however the body ends.
#[verifier::opaque]
pub open spec fn inside_manager(
    item: WithItemView,
    k: usize,
    body: Seq<StmtView>,
    span: Span,
) -> Seq<StmtView> {
    let manager = "$with"@ + decimal(span.0 as nat) + "_"@ + decimal(k as nat);
    let bind = unplaced(
        StmtKindView::VarDecl { name: manager, ty: None, value: item.context },
        span,
    );
    let enter = entering(item, manager, span);
    let leave = single(StmtKindView::Expr(called_plainly(manager, "__exit__"@, span)), span);
    let run = unplaced(
        StmtKindView::Try { body, except: None, orelse: None, finalbody: Some(leave) },
        span,
    );
    seq![bind, enter, run]
}

/// See [`inside_manager`].
pub fn managed(item: &WithItem, k: usize, body: Vec<Stmt>, span: Span) -> (r: Vec<Stmt>)
    ensures
        stmt_list_view(r@) == inside_manager(item@, k, stmt_list_view(body@), span),
{
    proof { reveal(inside_manager); }
    let manager = cat4("$with", show_usize(span.0).as_str(), "_", show_usize(k).as_str());
    let kind = StmtKind::VarDecl {
        name: (&manager).clone(),
        ty: None,
        value: clone_expr(&item.context),
    };
    proof { unfold_stmt_kind(kind); }
    let bind = mk(kind, span);
    let enter = enter_stmt(item, &manager, span);
    let kind2 = StmtKind::Expr(plain_call(&manager, "__exit__", span));
    proof { unfold_stmt_kind(kind2); }
    let leave = one(kind2, span);
    let kind3 = StmtKind::Try { body, except: None, orelse: None, finalbody: Some(leave) };
    proof { unfold_stmt_kind(kind3); }
    let run = mk(kind3, span);
    let ghost seen = bind@;
    let ghost seen2 = enter@;
    let ghost seen3 = run@;
    let list = vec![bind, enter, run];
    assert(stmt_list_view(list@) =~= seq![seen, seen2, seen3]);
    list
}

/// A body inside the first of some context managers, the last one innermost.
pub open spec fn inside_managers(
    items: Seq<WithItemView>,
    k: usize,
    body: Seq<StmtView>,
    span: Span,
) -> Seq<StmtView>
    decreases k as nat,
{
    if k > 0 && k <= items.len() {
        let inner = inside_manager(items[(k - 1) as usize as int], (k - 1) as usize, body, span);
        inside_managers(items, (k - 1) as usize, inner, span)
    } else {
        body
    }
}

/// See [`inside_managers`].
pub fn all_managed(
    items: &Vec<WithItem>,
    k: usize,
    body: Vec<Stmt>,
    span: Span,
) -> (r: Vec<Stmt>)
    ensures
        stmt_list_view(r@) == inside_managers(
            with_item_list_view(items@),
            k,
            stmt_list_view(body@),
            span,
        ),
    decreases k as nat,
{
    if k > 0 && k <= items.len() {
        let inner = managed(&items[k - 1], k - 1, body, span);
        all_managed(items, k - 1, inner, span)
    } else {
        body
    }
}

/// A block without compile-time constructs. `in_fn` says that it stands inside a
/// function, whose constants are none of the module.
pub open spec fn block_elaborated(
    body: Seq<StmtView>,
    in_fn: bool,
    cx: CtContextView,
    depth: u32,
    i: nat,
    out: Seq<StmtView>,
    st: ElabStateView,
) -> Result<(Seq<StmtView>, ElabStateView), ComptimeErrorView>
    decreases depth, body, (body.len() - i) as nat,
{
    if i >= body.len() {
        Ok((out, st))
    } else {
        let stmt = body[i as int];
        match stmt_elaborated(stmt, in_fn, cx, st, depth) {
            Ok(taken) => {
                let (made, rest) = taken;
                let out = (out + stamped_by(made, stmt.module));
                let st = rest;
                block_elaborated(body, in_fn, cx, depth, i + 1, out, st)
            },
            Err(error) => Err(error),
        }
    }
}

/// See [`block_elaborated`].
pub fn elab_block(
    body: &Vec<Stmt>,
    in_fn: bool,
    cx: &CtContext,
    start: ElabState,
    depth: u32,
) -> (r: Result<(Vec<Stmt>, ElabState), ComptimeError>)
    ensures
        (
            match r { Ok(v) => Ok((stmt_list_view(v.0@), v.1@)), Err(v) => Err(v@) }
        ) == block_elaborated(
            stmt_list_view(body@),
            in_fn,
            cx@,
            depth,
            0,
            Seq::<StmtView>::empty(),
            start@,
        ),
    decreases depth, body@, 0nat,
{
    let mut out: Vec<Stmt> = Vec::new();
    assert(stmt_list_view(out@) =~= Seq::<StmtView>::empty());
    let mut st: ElabState = start;
    let ghost goal = block_elaborated(
        stmt_list_view(body@),
        in_fn,
        cx@,
        depth,
        0,
        Seq::<StmtView>::empty(),
        start@,
    );
    let mut i: usize = 0;
    while i < body.len()
        invariant
            i <= body@.len(),
            stmt_list_view(body@).len() == body@.len(),
            block_elaborated(
                stmt_list_view(body@),
                in_fn,
                cx@,
                depth,
                i as nat,
                stmt_list_view(out@),
                st@,
            ) == goal,
            goal == block_elaborated(
                stmt_list_view(body@),
                in_fn,
                cx@,
                depth,
                0,
                Seq::<StmtView>::empty(),
                start@,
            ),
        decreases body@.len() - i,
    {
        let stmt = &body[i];
        assert(stmt_list_view(body@)[i as int] == stmt@);
        let (made, rest) = match elab_stmt(stmt, in_fn, cx, st, depth) {
            Ok(done) => done,
            Err(error) => {
                return Err(error);
            },
        };
        out = joined_stmts(&stamped_all(made, &stmt.module), out);
        st = rest;
        i = i + 1;
    }
    Ok((out, st))
}

pub open spec fn opt_block_elaborated(
    block: Option<Seq<StmtView>>,
    in_fn: bool,
    cx: CtContextView,
    st: ElabStateView,
    depth: u32,
) -> Result<(Option<Seq<StmtView>>, ElabStateView), ComptimeErrorView>
    decreases depth, block, 0nat,
{
    match block {
        Some(body) => match block_elaborated(body, in_fn, cx, depth, 0, Seq::empty(), st) {
            Ok(out) => {
                let (body, st) = out;
                Ok((Some(body), st))
            },
            Err(error) => Err(error),
        },
        None => Ok((None, st)),
    }
}

/// See [`opt_block_elaborated`].
pub fn elab_opt_block(
    block: &Option<Vec<Stmt>>,
    in_fn: bool,
    cx: &CtContext,
    st: ElabState,
    depth: u32,
) -> (r: Result<(Option<Vec<Stmt>>, ElabState), ComptimeError>)
    ensures
        (
            match r {
                Ok(v) => Ok(
                    ((match v.0 { Some(v1) => Some(stmt_list_view(v1@)), None => None }), v.1@)
                ),
                Err(v) => Err(v@),
            }
        ) == opt_block_elaborated(
            (match block { Some(v) => Some(stmt_list_view(v@)), None => None }),
            in_fn,
            cx@,
            st@,
            depth,
        ),
    decreases depth, block, 0nat,
{
    match block {
        Some(body) => {
            let (body, st) = match elab_block(body, in_fn, cx, st, depth) {
                Ok(done) => done,
                Err(error) => {
                    return Err(error);
                },
            };
            Ok((Some(body), st))
        },
        None => Ok((None, st)),
    }
}

pub open spec fn branches_elaborated(
    branches: Seq<(ExprView, Seq<StmtView>)>,
    in_fn: bool,
    cx: CtContextView,
    depth: u32,
    i: nat,
    out: Seq<(ExprView, Seq<StmtView>)>,
    st: ElabStateView,
) -> Result<(Seq<(ExprView, Seq<StmtView>)>, ElabStateView), ComptimeErrorView>
    decreases depth, branches, (branches.len() - i) as nat,
{
    if i >= branches.len() {
        Ok((out, st))
    } else {
        let branch = branches[i as int];
        match block_elaborated(branch.1, in_fn, cx, depth, 0, Seq::empty(), st) {
            Ok(taken) => {
                let (body, rest) = taken;
                let out = out.push((branch.0, body));
                let st = rest;
                branches_elaborated(branches, in_fn, cx, depth, i + 1, out, st)
            },
            Err(error) => Err(error),
        }
    }
}

/// See [`branches_elaborated`].
pub fn elab_branches(
    branches: &Vec<(Expr, Vec<Stmt>)>,
    in_fn: bool,
    cx: &CtContext,
    start: ElabState,
    depth: u32,
) -> (r: Result<(Vec<(Expr, Vec<Stmt>)>, ElabState), ComptimeError>)
    ensures
        (
            match r { Ok(v) => Ok((branch_list_view(v.0@), v.1@)), Err(v) => Err(v@) }
        ) == branches_elaborated(
            branch_list_view(branches@),
            in_fn,
            cx@,
            depth,
            0,
            Seq::<(ExprView, Seq<StmtView>)>::empty(),
            start@,
        ),
    decreases depth, branches@, 0nat,
{
    let mut out: Vec<(Expr, Vec<Stmt>)> = Vec::new();
    assert(branch_list_view(out@) =~= Seq::<(ExprView, Seq<StmtView>)>::empty());
    let mut st: ElabState = start;
    let ghost goal = branches_elaborated(
        branch_list_view(branches@),
        in_fn,
        cx@,
        depth,
        0,
        Seq::<(ExprView, Seq<StmtView>)>::empty(),
        start@,
    );
    let mut i: usize = 0;
    while i < branches.len()
        invariant
            i <= branches@.len(),
            branch_list_view(branches@).len() == branches@.len(),
            branches_elaborated(
                branch_list_view(branches@),
                in_fn,
                cx@,
                depth,
                i as nat,
                branch_list_view(out@),
                st@,
            ) == goal,
            goal == branches_elaborated(
                branch_list_view(branches@),
                in_fn,
                cx@,
                depth,
                0,
                Seq::<(ExprView, Seq<StmtView>)>::empty(),
                start@,
            ),
        decreases branches@.len() - i,
    {
        let branch = &branches[i];
        assert(branch_list_view(branches@)[i as int].0 =~= branch.0@);
        assert(branch_list_view(branches@)[i as int].1 =~= stmt_list_view(branch.1@));
        let (body, rest) = match elab_block(&branch.1, in_fn, cx, st, depth) {
            Ok(done) => done,
            Err(error) => {
                return Err(error);
            },
        };
        let item = (clone_expr(&branch.0), body);
        let ghost before = branch_list_view(out@);
        let ghost added = (item.0@, stmt_list_view(item.1@));
        out.push(item);
        assert(branch_list_view(out@) =~= before.push(added));
        st = rest;
        i = i + 1;
    }
    Ok((out, st))
}

/// The first branch whose condition holds, as a block; nothing when none does.
pub open spec fn choice_elaborated(
    branches: Seq<(ExprView, Seq<StmtView>)>,
    in_fn: bool,
    cx: CtContextView,
    depth: u32,
    i: nat,
    st: ElabStateView,
) -> Result<(Option<Seq<StmtView>>, ElabStateView), ComptimeErrorView>
    decreases depth, branches, (branches.len() - i) as nat,
{
    if i >= branches.len() {
        Ok((None, st))
    } else {
        let branch = branches[i as int];
        match evaluated(branch.0, st.env, cx, st.fuel, 4294967295) {
            Ok(out) => {
                let (value, fuel) = out;
                match boolean_of(value, "comptime if condition"@) {
                    Ok(out) => {
                        let holds = out;
                        let st = fuel_set(st, fuel);
                        if holds {
                            branch_chosen(branch.1, in_fn, cx, st, depth)
                        } else {
                            choice_elaborated(branches, in_fn, cx, depth, i + 1, st)
                        }
                    },
                    Err(error) => Err(error),
                }
            },
            Err(error) => Err(error.error),
        }
    }
}

/// See [`choice_elaborated`].
pub fn elab_choice(
    branches: &Vec<(Expr, Vec<Stmt>)>,
    in_fn: bool,
    cx: &CtContext,
    start: ElabState,
    depth: u32,
) -> (r: Result<(Option<Vec<Stmt>>, ElabState), ComptimeError>)
    ensures
        (
            match r {
                Ok(v) => Ok(
                    ((match v.0 { Some(v1) => Some(stmt_list_view(v1@)), None => None }), v.1@)
                ),
                Err(v) => Err(v@),
            }
        ) == choice_elaborated(branch_list_view(branches@), in_fn, cx@, depth, 0, start@),
    decreases depth, branches@, 0nat,
{
    let mut st: ElabState = start;
    let ghost goal = choice_elaborated(branch_list_view(branches@), in_fn, cx@, depth, 0, start@);
    let mut i: usize = 0;
    while i < branches.len()
        invariant
            i <= branches@.len(),
            branch_list_view(branches@).len() == branches@.len(),
            choice_elaborated(
                branch_list_view(branches@),
                in_fn,
                cx@,
                depth,
                i as nat,
                st@,
            ) == goal,
            goal == choice_elaborated(branch_list_view(branches@), in_fn, cx@, depth, 0, start@),
        decreases branches@.len() - i,
    {
        let branch = &branches[i];
        assert(branch_list_view(branches@)[i as int].0 =~= branch.0@);
        assert(branch_list_view(branches@)[i as int].1 =~= stmt_list_view(branch.1@));
        let (value, fuel) = match eval(&branch.0, &st.env, cx, st.fuel, 4294967295) {
            Ok(done) => done,
            Err(error) => {
                return Err(error.error);
            },
        };
        let holds = match as_bool(&value, "comptime if condition") {
            Ok(done) => done,
            Err(error) => {
                return Err(error);
            },
        };
        st = with_fuel(st, fuel);
        if holds {
            return chosen_branch(&branch.1, in_fn, cx, st, depth);
        }
        i = i + 1;
    }
    Ok((None, st))
}

pub open spec fn branch_chosen(
    body: Seq<StmtView>,
    in_fn: bool,
    cx: CtContextView,
    st: ElabStateView,
    depth: u32,
) -> Result<(Option<Seq<StmtView>>, ElabStateView), ComptimeErrorView>
    decreases depth, body, (body.len() + 1) as nat,
{
    match block_elaborated(body, in_fn, cx, depth, 0, Seq::empty(), st) {
        Ok(out) => {
            let (body, st) = out;
            Ok((Some(body), st))
        },
        Err(error) => Err(error),
    }
}

/// See [`branch_chosen`].
pub fn chosen_branch(
    body: &Vec<Stmt>,
    in_fn: bool,
    cx: &CtContext,
    st: ElabState,
    depth: u32,
) -> (r: Result<(Option<Vec<Stmt>>, ElabState), ComptimeError>)
    ensures
        (
            match r {
                Ok(v) => Ok(
                    ((match v.0 { Some(v1) => Some(stmt_list_view(v1@)), None => None }), v.1@)
                ),
                Err(v) => Err(v@),
            }
        ) == branch_chosen(stmt_list_view(body@), in_fn, cx@, st@, depth),
    decreases depth, body@, 1nat,
{
    let (body, st) = match elab_block(body, in_fn, cx, st, depth) {
        Ok(done) => done,
        Err(error) => {
            return Err(error);
        },
    };
    Ok((Some(body), st))
}

/// A `comptime if`: the branch that is taken stands in its place.
pub open spec fn if_elaborated(
    kind: StmtKindView,
    in_fn: bool,
    cx: CtContextView,
    st: ElabStateView,
    depth: u32,
) -> Result<(Seq<StmtView>, ElabStateView), ComptimeErrorView>
    decreases depth, kind, 0nat,
{
    match kind {
        StmtKindView::ComptimeIf { branches, orelse } => match choice_elaborated(
            branches,
            in_fn,
            cx,
            depth,
            0,
            st,
        ) {
            Ok(out) => {
                let (chosen, st) = out;
                match chosen {
                    Some(body) => Ok((body, st)),
                    None => match opt_block_elaborated(orelse, in_fn, cx, st, depth) {
                        Ok(out) => {
                            let (body, st) = out;
                            match body {
                                Some(body) => Ok((body, st)),
                                None => Ok((Seq::empty(), st)),
                            }
                        },
                        Err(error) => Err(error),
                    },
                }
            },
            Err(error) => Err(error),
        },
        _ => Ok((Seq::empty(), st)),
    }
}

/// See [`if_elaborated`].
pub fn elab_if(
    kind: &StmtKind,
    in_fn: bool,
    cx: &CtContext,
    st: ElabState,
    depth: u32,
) -> (r: Result<(Vec<Stmt>, ElabState), ComptimeError>)
    ensures
        (
            match r { Ok(v) => Ok((stmt_list_view(v.0@), v.1@)), Err(v) => Err(v@) }
        ) == if_elaborated(kind@, in_fn, cx@, st@, depth),
    decreases depth, kind, 0nat,
{
    proof { unfold_stmt_kind(*kind); }
    match kind {
        StmtKind::ComptimeIf { branches, orelse } => {
            let (chosen, st) = match elab_choice(branches, in_fn, cx, st, depth) {
                Ok(done) => done,
                Err(error) => {
                    return Err(error);
                },
            };
            match chosen {
                Some(body) => Ok((body, st)),
                None => {
                    let (body, st) = match elab_opt_block(orelse, in_fn, cx, st, depth) {
                        Ok(done) => done,
                        Err(error) => {
                            return Err(error);
                        },
                    };
                    match body {
                        Some(body) => Ok((body, st)),
                        None => {
                            let list: Vec<Stmt> = Vec::new();
                            assert(stmt_list_view(list@) =~= Seq::<StmtView>::empty());
                            Ok((list, st))
                        },
                    }
                },
            }
        },
        _ => {
            assert(!(kind@ is ComptimeIf));
            let list2: Vec<Stmt> = Vec::new();
            assert(stmt_list_view(list2@) =~= Seq::<StmtView>::empty());
            Ok((list2, st))
        },
    }
}

#[verifier::opaque]
pub open spec fn subs_of_loop(
    var: Seq<char>,
    value: CtValueView,
) -> Seq<(Seq<char>, CtValueView)> {
    seq![(var, value)]
}

/// See [`subs_of_loop`].
pub fn loop_subs(var: &String, value: &CtValue) -> (r: Vec<(String, CtValue)>)
    ensures
        binding_list_view(r@) == subs_of_loop(var@, value@),
{
    proof { reveal(subs_of_loop); }
    let item = (var.clone(), clone_ct_value(value));
    let ghost seen = (item.0@, item.1@);
    let list = vec![item];
    assert(binding_list_view(list@) =~= seq![seen]);
    list
}

/// The copies of a loop body for some values, one after another.
pub open spec fn unrolled(
    values: Seq<CtValueView>,
    var: Seq<char>,
    body: Seq<StmtView>,
    in_fn: bool,
    cx: CtContextView,
    depth: u32,
    i: nat,
    out: Seq<StmtView>,
    st: ElabStateView,
) -> Result<(Seq<StmtView>, ElabStateView), ComptimeErrorView>
    decreases depth, values, (values.len() - i) as nat,
{
    if i >= values.len() {
        Ok((out, st))
    } else {
        let value = values[i as int];
        match burnt(st.fuel) {
            Ok(taken) => {
                let fuel = taken;
                let st = fuel_set(st, fuel);
                if depth == 0 {
                    Err(nested_too_deep())
                } else {
                    let copy = rewritten_stmt_list(
                        body,
                        subs_of_loop(var, value),
                        false,
                        0,
                        Seq::empty(),
                    );
                    match block_elaborated(
                        copy,
                        in_fn,
                        cx,
                        (depth - 1) as u32,
                        0,
                        Seq::empty(),
                        st,
                    ) {
                        Ok(taken) => {
                            let (made, rest) = taken;
                            let out = (out + made);
                            let st = rest;
                            unrolled(values, var, body, in_fn, cx, depth, i + 1, out, st)
                        },
                        Err(error) => Err(error),
                    }
                }
            },
            Err(error) => Err(error),
        }
    }
}

/// See [`unrolled`].
pub fn elab_unrolled(
    values: &Vec<CtValue>,
    var: &String,
    body: &Vec<Stmt>,
    in_fn: bool,
    cx: &CtContext,
    start: ElabState,
    depth: u32,
) -> (r: Result<(Vec<Stmt>, ElabState), ComptimeError>)
    ensures
        (match r { Ok(v) => Ok((stmt_list_view(v.0@), v.1@)), Err(v) => Err(v@) }) == unrolled(
            ct_value_list_view(values@),
            var@,
            stmt_list_view(body@),
            in_fn,
            cx@,
            depth,
            0,
            Seq::<StmtView>::empty(),
            start@,
        ),
    decreases depth, values@, 0nat,
{
    let mut out: Vec<Stmt> = Vec::new();
    assert(stmt_list_view(out@) =~= Seq::<StmtView>::empty());
    let mut st: ElabState = start;
    let ghost goal = unrolled(
        ct_value_list_view(values@),
        var@,
        stmt_list_view(body@),
        in_fn,
        cx@,
        depth,
        0,
        Seq::<StmtView>::empty(),
        start@,
    );
    let mut i: usize = 0;
    while i < values.len()
        invariant
            i <= values@.len(),
            ct_value_list_view(values@).len() == values@.len(),
            unrolled(
                ct_value_list_view(values@),
                var@,
                stmt_list_view(body@),
                in_fn,
                cx@,
                depth,
                i as nat,
                stmt_list_view(out@),
                st@,
            ) == goal,
            goal == unrolled(
                ct_value_list_view(values@),
                var@,
                stmt_list_view(body@),
                in_fn,
                cx@,
                depth,
                0,
                Seq::<StmtView>::empty(),
                start@,
            ),
        decreases values@.len() - i,
    {
        let value = &values[i];
        assert(ct_value_list_view(values@)[i as int] == value@);
        let fuel: usize = match burn(st.fuel) {
            Ok(done) => done,
            Err(error) => {
                return Err(error);
            },
        };
        st = with_fuel(st, fuel);
        if depth == 0 {
            return Err(too_deep());
        }
        let copy = rewrite_stmt_list(body, &loop_subs(var, value), false);
        let (made, rest) = match elab_block(&copy, in_fn, cx, st, depth - 1) {
            Ok(done) => done,
            Err(error) => {
                return Err(error);
            },
        };
        out = joined_stmts(&made, out);
        st = rest;
        i = i + 1;
    }
    Ok((out, st))
}

/// A `comptime for`: a copy of its body for each value of its variable.
pub open spec fn for_elaborated(
    var: Seq<char>,
    iter: ExprView,
    body: Seq<StmtView>,
    in_fn: bool,
    cx: CtContextView,
    st: ElabStateView,
    depth: u32,
) -> Result<(Seq<StmtView>, ElabStateView), ComptimeErrorView>
    decreases depth, iter, 0nat,
{
    match evaluated_iter(iter, st.env, cx, st.fuel, 4294967295) {
        Ok(out) => {
            let (values, fuel) = out;
            if depth > 0 {
                unrolled(
                    values,
                    var,
                    body,
                    in_fn,
                    cx,
                    (depth - 1) as u32,
                    0,
                    Seq::empty(),
                    fuel_set(st, fuel),
                )
            } else {
                Err(nested_too_deep())
            }
        },
        Err(error) => Err(error.error),
    }
}

/// See [`for_elaborated`].
pub fn elab_for(
    var: &String,
    iter: &Expr,
    body: &Vec<Stmt>,
    in_fn: bool,
    cx: &CtContext,
    st: ElabState,
    depth: u32,
) -> (r: Result<(Vec<Stmt>, ElabState), ComptimeError>)
    ensures
        (
            match r { Ok(v) => Ok((stmt_list_view(v.0@), v.1@)), Err(v) => Err(v@) }
        ) == for_elaborated(var@, iter@, stmt_list_view(body@), in_fn, cx@, st@, depth),
    decreases depth, iter, 0nat,
{
    let (values, fuel) = match eval_iter(iter, &st.env, cx, st.fuel, 4294967295) {
        Ok(done) => done,
        Err(error) => {
            return Err(error.error);
        },
    };
    if depth > 0 {
        elab_unrolled(&values, var, body, in_fn, cx, with_fuel(st, fuel), depth - 1)
    } else {
        Err(too_deep())
    }
}

pub open spec fn methods_elaborated(
    methods: Seq<MethodView>,
    cx: CtContextView,
    depth: u32,
    i: nat,
    out: Seq<MethodView>,
    st: ElabStateView,
) -> Result<(Seq<MethodView>, ElabStateView), ComptimeErrorView>
    decreases depth, methods, (methods.len() - i) as nat,
{
    if i >= methods.len() {
        Ok((out, st))
    } else {
        let method = methods[i as int];
        match method_elaborated(method, cx, st, depth) {
            Ok(taken) => {
                let (made, rest) = taken;
                let out = out.push(made);
                let st = rest;
                methods_elaborated(methods, cx, depth, i + 1, out, st)
            },
            Err(error) => Err(error),
        }
    }
}

/// See [`methods_elaborated`].
pub fn elab_methods(
    methods: &Vec<Method>,
    cx: &CtContext,
    start: ElabState,
    depth: u32,
) -> (r: Result<(Vec<Method>, ElabState), ComptimeError>)
    ensures
        (
            match r { Ok(v) => Ok((method_list_view(v.0@), v.1@)), Err(v) => Err(v@) }
        ) == methods_elaborated(
            method_list_view(methods@),
            cx@,
            depth,
            0,
            Seq::<MethodView>::empty(),
            start@,
        ),
    decreases depth, methods@, 0nat,
{
    let mut out: Vec<Method> = Vec::new();
    assert(method_list_view(out@) =~= Seq::<MethodView>::empty());
    let mut st: ElabState = start;
    let ghost goal = methods_elaborated(
        method_list_view(methods@),
        cx@,
        depth,
        0,
        Seq::<MethodView>::empty(),
        start@,
    );
    let mut i: usize = 0;
    while i < methods.len()
        invariant
            i <= methods@.len(),
            method_list_view(methods@).len() == methods@.len(),
            methods_elaborated(
                method_list_view(methods@),
                cx@,
                depth,
                i as nat,
                method_list_view(out@),
                st@,
            ) == goal,
            goal == methods_elaborated(
                method_list_view(methods@),
                cx@,
                depth,
                0,
                Seq::<MethodView>::empty(),
                start@,
            ),
        decreases methods@.len() - i,
    {
        let method = &methods[i];
        assert(method_list_view(methods@)[i as int] == method@);
        let (made, rest) = match elab_method(method, cx, st, depth) {
            Ok(done) => done,
            Err(error) => {
                return Err(error);
            },
        };
        let ghost before = method_list_view(out@);
        let ghost added = made@;
        out.push(made);
        assert(method_list_view(out@) =~= before.push(added));
        st = rest;
        i = i + 1;
    }
    Ok((out, st))
}

pub open spec fn method_elaborated(
    method: MethodView,
    cx: CtContextView,
    st: ElabStateView,
    depth: u32,
) -> Result<(MethodView, ElabStateView), ComptimeErrorView>
    decreases depth, method, 0nat,
{
    match block_elaborated(method.body, true, cx, depth, 0, Seq::empty(), st) {
        Ok(out) => {
            let (body, st) = out;
            Ok(
                (
                    MethodView {
                        name: method.name,
                        has_self: method.has_self,
                        self_convention: method.self_convention,
                        params: method.params,
                        positional_only: method.positional_only,
                        keyword_only: method.keyword_only,
                        raises_type: method.raises_type,
                        ret: method.ret,
                        body,
                    },
                    st,
                )
            )
        },
        Err(error) => Err(error),
    }
}

/// See [`method_elaborated`].
pub fn elab_method(
    method: &Method,
    cx: &CtContext,
    st: ElabState,
    depth: u32,
) -> (r: Result<(Method, ElabState), ComptimeError>)
    ensures
        (
            match r { Ok(v) => Ok((v.0@, v.1@)), Err(v) => Err(v@) }
        ) == method_elaborated(method@, cx@, st@, depth),
    decreases depth, method, 0nat,
{
    let (body, st) = match elab_block(&method.body, true, cx, st, depth) {
        Ok(done) => done,
        Err(error) => {
            return Err(error);
        },
    };
    let method2 = Method {
        name: (&method.name).clone(),
        has_self: method.has_self,
        self_convention: method.self_convention,
        params: clone_fn_param_list(&method.params),
        positional_only: method.positional_only,
        keyword_only: method.keyword_only,
        raises_type: (match (&method.raises_type) { Some(y) => Some(clone_type(y)), None => None }),
        ret: (match (&method.ret) { Some(y) => Some(clone_type(y)), None => None }),
        body,
    };
    proof { unfold_method(method2); }
    Ok((method2, st))
}

/// A statement without compile-time constructs.
pub open spec fn stmt_elaborated(
    stmt: StmtView,
    in_fn: bool,
    cx: CtContextView,
    st: ElabStateView,
    depth: u32,
) -> Result<(Seq<StmtView>, ElabStateView), ComptimeErrorView>
    decreases depth, stmt, 0nat,
{
    match stmt.kind {
        StmtKindView::Comptime { name, value } => match evaluated(
            value,
            st.env,
            cx,
            st.fuel,
            4294967295,
        ) {
            Ok(out) => {
                let (value, fuel) = out;
                Ok(constant_elaborated(name, value, stmt.span, in_fn, fuel_set(st, fuel)))
            },
            Err(error) => Err(error.error),
        },
        StmtKindView::ComptimeIf { .. } => if_elaborated(stmt.kind, in_fn, cx, st, depth),
        StmtKindView::ComptimeFor { var, iter, body } => if depth > 0 {
            for_elaborated(var, iter, body, in_fn, cx, st, (depth - 1) as u32)
        } else {
            Err(nested_too_deep())
        },
        StmtKindView::VarDecl { name, ty, value } => match annotation_resolved(ty, st.env) {
            Ok(out) => {
                let ty = out;
                Ok((single(StmtKindView::VarDecl { name, ty, value }, stmt.span), st))
            },
            Err(error) => Err(error),
        },
        StmtKindView::With { items, body } => match block_elaborated(
            body,
            in_fn,
            cx,
            depth,
            0,
            Seq::empty(),
            st,
        ) {
            Ok(out) => {
                let (body, st) = out;
                Ok((inside_managers(items, items.len() as usize, body, stmt.span), st))
            },
            Err(error) => Err(error),
        },
        StmtKindView::If { .. } => compound_elaborated(stmt.kind, stmt.span, in_fn, cx, st, depth),
        StmtKindView::While { .. } => compound_elaborated(
            stmt.kind,
            stmt.span,
            in_fn,
            cx,
            st,
            depth,
        ),
        StmtKindView::For { .. } => compound_elaborated(stmt.kind, stmt.span, in_fn, cx, st, depth),
        StmtKindView::Try { .. } => try_elaborated(stmt.kind, stmt.span, in_fn, cx, st, depth),
        StmtKindView::Def { name, .. } => if template_named(cx.templates, name, 0, None) is Some {
            Ok((seq![stmt], st))
        } else {
            def_elaborated(stmt.kind, stmt.span, cx, st, depth)
        },
        StmtKindView::Struct { .. } => def_elaborated(stmt.kind, stmt.span, cx, st, depth),
        _ => Ok((seq![stmt], st)),
    }
}

/// See [`stmt_elaborated`].
pub fn elab_stmt(
    stmt: &Stmt,
    in_fn: bool,
    cx: &CtContext,
    st: ElabState,
    depth: u32,
) -> (r: Result<(Vec<Stmt>, ElabState), ComptimeError>)
    ensures
        (
            match r { Ok(v) => Ok((stmt_list_view(v.0@), v.1@)), Err(v) => Err(v@) }
        ) == stmt_elaborated(stmt@, in_fn, cx@, st@, depth),
    decreases depth, stmt, 0nat,
{
    proof { unfold_stmt_kind(stmt.kind); }
    match &stmt.kind {
        StmtKind::Comptime { name, value } => {
            let (value, fuel) = match eval(value, &st.env, cx, st.fuel, 4294967295) {
                Ok(done) => done,
                Err(error) => {
                    return Err(error.error);
                },
            };
            Ok(elab_constant(name, &value, stmt.span, in_fn, with_fuel(st, fuel)))
        },
        StmtKind::ComptimeIf { .. } => elab_if(&stmt.kind, in_fn, cx, st, depth),
        StmtKind::ComptimeFor { var, iter, body } => {
            if depth > 0 {
                elab_for(var, iter, body, in_fn, cx, st, depth - 1)
            } else {
                Err(too_deep())
            }
        },
        StmtKind::VarDecl { name, ty, value } => {
            let ty = match resolve_annotation(ty, &st.env) {
                Ok(done) => done,
                Err(error) => {
                    return Err(error);
                },
            };
            let kind = StmtKind::VarDecl { name: name.clone(), ty, value: clone_expr(value) };
            proof { unfold_stmt_kind(kind); }
            Ok((one(kind, stmt.span), st))
        },
        StmtKind::With { items, body } => {
            let (body, st) = match elab_block(body, in_fn, cx, st, depth) {
                Ok(done) => done,
                Err(error) => {
                    return Err(error);
                },
            };
            Ok((all_managed(items, items.len(), body, stmt.span), st))
        },
        StmtKind::If { .. } => elab_compound(&stmt.kind, stmt.span, in_fn, cx, st, depth),
        StmtKind::While { .. } => elab_compound(&stmt.kind, stmt.span, in_fn, cx, st, depth),
        StmtKind::For { .. } => elab_compound(&stmt.kind, stmt.span, in_fn, cx, st, depth),
        StmtKind::Try { .. } => elab_try(&stmt.kind, stmt.span, in_fn, cx, st, depth),
        StmtKind::Def { name, .. } => {
            if find_template(&cx.templates, name).is_some() {
                let item = clone_stmt(stmt);
                let ghost seen = item@;
                let list = vec![item];
                assert(stmt_list_view(list@) =~= seq![seen]);
                Ok((list, st))
            } else {
                elab_def(&stmt.kind, stmt.span, cx, st, depth)
            }
        },
        StmtKind::Struct { .. } => elab_def(&stmt.kind, stmt.span, cx, st, depth),
        _ => {
            assert(!(stmt.kind@ is Comptime));
            assert(!(stmt.kind@ is ComptimeIf));
            assert(!(stmt.kind@ is ComptimeFor));
            assert(!(stmt.kind@ is VarDecl));
            assert(!(stmt.kind@ is With));
            assert(!(stmt.kind@ is If));
            assert(!(stmt.kind@ is While));
            assert(!(stmt.kind@ is For));
            assert(!(stmt.kind@ is Try));
            assert(!(stmt.kind@ is Def));
            assert(!(stmt.kind@ is Struct));
            let item2 = clone_stmt(stmt);
            let ghost seen2 = item2@;
            let list2 = vec![item2];
            assert(stmt_list_view(list2@) =~= seq![seen2]);
            Ok((list2, st))
        },
    }
}

#[verifier::opaque]
pub open spec fn annotation_resolved(
    ty: Option<TypeView>,
    scope: Seq<(Seq<char>, CtValueView)>,
) -> Result<Option<TypeView>, ComptimeErrorView> {
    match ty {
        Some(ty) => match resolved_type(ty, scope) {
            Ok(out) => {
                let ty = out;
                Ok(Some(ty))
            },
            Err(error) => Err(error),
        },
        None => Ok(None),
    }
}

/// See [`annotation_resolved`].
pub fn resolve_annotation(
    ty: &Option<Type>,
    scope: &Vec<(String, CtValue)>,
) -> (r: Result<Option<Type>, ComptimeError>)
    ensures
        (
            match r { Ok(v) => Ok(opt_view(v)), Err(v) => Err(v@) }
        ) == annotation_resolved(opt_view(*ty), binding_list_view(scope@)),
{
    proof { reveal(annotation_resolved); }
    match ty {
        Some(ty) => {
            let ty = match resolve_reflected_type(ty, scope) {
                Ok(done) => done,
                Err(error) => {
                    return Err(error);
                },
            };
            Ok(Some(ty))
        },
        None => Ok(None),
    }
}

/// A branch or a loop that runs at run time.
pub open spec fn compound_elaborated(
    kind: StmtKindView,
    span: Span,
    in_fn: bool,
    cx: CtContextView,
    st: ElabStateView,
    depth: u32,
) -> Result<(Seq<StmtView>, ElabStateView), ComptimeErrorView>
    decreases depth, kind, 0nat,
{
    match kind {
        StmtKindView::If { branches, orelse } => match branches_elaborated(
            branches,
            in_fn,
            cx,
            depth,
            0,
            Seq::empty(),
            st,
        ) {
            Ok(out) => {
                let (branches, st) = out;
                match opt_block_elaborated(orelse, in_fn, cx, st, depth) {
                    Ok(out) => {
                        let (orelse, st) = out;
                        Ok((single(StmtKindView::If { branches, orelse }, span), st))
                    },
                    Err(error) => Err(error),
                }
            },
            Err(error) => Err(error),
        },
        StmtKindView::While { cond, body, orelse } => match block_elaborated(
            body,
            in_fn,
            cx,
            depth,
            0,
            Seq::empty(),
            st,
        ) {
            Ok(out) => {
                let (body, st) = out;
                match opt_block_elaborated(orelse, in_fn, cx, st, depth) {
                    Ok(out) => {
                        let (orelse, st) = out;
                        Ok((single(StmtKindView::While { cond, body, orelse }, span), st))
                    },
                    Err(error) => Err(error),
                }
            },
            Err(error) => Err(error),
        },
        StmtKindView::For {
            var,
            reference,
            owned,
            iter,
            body,
            orelse,
        } => match block_elaborated(body, in_fn, cx, depth, 0, Seq::empty(), st) {
            Ok(out) => {
                let (body, st) = out;
                match opt_block_elaborated(orelse, in_fn, cx, st, depth) {
                    Ok(out) => {
                        let (orelse, st) = out;
                        Ok(
                            (
                                single(
                                    StmtKindView::For { var, reference, owned, iter, body, orelse },
                                    span,
                                ),
                                st,
                            )
                        )
                    },
                    Err(error) => Err(error),
                }
            },
            Err(error) => Err(error),
        },
        _ => Ok((Seq::empty(), st)),
    }
}

/// See [`compound_elaborated`].
pub fn elab_compound(
    kind: &StmtKind,
    span: Span,
    in_fn: bool,
    cx: &CtContext,
    st: ElabState,
    depth: u32,
) -> (r: Result<(Vec<Stmt>, ElabState), ComptimeError>)
    ensures
        (
            match r { Ok(v) => Ok((stmt_list_view(v.0@), v.1@)), Err(v) => Err(v@) }
        ) == compound_elaborated(kind@, span, in_fn, cx@, st@, depth),
    decreases depth, kind, 0nat,
{
    proof { unfold_stmt_kind(*kind); }
    match kind {
        StmtKind::If { branches, orelse } => {
            let (branches, st) = match elab_branches(branches, in_fn, cx, st, depth) {
                Ok(done) => done,
                Err(error) => {
                    return Err(error);
                },
            };
            let (orelse, st) = match elab_opt_block(orelse, in_fn, cx, st, depth) {
                Ok(done) => done,
                Err(error) => {
                    return Err(error);
                },
            };
            let kind2 = StmtKind::If { branches, orelse };
            proof { unfold_stmt_kind(kind2); }
            Ok((one(kind2, span), st))
        },
        StmtKind::While { cond, body, orelse } => {
            let (body, st) = match elab_block(body, in_fn, cx, st, depth) {
                Ok(done) => done,
                Err(error) => {
                    return Err(error);
                },
            };
            let (orelse, st) = match elab_opt_block(orelse, in_fn, cx, st, depth) {
                Ok(done) => done,
                Err(error) => {
                    return Err(error);
                },
            };
            let kind3 = StmtKind::While { cond: clone_expr(cond), body, orelse };
            proof { unfold_stmt_kind(kind3); }
            Ok((one(kind3, span), st))
        },
        StmtKind::For { var, reference, owned, iter, body, orelse } => {
            let (body, st) = match elab_block(body, in_fn, cx, st, depth) {
                Ok(done) => done,
                Err(error) => {
                    return Err(error);
                },
            };
            let (orelse, st) = match elab_opt_block(orelse, in_fn, cx, st, depth) {
                Ok(done) => done,
                Err(error) => {
                    return Err(error);
                },
            };
            let kind4 = StmtKind::For {
                var: var.clone(),
                reference: *reference,
                owned: *owned,
                iter: clone_expr(iter),
                body,
                orelse,
            };
            proof { unfold_stmt_kind(kind4); }
            Ok((one(kind4, span), st))
        },
        _ => {
            assert(!(kind@ is If));
            assert(!(kind@ is While));
            assert(!(kind@ is For));
            let list: Vec<Stmt> = Vec::new();
            assert(stmt_list_view(list@) =~= Seq::<StmtView>::empty());
            Ok((list, st))
        },
    }
}

pub open spec fn handler_elaborated(
    except: Option<(Option<Seq<char>>, Seq<StmtView>)>,
    in_fn: bool,
    cx: CtContextView,
    st: ElabStateView,
    depth: u32,
) -> Result<(Option<(Option<Seq<char>>, Seq<StmtView>)>, ElabStateView), ComptimeErrorView>
    decreases depth, except, 0nat,
{
    match except {
        Some((name, body)) => match block_elaborated(body, in_fn, cx, depth, 0, Seq::empty(), st) {
            Ok(out) => {
                let (body, st) = out;
                Ok((Some((name, body)), st))
            },
            Err(error) => Err(error),
        },
        None => Ok((None, st)),
    }
}

/// See [`handler_elaborated`].
pub fn elab_handler(
    except: &Option<(Option<String>, Vec<Stmt>)>,
    in_fn: bool,
    cx: &CtContext,
    st: ElabState,
    depth: u32,
) -> (r: Result<(Option<(Option<String>, Vec<Stmt>)>, ElabState), ComptimeError>)
    ensures
        (
            match r {
                Ok(v) => Ok(
                    (
                        (
                            match v.0 {
                                Some(v1) => Some((opt_view(v1.0), stmt_list_view(v1.1@))),
                                None => None,
                            }
                        ),
                        v.1@,
                    )
                ),
                Err(v) => Err(v@),
            }
        ) == handler_elaborated(
            (match except { Some(v) => Some((opt_view(v.0), stmt_list_view(v.1@))), None => None }),
            in_fn,
            cx@,
            st@,
            depth,
        ),
    decreases depth, except, 0nat,
{
    match except {
        Some((name, body)) => {
            let (body, st) = match elab_block(body, in_fn, cx, st, depth) {
                Ok(done) => done,
                Err(error) => {
                    return Err(error);
                },
            };
            Ok((Some(((match name { Some(y) => Some(y.clone()), None => None }), body)), st))
        },
        None => Ok((None, st)),
    }
}

pub open spec fn try_elaborated(
    kind: StmtKindView,
    span: Span,
    in_fn: bool,
    cx: CtContextView,
    st: ElabStateView,
    depth: u32,
) -> Result<(Seq<StmtView>, ElabStateView), ComptimeErrorView>
    decreases depth, kind, 0nat,
{
    match kind {
        StmtKindView::Try { body, except, orelse, finalbody } => match block_elaborated(
            body,
            in_fn,
            cx,
            depth,
            0,
            Seq::empty(),
            st,
        ) {
            Ok(out) => {
                let (body, st) = out;
                match handler_elaborated(except, in_fn, cx, st, depth) {
                    Ok(out) => {
                        let (except, st) = out;
                        match opt_block_elaborated(orelse, in_fn, cx, st, depth) {
                            Ok(out) => {
                                let (orelse, st) = out;
                                match opt_block_elaborated(finalbody, in_fn, cx, st, depth) {
                                    Ok(out) => {
                                        let (finalbody, st) = out;
                                        Ok(
                                            (
                                                single(
                                                    StmtKindView::Try {
                                                        body,
                                                        except,
                                                        orelse,
                                                        finalbody,
                                                    },
                                                    span,
                                                ),
                                                st,
                                            )
                                        )
                                    },
                                    Err(error) => Err(error),
                                }
                            },
                            Err(error) => Err(error),
                        }
                    },
                    Err(error) => Err(error),
                }
            },
            Err(error) => Err(error),
        },
        _ => Ok((Seq::empty(), st)),
    }
}

/// See [`try_elaborated`].
pub fn elab_try(
    kind: &StmtKind,
    span: Span,
    in_fn: bool,
    cx: &CtContext,
    st: ElabState,
    depth: u32,
) -> (r: Result<(Vec<Stmt>, ElabState), ComptimeError>)
    ensures
        (
            match r { Ok(v) => Ok((stmt_list_view(v.0@), v.1@)), Err(v) => Err(v@) }
        ) == try_elaborated(kind@, span, in_fn, cx@, st@, depth),
    decreases depth, kind, 0nat,
{
    proof { unfold_stmt_kind(*kind); }
    match kind {
        StmtKind::Try { body, except, orelse, finalbody } => {
            let (body, st) = match elab_block(body, in_fn, cx, st, depth) {
                Ok(done) => done,
                Err(error) => {
                    return Err(error);
                },
            };
            let (except, st) = match elab_handler(except, in_fn, cx, st, depth) {
                Ok(done) => done,
                Err(error) => {
                    return Err(error);
                },
            };
            let (orelse, st) = match elab_opt_block(orelse, in_fn, cx, st, depth) {
                Ok(done) => done,
                Err(error) => {
                    return Err(error);
                },
            };
            let (finalbody, st) = match elab_opt_block(finalbody, in_fn, cx, st, depth) {
                Ok(done) => done,
                Err(error) => {
                    return Err(error);
                },
            };
            let kind2 = StmtKind::Try { body, except, orelse, finalbody };
            proof { unfold_stmt_kind(kind2); }
            Ok((one(kind2, span), st))
        },
        _ => {
            assert(!(kind@ is Try));
            let list: Vec<Stmt> = Vec::new();
            assert(stmt_list_view(list@) =~= Seq::<StmtView>::empty());
            Ok((list, st))
        },
    }
}

/// A declaration with its bodies elaborated.
pub open spec fn def_elaborated(
    kind: StmtKindView,
    span: Span,
    cx: CtContextView,
    st: ElabStateView,
    depth: u32,
) -> Result<(Seq<StmtView>, ElabStateView), ComptimeErrorView>
    decreases depth, kind, 0nat,
{
    match kind {
        StmtKindView::Def {
            name,
            decorators,
            type_params,
            params,
            positional_only,
            keyword_only,
            captures,
            raises,
            raises_type,
            ret,
            where_clause,
            body,
        } => match block_elaborated(body, true, cx, depth, 0, Seq::empty(), st) {
            Ok(out) => {
                let (new_body, st) = out;
                Ok(
                    (
                        single(
                            StmtKindView::Def {
                                name,
                                decorators,
                                type_params,
                                params,
                                positional_only,
                                keyword_only,
                                captures,
                                raises,
                                raises_type,
                                ret,
                                where_clause,
                                body: new_body,
                            },
                            span,
                        ),
                        st,
                    )
                )
            },
            Err(error) => Err(error),
        },
        StmtKindView::Struct {
            name,
            decorators,
            type_params,
            conforms,
            callable_conformance,
            conformance_conditions,
            fields,
            associated,
            methods,
            fieldwise_init,
        } => match methods_elaborated(methods, cx, depth, 0, Seq::empty(), st) {
            Ok(out) => {
                let (new_methods, st) = out;
                Ok(
                    (
                        single(
                            StmtKindView::Struct {
                                name,
                                decorators,
                                type_params,
                                conforms,
                                callable_conformance,
                                conformance_conditions,
                                fields,
                                associated,
                                methods: new_methods,
                                fieldwise_init,
                            },
                            span,
                        ),
                        st,
                    )
                )
            },
            Err(error) => Err(error),
        },
        _ => Ok((Seq::empty(), st)),
    }
}

/// See [`def_elaborated`].
pub fn elab_def(
    kind: &StmtKind,
    span: Span,
    cx: &CtContext,
    st: ElabState,
    depth: u32,
) -> (r: Result<(Vec<Stmt>, ElabState), ComptimeError>)
    ensures
        (
            match r { Ok(v) => Ok((stmt_list_view(v.0@), v.1@)), Err(v) => Err(v@) }
        ) == def_elaborated(kind@, span, cx@, st@, depth),
    decreases depth, kind, 0nat,
{
    proof { unfold_stmt_kind(*kind); }
    match kind {
        StmtKind::Def {
            name,
            decorators,
            type_params,
            params,
            positional_only,
            keyword_only,
            captures,
            raises,
            raises_type,
            ret,
            where_clause,
            body,
        } => {
            let (new_body, st) = match elab_block(body, true, cx, st, depth) {
                Ok(done) => done,
                Err(error) => {
                    return Err(error);
                },
            };
            let kind2 = StmtKind::Def {
                name: name.clone(),
                decorators: clone_string_list(decorators),
                type_params: clone_type_param_list(type_params),
                params: clone_fn_param_list(params),
                positional_only: *positional_only,
                keyword_only: *keyword_only,
                captures: (match captures { Some(y) => Some(clone_capture_list(y)), None => None }),
                raises: *raises,
                raises_type: (match raises_type { Some(y) => Some(clone_type(y)), None => None }),
                ret: (match ret { Some(y) => Some(clone_type(y)), None => None }),
                where_clause: (match where_clause { Some(y) => Some(clone_expr(y)), None => None }),
                body: new_body,
            };
            proof { unfold_stmt_kind(kind2); }
            Ok((one(kind2, span), st))
        },
        StmtKind::Struct {
            name,
            decorators,
            type_params,
            conforms,
            callable_conformance,
            conformance_conditions,
            fields,
            associated,
            methods,
            fieldwise_init,
        } => {
            let (new_methods, st) = match elab_methods(methods, cx, st, depth) {
                Ok(done) => done,
                Err(error) => {
                    return Err(error);
                },
            };
            let kind3 = StmtKind::Struct {
                name: name.clone(),
                decorators: clone_string_list(decorators),
                type_params: clone_type_param_list(type_params),
                conforms: clone_string_list(conforms),
                callable_conformance: (
                    match callable_conformance { Some(y) => Some(clone_type(y)), None => None }
                ),
                conformance_conditions: clone_expr_list(conformance_conditions),
                fields: clone_param_list(fields),
                associated: clone_struct_comptime_list(associated),
                methods: new_methods,
                fieldwise_init: *fieldwise_init,
            };
            proof { unfold_stmt_kind(kind3); }
            Ok((one(kind3, span), st))
        },
        _ => {
            assert(!(kind@ is Def));
            assert(!(kind@ is Struct));
            let list: Vec<Stmt> = Vec::new();
            assert(stmt_list_view(list@) =~= Seq::<StmtView>::empty());
            Ok((list, st))
        },
    }
}

} // verus!
