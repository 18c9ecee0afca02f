//! Specializations of templates, and elaboration of whole programs.

use crate::ast::{
    ComprehensionClause, ComprehensionClauseView, Expr, ExprKind, ExprKindView, ExprView, FnParam,
    FnParamView, InfixOp, KwArg, KwArgView, ParamArg, ParamArgView, Stmt, StmtKind, StmtKindView,
    StmtView, SubscriptArg, SubscriptArgView, TStringPart, TStringPartView, Type, TypeParam,
    TypeParamView, TypeView, branch_list_view, clone_capture_list, clone_expr, clone_expr_kind,
    clone_fn_param_list, clone_param_arg, clone_stmt, clone_stmt_kind, clone_stmt_list,
    clone_t_string_part, clone_type, clone_type_param, clone_type_param_list, comparison_list_view,
    comprehension_clause_list_view, entry_list_view, expr_list_view, fn_param_list_view,
    kw_arg_list_view, pack_length_list_view, pack_list_view, param_arg_list_view, stmt_list_view,
    subscript_arg_list_view, t_string_part_list_view, type_list_view, type_param_list_view,
    unfold_expr_kind, unfold_stmt_kind, unfold_type,
};
use crate::ct::literal_of;
use crate::elab::{
    ComptimeError, ComptimeErrorView, CtCall, CtCallView, CtContext, CtContextView, CtReply,
    CtReplyView, Halt, HaltView, Template, TemplateView, burn, burnt, classify_ct_params,
    clone_ct_reply_list, collect_fns, collect_specializable, collect_structs, ct_params,
    ct_reply_list_view, decl_name, find_template, fns_of, name_of_decl, no_comptime, not_comptime,
    past_quota, quota, step_limit, step_quota, structs_of, template_named, templates_of,
    unfold_ct_context,
};
use crate::elaborate::{
    ElabState, ElabStateView, and_value, block_elaborated, elab_block, joined_stmts, mk,
    source_type, source_type_from_ty, unfold_elab_state, unplaced, with_value,
};
use crate::evaluate::{eval, evaluated, halt, halted};
use crate::flatten::{following_index, next_index};
use crate::mangle::{mangle, mangled};
use crate::mono::{
    Job, JobView, Made, MadeView, Mono, MonoView, clone_job, job_list_view, made_list_view,
    mono_stmt, specialized_stmt, unfold_mono,
};
use crate::nested::{names_of_params, param_names};
use crate::packs::{
    and_type_args, begins_with_star, expand_opt_type, expand_stmt_list, expand_type,
    expanded_opt_type, expanded_stmt_list, expanded_type, find_pack, pack_types, starts_with_star,
    trim_stars, with_type_args, without_stars,
};
use crate::rewrite::{materialize_block, materialized, unshadowed, values_visible};
use crate::stamp::{stamp_stmt, stamped_stmt};
use crate::text::{
    cat3, cat5, cat6, clone_string_list, contains_name, decimal, opt_view, same_string, same_text,
    show_usize, string_list_view,
};
use crate::types::{
    CtValue, CtValueView, ParamDecl, ParamDeclView, binding_list_view, clone_binding_list,
    clone_ct_value, ct_value_list_view, param_decl_list_view, unfold_ct_value, unfold_param_decl,
};
use crate::values::Value;
use vstd::prelude::*;

verus! {

/// What the compile-time constructs of a specialization see: the values of its
/// parameters.
pub open spec fn env_of_spec(
    vals: Seq<CtValueView>,
    decls: Seq<ParamDeclView>,
    i: nat,
    out: Seq<(Seq<char>, CtValueView)>,
    k: usize,
) -> Seq<(Seq<char>, CtValueView)>
    decreases vals, (vals.len() - i) as nat,
{
    if i >= vals.len() {
        out
    } else {
        let value = vals[i as int];
        if k >= decls.len() {
            out
        } else {
            let out = out.push((without_stars(name_of_decl(decls[k as int])), value));
            let k = following_index(k);
            env_of_spec(vals, decls, i + 1, out, k)
        }
    }
}

/// See [`env_of_spec`].
pub fn spec_env(
    vals: &Vec<CtValue>,
    decls: &Vec<ParamDecl>,
    top: Vec<(String, CtValue)>,
) -> (r: Vec<(String, CtValue)>)
    ensures
        binding_list_view(r@) == env_of_spec(
            ct_value_list_view(vals@),
            param_decl_list_view(decls@),
            0,
            binding_list_view(top@),
            0,
        ),
    decreases vals@, 0nat,
{
    let mut out: Vec<(String, CtValue)> = top;
    let mut k: usize = 0;
    let ghost goal = env_of_spec(
        ct_value_list_view(vals@),
        param_decl_list_view(decls@),
        0,
        binding_list_view(top@),
        0,
    );
    let mut i: usize = 0;
    while i < vals.len()
        invariant
            i <= vals@.len(),
            ct_value_list_view(vals@).len() == vals@.len(),
            env_of_spec(
                ct_value_list_view(vals@),
                param_decl_list_view(decls@),
                i as nat,
                binding_list_view(out@),
                k,
            ) == goal,
            goal == env_of_spec(
                ct_value_list_view(vals@),
                param_decl_list_view(decls@),
                0,
                binding_list_view(top@),
                0,
            ),
        decreases vals@.len() - i,
    {
        let value = &vals[i];
        assert(ct_value_list_view(vals@)[i as int] == value@);
        if k >= decls.len() {
            return out;
        }
        let item = (trim_stars(&decl_name(&decls[k])), clone_ct_value(value));
        let ghost before = binding_list_view(out@);
        let ghost added = (item.0@, item.1@);
        out.push(item);
        assert(binding_list_view(out@) =~= before.push(added));
        k = next_index(k);
        i = i + 1;
    }
    out
}

/// The values that become literals in a specialization: constants that no parameter
/// hides, and value parameters.
pub open spec fn subs_of_spec(
    vals: Seq<CtValueView>,
    decls: Seq<ParamDeclView>,
    i: nat,
    out: Seq<(Seq<char>, CtValueView)>,
    k: usize,
) -> Seq<(Seq<char>, CtValueView)>
    decreases vals, (vals.len() - i) as nat,
{
    if i >= vals.len() {
        out
    } else {
        let value = vals[i as int];
        if k >= decls.len() {
            out
        } else {
            let out = if (decls[k as int] matches ParamDeclView::Value { .. }) {
                let out = out.push((without_stars(name_of_decl(decls[k as int])), value));
                out
            } else {
                out
            };
            let k = following_index(k);
            subs_of_spec(vals, decls, i + 1, out, k)
        }
    }
}

/// See [`subs_of_spec`].
pub fn spec_subs(
    vals: &Vec<CtValue>,
    decls: &Vec<ParamDecl>,
    visible: Vec<(String, CtValue)>,
) -> (r: Vec<(String, CtValue)>)
    ensures
        binding_list_view(r@) == subs_of_spec(
            ct_value_list_view(vals@),
            param_decl_list_view(decls@),
            0,
            binding_list_view(visible@),
            0,
        ),
    decreases vals@, 0nat,
{
    let mut out: Vec<(String, CtValue)> = visible;
    let mut k: usize = 0;
    let ghost goal = subs_of_spec(
        ct_value_list_view(vals@),
        param_decl_list_view(decls@),
        0,
        binding_list_view(visible@),
        0,
    );
    let mut i: usize = 0;
    while i < vals.len()
        invariant
            i <= vals@.len(),
            ct_value_list_view(vals@).len() == vals@.len(),
            subs_of_spec(
                ct_value_list_view(vals@),
                param_decl_list_view(decls@),
                i as nat,
                binding_list_view(out@),
                k,
            ) == goal,
            goal == subs_of_spec(
                ct_value_list_view(vals@),
                param_decl_list_view(decls@),
                0,
                binding_list_view(visible@),
                0,
            ),
        decreases vals@.len() - i,
    {
        let value = &vals[i];
        assert(ct_value_list_view(vals@)[i as int] == value@);
        if k >= decls.len() {
            return out;
        }
        if matches!(&decls[k], ParamDecl::Value { .. }) {
            let item = (trim_stars(&decl_name(&decls[k])), clone_ct_value(value));
            let ghost before = binding_list_view(out@);
            let ghost added = (item.0@, item.1@);
            out.push(item);
            assert(binding_list_view(out@) =~= before.push(added));
        }
        k = next_index(k);
        i = i + 1;
    }
    out
}

#[verifier::opaque]
pub open spec fn variadic_type(decl: ParamDeclView) -> bool {
    match decl {
        ParamDeclView::Type { variadic, .. } => variadic,
        _ => false,
    }
}

/// See [`variadic_type`].
pub fn is_variadic_type(decl: &ParamDecl) -> (r: bool)
    ensures
        r == variadic_type(decl@),
{
    proof { reveal(variadic_type); }
    proof { unfold_param_decl(*decl); }
    match decl {
        ParamDecl::Type { variadic, .. } => *variadic,
        _ => {
            assert(!(decl@ is Type));
            false
        },
    }
}

/// The type parameters that a specialization still has.
pub open spec fn type_params_kept(
    params: Seq<TypeParamView>,
    decls: Seq<ParamDeclView>,
    i: nat,
    out: Seq<TypeParamView>,
    k: usize,
) -> Seq<TypeParamView>
    decreases params, (params.len() - i) as nat,
{
    if i >= params.len() {
        out
    } else {
        let param = params[i as int];
        if k >= decls.len() {
            out
        } else {
            let out = if (
                decls[k as int] matches ParamDeclView::Type { .. }
            ) && !variadic_type(decls[k as int]) {
                let out = out.push(param);
                out
            } else {
                out
            };
            let k = following_index(k);
            type_params_kept(params, decls, i + 1, out, k)
        }
    }
}

/// See [`type_params_kept`].
pub fn kept_type_params(params: &Vec<TypeParam>, decls: &Vec<ParamDecl>) -> (r: Vec<TypeParam>)
    ensures
        type_param_list_view(r@) == type_params_kept(
            type_param_list_view(params@),
            param_decl_list_view(decls@),
            0,
            Seq::<TypeParamView>::empty(),
            0,
        ),
    decreases params@, 0nat,
{
    let mut out: Vec<TypeParam> = Vec::new();
    assert(type_param_list_view(out@) =~= Seq::<TypeParamView>::empty());
    let mut k: usize = 0;
    let ghost goal = type_params_kept(
        type_param_list_view(params@),
        param_decl_list_view(decls@),
        0,
        Seq::<TypeParamView>::empty(),
        0,
    );
    let mut i: usize = 0;
    while i < params.len()
        invariant
            i <= params@.len(),
            type_param_list_view(params@).len() == params@.len(),
            type_params_kept(
                type_param_list_view(params@),
                param_decl_list_view(decls@),
                i as nat,
                type_param_list_view(out@),
                k,
            ) == goal,
            goal == type_params_kept(
                type_param_list_view(params@),
                param_decl_list_view(decls@),
                0,
                Seq::<TypeParamView>::empty(),
                0,
            ),
        decreases params@.len() - i,
    {
        let param = &params[i];
        assert(type_param_list_view(params@)[i as int] == param@);
        if k >= decls.len() {
            return out;
        }
        if matches!(&decls[k], ParamDecl::Type { .. }) && !is_variadic_type(&decls[k]) {
            let item = clone_type_param(param);
            let ghost before = type_param_list_view(out@);
            let ghost added = item@;
            out.push(item);
            assert(type_param_list_view(out@) =~= before.push(added));
        }
        k = next_index(k);
        i = i + 1;
    }
    out
}

pub open spec fn types_written(
    values: Seq<CtValueView>,
    i: nat,
    out: Seq<TypeView>,
) -> Result<Seq<TypeView>, ComptimeErrorView>
    decreases values, (values.len() - i) as nat,
{
    if i >= values.len() {
        Ok(out)
    } else {
        let value = values[i as int];
        match type_written(value) {
            Some(ty) => {
                let out = out.push(ty);
                types_written(values, i + 1, out)
            },
            None => Err(no_comptime("type pack contains a non-type value"@)),
        }
    }
}

/// See [`types_written`].
pub fn written_types(values: &Vec<CtValue>) -> (r: Result<Vec<Type>, ComptimeError>)
    ensures
        (
            match r { Ok(v) => Ok(type_list_view(v@)), Err(v) => Err(v@) }
        ) == types_written(ct_value_list_view(values@), 0, Seq::<TypeView>::empty()),
    decreases values@, 0nat,
{
    let mut out: Vec<Type> = Vec::new();
    assert(type_list_view(out@) =~= Seq::<TypeView>::empty());
    let ghost goal = types_written(ct_value_list_view(values@), 0, Seq::<TypeView>::empty());
    let mut i: usize = 0;
    while i < values.len()
        invariant
            i <= values@.len(),
            ct_value_list_view(values@).len() == values@.len(),
            types_written(ct_value_list_view(values@), i as nat, type_list_view(out@)) == goal,
            goal == types_written(ct_value_list_view(values@), 0, Seq::<TypeView>::empty()),
        decreases values@.len() - i,
    {
        let value = &values[i];
        assert(ct_value_list_view(values@)[i as int] == value@);
        match written_type(value) {
            Some(ty) => {
                let ghost before = type_list_view(out@);
                let ghost added = ty@;
                out.push(ty);
                assert(type_list_view(out@) =~= before.push(added));
            },
            None => {
                return Err(not_comptime("type pack contains a non-type value".to_owned()));
            },
        }
        i = i + 1;
    }
    Ok(out)
}

#[verifier::opaque]
pub open spec fn type_written(value: CtValueView) -> Option<TypeView> {
    match value {
        CtValueView::Type(ty) => source_type(*ty),
        _ => None,
    }
}

/// See [`type_written`].
pub fn written_type(value: &CtValue) -> (r: Option<Type>)
    ensures
        opt_view(r) == type_written(value@),
{
    proof { reveal(type_written); }
    proof { unfold_ct_value(*value); }
    match value {
        CtValue::Type(ty) => source_type_from_ty(&**ty),
        _ => {
            assert(!(value@ is Type));
            None
        },
    }
}

#[verifier::opaque]
pub open spec fn types_in_pack(value: CtValueView) -> Result<Seq<TypeView>, ComptimeErrorView> {
    match value {
        CtValueView::Tuple(values) => types_written(values, 0, Seq::empty()),
        _ => Err(no_comptime("a type pack specialization requires a tuple of types"@)),
    }
}

/// See [`types_in_pack`].
pub fn pack_type_list(value: &CtValue) -> (r: Result<Vec<Type>, ComptimeError>)
    ensures
        (match r { Ok(v) => Ok(type_list_view(v@)), Err(v) => Err(v@) }) == types_in_pack(value@),
{
    proof { reveal(types_in_pack); }
    proof { unfold_ct_value(*value); }
    match value {
        CtValue::Tuple(values) => written_types(values),
        _ => {
            assert(!(value@ is Tuple));
            Err(not_comptime("a type pack specialization requires a tuple of types".to_owned()))
        },
    }
}

/// The types of the packs of a specialization.
pub open spec fn packs_of_spec(
    vals: Seq<CtValueView>,
    decls: Seq<ParamDeclView>,
    i: nat,
    out: Seq<(Seq<char>, Seq<TypeView>)>,
    k: usize,
) -> Result<Seq<(Seq<char>, Seq<TypeView>)>, ComptimeErrorView>
    decreases vals, (vals.len() - i) as nat,
{
    if i >= vals.len() {
        Ok(out)
    } else {
        let value = vals[i as int];
        if k >= decls.len() {
            Ok(out)
        } else {
            match and_pack(out, value, decls[k as int]) {
                Ok(taken) => {
                    let more = taken;
                    let out = more;
                    let k = following_index(k);
                    packs_of_spec(vals, decls, i + 1, out, k)
                },
                Err(error) => Err(error),
            }
        }
    }
}

/// See [`packs_of_spec`].
pub fn spec_packs(
    vals: &Vec<CtValue>,
    decls: &Vec<ParamDecl>,
) -> (r: Result<Vec<(String, Vec<Type>)>, ComptimeError>)
    ensures
        (match r { Ok(v) => Ok(pack_list_view(v@)), Err(v) => Err(v@) }) == packs_of_spec(
            ct_value_list_view(vals@),
            param_decl_list_view(decls@),
            0,
            Seq::<(Seq<char>, Seq<TypeView>)>::empty(),
            0,
        ),
    decreases vals@, 0nat,
{
    let mut out: Vec<(String, Vec<Type>)> = Vec::new();
    assert(pack_list_view(out@) =~= Seq::<(Seq<char>, Seq<TypeView>)>::empty());
    let mut k: usize = 0;
    let ghost goal = packs_of_spec(
        ct_value_list_view(vals@),
        param_decl_list_view(decls@),
        0,
        Seq::<(Seq<char>, Seq<TypeView>)>::empty(),
        0,
    );
    let mut i: usize = 0;
    while i < vals.len()
        invariant
            i <= vals@.len(),
            ct_value_list_view(vals@).len() == vals@.len(),
            packs_of_spec(
                ct_value_list_view(vals@),
                param_decl_list_view(decls@),
                i as nat,
                pack_list_view(out@),
                k,
            ) == goal,
            goal == packs_of_spec(
                ct_value_list_view(vals@),
                param_decl_list_view(decls@),
                0,
                Seq::<(Seq<char>, Seq<TypeView>)>::empty(),
                0,
            ),
        decreases vals@.len() - i,
    {
        let value = &vals[i];
        assert(ct_value_list_view(vals@)[i as int] == value@);
        if k >= decls.len() {
            return Ok(out);
        }
        let more = match with_pack(out, value, &decls[k]) {
            Ok(done) => done,
            Err(error) => {
                return Err(error);
            },
        };
        out = more;
        k = next_index(k);
        i = i + 1;
    }
    Ok(out)
}

#[verifier::opaque]
pub open spec fn and_pack(
    packs: Seq<(Seq<char>, Seq<TypeView>)>,
    value: CtValueView,
    decl: ParamDeclView,
) -> Result<Seq<(Seq<char>, Seq<TypeView>)>, ComptimeErrorView> {
    if variadic_type(decl) {
        match types_in_pack(value) {
            Ok(out) => {
                let types = out;
                let out = packs;
                let out = out.push((without_stars(name_of_decl(decl)), types));
                Ok(out)
            },
            Err(error) => Err(error),
        }
    } else {
        Ok(packs)
    }
}

/// See [`and_pack`].
pub fn with_pack(
    packs: Vec<(String, Vec<Type>)>,
    value: &CtValue,
    decl: &ParamDecl,
) -> (r: Result<Vec<(String, Vec<Type>)>, ComptimeError>)
    ensures
        (
            match r { Ok(v) => Ok(pack_list_view(v@)), Err(v) => Err(v@) }
        ) == and_pack(pack_list_view(packs@), value@, decl@),
{
    proof { reveal(and_pack); }
    if is_variadic_type(decl) {
        let types = match pack_type_list(value) {
            Ok(done) => done,
            Err(error) => {
                return Err(error);
            },
        };
        let mut out = packs;
        let item = (trim_stars(&decl_name(decl)), types);
        let ghost before = pack_list_view(out@);
        let ghost added = (item.0@, type_list_view(item.1@));
        out.push(item);
        assert(pack_list_view(out@) =~= before.push(added));
        Ok(out)
    } else {
        Ok(packs)
    }
}

/// The types of the pack that a parameter collects.
#[verifier::opaque]
pub open spec fn pack_collected(
    param: FnParamView,
    packs: Seq<(Seq<char>, Seq<TypeView>)>,
) -> Option<Seq<TypeView>> {
    match param.ty {
        TypeView::Named(name, _) => pack_types(packs, without_stars(name)),
        _ => None,
    }
}

/// See [`pack_collected`].
pub fn collected_pack(
    param: &FnParam,
    packs: &Vec<(String, Vec<Type>)>,
) -> (r: Option<Vec<Type>>)
    ensures
        (
            match r { Some(v) => Some(type_list_view(v@)), None => None }
        ) == pack_collected(param@, pack_list_view(packs@)),
{
    proof { reveal(pack_collected); }
    proof { unfold_type(param.ty); }
    match &param.ty {
        Type::Named(name, _) => find_pack(packs, &trim_stars(name)),
        _ => {
            assert(!(param.ty@ is Named));
            None
        },
    }
}

#[verifier::opaque]
pub open spec fn param_with_type(param: FnParamView, ty: TypeView) -> FnParamView {
    FnParamView {
        name: param.name,
        ty,
        default: param.default,
        convention: param.convention,
        kind: param.kind,
    }
}

/// See [`param_with_type`].
pub fn with_type(param: &FnParam, ty: Type) -> (r: FnParam)
    ensures
        r@ == param_with_type(param@, ty@),
{
    proof { reveal(param_with_type); }
    FnParam {
        name: (&param.name).clone(),
        ty,
        default: (match (&param.default) { Some(y) => Some(clone_expr(y)), None => None }),
        convention: param.convention,
        kind: param.kind,
    }
}

#[verifier::opaque]
pub open spec fn param_of_spec(
    param: FnParamView,
    packs: Seq<(Seq<char>, Seq<TypeView>)>,
) -> FnParamView {
    match pack_collected(param, packs) {
        Some(types) => {
            let args = and_type_args(types, 0, Seq::empty());
            let pack = TypeView::Named("$pack"@, args);
            param_with_type(param, expanded_type(pack, packs))
        },
        None => param_with_type(param, expanded_type(param.ty, packs)),
    }
}

/// See [`param_of_spec`].
pub fn spec_param(param: &FnParam, packs: &Vec<(String, Vec<Type>)>) -> (r: FnParam)
    ensures
        r@ == param_of_spec(param@, pack_list_view(packs@)),
{
    proof { reveal(param_of_spec); }
    match collected_pack(param, packs) {
        Some(types) => {
            let list: Vec<ParamArg> = Vec::new();
            assert(param_arg_list_view(list@) =~= Seq::<ParamArgView>::empty());
            let args = with_type_args(&types, list);
            let type_value = Type::Named("$pack".to_owned(), args);
            proof { unfold_type(type_value); }
            let pack = type_value;
            with_type(param, expand_type(&pack, packs))
        },
        None => with_type(param, expand_type(&param.ty, packs)),
    }
}

pub open spec fn params_of_spec(
    params: Seq<FnParamView>,
    packs: Seq<(Seq<char>, Seq<TypeView>)>,
    i: nat,
    out: Seq<FnParamView>,
) -> Seq<FnParamView>
    decreases params, (params.len() - i) as nat,
{
    if i >= params.len() {
        out
    } else {
        let param = params[i as int];
        let out = out.push(param_of_spec(param, packs));
        params_of_spec(params, packs, i + 1, out)
    }
}

/// See [`params_of_spec`].
pub fn spec_params(params: &Vec<FnParam>, packs: &Vec<(String, Vec<Type>)>) -> (r: Vec<FnParam>)
    ensures
        fn_param_list_view(r@) == params_of_spec(
            fn_param_list_view(params@),
            pack_list_view(packs@),
            0,
            Seq::<FnParamView>::empty(),
        ),
    decreases params@, 0nat,
{
    let mut out: Vec<FnParam> = Vec::new();
    assert(fn_param_list_view(out@) =~= Seq::<FnParamView>::empty());
    let ghost goal = params_of_spec(
        fn_param_list_view(params@),
        pack_list_view(packs@),
        0,
        Seq::<FnParamView>::empty(),
    );
    let mut i: usize = 0;
    while i < params.len()
        invariant
            i <= params@.len(),
            fn_param_list_view(params@).len() == params@.len(),
            params_of_spec(
                fn_param_list_view(params@),
                pack_list_view(packs@),
                i as nat,
                fn_param_list_view(out@),
            ) == goal,
            goal == params_of_spec(
                fn_param_list_view(params@),
                pack_list_view(packs@),
                0,
                Seq::<FnParamView>::empty(),
            ),
        decreases params@.len() - i,
    {
        let param = &params[i];
        assert(fn_param_list_view(params@)[i as int] == param@);
        let item = spec_param(param, packs);
        let ghost before = fn_param_list_view(out@);
        let ghost added = item@;
        out.push(item);
        assert(fn_param_list_view(out@) =~= before.push(added));
        i = i + 1;
    }
    out
}

/// The lengths of the packs that parameters collect.
pub open spec fn lengths_of_spec(
    params: Seq<FnParamView>,
    packs: Seq<(Seq<char>, Seq<TypeView>)>,
    i: nat,
    out: Seq<(Seq<char>, usize)>,
) -> Seq<(Seq<char>, usize)>
    decreases params, (params.len() - i) as nat,
{
    if i >= params.len() {
        out
    } else {
        let param = params[i as int];
        match pack_collected(param, packs) {
            Some(types) => {
                let out = out.push((param.name, types.len() as usize));
                lengths_of_spec(params, packs, i + 1, out)
            },
            None => lengths_of_spec(params, packs, i + 1, out),
        }
    }
}

/// See [`lengths_of_spec`].
pub fn spec_lengths(
    params: &Vec<FnParam>,
    packs: &Vec<(String, Vec<Type>)>,
) -> (r: Vec<(String, usize)>)
    ensures
        pack_length_list_view(r@) == lengths_of_spec(
            fn_param_list_view(params@),
            pack_list_view(packs@),
            0,
            Seq::<(Seq<char>, usize)>::empty(),
        ),
    decreases params@, 0nat,
{
    let mut out: Vec<(String, usize)> = Vec::new();
    assert(pack_length_list_view(out@) =~= Seq::<(Seq<char>, usize)>::empty());
    let ghost goal = lengths_of_spec(
        fn_param_list_view(params@),
        pack_list_view(packs@),
        0,
        Seq::<(Seq<char>, usize)>::empty(),
    );
    let mut i: usize = 0;
    while i < params.len()
        invariant
            i <= params@.len(),
            fn_param_list_view(params@).len() == params@.len(),
            lengths_of_spec(
                fn_param_list_view(params@),
                pack_list_view(packs@),
                i as nat,
                pack_length_list_view(out@),
            ) == goal,
            goal == lengths_of_spec(
                fn_param_list_view(params@),
                pack_list_view(packs@),
                0,
                Seq::<(Seq<char>, usize)>::empty(),
            ),
        decreases params@.len() - i,
    {
        let param = &params[i];
        assert(fn_param_list_view(params@)[i as int] == param@);
        match collected_pack(param, packs) {
            Some(types) => {
                let item = ((&param.name).clone(), types.len());
                let ghost before = pack_length_list_view(out@);
                let ghost added = (item.0@, item.1);
                out.push(item);
                assert(pack_length_list_view(out@) =~= before.push(added));
            },
            None => {},
        }
        i = i + 1;
    }
    out
}

/// The value of the first pack parameter, when it is a tuple.
pub open spec fn value_of_pack(
    vals: Seq<CtValueView>,
    decls: Seq<ParamDeclView>,
    i: nat,
    k: usize,
) -> Option<CtValueView>
    decreases vals, (vals.len() - i) as nat,
{
    if i >= vals.len() {
        None
    } else {
        let value = vals[i as int];
        if k >= decls.len() {
            None
        } else if begins_with_star(name_of_decl(decls[k as int])) {
            if (value matches CtValueView::Tuple(_)) {
                Some(value)
            } else {
                None
            }
        } else {
            let k = following_index(k);
            value_of_pack(vals, decls, i + 1, k)
        }
    }
}

/// See [`value_of_pack`].
pub fn pack_value(vals: &Vec<CtValue>, decls: &Vec<ParamDecl>) -> (r: Option<CtValue>)
    ensures
        opt_view(r) == value_of_pack(ct_value_list_view(vals@), param_decl_list_view(decls@), 0, 0),
    decreases vals@, 0nat,
{
    let mut k: usize = 0;
    let ghost goal = value_of_pack(ct_value_list_view(vals@), param_decl_list_view(decls@), 0, 0);
    let mut i: usize = 0;
    while i < vals.len()
        invariant
            i <= vals@.len(),
            ct_value_list_view(vals@).len() == vals@.len(),
            value_of_pack(
                ct_value_list_view(vals@),
                param_decl_list_view(decls@),
                i as nat,
                k,
            ) == goal,
            goal == value_of_pack(ct_value_list_view(vals@), param_decl_list_view(decls@), 0, 0),
        decreases vals@.len() - i,
    {
        let value = &vals[i];
        assert(ct_value_list_view(vals@)[i as int] == value@);
        if k >= decls.len() {
            return None;
        }
        if starts_with_star(&decl_name(&decls[k])) {
            return if matches!(value, CtValue::Tuple(_)) {
                Some(clone_ct_value(value))
            } else {
                None
            };
        }
        k = next_index(k);
        i = i + 1;
    }
    None
}

/// The first parameter that collects a pack.
pub open spec fn param_of_pack(params: Seq<FnParamView>, i: nat) -> Option<Seq<char>>
    decreases params, (params.len() - i) as nat,
{
    if i >= params.len() {
        None
    } else {
        let param = params[i as int];
        match param.ty {
            TypeView::Named(name, _) => if begins_with_star(name) {
                Some(param.name)
            } else {
                param_of_pack(params, i + 1)
            },
            _ => param_of_pack(params, i + 1),
        }
    }
}

/// See [`param_of_pack`].
pub fn pack_param(params: &Vec<FnParam>) -> (r: Option<String>)
    ensures
        opt_view(r) == param_of_pack(fn_param_list_view(params@), 0),
    decreases params@, 0nat,
{
    let ghost goal = param_of_pack(fn_param_list_view(params@), 0);
    let mut i: usize = 0;
    while i < params.len()
        invariant
            i <= params@.len(),
            fn_param_list_view(params@).len() == params@.len(),
            param_of_pack(fn_param_list_view(params@), i as nat) == goal,
            goal == param_of_pack(fn_param_list_view(params@), 0),
        decreases params@.len() - i,
    {
        let param = &params[i];
        assert(fn_param_list_view(params@)[i as int] == param@);
        proof { unfold_type(param.ty); }
        match &param.ty {
            Type::Named(name, _) => {
                if starts_with_star(name) {
                    return Some((&param.name).clone());
                }
            },
            _ => {
                assert(!(param.ty@ is Named));
            },
        }
        i = i + 1;
    }
    None
}

/// The types of the arguments that a pack parameter collects are seen under its name.
#[verifier::opaque]
pub open spec fn and_pack_param(
    env: Seq<(Seq<char>, CtValueView)>,
    params: Seq<FnParamView>,
    vals: Seq<CtValueView>,
    decls: Seq<ParamDeclView>,
) -> Seq<(Seq<char>, CtValueView)> {
    match value_of_pack(vals, decls, 0, 0) {
        Some(value) => match param_of_pack(params, 0) {
            Some(name) => and_value(env, name, value),
            None => env,
        },
        None => env,
    }
}

/// See [`and_pack_param`].
pub fn with_pack_param(
    env: Vec<(String, CtValue)>,
    params: &Vec<FnParam>,
    vals: &Vec<CtValue>,
    decls: &Vec<ParamDecl>,
) -> (r: Vec<(String, CtValue)>)
    ensures
        binding_list_view(r@) == and_pack_param(
            binding_list_view(env@),
            fn_param_list_view(params@),
            ct_value_list_view(vals@),
            param_decl_list_view(decls@),
        ),
{
    proof { reveal(and_pack_param); }
    match pack_value(vals, decls) {
        Some(value) => {
            match pack_param(params) {
                Some(name) => with_value(env, &name, &value),
                None => env,
            }
        },
        None => env,
    }
}

#[verifier::opaque]
pub open spec fn wrong_spec_arity(
    orig: Seq<char>,
    expected: usize,
    found: usize,
) -> ComptimeErrorView {
    ComptimeErrorView::Arity(
        "'"@ + orig + "' expects "@ + decimal(expected as nat) + " compile-time argument(s), got "@ + decimal(found as nat)
    )
}

/// See [`wrong_spec_arity`].
pub fn spec_arity(orig: &String, expected: usize, found: usize) -> (r: ComptimeError)
    ensures
        r@ == wrong_spec_arity(orig@, expected, found),
{
    proof { reveal(wrong_spec_arity); }
    ComptimeError::Arity(
        cat6(
            "'",
            orig.as_str(),
            "' expects ",
            show_usize(expected).as_str(),
            " compile-time argument(s), got ",
            show_usize(found).as_str(),
        )
    )
}

/// The body of a specialization: its constructs resolved, its value parameters
/// literals, its packs expanded.
#[verifier::opaque]
pub open spec fn body_of_spec(
    body: Seq<StmtView>,
    params: Seq<FnParamView>,
    vals: Seq<CtValueView>,
    decls: Seq<ParamDeclView>,
    packs: Seq<(Seq<char>, Seq<TypeView>)>,
    cx: CtContextView,
    top: Seq<(Seq<char>, CtValueView)>,
    fuel: usize,
) -> Result<(Seq<StmtView>, usize), ComptimeErrorView> {
    let env = and_pack_param(env_of_spec(vals, decls, 0, top, 0), params, vals, decls);
    let visible = values_visible(top, names_of_params(params, 0, Seq::empty()), 0, Seq::empty());
    let subs = subs_of_spec(vals, decls, 0, visible, 0);
    let lengths = lengths_of_spec(params, packs, 0, Seq::empty());
    match block_elaborated(
        body,
        true,
        cx,
        4294967295,
        0,
        Seq::empty(),
        ElabStateView { fuel, env, top },
    ) {
        Ok(out) => {
            let (body, st) = out;
            let body = materialized(body, subs);
            Ok((expanded_stmt_list(body, packs, lengths, 0, Seq::empty()), st.fuel))
        },
        Err(error) => Err(error),
    }
}

/// See [`body_of_spec`].
pub fn spec_body(
    body: &Vec<Stmt>,
    params: &Vec<FnParam>,
    vals: &Vec<CtValue>,
    decls: &Vec<ParamDecl>,
    packs: &Vec<(String, Vec<Type>)>,
    cx: &CtContext,
    top: &Vec<(String, CtValue)>,
    fuel: usize,
) -> (r: Result<(Vec<Stmt>, usize), ComptimeError>)
    ensures
        (match r { Ok(v) => Ok((stmt_list_view(v.0@), v.1)), Err(v) => Err(v@) }) == body_of_spec(
            stmt_list_view(body@),
            fn_param_list_view(params@),
            ct_value_list_view(vals@),
            param_decl_list_view(decls@),
            pack_list_view(packs@),
            cx@,
            binding_list_view(top@),
            fuel,
        ),
{
    proof { reveal(body_of_spec); }
    let env = with_pack_param(spec_env(vals, decls, clone_binding_list(top)), params, vals, decls);
    let list: Vec<String> = Vec::new();
    assert(string_list_view(list@) =~= Seq::<Seq<char>>::empty());
    let visible = unshadowed(top, &param_names(params, list));
    let subs = spec_subs(vals, decls, visible);
    let lengths = spec_lengths(params, packs);
    let state = ElabState { fuel, env, top: clone_binding_list(top) };
    proof { unfold_elab_state(state); }
    let (body, st) = match elab_block(body, true, cx, state, 4294967295) {
        Ok(done) => done,
        Err(error) => {
            return Err(error);
        },
    };
    let body = materialize_block(&body, &subs);
    Ok((expand_stmt_list(&body, packs, &lengths), st.fuel))
}

/// A template for the values of its parameters.
#[verifier::opaque]
pub open spec fn spec_generated(
    template: TemplateView,
    vals: Seq<CtValueView>,
    cx: CtContextView,
    top: Seq<(Seq<char>, CtValueView)>,
    fuel: usize,
) -> Result<(StmtView, usize), ComptimeErrorView> {
    match template.def.kind {
        StmtKindView::Def {
            decorators,
            type_params,
            params,
            positional_only,
            keyword_only,
            captures,
            raises,
            raises_type,
            ret,
            where_clause,
            body,
            ..
        } => {
            let decls = ct_params(type_params, 0, Seq::empty());
            if decls.len() != vals.len() {
                Err(wrong_spec_arity(template.name, decls.len() as usize, vals.len() as usize))
            } else {
                match packs_of_spec(vals, decls, 0, Seq::empty(), 0) {
                    Ok(out) => {
                        let packs = out;
                        match body_of_spec(body, params, vals, decls, packs, cx, top, fuel) {
                            Ok(out) => {
                                let (new_body, fuel) = out;
                                let kind = StmtKindView::Def {
                                    name: mangled(vals, 0, template.name),
                                    decorators,
                                    type_params: type_params_kept(
                                        type_params,
                                        decls,
                                        0,
                                        Seq::empty(),
                                        0,
                                    ),
                                    params: params_of_spec(params, packs, 0, Seq::empty()),
                                    positional_only,
                                    keyword_only,
                                    captures,
                                    raises,
                                    raises_type,
                                    ret: expanded_opt_type(ret, packs),
                                    where_clause,
                                    body: new_body,
                                };
                                Ok((unplaced(kind, template.def.span), fuel))
                            },
                            Err(error) => Err(error),
                        }
                    },
                    Err(error) => Err(error),
                }
            }
        },
        _ => Err(no_comptime("specialization registry entry '"@ + template.name + "' is not a function"@)),
    }
}

/// See [`spec_generated`].
pub fn generate_spec(
    template: &Template,
    vals: &Vec<CtValue>,
    cx: &CtContext,
    top: &Vec<(String, CtValue)>,
    fuel: usize,
) -> (r: Result<(Stmt, usize), ComptimeError>)
    ensures
        (match r { Ok(v) => Ok((v.0@, v.1)), Err(v) => Err(v@) }) == spec_generated(
            template@,
            ct_value_list_view(vals@),
            cx@,
            binding_list_view(top@),
            fuel,
        ),
{
    proof { reveal(spec_generated); }
    proof { unfold_stmt_kind(template.def.kind); }
    match &template.def.kind {
        StmtKind::Def {
            decorators,
            type_params,
            params,
            positional_only,
            keyword_only,
            captures,
            raises,
            raises_type,
            ret,
            where_clause,
            body,
            ..
        } => {
            let decls = classify_ct_params(type_params);
            if decls.len() != vals.len() {
                return Err(spec_arity(&template.name, decls.len(), vals.len()));
            }
            let packs = match spec_packs(vals, &decls) {
                Ok(done) => done,
                Err(error) => {
                    return Err(error);
                },
            };
            let (new_body, fuel) = match spec_body(
                body,
                params,
                vals,
                &decls,
                &packs,
                cx,
                top,
                fuel,
            ) {
                Ok(done) => done,
                Err(error) => {
                    return Err(error);
                },
            };
            let kind2 = StmtKind::Def {
                name: mangle(vals, (&template.name).clone()),
                decorators: clone_string_list(decorators),
                type_params: kept_type_params(type_params, &decls),
                params: spec_params(params, &packs),
                positional_only: *positional_only,
                keyword_only: *keyword_only,
                captures: (match captures { Some(y) => Some(clone_capture_list(y)), None => None }),
                raises: *raises,
                raises_type: (match raises_type { Some(y) => Some(clone_type(y)), None => None }),
                ret: expand_opt_type(ret, &packs),
                where_clause: (match where_clause { Some(y) => Some(clone_expr(y)), None => None }),
                body: new_body,
            };
            proof { unfold_stmt_kind(kind2); }
            let kind = kind2;
            Ok((mk(kind, template.def.span), fuel))
        },
        _ => {
            assert(!(template.def.kind@ is Def));
            Err(not_comptime(cat3("specialization registry entry '", &template.name.as_str(), "' is not a function")))
        },
    }
}

#[verifier::opaque]
pub open spec fn quota_of_spec(job: JobView) -> ComptimeErrorView {
    let special = mangled(job.vals, 0, job.orig);
    no_comptime(
        "specialization quota exceeded while instantiating '"@ + special + "' requested at "@ + job.site + "; possible unbounded generic recursion"@
    )
}

/// See [`quota_of_spec`].
pub fn spec_quota(job: &Job) -> (r: ComptimeError)
    ensures
        r@ == quota_of_spec(job@),
{
    proof { reveal(quota_of_spec); }
    let special = mangle(&job.vals, (&job.orig).clone());
    not_comptime(
        cat5(
            "specialization quota exceeded while instantiating '",
            special.as_str(),
            "' requested at ",
            &job.site.as_str(),
            "; possible unbounded generic recursion",
        )
    )
}

#[verifier::opaque]
pub open spec fn and_made(made: Seq<MadeView>, orig: Seq<char>, def: StmtView) -> Seq<MadeView> {
    let out = made;
    let out = out.push(MadeView { orig, def });
    out
}

/// See [`and_made`].
pub fn with_made(made: Vec<Made>, orig: &String, def: Stmt) -> (r: Vec<Made>)
    ensures
        made_list_view(r@) == and_made(made_list_view(made@), orig@, def@),
{
    proof { reveal(and_made); }
    let mut out = made;
    let item = Made { orig: orig.clone(), def };
    let ghost before = made_list_view(out@);
    let ghost added = item@;
    out.push(item);
    assert(made_list_view(out@) =~= before.push(added));
    out
}

/// One specialization, with the calls in its body.
#[verifier::opaque]
pub open spec fn spec_made(
    job: JobView,
    top: Seq<(Seq<char>, CtValueView)>,
    cx: CtContextView,
    mono: MonoView,
) -> Result<(StmtView, MonoView), ComptimeErrorView> {
    match burnt(mono.fuel) {
        Ok(fuel) => match template_named(cx.templates, job.orig, 0, None) {
            Some(template) => match spec_generated(template, job.vals, cx, top, fuel) {
                Ok(out) => {
                    let (def, fuel) = out;
                    let mono = MonoView { fuel, queue: mono.queue, done: mono.done };
                    specialized_stmt(def, top, cx, mono)
                },
                Err(error) => Err(error),
            },
            None => Err(no_comptime("specialization registry entry '"@ + job.orig + "' is not a function"@)),
        },
        Err(_) => Err(quota_of_spec(job)),
    }
}

/// See [`spec_made`].
pub fn make_spec(
    job: &Job,
    top: &Vec<(String, CtValue)>,
    cx: &CtContext,
    mono: Mono,
) -> (r: Result<(Stmt, Mono), ComptimeError>)
    ensures
        (
            match r { Ok(v) => Ok((v.0@, v.1@)), Err(v) => Err(v@) }
        ) == spec_made(job@, binding_list_view(top@), cx@, mono@),
{
    proof { reveal(spec_made); }
    match burn(mono.fuel) {
        Ok(fuel) => {
            match find_template(&cx.templates, &job.orig) {
                Some(template) => {
                    let (def, fuel) = match generate_spec(&template, &job.vals, cx, top, fuel) {
                        Ok(done) => done,
                        Err(error) => {
                            return Err(error);
                        },
                    };
                    let mono2 = Mono { fuel, queue: mono.queue, done: mono.done };
                    proof { unfold_mono(mono2); }
                    let mono = mono2;
                    mono_stmt(&def, top, cx, mono)
                },
                None => Err(
                    not_comptime(cat3("specialization registry entry '", &job.orig.as_str(), "' is not a function"))
                ),
            }
        },
        Err(_) => Err(spec_quota(job)),
    }
}

/// The specializations that are asked for, those that they ask for in turn included.
/// `left` bounds their number.
pub open spec fn drained(
    at: usize,
    top: Seq<(Seq<char>, CtValueView)>,
    cx: CtContextView,
    mono: MonoView,
    made: Seq<MadeView>,
    left: usize,
) -> Result<Seq<MadeView>, ComptimeErrorView>
    decreases left as nat,
{
    if at < mono.queue.len() {
        if left == 0 {
            Err(ComptimeErrorView::QuotaExceeded)
        } else {
            let job = mono.queue[at as int];
            match spec_made(job, top, cx, mono) {
                Ok(out) => {
                    let (def, mono) = out;
                    let made = and_made(made, job.orig, def);
                    drained(following_index(at), top, cx, mono, made, (left - 1) as usize)
                },
                Err(error) => Err(error),
            }
        }
    } else {
        Ok(made)
    }
}

/// See [`drained`].
pub fn drain(
    at: usize,
    top: &Vec<(String, CtValue)>,
    cx: &CtContext,
    mono: Mono,
    made: Vec<Made>,
    left: usize,
) -> (r: Result<Vec<Made>, ComptimeError>)
    ensures
        (match r { Ok(v) => Ok(made_list_view(v@)), Err(v) => Err(v@) }) == drained(
            at,
            binding_list_view(top@),
            cx@,
            mono@,
            made_list_view(made@),
            left,
        ),
    decreases left as nat,
{
    if at < mono.queue.len() {
        if left == 0 {
            return Err(ComptimeError::QuotaExceeded);
        }
        let job = clone_job((&mono.queue[at]));
        let (def, mono) = match make_spec(&job, top, cx, mono) {
            Ok(done) => done,
            Err(error) => {
                return Err(error);
            },
        };
        let made = with_made(made, &job.orig, def);
        drain(next_index(at), top, cx, mono, made, left - 1)
    } else {
        Ok(made)
    }
}

#[verifier::opaque]
pub open spec fn template_stmt(stmt: StmtView, cx: CtContextView) -> bool {
    match stmt.kind {
        StmtKindView::Def { name, .. } => template_named(cx.templates, name, 0, None) is Some,
        _ => false,
    }
}

/// See [`template_stmt`].
pub fn is_template(stmt: &Stmt, cx: &CtContext) -> (r: bool)
    ensures
        r == template_stmt(stmt@, cx@),
{
    proof { reveal(template_stmt); }
    proof { unfold_stmt_kind(stmt.kind); }
    match &stmt.kind {
        StmtKind::Def { name, .. } => find_template(&cx.templates, name).is_some(),
        _ => {
            assert(!(stmt.kind@ is Def));
            false
        },
    }
}

/// The statements with their calls of templates specialized. Templates stay.
pub open spec fn program_specialized(
    program: Seq<StmtView>,
    top: Seq<(Seq<char>, CtValueView)>,
    cx: CtContextView,
    i: nat,
    out: Seq<StmtView>,
    mono: MonoView,
) -> Result<(Seq<StmtView>, MonoView), ComptimeErrorView>
    decreases program, (program.len() - i) as nat,
{
    if i >= program.len() {
        Ok((out, mono))
    } else {
        let stmt = program[i as int];
        match specialized_unless_template(stmt, top, cx, mono) {
            Ok(taken) => {
                let (made, rest) = taken;
                let out = out.push(made);
                let mono = rest;
                program_specialized(program, top, cx, i + 1, out, mono)
            },
            Err(error) => Err(error),
        }
    }
}

/// See [`program_specialized`].
pub fn mono_program(
    program: &Vec<Stmt>,
    top: &Vec<(String, CtValue)>,
    cx: &CtContext,
    start: Mono,
) -> (r: Result<(Vec<Stmt>, Mono), ComptimeError>)
    ensures
        (
            match r { Ok(v) => Ok((stmt_list_view(v.0@), v.1@)), Err(v) => Err(v@) }
        ) == program_specialized(
            stmt_list_view(program@),
            binding_list_view(top@),
            cx@,
            0,
            Seq::<StmtView>::empty(),
            start@,
        ),
    decreases program@, 0nat,
{
    let mut out: Vec<Stmt> = Vec::new();
    assert(stmt_list_view(out@) =~= Seq::<StmtView>::empty());
    let mut mono: Mono = start;
    let ghost goal = program_specialized(
        stmt_list_view(program@),
        binding_list_view(top@),
        cx@,
        0,
        Seq::<StmtView>::empty(),
        start@,
    );
    let mut i: usize = 0;
    while i < program.len()
        invariant
            i <= program@.len(),
            stmt_list_view(program@).len() == program@.len(),
            program_specialized(
                stmt_list_view(program@),
                binding_list_view(top@),
                cx@,
                i as nat,
                stmt_list_view(out@),
                mono@,
            ) == goal,
            goal == program_specialized(
                stmt_list_view(program@),
                binding_list_view(top@),
                cx@,
                0,
                Seq::<StmtView>::empty(),
                start@,
            ),
        decreases program@.len() - i,
    {
        let stmt = &program[i];
        assert(stmt_list_view(program@)[i as int] == stmt@);
        let (made, rest) = match mono_unless_template(stmt, top, cx, mono) {
            Ok(done) => done,
            Err(error) => {
                return Err(error);
            },
        };
        let ghost before = stmt_list_view(out@);
        let ghost added = made@;
        out.push(made);
        assert(stmt_list_view(out@) =~= before.push(added));
        mono = rest;
        i = i + 1;
    }
    Ok((out, mono))
}

#[verifier::opaque]
pub open spec fn specialized_unless_template(
    stmt: StmtView,
    top: Seq<(Seq<char>, CtValueView)>,
    cx: CtContextView,
    mono: MonoView,
) -> Result<(StmtView, MonoView), ComptimeErrorView> {
    if template_stmt(stmt, cx) {
        Ok((stmt, mono))
    } else {
        specialized_stmt(stmt, top, cx, mono)
    }
}

/// See [`specialized_unless_template`].
pub fn mono_unless_template(
    stmt: &Stmt,
    top: &Vec<(String, CtValue)>,
    cx: &CtContext,
    mono: Mono,
) -> (r: Result<(Stmt, Mono), ComptimeError>)
    ensures
        (
            match r { Ok(v) => Ok((v.0@, v.1@)), Err(v) => Err(v@) }
        ) == specialized_unless_template(stmt@, binding_list_view(top@), cx@, mono@),
{
    proof { reveal(specialized_unless_template); }
    if is_template(stmt, cx) {
        Ok((clone_stmt(stmt), mono))
    } else {
        mono_stmt(stmt, top, cx, mono)
    }
}

/// The specializations of a template, the last one first, so that a callee stands
/// before its caller.
pub open spec fn specs_reversed(
    made: Seq<MadeView>,
    name: Seq<char>,
    count: usize,
    found: Seq<StmtView>,
) -> Seq<StmtView>
    decreases count as nat,
{
    if count > 0 && count <= made.len() {
        let out = and_spec(found, made[(count - 1) as usize as int], name);
        specs_reversed(made, name, (count - 1) as usize, out)
    } else {
        found
    }
}

/// See [`specs_reversed`].
pub fn specs_of(
    made: &Vec<Made>,
    name: &String,
    count: usize,
    found: Vec<Stmt>,
) -> (r: Vec<Stmt>)
    ensures
        stmt_list_view(r@) == specs_reversed(
            made_list_view(made@),
            name@,
            count,
            stmt_list_view(found@),
        ),
    decreases count as nat,
{
    if count > 0 && count <= made.len() {
        let out = with_spec(found, &made[count - 1], name);
        specs_of(made, name, count - 1, out)
    } else {
        found
    }
}

#[verifier::opaque]
pub open spec fn and_spec(
    found: Seq<StmtView>,
    made: MadeView,
    name: Seq<char>,
) -> Seq<StmtView> {
    if made.orig == name {
        let out = found;
        let out = out.push(made.def);
        out
    } else {
        found
    }
}

/// See [`and_spec`].
pub fn with_spec(found: Vec<Stmt>, made: &Made, name: &String) -> (r: Vec<Stmt>)
    ensures
        stmt_list_view(r@) == and_spec(stmt_list_view(found@), made@, name@),
{
    proof { reveal(and_spec); }
    if same_string(&made.orig, name) {
        let mut out = found;
        let item = clone_stmt(&made.def);
        let ghost before = stmt_list_view(out@);
        let ghost added = item@;
        out.push(item);
        assert(stmt_list_view(out@) =~= before.push(added));
        out
    } else {
        found
    }
}

#[verifier::opaque]
pub open spec fn name_of_def(stmt: StmtView) -> Seq<char> {
    match stmt.kind {
        StmtKindView::Def { name, .. } => name,
        _ => ""@,
    }
}

/// See [`name_of_def`].
pub fn def_name(stmt: &Stmt) -> (r: String)
    ensures
        r@ == name_of_def(stmt@),
{
    proof { reveal(name_of_def); }
    proof { unfold_stmt_kind(stmt.kind); }
    match &stmt.kind {
        StmtKind::Def { name, .. } => name.clone(),
        _ => {
            assert(!(stmt.kind@ is Def));
            "".to_owned()
        },
    }
}

/// A program with each template replaced by its specializations, at its first place.
pub open spec fn templates_replaced(
    program: Seq<StmtView>,
    made: Seq<MadeView>,
    cx: CtContextView,
    i: nat,
    out: Seq<StmtView>,
    placed: Seq<Seq<char>>,
) -> Seq<StmtView>
    decreases program, (program.len() - i) as nat,
{
    if i >= program.len() {
        out
    } else {
        let stmt = program[i as int];
        if template_stmt(stmt, cx) {
            let name = name_of_def(stmt);
            let out = if !placed.contains(name) {
                let out = specs_reversed(made, name, made.len() as usize, out);
                out
            } else {
                out
            };
            let placed = placed.push(name);
            templates_replaced(program, made, cx, i + 1, out, placed)
        } else {
            let out = out.push(stmt);
            templates_replaced(program, made, cx, i + 1, out, placed)
        }
    }
}

/// See [`templates_replaced`].
pub fn replace_templates(
    program: &Vec<Stmt>,
    made: &Vec<Made>,
    cx: &CtContext,
) -> (r: Vec<Stmt>)
    ensures
        stmt_list_view(r@) == templates_replaced(
            stmt_list_view(program@),
            made_list_view(made@),
            cx@,
            0,
            Seq::<StmtView>::empty(),
            Seq::<Seq<char>>::empty(),
        ),
    decreases program@, 0nat,
{
    let mut out: Vec<Stmt> = Vec::new();
    assert(stmt_list_view(out@) =~= Seq::<StmtView>::empty());
    let mut placed: Vec<String> = Vec::new();
    assert(string_list_view(placed@) =~= Seq::<Seq<char>>::empty());
    let ghost goal = templates_replaced(
        stmt_list_view(program@),
        made_list_view(made@),
        cx@,
        0,
        Seq::<StmtView>::empty(),
        Seq::<Seq<char>>::empty(),
    );
    let mut i: usize = 0;
    while i < program.len()
        invariant
            i <= program@.len(),
            stmt_list_view(program@).len() == program@.len(),
            templates_replaced(
                stmt_list_view(program@),
                made_list_view(made@),
                cx@,
                i as nat,
                stmt_list_view(out@),
                string_list_view(placed@),
            ) == goal,
            goal == templates_replaced(
                stmt_list_view(program@),
                made_list_view(made@),
                cx@,
                0,
                Seq::<StmtView>::empty(),
                Seq::<Seq<char>>::empty(),
            ),
        decreases program@.len() - i,
    {
        let stmt = &program[i];
        assert(stmt_list_view(program@)[i as int] == stmt@);
        if is_template(stmt, cx) {
            let name = def_name(stmt);
            if !contains_name(&placed, &name) {
                out = specs_of(made, &name, made.len(), out);
            }
            let ghost before = string_list_view(placed@);
            let ghost added = name@;
            placed.push(name);
            assert(string_list_view(placed@) =~= before.push(added));
        } else {
            let item = clone_stmt(stmt);
            let ghost before2 = stmt_list_view(out@);
            let ghost added2 = item@;
            out.push(item);
            assert(stmt_list_view(out@) =~= before2.push(added2));
        }
        i = i + 1;
    }
    out
}

/// A program in which each template stands as its specializations.
#[verifier::opaque]
pub open spec fn monomorphized(
    program: Seq<StmtView>,
    cx: CtContextView,
    top: Seq<(Seq<char>, CtValueView)>,
    fuel: usize,
) -> Result<Seq<StmtView>, ComptimeErrorView> {
    if cx.templates.len() == 0 {
        Ok(program)
    } else {
        let start = MonoView { fuel, queue: Seq::empty(), done: Seq::empty() };
        match program_specialized(program, top, cx, 0, Seq::empty(), start) {
            Ok(out) => {
                let (program, mono) = out;
                match drained(0, top, cx, mono, Seq::empty(), past_quota()) {
                    Ok(out) => {
                        let made = out;
                        Ok(templates_replaced(program, made, cx, 0, Seq::empty(), Seq::empty()))
                    },
                    Err(error) => Err(error),
                }
            },
            Err(error) => Err(error),
        }
    }
}

/// See [`monomorphized`].
pub fn monomorphize(
    program: Vec<Stmt>,
    cx: &CtContext,
    top: &Vec<(String, CtValue)>,
    fuel: usize,
) -> (r: Result<Vec<Stmt>, ComptimeError>)
    ensures
        (
            match r { Ok(v) => Ok(stmt_list_view(v@)), Err(v) => Err(v@) }
        ) == monomorphized(stmt_list_view(program@), cx@, binding_list_view(top@), fuel),
{
    proof { reveal(monomorphized); }
    if cx.templates.len() == 0 {
        Ok(program)
    } else {
        let list: Vec<Job> = Vec::new();
        assert(job_list_view(list@) =~= Seq::<JobView>::empty());
        let list2: Vec<String> = Vec::new();
        assert(string_list_view(list2@) =~= Seq::<Seq<char>>::empty());
        let mono2 = Mono { fuel, queue: list, done: list2 };
        proof { unfold_mono(mono2); }
        let start = mono2;
        let (program, mono) = match mono_program(&program, top, cx, start) {
            Ok(done) => done,
            Err(error) => {
                return Err(error);
            },
        };
        let list3: Vec<Made> = Vec::new();
        assert(made_list_view(list3@) =~= Seq::<MadeView>::empty());
        let made = match drain(0, top, cx, mono, list3, step_limit()) {
            Ok(done) => done,
            Err(error) => {
                return Err(error);
            },
        };
        Ok(replace_templates(&program, &made, cx))
    }
}

/// What is known of a program at compile time.
#[verifier::opaque]
pub open spec fn known_of(program: Seq<StmtView>, replies: Seq<CtReplyView>) -> CtContextView {
    CtContextView {
        program,
        fns: fns_of(program, 0, Seq::empty()),
        structs: structs_of(program, 0, Seq::empty()),
        templates: templates_of(program, 0, Seq::empty()),
        replies,
    }
}

/// See [`known_of`].
pub fn context_of(program: &Vec<Stmt>, replies: &Vec<CtReply>) -> (r: CtContext)
    ensures
        r@ == known_of(stmt_list_view(program@), ct_reply_list_view(replies@)),
{
    proof { reveal(known_of); }
    let context = CtContext {
        program: clone_stmt_list(program),
        fns: collect_fns(program),
        structs: collect_structs(program),
        templates: collect_specializable(program),
        replies: clone_ct_reply_list(replies),
    };
    proof { unfold_ct_context(context); }
    context
}

#[verifier::opaque]
pub open spec fn stamped_by_own(stmt: StmtView) -> StmtView {
    match stmt.module {
        Some(source) => stamped_stmt(stmt, source),
        None => stmt,
    }
}

/// See [`stamped_by_own`].
pub fn stamped_own(stmt: &Stmt) -> (r: Stmt)
    ensures
        r@ == stamped_by_own(stmt@),
{
    proof { reveal(stamped_by_own); }
    match &stmt.module {
        Some(source) => stamp_stmt(stmt, source),
        None => clone_stmt(stmt),
    }
}

pub open spec fn program_stamped(
    program: Seq<StmtView>,
    i: nat,
    out: Seq<StmtView>,
) -> Seq<StmtView>
    decreases program, (program.len() - i) as nat,
{
    if i >= program.len() {
        out
    } else {
        let stmt = program[i as int];
        let out = out.push(stamped_by_own(stmt));
        program_stamped(program, i + 1, out)
    }
}

/// See [`program_stamped`].
pub fn stamp_program(program: &Vec<Stmt>) -> (r: Vec<Stmt>)
    ensures
        stmt_list_view(r@) == program_stamped(
            stmt_list_view(program@),
            0,
            Seq::<StmtView>::empty(),
        ),
    decreases program@, 0nat,
{
    let mut out: Vec<Stmt> = Vec::new();
    assert(stmt_list_view(out@) =~= Seq::<StmtView>::empty());
    let ghost goal = program_stamped(stmt_list_view(program@), 0, Seq::<StmtView>::empty());
    let mut i: usize = 0;
    while i < program.len()
        invariant
            i <= program@.len(),
            stmt_list_view(program@).len() == program@.len(),
            program_stamped(stmt_list_view(program@), i as nat, stmt_list_view(out@)) == goal,
            goal == program_stamped(stmt_list_view(program@), 0, Seq::<StmtView>::empty()),
        decreases program@.len() - i,
    {
        let stmt = &program[i];
        assert(stmt_list_view(program@)[i as int] == stmt@);
        let item = stamped_own(stmt);
        let ghost before = stmt_list_view(out@);
        let ghost added = item@;
        out.push(item);
        assert(stmt_list_view(out@) =~= before.push(added));
        i = i + 1;
    }
    out
}

/// A program without compile-time constructs. A call that has to be run and is not
/// among the replies comes back as the error.
#[verifier::opaque]
pub open spec fn elaborated(
    program: Seq<StmtView>,
    replies: Seq<CtReplyView>,
) -> Result<Seq<StmtView>, ComptimeErrorView> {
    let cx = known_of(program, replies);
    let start = ElabStateView { fuel: step_quota(), env: Seq::empty(), top: Seq::empty() };
    match block_elaborated(program, false, cx, 4294967295, 0, Seq::empty(), start) {
        Ok(out) => {
            let (made, st) = out;
            let literal = materialized(made, st.top);
            match monomorphized(literal, cx, st.top, st.fuel) {
                Ok(out) => {
                    let special = out;
                    Ok(program_stamped(special, 0, Seq::empty()))
                },
                Err(error) => Err(error),
            }
        },
        Err(error) => Err(error),
    }
}

/// See [`elaborated`].
pub fn elaborate(
    program: &Vec<Stmt>,
    replies: &Vec<CtReply>,
) -> (r: Result<Vec<Stmt>, ComptimeError>)
    ensures
        (
            match r { Ok(v) => Ok(stmt_list_view(v@)), Err(v) => Err(v@) }
        ) == elaborated(stmt_list_view(program@), ct_reply_list_view(replies@)),
{
    proof { reveal(elaborated); }
    let cx = context_of(program, replies);
    let list: Vec<(String, CtValue)> = Vec::new();
    assert(binding_list_view(list@) =~= Seq::<(Seq<char>, CtValueView)>::empty());
    let list2: Vec<(String, CtValue)> = Vec::new();
    assert(binding_list_view(list2@) =~= Seq::<(Seq<char>, CtValueView)>::empty());
    let state = ElabState { fuel: quota(), env: list, top: list2 };
    proof { unfold_elab_state(state); }
    let start = state;
    let (made, st) = match elab_block(program, false, &cx, start, 4294967295) {
        Ok(done) => done,
        Err(error) => {
            return Err(error);
        },
    };
    let literal = materialize_block(&made, &st.top);
    let special = match monomorphize(literal, &cx, &st.top, st.fuel) {
        Ok(done) => done,
        Err(error) => {
            return Err(error);
        },
    };
    Ok(stamp_program(&special))
}

/// Whether an expression is a fact that only the compiler knows.
#[verifier::opaque]
pub open spec fn type_fact(expr: ExprView) -> bool {
    match expr.kind {
        ExprKindView::Call { name, .. } => name == "is_same_type"@,
        ExprKindView::Member { .. } => true,
        _ => false,
    }
}

/// See [`type_fact`].
pub fn is_type_fact(expr: &Expr) -> (r: bool)
    ensures
        r == type_fact(expr@),
{
    proof { reveal(type_fact); }
    proof { unfold_expr_kind(expr.kind); }
    match &expr.kind {
        ExprKind::Call { name, .. } => same_text(name.as_str(), "is_same_type"),
        ExprKind::Member { .. } => true,
        _ => {
            assert(!(expr.kind@ is Call));
            assert(!(expr.kind@ is Member));
            false
        },
    }
}

#[verifier::opaque]
pub open spec fn member_access(expr: ExprView) -> bool {
    (expr.kind matches ExprKindView::Member { .. })
}

/// See [`member_access`].
pub fn is_member(expr: &Expr) -> (r: bool)
    ensures
        r == member_access(expr@),
{
    proof { reveal(member_access); }
    matches!(&expr.kind, ExprKind::Member { .. })
}

/// The literal that an expression stands for at compile time. A member that has no
/// value stays, and the steps it took are spent; a question about types has to have a value.
#[verifier::opaque]
pub open spec fn fact_folded(
    expr: ExprView,
    scope: Seq<(Seq<char>, CtValueView)>,
    cx: CtContextView,
    fuel: usize,
) -> Result<(ExprView, usize), HaltView> {
    if type_fact(expr) {
        match evaluated(expr, scope, cx, fuel, 4294967295) {
            Ok((value, rest)) => match literal_of(value, expr.span) {
                Some(literal) => Ok((literal, rest)),
                None => Ok((expr, rest)),
            },
            Err(halted) => if member_access(expr) && !(
                (halted.error matches ComptimeErrorView::Pending(_))
            ) {
                Ok((expr, halted.fuel))
            } else {
                Err(halted)
            },
        }
    } else {
        Ok((expr, fuel))
    }
}

/// See [`fact_folded`].
pub fn folded_fact(
    expr: Expr,
    scope: &Vec<(String, CtValue)>,
    cx: &CtContext,
    fuel: usize,
) -> (r: Result<(Expr, usize), Halt>)
    ensures
        (
            match r { Ok(v) => Ok((v.0@, v.1)), Err(v) => Err(v@) }
        ) == fact_folded(expr@, binding_list_view(scope@), cx@, fuel),
{
    proof { reveal(fact_folded); }
    if is_type_fact(&expr) {
        match eval(&expr, scope, cx, fuel, 4294967295) {
            Ok((value, rest)) => {
                match value.materialize(expr.span) {
                    Some(literal) => Ok((literal, rest)),
                    None => Ok((expr, rest)),
                }
            },
            Err(halted) => {
                if is_member(&expr) && !matches!(&halted.error, ComptimeError::Pending(_)) {
                    Ok((expr, halted.fuel))
                } else {
                    Err(halted)
                }
            },
        }
    } else {
        Ok((expr, fuel))
    }
}

/// An expression in which what only the compiler knows, types and their members, has
/// become literals.
pub open spec fn folded_expr(
    expr: ExprView,
    scope: Seq<(Seq<char>, CtValueView)>,
    cx: CtContextView,
    fuel: usize,
) -> Result<(ExprView, usize), HaltView>
    decreases expr, 0nat,
{
    match folded_expr_kind(expr.kind, scope, cx, fuel) {
        Ok(out) => {
            let (kind, fuel) = out;
            fact_folded(ExprView { kind, span: expr.span, source: expr.source }, scope, cx, fuel)
        },
        Err(error) => Err(error),
    }
}

/// See [`folded_expr`].
pub fn fold_expr(
    expr: &Expr,
    scope: &Vec<(String, CtValue)>,
    cx: &CtContext,
    fuel: usize,
) -> (r: Result<(Expr, usize), Halt>)
    ensures
        (
            match r { Ok(v) => Ok((v.0@, v.1)), Err(v) => Err(v@) }
        ) == folded_expr(expr@, binding_list_view(scope@), cx@, fuel),
    decreases expr, 0nat,
{
    let (kind, fuel) = match fold_expr_kind(&expr.kind, scope, cx, fuel) {
        Ok(done) => done,
        Err(error) => {
            return Err(error);
        },
    };
    folded_fact(
        Expr {
            kind,
            span: expr.span,
            source: (match (&expr.source) { Some(y) => Some(y.clone()), None => None }),
        },
        scope,
        cx,
        fuel,
    )
}

pub open spec fn folded_comprehension_clause(
    comprehension_clause: ComprehensionClauseView,
    scope: Seq<(Seq<char>, CtValueView)>,
    cx: CtContextView,
    fuel: usize,
) -> Result<(ComprehensionClauseView, usize), HaltView>
    decreases comprehension_clause, 0nat,
{
    match comprehension_clause {
        ComprehensionClauseView::For { var, owned, iter } => match folded_expr(
            *iter,
            scope,
            cx,
            fuel,
        ) {
            Ok(out) => {
                let (new_iter, fuel) = out;
                Ok((ComprehensionClauseView::For { var, owned, iter: Box::new(new_iter) }, fuel))
            },
            Err(error) => Err(error),
        },
        ComprehensionClauseView::If(a0) => match folded_expr(*a0, scope, cx, fuel) {
            Ok(out) => {
                let (new_a0, fuel) = out;
                Ok((ComprehensionClauseView::If(Box::new(new_a0)), fuel))
            },
            Err(error) => Err(error),
        },
    }
}

/// See [`folded_comprehension_clause`].
pub fn fold_comprehension_clause(
    comprehension_clause: &ComprehensionClause,
    scope: &Vec<(String, CtValue)>,
    cx: &CtContext,
    fuel: usize,
) -> (r: Result<(ComprehensionClause, usize), Halt>)
    ensures
        (match r { Ok(v) => Ok((v.0@, v.1)), Err(v) => Err(v@) }) == folded_comprehension_clause(
            comprehension_clause@,
            binding_list_view(scope@),
            cx@,
            fuel,
        ),
    decreases comprehension_clause, 0nat,
{
    match comprehension_clause {
        ComprehensionClause::For { var, owned, iter } => {
            let (new_iter, fuel) = match fold_expr(&**iter, scope, cx, fuel) {
                Ok(done) => done,
                Err(error) => {
                    return Err(error);
                },
            };
            Ok(
                (
                    ComprehensionClause::For {
                        var: var.clone(),
                        owned: *owned,
                        iter: Box::new(new_iter),
                    },
                    fuel,
                )
            )
        },
        ComprehensionClause::If(a0) => {
            let (new_a0, fuel) = match fold_expr(&**a0, scope, cx, fuel) {
                Ok(done) => done,
                Err(error) => {
                    return Err(error);
                },
            };
            Ok((ComprehensionClause::If(Box::new(new_a0)), fuel))
        },
    }
}

pub open spec fn folded_comprehension_clause_list(
    items: Seq<ComprehensionClauseView>,
    scope: Seq<(Seq<char>, CtValueView)>,
    cx: CtContextView,
    i: nat,
    out: Seq<ComprehensionClauseView>,
    fuel: usize,
) -> Result<(Seq<ComprehensionClauseView>, usize), HaltView>
    decreases items, (items.len() - i) as nat,
{
    if i >= items.len() {
        Ok((out, fuel))
    } else {
        let item = items[i as int];
        match folded_comprehension_clause(item, scope, cx, fuel) {
            Ok(taken) => {
                let (mapped, rest) = taken;
                let fuel = rest;
                let out = out.push(mapped);
                folded_comprehension_clause_list(items, scope, cx, i + 1, out, fuel)
            },
            Err(error) => Err(error),
        }
    }
}

/// See [`folded_comprehension_clause_list`].
pub fn fold_comprehension_clause_list(
    items: &Vec<ComprehensionClause>,
    scope: &Vec<(String, CtValue)>,
    cx: &CtContext,
    start: usize,
) -> (r: Result<(Vec<ComprehensionClause>, usize), Halt>)
    ensures
        (
            match r { Ok(v) => Ok((comprehension_clause_list_view(v.0@), v.1)), Err(v) => Err(v@) }
        ) == folded_comprehension_clause_list(
            comprehension_clause_list_view(items@),
            binding_list_view(scope@),
            cx@,
            0,
            Seq::<ComprehensionClauseView>::empty(),
            start,
        ),
    decreases items@, 0nat,
{
    let mut out: Vec<ComprehensionClause> = Vec::new();
    assert(comprehension_clause_list_view(out@) =~= Seq::<ComprehensionClauseView>::empty());
    let mut fuel: usize = start;
    let ghost goal = folded_comprehension_clause_list(
        comprehension_clause_list_view(items@),
        binding_list_view(scope@),
        cx@,
        0,
        Seq::<ComprehensionClauseView>::empty(),
        start,
    );
    let mut i: usize = 0;
    while i < items.len()
        invariant
            i <= items@.len(),
            comprehension_clause_list_view(items@).len() == items@.len(),
            folded_comprehension_clause_list(
                comprehension_clause_list_view(items@),
                binding_list_view(scope@),
                cx@,
                i as nat,
                comprehension_clause_list_view(out@),
                fuel,
            ) == goal,
            goal == folded_comprehension_clause_list(
                comprehension_clause_list_view(items@),
                binding_list_view(scope@),
                cx@,
                0,
                Seq::<ComprehensionClauseView>::empty(),
                start,
            ),
        decreases items@.len() - i,
    {
        let item = &items[i];
        assert(comprehension_clause_list_view(items@)[i as int] == item@);
        let (mapped, rest) = match fold_comprehension_clause(item, scope, cx, fuel) {
            Ok(done) => done,
            Err(error) => {
                return Err(error);
            },
        };
        fuel = rest;
        let ghost before = comprehension_clause_list_view(out@);
        let ghost added = mapped@;
        out.push(mapped);
        assert(comprehension_clause_list_view(out@) =~= before.push(added));
        i = i + 1;
    }
    Ok((out, fuel))
}

pub open spec fn folded_opt_boxed_expr(
    value: Option<Box<ExprView>>,
    scope: Seq<(Seq<char>, CtValueView)>,
    cx: CtContextView,
    fuel: usize,
) -> Result<(Option<Box<ExprView>>, usize), HaltView>
    decreases value, 0nat,
{
    match value {
        Some(value) => match folded_expr(*value, scope, cx, fuel) {
            Ok(out) => {
                let (mapped, fuel) = out;
                Ok((Some(Box::new(mapped)), fuel))
            },
            Err(error) => Err(error),
        },
        None => Ok((None, fuel)),
    }
}

/// See [`folded_opt_boxed_expr`].
pub fn fold_opt_boxed_expr(
    value: &Option<Box<Expr>>,
    scope: &Vec<(String, CtValue)>,
    cx: &CtContext,
    fuel: usize,
) -> (r: Result<(Option<Box<Expr>>, usize), Halt>)
    ensures
        (
            match r {
                Ok(v) => Ok(((match v.0 { Some(v1) => Some(Box::new(v1@)), None => None }), v.1)),
                Err(v) => Err(v@),
            }
        ) == folded_opt_boxed_expr(
            (match value { Some(v) => Some(Box::new(v@)), None => None }),
            binding_list_view(scope@),
            cx@,
            fuel,
        ),
    decreases value, 0nat,
{
    match value {
        Some(value) => {
            let (mapped, fuel) = match fold_expr(&**value, scope, cx, fuel) {
                Ok(done) => done,
                Err(error) => {
                    return Err(error);
                },
            };
            Ok((Some(Box::new(mapped)), fuel))
        },
        None => Ok((None, fuel)),
    }
}

pub open spec fn folded_t_string_part(
    t_string_part: TStringPartView,
    scope: Seq<(Seq<char>, CtValueView)>,
    cx: CtContextView,
    fuel: usize,
) -> Result<(TStringPartView, usize), HaltView>
    decreases t_string_part, 0nat,
{
    match t_string_part {
        TStringPartView::Expr(a0) => match folded_expr(*a0, scope, cx, fuel) {
            Ok(out) => {
                let (new_a0, fuel) = out;
                Ok((TStringPartView::Expr(Box::new(new_a0)), fuel))
            },
            Err(error) => Err(error),
        },
        _ => Ok((t_string_part, fuel)),
    }
}

/// See [`folded_t_string_part`].
pub fn fold_t_string_part(
    t_string_part: &TStringPart,
    scope: &Vec<(String, CtValue)>,
    cx: &CtContext,
    fuel: usize,
) -> (r: Result<(TStringPart, usize), Halt>)
    ensures
        (
            match r { Ok(v) => Ok((v.0@, v.1)), Err(v) => Err(v@) }
        ) == folded_t_string_part(t_string_part@, binding_list_view(scope@), cx@, fuel),
    decreases t_string_part, 0nat,
{
    match t_string_part {
        TStringPart::Expr(a0) => {
            let (new_a0, fuel) = match fold_expr(&**a0, scope, cx, fuel) {
                Ok(done) => done,
                Err(error) => {
                    return Err(error);
                },
            };
            Ok((TStringPart::Expr(Box::new(new_a0)), fuel))
        },
        _ => {
            assert(!(t_string_part@ is Expr));
            Ok((clone_t_string_part(t_string_part), fuel))
        },
    }
}

pub open spec fn folded_t_string_part_list(
    items: Seq<TStringPartView>,
    scope: Seq<(Seq<char>, CtValueView)>,
    cx: CtContextView,
    i: nat,
    out: Seq<TStringPartView>,
    fuel: usize,
) -> Result<(Seq<TStringPartView>, usize), HaltView>
    decreases items, (items.len() - i) as nat,
{
    if i >= items.len() {
        Ok((out, fuel))
    } else {
        let item = items[i as int];
        match folded_t_string_part(item, scope, cx, fuel) {
            Ok(taken) => {
                let (mapped, rest) = taken;
                let fuel = rest;
                let out = out.push(mapped);
                folded_t_string_part_list(items, scope, cx, i + 1, out, fuel)
            },
            Err(error) => Err(error),
        }
    }
}

/// See [`folded_t_string_part_list`].
pub fn fold_t_string_part_list(
    items: &Vec<TStringPart>,
    scope: &Vec<(String, CtValue)>,
    cx: &CtContext,
    start: usize,
) -> (r: Result<(Vec<TStringPart>, usize), Halt>)
    ensures
        (
            match r { Ok(v) => Ok((t_string_part_list_view(v.0@), v.1)), Err(v) => Err(v@) }
        ) == folded_t_string_part_list(
            t_string_part_list_view(items@),
            binding_list_view(scope@),
            cx@,
            0,
            Seq::<TStringPartView>::empty(),
            start,
        ),
    decreases items@, 0nat,
{
    let mut out: Vec<TStringPart> = Vec::new();
    assert(t_string_part_list_view(out@) =~= Seq::<TStringPartView>::empty());
    let mut fuel: usize = start;
    let ghost goal = folded_t_string_part_list(
        t_string_part_list_view(items@),
        binding_list_view(scope@),
        cx@,
        0,
        Seq::<TStringPartView>::empty(),
        start,
    );
    let mut i: usize = 0;
    while i < items.len()
        invariant
            i <= items@.len(),
            t_string_part_list_view(items@).len() == items@.len(),
            folded_t_string_part_list(
                t_string_part_list_view(items@),
                binding_list_view(scope@),
                cx@,
                i as nat,
                t_string_part_list_view(out@),
                fuel,
            ) == goal,
            goal == folded_t_string_part_list(
                t_string_part_list_view(items@),
                binding_list_view(scope@),
                cx@,
                0,
                Seq::<TStringPartView>::empty(),
                start,
            ),
        decreases items@.len() - i,
    {
        let item = &items[i];
        assert(t_string_part_list_view(items@)[i as int] == item@);
        let (mapped, rest) = match fold_t_string_part(item, scope, cx, fuel) {
            Ok(done) => done,
            Err(error) => {
                return Err(error);
            },
        };
        fuel = rest;
        let ghost before = t_string_part_list_view(out@);
        let ghost added = mapped@;
        out.push(mapped);
        assert(t_string_part_list_view(out@) =~= before.push(added));
        i = i + 1;
    }
    Ok((out, fuel))
}

pub open spec fn folded_comparison_list(
    items: Seq<(InfixOp, ExprView)>,
    scope: Seq<(Seq<char>, CtValueView)>,
    cx: CtContextView,
    i: nat,
    out: Seq<(InfixOp, ExprView)>,
    fuel: usize,
) -> Result<(Seq<(InfixOp, ExprView)>, usize), HaltView>
    decreases items, (items.len() - i) as nat,
{
    if i >= items.len() {
        Ok((out, fuel))
    } else {
        let item = items[i as int];
        match folded_expr(item.1, scope, cx, fuel) {
            Ok(taken) => {
                let (mapped_1, rest) = taken;
                let fuel = rest;
                let out = out.push((item.0, mapped_1));
                folded_comparison_list(items, scope, cx, i + 1, out, fuel)
            },
            Err(error) => Err(error),
        }
    }
}

/// See [`folded_comparison_list`].
pub fn fold_comparison_list(
    items: &Vec<(InfixOp, Expr)>,
    scope: &Vec<(String, CtValue)>,
    cx: &CtContext,
    start: usize,
) -> (r: Result<(Vec<(InfixOp, Expr)>, usize), Halt>)
    ensures
        (
            match r { Ok(v) => Ok((comparison_list_view(v.0@), v.1)), Err(v) => Err(v@) }
        ) == folded_comparison_list(
            comparison_list_view(items@),
            binding_list_view(scope@),
            cx@,
            0,
            Seq::<(InfixOp, ExprView)>::empty(),
            start,
        ),
    decreases items@, 0nat,
{
    let mut out: Vec<(InfixOp, Expr)> = Vec::new();
    assert(comparison_list_view(out@) =~= Seq::<(InfixOp, ExprView)>::empty());
    let mut fuel: usize = start;
    let ghost goal = folded_comparison_list(
        comparison_list_view(items@),
        binding_list_view(scope@),
        cx@,
        0,
        Seq::<(InfixOp, ExprView)>::empty(),
        start,
    );
    let mut i: usize = 0;
    while i < items.len()
        invariant
            i <= items@.len(),
            comparison_list_view(items@).len() == items@.len(),
            folded_comparison_list(
                comparison_list_view(items@),
                binding_list_view(scope@),
                cx@,
                i as nat,
                comparison_list_view(out@),
                fuel,
            ) == goal,
            goal == folded_comparison_list(
                comparison_list_view(items@),
                binding_list_view(scope@),
                cx@,
                0,
                Seq::<(InfixOp, ExprView)>::empty(),
                start,
            ),
        decreases items@.len() - i,
    {
        let item = &items[i];
        assert(comparison_list_view(items@)[i as int].1 =~= item.1@);
        let (mapped_1, rest) = match fold_expr(&item.1, scope, cx, fuel) {
            Ok(done) => done,
            Err(error) => {
                return Err(error);
            },
        };
        fuel = rest;
        let item2 = (item.0, mapped_1);
        let ghost before = comparison_list_view(out@);
        let ghost added = (item2.0, item2.1@);
        out.push(item2);
        assert(comparison_list_view(out@) =~= before.push(added));
        i = i + 1;
    }
    Ok((out, fuel))
}

pub open spec fn folded_param_arg(
    param_arg: ParamArgView,
    scope: Seq<(Seq<char>, CtValueView)>,
    cx: CtContextView,
    fuel: usize,
) -> Result<(ParamArgView, usize), HaltView>
    decreases param_arg, 0nat,
{
    match param_arg {
        ParamArgView::Value(a0) => match folded_expr(a0, scope, cx, fuel) {
            Ok(out) => {
                let (new_a0, fuel) = out;
                Ok((ParamArgView::Value(new_a0), fuel))
            },
            Err(error) => Err(error),
        },
        _ => Ok((param_arg, fuel)),
    }
}

/// See [`folded_param_arg`].
pub fn fold_param_arg(
    param_arg: &ParamArg,
    scope: &Vec<(String, CtValue)>,
    cx: &CtContext,
    fuel: usize,
) -> (r: Result<(ParamArg, usize), Halt>)
    ensures
        (
            match r { Ok(v) => Ok((v.0@, v.1)), Err(v) => Err(v@) }
        ) == folded_param_arg(param_arg@, binding_list_view(scope@), cx@, fuel),
    decreases param_arg, 0nat,
{
    match param_arg {
        ParamArg::Value(a0) => {
            let (new_a0, fuel) = match fold_expr(a0, scope, cx, fuel) {
                Ok(done) => done,
                Err(error) => {
                    return Err(error);
                },
            };
            Ok((ParamArg::Value(new_a0), fuel))
        },
        _ => {
            assert(!(param_arg@ is Value));
            Ok((clone_param_arg(param_arg), fuel))
        },
    }
}

pub open spec fn folded_param_arg_list(
    items: Seq<ParamArgView>,
    scope: Seq<(Seq<char>, CtValueView)>,
    cx: CtContextView,
    i: nat,
    out: Seq<ParamArgView>,
    fuel: usize,
) -> Result<(Seq<ParamArgView>, usize), HaltView>
    decreases items, (items.len() - i) as nat,
{
    if i >= items.len() {
        Ok((out, fuel))
    } else {
        let item = items[i as int];
        match folded_param_arg(item, scope, cx, fuel) {
            Ok(taken) => {
                let (mapped, rest) = taken;
                let fuel = rest;
                let out = out.push(mapped);
                folded_param_arg_list(items, scope, cx, i + 1, out, fuel)
            },
            Err(error) => Err(error),
        }
    }
}

/// See [`folded_param_arg_list`].
pub fn fold_param_arg_list(
    items: &Vec<ParamArg>,
    scope: &Vec<(String, CtValue)>,
    cx: &CtContext,
    start: usize,
) -> (r: Result<(Vec<ParamArg>, usize), Halt>)
    ensures
        (
            match r { Ok(v) => Ok((param_arg_list_view(v.0@), v.1)), Err(v) => Err(v@) }
        ) == folded_param_arg_list(
            param_arg_list_view(items@),
            binding_list_view(scope@),
            cx@,
            0,
            Seq::<ParamArgView>::empty(),
            start,
        ),
    decreases items@, 0nat,
{
    let mut out: Vec<ParamArg> = Vec::new();
    assert(param_arg_list_view(out@) =~= Seq::<ParamArgView>::empty());
    let mut fuel: usize = start;
    let ghost goal = folded_param_arg_list(
        param_arg_list_view(items@),
        binding_list_view(scope@),
        cx@,
        0,
        Seq::<ParamArgView>::empty(),
        start,
    );
    let mut i: usize = 0;
    while i < items.len()
        invariant
            i <= items@.len(),
            param_arg_list_view(items@).len() == items@.len(),
            folded_param_arg_list(
                param_arg_list_view(items@),
                binding_list_view(scope@),
                cx@,
                i as nat,
                param_arg_list_view(out@),
                fuel,
            ) == goal,
            goal == folded_param_arg_list(
                param_arg_list_view(items@),
                binding_list_view(scope@),
                cx@,
                0,
                Seq::<ParamArgView>::empty(),
                start,
            ),
        decreases items@.len() - i,
    {
        let item = &items[i];
        assert(param_arg_list_view(items@)[i as int] == item@);
        let (mapped, rest) = match fold_param_arg(item, scope, cx, fuel) {
            Ok(done) => done,
            Err(error) => {
                return Err(error);
            },
        };
        fuel = rest;
        let ghost before = param_arg_list_view(out@);
        let ghost added = mapped@;
        out.push(mapped);
        assert(param_arg_list_view(out@) =~= before.push(added));
        i = i + 1;
    }
    Ok((out, fuel))
}

pub open spec fn folded_expr_list(
    items: Seq<ExprView>,
    scope: Seq<(Seq<char>, CtValueView)>,
    cx: CtContextView,
    i: nat,
    out: Seq<ExprView>,
    fuel: usize,
) -> Result<(Seq<ExprView>, usize), HaltView>
    decreases items, (items.len() - i) as nat,
{
    if i >= items.len() {
        Ok((out, fuel))
    } else {
        let item = items[i as int];
        match folded_expr(item, scope, cx, fuel) {
            Ok(taken) => {
                let (mapped, rest) = taken;
                let fuel = rest;
                let out = out.push(mapped);
                folded_expr_list(items, scope, cx, i + 1, out, fuel)
            },
            Err(error) => Err(error),
        }
    }
}

/// See [`folded_expr_list`].
pub fn fold_expr_list(
    items: &Vec<Expr>,
    scope: &Vec<(String, CtValue)>,
    cx: &CtContext,
    start: usize,
) -> (r: Result<(Vec<Expr>, usize), Halt>)
    ensures
        (
            match r { Ok(v) => Ok((expr_list_view(v.0@), v.1)), Err(v) => Err(v@) }
        ) == folded_expr_list(
            expr_list_view(items@),
            binding_list_view(scope@),
            cx@,
            0,
            Seq::<ExprView>::empty(),
            start,
        ),
    decreases items@, 0nat,
{
    let mut out: Vec<Expr> = Vec::new();
    assert(expr_list_view(out@) =~= Seq::<ExprView>::empty());
    let mut fuel: usize = start;
    let ghost goal = folded_expr_list(
        expr_list_view(items@),
        binding_list_view(scope@),
        cx@,
        0,
        Seq::<ExprView>::empty(),
        start,
    );
    let mut i: usize = 0;
    while i < items.len()
        invariant
            i <= items@.len(),
            expr_list_view(items@).len() == items@.len(),
            folded_expr_list(
                expr_list_view(items@),
                binding_list_view(scope@),
                cx@,
                i as nat,
                expr_list_view(out@),
                fuel,
            ) == goal,
            goal == folded_expr_list(
                expr_list_view(items@),
                binding_list_view(scope@),
                cx@,
                0,
                Seq::<ExprView>::empty(),
                start,
            ),
        decreases items@.len() - i,
    {
        let item = &items[i];
        assert(expr_list_view(items@)[i as int] == item@);
        let (mapped, rest) = match fold_expr(item, scope, cx, fuel) {
            Ok(done) => done,
            Err(error) => {
                return Err(error);
            },
        };
        fuel = rest;
        let ghost before = expr_list_view(out@);
        let ghost added = mapped@;
        out.push(mapped);
        assert(expr_list_view(out@) =~= before.push(added));
        i = i + 1;
    }
    Ok((out, fuel))
}

pub open spec fn folded_kw_arg(
    kw_arg: KwArgView,
    scope: Seq<(Seq<char>, CtValueView)>,
    cx: CtContextView,
    fuel: usize,
) -> Result<(KwArgView, usize), HaltView>
    decreases kw_arg, 0nat,
{
    match folded_expr(kw_arg.value, scope, cx, fuel) {
        Ok(out) => {
            let (new_value, fuel) = out;
            Ok((KwArgView { name: kw_arg.name, value: new_value }, fuel))
        },
        Err(error) => Err(error),
    }
}

/// See [`folded_kw_arg`].
pub fn fold_kw_arg(
    kw_arg: &KwArg,
    scope: &Vec<(String, CtValue)>,
    cx: &CtContext,
    fuel: usize,
) -> (r: Result<(KwArg, usize), Halt>)
    ensures
        (
            match r { Ok(v) => Ok((v.0@, v.1)), Err(v) => Err(v@) }
        ) == folded_kw_arg(kw_arg@, binding_list_view(scope@), cx@, fuel),
    decreases kw_arg, 0nat,
{
    let (new_value, fuel) = match fold_expr(&kw_arg.value, scope, cx, fuel) {
        Ok(done) => done,
        Err(error) => {
            return Err(error);
        },
    };
    Ok((KwArg { name: (&kw_arg.name).clone(), value: new_value }, fuel))
}

pub open spec fn folded_kw_arg_list(
    items: Seq<KwArgView>,
    scope: Seq<(Seq<char>, CtValueView)>,
    cx: CtContextView,
    i: nat,
    out: Seq<KwArgView>,
    fuel: usize,
) -> Result<(Seq<KwArgView>, usize), HaltView>
    decreases items, (items.len() - i) as nat,
{
    if i >= items.len() {
        Ok((out, fuel))
    } else {
        let item = items[i as int];
        match folded_kw_arg(item, scope, cx, fuel) {
            Ok(taken) => {
                let (mapped, rest) = taken;
                let fuel = rest;
                let out = out.push(mapped);
                folded_kw_arg_list(items, scope, cx, i + 1, out, fuel)
            },
            Err(error) => Err(error),
        }
    }
}

/// See [`folded_kw_arg_list`].
pub fn fold_kw_arg_list(
    items: &Vec<KwArg>,
    scope: &Vec<(String, CtValue)>,
    cx: &CtContext,
    start: usize,
) -> (r: Result<(Vec<KwArg>, usize), Halt>)
    ensures
        (
            match r { Ok(v) => Ok((kw_arg_list_view(v.0@), v.1)), Err(v) => Err(v@) }
        ) == folded_kw_arg_list(
            kw_arg_list_view(items@),
            binding_list_view(scope@),
            cx@,
            0,
            Seq::<KwArgView>::empty(),
            start,
        ),
    decreases items@, 0nat,
{
    let mut out: Vec<KwArg> = Vec::new();
    assert(kw_arg_list_view(out@) =~= Seq::<KwArgView>::empty());
    let mut fuel: usize = start;
    let ghost goal = folded_kw_arg_list(
        kw_arg_list_view(items@),
        binding_list_view(scope@),
        cx@,
        0,
        Seq::<KwArgView>::empty(),
        start,
    );
    let mut i: usize = 0;
    while i < items.len()
        invariant
            i <= items@.len(),
            kw_arg_list_view(items@).len() == items@.len(),
            folded_kw_arg_list(
                kw_arg_list_view(items@),
                binding_list_view(scope@),
                cx@,
                i as nat,
                kw_arg_list_view(out@),
                fuel,
            ) == goal,
            goal == folded_kw_arg_list(
                kw_arg_list_view(items@),
                binding_list_view(scope@),
                cx@,
                0,
                Seq::<KwArgView>::empty(),
                start,
            ),
        decreases items@.len() - i,
    {
        let item = &items[i];
        assert(kw_arg_list_view(items@)[i as int] == item@);
        let (mapped, rest) = match fold_kw_arg(item, scope, cx, fuel) {
            Ok(done) => done,
            Err(error) => {
                return Err(error);
            },
        };
        fuel = rest;
        let ghost before = kw_arg_list_view(out@);
        let ghost added = mapped@;
        out.push(mapped);
        assert(kw_arg_list_view(out@) =~= before.push(added));
        i = i + 1;
    }
    Ok((out, fuel))
}

pub open spec fn folded_subscript_arg(
    subscript_arg: SubscriptArgView,
    scope: Seq<(Seq<char>, CtValueView)>,
    cx: CtContextView,
    fuel: usize,
) -> Result<(SubscriptArgView, usize), HaltView>
    decreases subscript_arg, 0nat,
{
    match subscript_arg {
        SubscriptArgView::Index(a0) => match folded_expr(a0, scope, cx, fuel) {
            Ok(out) => {
                let (new_a0, fuel) = out;
                Ok((SubscriptArgView::Index(new_a0), fuel))
            },
            Err(error) => Err(error),
        },
        SubscriptArgView::Slice { lower, upper, step } => match folded_opt_boxed_expr(
            lower,
            scope,
            cx,
            fuel,
        ) {
            Ok(out) => {
                let (new_lower, fuel) = out;
                match folded_opt_boxed_expr(upper, scope, cx, fuel) {
                    Ok(out) => {
                        let (new_upper, fuel) = out;
                        match folded_opt_boxed_expr(step, scope, cx, fuel) {
                            Ok(out) => {
                                let (new_step, fuel) = out;
                                Ok(
                                    (
                                        SubscriptArgView::Slice {
                                            lower: new_lower,
                                            upper: new_upper,
                                            step: new_step,
                                        },
                                        fuel,
                                    )
                                )
                            },
                            Err(error) => Err(error),
                        }
                    },
                    Err(error) => Err(error),
                }
            },
            Err(error) => Err(error),
        },
    }
}

/// See [`folded_subscript_arg`].
pub fn fold_subscript_arg(
    subscript_arg: &SubscriptArg,
    scope: &Vec<(String, CtValue)>,
    cx: &CtContext,
    fuel: usize,
) -> (r: Result<(SubscriptArg, usize), Halt>)
    ensures
        (
            match r { Ok(v) => Ok((v.0@, v.1)), Err(v) => Err(v@) }
        ) == folded_subscript_arg(subscript_arg@, binding_list_view(scope@), cx@, fuel),
    decreases subscript_arg, 0nat,
{
    match subscript_arg {
        SubscriptArg::Index(a0) => {
            let (new_a0, fuel) = match fold_expr(a0, scope, cx, fuel) {
                Ok(done) => done,
                Err(error) => {
                    return Err(error);
                },
            };
            Ok((SubscriptArg::Index(new_a0), fuel))
        },
        SubscriptArg::Slice { lower, upper, step } => {
            let (new_lower, fuel) = match fold_opt_boxed_expr(lower, scope, cx, fuel) {
                Ok(done) => done,
                Err(error) => {
                    return Err(error);
                },
            };
            let (new_upper, fuel) = match fold_opt_boxed_expr(upper, scope, cx, fuel) {
                Ok(done) => done,
                Err(error) => {
                    return Err(error);
                },
            };
            let (new_step, fuel) = match fold_opt_boxed_expr(step, scope, cx, fuel) {
                Ok(done) => done,
                Err(error) => {
                    return Err(error);
                },
            };
            Ok((SubscriptArg::Slice { lower: new_lower, upper: new_upper, step: new_step }, fuel))
        },
    }
}

pub open spec fn folded_subscript_arg_list(
    items: Seq<SubscriptArgView>,
    scope: Seq<(Seq<char>, CtValueView)>,
    cx: CtContextView,
    i: nat,
    out: Seq<SubscriptArgView>,
    fuel: usize,
) -> Result<(Seq<SubscriptArgView>, usize), HaltView>
    decreases items, (items.len() - i) as nat,
{
    if i >= items.len() {
        Ok((out, fuel))
    } else {
        let item = items[i as int];
        match folded_subscript_arg(item, scope, cx, fuel) {
            Ok(taken) => {
                let (mapped, rest) = taken;
                let fuel = rest;
                let out = out.push(mapped);
                folded_subscript_arg_list(items, scope, cx, i + 1, out, fuel)
            },
            Err(error) => Err(error),
        }
    }
}

/// See [`folded_subscript_arg_list`].
pub fn fold_subscript_arg_list(
    items: &Vec<SubscriptArg>,
    scope: &Vec<(String, CtValue)>,
    cx: &CtContext,
    start: usize,
) -> (r: Result<(Vec<SubscriptArg>, usize), Halt>)
    ensures
        (
            match r { Ok(v) => Ok((subscript_arg_list_view(v.0@), v.1)), Err(v) => Err(v@) }
        ) == folded_subscript_arg_list(
            subscript_arg_list_view(items@),
            binding_list_view(scope@),
            cx@,
            0,
            Seq::<SubscriptArgView>::empty(),
            start,
        ),
    decreases items@, 0nat,
{
    let mut out: Vec<SubscriptArg> = Vec::new();
    assert(subscript_arg_list_view(out@) =~= Seq::<SubscriptArgView>::empty());
    let mut fuel: usize = start;
    let ghost goal = folded_subscript_arg_list(
        subscript_arg_list_view(items@),
        binding_list_view(scope@),
        cx@,
        0,
        Seq::<SubscriptArgView>::empty(),
        start,
    );
    let mut i: usize = 0;
    while i < items.len()
        invariant
            i <= items@.len(),
            subscript_arg_list_view(items@).len() == items@.len(),
            folded_subscript_arg_list(
                subscript_arg_list_view(items@),
                binding_list_view(scope@),
                cx@,
                i as nat,
                subscript_arg_list_view(out@),
                fuel,
            ) == goal,
            goal == folded_subscript_arg_list(
                subscript_arg_list_view(items@),
                binding_list_view(scope@),
                cx@,
                0,
                Seq::<SubscriptArgView>::empty(),
                start,
            ),
        decreases items@.len() - i,
    {
        let item = &items[i];
        assert(subscript_arg_list_view(items@)[i as int] == item@);
        let (mapped, rest) = match fold_subscript_arg(item, scope, cx, fuel) {
            Ok(done) => done,
            Err(error) => {
                return Err(error);
            },
        };
        fuel = rest;
        let ghost before = subscript_arg_list_view(out@);
        let ghost added = mapped@;
        out.push(mapped);
        assert(subscript_arg_list_view(out@) =~= before.push(added));
        i = i + 1;
    }
    Ok((out, fuel))
}

pub open spec fn folded_opt_expr(
    value: Option<ExprView>,
    scope: Seq<(Seq<char>, CtValueView)>,
    cx: CtContextView,
    fuel: usize,
) -> Result<(Option<ExprView>, usize), HaltView>
    decreases value, 0nat,
{
    match value {
        Some(value) => match folded_expr(value, scope, cx, fuel) {
            Ok(out) => {
                let (mapped, fuel) = out;
                Ok((Some(mapped), fuel))
            },
            Err(error) => Err(error),
        },
        None => Ok((None, fuel)),
    }
}

/// See [`folded_opt_expr`].
pub fn fold_opt_expr(
    value: &Option<Expr>,
    scope: &Vec<(String, CtValue)>,
    cx: &CtContext,
    fuel: usize,
) -> (r: Result<(Option<Expr>, usize), Halt>)
    ensures
        (
            match r { Ok(v) => Ok((opt_view(v.0), v.1)), Err(v) => Err(v@) }
        ) == folded_opt_expr(opt_view(*value), binding_list_view(scope@), cx@, fuel),
    decreases value, 0nat,
{
    match value {
        Some(value) => {
            let (mapped, fuel) = match fold_expr(value, scope, cx, fuel) {
                Ok(done) => done,
                Err(error) => {
                    return Err(error);
                },
            };
            Ok((Some(mapped), fuel))
        },
        None => Ok((None, fuel)),
    }
}

pub open spec fn folded_entry_list(
    items: Seq<(ExprView, Option<ExprView>)>,
    scope: Seq<(Seq<char>, CtValueView)>,
    cx: CtContextView,
    i: nat,
    out: Seq<(ExprView, Option<ExprView>)>,
    fuel: usize,
) -> Result<(Seq<(ExprView, Option<ExprView>)>, usize), HaltView>
    decreases items, (items.len() - i) as nat,
{
    if i >= items.len() {
        Ok((out, fuel))
    } else {
        let item = items[i as int];
        match folded_expr(item.0, scope, cx, fuel) {
            Ok(taken) => {
                let (mapped_0, rest) = taken;
                let fuel = rest;
                match folded_opt_expr(item.1, scope, cx, fuel) {
                    Ok(taken) => {
                        let (mapped_1, rest) = taken;
                        let fuel = rest;
                        let out = out.push((mapped_0, mapped_1));
                        folded_entry_list(items, scope, cx, i + 1, out, fuel)
                    },
                    Err(error) => Err(error),
                }
            },
            Err(error) => Err(error),
        }
    }
}

/// See [`folded_entry_list`].
pub fn fold_entry_list(
    items: &Vec<(Expr, Option<Expr>)>,
    scope: &Vec<(String, CtValue)>,
    cx: &CtContext,
    start: usize,
) -> (r: Result<(Vec<(Expr, Option<Expr>)>, usize), Halt>)
    ensures
        (
            match r { Ok(v) => Ok((entry_list_view(v.0@), v.1)), Err(v) => Err(v@) }
        ) == folded_entry_list(
            entry_list_view(items@),
            binding_list_view(scope@),
            cx@,
            0,
            Seq::<(ExprView, Option<ExprView>)>::empty(),
            start,
        ),
    decreases items@, 0nat,
{
    let mut out: Vec<(Expr, Option<Expr>)> = Vec::new();
    assert(entry_list_view(out@) =~= Seq::<(ExprView, Option<ExprView>)>::empty());
    let mut fuel: usize = start;
    let ghost goal = folded_entry_list(
        entry_list_view(items@),
        binding_list_view(scope@),
        cx@,
        0,
        Seq::<(ExprView, Option<ExprView>)>::empty(),
        start,
    );
    let mut i: usize = 0;
    while i < items.len()
        invariant
            i <= items@.len(),
            entry_list_view(items@).len() == items@.len(),
            folded_entry_list(
                entry_list_view(items@),
                binding_list_view(scope@),
                cx@,
                i as nat,
                entry_list_view(out@),
                fuel,
            ) == goal,
            goal == folded_entry_list(
                entry_list_view(items@),
                binding_list_view(scope@),
                cx@,
                0,
                Seq::<(ExprView, Option<ExprView>)>::empty(),
                start,
            ),
        decreases items@.len() - i,
    {
        let item = &items[i];
        assert(entry_list_view(items@)[i as int].0 =~= item.0@);
        assert(entry_list_view(items@)[i as int].1 =~= opt_view(item.1));
        let (mapped_0, rest) = match fold_expr(&item.0, scope, cx, fuel) {
            Ok(done) => done,
            Err(error) => {
                return Err(error);
            },
        };
        fuel = rest;
        let (mapped_1, rest) = match fold_opt_expr(&item.1, scope, cx, fuel) {
            Ok(done) => done,
            Err(error) => {
                return Err(error);
            },
        };
        fuel = rest;
        let item2 = (mapped_0, mapped_1);
        let ghost before = entry_list_view(out@);
        let ghost added = (item2.0@, opt_view(item2.1));
        out.push(item2);
        assert(entry_list_view(out@) =~= before.push(added));
        i = i + 1;
    }
    Ok((out, fuel))
}

pub open spec fn folded_expr_kind(
    expr_kind: ExprKindView,
    scope: Seq<(Seq<char>, CtValueView)>,
    cx: CtContextView,
    fuel: usize,
) -> Result<(ExprKindView, usize), HaltView>
    decreases expr_kind, 2nat,
{
    match expr_kind {
        ExprKindView::TString { parts, raw } => match folded_t_string_part_list(
            parts,
            scope,
            cx,
            0,
            Seq::empty(),
            fuel,
        ) {
            Ok(out) => {
                let (new_parts, fuel) = out;
                Ok((ExprKindView::TString { parts: new_parts, raw }, fuel))
            },
            Err(error) => Err(error),
        },
        ExprKindView::Prefix(a0, a1) => match folded_expr(*a1, scope, cx, fuel) {
            Ok(out) => {
                let (new_a1, fuel) = out;
                Ok((ExprKindView::Prefix(a0, Box::new(new_a1)), fuel))
            },
            Err(error) => Err(error),
        },
        ExprKindView::Transfer(a0) => match folded_expr(*a0, scope, cx, fuel) {
            Ok(out) => {
                let (new_a0, fuel) = out;
                Ok((ExprKindView::Transfer(Box::new(new_a0)), fuel))
            },
            Err(error) => Err(error),
        },
        ExprKindView::Spread(a0) => match folded_expr(*a0, scope, cx, fuel) {
            Ok(out) => {
                let (new_a0, fuel) = out;
                Ok((ExprKindView::Spread(Box::new(new_a0)), fuel))
            },
            Err(error) => Err(error),
        },
        ExprKindView::Infix(a0, a1, a2) => match folded_expr(*a1, scope, cx, fuel) {
            Ok(out) => {
                let (new_a1, fuel) = out;
                match folded_expr(*a2, scope, cx, fuel) {
                    Ok(out) => {
                        let (new_a2, fuel) = out;
                        Ok((ExprKindView::Infix(a0, Box::new(new_a1), Box::new(new_a2)), fuel))
                    },
                    Err(error) => Err(error),
                }
            },
            Err(error) => Err(error),
        },
        ExprKindView::Compare { first, rest } => match folded_expr(*first, scope, cx, fuel) {
            Ok(out) => {
                let (new_first, fuel) = out;
                match folded_comparison_list(rest, scope, cx, 0, Seq::empty(), fuel) {
                    Ok(out) => {
                        let (new_rest, fuel) = out;
                        Ok(
                            (
                                ExprKindView::Compare {
                                    first: Box::new(new_first),
                                    rest: new_rest,
                                },
                                fuel,
                            )
                        )
                    },
                    Err(error) => Err(error),
                }
            },
            Err(error) => Err(error),
        },
        _ => folded_expr_kind_more(expr_kind, scope, cx, fuel),
    }
}

/// See [`folded_expr_kind`].
pub fn fold_expr_kind(
    expr_kind: &ExprKind,
    scope: &Vec<(String, CtValue)>,
    cx: &CtContext,
    fuel: usize,
) -> (r: Result<(ExprKind, usize), Halt>)
    ensures
        (
            match r { Ok(v) => Ok((v.0@, v.1)), Err(v) => Err(v@) }
        ) == folded_expr_kind(expr_kind@, binding_list_view(scope@), cx@, fuel),
    decreases expr_kind, 2nat,
{
    proof { unfold_expr_kind(*expr_kind); }
    match expr_kind {
        ExprKind::TString { parts, raw } => {
            let (new_parts, fuel) = match fold_t_string_part_list(parts, scope, cx, fuel) {
                Ok(done) => done,
                Err(error) => {
                    return Err(error);
                },
            };
            let kind = ExprKind::TString { parts: new_parts, raw: *raw };
            proof { unfold_expr_kind(kind); }
            Ok((kind, fuel))
        },
        ExprKind::Prefix(a0, a1) => {
            let (new_a1, fuel) = match fold_expr(&**a1, scope, cx, fuel) {
                Ok(done) => done,
                Err(error) => {
                    return Err(error);
                },
            };
            let kind2 = ExprKind::Prefix(*a0, Box::new(new_a1));
            proof { unfold_expr_kind(kind2); }
            Ok((kind2, fuel))
        },
        ExprKind::Transfer(a0) => {
            let (new_a0, fuel) = match fold_expr(&**a0, scope, cx, fuel) {
                Ok(done) => done,
                Err(error) => {
                    return Err(error);
                },
            };
            let kind3 = ExprKind::Transfer(Box::new(new_a0));
            proof { unfold_expr_kind(kind3); }
            Ok((kind3, fuel))
        },
        ExprKind::Spread(a0) => {
            let (new_a0, fuel) = match fold_expr(&**a0, scope, cx, fuel) {
                Ok(done) => done,
                Err(error) => {
                    return Err(error);
                },
            };
            let kind4 = ExprKind::Spread(Box::new(new_a0));
            proof { unfold_expr_kind(kind4); }
            Ok((kind4, fuel))
        },
        ExprKind::Infix(a0, a1, a2) => {
            let (new_a1, fuel) = match fold_expr(&**a1, scope, cx, fuel) {
                Ok(done) => done,
                Err(error) => {
                    return Err(error);
                },
            };
            let (new_a2, fuel) = match fold_expr(&**a2, scope, cx, fuel) {
                Ok(done) => done,
                Err(error) => {
                    return Err(error);
                },
            };
            let kind5 = ExprKind::Infix(*a0, Box::new(new_a1), Box::new(new_a2));
            proof { unfold_expr_kind(kind5); }
            Ok((kind5, fuel))
        },
        ExprKind::Compare { first, rest } => {
            let (new_first, fuel) = match fold_expr(&**first, scope, cx, fuel) {
                Ok(done) => done,
                Err(error) => {
                    return Err(error);
                },
            };
            let (new_rest, fuel) = match fold_comparison_list(rest, scope, cx, fuel) {
                Ok(done) => done,
                Err(error) => {
                    return Err(error);
                },
            };
            let kind6 = ExprKind::Compare { first: Box::new(new_first), rest: new_rest };
            proof { unfold_expr_kind(kind6); }
            Ok((kind6, fuel))
        },
        _ => {
            assert(!(expr_kind@ is TString));
            assert(!(expr_kind@ is Prefix));
            assert(!(expr_kind@ is Transfer));
            assert(!(expr_kind@ is Spread));
            assert(!(expr_kind@ is Infix));
            assert(!(expr_kind@ is Compare));
            fold_expr_kind_more(expr_kind, scope, cx, fuel)
        },
    }
}

pub open spec fn folded_expr_kind_more(
    expr_kind: ExprKindView,
    scope: Seq<(Seq<char>, CtValueView)>,
    cx: CtContextView,
    fuel: usize,
) -> Result<(ExprKindView, usize), HaltView>
    decreases expr_kind, 1nat,
{
    match expr_kind {
        ExprKindView::Call { name, param_args, args, kwargs } => match folded_param_arg_list(
            param_args,
            scope,
            cx,
            0,
            Seq::empty(),
            fuel,
        ) {
            Ok(out) => {
                let (new_param_args, fuel) = out;
                match folded_expr_list(args, scope, cx, 0, Seq::empty(), fuel) {
                    Ok(out) => {
                        let (new_args, fuel) = out;
                        match folded_kw_arg_list(kwargs, scope, cx, 0, Seq::empty(), fuel) {
                            Ok(out) => {
                                let (new_kwargs, fuel) = out;
                                Ok(
                                    (
                                        ExprKindView::Call {
                                            name,
                                            param_args: new_param_args,
                                            args: new_args,
                                            kwargs: new_kwargs,
                                        },
                                        fuel,
                                    )
                                )
                            },
                            Err(error) => Err(error),
                        }
                    },
                    Err(error) => Err(error),
                }
            },
            Err(error) => Err(error),
        },
        ExprKindView::Member { object, field } => match folded_expr(*object, scope, cx, fuel) {
            Ok(out) => {
                let (new_object, fuel) = out;
                Ok((ExprKindView::Member { object: Box::new(new_object), field }, fuel))
            },
            Err(error) => Err(error),
        },
        ExprKindView::MethodCall {
            object,
            method,
            args,
            kwargs,
        } => match folded_expr(*object, scope, cx, fuel) {
            Ok(out) => {
                let (new_object, fuel) = out;
                match folded_expr_list(args, scope, cx, 0, Seq::empty(), fuel) {
                    Ok(out) => {
                        let (new_args, fuel) = out;
                        match folded_kw_arg_list(kwargs, scope, cx, 0, Seq::empty(), fuel) {
                            Ok(out) => {
                                let (new_kwargs, fuel) = out;
                                Ok(
                                    (
                                        ExprKindView::MethodCall {
                                            object: Box::new(new_object),
                                            method,
                                            args: new_args,
                                            kwargs: new_kwargs,
                                        },
                                        fuel,
                                    )
                                )
                            },
                            Err(error) => Err(error),
                        }
                    },
                    Err(error) => Err(error),
                }
            },
            Err(error) => Err(error),
        },
        ExprKindView::Index { object, index } => match folded_expr(*object, scope, cx, fuel) {
            Ok(out) => {
                let (new_object, fuel) = out;
                match folded_expr(*index, scope, cx, fuel) {
                    Ok(out) => {
                        let (new_index, fuel) = out;
                        Ok(
                            (
                                ExprKindView::Index {
                                    object: Box::new(new_object),
                                    index: Box::new(new_index),
                                },
                                fuel,
                            )
                        )
                    },
                    Err(error) => Err(error),
                }
            },
            Err(error) => Err(error),
        },
        ExprKindView::Slice {
            object,
            lower,
            upper,
            step,
        } => match folded_expr(*object, scope, cx, fuel) {
            Ok(out) => {
                let (new_object, fuel) = out;
                match folded_opt_boxed_expr(lower, scope, cx, fuel) {
                    Ok(out) => {
                        let (new_lower, fuel) = out;
                        match folded_opt_boxed_expr(upper, scope, cx, fuel) {
                            Ok(out) => {
                                let (new_upper, fuel) = out;
                                match folded_opt_boxed_expr(step, scope, cx, fuel) {
                                    Ok(out) => {
                                        let (new_step, fuel) = out;
                                        Ok(
                                            (
                                                ExprKindView::Slice {
                                                    object: Box::new(new_object),
                                                    lower: new_lower,
                                                    upper: new_upper,
                                                    step: new_step,
                                                },
                                                fuel,
                                            )
                                        )
                                    },
                                    Err(error) => Err(error),
                                }
                            },
                            Err(error) => Err(error),
                        }
                    },
                    Err(error) => Err(error),
                }
            },
            Err(error) => Err(error),
        },
        ExprKindView::MultiIndex { object, args } => match folded_expr(*object, scope, cx, fuel) {
            Ok(out) => {
                let (new_object, fuel) = out;
                match folded_subscript_arg_list(args, scope, cx, 0, Seq::empty(), fuel) {
                    Ok(out) => {
                        let (new_args, fuel) = out;
                        Ok(
                            (
                                ExprKindView::MultiIndex {
                                    object: Box::new(new_object),
                                    args: new_args,
                                },
                                fuel,
                            )
                        )
                    },
                    Err(error) => Err(error),
                }
            },
            Err(error) => Err(error),
        },
        _ => folded_expr_kind_further(expr_kind, scope, cx, fuel),
    }
}

/// See [`folded_expr_kind_more`].
pub fn fold_expr_kind_more(
    expr_kind: &ExprKind,
    scope: &Vec<(String, CtValue)>,
    cx: &CtContext,
    fuel: usize,
) -> (r: Result<(ExprKind, usize), Halt>)
    ensures
        (
            match r { Ok(v) => Ok((v.0@, v.1)), Err(v) => Err(v@) }
        ) == folded_expr_kind_more(expr_kind@, binding_list_view(scope@), cx@, fuel),
    decreases expr_kind, 1nat,
{
    proof { unfold_expr_kind(*expr_kind); }
    match expr_kind {
        ExprKind::Call { name, param_args, args, kwargs } => {
            let (new_param_args, fuel) = match fold_param_arg_list(param_args, scope, cx, fuel) {
                Ok(done) => done,
                Err(error) => {
                    return Err(error);
                },
            };
            let (new_args, fuel) = match fold_expr_list(args, scope, cx, fuel) {
                Ok(done) => done,
                Err(error) => {
                    return Err(error);
                },
            };
            let (new_kwargs, fuel) = match fold_kw_arg_list(kwargs, scope, cx, fuel) {
                Ok(done) => done,
                Err(error) => {
                    return Err(error);
                },
            };
            let kind = ExprKind::Call {
                name: name.clone(),
                param_args: new_param_args,
                args: new_args,
                kwargs: new_kwargs,
            };
            proof { unfold_expr_kind(kind); }
            Ok((kind, fuel))
        },
        ExprKind::Member { object, field } => {
            let (new_object, fuel) = match fold_expr(&**object, scope, cx, fuel) {
                Ok(done) => done,
                Err(error) => {
                    return Err(error);
                },
            };
            let kind2 = ExprKind::Member { object: Box::new(new_object), field: field.clone() };
            proof { unfold_expr_kind(kind2); }
            Ok((kind2, fuel))
        },
        ExprKind::MethodCall { object, method, args, kwargs } => {
            let (new_object, fuel) = match fold_expr(&**object, scope, cx, fuel) {
                Ok(done) => done,
                Err(error) => {
                    return Err(error);
                },
            };
            let (new_args, fuel) = match fold_expr_list(args, scope, cx, fuel) {
                Ok(done) => done,
                Err(error) => {
                    return Err(error);
                },
            };
            let (new_kwargs, fuel) = match fold_kw_arg_list(kwargs, scope, cx, fuel) {
                Ok(done) => done,
                Err(error) => {
                    return Err(error);
                },
            };
            let kind3 = ExprKind::MethodCall {
                object: Box::new(new_object),
                method: method.clone(),
                args: new_args,
                kwargs: new_kwargs,
            };
            proof { unfold_expr_kind(kind3); }
            Ok((kind3, fuel))
        },
        ExprKind::Index { object, index } => {
            let (new_object, fuel) = match fold_expr(&**object, scope, cx, fuel) {
                Ok(done) => done,
                Err(error) => {
                    return Err(error);
                },
            };
            let (new_index, fuel) = match fold_expr(&**index, scope, cx, fuel) {
                Ok(done) => done,
                Err(error) => {
                    return Err(error);
                },
            };
            let kind4 = ExprKind::Index {
                object: Box::new(new_object),
                index: Box::new(new_index),
            };
            proof { unfold_expr_kind(kind4); }
            Ok((kind4, fuel))
        },
        ExprKind::Slice { object, lower, upper, step } => {
            let (new_object, fuel) = match fold_expr(&**object, scope, cx, fuel) {
                Ok(done) => done,
                Err(error) => {
                    return Err(error);
                },
            };
            let (new_lower, fuel) = match fold_opt_boxed_expr(lower, scope, cx, fuel) {
                Ok(done) => done,
                Err(error) => {
                    return Err(error);
                },
            };
            let (new_upper, fuel) = match fold_opt_boxed_expr(upper, scope, cx, fuel) {
                Ok(done) => done,
                Err(error) => {
                    return Err(error);
                },
            };
            let (new_step, fuel) = match fold_opt_boxed_expr(step, scope, cx, fuel) {
                Ok(done) => done,
                Err(error) => {
                    return Err(error);
                },
            };
            let kind5 = ExprKind::Slice {
                object: Box::new(new_object),
                lower: new_lower,
                upper: new_upper,
                step: new_step,
            };
            proof { unfold_expr_kind(kind5); }
            Ok((kind5, fuel))
        },
        ExprKind::MultiIndex { object, args } => {
            let (new_object, fuel) = match fold_expr(&**object, scope, cx, fuel) {
                Ok(done) => done,
                Err(error) => {
                    return Err(error);
                },
            };
            let (new_args, fuel) = match fold_subscript_arg_list(args, scope, cx, fuel) {
                Ok(done) => done,
                Err(error) => {
                    return Err(error);
                },
            };
            let kind6 = ExprKind::MultiIndex { object: Box::new(new_object), args: new_args };
            proof { unfold_expr_kind(kind6); }
            Ok((kind6, fuel))
        },
        _ => {
            assert(!(expr_kind@ is Call));
            assert(!(expr_kind@ is Member));
            assert(!(expr_kind@ is MethodCall));
            assert(!(expr_kind@ is Index));
            assert(!(expr_kind@ is Slice));
            assert(!(expr_kind@ is MultiIndex));
            fold_expr_kind_further(expr_kind, scope, cx, fuel)
        },
    }
}

pub open spec fn folded_expr_kind_further(
    expr_kind: ExprKindView,
    scope: Seq<(Seq<char>, CtValueView)>,
    cx: CtContextView,
    fuel: usize,
) -> Result<(ExprKindView, usize), HaltView>
    decreases expr_kind, 0nat,
{
    match expr_kind {
        ExprKindView::ListLit(a0) => match folded_expr_list(a0, scope, cx, 0, Seq::empty(), fuel) {
            Ok(out) => {
                let (new_a0, fuel) = out;
                Ok((ExprKindView::ListLit(new_a0), fuel))
            },
            Err(error) => Err(error),
        },
        ExprKindView::TupleLit(a0) => match folded_expr_list(a0, scope, cx, 0, Seq::empty(), fuel) {
            Ok(out) => {
                let (new_a0, fuel) = out;
                Ok((ExprKindView::TupleLit(new_a0), fuel))
            },
            Err(error) => Err(error),
        },
        ExprKindView::BraceLit(a0) => match folded_entry_list(
            a0,
            scope,
            cx,
            0,
            Seq::empty(),
            fuel,
        ) {
            Ok(out) => {
                let (new_a0, fuel) = out;
                Ok((ExprKindView::BraceLit(new_a0), fuel))
            },
            Err(error) => Err(error),
        },
        ExprKindView::Comprehension { kind, key, value, clauses } => match folded_comprehension_clause_list(
            clauses,
            scope,
            cx,
            0,
            Seq::empty(),
            fuel,
        ) {
            Ok(out) => {
                let (new_clauses, fuel) = out;
                match folded_opt_boxed_expr(key, scope, cx, fuel) {
                    Ok(out) => {
                        let (new_key, fuel) = out;
                        match folded_expr(*value, scope, cx, fuel) {
                            Ok(out) => {
                                let (new_value, fuel) = out;
                                Ok(
                                    (
                                        ExprKindView::Comprehension {
                                            kind,
                                            key: new_key,
                                            value: Box::new(new_value),
                                            clauses: new_clauses,
                                        },
                                        fuel,
                                    )
                                )
                            },
                            Err(error) => Err(error),
                        }
                    },
                    Err(error) => Err(error),
                }
            },
            Err(error) => Err(error),
        },
        ExprKindView::Named { name, value } => match folded_expr(*value, scope, cx, fuel) {
            Ok(out) => {
                let (new_value, fuel) = out;
                Ok((ExprKindView::Named { name, value: Box::new(new_value) }, fuel))
            },
            Err(error) => Err(error),
        },
        ExprKindView::IfExpr {
            cond,
            then_branch,
            else_branch,
        } => match folded_expr(*cond, scope, cx, fuel) {
            Ok(out) => {
                let (new_cond, fuel) = out;
                match folded_expr(*then_branch, scope, cx, fuel) {
                    Ok(out) => {
                        let (new_then_branch, fuel) = out;
                        match folded_expr(*else_branch, scope, cx, fuel) {
                            Ok(out) => {
                                let (new_else_branch, fuel) = out;
                                Ok(
                                    (
                                        ExprKindView::IfExpr {
                                            cond: Box::new(new_cond),
                                            then_branch: Box::new(new_then_branch),
                                            else_branch: Box::new(new_else_branch),
                                        },
                                        fuel,
                                    )
                                )
                            },
                            Err(error) => Err(error),
                        }
                    },
                    Err(error) => Err(error),
                }
            },
            Err(error) => Err(error),
        },
        _ => Ok((expr_kind, fuel)),
    }
}

/// See [`folded_expr_kind_further`].
pub fn fold_expr_kind_further(
    expr_kind: &ExprKind,
    scope: &Vec<(String, CtValue)>,
    cx: &CtContext,
    fuel: usize,
) -> (r: Result<(ExprKind, usize), Halt>)
    ensures
        (
            match r { Ok(v) => Ok((v.0@, v.1)), Err(v) => Err(v@) }
        ) == folded_expr_kind_further(expr_kind@, binding_list_view(scope@), cx@, fuel),
    decreases expr_kind, 0nat,
{
    proof { unfold_expr_kind(*expr_kind); }
    match expr_kind {
        ExprKind::ListLit(a0) => {
            let (new_a0, fuel) = match fold_expr_list(a0, scope, cx, fuel) {
                Ok(done) => done,
                Err(error) => {
                    return Err(error);
                },
            };
            let kind2 = ExprKind::ListLit(new_a0);
            proof { unfold_expr_kind(kind2); }
            Ok((kind2, fuel))
        },
        ExprKind::TupleLit(a0) => {
            let (new_a0, fuel) = match fold_expr_list(a0, scope, cx, fuel) {
                Ok(done) => done,
                Err(error) => {
                    return Err(error);
                },
            };
            let kind3 = ExprKind::TupleLit(new_a0);
            proof { unfold_expr_kind(kind3); }
            Ok((kind3, fuel))
        },
        ExprKind::BraceLit(a0) => {
            let (new_a0, fuel) = match fold_entry_list(a0, scope, cx, fuel) {
                Ok(done) => done,
                Err(error) => {
                    return Err(error);
                },
            };
            let kind4 = ExprKind::BraceLit(new_a0);
            proof { unfold_expr_kind(kind4); }
            Ok((kind4, fuel))
        },
        ExprKind::Comprehension { kind, key, value, clauses } => {
            let (new_clauses, fuel) = match fold_comprehension_clause_list(
                clauses,
                scope,
                cx,
                fuel,
            ) {
                Ok(done) => done,
                Err(error) => {
                    return Err(error);
                },
            };
            let (new_key, fuel) = match fold_opt_boxed_expr(key, scope, cx, fuel) {
                Ok(done) => done,
                Err(error) => {
                    return Err(error);
                },
            };
            let (new_value, fuel) = match fold_expr(&**value, scope, cx, fuel) {
                Ok(done) => done,
                Err(error) => {
                    return Err(error);
                },
            };
            let kind5 = ExprKind::Comprehension {
                kind: *kind,
                key: new_key,
                value: Box::new(new_value),
                clauses: new_clauses,
            };
            proof { unfold_expr_kind(kind5); }
            Ok((kind5, fuel))
        },
        ExprKind::Named { name, value } => {
            let (new_value, fuel) = match fold_expr(&**value, scope, cx, fuel) {
                Ok(done) => done,
                Err(error) => {
                    return Err(error);
                },
            };
            let kind6 = ExprKind::Named { name: name.clone(), value: Box::new(new_value) };
            proof { unfold_expr_kind(kind6); }
            Ok((kind6, fuel))
        },
        ExprKind::IfExpr { cond, then_branch, else_branch } => {
            let (new_cond, fuel) = match fold_expr(&**cond, scope, cx, fuel) {
                Ok(done) => done,
                Err(error) => {
                    return Err(error);
                },
            };
            let (new_then_branch, fuel) = match fold_expr(&**then_branch, scope, cx, fuel) {
                Ok(done) => done,
                Err(error) => {
                    return Err(error);
                },
            };
            let (new_else_branch, fuel) = match fold_expr(&**else_branch, scope, cx, fuel) {
                Ok(done) => done,
                Err(error) => {
                    return Err(error);
                },
            };
            let kind7 = ExprKind::IfExpr {
                cond: Box::new(new_cond),
                then_branch: Box::new(new_then_branch),
                else_branch: Box::new(new_else_branch),
            };
            proof { unfold_expr_kind(kind7); }
            Ok((kind7, fuel))
        },
        _ => {
            assert(!(expr_kind@ is ListLit));
            assert(!(expr_kind@ is TupleLit));
            assert(!(expr_kind@ is BraceLit));
            assert(!(expr_kind@ is Comprehension));
            assert(!(expr_kind@ is Named));
            assert(!(expr_kind@ is IfExpr));
            Ok((clone_expr_kind(expr_kind), fuel))
        },
    }
}

pub open spec fn folded_stmt_list(
    items: Seq<StmtView>,
    scope: Seq<(Seq<char>, CtValueView)>,
    cx: CtContextView,
    i: nat,
    out: Seq<StmtView>,
    fuel: usize,
) -> Result<(Seq<StmtView>, usize), HaltView>
    decreases items, (items.len() - i) as nat,
{
    if i >= items.len() {
        Ok((out, fuel))
    } else {
        let item = items[i as int];
        match folded_stmt(item, scope, cx, fuel) {
            Ok(taken) => {
                let (mapped, rest) = taken;
                let fuel = rest;
                let out = out.push(mapped);
                folded_stmt_list(items, scope, cx, i + 1, out, fuel)
            },
            Err(error) => Err(error),
        }
    }
}

/// See [`folded_stmt_list`].
pub fn fold_stmt_list(
    items: &Vec<Stmt>,
    scope: &Vec<(String, CtValue)>,
    cx: &CtContext,
    start: usize,
) -> (r: Result<(Vec<Stmt>, usize), Halt>)
    ensures
        (
            match r { Ok(v) => Ok((stmt_list_view(v.0@), v.1)), Err(v) => Err(v@) }
        ) == folded_stmt_list(
            stmt_list_view(items@),
            binding_list_view(scope@),
            cx@,
            0,
            Seq::<StmtView>::empty(),
            start,
        ),
    decreases items@, 0nat,
{
    let mut out: Vec<Stmt> = Vec::new();
    assert(stmt_list_view(out@) =~= Seq::<StmtView>::empty());
    let mut fuel: usize = start;
    let ghost goal = folded_stmt_list(
        stmt_list_view(items@),
        binding_list_view(scope@),
        cx@,
        0,
        Seq::<StmtView>::empty(),
        start,
    );
    let mut i: usize = 0;
    while i < items.len()
        invariant
            i <= items@.len(),
            stmt_list_view(items@).len() == items@.len(),
            folded_stmt_list(
                stmt_list_view(items@),
                binding_list_view(scope@),
                cx@,
                i as nat,
                stmt_list_view(out@),
                fuel,
            ) == goal,
            goal == folded_stmt_list(
                stmt_list_view(items@),
                binding_list_view(scope@),
                cx@,
                0,
                Seq::<StmtView>::empty(),
                start,
            ),
        decreases items@.len() - i,
    {
        let item = &items[i];
        assert(stmt_list_view(items@)[i as int] == item@);
        let (mapped, rest) = match fold_stmt(item, scope, cx, fuel) {
            Ok(done) => done,
            Err(error) => {
                return Err(error);
            },
        };
        fuel = rest;
        let ghost before = stmt_list_view(out@);
        let ghost added = mapped@;
        out.push(mapped);
        assert(stmt_list_view(out@) =~= before.push(added));
        i = i + 1;
    }
    Ok((out, fuel))
}

pub open spec fn folded_branch_list(
    items: Seq<(ExprView, Seq<StmtView>)>,
    scope: Seq<(Seq<char>, CtValueView)>,
    cx: CtContextView,
    i: nat,
    out: Seq<(ExprView, Seq<StmtView>)>,
    fuel: usize,
) -> Result<(Seq<(ExprView, Seq<StmtView>)>, usize), HaltView>
    decreases items, (items.len() - i) as nat,
{
    if i >= items.len() {
        Ok((out, fuel))
    } else {
        let item = items[i as int];
        match folded_expr(item.0, scope, cx, fuel) {
            Ok(taken) => {
                let (mapped_0, rest) = taken;
                let fuel = rest;
                match folded_stmt_list(item.1, scope, cx, 0, Seq::empty(), fuel) {
                    Ok(taken) => {
                        let (mapped_1, rest) = taken;
                        let fuel = rest;
                        let out = out.push((mapped_0, mapped_1));
                        folded_branch_list(items, scope, cx, i + 1, out, fuel)
                    },
                    Err(error) => Err(error),
                }
            },
            Err(error) => Err(error),
        }
    }
}

/// See [`folded_branch_list`].
pub fn fold_branch_list(
    items: &Vec<(Expr, Vec<Stmt>)>,
    scope: &Vec<(String, CtValue)>,
    cx: &CtContext,
    start: usize,
) -> (r: Result<(Vec<(Expr, Vec<Stmt>)>, usize), Halt>)
    ensures
        (
            match r { Ok(v) => Ok((branch_list_view(v.0@), v.1)), Err(v) => Err(v@) }
        ) == folded_branch_list(
            branch_list_view(items@),
            binding_list_view(scope@),
            cx@,
            0,
            Seq::<(ExprView, Seq<StmtView>)>::empty(),
            start,
        ),
    decreases items@, 0nat,
{
    let mut out: Vec<(Expr, Vec<Stmt>)> = Vec::new();
    assert(branch_list_view(out@) =~= Seq::<(ExprView, Seq<StmtView>)>::empty());
    let mut fuel: usize = start;
    let ghost goal = folded_branch_list(
        branch_list_view(items@),
        binding_list_view(scope@),
        cx@,
        0,
        Seq::<(ExprView, Seq<StmtView>)>::empty(),
        start,
    );
    let mut i: usize = 0;
    while i < items.len()
        invariant
            i <= items@.len(),
            branch_list_view(items@).len() == items@.len(),
            folded_branch_list(
                branch_list_view(items@),
                binding_list_view(scope@),
                cx@,
                i as nat,
                branch_list_view(out@),
                fuel,
            ) == goal,
            goal == folded_branch_list(
                branch_list_view(items@),
                binding_list_view(scope@),
                cx@,
                0,
                Seq::<(ExprView, Seq<StmtView>)>::empty(),
                start,
            ),
        decreases items@.len() - i,
    {
        let item = &items[i];
        assert(branch_list_view(items@)[i as int].0 =~= item.0@);
        assert(branch_list_view(items@)[i as int].1 =~= stmt_list_view(item.1@));
        let (mapped_0, rest) = match fold_expr(&item.0, scope, cx, fuel) {
            Ok(done) => done,
            Err(error) => {
                return Err(error);
            },
        };
        fuel = rest;
        let (mapped_1, rest) = match fold_stmt_list(&item.1, scope, cx, fuel) {
            Ok(done) => done,
            Err(error) => {
                return Err(error);
            },
        };
        fuel = rest;
        let item2 = (mapped_0, mapped_1);
        let ghost before = branch_list_view(out@);
        let ghost added = (item2.0@, stmt_list_view(item2.1@));
        out.push(item2);
        assert(branch_list_view(out@) =~= before.push(added));
        i = i + 1;
    }
    Ok((out, fuel))
}

pub open spec fn folded_opt_stmt_list(
    value: Option<Seq<StmtView>>,
    scope: Seq<(Seq<char>, CtValueView)>,
    cx: CtContextView,
    fuel: usize,
) -> Result<(Option<Seq<StmtView>>, usize), HaltView>
    decreases value, 0nat,
{
    match value {
        Some(value) => match folded_stmt_list(value, scope, cx, 0, Seq::empty(), fuel) {
            Ok(out) => {
                let (mapped, fuel) = out;
                Ok((Some(mapped), fuel))
            },
            Err(error) => Err(error),
        },
        None => Ok((None, fuel)),
    }
}

/// See [`folded_opt_stmt_list`].
pub fn fold_opt_stmt_list(
    value: &Option<Vec<Stmt>>,
    scope: &Vec<(String, CtValue)>,
    cx: &CtContext,
    fuel: usize,
) -> (r: Result<(Option<Vec<Stmt>>, usize), Halt>)
    ensures
        (
            match r {
                Ok(v) => Ok(
                    ((match v.0 { Some(v1) => Some(stmt_list_view(v1@)), None => None }), v.1)
                ),
                Err(v) => Err(v@),
            }
        ) == folded_opt_stmt_list(
            (match value { Some(v) => Some(stmt_list_view(v@)), None => None }),
            binding_list_view(scope@),
            cx@,
            fuel,
        ),
    decreases value, 0nat,
{
    match value {
        Some(value) => {
            let (mapped, fuel) = match fold_stmt_list(value, scope, cx, fuel) {
                Ok(done) => done,
                Err(error) => {
                    return Err(error);
                },
            };
            Ok((Some(mapped), fuel))
        },
        None => Ok((None, fuel)),
    }
}

pub open spec fn folded_stmt_kind(
    stmt_kind: StmtKindView,
    scope: Seq<(Seq<char>, CtValueView)>,
    cx: CtContextView,
    fuel: usize,
) -> Result<(StmtKindView, usize), HaltView>
    decreases stmt_kind, 1nat,
{
    match stmt_kind {
        StmtKindView::VarDecl { name, ty, value } => match folded_expr(value, scope, cx, fuel) {
            Ok(out) => {
                let (new_value, fuel) = out;
                Ok((StmtKindView::VarDecl { name, ty, value: new_value }, fuel))
            },
            Err(error) => Err(error),
        },
        StmtKindView::RefDecl { name, value } => match folded_expr(value, scope, cx, fuel) {
            Ok(out) => {
                let (new_value, fuel) = out;
                Ok((StmtKindView::RefDecl { name, value: new_value }, fuel))
            },
            Err(error) => Err(error),
        },
        StmtKindView::Assign { name, value } => match folded_expr(value, scope, cx, fuel) {
            Ok(out) => {
                let (new_value, fuel) = out;
                Ok((StmtKindView::Assign { name, value: new_value }, fuel))
            },
            Err(error) => Err(error),
        },
        StmtKindView::Return(a0) => match folded_opt_expr(a0, scope, cx, fuel) {
            Ok(out) => {
                let (new_a0, fuel) = out;
                Ok((StmtKindView::Return(new_a0), fuel))
            },
            Err(error) => Err(error),
        },
        StmtKindView::SetPlace { place, value } => match folded_expr(place, scope, cx, fuel) {
            Ok(out) => {
                let (new_place, fuel) = out;
                match folded_expr(value, scope, cx, fuel) {
                    Ok(out) => {
                        let (new_value, fuel) = out;
                        Ok((StmtKindView::SetPlace { place: new_place, value: new_value }, fuel))
                    },
                    Err(error) => Err(error),
                }
            },
            Err(error) => Err(error),
        },
        StmtKindView::AugAssign { place, op, value } => match folded_expr(place, scope, cx, fuel) {
            Ok(out) => {
                let (new_place, fuel) = out;
                match folded_expr(value, scope, cx, fuel) {
                    Ok(out) => {
                        let (new_value, fuel) = out;
                        Ok(
                            (
                                StmtKindView::AugAssign { place: new_place, op, value: new_value },
                                fuel,
                            )
                        )
                    },
                    Err(error) => Err(error),
                }
            },
            Err(error) => Err(error),
        },
        _ => folded_stmt_kind_more(stmt_kind, scope, cx, fuel),
    }
}

/// See [`folded_stmt_kind`].
pub fn fold_stmt_kind(
    stmt_kind: &StmtKind,
    scope: &Vec<(String, CtValue)>,
    cx: &CtContext,
    fuel: usize,
) -> (r: Result<(StmtKind, usize), Halt>)
    ensures
        (
            match r { Ok(v) => Ok((v.0@, v.1)), Err(v) => Err(v@) }
        ) == folded_stmt_kind(stmt_kind@, binding_list_view(scope@), cx@, fuel),
    decreases stmt_kind, 1nat,
{
    proof { unfold_stmt_kind(*stmt_kind); }
    match stmt_kind {
        StmtKind::VarDecl { name, ty, value } => {
            let (new_value, fuel) = match fold_expr(value, scope, cx, fuel) {
                Ok(done) => done,
                Err(error) => {
                    return Err(error);
                },
            };
            let kind = StmtKind::VarDecl {
                name: name.clone(),
                ty: (match ty { Some(y) => Some(clone_type(y)), None => None }),
                value: new_value,
            };
            proof { unfold_stmt_kind(kind); }
            Ok((kind, fuel))
        },
        StmtKind::RefDecl { name, value } => {
            let (new_value, fuel) = match fold_expr(value, scope, cx, fuel) {
                Ok(done) => done,
                Err(error) => {
                    return Err(error);
                },
            };
            let kind2 = StmtKind::RefDecl { name: name.clone(), value: new_value };
            proof { unfold_stmt_kind(kind2); }
            Ok((kind2, fuel))
        },
        StmtKind::Assign { name, value } => {
            let (new_value, fuel) = match fold_expr(value, scope, cx, fuel) {
                Ok(done) => done,
                Err(error) => {
                    return Err(error);
                },
            };
            let kind3 = StmtKind::Assign { name: name.clone(), value: new_value };
            proof { unfold_stmt_kind(kind3); }
            Ok((kind3, fuel))
        },
        StmtKind::Return(a0) => {
            let (new_a0, fuel) = match fold_opt_expr(a0, scope, cx, fuel) {
                Ok(done) => done,
                Err(error) => {
                    return Err(error);
                },
            };
            let kind4 = StmtKind::Return(new_a0);
            proof { unfold_stmt_kind(kind4); }
            Ok((kind4, fuel))
        },
        StmtKind::SetPlace { place, value } => {
            let (new_place, fuel) = match fold_expr(place, scope, cx, fuel) {
                Ok(done) => done,
                Err(error) => {
                    return Err(error);
                },
            };
            let (new_value, fuel) = match fold_expr(value, scope, cx, fuel) {
                Ok(done) => done,
                Err(error) => {
                    return Err(error);
                },
            };
            let kind5 = StmtKind::SetPlace { place: new_place, value: new_value };
            proof { unfold_stmt_kind(kind5); }
            Ok((kind5, fuel))
        },
        StmtKind::AugAssign { place, op, value } => {
            let (new_place, fuel) = match fold_expr(place, scope, cx, fuel) {
                Ok(done) => done,
                Err(error) => {
                    return Err(error);
                },
            };
            let (new_value, fuel) = match fold_expr(value, scope, cx, fuel) {
                Ok(done) => done,
                Err(error) => {
                    return Err(error);
                },
            };
            let kind6 = StmtKind::AugAssign { place: new_place, op: *op, value: new_value };
            proof { unfold_stmt_kind(kind6); }
            Ok((kind6, fuel))
        },
        _ => {
            assert(!(stmt_kind@ is VarDecl));
            assert(!(stmt_kind@ is RefDecl));
            assert(!(stmt_kind@ is Assign));
            assert(!(stmt_kind@ is Return));
            assert(!(stmt_kind@ is SetPlace));
            assert(!(stmt_kind@ is AugAssign));
            fold_stmt_kind_more(stmt_kind, scope, cx, fuel)
        },
    }
}

pub open spec fn folded_stmt_kind_more(
    stmt_kind: StmtKindView,
    scope: Seq<(Seq<char>, CtValueView)>,
    cx: CtContextView,
    fuel: usize,
) -> Result<(StmtKindView, usize), HaltView>
    decreases stmt_kind, 0nat,
{
    match stmt_kind {
        StmtKindView::Expr(a0) => match folded_expr(a0, scope, cx, fuel) {
            Ok(out) => {
                let (new_a0, fuel) = out;
                Ok((StmtKindView::Expr(new_a0), fuel))
            },
            Err(error) => Err(error),
        },
        StmtKindView::If { branches, orelse } => match folded_branch_list(
            branches,
            scope,
            cx,
            0,
            Seq::empty(),
            fuel,
        ) {
            Ok(out) => {
                let (new_branches, fuel) = out;
                match folded_opt_stmt_list(orelse, scope, cx, fuel) {
                    Ok(out) => {
                        let (new_orelse, fuel) = out;
                        Ok((StmtKindView::If { branches: new_branches, orelse: new_orelse }, fuel))
                    },
                    Err(error) => Err(error),
                }
            },
            Err(error) => Err(error),
        },
        StmtKindView::While { cond, body, orelse } => match folded_expr(cond, scope, cx, fuel) {
            Ok(out) => {
                let (new_cond, fuel) = out;
                match folded_stmt_list(body, scope, cx, 0, Seq::empty(), fuel) {
                    Ok(out) => {
                        let (new_body, fuel) = out;
                        Ok((StmtKindView::While { cond: new_cond, body: new_body, orelse }, fuel))
                    },
                    Err(error) => Err(error),
                }
            },
            Err(error) => Err(error),
        },
        StmtKindView::For {
            var,
            reference,
            owned,
            iter,
            body,
            orelse,
        } => match folded_expr(iter, scope, cx, fuel) {
            Ok(out) => {
                let (new_iter, fuel) = out;
                match folded_stmt_list(body, scope, cx, 0, Seq::empty(), fuel) {
                    Ok(out) => {
                        let (new_body, fuel) = out;
                        Ok(
                            (
                                StmtKindView::For {
                                    var,
                                    reference,
                                    owned,
                                    iter: new_iter,
                                    body: new_body,
                                    orelse,
                                },
                                fuel,
                            )
                        )
                    },
                    Err(error) => Err(error),
                }
            },
            Err(error) => Err(error),
        },
        StmtKindView::Def {
            name,
            decorators,
            type_params,
            params,
            positional_only,
            keyword_only,
            captures,
            raises,
            raises_type,
            ret,
            where_clause,
            body,
        } => match folded_stmt_list(body, scope, cx, 0, Seq::empty(), fuel) {
            Ok(out) => {
                let (new_body, fuel) = out;
                Ok(
                    (
                        StmtKindView::Def {
                            name,
                            decorators,
                            type_params,
                            params,
                            positional_only,
                            keyword_only,
                            captures,
                            raises,
                            raises_type,
                            ret,
                            where_clause,
                            body: new_body,
                        },
                        fuel,
                    )
                )
            },
            Err(error) => Err(error),
        },
        _ => Ok((stmt_kind, fuel)),
    }
}

/// See [`folded_stmt_kind_more`].
pub fn fold_stmt_kind_more(
    stmt_kind: &StmtKind,
    scope: &Vec<(String, CtValue)>,
    cx: &CtContext,
    fuel: usize,
) -> (r: Result<(StmtKind, usize), Halt>)
    ensures
        (
            match r { Ok(v) => Ok((v.0@, v.1)), Err(v) => Err(v@) }
        ) == folded_stmt_kind_more(stmt_kind@, binding_list_view(scope@), cx@, fuel),
    decreases stmt_kind, 0nat,
{
    proof { unfold_stmt_kind(*stmt_kind); }
    match stmt_kind {
        StmtKind::Expr(a0) => {
            let (new_a0, fuel) = match fold_expr(a0, scope, cx, fuel) {
                Ok(done) => done,
                Err(error) => {
                    return Err(error);
                },
            };
            let kind = StmtKind::Expr(new_a0);
            proof { unfold_stmt_kind(kind); }
            Ok((kind, fuel))
        },
        StmtKind::If { branches, orelse } => {
            let (new_branches, fuel) = match fold_branch_list(branches, scope, cx, fuel) {
                Ok(done) => done,
                Err(error) => {
                    return Err(error);
                },
            };
            let (new_orelse, fuel) = match fold_opt_stmt_list(orelse, scope, cx, fuel) {
                Ok(done) => done,
                Err(error) => {
                    return Err(error);
                },
            };
            let kind2 = StmtKind::If { branches: new_branches, orelse: new_orelse };
            proof { unfold_stmt_kind(kind2); }
            Ok((kind2, fuel))
        },
        StmtKind::While { cond, body, orelse } => {
            let (new_cond, fuel) = match fold_expr(cond, scope, cx, fuel) {
                Ok(done) => done,
                Err(error) => {
                    return Err(error);
                },
            };
            let (new_body, fuel) = match fold_stmt_list(body, scope, cx, fuel) {
                Ok(done) => done,
                Err(error) => {
                    return Err(error);
                },
            };
            let kind3 = StmtKind::While {
                cond: new_cond,
                body: new_body,
                orelse: (match orelse { Some(y) => Some(clone_stmt_list(y)), None => None }),
            };
            proof { unfold_stmt_kind(kind3); }
            Ok((kind3, fuel))
        },
        StmtKind::For { var, reference, owned, iter, body, orelse } => {
            let (new_iter, fuel) = match fold_expr(iter, scope, cx, fuel) {
                Ok(done) => done,
                Err(error) => {
                    return Err(error);
                },
            };
            let (new_body, fuel) = match fold_stmt_list(body, scope, cx, fuel) {
                Ok(done) => done,
                Err(error) => {
                    return Err(error);
                },
            };
            let kind4 = StmtKind::For {
                var: var.clone(),
                reference: *reference,
                owned: *owned,
                iter: new_iter,
                body: new_body,
                orelse: (match orelse { Some(y) => Some(clone_stmt_list(y)), None => None }),
            };
            proof { unfold_stmt_kind(kind4); }
            Ok((kind4, fuel))
        },
        StmtKind::Def {
            name,
            decorators,
            type_params,
            params,
            positional_only,
            keyword_only,
            captures,
            raises,
            raises_type,
            ret,
            where_clause,
            body,
        } => {
            let (new_body, fuel) = match fold_stmt_list(body, scope, cx, fuel) {
                Ok(done) => done,
                Err(error) => {
                    return Err(error);
                },
            };
            let kind5 = StmtKind::Def {
                name: name.clone(),
                decorators: clone_string_list(decorators),
                type_params: clone_type_param_list(type_params),
                params: clone_fn_param_list(params),
                positional_only: *positional_only,
                keyword_only: *keyword_only,
                captures: (match captures { Some(y) => Some(clone_capture_list(y)), None => None }),
                raises: *raises,
                raises_type: (match raises_type { Some(y) => Some(clone_type(y)), None => None }),
                ret: (match ret { Some(y) => Some(clone_type(y)), None => None }),
                where_clause: (match where_clause { Some(y) => Some(clone_expr(y)), None => None }),
                body: new_body,
            };
            proof { unfold_stmt_kind(kind5); }
            Ok((kind5, fuel))
        },
        _ => {
            assert(!(stmt_kind@ is Expr));
            assert(!(stmt_kind@ is If));
            assert(!(stmt_kind@ is While));
            assert(!(stmt_kind@ is For));
            assert(!(stmt_kind@ is Def));
            Ok((clone_stmt_kind(stmt_kind), fuel))
        },
    }
}

pub open spec fn folded_stmt(
    stmt: StmtView,
    scope: Seq<(Seq<char>, CtValueView)>,
    cx: CtContextView,
    fuel: usize,
) -> Result<(StmtView, usize), HaltView>
    decreases stmt, 0nat,
{
    match folded_stmt_kind(stmt.kind, scope, cx, fuel) {
        Ok(out) => {
            let (new_kind, fuel) = out;
            Ok((StmtView { kind: new_kind, span: stmt.span, module: stmt.module }, fuel))
        },
        Err(error) => Err(error),
    }
}

/// See [`folded_stmt`].
pub fn fold_stmt(
    stmt: &Stmt,
    scope: &Vec<(String, CtValue)>,
    cx: &CtContext,
    fuel: usize,
) -> (r: Result<(Stmt, usize), Halt>)
    ensures
        (
            match r { Ok(v) => Ok((v.0@, v.1)), Err(v) => Err(v@) }
        ) == folded_stmt(stmt@, binding_list_view(scope@), cx@, fuel),
    decreases stmt, 0nat,
{
    let (new_kind, fuel) = match fold_stmt_kind(&stmt.kind, scope, cx, fuel) {
        Ok(done) => done,
        Err(error) => {
            return Err(error);
        },
    };
    Ok(
        (
            Stmt {
                kind: new_kind,
                span: stmt.span,
                module: (match (&stmt.module) { Some(y) => Some(y.clone()), None => None }),
            },
            fuel,
        )
    )
}

#[verifier::opaque]
pub open spec fn stmt_needed(stmt: StmtView, needed: Seq<Seq<char>>) -> bool {
    match stmt.kind {
        StmtKindView::Def { name, .. } => needed.contains(name),
        StmtKindView::Struct { .. } => true,
        StmtKindView::Trait { .. } => true,
        _ => false,
    }
}

/// See [`stmt_needed`].
pub fn is_needed(stmt: &Stmt, needed: &Vec<String>) -> (r: bool)
    ensures
        r == stmt_needed(stmt@, string_list_view(needed@)),
{
    proof { reveal(stmt_needed); }
    proof { unfold_stmt_kind(stmt.kind); }
    match &stmt.kind {
        StmtKind::Def { name, .. } => contains_name(needed, name),
        StmtKind::Struct { .. } => true,
        StmtKind::Trait { .. } => true,
        _ => {
            assert(!(stmt.kind@ is Def));
            assert(!(stmt.kind@ is Struct));
            assert(!(stmt.kind@ is Trait));
            false
        },
    }
}

#[verifier::opaque]
pub open spec fn root_def(stmt: StmtView, name: Seq<char>) -> bool {
    match stmt.kind {
        StmtKindView::Def { name: found, .. } => found == name,
        _ => false,
    }
}

/// See [`root_def`].
pub fn is_root(stmt: &Stmt, name: &String) -> (r: bool)
    ensures
        r == root_def(stmt@, name@),
{
    proof { reveal(root_def); }
    proof { unfold_stmt_kind(stmt.kind); }
    match &stmt.kind {
        StmtKind::Def { name: found, .. } => same_string(found, name),
        _ => {
            assert(!(stmt.kind@ is Def));
            false
        },
    }
}

pub open spec fn program_needed(
    program: Seq<StmtView>,
    call: CtCallView,
    cx: CtContextView,
    i: nat,
    out: Seq<StmtView>,
    fuel: usize,
) -> Result<(Seq<StmtView>, usize), HaltView>
    decreases program, (program.len() - i) as nat,
{
    if i >= program.len() {
        Ok((out, fuel))
    } else {
        let stmt = program[i as int];
        match stmt_of_call(stmt, call, cx, fuel) {
            Ok(taken) => {
                let (made, rest) = taken;
                let out = (out + made);
                let fuel = rest;
                program_needed(program, call, cx, i + 1, out, fuel)
            },
            Err(error) => Err(error),
        }
    }
}

/// See [`program_needed`].
pub fn needed_program(
    program: &Vec<Stmt>,
    call: &CtCall,
    cx: &CtContext,
    start: usize,
) -> (r: Result<(Vec<Stmt>, usize), Halt>)
    ensures
        (match r { Ok(v) => Ok((stmt_list_view(v.0@), v.1)), Err(v) => Err(v@) }) == program_needed(
            stmt_list_view(program@),
            call@,
            cx@,
            0,
            Seq::<StmtView>::empty(),
            start,
        ),
    decreases program@, 0nat,
{
    let mut out: Vec<Stmt> = Vec::new();
    assert(stmt_list_view(out@) =~= Seq::<StmtView>::empty());
    let mut fuel: usize = start;
    let ghost goal = program_needed(
        stmt_list_view(program@),
        call@,
        cx@,
        0,
        Seq::<StmtView>::empty(),
        start,
    );
    let mut i: usize = 0;
    while i < program.len()
        invariant
            i <= program@.len(),
            stmt_list_view(program@).len() == program@.len(),
            program_needed(
                stmt_list_view(program@),
                call@,
                cx@,
                i as nat,
                stmt_list_view(out@),
                fuel,
            ) == goal,
            goal == program_needed(
                stmt_list_view(program@),
                call@,
                cx@,
                0,
                Seq::<StmtView>::empty(),
                start,
            ),
        decreases program@.len() - i,
    {
        let stmt = &program[i];
        assert(stmt_list_view(program@)[i as int] == stmt@);
        let (made, rest) = match needed_stmt(stmt, call, cx, fuel) {
            Ok(done) => done,
            Err(error) => {
                return Err(error);
            },
        };
        out = joined_stmts(&made, out);
        fuel = rest;
        i = i + 1;
    }
    Ok((out, fuel))
}

#[verifier::opaque]
pub open spec fn stmt_of_call(
    stmt: StmtView,
    call: CtCallView,
    cx: CtContextView,
    fuel: usize,
) -> Result<(Seq<StmtView>, usize), HaltView> {
    if !stmt_needed(stmt, call.needed) {
        Ok((Seq::empty(), fuel))
    } else if root_def(stmt, call.name) {
        match folded_stmt(stmt, call.locals, cx, fuel) {
            Ok(out) => {
                let (made, fuel) = out;
                Ok((seq![made], fuel))
            },
            Err(error) => Err(error),
        }
    } else {
        Ok((seq![stmt], fuel))
    }
}

/// See [`stmt_of_call`].
pub fn needed_stmt(
    stmt: &Stmt,
    call: &CtCall,
    cx: &CtContext,
    fuel: usize,
) -> (r: Result<(Vec<Stmt>, usize), Halt>)
    ensures
        (
            match r { Ok(v) => Ok((stmt_list_view(v.0@), v.1)), Err(v) => Err(v@) }
        ) == stmt_of_call(stmt@, call@, cx@, fuel),
{
    proof { reveal(stmt_of_call); }
    if !is_needed(stmt, &call.needed) {
        let list: Vec<Stmt> = Vec::new();
        assert(stmt_list_view(list@) =~= Seq::<StmtView>::empty());
        Ok((list, fuel))
    } else if is_root(stmt, &call.name) {
        let (made, fuel) = match fold_stmt(stmt, &call.locals, cx, fuel) {
            Ok(done) => done,
            Err(error) => {
                return Err(error);
            },
        };
        let ghost seen = made@;
        let list2 = vec![made];
        assert(stmt_list_view(list2@) =~= seq![seen]);
        Ok((list2, fuel))
    } else {
        let item = clone_stmt(stmt);
        let ghost seen2 = item@;
        let list3 = vec![item];
        assert(stmt_list_view(list3@) =~= seq![seen2]);
        Ok((list3, fuel))
    }
}

/// The program to run for a call: all structs and traits, and the functions that the
/// call reaches. In the called function what only the compiler knows has become
/// literals. With it come the steps that are left for the run.
#[verifier::opaque]
pub open spec fn program_of_call(
    program: Seq<StmtView>,
    call: CtCallView,
    replies: Seq<CtReplyView>,
) -> Result<(Seq<StmtView>, usize), HaltView> {
    let cx = known_of(program, replies);
    match program_needed(program, call, cx, 0, Seq::empty(), call.fuel) {
        Ok(out) => {
            let (made, left) = out;
            if made.len() == 0 {
                Err(halted(no_comptime("missing compile-time function '"@ + call.name + "' for VM CTFE"@), left))
            } else {
                Ok((made, left))
            }
        },
        Err(error) => Err(error),
    }
}

/// See [`program_of_call`].
pub fn call_program(
    program: &Vec<Stmt>,
    call: &CtCall,
    replies: &Vec<CtReply>,
) -> (r: Result<(Vec<Stmt>, usize), Halt>)
    ensures
        (
            match r { Ok(v) => Ok((stmt_list_view(v.0@), v.1)), Err(v) => Err(v@) }
        ) == program_of_call(stmt_list_view(program@), call@, ct_reply_list_view(replies@)),
{
    proof { reveal(program_of_call); }
    let cx = context_of(program, replies);
    let (made, left) = match needed_program(program, call, &cx, call.fuel) {
        Ok(done) => done,
        Err(error) => {
            return Err(error);
        },
    };
    if made.len() == 0 {
        Err(halt(not_comptime(cat3("missing compile-time function '", &call.name.as_str(), "' for VM CTFE")), left))
    } else {
        Ok((made, left))
    }
}

} // verus!
