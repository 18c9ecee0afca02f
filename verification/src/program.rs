//! Whole programs in the flat form.

use crate::ast::{
    ArgConvention, Expr, ExprKind, ExprKindView, ExprView, FnParam, FnParamView, Method,
    MethodView, Param, ParamKind, ParamView, Stmt, StmtKind, StmtKindView, StmtView, Type,
    TypeParam, TypeParamView, TypeView, clone_stmt, fn_param_list_view, method_list_view,
    param_list_view, stmt_list_view, type_param_list_view, unfold_expr_kind, unfold_stmt_kind,
    unfold_type,
};
use crate::cfg::{build_fn_with_context, function_cfg};
use crate::checked::{
    AnnotationSite, AnnotationSiteView, AnnotationType, AnnotationTypeView, CheckedConst,
    CheckedConstView, CheckedProgram, CheckedProgramView, ExplicitDestroy, ExplicitDestroyView,
    LoweredName, LoweredNameView, annotation_type_list_view, clone_explicit_destroy,
    clone_flagged_name_list, explicit_destroy_list_view, flagged_name_list_view,
    lowered_name_list_view, opt_const_list_view,
};
use crate::flatten::{
    NestedInfo, NestedInfoView, following_index, nested_info_list_view, next_index,
};
use crate::functions::{flattened, lower_cfg_nested};
use crate::lifting::{
    checked_type_at, convention_owns, convention_writes, is_owned, is_ref, lower_fn_nested, signed,
    type_at_site, with_function, with_signature,
};
use crate::mir::{
    MirDeclarations, MirDeclarationsView, MirFunction, MirFunctionDeclaration,
    MirFunctionDeclarationView, MirFunctionView, MirProgram, MirProgramView, MirStructDeclaration,
    MirStructDeclarationView, clone_mir_function_declaration_list,
    clone_mir_struct_declaration_list, clone_named_function_list,
    mir_function_declaration_list_view, mir_struct_declaration_list_view, named_function_list_view,
    unfold_mir_declarations, unfold_mir_function_declaration, unfold_mir_program,
    unfold_mir_struct_declaration,
};
use crate::text::{
    cat2, cat3, cat4, cat5, clone_string_list, opt_view, same_string, same_text, string_list_view,
};
use crate::types::{
    Ty, TyArg, TyArgView, TyView, clone_ty_pair_list, named_ty_list_view, ty_arg_list_view,
    ty_list_view, unfold_ty,
};
use crate::verify::{and_error, verify, violations, with_error};
use vstd::prelude::*;

verus! {

/// A program while its declarations are lowered one by one.
#[derive(Debug)]
pub struct Assembly {
    pub functions: Vec<(String, MirFunction)>,
    pub structs: Vec<MirStructDeclaration>,
    pub declarations: Vec<MirFunctionDeclaration>,
    pub errors: Vec<String>,
    /// The statements outside declarations.
    pub toplevel: Vec<Stmt>,
}

/// What a [`Assembly`] holds.
pub struct AssemblyView {
    pub functions: Seq<(Seq<char>, MirFunctionView)>,
    pub structs: Seq<MirStructDeclarationView>,
    pub declarations: Seq<MirFunctionDeclarationView>,
    pub errors: Seq<Seq<char>>,
    pub toplevel: Seq<StmtView>,
}

pub open spec fn assembly_view(x: Assembly) -> AssemblyView
    decreases x,
{
    AssemblyView {
        functions: named_function_list_view(x.functions@),
        structs: mir_struct_declaration_list_view(x.structs@),
        declarations: mir_function_declaration_list_view(x.declarations@),
        errors: string_list_view(x.errors@),
        toplevel: stmt_list_view(x.toplevel@),
    }
}

impl View for Assembly {
    type V = AssemblyView;

    open spec fn view(&self) -> AssemblyView {
        assembly_view(*self)
    }
}

pub proof fn unfold_assembly(x: Assembly)
    ensures
        assembly_view(x) == (AssemblyView { functions: named_function_list_view(x.functions@), structs: mir_struct_declaration_list_view(x.structs@), declarations: mir_function_declaration_list_view(x.declarations@), errors: string_list_view(x.errors@), toplevel: stmt_list_view(x.toplevel@) }),
{
        assert(assembly_view(x).functions =~= named_function_list_view(x.functions@));
        assert(assembly_view(x).structs =~= mir_struct_declaration_list_view(x.structs@));
        assert(assembly_view(x).declarations =~= mir_function_declaration_list_view(x.declarations@));
        assert(assembly_view(x).errors =~= string_list_view(x.errors@));
        assert(assembly_view(x).toplevel =~= stmt_list_view(x.toplevel@));
}

#[verifier::opaque]
pub open spec fn is_result(param: FnParamView) -> bool {
    match param.convention {
        Some(convention) => match convention {
            ArgConvention::Out => true,
            _ => false,
        },
        None => false,
    }
}

/// See [`is_result`].
pub fn is_out(param: &FnParam) -> (r: bool)
    ensures
        r == is_result(param@),
{
    proof { reveal(is_result); }
    match &param.convention {
        Some(convention) => {
            match convention {
                ArgConvention::Out => true,
                _ => false,
            }
        },
        None => false,
    }
}

#[verifier::opaque]
pub open spec fn takes_one(param: FnParamView) -> bool {
    match param.kind {
        ParamKind::Regular => true,
        _ => false,
    }
}

/// See [`takes_one`].
pub fn is_regular(param: &FnParam) -> (r: bool)
    ensures
        r == takes_one(param@),
{
    proof { reveal(takes_one); }
    match param.kind {
        ParamKind::Regular => true,
        _ => false,
    }
}

/// Whether a parameter is among those asked for: named results and collectors are
/// left out unless they are wanted.
#[verifier::opaque]
pub open spec fn param_kept(param: FnParamView, results: bool, collectors: bool) -> bool {
    (results || !is_result(param)) && (collectors || takes_one(param))
}

/// See [`param_kept`].
pub fn is_kept(param: &FnParam, results: bool, collectors: bool) -> (r: bool)
    ensures
        r == param_kept(param@, results, collectors),
{
    proof { reveal(param_kept); }
    (results || !is_out(param)) && (collectors || is_regular(param))
}

pub open spec fn names_kept(
    params: Seq<FnParamView>,
    results: bool,
    collectors: bool,
    i: nat,
    out: Seq<Seq<char>>,
) -> Seq<Seq<char>>
    decreases params, (params.len() - i) as nat,
{
    if i >= params.len() {
        out
    } else {
        let param = params[i as int];
        if param_kept(param, results, collectors) {
            let out = out.push(param.name);
            names_kept(params, results, collectors, i + 1, out)
        } else {
            names_kept(params, results, collectors, i + 1, out)
        }
    }
}

/// See [`names_kept`].
pub fn kept_names(
    params: &Vec<FnParam>,
    results: bool,
    collectors: bool,
    found: Vec<String>,
) -> (r: Vec<String>)
    ensures
        string_list_view(r@) == names_kept(
            fn_param_list_view(params@),
            results,
            collectors,
            0,
            string_list_view(found@),
        ),
    decreases params@, 0nat,
{
    let mut out: Vec<String> = found;
    let ghost goal = names_kept(
        fn_param_list_view(params@),
        results,
        collectors,
        0,
        string_list_view(found@),
    );
    let mut i: usize = 0;
    while i < params.len()
        invariant
            i <= params@.len(),
            fn_param_list_view(params@).len() == params@.len(),
            names_kept(
                fn_param_list_view(params@),
                results,
                collectors,
                i as nat,
                string_list_view(out@),
            ) == goal,
            goal == names_kept(
                fn_param_list_view(params@),
                results,
                collectors,
                0,
                string_list_view(found@),
            ),
        decreases params@.len() - i,
    {
        let param = &params[i];
        assert(fn_param_list_view(params@)[i as int] == param@);
        if is_kept(param, results, collectors) {
            let item = (&param.name).clone();
            let ghost before = string_list_view(out@);
            let ghost added = item@;
            out.push(item);
            assert(string_list_view(out@) =~= before.push(added));
        }
        i = i + 1;
    }
    out
}

pub open spec fn owned_kept(
    params: Seq<FnParamView>,
    results: bool,
    collectors: bool,
    i: nat,
    out: Seq<bool>,
) -> Seq<bool>
    decreases params, (params.len() - i) as nat,
{
    if i >= params.len() {
        out
    } else {
        let param = params[i as int];
        if param_kept(param, results, collectors) {
            let out = out.push(convention_owns(param.convention));
            owned_kept(params, results, collectors, i + 1, out)
        } else {
            owned_kept(params, results, collectors, i + 1, out)
        }
    }
}

/// See [`owned_kept`].
pub fn kept_owned(
    params: &Vec<FnParam>,
    results: bool,
    collectors: bool,
    found: Vec<bool>,
) -> (r: Vec<bool>)
    ensures
        r@ == owned_kept(fn_param_list_view(params@), results, collectors, 0, found@),
    decreases params@, 0nat,
{
    let mut out: Vec<bool> = found;
    let ghost goal = owned_kept(fn_param_list_view(params@), results, collectors, 0, found@);
    let mut i: usize = 0;
    while i < params.len()
        invariant
            i <= params@.len(),
            fn_param_list_view(params@).len() == params@.len(),
            owned_kept(fn_param_list_view(params@), results, collectors, i as nat, out@) == goal,
            goal == owned_kept(fn_param_list_view(params@), results, collectors, 0, found@),
        decreases params@.len() - i,
    {
        let param = &params[i];
        assert(fn_param_list_view(params@)[i as int] == param@);
        if is_kept(param, results, collectors) {
            out.push(is_owned(&param.convention));
        }
        i = i + 1;
    }
    out
}

pub open spec fn refs_kept(
    params: Seq<FnParamView>,
    results: bool,
    collectors: bool,
    i: nat,
    out: Seq<bool>,
) -> Seq<bool>
    decreases params, (params.len() - i) as nat,
{
    if i >= params.len() {
        out
    } else {
        let param = params[i as int];
        if param_kept(param, results, collectors) {
            let out = out.push(convention_writes(param.convention));
            refs_kept(params, results, collectors, i + 1, out)
        } else {
            refs_kept(params, results, collectors, i + 1, out)
        }
    }
}

/// See [`refs_kept`].
pub fn kept_refs(
    params: &Vec<FnParam>,
    results: bool,
    collectors: bool,
    found: Vec<bool>,
) -> (r: Vec<bool>)
    ensures
        r@ == refs_kept(fn_param_list_view(params@), results, collectors, 0, found@),
    decreases params@, 0nat,
{
    let mut out: Vec<bool> = found;
    let ghost goal = refs_kept(fn_param_list_view(params@), results, collectors, 0, found@);
    let mut i: usize = 0;
    while i < params.len()
        invariant
            i <= params@.len(),
            fn_param_list_view(params@).len() == params@.len(),
            refs_kept(fn_param_list_view(params@), results, collectors, i as nat, out@) == goal,
            goal == refs_kept(fn_param_list_view(params@), results, collectors, 0, found@),
        decreases params@.len() - i,
    {
        let param = &params[i];
        assert(fn_param_list_view(params@)[i as int] == param@);
        if is_kept(param, results, collectors) {
            out.push(is_ref(&param.convention));
        }
        i = i + 1;
    }
    out
}

pub open spec fn required_kept(params: Seq<FnParamView>, i: nat, out: Seq<bool>) -> Seq<bool>
    decreases params, (params.len() - i) as nat,
{
    if i >= params.len() {
        out
    } else {
        let param = params[i as int];
        if param_kept(param, false, false) {
            let out = out.push(param.default is None);
            required_kept(params, i + 1, out)
        } else {
            required_kept(params, i + 1, out)
        }
    }
}

/// See [`required_kept`].
pub fn kept_required(params: &Vec<FnParam>) -> (r: Vec<bool>)
    ensures
        r@ == required_kept(fn_param_list_view(params@), 0, Seq::<bool>::empty()),
    decreases params@, 0nat,
{
    let mut out: Vec<bool> = Vec::new();
    let ghost goal = required_kept(fn_param_list_view(params@), 0, Seq::<bool>::empty());
    let mut i: usize = 0;
    while i < params.len()
        invariant
            i <= params@.len(),
            fn_param_list_view(params@).len() == params@.len(),
            required_kept(fn_param_list_view(params@), i as nat, out@) == goal,
            goal == required_kept(fn_param_list_view(params@), 0, Seq::<bool>::empty()),
        decreases params@.len() - i,
    {
        let param = &params[i];
        assert(fn_param_list_view(params@)[i as int] == param@);
        if is_kept(param, false, false) {
            out.push(param.default.is_none());
        }
        i = i + 1;
    }
    out
}

pub open spec fn defaults_kept(
    params: Seq<FnParamView>,
    i: nat,
    out: Seq<Option<CheckedConstView>>,
) -> Seq<Option<CheckedConstView>>
    decreases params, (params.len() - i) as nat,
{
    if i >= params.len() {
        out
    } else {
        let param = params[i as int];
        if param_kept(param, false, false) {
            let out = out.push(const_of_default(param.default));
            defaults_kept(params, i + 1, out)
        } else {
            defaults_kept(params, i + 1, out)
        }
    }
}

/// See [`defaults_kept`].
pub fn kept_defaults(params: &Vec<FnParam>) -> (r: Vec<Option<CheckedConst>>)
    ensures
        opt_const_list_view(r@) == defaults_kept(
            fn_param_list_view(params@),
            0,
            Seq::<Option<CheckedConstView>>::empty(),
        ),
    decreases params@, 0nat,
{
    let mut out: Vec<Option<CheckedConst>> = Vec::new();
    assert(opt_const_list_view(out@) =~= Seq::<Option<CheckedConstView>>::empty());
    let ghost goal = defaults_kept(
        fn_param_list_view(params@),
        0,
        Seq::<Option<CheckedConstView>>::empty(),
    );
    let mut i: usize = 0;
    while i < params.len()
        invariant
            i <= params@.len(),
            fn_param_list_view(params@).len() == params@.len(),
            defaults_kept(fn_param_list_view(params@), i as nat, opt_const_list_view(out@)) == goal,
            goal == defaults_kept(
                fn_param_list_view(params@),
                0,
                Seq::<Option<CheckedConstView>>::empty(),
            ),
        decreases params@.len() - i,
    {
        let param = &params[i];
        assert(fn_param_list_view(params@)[i as int] == param@);
        if is_kept(param, false, false) {
            let item = default_const(&param.default);
            let ghost before = opt_const_list_view(out@);
            let ghost added = opt_view(item);
            out.push(item);
            assert(opt_const_list_view(out@) =~= before.push(added));
        }
        i = i + 1;
    }
    out
}

#[verifier::opaque]
pub open spec fn const_of_default(default: Option<ExprView>) -> Option<CheckedConstView> {
    match default {
        Some(value) => const_of(value),
        None => None,
    }
}

/// See [`const_of_default`].
pub fn default_const(default: &Option<Expr>) -> (r: Option<CheckedConst>)
    ensures
        opt_view(r) == const_of_default(opt_view(*default)),
{
    proof { reveal(const_of_default); }
    match default {
        Some(value) => const_from_expr(value),
        None => None,
    }
}

/// The constant a literal stands for.
#[verifier::opaque]
pub open spec fn const_of(value: ExprView) -> Option<CheckedConstView> {
    match value.kind {
        ExprKindView::Int(n) => Some(CheckedConstView::Int(n)),
        ExprKindView::Float(bits) => Some(CheckedConstView::Float(bits)),
        ExprKindView::Bool(b) => Some(CheckedConstView::Bool(b)),
        ExprKindView::Str(text) => Some(CheckedConstView::Str(text)),
        ExprKindView::NoneLit => Some(CheckedConstView::NoneValue),
        _ => None,
    }
}

/// See [`const_of`].
pub fn const_from_expr(value: &Expr) -> (r: Option<CheckedConst>)
    ensures
        opt_view(r) == const_of(value@),
{
    proof { reveal(const_of); }
    proof { unfold_expr_kind(value.kind); }
    match &value.kind {
        ExprKind::Int(n) => Some(CheckedConst::Int(*n)),
        ExprKind::Float(bits) => Some(CheckedConst::Float(*bits)),
        ExprKind::Bool(b) => Some(CheckedConst::Bool(*b)),
        ExprKind::Str(text) => Some(CheckedConst::Str(text.clone())),
        ExprKind::NoneLit => Some(CheckedConst::NoneValue),
        _ => {
            assert(!(value.kind@ is Int));
            assert(!(value.kind@ is Float));
            assert(!(value.kind@ is Bool));
            assert(!(value.kind@ is Str));
            assert(!(value.kind@ is NoneLit));
            None
        },
    }
}

/// The position of the first `*args` parameter.
pub open spec fn first_variadic(params: Seq<FnParamView>, i: nat, k: usize) -> Option<usize>
    decreases params, (params.len() - i) as nat,
{
    if i >= params.len() {
        None
    } else {
        let param = params[i as int];
        match param.kind {
            ParamKind::Variadic => Some(k),
            _ => {
                let k = following_index(k);
                first_variadic(params, i + 1, k)
            },
        }
    }
}

/// See [`first_variadic`].
pub fn variadic_position(params: &Vec<FnParam>) -> (r: Option<usize>)
    ensures
        r == first_variadic(fn_param_list_view(params@), 0, 0),
    decreases params@, 0nat,
{
    let mut k: usize = 0;
    let ghost goal = first_variadic(fn_param_list_view(params@), 0, 0);
    let mut i: usize = 0;
    while i < params.len()
        invariant
            i <= params@.len(),
            fn_param_list_view(params@).len() == params@.len(),
            first_variadic(fn_param_list_view(params@), i as nat, k) == goal,
            goal == first_variadic(fn_param_list_view(params@), 0, 0),
        decreases params@.len() - i,
    {
        let param = &params[i];
        assert(fn_param_list_view(params@)[i as int] == param@);
        match param.kind {
            ParamKind::Variadic => {
                return Some(k);
            },
            _ => {},
        }
        k = next_index(k);
        i = i + 1;
    }
    None
}

/// The position of the first `**kwargs` parameter.
pub open spec fn first_kw_variadic(params: Seq<FnParamView>, i: nat, k: usize) -> Option<usize>
    decreases params, (params.len() - i) as nat,
{
    if i >= params.len() {
        None
    } else {
        let param = params[i as int];
        match param.kind {
            ParamKind::KwVariadic => Some(k),
            _ => {
                let k = following_index(k);
                first_kw_variadic(params, i + 1, k)
            },
        }
    }
}

/// See [`first_kw_variadic`].
pub fn kw_variadic_position(params: &Vec<FnParam>) -> (r: Option<usize>)
    ensures
        r == first_kw_variadic(fn_param_list_view(params@), 0, 0),
    decreases params@, 0nat,
{
    let mut k: usize = 0;
    let ghost goal = first_kw_variadic(fn_param_list_view(params@), 0, 0);
    let mut i: usize = 0;
    while i < params.len()
        invariant
            i <= params@.len(),
            fn_param_list_view(params@).len() == params@.len(),
            first_kw_variadic(fn_param_list_view(params@), i as nat, k) == goal,
            goal == first_kw_variadic(fn_param_list_view(params@), 0, 0),
        decreases params@.len() - i,
    {
        let param = &params[i];
        assert(fn_param_list_view(params@)[i as int] == param@);
        match param.kind {
            ParamKind::KwVariadic => {
                return Some(k);
            },
            _ => {},
        }
        k = next_index(k);
        i = i + 1;
    }
    None
}

#[verifier::opaque]
pub open spec fn collects_keywords(param: FnParamView) -> bool {
    match param.kind {
        ParamKind::KwVariadic => true,
        _ => false,
    }
}

/// See [`collects_keywords`].
pub fn is_kw_variadic(param: &FnParam) -> (r: bool)
    ensures
        r == collects_keywords(param@),
{
    proof { reveal(collects_keywords); }
    match param.kind {
        ParamKind::KwVariadic => true,
        _ => false,
    }
}

/// How many parameters before a position take a place in the frame: all but named
/// results and `**kwargs`.
pub open spec fn places_before(
    params: Seq<FnParamView>,
    position: usize,
    i: nat,
    count: usize,
    k: usize,
) -> usize
    decreases params, (params.len() - i) as nat,
{
    if i >= params.len() {
        count
    } else {
        let param = params[i as int];
        if k >= position {
            count
        } else {
            let count = if !is_result(param) && !collects_keywords(param) {
                let count = following_index(count);
                count
            } else {
                count
            };
            let k = following_index(k);
            places_before(params, position, i + 1, count, k)
        }
    }
}

/// See [`places_before`].
pub fn frame_places(params: &Vec<FnParam>, position: usize) -> (r: usize)
    ensures
        r == places_before(fn_param_list_view(params@), position, 0, 0, 0),
    decreases params@, 0nat,
{
    let mut count: usize = 0;
    let mut k: usize = 0;
    let ghost goal = places_before(fn_param_list_view(params@), position, 0, 0, 0);
    let mut i: usize = 0;
    while i < params.len()
        invariant
            i <= params@.len(),
            fn_param_list_view(params@).len() == params@.len(),
            places_before(fn_param_list_view(params@), position, i as nat, count, k) == goal,
            goal == places_before(fn_param_list_view(params@), position, 0, 0, 0),
        decreases params@.len() - i,
    {
        let param = &params[i];
        assert(fn_param_list_view(params@)[i as int] == param@);
        if k >= position {
            return count;
        }
        if !is_out(param) && !is_kw_variadic(param) {
            count = next_index(count);
        }
        k = next_index(k);
        i = i + 1;
    }
    count
}

/// How many regular parameters that callers pass stand before a position.
pub open spec fn regulars_before(
    params: Seq<FnParamView>,
    position: usize,
    i: nat,
    count: usize,
    k: usize,
) -> usize
    decreases params, (params.len() - i) as nat,
{
    if i >= params.len() {
        count
    } else {
        let param = params[i as int];
        if k >= position {
            count
        } else {
            let count = if param_kept(param, false, false) {
                let count = following_index(count);
                count
            } else {
                count
            };
            let k = following_index(k);
            regulars_before(params, position, i + 1, count, k)
        }
    }
}

/// See [`regulars_before`].
pub fn regular_places(params: &Vec<FnParam>, position: usize) -> (r: usize)
    ensures
        r == regulars_before(fn_param_list_view(params@), position, 0, 0, 0),
    decreases params@, 0nat,
{
    let mut count: usize = 0;
    let mut k: usize = 0;
    let ghost goal = regulars_before(fn_param_list_view(params@), position, 0, 0, 0);
    let mut i: usize = 0;
    while i < params.len()
        invariant
            i <= params@.len(),
            fn_param_list_view(params@).len() == params@.len(),
            regulars_before(fn_param_list_view(params@), position, i as nat, count, k) == goal,
            goal == regulars_before(fn_param_list_view(params@), position, 0, 0, 0),
        decreases params@.len() - i,
    {
        let param = &params[i];
        assert(fn_param_list_view(params@)[i as int] == param@);
        if k >= position {
            return count;
        }
        if is_kept(param, false, false) {
            count = next_index(count);
        }
        k = next_index(k);
        i = i + 1;
    }
    count
}

/// A marker among the parameters as a position in the frame. A named result takes
/// no place there, a collector does.
#[verifier::opaque]
pub open spec fn frame_index(params: Seq<FnParamView>, marker: Option<usize>) -> Option<usize> {
    match marker {
        Some(position) => Some(places_before(params, position, 0, 0, 0)),
        None => None,
    }
}

/// See [`frame_index`].
pub fn runtime_parameter_index(
    params: &Vec<FnParam>,
    marker: Option<usize>,
) -> (r: Option<usize>)
    ensures
        r == frame_index(fn_param_list_view(params@), marker),
{
    proof { reveal(frame_index); }
    match marker {
        Some(position) => Some(frame_places(params, position)),
        None => None,
    }
}

/// Where `*args` is put among the arguments that come in.
#[verifier::opaque]
pub open spec fn variadic_index(
    params: Seq<FnParamView>,
    marker: Option<usize>,
) -> Option<usize> {
    match marker {
        Some(position) => Some(regulars_before(params, position, 0, 0, 0)),
        None => None,
    }
}

/// See [`variadic_index`].
pub fn runtime_variadic_index(
    params: &Vec<FnParam>,
    marker: Option<usize>,
) -> (r: Option<usize>)
    ensures
        r == variadic_index(fn_param_list_view(params@), marker),
{
    proof { reveal(variadic_index); }
    match marker {
        Some(position) => Some(regular_places(params, position)),
        None => None,
    }
}

/// A marker among the parameters as a position among the regular ones.
#[verifier::opaque]
pub open spec fn regular_index(params: Seq<FnParamView>, marker: Option<usize>) -> Option<usize> {
    match marker {
        Some(position) => Some(regulars_before(params, position, 0, 0, 0)),
        None => None,
    }
}

/// See [`regular_index`].
pub fn regular_marker_index(params: &Vec<FnParam>, marker: Option<usize>) -> (r: Option<usize>)
    ensures
        r == regular_index(fn_param_list_view(params@), marker),
{
    proof { reveal(regular_index); }
    match marker {
        Some(position) => Some(regular_places(params, position)),
        None => None,
    }
}

/// Where the keyword-only parameters begin: at their marker, or behind `*args`.
#[verifier::opaque]
pub open spec fn keyword_index(
    params: Seq<FnParamView>,
    marker: Option<usize>,
    variadic: Option<usize>,
) -> Option<usize> {
    match marker {
        Some(position) => Some(regulars_before(params, position, 0, 0, 0)),
        None => regular_index(params, variadic),
    }
}

/// See [`keyword_index`].
pub fn effective_keyword_only_index(
    params: &Vec<FnParam>,
    marker: Option<usize>,
    variadic: Option<usize>,
) -> (r: Option<usize>)
    ensures
        r == keyword_index(fn_param_list_view(params@), marker, variadic),
{
    proof { reveal(keyword_index); }
    match marker {
        Some(position) => Some(regular_places(params, position)),
        None => regular_marker_index(params, variadic),
    }
}

#[verifier::opaque]
pub open spec fn names_scalar(name: Seq<char>) -> bool {
    name == "Int"@ || name == "UInt"@ || name == "Bool"@ || name == "String"@ || name == "Float64"@
}

/// See [`names_scalar`].
pub fn is_scalar_name(name: &String) -> (r: bool)
    ensures
        r == names_scalar(name@),
{
    proof { reveal(names_scalar); }
    same_text(name.as_str(), "Int") || same_text(name.as_str(), "UInt") || same_text(name.as_str(), "Bool") || same_text(name.as_str(), "String") || same_text(
        name.as_str(),
        "Float64",
    )
}

/// The compile-time parameters, each with whether it is a value: a single bound
/// that names a scalar type makes it one.
pub open spec fn classified(
    params: Seq<TypeParamView>,
    i: nat,
    out: Seq<(Seq<char>, bool)>,
) -> Seq<(Seq<char>, bool)>
    decreases params, (params.len() - i) as nat,
{
    if i >= params.len() {
        out
    } else {
        let param = params[i as int];
        let is_value = param.bounds.len() == 1 && names_scalar(param.bounds[0]);
        let out = out.push((param.name, is_value));
        classified(params, i + 1, out)
    }
}

/// See [`classified`].
pub fn classify_param_decls(params: &Vec<TypeParam>) -> (r: Vec<(String, bool)>)
    ensures
        flagged_name_list_view(r@) == classified(
            type_param_list_view(params@),
            0,
            Seq::<(Seq<char>, bool)>::empty(),
        ),
    decreases params@, 0nat,
{
    let mut out: Vec<(String, bool)> = Vec::new();
    assert(flagged_name_list_view(out@) =~= Seq::<(Seq<char>, bool)>::empty());
    let ghost goal = classified(
        type_param_list_view(params@),
        0,
        Seq::<(Seq<char>, bool)>::empty(),
    );
    let mut i: usize = 0;
    while i < params.len()
        invariant
            i <= params@.len(),
            type_param_list_view(params@).len() == params@.len(),
            classified(
                type_param_list_view(params@),
                i as nat,
                flagged_name_list_view(out@),
            ) == goal,
            goal == classified(type_param_list_view(params@), 0, Seq::<(Seq<char>, bool)>::empty()),
        decreases params@.len() - i,
    {
        let param = &params[i];
        assert(type_param_list_view(params@)[i as int] == param@);
        let is_value = param.bounds.len() == 1 && is_scalar_name(&param.bounds[0]);
        let item = ((&param.name).clone(), is_value);
        let ghost before = flagged_name_list_view(out@);
        let ghost added = (item.0@, item.1);
        out.push(item);
        assert(flagged_name_list_view(out@) =~= before.push(added));
        i = i + 1;
    }
    out
}

/// Where the annotation of a parameter stands.
#[verifier::opaque]
pub open spec fn site_of_param(
    stmt: StmtView,
    method: Option<usize>,
    k: usize,
) -> AnnotationSiteView {
    match method {
        Some(method) => AnnotationSiteView::MethodParam {
            module: stmt.module,
            declaration: stmt.span,
            method,
            param: k,
        },
        None => AnnotationSiteView::FunctionParam {
            module: stmt.module,
            declaration: stmt.span,
            param: k,
        },
    }
}

/// See [`site_of_param`].
pub fn param_site(stmt: &Stmt, method: Option<usize>, k: usize) -> (r: AnnotationSite)
    ensures
        r@ == site_of_param(stmt@, method, k),
{
    proof { reveal(site_of_param); }
    match method {
        Some(method) => AnnotationSite::MethodParam {
            module: (match (&stmt.module) { Some(y) => Some(y.clone()), None => None }),
            declaration: stmt.span,
            method,
            param: k,
        },
        None => AnnotationSite::FunctionParam {
            module: (match (&stmt.module) { Some(y) => Some(y.clone()), None => None }),
            declaration: stmt.span,
            param: k,
        },
    }
}

/// The checked type of an annotation. Where there is none, that is recorded.
#[verifier::opaque]
pub open spec fn type_or_record(
    annotations: Seq<AnnotationTypeView>,
    site: AnnotationSiteView,
    description: Seq<char>,
    errors: Seq<Seq<char>>,
) -> (TyView, Seq<Seq<char>>) {
    match type_at_site(annotations, site, 0, None) {
        Some(ty) => (ty, errors),
        None => (TyView::NoneTy, and_error(errors, "missing checked type for "@ + description)),
    }
}

/// See [`type_or_record`].
pub fn checked_type_or_record(
    annotations: &Vec<AnnotationType>,
    site: &AnnotationSite,
    description: &String,
    errors: Vec<String>,
) -> (r: (Ty, Vec<String>))
    ensures
        (r.0@, string_list_view(r.1@)) == type_or_record(
            annotation_type_list_view(annotations@),
            site@,
            description@,
            string_list_view(errors@),
        ),
{
    proof { reveal(type_or_record); }
    match checked_type_at(annotations, site) {
        Some(ty) => (ty, errors),
        None => (Ty::NoneTy, with_error(errors, cat2("missing checked type for ", description.as_str()))),
    }
}

pub open spec fn types_kept(
    params: Seq<FnParamView>,
    results: bool,
    collectors: bool,
    stmt: StmtView,
    method: Option<usize>,
    owner: Seq<char>,
    annotations: Seq<AnnotationTypeView>,
    i: nat,
    types: Seq<TyView>,
    errors: Seq<Seq<char>>,
    k: usize,
) -> (Seq<TyView>, Seq<Seq<char>>)
    decreases params, (params.len() - i) as nat,
{
    if i >= params.len() {
        (types, errors)
    } else {
        let param = params[i as int];
        let (errors, types) = if param_kept(param, results, collectors) {
            let site = site_of_param(stmt, method, k);
            let description = "parameter '"@ + param.name + "' of "@ + owner;
            let (ty, rest) = type_or_record(annotations, site, description, errors);
            let types = types.push(ty);
            let errors = rest;
            (errors, types)
        } else {
            (errors, types)
        };
        let k = following_index(k);
        types_kept(
            params,
            results,
            collectors,
            stmt,
            method,
            owner,
            annotations,
            i + 1,
            types,
            errors,
            k,
        )
    }
}

/// See [`types_kept`].
pub fn kept_types(
    params: &Vec<FnParam>,
    results: bool,
    collectors: bool,
    stmt: &Stmt,
    method: Option<usize>,
    owner: &String,
    annotations: &Vec<AnnotationType>,
    start: Vec<Ty>,
    found: Vec<String>,
) -> (r: (Vec<Ty>, Vec<String>))
    ensures
        (ty_list_view(r.0@), string_list_view(r.1@)) == types_kept(
            fn_param_list_view(params@),
            results,
            collectors,
            stmt@,
            method,
            owner@,
            annotation_type_list_view(annotations@),
            0,
            ty_list_view(start@),
            string_list_view(found@),
            0,
        ),
    decreases params@, 0nat,
{
    let mut types: Vec<Ty> = start;
    let mut errors: Vec<String> = found;
    let mut k: usize = 0;
    let ghost goal = types_kept(
        fn_param_list_view(params@),
        results,
        collectors,
        stmt@,
        method,
        owner@,
        annotation_type_list_view(annotations@),
        0,
        ty_list_view(start@),
        string_list_view(found@),
        0,
    );
    let mut i: usize = 0;
    while i < params.len()
        invariant
            i <= params@.len(),
            fn_param_list_view(params@).len() == params@.len(),
            types_kept(
                fn_param_list_view(params@),
                results,
                collectors,
                stmt@,
                method,
                owner@,
                annotation_type_list_view(annotations@),
                i as nat,
                ty_list_view(types@),
                string_list_view(errors@),
                k,
            ) == goal,
            goal == types_kept(
                fn_param_list_view(params@),
                results,
                collectors,
                stmt@,
                method,
                owner@,
                annotation_type_list_view(annotations@),
                0,
                ty_list_view(start@),
                string_list_view(found@),
                0,
            ),
        decreases params@.len() - i,
    {
        let param = &params[i];
        assert(fn_param_list_view(params@)[i as int] == param@);
        if is_kept(param, results, collectors) {
            let site = param_site(stmt, method, k);
            let description = cat4("parameter '", &param.name.as_str(), "' of ", owner.as_str());
            let (ty, rest) = checked_type_or_record(annotations, &site, &description, errors);
            let ghost before = ty_list_view(types@);
            let ghost added = ty@;
            types.push(ty);
            assert(ty_list_view(types@) =~= before.push(added));
            errors = rest;
        }
        k = next_index(k);
        i = i + 1;
    }
    (types, errors)
}

/// The checked type of a collecting parameter.
#[verifier::opaque]
pub open spec fn type_of_collector(
    position: Option<usize>,
    stmt: StmtView,
    method: Option<usize>,
    description: Seq<char>,
    annotations: Seq<AnnotationTypeView>,
    errors: Seq<Seq<char>>,
) -> (Option<TyView>, Seq<Seq<char>>) {
    match position {
        Some(k) => {
            let site = site_of_param(stmt, method, k);
            let (ty, errors) = type_or_record(annotations, site, description, errors);
            (Some(ty), errors)
        },
        None => (None, errors),
    }
}

/// See [`type_of_collector`].
pub fn collector_type(
    position: Option<usize>,
    stmt: &Stmt,
    method: Option<usize>,
    description: &String,
    annotations: &Vec<AnnotationType>,
    errors: Vec<String>,
) -> (r: (Option<Ty>, Vec<String>))
    ensures
        (opt_view(r.0), string_list_view(r.1@)) == type_of_collector(
            position,
            stmt@,
            method,
            description@,
            annotation_type_list_view(annotations@),
            string_list_view(errors@),
        ),
{
    proof { reveal(type_of_collector); }
    match position {
        Some(k) => {
            let site = param_site(stmt, method, k);
            let (ty, errors) = checked_type_or_record(annotations, &site, description, errors);
            (Some(ty), errors)
        },
        None => (None, errors),
    }
}

/// What execution needs to know of a function or method.
#[verifier::opaque]
pub open spec fn declared_function(
    stmt: StmtView,
    method: Option<usize>,
    owner: Seq<char>,
    lowered: Seq<char>,
    params: Seq<FnParamView>,
    positional_only: Option<usize>,
    keyword_only: Option<usize>,
    param_decls: Seq<(Seq<char>, bool)>,
    annotations: Seq<AnnotationTypeView>,
    errors: Seq<Seq<char>>,
) -> (MirFunctionDeclarationView, Seq<Seq<char>>) {
    let variadic_at = first_variadic(params, 0, 0);
    let kw_variadic_at = first_kw_variadic(params, 0, 0);
    let (types, errors) = types_kept(
        params,
        false,
        false,
        stmt,
        method,
        owner,
        annotations,
        0,
        Seq::empty(),
        errors,
        0,
    );
    let (variadic, errors) = type_of_collector(
        variadic_at,
        stmt,
        method,
        "variadic parameter of "@ + owner,
        annotations,
        errors,
    );
    let (kw_variadic, errors) = type_of_collector(
        kw_variadic_at,
        stmt,
        method,
        "keyword variadic parameter of "@ + owner,
        annotations,
        errors,
    );
    let declaration = MirFunctionDeclarationView {
        lowered_name: lowered,
        param_names: names_kept(params, false, false, 0, Seq::empty()),
        param_types: types,
        ref_params: refs_kept(params, false, false, 0, Seq::empty()),
        defaults: defaults_kept(params, 0, Seq::empty()),
        required: required_kept(params, 0, Seq::empty()),
        variadic,
        variadic_index: variadic_index(params, variadic_at),
        kw_variadic,
        kw_variadic_index: frame_index(params, kw_variadic_at),
        positional_only: regular_index(params, positional_only),
        keyword_only: keyword_index(params, keyword_only, variadic_at),
        param_decls,
    };
    (declaration, errors)
}

/// See [`declared_function`].
pub fn declare(
    stmt: &Stmt,
    method: Option<usize>,
    owner: &String,
    lowered: &String,
    params: &Vec<FnParam>,
    positional_only: Option<usize>,
    keyword_only: Option<usize>,
    param_decls: Vec<(String, bool)>,
    annotations: &Vec<AnnotationType>,
    errors: Vec<String>,
) -> (r: (MirFunctionDeclaration, Vec<String>))
    ensures
        (r.0@, string_list_view(r.1@)) == declared_function(
            stmt@,
            method,
            owner@,
            lowered@,
            fn_param_list_view(params@),
            positional_only,
            keyword_only,
            flagged_name_list_view(param_decls@),
            annotation_type_list_view(annotations@),
            string_list_view(errors@),
        ),
{
    proof { reveal(declared_function); }
    let variadic_at = variadic_position(params);
    let kw_variadic_at = kw_variadic_position(params);
    let list: Vec<Ty> = Vec::new();
    assert(ty_list_view(list@) =~= Seq::<TyView>::empty());
    let (types, errors) = kept_types(
        params,
        false,
        false,
        stmt,
        method,
        owner,
        annotations,
        list,
        errors,
    );
    let (variadic, errors) = collector_type(
        variadic_at,
        stmt,
        method,
        &cat2("variadic parameter of ", owner.as_str()),
        annotations,
        errors,
    );
    let (kw_variadic, errors) = collector_type(
        kw_variadic_at,
        stmt,
        method,
        &cat2("keyword variadic parameter of ", owner.as_str()),
        annotations,
        errors,
    );
    let list2: Vec<String> = Vec::new();
    assert(string_list_view(list2@) =~= Seq::<Seq<char>>::empty());
    let list3: Vec<bool> = Vec::new();
    assert(list3@ =~= Seq::<bool>::empty());
    let declaration2 = MirFunctionDeclaration {
        lowered_name: lowered.clone(),
        param_names: kept_names(params, false, false, list2),
        param_types: types,
        ref_params: kept_refs(params, false, false, list3),
        defaults: kept_defaults(params),
        required: kept_required(params),
        variadic,
        variadic_index: runtime_variadic_index(params, variadic_at),
        kw_variadic,
        kw_variadic_index: runtime_parameter_index(params, kw_variadic_at),
        positional_only: regular_marker_index(params, positional_only),
        keyword_only: effective_keyword_only_index(params, keyword_only, variadic_at),
        param_decls,
    };
    proof { unfold_mir_function_declaration(declaration2); }
    let declaration = declaration2;
    (declaration, errors)
}

#[verifier::opaque]
pub open spec fn index_same(a: Option<usize>, b: Option<usize>) -> bool {
    match a {
        Some(a) => match b {
            Some(b) => a == b,
            None => false,
        },
        None => b is None,
    }
}

/// See [`index_same`].
pub fn same_index(a: Option<usize>, b: Option<usize>) -> (r: bool)
    ensures
        r == index_same(a, b),
{
    proof { reveal(index_same); }
    match a {
        Some(a) => {
            match b {
                Some(b) => a == b,
                None => false,
            }
        },
        None => b.is_none(),
    }
}

#[verifier::opaque]
pub open spec fn module_same(a: Option<Seq<char>>, b: Option<Seq<char>>) -> bool {
    match a {
        Some(a) => match b {
            Some(b) => a == b,
            None => false,
        },
        None => b is None,
    }
}

/// See [`module_same`].
pub fn same_module(a: &Option<String>, b: &Option<String>) -> (r: bool)
    ensures
        r == module_same(opt_view(*a), opt_view(*b)),
{
    proof { reveal(module_same); }
    match a {
        Some(a) => {
            match b {
                Some(b) => same_string(a, b),
                None => false,
            }
        },
        None => b.is_none(),
    }
}

/// The name a declaration is lowered under; `source` when none is recorded.
pub open spec fn name_lowered(
    names: Seq<LoweredNameView>,
    stmt: StmtView,
    method: Option<usize>,
    source: Seq<char>,
    i: nat,
) -> Seq<char>
    decreases names, (names.len() - i) as nat,
{
    if i >= names.len() {
        source
    } else {
        let entry = names[i as int];
        if module_same(
            entry.module,
            stmt.module,
        ) && entry.declaration.0 == stmt.span.0 && entry.declaration.1 == stmt.span.1 && index_same(
            entry.method,
            method,
        ) {
            entry.name
        } else {
            name_lowered(names, stmt, method, source, i + 1)
        }
    }
}

/// See [`name_lowered`].
pub fn lowered_name(
    names: &Vec<LoweredName>,
    stmt: &Stmt,
    method: Option<usize>,
    source: &String,
) -> (r: String)
    ensures
        r@ == name_lowered(lowered_name_list_view(names@), stmt@, method, source@, 0),
    decreases names@, 0nat,
{
    let ghost goal = name_lowered(lowered_name_list_view(names@), stmt@, method, source@, 0);
    let mut i: usize = 0;
    while i < names.len()
        invariant
            i <= names@.len(),
            lowered_name_list_view(names@).len() == names@.len(),
            name_lowered(lowered_name_list_view(names@), stmt@, method, source@, i as nat) == goal,
            goal == name_lowered(lowered_name_list_view(names@), stmt@, method, source@, 0),
        decreases names@.len() - i,
    {
        let entry = &names[i];
        assert(lowered_name_list_view(names@)[i as int] == entry@);
        if same_module(
            &entry.module,
            &stmt.module,
        ) && entry.declaration.0 == stmt.span.0 && entry.declaration.1 == stmt.span.1 && same_index(
            entry.method,
            method,
        ) {
            return (&entry.name).clone();
        }
        i = i + 1;
    }
    source.clone()
}

#[verifier::opaque]
pub open spec fn gives_reference(ret: Option<TypeView>) -> bool {
    match ret {
        Some(ret) => match ret {
            TypeView::Ref { .. } => true,
            _ => false,
        },
        None => false,
    }
}

/// See [`gives_reference`].
pub fn returns_ref(ret: &Option<Type>) -> (r: bool)
    ensures
        r == gives_reference(opt_view(*ret)),
{
    proof { reveal(gives_reference); }
    match ret {
        Some(ret) => {
            proof { unfold_type(*ret); }
            match ret {
                Type::Ref { .. } => true,
                _ => {
                    assert(!(ret@ is Ref));
                    false
                },
            }
        },
        None => false,
    }
}

/// The named result of a function comes behind the parameters.
pub open spec fn and_result(
    params: Seq<FnParamView>,
    i: nat,
    out: Seq<Seq<char>>,
) -> Seq<Seq<char>>
    decreases params, (params.len() - i) as nat,
{
    if i >= params.len() {
        out
    } else {
        let param = params[i as int];
        if is_result(param) {
            let out = out.push(param.name);
            out
        } else {
            and_result(params, i + 1, out)
        }
    }
}

/// See [`and_result`].
pub fn with_result(params: &Vec<FnParam>, names: Vec<String>) -> (r: Vec<String>)
    ensures
        string_list_view(r@) == and_result(
            fn_param_list_view(params@),
            0,
            string_list_view(names@),
        ),
    decreases params@, 0nat,
{
    let mut out: Vec<String> = names;
    let ghost goal = and_result(fn_param_list_view(params@), 0, string_list_view(names@));
    let mut i: usize = 0;
    while i < params.len()
        invariant
            i <= params@.len(),
            fn_param_list_view(params@).len() == params@.len(),
            and_result(fn_param_list_view(params@), i as nat, string_list_view(out@)) == goal,
            goal == and_result(fn_param_list_view(params@), 0, string_list_view(names@)),
        decreases params@.len() - i,
    {
        let param = &params[i];
        assert(fn_param_list_view(params@)[i as int] == param@);
        if is_out(param) {
            let item = (&param.name).clone();
            let ghost before = string_list_view(out@);
            let ghost added = item@;
            out.push(item);
            assert(string_list_view(out@) =~= before.push(added));
            return out;
        }
        i = i + 1;
    }
    out
}

pub open spec fn types_of_fields(
    fields: Seq<ParamView>,
    stmt: StmtView,
    name: Seq<char>,
    annotations: Seq<AnnotationTypeView>,
    i: nat,
    types: Seq<(Seq<char>, TyView)>,
    errors: Seq<Seq<char>>,
    k: usize,
) -> (Seq<(Seq<char>, TyView)>, Seq<Seq<char>>)
    decreases fields, (fields.len() - i) as nat,
{
    if i >= fields.len() {
        (types, errors)
    } else {
        let field = fields[i as int];
        let site = AnnotationSiteView::StructField {
            module: stmt.module,
            declaration: stmt.span,
            field: k,
        };
        let description = "field '"@ + field.name + "' of struct '"@ + name + "'"@;
        let (ty, rest) = type_or_record(annotations, site, description, errors);
        let types = types.push((field.name, ty));
        let errors = rest;
        let k = following_index(k);
        types_of_fields(fields, stmt, name, annotations, i + 1, types, errors, k)
    }
}

/// See [`types_of_fields`].
pub fn field_types(
    fields: &Vec<Param>,
    stmt: &Stmt,
    name: &String,
    annotations: &Vec<AnnotationType>,
    found: Vec<String>,
) -> (r: (Vec<(String, Ty)>, Vec<String>))
    ensures
        (named_ty_list_view(r.0@), string_list_view(r.1@)) == types_of_fields(
            param_list_view(fields@),
            stmt@,
            name@,
            annotation_type_list_view(annotations@),
            0,
            Seq::<(Seq<char>, TyView)>::empty(),
            string_list_view(found@),
            0,
        ),
    decreases fields@, 0nat,
{
    let mut types: Vec<(String, Ty)> = Vec::new();
    assert(named_ty_list_view(types@) =~= Seq::<(Seq<char>, TyView)>::empty());
    let mut errors: Vec<String> = found;
    let mut k: usize = 0;
    let ghost goal = types_of_fields(
        param_list_view(fields@),
        stmt@,
        name@,
        annotation_type_list_view(annotations@),
        0,
        Seq::<(Seq<char>, TyView)>::empty(),
        string_list_view(found@),
        0,
    );
    let mut i: usize = 0;
    while i < fields.len()
        invariant
            i <= fields@.len(),
            param_list_view(fields@).len() == fields@.len(),
            types_of_fields(
                param_list_view(fields@),
                stmt@,
                name@,
                annotation_type_list_view(annotations@),
                i as nat,
                named_ty_list_view(types@),
                string_list_view(errors@),
                k,
            ) == goal,
            goal == types_of_fields(
                param_list_view(fields@),
                stmt@,
                name@,
                annotation_type_list_view(annotations@),
                0,
                Seq::<(Seq<char>, TyView)>::empty(),
                string_list_view(found@),
                0,
            ),
        decreases fields@.len() - i,
    {
        let field = &fields[i];
        assert(param_list_view(fields@)[i as int] == field@);
        let site = AnnotationSite::StructField {
            module: (match (&stmt.module) { Some(y) => Some(y.clone()), None => None }),
            declaration: stmt.span,
            field: k,
        };
        let description = cat5("field '", &field.name.as_str(), "' of struct '", name.as_str(), "'");
        let (ty, rest) = checked_type_or_record(annotations, &site, &description, errors);
        let item = ((&field.name).clone(), ty);
        let ghost before = named_ty_list_view(types@);
        let ghost added = (item.0@, item.1@);
        types.push(item);
        assert(named_ty_list_view(types@) =~= before.push(added));
        errors = rest;
        k = next_index(k);
        i = i + 1;
    }
    (types, errors)
}

#[verifier::opaque]
pub open spec fn method_in_source(name: Seq<char>, method: MethodView) -> Seq<char> {
    name + "."@ + method.name
}

/// See [`method_in_source`].
pub fn source_method_name(name: &String, method: &Method) -> (r: String)
    ensures
        r@ == method_in_source(name@, method@),
{
    proof { reveal(method_in_source); }
    cat3(name.as_str(), ".", &method.name.as_str())
}

/// The methods that write to their receiver: those lowered under their own name by
/// that name, the others by the name they are lowered under.
pub open spec fn methods_writing(
    methods: Seq<MethodView>,
    stmt: StmtView,
    name: Seq<char>,
    names: Seq<LoweredNameView>,
    i: nat,
    out: Seq<Seq<char>>,
    k: usize,
) -> Seq<Seq<char>>
    decreases methods, (methods.len() - i) as nat,
{
    if i >= methods.len() {
        out
    } else {
        let method = methods[i as int];
        let out = if convention_writes(method.self_convention) {
            let source = method_in_source(name, method);
            let lowered = name_lowered(names, stmt, Some(k), source, 0);
            if lowered == source {
                let out = out.push(method.name);
                out
            } else {
                let out = out.push(lowered);
                out
            }
        } else {
            out
        };
        let k = following_index(k);
        methods_writing(methods, stmt, name, names, i + 1, out, k)
    }
}

/// See [`methods_writing`].
pub fn writing_methods(
    methods: &Vec<Method>,
    stmt: &Stmt,
    name: &String,
    names: &Vec<LoweredName>,
) -> (r: Vec<String>)
    ensures
        string_list_view(r@) == methods_writing(
            method_list_view(methods@),
            stmt@,
            name@,
            lowered_name_list_view(names@),
            0,
            Seq::<Seq<char>>::empty(),
            0,
        ),
    decreases methods@, 0nat,
{
    let mut out: Vec<String> = Vec::new();
    assert(string_list_view(out@) =~= Seq::<Seq<char>>::empty());
    let mut k: usize = 0;
    let ghost goal = methods_writing(
        method_list_view(methods@),
        stmt@,
        name@,
        lowered_name_list_view(names@),
        0,
        Seq::<Seq<char>>::empty(),
        0,
    );
    let mut i: usize = 0;
    while i < methods.len()
        invariant
            i <= methods@.len(),
            method_list_view(methods@).len() == methods@.len(),
            methods_writing(
                method_list_view(methods@),
                stmt@,
                name@,
                lowered_name_list_view(names@),
                i as nat,
                string_list_view(out@),
                k,
            ) == goal,
            goal == methods_writing(
                method_list_view(methods@),
                stmt@,
                name@,
                lowered_name_list_view(names@),
                0,
                Seq::<Seq<char>>::empty(),
                0,
            ),
        decreases methods@.len() - i,
    {
        let method = &methods[i];
        assert(method_list_view(methods@)[i as int] == method@);
        if is_ref(&method.self_convention) {
            let source = source_method_name(name, method);
            let lowered = lowered_name(names, stmt, Some(k), &source);
            if same_string(&lowered, &source) {
                let item = (&method.name).clone();
                let ghost before = string_list_view(out@);
                let ghost added = item@;
                out.push(item);
                assert(string_list_view(out@) =~= before.push(added));
            } else {
                let ghost before2 = string_list_view(out@);
                let ghost added2 = lowered@;
                out.push(lowered);
                assert(string_list_view(out@) =~= before2.push(added2));
            }
        }
        k = next_index(k);
        i = i + 1;
    }
    out
}

pub open spec fn facts_of_destroy(
    entries: Seq<ExplicitDestroyView>,
    name: Seq<char>,
    i: nat,
    out: Option<ExplicitDestroyView>,
) -> Option<ExplicitDestroyView>
    decreases entries, (entries.len() - i) as nat,
{
    if i >= entries.len() {
        out
    } else {
        let entry = entries[i as int];
        if entry.name == name {
            let out = Some(entry);
            facts_of_destroy(entries, name, i + 1, out)
        } else {
            facts_of_destroy(entries, name, i + 1, out)
        }
    }
}

/// See [`facts_of_destroy`].
pub fn destroy_facts(
    entries: &Vec<ExplicitDestroy>,
    name: &String,
) -> (r: Option<ExplicitDestroy>)
    ensures
        opt_view(r) == facts_of_destroy(explicit_destroy_list_view(entries@), name@, 0, None),
    decreases entries@, 0nat,
{
    let mut out: Option<ExplicitDestroy> = None;
    let ghost goal = facts_of_destroy(explicit_destroy_list_view(entries@), name@, 0, None);
    let mut i: usize = 0;
    while i < entries.len()
        invariant
            i <= entries@.len(),
            explicit_destroy_list_view(entries@).len() == entries@.len(),
            facts_of_destroy(
                explicit_destroy_list_view(entries@),
                name@,
                i as nat,
                opt_view(out),
            ) == goal,
            goal == facts_of_destroy(explicit_destroy_list_view(entries@), name@, 0, None),
        decreases entries@.len() - i,
    {
        let entry = &entries[i];
        assert(explicit_destroy_list_view(entries@)[i as int] == entry@);
        if same_string(&entry.name, name) {
            out = Some(clone_explicit_destroy(entry));
        }
        i = i + 1;
    }
    out
}

#[verifier::opaque]
pub open spec fn message_of_destroy(facts: Option<ExplicitDestroyView>) -> Option<Seq<char>> {
    match facts {
        Some(facts) => Some(facts.message),
        None => None,
    }
}

/// See [`message_of_destroy`].
pub fn destroy_message(facts: &Option<ExplicitDestroy>) -> (r: Option<String>)
    ensures
        opt_view(r) == message_of_destroy(opt_view(*facts)),
{
    proof { reveal(message_of_destroy); }
    match facts {
        Some(facts) => Some((&facts.message).clone()),
        None => None,
    }
}

#[verifier::opaque]
pub open spec fn destructors_of(facts: Option<ExplicitDestroyView>) -> Seq<(Seq<char>, bool)> {
    match facts {
        Some(facts) => facts.destructors,
        None => Seq::empty(),
    }
}

/// See [`destructors_of`].
pub fn destructors(facts: &Option<ExplicitDestroy>) -> (r: Vec<(String, bool)>)
    ensures
        flagged_name_list_view(r@) == destructors_of(opt_view(*facts)),
{
    proof { reveal(destructors_of); }
    match facts {
        Some(facts) => clone_flagged_name_list(&facts.destructors),
        None => {
            let list: Vec<(String, bool)> = Vec::new();
            assert(flagged_name_list_view(list@) =~= Seq::<(Seq<char>, bool)>::empty());
            list
        },
    }
}

#[verifier::opaque]
pub open spec fn names_with_self(method: MethodView) -> Seq<Seq<char>> {
    if method.has_self {
        seq!["self"@]
    } else {
        Seq::empty()
    }
}

/// See [`names_with_self`].
pub fn receiver_names(method: &Method) -> (r: Vec<String>)
    ensures
        string_list_view(r@) == names_with_self(method@),
{
    proof { reveal(names_with_self); }
    if method.has_self {
        let item = "self".to_owned();
        let ghost seen = item@;
        let list = vec![item];
        assert(string_list_view(list@) =~= seq![seen]);
        list
    } else {
        let list2: Vec<String> = Vec::new();
        assert(string_list_view(list2@) =~= Seq::<Seq<char>>::empty());
        list2
    }
}

#[verifier::opaque]
pub open spec fn types_with_self(method: MethodView, name: Seq<char>) -> Seq<TyView> {
    if method.has_self {
        seq![TyView::Struct(name, Seq::empty())]
    } else {
        Seq::empty()
    }
}

/// See [`types_with_self`].
pub fn receiver_types(method: &Method, name: &String) -> (r: Vec<Ty>)
    ensures
        ty_list_view(r@) == types_with_self(method@, name@),
{
    proof { reveal(types_with_self); }
    if method.has_self {
        let list: Vec<TyArg> = Vec::new();
        assert(ty_arg_list_view(list@) =~= Seq::<TyArgView>::empty());
        let ty = Ty::Struct(name.clone(), list);
        proof { unfold_ty(ty); }
        let list2: Vec<TyArg> = Vec::new();
        assert(ty_arg_list_view(list2@) =~= Seq::<TyArgView>::empty());
        let ty2 = Ty::Struct(name.clone(), list2);
        proof { unfold_ty(ty2); }
        let ghost seen = ty2@;
        let list3 = vec![ty2];
        assert(ty_list_view(list3@) =~= seq![seen]);
        list3
    } else {
        let list4: Vec<Ty> = Vec::new();
        assert(ty_list_view(list4@) =~= Seq::<TyView>::empty());
        list4
    }
}

#[verifier::opaque]
pub open spec fn flags_with_self(method: MethodView, flag: bool) -> Seq<bool> {
    if method.has_self {
        seq![flag]
    } else {
        Seq::empty()
    }
}

/// See [`flags_with_self`].
pub fn receiver_flags(method: &Method, flag: bool) -> (r: Vec<bool>)
    ensures
        r@ == flags_with_self(method@, flag),
{
    proof { reveal(flags_with_self); }
    if method.has_self {
        let ghost seen = flag;
        let list = vec![flag];
        assert(list@ =~= seq![seen]);
        list
    } else {
        let list2: Vec<bool> = Vec::new();
        assert(list2@ =~= Seq::<bool>::empty());
        list2
    }
}

/// A function declaration: its signature, then its body under the name it is
/// lowered to.
#[verifier::opaque]
pub open spec fn with_def(
    s: AssemblyView,
    stmt: StmtView,
    name: Seq<char>,
    type_params: Seq<TypeParamView>,
    params: Seq<FnParamView>,
    positional_only: Option<usize>,
    keyword_only: Option<usize>,
    raises: bool,
    ret: Option<TypeView>,
    body: Seq<StmtView>,
    checked: CheckedProgramView,
) -> AssemblyView {
    let owner = "function '"@ + name + "'"@;
    let (types, errors) = types_kept(
        params,
        false,
        true,
        stmt,
        None,
        owner,
        checked.annotations,
        0,
        Seq::empty(),
        s.errors,
        0,
    );
    let lowered = name_lowered(checked.lowered_names, stmt, None, name, 0);
    let decls = classified(type_params, 0, Seq::empty());
    let (declaration, errors) = declared_function(
        stmt,
        None,
        owner,
        lowered,
        params,
        positional_only,
        keyword_only,
        decls,
        checked.annotations,
        errors,
    );
    let names = and_result(params, 0, names_kept(params, false, true, 0, Seq::empty()));
    let owned = owned_kept(params, false, true, 0, Seq::empty());
    let refs = refs_kept(params, false, true, 0, Seq::empty());
    let functions = with_function(
        checked,
        lowered,
        names,
        types,
        owned,
        refs,
        gives_reference(ret),
        raises,
        body,
        s.functions,
    );
    let s = AssemblyView { errors: errors, ..s };
    let s = AssemblyView { declarations: s.declarations.push(declaration), ..s };
    let s = AssemblyView { functions: functions, ..s };
    s
}

/// A struct declaration: its layout, then its methods.
#[verifier::opaque]
pub open spec fn with_struct(
    s: AssemblyView,
    stmt: StmtView,
    name: Seq<char>,
    type_params: Seq<TypeParamView>,
    fields: Seq<ParamView>,
    methods: Seq<MethodView>,
    fieldwise_init: bool,
    checked: CheckedProgramView,
) -> AssemblyView {
    let (types, errors) = types_of_fields(
        fields,
        stmt,
        name,
        checked.annotations,
        0,
        Seq::empty(),
        s.errors,
        0,
    );
    let destroy = facts_of_destroy(checked.explicit_destroy, name, 0, None);
    let s = AssemblyView { errors: errors, ..s };
    let s = AssemblyView {
        structs: s.structs.push(
            MirStructDeclarationView {
                name,
                fields: types,
                mut_self_methods: methods_writing(
                    methods,
                    stmt,
                    name,
                    checked.lowered_names,
                    0,
                    Seq::empty(),
                    0,
                ),
                fieldwise_init,
                param_decls: classified(type_params, 0, Seq::empty()),
                explicit_destroy_message: message_of_destroy(destroy),
                explicit_destructors: destructors_of(destroy),
            }
        ),
        ..s
    };
    let s = with_methods(s, methods, stmt, name, checked, 0, 0);
    s
}

pub open spec fn with_methods(
    s: AssemblyView,
    methods: Seq<MethodView>,
    stmt: StmtView,
    name: Seq<char>,
    checked: CheckedProgramView,
    i: nat,
    k: usize,
) -> AssemblyView
    decreases methods, (methods.len() - i) as nat,
{
    if i >= methods.len() {
        s
    } else {
        let method = methods[i as int];
        let s = with_method(s, method, k, stmt, name, checked);
        let k = following_index(k);
        with_methods(s, methods, stmt, name, checked, i + 1, k)
    }
}

/// A method. Its receiver is its first parameter.
#[verifier::opaque]
pub open spec fn with_method(
    s: AssemblyView,
    method: MethodView,
    k: usize,
    stmt: StmtView,
    name: Seq<char>,
    checked: CheckedProgramView,
) -> AssemblyView {
    let source = method_in_source(name, method);
    let owner = "method '"@ + source + "'"@;
    let lowered = name_lowered(checked.lowered_names, stmt, Some(k), source, 0);
    let (declaration, errors) = declared_function(
        stmt,
        Some(k),
        owner,
        lowered,
        method.params,
        method.positional_only,
        method.keyword_only,
        Seq::empty(),
        checked.annotations,
        s.errors,
    );
    let names = names_kept(method.params, true, true, 0, names_with_self(method));
    let (types, errors) = types_kept(
        method.params,
        true,
        true,
        stmt,
        Some(k),
        owner,
        checked.annotations,
        0,
        types_with_self(method, name),
        errors,
        0,
    );
    let owned = owned_kept(
        method.params,
        true,
        true,
        0,
        flags_with_self(method, convention_owns(method.self_convention)),
    );
    let refs = refs_kept(
        method.params,
        true,
        true,
        0,
        flags_with_self(method, convention_writes(method.self_convention)),
    );
    let functions = with_function(
        checked,
        lowered,
        names,
        types,
        owned,
        refs,
        gives_reference(method.ret),
        method.raises_type is Some,
        method.body,
        s.functions,
    );
    let s = AssemblyView { errors: errors, ..s };
    let s = AssemblyView { declarations: s.declarations.push(declaration), ..s };
    let s = AssemblyView { functions: functions, ..s };
    s
}

/// One statement of a program. A trait has nothing to lower.
#[verifier::opaque]
pub open spec fn with_statement(
    s: AssemblyView,
    stmt: StmtView,
    checked: CheckedProgramView,
) -> AssemblyView {
    match stmt.kind {
        StmtKindView::Def {
            name,
            type_params,
            params,
            positional_only,
            keyword_only,
            raises,
            ret,
            body,
            ..
        } => {
            let s = with_def(
                s,
                stmt,
                name,
                type_params,
                params,
                positional_only,
                keyword_only,
                raises,
                ret,
                body,
                checked,
            );
            s
        },
        StmtKindView::Struct { name, type_params, fields, methods, fieldwise_init, .. } => {
            let s = with_struct(
                s,
                stmt,
                name,
                type_params,
                fields,
                methods,
                fieldwise_init,
                checked,
            );
            s
        },
        StmtKindView::Trait { .. } => s,
        _ => {
            let s = AssemblyView { toplevel: s.toplevel.push(stmt), ..s };
            s
        },
    }
}

pub open spec fn with_statements(
    s: AssemblyView,
    program: Seq<StmtView>,
    checked: CheckedProgramView,
    i: nat,
) -> AssemblyView
    decreases program, (program.len() - i) as nat,
{
    if i >= program.len() {
        s
    } else {
        let stmt = program[i as int];
        let s = with_statement(s, stmt, checked);
        with_statements(s, program, checked, i + 1)
    }
}

impl Assembly {
    /// See [`with_def`].
    pub fn def(
        self,
        stmt: &Stmt,
        name: &String,
        type_params: &Vec<TypeParam>,
        params: &Vec<FnParam>,
        positional_only: Option<usize>,
        keyword_only: Option<usize>,
        raises: bool,
        ret: &Option<Type>,
        body: &Vec<Stmt>,
        checked: &CheckedProgram,
    ) -> (r: Assembly)
        ensures
            r@ == with_def(
                self@,
                stmt@,
                name@,
                type_param_list_view(type_params@),
                fn_param_list_view(params@),
                positional_only,
                keyword_only,
                raises,
                opt_view(*ret),
                stmt_list_view(body@),
                checked@,
            ),
    {
        proof { reveal(with_def); }
        let mut this = self;
        let owner = cat3("function '", name.as_str(), "'");
        let list: Vec<Ty> = Vec::new();
        assert(ty_list_view(list@) =~= Seq::<TyView>::empty());
        let (types, errors) = kept_types(
            params,
            false,
            true,
            stmt,
            None,
            &owner,
            &checked.annotations,
            list,
            clone_string_list(&this.errors),
        );
        let lowered = lowered_name(&checked.lowered_names, stmt, None, name);
        let decls = classify_param_decls(type_params);
        let (declaration, errors) = declare(
            stmt,
            None,
            &owner,
            &lowered,
            params,
            positional_only,
            keyword_only,
            decls,
            &checked.annotations,
            errors,
        );
        let list2: Vec<String> = Vec::new();
        assert(string_list_view(list2@) =~= Seq::<Seq<char>>::empty());
        let names = with_result(params, kept_names(params, false, true, list2));
        let list3: Vec<bool> = Vec::new();
        assert(list3@ =~= Seq::<bool>::empty());
        let owned = kept_owned(params, false, true, list3);
        let list4: Vec<bool> = Vec::new();
        assert(list4@ =~= Seq::<bool>::empty());
        let refs = kept_refs(params, false, true, list4);
        let functions = lower_fn_nested(
            checked,
            &lowered,
            &names,
            types,
            owned,
            refs,
            returns_ref(ret),
            raises,
            body,
            clone_named_function_list(&this.functions),
        );
        this.errors = errors;
        let ghost before = mir_function_declaration_list_view(this.declarations@);
        let ghost added = declaration@;
        this.declarations.push(declaration);
        assert(mir_function_declaration_list_view(this.declarations@) =~= before.push(added));
        this.functions = functions;
        return this;
    }

    /// See [`with_struct`].
    pub fn structure(
        self,
        stmt: &Stmt,
        name: &String,
        type_params: &Vec<TypeParam>,
        fields: &Vec<Param>,
        methods: &Vec<Method>,
        fieldwise_init: bool,
        checked: &CheckedProgram,
    ) -> (r: Assembly)
        ensures
            r@ == with_struct(
                self@,
                stmt@,
                name@,
                type_param_list_view(type_params@),
                param_list_view(fields@),
                method_list_view(methods@),
                fieldwise_init,
                checked@,
            ),
    {
        proof { reveal(with_struct); }
        let mut this = self;
        let (types, errors) = field_types(
            fields,
            stmt,
            name,
            &checked.annotations,
            clone_string_list(&this.errors),
        );
        let destroy = destroy_facts(&checked.explicit_destroy, name);
        this.errors = errors;
        let declaration = MirStructDeclaration {
            name: name.clone(),
            fields: types,
            mut_self_methods: writing_methods(methods, stmt, name, &checked.lowered_names),
            fieldwise_init,
            param_decls: classify_param_decls(type_params),
            explicit_destroy_message: destroy_message(&destroy),
            explicit_destructors: destructors(&destroy),
        };
        proof { unfold_mir_struct_declaration(declaration); }
        let ghost before = mir_struct_declaration_list_view(this.structs@);
        let ghost added = declaration@;
        this.structs.push(declaration);
        assert(mir_struct_declaration_list_view(this.structs@) =~= before.push(added));
        return this.methods(methods, stmt, name, checked);
    }

    /// See [`with_methods`].
    pub fn methods(
        self,
        methods: &Vec<Method>,
        stmt: &Stmt,
        name: &String,
        checked: &CheckedProgram,
    ) -> (r: Assembly)
        ensures
            r@ == with_methods(self@, method_list_view(methods@), stmt@, name@, checked@, 0, 0),
        decreases methods@, 0nat,
    {
        let mut this = self;
        let mut k: usize = 0;
        let ghost goal = with_methods(self@, method_list_view(methods@), stmt@, name@, checked@, 0, 0);
        let mut i: usize = 0;
        while i < methods.len()
            invariant
                i <= methods@.len(),
                method_list_view(methods@).len() == methods@.len(),
                with_methods(
                    this@,
                    method_list_view(methods@),
                    stmt@,
                    name@,
                    checked@,
                    i as nat,
                    k,
                ) == goal,
                goal == with_methods(self@, method_list_view(methods@), stmt@, name@, checked@, 0, 0),
            decreases methods@.len() - i,
        {
            let method = &methods[i];
            assert(method_list_view(methods@)[i as int] == method@);
            this = this.method(method, k, stmt, name, checked);
            k = next_index(k);
            i = i + 1;
        }
        this
    }

    /// See [`with_method`].
    pub fn method(
        self,
        method: &Method,
        k: usize,
        stmt: &Stmt,
        name: &String,
        checked: &CheckedProgram,
    ) -> (r: Assembly)
        ensures
            r@ == with_method(self@, method@, k, stmt@, name@, checked@),
    {
        proof { reveal(with_method); }
        let mut this = self;
        let source = source_method_name(name, method);
        let owner = cat3("method '", &source.as_str(), "'");
        let lowered = lowered_name(&checked.lowered_names, stmt, Some(k), &source);
        let list: Vec<(String, bool)> = Vec::new();
        assert(flagged_name_list_view(list@) =~= Seq::<(Seq<char>, bool)>::empty());
        let (declaration, errors) = declare(
            stmt,
            Some(k),
            &owner,
            &lowered,
            &method.params,
            method.positional_only,
            method.keyword_only,
            list,
            &checked.annotations,
            clone_string_list(&this.errors),
        );
        let names = kept_names(&method.params, true, true, receiver_names(method));
        let (types, errors) = kept_types(
            &method.params,
            true,
            true,
            stmt,
            Some(k),
            &owner,
            &checked.annotations,
            receiver_types(method, name),
            errors,
        );
        let owned = kept_owned(
            &method.params,
            true,
            true,
            receiver_flags(method, is_owned(&method.self_convention)),
        );
        let refs = kept_refs(
            &method.params,
            true,
            true,
            receiver_flags(method, is_ref(&method.self_convention)),
        );
        let functions = lower_fn_nested(
            checked,
            &lowered,
            &names,
            types,
            owned,
            refs,
            returns_ref(&method.ret),
            method.raises_type.is_some(),
            &method.body,
            clone_named_function_list(&this.functions),
        );
        this.errors = errors;
        let ghost before = mir_function_declaration_list_view(this.declarations@);
        let ghost added = declaration@;
        this.declarations.push(declaration);
        assert(mir_function_declaration_list_view(this.declarations@) =~= before.push(added));
        this.functions = functions;
        return this;
    }

    /// See [`with_statement`].
    pub fn statement(self, stmt: &Stmt, checked: &CheckedProgram) -> (r: Assembly)
        ensures
            r@ == with_statement(self@, stmt@, checked@),
    {
        proof { reveal(with_statement); }
        let mut this = self;
        proof { unfold_stmt_kind(stmt.kind); }
        match &stmt.kind {
            StmtKind::Def {
                name,
                type_params,
                params,
                positional_only,
                keyword_only,
                raises,
                ret,
                body,
                ..
            } => {
                return this.def(
                    stmt,
                    name,
                    type_params,
                    params,
                    *positional_only,
                    *keyword_only,
                    *raises,
                    ret,
                    body,
                    checked,
                );
            },
            StmtKind::Struct { name, type_params, fields, methods, fieldwise_init, .. } => {
                return this.structure(
                    stmt,
                    name,
                    type_params,
                    fields,
                    methods,
                    *fieldwise_init,
                    checked,
                );
            },
            StmtKind::Trait { .. } => {
                return this;
            },
            _ => {
                assert(!(stmt.kind@ is Def));
                assert(!(stmt.kind@ is Struct));
                assert(!(stmt.kind@ is Trait));
                let item = clone_stmt(stmt);
                let ghost before = stmt_list_view(this.toplevel@);
                let ghost added = item@;
                this.toplevel.push(item);
                assert(stmt_list_view(this.toplevel@) =~= before.push(added));
                return this;
            },
        }
    }

    /// See [`with_statements`].
    pub fn statements(self, program: &Vec<Stmt>, checked: &CheckedProgram) -> (r: Assembly)
        ensures
            r@ == with_statements(self@, stmt_list_view(program@), checked@, 0),
        decreases program@, 0nat,
    {
        let mut this = self;
        let ghost goal = with_statements(self@, stmt_list_view(program@), checked@, 0);
        let mut i: usize = 0;
        while i < program.len()
            invariant
                i <= program@.len(),
                stmt_list_view(program@).len() == program@.len(),
                with_statements(this@, stmt_list_view(program@), checked@, i as nat) == goal,
                goal == with_statements(self@, stmt_list_view(program@), checked@, 0),
            decreases program@.len() - i,
        {
            let stmt = &program[i];
            assert(stmt_list_view(program@)[i as int] == stmt@);
            this = this.statement(stmt, checked);
            i = i + 1;
        }
        this
    }
}

/// Messages put behind others.
pub fn join_errors(more: &Vec<String>, found: Vec<String>) -> (r: Vec<String>)
    ensures
        string_list_view(r@) == string_list_view(found@) + string_list_view(more@),
{
    let mut r = found;
    for i in 0..more.len()
        invariant
            string_list_view(r@) == string_list_view(found@) + string_list_view(more@).take(i as int),
    {
        let ghost before = r@;
        r.push(more[i].clone());
        assert(string_list_view(r@) =~= string_list_view(before).push(more@[i as int]@));
        assert(string_list_view(r@) =~= string_list_view(found@) + string_list_view(more@).take(
            i + 1,
        ));
    }
    assert(string_list_view(more@).take(more@.len() as int) =~= string_list_view(more@));
    r
}

#[verifier::opaque]
pub open spec fn assembled_from(checked: CheckedProgramView) -> AssemblyView {
    let assembly = AssemblyView {
        functions: Seq::empty(),
        structs: Seq::empty(),
        declarations: Seq::empty(),
        errors: Seq::empty(),
        toplevel: Seq::empty(),
    };
    with_statements(assembly, checked.statements, checked, 0)
}

/// See [`assembled_from`].
pub fn assembled(checked: &CheckedProgram) -> (r: Assembly)
    ensures
        r@ == assembled_from(checked@),
{
    proof { reveal(assembled_from); }
    let list: Vec<(String, MirFunction)> = Vec::new();
    assert(named_function_list_view(list@) =~= Seq::<(Seq<char>, MirFunctionView)>::empty());
    let list2: Vec<MirStructDeclaration> = Vec::new();
    assert(mir_struct_declaration_list_view(list2@) =~= Seq::<MirStructDeclarationView>::empty());
    let list3: Vec<MirFunctionDeclaration> = Vec::new();
    assert(
        mir_function_declaration_list_view(list3@) =~= Seq::<MirFunctionDeclarationView>::empty()
    );
    let list4: Vec<String> = Vec::new();
    assert(string_list_view(list4@) =~= Seq::<Seq<char>>::empty());
    let list5: Vec<Stmt> = Vec::new();
    assert(stmt_list_view(list5@) =~= Seq::<StmtView>::empty());
    let assembly2 = Assembly {
        functions: list,
        structs: list2,
        declarations: list3,
        errors: list4,
        toplevel: list5,
    };
    proof { unfold_assembly(assembly2); }
    let assembly = assembly2;
    assembly.statements(&checked.statements, checked)
}

/// The function of the statements outside declarations. It has no declared effect,
/// so it may raise.
#[verifier::opaque]
pub open spec fn function_of_toplevel(
    toplevel: Seq<StmtView>,
    checked: CheckedProgramView,
) -> MirFunctionView {
    let no_params = Seq::<Seq<char>>::empty();
    let no_nested = Seq::<NestedInfoView>::empty();
    let no_references = Seq::<bool>::empty();
    let cfg = function_cfg(no_params, Seq::empty(), toplevel, checked.expressions);
    let function = flattened(cfg, no_nested, checked.overloads, false, no_references);
    signed(function, Seq::empty(), Seq::empty(), Seq::empty(), true)
}

/// See [`function_of_toplevel`].
pub fn toplevel_function(toplevel: &Vec<Stmt>, checked: &CheckedProgram) -> (r: MirFunction)
    ensures
        r@ == function_of_toplevel(stmt_list_view(toplevel@), checked@),
{
    proof { reveal(function_of_toplevel); }
    let no_params: Vec<String> = Vec::new();
    assert(string_list_view(no_params@) =~= Seq::<Seq<char>>::empty());
    let no_nested: Vec<NestedInfo> = Vec::new();
    assert(nested_info_list_view(no_nested@) =~= Seq::<NestedInfoView>::empty());
    let no_references: Vec<bool> = Vec::new();
    let list: Vec<String> = Vec::new();
    assert(string_list_view(list@) =~= Seq::<Seq<char>>::empty());
    let cfg = build_fn_with_context(&no_params, list, toplevel, &checked.expressions);
    let function = lower_cfg_nested(&cfg, &no_nested, &checked.overloads, false, &no_references);
    let list2: Vec<Ty> = Vec::new();
    assert(ty_list_view(list2@) =~= Seq::<TyView>::empty());
    let list3: Vec<bool> = Vec::new();
    assert(list3@ =~= Seq::<bool>::empty());
    let list4: Vec<bool> = Vec::new();
    assert(list4@ =~= Seq::<bool>::empty());
    with_signature(function, list2, list3, list4, true)
}

/// A checked program in the flat form: a function for each function and method of
/// it, for each nested function that can be lifted, and `__toplevel__` for the
/// rest. What is wrong with the result is recorded in it.
#[verifier::opaque]
pub open spec fn lowered_program(checked: CheckedProgramView) -> MirProgramView {
    let assembly = assembled_from(checked);
    let toplevel = function_of_toplevel(assembly.toplevel, checked);
    let functions = assembly.functions;
    let functions = functions.push(("__toplevel__"@, toplevel));
    let program = MirProgramView {
        functions,
        declarations: MirDeclarationsView {
            structs: assembly.structs,
            functions: assembly.declarations,
            coercions: checked.coercions,
        },
        invariant_errors: Seq::empty(),
    };
    let found = violations(program);
    MirProgramView {
        functions: program.functions,
        declarations: program.declarations,
        invariant_errors: (assembly.errors + found),
    }
}

/// See [`lowered_program`].
pub fn lower_checked_program(checked: &CheckedProgram) -> (r: MirProgram)
    ensures
        r@ == lowered_program(checked@),
{
    proof { reveal(lowered_program); }
    let assembly = assembled(checked);
    let toplevel = toplevel_function(&assembly.toplevel, checked);
    let mut functions = clone_named_function_list(&assembly.functions);
    let item = ("__toplevel__".to_owned(), toplevel);
    let ghost before = named_function_list_view(functions@);
    let ghost added = (item.0@, item.1@);
    functions.push(item);
    assert(named_function_list_view(functions@) =~= before.push(added));
    let declarations = MirDeclarations {
        structs: clone_mir_struct_declaration_list(&assembly.structs),
        functions: clone_mir_function_declaration_list(&assembly.declarations),
        coercions: clone_ty_pair_list(&checked.coercions),
    };
    proof { unfold_mir_declarations(declarations); }
    let list: Vec<String> = Vec::new();
    assert(string_list_view(list@) =~= Seq::<Seq<char>>::empty());
    let program2 = MirProgram { functions, declarations, invariant_errors: list };
    proof { unfold_mir_program(program2); }
    let program = program2;
    let found = verify(&program);
    let program3 = MirProgram {
        functions: program.functions,
        declarations: program.declarations,
        invariant_errors: join_errors(&found, clone_string_list(&assembly.errors)),
    };
    proof { unfold_mir_program(program3); }
    program3
}

} // verus!
