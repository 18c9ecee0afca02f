//! Functions with their nested functions, which are lifted to functions of their
//! own.

use crate::ast::{
    ArgConvention, Capture, CaptureKind, CaptureView, FnParam, FnParamView, Stmt, StmtKind,
    StmtKindView, StmtView, capture_list_view, fn_param_list_view, stmt_list_view,
    unfold_stmt_kind,
};
use crate::cfg::{build_fn_with_context, function_cfg};
use crate::checked::{
    AnnotationSite, AnnotationSiteView, AnnotationType, AnnotationTypeView, CheckedProgram,
    CheckedProgramView, annotation_type_list_view, same_annotation_site,
};
use crate::flatten::{
    NestedInfo, NestedInfoView, clone_nested_info, following_index, nested_info_list_view,
    next_index, unfold_nested_info,
};
use crate::functions::{flattened, lower_cfg_nested};
use crate::mir::{MirFunction, MirFunctionView, named_function_list_view, unfold_mir_function};
use crate::nested::{
    analyze_captures, binds, bound_names, captures_of, find_nested_defs, names_of_params,
    nested_defs, param_names,
};
use crate::text::{cat3, clone_string_list, opt_view, same_string, string_list_view};
use crate::types::{
    Ty, TyArg, TyArgView, TyView, clone_ty, ty_arg_list_view, ty_list_view, unfold_ty,
};
use vstd::prelude::*;

verus! {

/// Whether an argument is handed over to the callee.
#[verifier::opaque]
pub open spec fn convention_owns(convention: Option<ArgConvention>) -> bool {
    match convention {
        Some(convention) => match convention {
            ArgConvention::Owned => true,
            ArgConvention::Deinit => true,
            _ => false,
        },
        None => false,
    }
}

/// See [`convention_owns`].
pub fn is_owned(convention: &Option<ArgConvention>) -> (r: bool)
    ensures
        r == convention_owns(*convention),
{
    proof { reveal(convention_owns); }
    match convention {
        Some(convention) => {
            match convention {
                ArgConvention::Owned => true,
                ArgConvention::Deinit => true,
                _ => false,
            }
        },
        None => false,
    }
}

/// Whether an argument is written back to the caller.
#[verifier::opaque]
pub open spec fn convention_writes(convention: Option<ArgConvention>) -> bool {
    match convention {
        Some(convention) => match convention {
            ArgConvention::Mut => true,
            ArgConvention::Ref => true,
            _ => false,
        },
        None => false,
    }
}

/// See [`convention_writes`].
pub fn is_ref(convention: &Option<ArgConvention>) -> (r: bool)
    ensures
        r == convention_writes(*convention),
{
    proof { reveal(convention_writes); }
    match convention {
        Some(convention) => {
            match convention {
                ArgConvention::Mut => true,
                ArgConvention::Ref => true,
                _ => false,
            }
        },
        None => false,
    }
}

pub open spec fn params_owned(params: Seq<FnParamView>, i: nat, out: Seq<bool>) -> Seq<bool>
    decreases params, (params.len() - i) as nat,
{
    if i >= params.len() {
        out
    } else {
        let param = params[i as int];
        let out = out.push(convention_owns(param.convention));
        params_owned(params, i + 1, out)
    }
}

/// See [`params_owned`].
pub fn owned_flags(params: &Vec<FnParam>, found: Vec<bool>) -> (r: Vec<bool>)
    ensures
        r@ == params_owned(fn_param_list_view(params@), 0, found@),
    decreases params@, 0nat,
{
    let mut out: Vec<bool> = found;
    let ghost goal = params_owned(fn_param_list_view(params@), 0, found@);
    let mut i: usize = 0;
    while i < params.len()
        invariant
            i <= params@.len(),
            fn_param_list_view(params@).len() == params@.len(),
            params_owned(fn_param_list_view(params@), i as nat, out@) == goal,
            goal == params_owned(fn_param_list_view(params@), 0, found@),
        decreases params@.len() - i,
    {
        let param = &params[i];
        assert(fn_param_list_view(params@)[i as int] == param@);
        out.push(is_owned(&param.convention));
        i = i + 1;
    }
    out
}

pub open spec fn params_written(params: Seq<FnParamView>, i: nat, out: Seq<bool>) -> Seq<bool>
    decreases params, (params.len() - i) as nat,
{
    if i >= params.len() {
        out
    } else {
        let param = params[i as int];
        let out = out.push(convention_writes(param.convention));
        params_written(params, i + 1, out)
    }
}

/// See [`params_written`].
pub fn ref_flags(params: &Vec<FnParam>, found: Vec<bool>) -> (r: Vec<bool>)
    ensures
        r@ == params_written(fn_param_list_view(params@), 0, found@),
    decreases params@, 0nat,
{
    let mut out: Vec<bool> = found;
    let ghost goal = params_written(fn_param_list_view(params@), 0, found@);
    let mut i: usize = 0;
    while i < params.len()
        invariant
            i <= params@.len(),
            fn_param_list_view(params@).len() == params@.len(),
            params_written(fn_param_list_view(params@), i as nat, out@) == goal,
            goal == params_written(fn_param_list_view(params@), 0, found@),
        decreases params@.len() - i,
    {
        let param = &params[i];
        assert(fn_param_list_view(params@)[i as int] == param@);
        out.push(is_ref(&param.convention));
        i = i + 1;
    }
    out
}

pub open spec fn flag_for_each(
    names: Seq<CaptureView>,
    flag: bool,
    i: nat,
    out: Seq<bool>,
) -> Seq<bool>
    decreases names, (names.len() - i) as nat,
{
    if i >= names.len() {
        out
    } else {
        let name = names[i as int];
        let out = out.push(flag);
        flag_for_each(names, flag, i + 1, out)
    }
}

/// See [`flag_for_each`].
pub fn repeated_flag(names: &Vec<Capture>, flag: bool) -> (r: Vec<bool>)
    ensures
        r@ == flag_for_each(capture_list_view(names@), flag, 0, Seq::<bool>::empty()),
    decreases names@, 0nat,
{
    let mut out: Vec<bool> = Vec::new();
    let ghost goal = flag_for_each(capture_list_view(names@), flag, 0, Seq::<bool>::empty());
    let mut i: usize = 0;
    while i < names.len()
        invariant
            i <= names@.len(),
            capture_list_view(names@).len() == names@.len(),
            flag_for_each(capture_list_view(names@), flag, i as nat, out@) == goal,
            goal == flag_for_each(capture_list_view(names@), flag, 0, Seq::<bool>::empty()),
        decreases names@.len() - i,
    {
        let name = &names[i];
        assert(capture_list_view(names@)[i as int] == name@);
        out.push(flag);
        i = i + 1;
    }
    out
}

pub open spec fn names_of_captures(
    captures: Seq<CaptureView>,
    i: nat,
    out: Seq<Seq<char>>,
) -> Seq<Seq<char>>
    decreases captures, (captures.len() - i) as nat,
{
    if i >= captures.len() {
        out
    } else {
        let capture = captures[i as int];
        let out = out.push(capture.name);
        names_of_captures(captures, i + 1, out)
    }
}

/// See [`names_of_captures`].
pub fn capture_names(captures: &Vec<Capture>) -> (r: Vec<String>)
    ensures
        string_list_view(r@) == names_of_captures(
            capture_list_view(captures@),
            0,
            Seq::<Seq<char>>::empty(),
        ),
    decreases captures@, 0nat,
{
    let mut out: Vec<String> = Vec::new();
    assert(string_list_view(out@) =~= Seq::<Seq<char>>::empty());
    let ghost goal = names_of_captures(capture_list_view(captures@), 0, Seq::<Seq<char>>::empty());
    let mut i: usize = 0;
    while i < captures.len()
        invariant
            i <= captures@.len(),
            capture_list_view(captures@).len() == captures@.len(),
            names_of_captures(
                capture_list_view(captures@),
                i as nat,
                string_list_view(out@),
            ) == goal,
            goal == names_of_captures(capture_list_view(captures@), 0, Seq::<Seq<char>>::empty()),
        decreases captures@.len() - i,
    {
        let capture = &captures[i];
        assert(capture_list_view(captures@)[i as int] == capture@);
        let item = (&capture.name).clone();
        let ghost before = string_list_view(out@);
        let ghost added = item@;
        out.push(item);
        assert(string_list_view(out@) =~= before.push(added));
        i = i + 1;
    }
    out
}

/// The names of the function declarations among statements.
pub open spec fn names_of_defs(
    defs: Seq<StmtView>,
    i: nat,
    out: Seq<Seq<char>>,
) -> Seq<Seq<char>>
    decreases defs, (defs.len() - i) as nat,
{
    if i >= defs.len() {
        out
    } else {
        let def = defs[i as int];
        match def.kind {
            StmtKindView::Def { name, .. } => {
                let out = out.push(name);
                names_of_defs(defs, i + 1, out)
            },
            _ => names_of_defs(defs, i + 1, out),
        }
    }
}

/// See [`names_of_defs`].
pub fn def_names(defs: &Vec<Stmt>) -> (r: Vec<String>)
    ensures
        string_list_view(r@) == names_of_defs(stmt_list_view(defs@), 0, Seq::<Seq<char>>::empty()),
    decreases defs@, 0nat,
{
    let mut out: Vec<String> = Vec::new();
    assert(string_list_view(out@) =~= Seq::<Seq<char>>::empty());
    let ghost goal = names_of_defs(stmt_list_view(defs@), 0, Seq::<Seq<char>>::empty());
    let mut i: usize = 0;
    while i < defs.len()
        invariant
            i <= defs@.len(),
            stmt_list_view(defs@).len() == defs@.len(),
            names_of_defs(stmt_list_view(defs@), i as nat, string_list_view(out@)) == goal,
            goal == names_of_defs(stmt_list_view(defs@), 0, Seq::<Seq<char>>::empty()),
        decreases defs@.len() - i,
    {
        let def = &defs[i];
        assert(stmt_list_view(defs@)[i as int] == def@);
        proof { unfold_stmt_kind(def.kind); }
        match &def.kind {
            StmtKind::Def { name, .. } => {
                let item = name.clone();
                let ghost before = string_list_view(out@);
                let ghost added = item@;
                out.push(item);
                assert(string_list_view(out@) =~= before.push(added));
            },
            _ => {
                assert(!(def.kind@ is Def));
            },
        }
        i = i + 1;
    }
    out
}

/// How a function declares that it captures a name; by reference unless it says.
pub open spec fn kind_declared(
    captures: Seq<CaptureView>,
    name: Seq<char>,
    i: nat,
) -> CaptureKind
    decreases captures, (captures.len() - i) as nat,
{
    if i >= captures.len() {
        CaptureKind::Mut
    } else {
        let capture = captures[i as int];
        if capture.name == name {
            capture.kind
        } else {
            kind_declared(captures, name, i + 1)
        }
    }
}

/// See [`kind_declared`].
pub fn declared_kind(captures: &Vec<Capture>, name: &String) -> (r: CaptureKind)
    ensures
        r == kind_declared(capture_list_view(captures@), name@, 0),
    decreases captures@, 0nat,
{
    let ghost goal = kind_declared(capture_list_view(captures@), name@, 0);
    let mut i: usize = 0;
    while i < captures.len()
        invariant
            i <= captures@.len(),
            capture_list_view(captures@).len() == captures@.len(),
            kind_declared(capture_list_view(captures@), name@, i as nat) == goal,
            goal == kind_declared(capture_list_view(captures@), name@, 0),
        decreases captures@.len() - i,
    {
        let capture = &captures[i];
        assert(capture_list_view(captures@)[i as int] == capture@);
        if same_string(&capture.name, name) {
            return capture.kind;
        }
        i = i + 1;
    }
    CaptureKind::Mut
}

#[verifier::opaque]
pub open spec fn kind_of_capture(
    declared: Option<Seq<CaptureView>>,
    name: Seq<char>,
) -> CaptureKind {
    match declared {
        Some(captures) => kind_declared(captures, name, 0),
        None => CaptureKind::Mut,
    }
}

/// See [`kind_of_capture`].
pub fn capture_kind(declared: &Option<Vec<Capture>>, name: &String) -> (r: CaptureKind)
    ensures
        r == kind_of_capture(
            (match declared { Some(v) => Some(capture_list_view(v@)), None => None }),
            name@,
        ),
{
    proof { reveal(kind_of_capture); }
    match declared {
        Some(captures) => declared_kind(captures, name),
        None => CaptureKind::Mut,
    }
}

pub open spec fn captures_with_kinds(
    names: Seq<Seq<char>>,
    declared: Option<Seq<CaptureView>>,
    i: nat,
    out: Seq<CaptureView>,
) -> Seq<CaptureView>
    decreases names, (names.len() - i) as nat,
{
    if i >= names.len() {
        out
    } else {
        let name = names[i as int];
        let out = out.push(CaptureView { name, kind: kind_of_capture(declared, name) });
        captures_with_kinds(names, declared, i + 1, out)
    }
}

/// See [`captures_with_kinds`].
pub fn with_kinds(names: &Vec<String>, declared: &Option<Vec<Capture>>) -> (r: Vec<Capture>)
    ensures
        capture_list_view(r@) == captures_with_kinds(
            string_list_view(names@),
            (match declared { Some(v) => Some(capture_list_view(v@)), None => None }),
            0,
            Seq::<CaptureView>::empty(),
        ),
    decreases names@, 0nat,
{
    let mut out: Vec<Capture> = Vec::new();
    assert(capture_list_view(out@) =~= Seq::<CaptureView>::empty());
    let ghost goal = captures_with_kinds(
        string_list_view(names@),
        (match declared { Some(v) => Some(capture_list_view(v@)), None => None }),
        0,
        Seq::<CaptureView>::empty(),
    );
    let mut i: usize = 0;
    while i < names.len()
        invariant
            i <= names@.len(),
            string_list_view(names@).len() == names@.len(),
            captures_with_kinds(
                string_list_view(names@),
                (match declared { Some(v) => Some(capture_list_view(v@)), None => None }),
                i as nat,
                capture_list_view(out@),
            ) == goal,
            goal == captures_with_kinds(
                string_list_view(names@),
                (match declared { Some(v) => Some(capture_list_view(v@)), None => None }),
                0,
                Seq::<CaptureView>::empty(),
            ),
        decreases names@.len() - i,
    {
        let name = &names[i];
        assert(string_list_view(names@)[i as int] == name@);
        let item = Capture { name: name.clone(), kind: capture_kind(declared, name) };
        let ghost before = capture_list_view(out@);
        let ghost added = item@;
        out.push(item);
        assert(capture_list_view(out@) =~= before.push(added));
        i = i + 1;
    }
    out
}

/// The nested functions without those of a name.
pub open spec fn infos_without(
    nested: Seq<NestedInfoView>,
    name: Seq<char>,
    i: nat,
    out: Seq<NestedInfoView>,
) -> Seq<NestedInfoView>
    decreases nested, (nested.len() - i) as nat,
{
    if i >= nested.len() {
        out
    } else {
        let info = nested[i as int];
        if !(info.name == name) {
            let out = out.push(info);
            infos_without(nested, name, i + 1, out)
        } else {
            infos_without(nested, name, i + 1, out)
        }
    }
}

/// See [`infos_without`].
pub fn without_name(nested: &Vec<NestedInfo>, name: &String) -> (r: Vec<NestedInfo>)
    ensures
        nested_info_list_view(r@) == infos_without(
            nested_info_list_view(nested@),
            name@,
            0,
            Seq::<NestedInfoView>::empty(),
        ),
    decreases nested@, 0nat,
{
    let mut out: Vec<NestedInfo> = Vec::new();
    assert(nested_info_list_view(out@) =~= Seq::<NestedInfoView>::empty());
    let ghost goal = infos_without(
        nested_info_list_view(nested@),
        name@,
        0,
        Seq::<NestedInfoView>::empty(),
    );
    let mut i: usize = 0;
    while i < nested.len()
        invariant
            i <= nested@.len(),
            nested_info_list_view(nested@).len() == nested@.len(),
            infos_without(
                nested_info_list_view(nested@),
                name@,
                i as nat,
                nested_info_list_view(out@),
            ) == goal,
            goal == infos_without(
                nested_info_list_view(nested@),
                name@,
                0,
                Seq::<NestedInfoView>::empty(),
            ),
        decreases nested@.len() - i,
    {
        let info = &nested[i];
        assert(nested_info_list_view(nested@)[i as int] == info@);
        if !same_string(&info.name, name) {
            let item = clone_nested_info(info);
            let ghost before = nested_info_list_view(out@);
            let ghost added = item@;
            out.push(item);
            assert(nested_info_list_view(out@) =~= before.push(added));
        }
        i = i + 1;
    }
    out
}

/// The name a nested function is lifted under.
#[verifier::opaque]
pub open spec fn lifted_name(outer: Seq<char>, inner: Seq<char>) -> Seq<char> {
    outer + "$"@ + inner
}

/// See [`lifted_name`].
pub fn nested_lifted_name(outer: &String, inner: &String) -> (r: String)
    ensures
        r@ == lifted_name(outer@, inner@),
{
    proof { reveal(lifted_name); }
    cat3(outer.as_str(), "$", inner.as_str())
}

/// A nested function as it is lifted, or nothing when it cannot be: when it has
/// compile-time parameters, declares something itself, or refers to a nested
/// function beside it.
#[verifier::opaque]
pub open spec fn lifted(
    def: StmtView,
    outer: Seq<char>,
    bound: Seq<Seq<char>>,
    names: Seq<Seq<char>>,
) -> Option<NestedInfoView> {
    match def.kind {
        StmtKindView::Def {
            name,
            type_params,
            params,
            captures,
            body,
            ..
        } => if type_params.len() == 0 {
            match captures_of(params, body, bound, names, name) {
                Some(used) => Some(
                    NestedInfoView {
                        name,
                        mangled: lifted_name(outer, name),
                        captures: captures_with_kinds(used, captures, 0, Seq::empty()),
                    }
                ),
                None => None,
            }
        } else {
            None
        },
        _ => None,
    }
}

/// See [`lifted`].
pub fn lift(
    def: &Stmt,
    outer: &String,
    bound: &Vec<String>,
    names: &Vec<String>,
) -> (r: Option<NestedInfo>)
    ensures
        opt_view(r) == lifted(def@, outer@, string_list_view(bound@), string_list_view(names@)),
{
    proof { reveal(lifted); }
    proof { unfold_stmt_kind(def.kind); }
    match &def.kind {
        StmtKind::Def { name, type_params, params, captures, body, .. } => {
            if type_params.len() == 0 {
                match analyze_captures(params, body, bound, names, name) {
                    Some(used) => {
                        let info = NestedInfo {
                            name: name.clone(),
                            mangled: nested_lifted_name(outer, name),
                            captures: with_kinds(&used, captures),
                        };
                        proof { unfold_nested_info(info); }
                        Some(info)
                    },
                    None => None,
                }
            } else {
                None
            }
        },
        _ => {
            assert(!(def.kind@ is Def));
            None
        },
    }
}

/// The nested functions that can be lifted. A later one hides an earlier one of
/// the same name.
pub open spec fn lifted_all(
    defs: Seq<StmtView>,
    outer: Seq<char>,
    bound: Seq<Seq<char>>,
    names: Seq<Seq<char>>,
    i: nat,
    out: Seq<NestedInfoView>,
) -> Seq<NestedInfoView>
    decreases defs, (defs.len() - i) as nat,
{
    if i >= defs.len() {
        out
    } else {
        let def = defs[i as int];
        match lifted(def, outer, bound, names) {
            Some(info) => {
                let kept = infos_without(out, info.name, 0, Seq::empty());
                let out = kept;
                let out = out.push(info);
                lifted_all(defs, outer, bound, names, i + 1, out)
            },
            None => lifted_all(defs, outer, bound, names, i + 1, out),
        }
    }
}

/// See [`lifted_all`].
pub fn lift_all(
    defs: &Vec<Stmt>,
    outer: &String,
    bound: &Vec<String>,
    names: &Vec<String>,
) -> (r: Vec<NestedInfo>)
    ensures
        nested_info_list_view(r@) == lifted_all(
            stmt_list_view(defs@),
            outer@,
            string_list_view(bound@),
            string_list_view(names@),
            0,
            Seq::<NestedInfoView>::empty(),
        ),
    decreases defs@, 0nat,
{
    let mut out: Vec<NestedInfo> = Vec::new();
    assert(nested_info_list_view(out@) =~= Seq::<NestedInfoView>::empty());
    let ghost goal = lifted_all(
        stmt_list_view(defs@),
        outer@,
        string_list_view(bound@),
        string_list_view(names@),
        0,
        Seq::<NestedInfoView>::empty(),
    );
    let mut i: usize = 0;
    while i < defs.len()
        invariant
            i <= defs@.len(),
            stmt_list_view(defs@).len() == defs@.len(),
            lifted_all(
                stmt_list_view(defs@),
                outer@,
                string_list_view(bound@),
                string_list_view(names@),
                i as nat,
                nested_info_list_view(out@),
            ) == goal,
            goal == lifted_all(
                stmt_list_view(defs@),
                outer@,
                string_list_view(bound@),
                string_list_view(names@),
                0,
                Seq::<NestedInfoView>::empty(),
            ),
        decreases defs@.len() - i,
    {
        let def = &defs[i];
        assert(stmt_list_view(defs@)[i as int] == def@);
        match lift(def, outer, bound, names) {
            Some(info) => {
                let kept = without_name(&out, &info.name);
                out = kept;
                let ghost before = nested_info_list_view(out@);
                let ghost added = info@;
                out.push(info);
                assert(nested_info_list_view(out@) =~= before.push(added));
            },
            None => {},
        }
        i = i + 1;
    }
    out
}

/// Whether a body binds a name at compile time.
pub open spec fn bound_at_compile_time(body: Seq<StmtView>, name: Seq<char>, i: nat) -> bool
    decreases body, (body.len() - i) as nat,
{
    if i >= body.len() {
        false
    } else {
        let stmt = body[i as int];
        match stmt.kind {
            StmtKindView::Comptime { name: found, .. } => if found == name {
                true
            } else {
                bound_at_compile_time(body, name, i + 1)
            },
            _ => bound_at_compile_time(body, name, i + 1),
        }
    }
}

/// See [`bound_at_compile_time`].
pub fn binds_comptime(body: &Vec<Stmt>, name: &String) -> (r: bool)
    ensures
        r == bound_at_compile_time(stmt_list_view(body@), name@, 0),
    decreases body@, 0nat,
{
    let ghost goal = bound_at_compile_time(stmt_list_view(body@), name@, 0);
    let mut i: usize = 0;
    while i < body.len()
        invariant
            i <= body@.len(),
            stmt_list_view(body@).len() == body@.len(),
            bound_at_compile_time(stmt_list_view(body@), name@, i as nat) == goal,
            goal == bound_at_compile_time(stmt_list_view(body@), name@, 0),
        decreases body@.len() - i,
    {
        let stmt = &body[i];
        assert(stmt_list_view(body@)[i as int] == stmt@);
        proof { unfold_stmt_kind(stmt.kind); }
        match &stmt.kind {
            StmtKind::Comptime { name: found, .. } => {
                if same_string(found, name) {
                    return true;
                }
            },
            _ => {
                assert(!(stmt.kind@ is Comptime));
            },
        }
        i = i + 1;
    }
    false
}

pub open spec fn fixed_captures(
    captures: Seq<CaptureView>,
    body: Seq<StmtView>,
    i: nat,
    out: Seq<Seq<char>>,
) -> Seq<Seq<char>>
    decreases captures, (captures.len() - i) as nat,
{
    if i >= captures.len() {
        out
    } else {
        let capture = captures[i as int];
        if bound_at_compile_time(body, capture.name, 0) {
            let out = out.push(capture.name);
            fixed_captures(captures, body, i + 1, out)
        } else {
            fixed_captures(captures, body, i + 1, out)
        }
    }
}

/// See [`fixed_captures`].
pub fn immutable_captures(captures: &Vec<Capture>, body: &Vec<Stmt>) -> (r: Vec<String>)
    ensures
        string_list_view(r@) == fixed_captures(
            capture_list_view(captures@),
            stmt_list_view(body@),
            0,
            Seq::<Seq<char>>::empty(),
        ),
    decreases captures@, 0nat,
{
    let mut out: Vec<String> = Vec::new();
    assert(string_list_view(out@) =~= Seq::<Seq<char>>::empty());
    let ghost goal = fixed_captures(
        capture_list_view(captures@),
        stmt_list_view(body@),
        0,
        Seq::<Seq<char>>::empty(),
    );
    let mut i: usize = 0;
    while i < captures.len()
        invariant
            i <= captures@.len(),
            capture_list_view(captures@).len() == captures@.len(),
            fixed_captures(
                capture_list_view(captures@),
                stmt_list_view(body@),
                i as nat,
                string_list_view(out@),
            ) == goal,
            goal == fixed_captures(
                capture_list_view(captures@),
                stmt_list_view(body@),
                0,
                Seq::<Seq<char>>::empty(),
            ),
        decreases captures@.len() - i,
    {
        let capture = &captures[i];
        assert(capture_list_view(captures@)[i as int] == capture@);
        if binds_comptime(body, &capture.name) {
            let item = (&capture.name).clone();
            let ghost before = string_list_view(out@);
            let ghost added = item@;
            out.push(item);
            assert(string_list_view(out@) =~= before.push(added));
        }
        i = i + 1;
    }
    out
}

pub open spec fn types_of_captures(
    captures: Seq<CaptureView>,
    i: nat,
    out: Seq<TyView>,
) -> Seq<TyView>
    decreases captures, (captures.len() - i) as nat,
{
    if i >= captures.len() {
        out
    } else {
        let capture = captures[i as int];
        let out = out.push(TyView::Struct("$capture"@, Seq::empty()));
        types_of_captures(captures, i + 1, out)
    }
}

/// See [`types_of_captures`].
pub fn capture_types(captures: &Vec<Capture>) -> (r: Vec<Ty>)
    ensures
        ty_list_view(r@) == types_of_captures(
            capture_list_view(captures@),
            0,
            Seq::<TyView>::empty(),
        ),
    decreases captures@, 0nat,
{
    let mut out: Vec<Ty> = Vec::new();
    assert(ty_list_view(out@) =~= Seq::<TyView>::empty());
    let ghost goal = types_of_captures(capture_list_view(captures@), 0, Seq::<TyView>::empty());
    let mut i: usize = 0;
    while i < captures.len()
        invariant
            i <= captures@.len(),
            capture_list_view(captures@).len() == captures@.len(),
            types_of_captures(capture_list_view(captures@), i as nat, ty_list_view(out@)) == goal,
            goal == types_of_captures(capture_list_view(captures@), 0, Seq::<TyView>::empty()),
        decreases captures@.len() - i,
    {
        let capture = &captures[i];
        assert(capture_list_view(captures@)[i as int] == capture@);
        let list: Vec<TyArg> = Vec::new();
        assert(ty_arg_list_view(list@) =~= Seq::<TyArgView>::empty());
        let ty = Ty::Struct("$capture".to_owned(), list);
        proof { unfold_ty(ty); }
        let ghost before = ty_list_view(out@);
        let ghost added = ty@;
        out.push(ty);
        assert(ty_list_view(out@) =~= before.push(added));
        i = i + 1;
    }
    out
}

/// The checked type of an annotation.
pub open spec fn type_at_site(
    annotations: Seq<AnnotationTypeView>,
    site: AnnotationSiteView,
    i: nat,
    out: Option<TyView>,
) -> Option<TyView>
    decreases annotations, (annotations.len() - i) as nat,
{
    if i >= annotations.len() {
        out
    } else {
        let annotation = annotations[i as int];
        if annotation.site == site {
            let out = Some(annotation.ty);
            type_at_site(annotations, site, i + 1, out)
        } else {
            type_at_site(annotations, site, i + 1, out)
        }
    }
}

/// See [`type_at_site`].
pub fn checked_type_at(
    annotations: &Vec<AnnotationType>,
    site: &AnnotationSite,
) -> (r: Option<Ty>)
    ensures
        opt_view(r) == type_at_site(annotation_type_list_view(annotations@), site@, 0, None),
    decreases annotations@, 0nat,
{
    let mut out: Option<Ty> = None;
    let ghost goal = type_at_site(annotation_type_list_view(annotations@), site@, 0, None);
    let mut i: usize = 0;
    while i < annotations.len()
        invariant
            i <= annotations@.len(),
            annotation_type_list_view(annotations@).len() == annotations@.len(),
            type_at_site(
                annotation_type_list_view(annotations@),
                site@,
                i as nat,
                opt_view(out),
            ) == goal,
            goal == type_at_site(annotation_type_list_view(annotations@), site@, 0, None),
        decreases annotations@.len() - i,
    {
        let annotation = &annotations[i];
        assert(annotation_type_list_view(annotations@)[i as int] == annotation@);
        if same_annotation_site(&annotation.site, site) {
            out = Some(clone_ty(&annotation.ty));
        }
        i = i + 1;
    }
    out
}

/// The checked types of the parameters of a nested function, after those of its
/// captures. Without a checked type a parameter takes any value.
pub open spec fn types_of_nested(
    params: Seq<FnParamView>,
    def: StmtView,
    annotations: Seq<AnnotationTypeView>,
    i: nat,
    out: Seq<TyView>,
    k: usize,
) -> Seq<TyView>
    decreases params, (params.len() - i) as nat,
{
    if i >= params.len() {
        out
    } else {
        let param = params[i as int];
        let site = AnnotationSiteView::FunctionParam {
            module: def.module,
            declaration: def.span,
            param: k,
        };
        let ty = match type_at_site(annotations, site, 0, None) {
            Some(ty) => ty,
            None => TyView::NoneTy,
        };
        let out = out.push(ty);
        let k = following_index(k);
        types_of_nested(params, def, annotations, i + 1, out, k)
    }
}

/// See [`types_of_nested`].
pub fn nested_types(
    params: &Vec<FnParam>,
    def: &Stmt,
    annotations: &Vec<AnnotationType>,
    found: Vec<Ty>,
) -> (r: Vec<Ty>)
    ensures
        ty_list_view(r@) == types_of_nested(
            fn_param_list_view(params@),
            def@,
            annotation_type_list_view(annotations@),
            0,
            ty_list_view(found@),
            0,
        ),
    decreases params@, 0nat,
{
    let mut out: Vec<Ty> = found;
    let mut k: usize = 0;
    let ghost goal = types_of_nested(
        fn_param_list_view(params@),
        def@,
        annotation_type_list_view(annotations@),
        0,
        ty_list_view(found@),
        0,
    );
    let mut i: usize = 0;
    while i < params.len()
        invariant
            i <= params@.len(),
            fn_param_list_view(params@).len() == params@.len(),
            types_of_nested(
                fn_param_list_view(params@),
                def@,
                annotation_type_list_view(annotations@),
                i as nat,
                ty_list_view(out@),
                k,
            ) == goal,
            goal == types_of_nested(
                fn_param_list_view(params@),
                def@,
                annotation_type_list_view(annotations@),
                0,
                ty_list_view(found@),
                0,
            ),
        decreases params@.len() - i,
    {
        let param = &params[i];
        assert(fn_param_list_view(params@)[i as int] == param@);
        let site = AnnotationSite::FunctionParam {
            module: (match (&def.module) { Some(y) => Some(y.clone()), None => None }),
            declaration: def.span,
            param: k,
        };
        let ty = match checked_type_at(annotations, &site) {
            Some(ty) => ty,
            None => Ty::NoneTy,
        };
        let ghost before = ty_list_view(out@);
        let ghost added = ty@;
        out.push(ty);
        assert(ty_list_view(out@) =~= before.push(added));
        k = next_index(k);
        i = i + 1;
    }
    out
}

#[verifier::opaque]
pub open spec fn signed(
    function: MirFunctionView,
    param_types: Seq<TyView>,
    owned_params: Seq<bool>,
    ref_params: Seq<bool>,
    raises: bool,
) -> MirFunctionView {
    MirFunctionView {
        blocks: function.blocks,
        n_regs: function.n_regs,
        n_vars: function.n_vars,
        var_names: function.var_names,
        n_params: function.n_params,
        param_types,
        owned_params,
        ref_params,
        raises,
        ret_ty: function.ret_ty,
        returns_reference: function.returns_reference,
        spans: function.spans,
        reg_types: function.reg_types,
        complete: function.complete,
    }
}

/// See [`signed`].
pub fn with_signature(
    function: MirFunction,
    param_types: Vec<Ty>,
    owned_params: Vec<bool>,
    ref_params: Vec<bool>,
    raises: bool,
) -> (r: MirFunction)
    ensures
        r@ == signed(
            function@,
            ty_list_view(param_types@),
            owned_params@,
            ref_params@,
            raises,
        ),
{
    proof { reveal(signed); }
    let function2 = MirFunction {
        blocks: function.blocks,
        n_regs: function.n_regs,
        n_vars: function.n_vars,
        var_names: function.var_names,
        n_params: function.n_params,
        param_types,
        owned_params,
        ref_params,
        raises,
        ret_ty: function.ret_ty,
        returns_reference: function.returns_reference,
        spans: function.spans,
        reg_types: function.reg_types,
        complete: function.complete,
    };
    proof { unfold_mir_function(function2); }
    function2
}

/// A nested function as a function of its own. What it captures are its leading
/// parameters, which are written back.
#[verifier::opaque]
pub open spec fn lowered_lifted(
    def: StmtView,
    info: NestedInfoView,
    outer_body: Seq<StmtView>,
    registry: Seq<NestedInfoView>,
    checked: CheckedProgramView,
) -> Option<MirFunctionView> {
    match def.kind {
        StmtKindView::Def { params, raises, body, .. } => {
            let names = names_of_params(
                params,
                0,
                names_of_captures(info.captures, 0, Seq::empty()),
            );
            let types = types_of_nested(
                params,
                def,
                checked.annotations,
                0,
                types_of_captures(info.captures, 0, Seq::empty()),
                0,
            );
            let owned = params_owned(
                params,
                0,
                flag_for_each(info.captures, false, 0, Seq::empty()),
            );
            let written = params_written(
                params,
                0,
                flag_for_each(info.captures, true, 0, Seq::empty()),
            );
            let fixed = fixed_captures(info.captures, outer_body, 0, Seq::empty());
            let cfg = function_cfg(names, fixed, body, checked.expressions);
            let function = flattened(cfg, registry, checked.overloads, false, written);
            Some(signed(function, types, owned, written, raises))
        },
        _ => None,
    }
}

/// See [`lowered_lifted`].
pub fn lower_lifted(
    def: &Stmt,
    info: &NestedInfo,
    outer_body: &Vec<Stmt>,
    registry: &Vec<NestedInfo>,
    checked: &CheckedProgram,
) -> (r: Option<MirFunction>)
    ensures
        opt_view(r) == lowered_lifted(
            def@,
            info@,
            stmt_list_view(outer_body@),
            nested_info_list_view(registry@),
            checked@,
        ),
{
    proof { reveal(lowered_lifted); }
    proof { unfold_stmt_kind(def.kind); }
    match &def.kind {
        StmtKind::Def { params, raises, body, .. } => {
            let names = param_names(params, capture_names(&info.captures));
            let types = nested_types(
                params,
                def,
                &checked.annotations,
                capture_types(&info.captures),
            );
            let owned = owned_flags(params, repeated_flag(&info.captures, false));
            let written = ref_flags(params, repeated_flag(&info.captures, true));
            let fixed = immutable_captures(&info.captures, outer_body);
            let cfg = build_fn_with_context(&names, fixed, body, &checked.expressions);
            let function = lower_cfg_nested(&cfg, registry, &checked.overloads, false, &written);
            Some(with_signature(function, types, owned, written, *raises))
        },
        _ => {
            assert(!(def.kind@ is Def));
            None
        },
    }
}

pub open spec fn with_lifted(
    defs: Seq<StmtView>,
    outer: Seq<char>,
    bound: Seq<Seq<char>>,
    names: Seq<Seq<char>>,
    outer_body: Seq<StmtView>,
    registry: Seq<NestedInfoView>,
    checked: CheckedProgramView,
    i: nat,
    out: Seq<(Seq<char>, MirFunctionView)>,
) -> Seq<(Seq<char>, MirFunctionView)>
    decreases defs, (defs.len() - i) as nat,
{
    if i >= defs.len() {
        out
    } else {
        let def = defs[i as int];
        match lifted(def, outer, bound, names) {
            Some(info) => match lowered_lifted(def, info, outer_body, registry, checked) {
                Some(function) => {
                    let out = out.push((info.mangled, function));
                    with_lifted(
                        defs,
                        outer,
                        bound,
                        names,
                        outer_body,
                        registry,
                        checked,
                        i + 1,
                        out,
                    )
                },
                None => with_lifted(
                    defs,
                    outer,
                    bound,
                    names,
                    outer_body,
                    registry,
                    checked,
                    i + 1,
                    out,
                ),
            },
            None => with_lifted(
                defs,
                outer,
                bound,
                names,
                outer_body,
                registry,
                checked,
                i + 1,
                out,
            ),
        }
    }
}

/// See [`with_lifted`].
pub fn lower_all_lifted(
    defs: &Vec<Stmt>,
    outer: &String,
    bound: &Vec<String>,
    names: &Vec<String>,
    outer_body: &Vec<Stmt>,
    registry: &Vec<NestedInfo>,
    checked: &CheckedProgram,
    found: Vec<(String, MirFunction)>,
) -> (r: Vec<(String, MirFunction)>)
    ensures
        named_function_list_view(r@) == with_lifted(
            stmt_list_view(defs@),
            outer@,
            string_list_view(bound@),
            string_list_view(names@),
            stmt_list_view(outer_body@),
            nested_info_list_view(registry@),
            checked@,
            0,
            named_function_list_view(found@),
        ),
    decreases defs@, 0nat,
{
    let mut out: Vec<(String, MirFunction)> = found;
    let ghost goal = with_lifted(
        stmt_list_view(defs@),
        outer@,
        string_list_view(bound@),
        string_list_view(names@),
        stmt_list_view(outer_body@),
        nested_info_list_view(registry@),
        checked@,
        0,
        named_function_list_view(found@),
    );
    let mut i: usize = 0;
    while i < defs.len()
        invariant
            i <= defs@.len(),
            stmt_list_view(defs@).len() == defs@.len(),
            with_lifted(
                stmt_list_view(defs@),
                outer@,
                string_list_view(bound@),
                string_list_view(names@),
                stmt_list_view(outer_body@),
                nested_info_list_view(registry@),
                checked@,
                i as nat,
                named_function_list_view(out@),
            ) == goal,
            goal == with_lifted(
                stmt_list_view(defs@),
                outer@,
                string_list_view(bound@),
                string_list_view(names@),
                stmt_list_view(outer_body@),
                nested_info_list_view(registry@),
                checked@,
                0,
                named_function_list_view(found@),
            ),
        decreases defs@.len() - i,
    {
        let def = &defs[i];
        assert(stmt_list_view(defs@)[i as int] == def@);
        match lift(def, outer, bound, names) {
            Some(info) => {
                match lower_lifted(def, &info, outer_body, registry, checked) {
                    Some(function) => {
                        let item = ((&info.mangled).clone(), function);
                        let ghost before = named_function_list_view(out@);
                        let ghost added = (item.0@, item.1@);
                        out.push(item);
                        assert(named_function_list_view(out@) =~= before.push(added));
                    },
                    None => {},
                }
            },
            None => {},
        }
        i = i + 1;
    }
    out
}

/// A function body under its name, then each nested function of it that can be
/// lifted, in the order they are declared.
#[verifier::opaque]
pub open spec fn with_function(
    checked: CheckedProgramView,
    name: Seq<char>,
    parameter_names: Seq<Seq<char>>,
    parameter_types: Seq<TyView>,
    owned_parameters: Seq<bool>,
    reference_parameters: Seq<bool>,
    returns_reference: bool,
    raises: bool,
    body: Seq<StmtView>,
    functions: Seq<(Seq<char>, MirFunctionView)>,
) -> Seq<(Seq<char>, MirFunctionView)> {
    let bound = bound_names(body, 0, parameter_names);
    let defs = nested_defs(body, 0, Seq::empty());
    let names = names_of_defs(defs, 0, Seq::empty());
    let registry = lifted_all(defs, name, bound, names, 0, Seq::empty());
    let cfg = function_cfg(parameter_names, Seq::empty(), body, checked.expressions);
    let function = flattened(
        cfg,
        registry,
        checked.overloads,
        returns_reference,
        reference_parameters,
    );
    let function = signed(
        function,
        parameter_types,
        owned_parameters,
        reference_parameters,
        raises,
    );
    let out = functions;
    let out = out.push((name, function));
    with_lifted(defs, name, bound, names, body, registry, checked, 0, out)
}

/// See [`with_function`].
pub fn lower_fn_nested(
    checked: &CheckedProgram,
    name: &String,
    parameter_names: &Vec<String>,
    parameter_types: Vec<Ty>,
    owned_parameters: Vec<bool>,
    reference_parameters: Vec<bool>,
    returns_reference: bool,
    raises: bool,
    body: &Vec<Stmt>,
    functions: Vec<(String, MirFunction)>,
) -> (r: Vec<(String, MirFunction)>)
    ensures
        named_function_list_view(r@) == with_function(
            checked@,
            name@,
            string_list_view(parameter_names@),
            ty_list_view(parameter_types@),
            owned_parameters@,
            reference_parameters@,
            returns_reference,
            raises,
            stmt_list_view(body@),
            named_function_list_view(functions@),
        ),
{
    proof { reveal(with_function); }
    let bound = binds(body, clone_string_list(parameter_names));
    let list: Vec<Stmt> = Vec::new();
    assert(stmt_list_view(list@) =~= Seq::<StmtView>::empty());
    let defs = find_nested_defs(body, list);
    let names = def_names(&defs);
    let registry = lift_all(&defs, name, &bound, &names);
    let list2: Vec<String> = Vec::new();
    assert(string_list_view(list2@) =~= Seq::<Seq<char>>::empty());
    let cfg = build_fn_with_context(parameter_names, list2, body, &checked.expressions);
    let function = lower_cfg_nested(
        &cfg,
        &registry,
        &checked.overloads,
        returns_reference,
        &reference_parameters,
    );
    let function = with_signature(
        function,
        parameter_types,
        owned_parameters,
        reference_parameters,
        raises,
    );
    let mut out = functions;
    let item = (name.clone(), function);
    let ghost before = named_function_list_view(out@);
    let ghost added = (item.0@, item.1@);
    out.push(item);
    assert(named_function_list_view(out@) =~= before.push(added));
    lower_all_lifted(&defs, name, &bound, &names, body, &registry, checked, out)
}

} // verus!
