//! Evaluation of expressions and types at compile time.

use crate::arith::{
    checked_difference, checked_power, checked_product, checked_quotient, checked_remainder,
    checked_sum, fit, fit_power, fit_quotient, fit_remainder,
};
use crate::ast::{
    Expr, ExprKind, ExprKindView, ExprView, InfixOp, Param, ParamArg, ParamArgView, ParamView,
    PrefixOp, StructComptime, StructComptimeView, Type, TypeView, clone_expr, clone_expr_list,
    comparison_list_view, expr_list_view, param_arg_list_view, param_list_view,
    struct_comptime_list_view, unfold_expr_kind, unfold_type,
};
use crate::ctfe::{fn_safe, vm_ctfe_safe_fn};
use crate::debug::{expr_printed, print_expr};
use crate::elab::{
    ComptimeError, ComptimeErrorView, CtCall, CtCallView, CtContext, CtContextView, CtFn, CtFnView,
    CtOutcome, CtOutcomeView, CtReply, CtReplyView, CtStruct, CtStructView, Halt, HaltView,
    as_bool, as_int, as_sequence, boolean_of, burn, burnt, clone_comptime_error, compare_ints,
    ct_value_has_type, decl_name, find_fn, find_reply, find_struct, fn_named, integer_of,
    ints_compare, name_of_decl, no_comptime, not_comptime, reply_to, scalar_named,
    scalar_type_name, sequence_of, struct_named, unfold_ct_call, value_has_type,
};
use crate::flatten::{following_index, next_index};
use crate::packs::{trim_stars, without_stars};
use crate::rewrite::{find_binding, value_bound};
use crate::show::{ct_text, show_ct, show_ty, ty_text};
use crate::text::{
    cat2, cat3, cat4, cat5, cat6, cat7, decimal, opt_view, same_string, same_text, show_i64,
    show_usize, signed_decimal, string_list_view,
};
use crate::types::{
    CtValue, CtValueView, ParamDecl, ParamDeclView, Ty, TyArg, TyArgView, TyView,
    binding_list_view, clone_binding_list, clone_ct_value, clone_ct_value_list, clone_ty,
    clone_ty_arg_list, ct_value_list_view, param_decl_list_view, same_ty, ty_arg_list_view,
    unfold_ct_value, unfold_param_decl, unfold_ty,
};
use crate::values::Value;
use crate::verify::{copied_type, type_itself};
use vstd::arithmetic::div_mod::lemma_fundamental_div_mod;
use vstd::prelude::*;

verus! {

/// The type a name without arguments stands for.
#[verifier::opaque]
pub open spec fn bare_type(
    name: Seq<char>,
    scope: Seq<(Seq<char>, CtValueView)>,
    cx: CtContextView,
) -> Result<TyView, ComptimeErrorView> {
    match value_bound(scope, name) {
        Some(value) => match value {
            CtValueView::Type(ty) => Ok(type_itself(*ty)),
            _ => type_unbound(name, cx),
        },
        None => type_unbound(name, cx),
    }
}

/// See [`bare_type`].
pub fn type_from_bare_name(
    name: &String,
    scope: &Vec<(String, CtValue)>,
    cx: &CtContext,
) -> (r: Result<Ty, ComptimeError>)
    ensures
        (
            match r { Ok(v) => Ok(v@), Err(v) => Err(v@) }
        ) == bare_type(name@, binding_list_view(scope@), cx@),
{
    proof { reveal(bare_type); }
    match find_binding(scope, name) {
        Some(value) => {
            proof { unfold_ct_value(value); }
            match value {
                CtValue::Type(ty) => Ok(copied_type(&*ty)),
                _ => {
                    assert(!(value@ is Type));
                    unbound_type(name, cx)
                },
            }
        },
        None => unbound_type(name, cx),
    }
}

#[verifier::opaque]
pub open spec fn type_unbound(
    name: Seq<char>,
    cx: CtContextView,
) -> Result<TyView, ComptimeErrorView> {
    match scalar_named(name) {
        Some(ty) => Ok(ty),
        None => match struct_named(cx.structs, name, 0, None) {
            Some(info) => if info.decls.len() == 0 {
                Ok(TyView::Struct(name, Seq::empty()))
            } else {
                Err(wrong_type_arity(name, info.decls.len() as usize, 0))
            },
            None => Err(no_comptime("'"@ + name + "' is not a compile-time type"@)),
        },
    }
}

/// See [`type_unbound`].
pub fn unbound_type(name: &String, cx: &CtContext) -> (r: Result<Ty, ComptimeError>)
    ensures
        (match r { Ok(v) => Ok(v@), Err(v) => Err(v@) }) == type_unbound(name@, cx@),
{
    proof { reveal(type_unbound); }
    match scalar_type_name(name) {
        Some(ty) => Ok(ty),
        None => {
            match find_struct(&cx.structs, name) {
                Some(info) => {
                    if info.decls.len() == 0 {
                        let list: Vec<TyArg> = Vec::new();
                        assert(ty_arg_list_view(list@) =~= Seq::<TyArgView>::empty());
                        let ty2 = Ty::Struct(name.clone(), list);
                        proof { unfold_ty(ty2); }
                        Ok(ty2)
                    } else {
                        Err(type_arity(name, info.decls.len(), 0))
                    }
                },
                None => Err(not_comptime(cat3("'", name.as_str(), "' is not a compile-time type"))),
            }
        },
    }
}

#[verifier::opaque]
pub open spec fn wrong_type_arity(
    name: Seq<char>,
    expected: usize,
    found: usize,
) -> ComptimeErrorView {
    ComptimeErrorView::Arity(
        "type '"@ + name + "' expects "@ + decimal(expected as nat) + " compile-time argument(s), got "@ + decimal(found as nat)
    )
}

/// See [`wrong_type_arity`].
pub fn type_arity(name: &String, expected: usize, found: usize) -> (r: ComptimeError)
    ensures
        r@ == wrong_type_arity(name@, expected, found),
{
    proof { reveal(wrong_type_arity); }
    ComptimeError::Arity(
        cat6(
            "type '",
            name.as_str(),
            "' expects ",
            show_usize(expected).as_str(),
            " compile-time argument(s), got ",
            show_usize(found).as_str(),
        )
    )
}

/// The value of a name, or the type it stands for.
#[verifier::opaque]
pub open spec fn value_of_name(
    name: Seq<char>,
    scope: Seq<(Seq<char>, CtValueView)>,
    cx: CtContextView,
) -> Result<CtValueView, ComptimeErrorView> {
    match value_bound(scope, name) {
        Some(value) => Ok(value),
        None => match bare_type(name, scope, cx) {
            Ok(ty) => Ok(CtValueView::Type(Box::new(ty))),
            Err(error) => Err(error),
        },
    }
}

/// See [`value_of_name`].
pub fn name_value(
    name: &String,
    scope: &Vec<(String, CtValue)>,
    cx: &CtContext,
) -> (r: Result<CtValue, ComptimeError>)
    ensures
        (
            match r { Ok(v) => Ok(v@), Err(v) => Err(v@) }
        ) == value_of_name(name@, binding_list_view(scope@), cx@),
{
    proof { reveal(value_of_name); }
    match find_binding(scope, name) {
        Some(value) => Ok(value),
        None => {
            match type_from_bare_name(name, scope, cx) {
                Ok(ty) => {
                    let value2 = CtValue::Type(Box::new(ty));
                    proof { unfold_ct_value(value2); }
                    Ok(value2)
                },
                Err(error) => Err(error),
            }
        },
    }
}

/// An element of a list of types.
#[verifier::opaque]
pub open spec fn element_type(
    name: Seq<char>,
    values: Seq<CtValueView>,
    index: i64,
) -> Result<TyView, ComptimeErrorView> {
    if index >= 0 && index < 4294967295 && (index as usize) < values.len() {
        match values[index as usize as int] {
            CtValueView::Type(ty) => Ok(type_itself(*ty)),
            _ => Err(no_comptime("'"@ + name + "["@ + signed_decimal(index as int) + "]' is not type-valued"@)),
        }
    } else {
        Err(ComptimeErrorView::BadArithmetic("type-list index "@ + signed_decimal(index as int) + " out of range"@))
    }
}

/// See [`element_type`].
pub fn type_element(
    name: &String,
    values: &Vec<CtValue>,
    index: i64,
) -> (r: Result<Ty, ComptimeError>)
    ensures
        (
            match r { Ok(v) => Ok(v@), Err(v) => Err(v@) }
        ) == element_type(name@, ct_value_list_view(values@), index),
{
    proof { reveal(element_type); }
    if index >= 0 && index < 4294967295 && (index as usize) < values.len() {
        proof { unfold_ct_value(values[index as usize as int]); }
        match &values[index as usize] {
            CtValue::Type(ty) => Ok(copied_type(&**ty)),
            _ => {
                assert(!(values[index as usize as int]@ is Type));
                Err(not_comptime(cat5("'", name.as_str(), "[", show_i64(index).as_str(), "]' is not type-valued")))
            },
        }
    } else {
        Err(ComptimeError::BadArithmetic(cat3("type-list index ", show_i64(index).as_str(), " out of range")))
    }
}

#[verifier::opaque]
pub open spec fn value_at(
    values: Seq<CtValueView>,
    index: i64,
) -> Result<CtValueView, ComptimeErrorView> {
    if index >= 0 && index < 4294967295 && (index as usize) < values.len() {
        Ok(values[index as usize as int])
    } else {
        Err(ComptimeErrorView::BadArithmetic("comptime index "@ + signed_decimal(index as int) + " out of range"@))
    }
}

/// See [`value_at`].
pub fn element_at(values: &Vec<CtValue>, index: i64) -> (r: Result<CtValue, ComptimeError>)
    ensures
        (
            match r { Ok(v) => Ok(v@), Err(v) => Err(v@) }
        ) == value_at(ct_value_list_view(values@), index),
{
    proof { reveal(value_at); }
    if index >= 0 && index < 4294967295 && (index as usize) < values.len() {
        Ok(clone_ct_value((&values[index as usize])))
    } else {
        Err(ComptimeError::BadArithmetic(cat3("comptime index ", show_i64(index).as_str(), " out of range")))
    }
}

#[verifier::opaque]
pub open spec fn no_handle(what: Seq<char>, name: Seq<char>) -> ComptimeErrorView {
    no_comptime(what + name + "' needs a reflect[T] handle"@)
}

/// See [`no_handle`].
pub fn not_a_handle(what: &str, name: &String) -> (r: ComptimeError)
    ensures
        r@ == no_handle(what@, name@),
{
    proof { reveal(no_handle); }
    not_comptime(cat3(what, name.as_str(), "' needs a reflect[T] handle"))
}

/// The type behind a reflection handle.
#[verifier::opaque]
pub open spec fn type_reflected(
    value: CtValueView,
    what: Seq<char>,
    name: Seq<char>,
) -> Result<TyView, ComptimeErrorView> {
    match value {
        CtValueView::Reflected(ty) => Ok(type_itself(*ty)),
        _ => Err(no_handle(what, name)),
    }
}

/// See [`type_reflected`].
pub fn reflected(value: &CtValue, what: &str, name: &String) -> (r: Result<Ty, ComptimeError>)
    ensures
        (match r { Ok(v) => Ok(v@), Err(v) => Err(v@) }) == type_reflected(value@, what@, name@),
{
    proof { reveal(type_reflected); }
    proof { unfold_ct_value(*value); }
    match value {
        CtValue::Reflected(ty) => Ok(copied_type(&**ty)),
        _ => {
            assert(!(value@ is Reflected));
            Err(not_a_handle(what, name))
        },
    }
}

pub open spec fn position_of_field(
    fields: Seq<ParamView>,
    name: Seq<char>,
    i: nat,
    k: usize,
) -> Option<usize>
    decreases fields, (fields.len() - i) as nat,
{
    if i >= fields.len() {
        None
    } else {
        let field = fields[i as int];
        if field.name == name {
            Some(k)
        } else {
            let k = following_index(k);
            position_of_field(fields, name, i + 1, k)
        }
    }
}

/// See [`position_of_field`].
pub fn field_position(fields: &Vec<Param>, name: &String) -> (r: Option<usize>)
    ensures
        r == position_of_field(param_list_view(fields@), name@, 0, 0),
    decreases fields@, 0nat,
{
    let mut k: usize = 0;
    let ghost goal = position_of_field(param_list_view(fields@), name@, 0, 0);
    let mut i: usize = 0;
    while i < fields.len()
        invariant
            i <= fields@.len(),
            param_list_view(fields@).len() == fields@.len(),
            position_of_field(param_list_view(fields@), name@, i as nat, k) == goal,
            goal == position_of_field(param_list_view(fields@), name@, 0, 0),
        decreases fields@.len() - i,
    {
        let field = &fields[i];
        assert(param_list_view(fields@)[i as int] == field@);
        if same_string(&field.name, name) {
            return Some(k);
        }
        k = next_index(k);
        i = i + 1;
    }
    None
}

pub open spec fn names_of_fields(
    fields: Seq<ParamView>,
    i: nat,
    out: Seq<CtValueView>,
) -> Seq<CtValueView>
    decreases fields, (fields.len() - i) as nat,
{
    if i >= fields.len() {
        out
    } else {
        let field = fields[i as int];
        let out = out.push(CtValueView::Str(field.name));
        names_of_fields(fields, i + 1, out)
    }
}

/// See [`names_of_fields`].
pub fn field_names(fields: &Vec<Param>) -> (r: Vec<CtValue>)
    ensures
        ct_value_list_view(r@) == names_of_fields(
            param_list_view(fields@),
            0,
            Seq::<CtValueView>::empty(),
        ),
    decreases fields@, 0nat,
{
    let mut out: Vec<CtValue> = Vec::new();
    assert(ct_value_list_view(out@) =~= Seq::<CtValueView>::empty());
    let ghost goal = names_of_fields(param_list_view(fields@), 0, Seq::<CtValueView>::empty());
    let mut i: usize = 0;
    while i < fields.len()
        invariant
            i <= fields@.len(),
            param_list_view(fields@).len() == fields@.len(),
            names_of_fields(param_list_view(fields@), i as nat, ct_value_list_view(out@)) == goal,
            goal == names_of_fields(param_list_view(fields@), 0, Seq::<CtValueView>::empty()),
        decreases fields@.len() - i,
    {
        let field = &fields[i];
        assert(param_list_view(fields@)[i as int] == field@);
        let value = CtValue::Str((&field.name).clone());
        proof { unfold_ct_value(value); }
        let ghost before = ct_value_list_view(out@);
        let ghost added = value@;
        out.push(value);
        assert(ct_value_list_view(out@) =~= before.push(added));
        i = i + 1;
    }
    out
}

#[verifier::opaque]
pub open spec fn value_of_arg(arg: TyArgView) -> CtValueView {
    match arg {
        TyArgView::Ty(ty) => CtValueView::Type(Box::new(ty)),
        TyArgView::Val(value) => value,
    }
}

/// See [`value_of_arg`].
pub fn arg_value(arg: &TyArg) -> (r: CtValue)
    ensures
        r@ == value_of_arg(arg@),
{
    proof { reveal(value_of_arg); }
    match arg {
        TyArg::Ty(ty) => {
            let value2 = CtValue::Type(Box::new(clone_ty(ty)));
            proof { unfold_ct_value(value2); }
            value2
        },
        TyArg::Val(value) => clone_ct_value(value),
    }
}

/// A scope with the parameters of a struct bound to its arguments.
pub open spec fn scope_of_struct(
    args: Seq<TyArgView>,
    decls: Seq<ParamDeclView>,
    i: nat,
    out: Seq<(Seq<char>, CtValueView)>,
    k: usize,
) -> Seq<(Seq<char>, CtValueView)>
    decreases args, (args.len() - i) as nat,
{
    if i >= args.len() {
        out
    } else {
        let arg = args[i as int];
        if k >= decls.len() {
            out
        } else {
            let out = out.push((without_stars(name_of_decl(decls[k as int])), value_of_arg(arg)));
            let k = following_index(k);
            scope_of_struct(args, decls, i + 1, out, k)
        }
    }
}

/// See [`scope_of_struct`].
pub fn struct_scope(
    args: &Vec<TyArg>,
    decls: &Vec<ParamDecl>,
    scope: Vec<(String, CtValue)>,
) -> (r: Vec<(String, CtValue)>)
    ensures
        binding_list_view(r@) == scope_of_struct(
            ty_arg_list_view(args@),
            param_decl_list_view(decls@),
            0,
            binding_list_view(scope@),
            0,
        ),
    decreases args@, 0nat,
{
    let mut out: Vec<(String, CtValue)> = scope;
    let mut k: usize = 0;
    let ghost goal = scope_of_struct(
        ty_arg_list_view(args@),
        param_decl_list_view(decls@),
        0,
        binding_list_view(scope@),
        0,
    );
    let mut i: usize = 0;
    while i < args.len()
        invariant
            i <= args@.len(),
            ty_arg_list_view(args@).len() == args@.len(),
            scope_of_struct(
                ty_arg_list_view(args@),
                param_decl_list_view(decls@),
                i as nat,
                binding_list_view(out@),
                k,
            ) == goal,
            goal == scope_of_struct(
                ty_arg_list_view(args@),
                param_decl_list_view(decls@),
                0,
                binding_list_view(scope@),
                0,
            ),
        decreases args@.len() - i,
    {
        let arg = &args[i];
        assert(ty_arg_list_view(args@)[i as int] == arg@);
        if k >= decls.len() {
            return out;
        }
        let item = (trim_stars(&decl_name(&decls[k])), arg_value(arg));
        let ghost before = binding_list_view(out@);
        let ghost added = (item.0@, item.1@);
        out.push(item);
        assert(binding_list_view(out@) =~= before.push(added));
        k = next_index(k);
        i = i + 1;
    }
    out
}

/// What the associated members of a struct see: its parameters, each with an
/// argument of its kind.
pub open spec fn scope_of_members(
    args: Seq<TyArgView>,
    decls: Seq<ParamDeclView>,
    i: nat,
    out: Seq<(Seq<char>, CtValueView)>,
    k: usize,
) -> Seq<(Seq<char>, CtValueView)>
    decreases args, (args.len() - i) as nat,
{
    if i >= args.len() {
        out
    } else {
        let arg = args[i as int];
        if k >= decls.len() {
            out
        } else {
            let out = if kinds_agree(decls[k as int], arg) {
                let out = out.push((name_of_decl(decls[k as int]), value_of_arg(arg)));
                out
            } else {
                out
            };
            let k = following_index(k);
            scope_of_members(args, decls, i + 1, out, k)
        }
    }
}

/// See [`scope_of_members`].
pub fn member_scope(args: &Vec<TyArg>, decls: &Vec<ParamDecl>) -> (r: Vec<(String, CtValue)>)
    ensures
        binding_list_view(r@) == scope_of_members(
            ty_arg_list_view(args@),
            param_decl_list_view(decls@),
            0,
            Seq::<(Seq<char>, CtValueView)>::empty(),
            0,
        ),
    decreases args@, 0nat,
{
    let mut out: Vec<(String, CtValue)> = Vec::new();
    assert(binding_list_view(out@) =~= Seq::<(Seq<char>, CtValueView)>::empty());
    let mut k: usize = 0;
    let ghost goal = scope_of_members(
        ty_arg_list_view(args@),
        param_decl_list_view(decls@),
        0,
        Seq::<(Seq<char>, CtValueView)>::empty(),
        0,
    );
    let mut i: usize = 0;
    while i < args.len()
        invariant
            i <= args@.len(),
            ty_arg_list_view(args@).len() == args@.len(),
            scope_of_members(
                ty_arg_list_view(args@),
                param_decl_list_view(decls@),
                i as nat,
                binding_list_view(out@),
                k,
            ) == goal,
            goal == scope_of_members(
                ty_arg_list_view(args@),
                param_decl_list_view(decls@),
                0,
                Seq::<(Seq<char>, CtValueView)>::empty(),
                0,
            ),
        decreases args@.len() - i,
    {
        let arg = &args[i];
        assert(ty_arg_list_view(args@)[i as int] == arg@);
        if k >= decls.len() {
            return out;
        }
        if same_kind(&decls[k], arg) {
            let item = (decl_name(&decls[k]), arg_value(arg));
            let ghost before = binding_list_view(out@);
            let ghost added = (item.0@, item.1@);
            out.push(item);
            assert(binding_list_view(out@) =~= before.push(added));
        }
        k = next_index(k);
        i = i + 1;
    }
    out
}

#[verifier::opaque]
pub open spec fn kinds_agree(decl: ParamDeclView, arg: TyArgView) -> bool {
    match decl {
        ParamDeclView::Type { .. } => match arg {
            TyArgView::Ty(_) => true,
            TyArgView::Val(_) => false,
        },
        ParamDeclView::Value { .. } => match arg {
            TyArgView::Ty(_) => false,
            TyArgView::Val(_) => true,
        },
    }
}

/// See [`kinds_agree`].
pub fn same_kind(decl: &ParamDecl, arg: &TyArg) -> (r: bool)
    ensures
        r == kinds_agree(decl@, arg@),
{
    proof { reveal(kinds_agree); }
    proof { unfold_param_decl(*decl); }
    match decl {
        ParamDecl::Type { .. } => {
            match arg {
                TyArg::Ty(_) => true,
                TyArg::Val(_) => false,
            }
        },
        ParamDecl::Value { .. } => {
            match arg {
                TyArg::Ty(_) => false,
                TyArg::Val(_) => true,
            }
        },
    }
}

pub open spec fn associated_named(
    members: Seq<StructComptimeView>,
    name: Seq<char>,
    i: nat,
) -> Option<ExprView>
    decreases members, (members.len() - i) as nat,
{
    if i >= members.len() {
        None
    } else {
        let member = members[i as int];
        if member.name == name {
            Some(member.value)
        } else {
            associated_named(members, name, i + 1)
        }
    }
}

/// See [`associated_named`].
pub fn find_associated(members: &Vec<StructComptime>, name: &String) -> (r: Option<Expr>)
    ensures
        opt_view(r) == associated_named(struct_comptime_list_view(members@), name@, 0),
    decreases members@, 0nat,
{
    let ghost goal = associated_named(struct_comptime_list_view(members@), name@, 0);
    let mut i: usize = 0;
    while i < members.len()
        invariant
            i <= members@.len(),
            struct_comptime_list_view(members@).len() == members@.len(),
            associated_named(struct_comptime_list_view(members@), name@, i as nat) == goal,
            goal == associated_named(struct_comptime_list_view(members@), name@, 0),
        decreases members@.len() - i,
    {
        let member = &members[i];
        assert(struct_comptime_list_view(members@)[i as int] == member@);
        if same_string(&member.name, name) {
            return Some(clone_expr(&member.value));
        }
        i = i + 1;
    }
    None
}

#[verifier::opaque]
pub open spec fn member_missing(base: TyView, member: Seq<char>) -> ComptimeErrorView {
    no_comptime("type '"@ + ty_text(base) + "' has no compile-time member '"@ + member + "'"@)
}

/// See [`member_missing`].
pub fn no_member(base: &Ty, member: &String) -> (r: ComptimeError)
    ensures
        r@ == member_missing(base@, member@),
{
    proof { reveal(member_missing); }
    not_comptime(cat5("type '", show_ty(base).as_str(), "' has no compile-time member '", member.as_str(), "'"))
}

/// The expression of an associated member of a type, with what it sees.
#[verifier::opaque]
pub open spec fn member_of_type(
    base: TyView,
    member: Seq<char>,
    cx: CtContextView,
) -> Result<(ExprView, Seq<(Seq<char>, CtValueView)>), ComptimeErrorView> {
    match base {
        TyView::Struct(name, args) => match struct_named(cx.structs, name, 0, None) {
            Some(info) => match associated_named(info.associated, member, 0) {
                Some(value) => Ok((value, scope_of_members(args, info.decls, 0, Seq::empty(), 0))),
                None => Err(member_missing(base, member)),
            },
            None => Err(no_comptime("unknown compile-time struct '"@ + name + "'"@)),
        },
        _ => Err(member_missing(base, member)),
    }
}

/// See [`member_of_type`].
pub fn associated_member(
    base: &Ty,
    member: &String,
    cx: &CtContext,
) -> (r: Result<(Expr, Vec<(String, CtValue)>), ComptimeError>)
    ensures
        (
            match r { Ok(v) => Ok((v.0@, binding_list_view(v.1@))), Err(v) => Err(v@) }
        ) == member_of_type(base@, member@, cx@),
{
    proof { reveal(member_of_type); }
    proof { unfold_ty(*base); }
    match base {
        Ty::Struct(name, args) => {
            match find_struct(&cx.structs, name) {
                Some(info) => {
                    match find_associated(&info.associated, member) {
                        Some(value) => Ok((value, member_scope(args, &info.decls))),
                        None => Err(no_member(base, member)),
                    }
                },
                None => Err(not_comptime(cat3("unknown compile-time struct '", name.as_str(), "'"))),
            }
        },
        _ => {
            assert(!(base@ is Struct));
            Err(no_member(base, member))
        },
    }
}

/// The struct behind a reflected type, with its arguments.
#[verifier::opaque]
pub open spec fn struct_reflected(
    ty: TyView,
    what: Seq<char>,
    cx: CtContextView,
) -> Result<(CtStructView, Seq<TyArgView>), ComptimeErrorView> {
    match ty {
        TyView::Struct(name, args) => match struct_named(cx.structs, name, 0, None) {
            Some(info) => Ok((info, args)),
            None => Err(no_comptime("cannot reflect unknown struct '"@ + name + "'"@)),
        },
        _ => Err(no_comptime("reflect["@ + ty_text(ty) + "]."@ + what + " requires a struct type"@)),
    }
}

/// See [`struct_reflected`].
pub fn reflected_struct(
    ty: &Ty,
    what: &String,
    cx: &CtContext,
) -> (r: Result<(CtStruct, Vec<TyArg>), ComptimeError>)
    ensures
        (
            match r { Ok(v) => Ok((v.0@, ty_arg_list_view(v.1@))), Err(v) => Err(v@) }
        ) == struct_reflected(ty@, what@, cx@),
{
    proof { reveal(struct_reflected); }
    proof { unfold_ty(*ty); }
    match ty {
        Ty::Struct(name, args) => {
            match find_struct(&cx.structs, name) {
                Some(info) => Ok((info, clone_ty_arg_list(args))),
                None => Err(not_comptime(cat3("cannot reflect unknown struct '", name.as_str(), "'"))),
            }
        },
        _ => {
            assert(!(ty@ is Struct));
            Err(not_comptime(cat5("reflect[", show_ty(ty).as_str(), "].", what.as_str(), " requires a struct type")))
        },
    }
}

/// The field that a selector and its argument pick.
#[verifier::opaque]
pub open spec fn field_selected(
    selector: Seq<char>,
    selected: CtValueView,
    info: CtStructView,
) -> Result<usize, ComptimeErrorView> {
    if selector == "field"@ {
        match selected {
            CtValueView::Str(field) => field_named(field, info),
            _ => Err(no_comptime("Reflected.field expects a String field name, got "@ + ct_text(selected))),
        }
    } else {
        match selected {
            CtValueView::Int(index) => if index >= 0 && index < 4294967295 && (index as usize) < info.fields.len() {
                Ok(index as usize)
            } else {
                Err(field_out_of_range(index, info))
            },
            _ => Err(no_comptime("Reflected.field_at expects an Int field index, got "@ + ct_text(selected))),
        }
    }
}

/// See [`field_selected`].
pub fn selected_field(
    selector: &String,
    selected: &CtValue,
    info: &CtStruct,
) -> (r: Result<usize, ComptimeError>)
    ensures
        (
            match r { Ok(v) => Ok(v), Err(v) => Err(v@) }
        ) == field_selected(selector@, selected@, info@),
{
    proof { reveal(field_selected); }
    if same_text(selector.as_str(), "field") {
        proof { unfold_ct_value(*selected); }
        match selected {
            CtValue::Str(field) => named_field(field, info),
            _ => {
                assert(!(selected@ is Str));
                Err(not_comptime(cat2("Reflected.field expects a String field name, got ", show_ct(selected).as_str())))
            },
        }
    } else {
        proof { unfold_ct_value(*selected); }
        match selected {
            CtValue::Int(index) => {
                if *index >= 0 && *index < 4294967295 && (*index as usize) < info.fields.len() {
                    Ok(*index as usize)
                } else {
                    Err(field_range(*index, info))
                }
            },
            _ => {
                assert(!(selected@ is Int));
                Err(
                    not_comptime(
                        cat2("Reflected.field_at expects an Int field index, got ", show_ct(selected).as_str())
                    )
                )
            },
        }
    }
}

#[verifier::opaque]
pub open spec fn field_named(
    field: Seq<char>,
    info: CtStructView,
) -> Result<usize, ComptimeErrorView> {
    match position_of_field(info.fields, field, 0, 0) {
        Some(k) => Ok(k),
        None => Err(no_comptime("struct '"@ + info.name + "' has no field named '"@ + field + "'"@)),
    }
}

/// See [`field_named`].
pub fn named_field(field: &String, info: &CtStruct) -> (r: Result<usize, ComptimeError>)
    ensures
        (match r { Ok(v) => Ok(v), Err(v) => Err(v@) }) == field_named(field@, info@),
{
    proof { reveal(field_named); }
    match field_position(&info.fields, field) {
        Some(k) => Ok(k),
        None => Err(not_comptime(cat5("struct '", &info.name.as_str(), "' has no field named '", field.as_str(), "'"))),
    }
}

#[verifier::opaque]
pub open spec fn field_out_of_range(index: i64, info: CtStructView) -> ComptimeErrorView {
    if index >= 0 {
        no_comptime(
            "reflection field index "@ + signed_decimal(index as int) + " is out of range for struct '"@ + info.name + "' with "@ + decimal(
                info.fields.len() as usize as nat
            ) + " field(s)"@
        )
    } else {
        no_comptime(
            "reflection field index "@ + signed_decimal(index as int) + " is out of range for struct '"@ + info.name + "'"@
        )
    }
}

/// See [`field_out_of_range`].
pub fn field_range(index: i64, info: &CtStruct) -> (r: ComptimeError)
    ensures
        r@ == field_out_of_range(index, info@),
{
    proof { reveal(field_out_of_range); }
    if index >= 0 {
        not_comptime(
            cat7(
                "reflection field index ",
                show_i64(index).as_str(),
                " is out of range for struct '",
                &info.name.as_str(),
                "' with ",
                show_usize(info.fields.len()).as_str(),
                " field(s)",
            )
        )
    } else {
        not_comptime(
            cat5(
                "reflection field index ",
                show_i64(index).as_str(),
                " is out of range for struct '",
                &info.name.as_str(),
                "'",
            )
        )
    }
}

/// An integer operation that is no comparison and no string operation.
#[verifier::opaque]
pub open spec fn int_op_result(
    op: InfixOp,
    a: i64,
    b: i64,
) -> Result<CtValueView, ComptimeErrorView> {
    match op {
        InfixOp::Add => fitting(fit(a + b)),
        InfixOp::Sub => fitting(fit(a - b)),
        InfixOp::Mul => fitting(fit(a * b)),
        InfixOp::FloorDiv => if b == 0 {
            Err(zero_division())
        } else {
            fitting(fit_quotient(a, b))
        },
        InfixOp::Mod => if b == 0 {
            Err(zero_division())
        } else {
            fitting(fit_remainder(a, b))
        },
        InfixOp::Pow => if b >= 0 {
            fitting(fit_power(a, b))
        } else {
            Err(ComptimeErrorView::BadArithmetic("negative exponent"@))
        },
        InfixOp::Eq => as_bool_value(ints_compare(op, a, b)),
        InfixOp::Ne => as_bool_value(ints_compare(op, a, b)),
        InfixOp::Lt => as_bool_value(ints_compare(op, a, b)),
        InfixOp::Gt => as_bool_value(ints_compare(op, a, b)),
        InfixOp::Le => as_bool_value(ints_compare(op, a, b)),
        InfixOp::Ge => as_bool_value(ints_compare(op, a, b)),
        _ => Err(no_comptime("unsupported compile-time operator"@)),
    }
}

/// See [`int_op_result`].
pub fn int_operation(op: InfixOp, a: i64, b: i64) -> (r: Result<CtValue, ComptimeError>)
    ensures
        (match r { Ok(v) => Ok(v@), Err(v) => Err(v@) }) == int_op_result(op, a, b),
{
    proof { reveal(int_op_result); }
    match op {
        InfixOp::Add => in_range(checked_sum(a, b)),
        InfixOp::Sub => in_range(checked_difference(a, b)),
        InfixOp::Mul => in_range(checked_product(a, b)),
        InfixOp::FloorDiv => {
            if b == 0 {
                Err(division_by_zero())
            } else {
                in_range(checked_quotient(a, b))
            }
        },
        InfixOp::Mod => {
            if b == 0 {
                Err(division_by_zero())
            } else {
                in_range(checked_remainder(a, b))
            }
        },
        InfixOp::Pow => {
            if b >= 0 {
                in_range(checked_power(a, b))
            } else {
                Err(ComptimeError::BadArithmetic("negative exponent".to_owned()))
            }
        },
        InfixOp::Eq => bool_result(compare_ints(op, a, b)),
        InfixOp::Ne => bool_result(compare_ints(op, a, b)),
        InfixOp::Lt => bool_result(compare_ints(op, a, b)),
        InfixOp::Gt => bool_result(compare_ints(op, a, b)),
        InfixOp::Le => bool_result(compare_ints(op, a, b)),
        InfixOp::Ge => bool_result(compare_ints(op, a, b)),
        _ => Err(not_comptime("unsupported compile-time operator".to_owned())),
    }
}

#[verifier::opaque]
pub open spec fn zero_division() -> ComptimeErrorView {
    ComptimeErrorView::BadArithmetic("division by zero"@)
}

/// See [`zero_division`].
pub fn division_by_zero() -> (r: ComptimeError)
    ensures
        r@ == zero_division(),
{
    proof { reveal(zero_division); }
    ComptimeError::BadArithmetic("division by zero".to_owned())
}

#[verifier::opaque]
pub open spec fn fitting(n: Option<i64>) -> Result<CtValueView, ComptimeErrorView> {
    match n {
        Some(n) => Ok(CtValueView::Int(n)),
        None => Err(ComptimeErrorView::BadArithmetic("compile-time integer overflow"@)),
    }
}

/// See [`fitting`].
pub fn in_range(n: Option<i64>) -> (r: Result<CtValue, ComptimeError>)
    ensures
        (match r { Ok(v) => Ok(v@), Err(v) => Err(v@) }) == fitting(n),
{
    proof { reveal(fitting); }
    match n {
        Some(n) => {
            let value = CtValue::Int(n);
            proof { unfold_ct_value(value); }
            Ok(value)
        },
        None => Err(ComptimeError::BadArithmetic("compile-time integer overflow".to_owned())),
    }
}

#[verifier::opaque]
pub open spec fn as_bool_value(
    b: Result<bool, ComptimeErrorView>,
) -> Result<CtValueView, ComptimeErrorView> {
    match b {
        Ok(b) => Ok(CtValueView::Bool(b)),
        Err(error) => Err(error),
    }
}

/// See [`as_bool_value`].
pub fn bool_result(b: Result<bool, ComptimeError>) -> (r: Result<CtValue, ComptimeError>)
    ensures
        (match r { Ok(v) => Ok(v@), Err(v) => Err(v@) }) == as_bool_value(
            (match b { Ok(v) => Ok(v), Err(v) => Err(v@) })
        ),
{
    proof { reveal(as_bool_value); }
    match b {
        Ok(b) => {
            let value = CtValue::Bool(b);
            proof { unfold_ct_value(value); }
            Ok(value)
        },
        Err(error) => Err(error),
    }
}

/// An operation on two values: on strings joining and comparing, else on integers.
#[verifier::opaque]
pub open spec fn op_result(
    op: InfixOp,
    a: CtValueView,
    b: CtValueView,
) -> Result<CtValueView, ComptimeErrorView> {
    match a {
        CtValueView::Str(left) => match b {
            CtValueView::Str(right) => string_op_result(op, left, right),
            _ => int_op_values(op, a, b),
        },
        _ => int_op_values(op, a, b),
    }
}

/// See [`op_result`].
pub fn value_operation(
    op: InfixOp,
    a: &CtValue,
    b: &CtValue,
) -> (r: Result<CtValue, ComptimeError>)
    ensures
        (match r { Ok(v) => Ok(v@), Err(v) => Err(v@) }) == op_result(op, a@, b@),
{
    proof { reveal(op_result); }
    proof { unfold_ct_value(*a); }
    match a {
        CtValue::Str(left) => {
            proof { unfold_ct_value(*b); }
            match b {
                CtValue::Str(right) => string_operation(op, left, right),
                _ => {
                    assert(!(b@ is Str));
                    int_values(op, a, b)
                },
            }
        },
        _ => {
            assert(!(a@ is Str));
            int_values(op, a, b)
        },
    }
}

#[verifier::opaque]
pub open spec fn int_op_values(
    op: InfixOp,
    a: CtValueView,
    b: CtValueView,
) -> Result<CtValueView, ComptimeErrorView> {
    match integer_of(a, "integer operator"@) {
        Ok(out) => {
            let a = out;
            match integer_of(b, "integer operator"@) {
                Ok(out) => {
                    let b = out;
                    int_op_result(op, a, b)
                },
                Err(error) => Err(error),
            }
        },
        Err(error) => Err(error),
    }
}

/// See [`int_op_values`].
pub fn int_values(op: InfixOp, a: &CtValue, b: &CtValue) -> (r: Result<CtValue, ComptimeError>)
    ensures
        (match r { Ok(v) => Ok(v@), Err(v) => Err(v@) }) == int_op_values(op, a@, b@),
{
    proof { reveal(int_op_values); }
    let a: i64 = match as_int(a, "integer operator") {
        Ok(done) => done,
        Err(error) => {
            return Err(error);
        },
    };
    let b: i64 = match as_int(b, "integer operator") {
        Ok(done) => done,
        Err(error) => {
            return Err(error);
        },
    };
    int_operation(op, a, b)
}

#[verifier::opaque]
pub open spec fn string_op_result(
    op: InfixOp,
    a: Seq<char>,
    b: Seq<char>,
) -> Result<CtValueView, ComptimeErrorView> {
    match op {
        InfixOp::Add => Ok(CtValueView::Str(a + b)),
        InfixOp::Eq => Ok(CtValueView::Bool(a == b)),
        InfixOp::Ne => Ok(CtValueView::Bool(!(a == b))),
        _ => Err(no_comptime("unsupported compile-time String operator"@)),
    }
}

/// See [`string_op_result`].
pub fn string_operation(
    op: InfixOp,
    a: &String,
    b: &String,
) -> (r: Result<CtValue, ComptimeError>)
    ensures
        (match r { Ok(v) => Ok(v@), Err(v) => Err(v@) }) == string_op_result(op, a@, b@),
{
    proof { reveal(string_op_result); }
    match op {
        InfixOp::Add => {
            let value = CtValue::Str(cat2(a.as_str(), b.as_str()));
            proof { unfold_ct_value(value); }
            Ok(value)
        },
        InfixOp::Eq => {
            let value2 = CtValue::Bool(same_string(a, b));
            proof { unfold_ct_value(value2); }
            Ok(value2)
        },
        InfixOp::Ne => {
            let value3 = CtValue::Bool(!same_string(a, b));
            proof { unfold_ct_value(value3); }
            Ok(value3)
        },
        _ => Err(not_comptime("unsupported compile-time String operator".to_owned())),
    }
}

pub open spec fn bound_pairs(
    names: Seq<Seq<char>>,
    values: Seq<CtValueView>,
    i: nat,
    out: Seq<(Seq<char>, CtValueView)>,
    k: usize,
) -> Seq<(Seq<char>, CtValueView)>
    decreases names, (names.len() - i) as nat,
{
    if i >= names.len() {
        out
    } else {
        let name = names[i as int];
        if k >= values.len() {
            out
        } else {
            let out = out.push((name, values[k as int]));
            let k = following_index(k);
            bound_pairs(names, values, i + 1, out, k)
        }
    }
}

/// See [`bound_pairs`].
pub fn paired(
    names: &Vec<String>,
    values: &Vec<CtValue>,
    locals: Vec<(String, CtValue)>,
) -> (r: Vec<(String, CtValue)>)
    ensures
        binding_list_view(r@) == bound_pairs(
            string_list_view(names@),
            ct_value_list_view(values@),
            0,
            binding_list_view(locals@),
            0,
        ),
    decreases names@, 0nat,
{
    let mut out: Vec<(String, CtValue)> = locals;
    let mut k: usize = 0;
    let ghost goal = bound_pairs(
        string_list_view(names@),
        ct_value_list_view(values@),
        0,
        binding_list_view(locals@),
        0,
    );
    let mut i: usize = 0;
    while i < names.len()
        invariant
            i <= names@.len(),
            string_list_view(names@).len() == names@.len(),
            bound_pairs(
                string_list_view(names@),
                ct_value_list_view(values@),
                i as nat,
                binding_list_view(out@),
                k,
            ) == goal,
            goal == bound_pairs(
                string_list_view(names@),
                ct_value_list_view(values@),
                0,
                binding_list_view(locals@),
                0,
            ),
        decreases names@.len() - i,
    {
        let name = &names[i];
        assert(string_list_view(names@)[i as int] == name@);
        if k >= values.len() {
            return out;
        }
        let item = (name.clone(), clone_ct_value((&values[k])));
        let ghost before = binding_list_view(out@);
        let ghost added = (item.0@, item.1@);
        out.push(item);
        assert(binding_list_view(out@) =~= before.push(added));
        k = next_index(k);
        i = i + 1;
    }
    out
}

pub open spec fn values_named(
    values: Seq<CtValueView>,
    decls: Seq<ParamDeclView>,
    i: nat,
    out: Seq<(Seq<char>, CtValueView)>,
    k: usize,
) -> Seq<(Seq<char>, CtValueView)>
    decreases values, (values.len() - i) as nat,
{
    if i >= values.len() {
        out
    } else {
        let value = values[i as int];
        if k >= decls.len() {
            out
        } else {
            let out = out.push((name_of_decl(decls[k as int]), value));
            let k = following_index(k);
            values_named(values, decls, i + 1, out, k)
        }
    }
}

/// See [`values_named`].
pub fn named_values(
    values: &Vec<CtValue>,
    decls: &Vec<ParamDecl>,
) -> (r: Vec<(String, CtValue)>)
    ensures
        binding_list_view(r@) == values_named(
            ct_value_list_view(values@),
            param_decl_list_view(decls@),
            0,
            Seq::<(Seq<char>, CtValueView)>::empty(),
            0,
        ),
    decreases values@, 0nat,
{
    let mut out: Vec<(String, CtValue)> = Vec::new();
    assert(binding_list_view(out@) =~= Seq::<(Seq<char>, CtValueView)>::empty());
    let mut k: usize = 0;
    let ghost goal = values_named(
        ct_value_list_view(values@),
        param_decl_list_view(decls@),
        0,
        Seq::<(Seq<char>, CtValueView)>::empty(),
        0,
    );
    let mut i: usize = 0;
    while i < values.len()
        invariant
            i <= values@.len(),
            ct_value_list_view(values@).len() == values@.len(),
            values_named(
                ct_value_list_view(values@),
                param_decl_list_view(decls@),
                i as nat,
                binding_list_view(out@),
                k,
            ) == goal,
            goal == values_named(
                ct_value_list_view(values@),
                param_decl_list_view(decls@),
                0,
                Seq::<(Seq<char>, CtValueView)>::empty(),
                0,
            ),
        decreases values@.len() - i,
    {
        let value = &values[i];
        assert(ct_value_list_view(values@)[i as int] == value@);
        if k >= decls.len() {
            return out;
        }
        let item = (decl_name(&decls[k]), clone_ct_value(value));
        let ghost before = binding_list_view(out@);
        let ghost added = (item.0@, item.1@);
        out.push(item);
        assert(binding_list_view(out@) =~= before.push(added));
        k = next_index(k);
        i = i + 1;
    }
    out
}

/// The compile-time parameters that are values at run time.
pub open spec fn params_with_values(
    values: Seq<CtValueView>,
    decls: Seq<ParamDeclView>,
    i: nat,
    out: Seq<(Seq<char>, CtValueView)>,
    k: usize,
) -> Seq<(Seq<char>, CtValueView)>
    decreases values, (values.len() - i) as nat,
{
    if i >= values.len() {
        out
    } else {
        let value = values[i as int];
        if k >= decls.len() {
            out
        } else {
            let out = match decls[k as int] {
                ParamDeclView::Value { name, .. } => if !((value matches CtValueView::Type(_))) {
                    let out = out.push((name, value));
                    out
                } else {
                    out
                },
                _ => out,
            };
            let k = following_index(k);
            params_with_values(values, decls, i + 1, out, k)
        }
    }
}

/// See [`params_with_values`].
pub fn value_params(
    values: &Vec<CtValue>,
    decls: &Vec<ParamDecl>,
) -> (r: Vec<(String, CtValue)>)
    ensures
        binding_list_view(r@) == params_with_values(
            ct_value_list_view(values@),
            param_decl_list_view(decls@),
            0,
            Seq::<(Seq<char>, CtValueView)>::empty(),
            0,
        ),
    decreases values@, 0nat,
{
    let mut out: Vec<(String, CtValue)> = Vec::new();
    assert(binding_list_view(out@) =~= Seq::<(Seq<char>, CtValueView)>::empty());
    let mut k: usize = 0;
    let ghost goal = params_with_values(
        ct_value_list_view(values@),
        param_decl_list_view(decls@),
        0,
        Seq::<(Seq<char>, CtValueView)>::empty(),
        0,
    );
    let mut i: usize = 0;
    while i < values.len()
        invariant
            i <= values@.len(),
            ct_value_list_view(values@).len() == values@.len(),
            params_with_values(
                ct_value_list_view(values@),
                param_decl_list_view(decls@),
                i as nat,
                binding_list_view(out@),
                k,
            ) == goal,
            goal == params_with_values(
                ct_value_list_view(values@),
                param_decl_list_view(decls@),
                0,
                Seq::<(Seq<char>, CtValueView)>::empty(),
                0,
            ),
        decreases values@.len() - i,
    {
        let value = &values[i];
        assert(ct_value_list_view(values@)[i as int] == value@);
        if k >= decls.len() {
            return out;
        }
        proof { unfold_param_decl(decls[k as int]); }
        match &decls[k] {
            ParamDecl::Value { name, .. } => {
                if !matches!(value, CtValue::Type(_)) {
                    let item = (name.clone(), clone_ct_value(value));
                    let ghost before = binding_list_view(out@);
                    let ghost added = (item.0@, item.1@);
                    out.push(item);
                    assert(binding_list_view(out@) =~= before.push(added));
                }
            },
            _ => {
                assert(!(decls[k as int]@ is Value));
            },
        }
        k = next_index(k);
        i = i + 1;
    }
    out
}

/// Whether values can be handed to a run: types and symbols cannot.
pub open spec fn all_runnable(values: Seq<CtValueView>, i: nat) -> bool
    decreases values, (values.len() - i) as nat,
{
    if i >= values.len() {
        true
    } else {
        let value = values[i as int];
        if !value_runnable(value) {
            false
        } else {
            all_runnable(values, i + 1)
        }
    }
}

/// See [`all_runnable`].
pub fn are_runnable(values: &Vec<CtValue>) -> (r: bool)
    ensures
        r == all_runnable(ct_value_list_view(values@), 0),
    decreases values@, 0nat,
{
    let ghost goal = all_runnable(ct_value_list_view(values@), 0);
    let mut i: usize = 0;
    while i < values.len()
        invariant
            i <= values@.len(),
            ct_value_list_view(values@).len() == values@.len(),
            all_runnable(ct_value_list_view(values@), i as nat) == goal,
            goal == all_runnable(ct_value_list_view(values@), 0),
        decreases values@.len() - i,
    {
        let value = &values[i];
        assert(ct_value_list_view(values@)[i as int] == value@);
        if !is_runnable(value) {
            return false;
        }
        i = i + 1;
    }
    true
}

pub open spec fn value_runnable(value: CtValueView) -> bool
    decreases value, 0nat,
{
    match value {
        CtValueView::Tuple(values) => all_runnable(values, 0),
        CtValueView::List(values) => all_runnable(values, 0),
        CtValueView::Type(_) => false,
        CtValueView::Reflected(_) => false,
        CtValueView::Param(_) => false,
        _ => true,
    }
}

/// See [`value_runnable`].
pub fn is_runnable(value: &CtValue) -> (r: bool)
    ensures
        r == value_runnable(value@),
    decreases value, 0nat,
{
    proof { unfold_ct_value(*value); }
    match value {
        CtValue::Tuple(values) => are_runnable(values),
        CtValue::List(values) => are_runnable(values),
        CtValue::Type(_) => false,
        CtValue::Reflected(_) => false,
        CtValue::Param(_) => false,
        _ => {
            assert(!(value@ is Tuple));
            assert(!(value@ is List));
            assert(!(value@ is Type));
            assert(!(value@ is Reflected));
            assert(!(value@ is Param));
            true
        },
    }
}

pub open spec fn all_entries_runnable(entries: Seq<(Seq<char>, CtValueView)>, i: nat) -> bool
    decreases entries, (entries.len() - i) as nat,
{
    if i >= entries.len() {
        true
    } else {
        let entry = entries[i as int];
        if !value_runnable(entry.1) {
            false
        } else {
            all_entries_runnable(entries, i + 1)
        }
    }
}

/// See [`all_entries_runnable`].
pub fn entries_runnable(entries: &Vec<(String, CtValue)>) -> (r: bool)
    ensures
        r == all_entries_runnable(binding_list_view(entries@), 0),
    decreases entries@, 0nat,
{
    let ghost goal = all_entries_runnable(binding_list_view(entries@), 0);
    let mut i: usize = 0;
    while i < entries.len()
        invariant
            i <= entries@.len(),
            binding_list_view(entries@).len() == entries@.len(),
            all_entries_runnable(binding_list_view(entries@), i as nat) == goal,
            goal == all_entries_runnable(binding_list_view(entries@), 0),
        decreases entries@.len() - i,
    {
        let entry = &entries[i];
        assert(binding_list_view(entries@)[i as int].0 =~= entry.0@);
        assert(binding_list_view(entries@)[i as int].1 =~= entry.1@);
        if !is_runnable(&entry.1) {
            return false;
        }
        i = i + 1;
    }
    true
}

#[verifier::opaque]
pub open spec fn unrunnable() -> ComptimeErrorView {
    no_comptime("type-valued or symbolic values cannot cross into VM CTFE"@)
}

/// See [`unrunnable`].
pub fn not_runnable() -> (r: ComptimeError)
    ensures
        r@ == unrunnable(),
{
    proof { reveal(unrunnable); }
    not_comptime("type-valued or symbolic values cannot cross into VM CTFE".to_owned())
}

/// The function a compile-time call goes to, once the numbers of its arguments
/// have been found right and a step has been paid.
#[verifier::opaque]
pub open spec fn fn_called(
    name: Seq<char>,
    param_args: usize,
    args: usize,
    cx: CtContextView,
    fuel: usize,
) -> Result<(CtFnView, usize), HaltView> {
    match fn_named(cx.fns, name, 0, None) {
        Some(f) => if f.ct_params.len() != param_args {
            Err(
                halted(
                    ComptimeErrorView::Arity(
                        "'"@ + name + "' expects "@ + decimal(
                            f.ct_params.len() as usize as nat
                        ) + " compile-time argument(s), got "@ + decimal(param_args as nat)
                    ),
                    fuel,
                )
            )
        } else if f.params.len() != args {
            Err(
                halted(
                    ComptimeErrorView::Arity(
                        "'"@ + name + "' expects "@ + decimal(
                            f.params.len() as usize as nat
                        ) + " argument(s), got "@ + decimal(args as nat)
                    ),
                    fuel,
                )
            )
        } else {
            match burnt(fuel) {
                Ok(fuel) => Ok((f, fuel)),
                Err(error) => Err(halted(error, fuel)),
            }
        },
        None => Err(halted(no_comptime("'"@ + name + "' is not a compile-time-callable function"@), fuel)),
    }
}

/// See [`fn_called`].
pub fn called_fn(
    name: &String,
    param_args: usize,
    args: usize,
    cx: &CtContext,
    fuel: usize,
) -> (r: Result<(CtFn, usize), Halt>)
    ensures
        (
            match r { Ok(v) => Ok((v.0@, v.1)), Err(v) => Err(v@) }
        ) == fn_called(name@, param_args, args, cx@, fuel),
{
    proof { reveal(fn_called); }
    match find_fn(&cx.fns, name) {
        Some(f) => {
            if f.ct_params.len() != param_args {
                Err(
                    halt(
                        ComptimeError::Arity(
                            cat6(
                                "'",
                                name.as_str(),
                                "' expects ",
                                show_usize(f.ct_params.len()).as_str(),
                                " compile-time argument(s), got ",
                                show_usize(param_args).as_str(),
                            )
                        ),
                        fuel,
                    )
                )
            } else if f.params.len() != args {
                Err(
                    halt(
                        ComptimeError::Arity(
                            cat6(
                                "'",
                                name.as_str(),
                                "' expects ",
                                show_usize(f.params.len()).as_str(),
                                " argument(s), got ",
                                show_usize(args).as_str(),
                            )
                        ),
                        fuel,
                    )
                )
            } else {
                match burn(fuel) {
                    Ok(fuel) => Ok((f, fuel)),
                    Err(error) => Err(halt(error, fuel)),
                }
            }
        },
        None => Err(halt(not_comptime(cat3("'", name.as_str(), "' is not a compile-time-callable function")), fuel)),
    }
}

#[verifier::opaque]
pub open spec fn halted(error: ComptimeErrorView, fuel: usize) -> HaltView {
    HaltView { error, fuel }
}

/// See [`halted`].
pub fn halt(error: ComptimeError, fuel: usize) -> (r: Halt)
    ensures
        r@ == halted(error@, fuel),
{
    proof { reveal(halted); }
    Halt { error, fuel }
}

/// What a reply says about a call. A run that fails costs only what made it ready.
#[verifier::opaque]
pub open spec fn value_of_reply(
    reply: CtReplyView,
    name: Seq<char>,
    fuel: usize,
) -> Result<(CtValueView, usize), HaltView> {
    let ready = if reply.folding <= fuel {
        (fuel - reply.folding) as usize
    } else {
        0
    };
    match reply.outcome {
        CtOutcomeView::Stopped(error) => Err(halted(error, ready)),
        CtOutcomeView::Failed(text) => Err(halted(no_comptime("VM CTFE failed for '"@ + name + "': "@ + text), ready)),
        CtOutcomeView::Value(value) => if reply.steps <= ready {
            Ok((value, (ready - reply.steps) as usize))
        } else {
            Err(halted(fuel_missing(name), ready))
        },
        CtOutcomeView::Nothing => if reply.steps <= ready {
            Err(
                halted(
                    no_comptime("VM CTFE function returned None; a compile-time value is required"@),
                    (ready - reply.steps) as usize,
                )
            )
        } else {
            Err(halted(fuel_missing(name), ready))
        },
        CtOutcomeView::Other(text) => if reply.steps <= ready {
            Err(
                halted(
                    no_comptime("VM CTFE returned unsupported runtime value "@ + text),
                    (ready - reply.steps) as usize,
                )
            )
        } else {
            Err(halted(fuel_missing(name), ready))
        },
    }
}

/// See [`value_of_reply`].
pub fn reply_value(
    reply: &CtReply,
    name: &String,
    fuel: usize,
) -> (r: Result<(CtValue, usize), Halt>)
    ensures
        (
            match r { Ok(v) => Ok((v.0@, v.1)), Err(v) => Err(v@) }
        ) == value_of_reply(reply@, name@, fuel),
{
    proof { reveal(value_of_reply); }
    let ready: usize = if reply.folding <= fuel {
        fuel - reply.folding
    } else {
        0
    };
    match &reply.outcome {
        CtOutcome::Stopped(error) => Err(halt(clone_comptime_error(error), ready)),
        CtOutcome::Failed(text) => Err(
            halt(not_comptime(cat4("VM CTFE failed for '", name.as_str(), "': ", text.as_str())), ready)
        ),
        CtOutcome::Value(value) => {
            if reply.steps <= ready {
                Ok((clone_ct_value(value), ready - reply.steps))
            } else {
                Err(halt(out_of_fuel(name), ready))
            }
        },
        CtOutcome::Nothing => {
            if reply.steps <= ready {
                Err(
                    halt(
                        not_comptime("VM CTFE function returned None; a compile-time value is required".to_owned()),
                        ready - reply.steps,
                    )
                )
            } else {
                Err(halt(out_of_fuel(name), ready))
            }
        },
        CtOutcome::Other(text) => {
            if reply.steps <= ready {
                Err(
                    halt(
                        not_comptime(cat2("VM CTFE returned unsupported runtime value ", text.as_str())),
                        ready - reply.steps,
                    )
                )
            } else {
                Err(halt(out_of_fuel(name), ready))
            }
        },
    }
}

#[verifier::opaque]
pub open spec fn fuel_missing(name: Seq<char>) -> ComptimeErrorView {
    no_comptime("VM CTFE failed for '"@ + name + "': out of fuel"@)
}

/// See [`fuel_missing`].
pub fn out_of_fuel(name: &String) -> (r: ComptimeError)
    ensures
        r@ == fuel_missing(name@),
{
    proof { reveal(fuel_missing); }
    not_comptime(cat3("VM CTFE failed for '", name.as_str(), "': out of fuel"))
}

/// A call with all its values known: the value of the reply to it, or the call
/// itself when it has not been run. Only a function that reaches nothing unsafe is
/// run.
#[verifier::opaque]
pub open spec fn call_run(
    f: CtFnView,
    values: Seq<CtValueView>,
    args: Seq<CtValueView>,
    cx: CtContextView,
    fuel: usize,
) -> Result<(CtValueView, usize), HaltView> {
    let at_run = params_with_values(values, f.ct_params, 0, Seq::empty(), 0);
    let (safe, needed) = fn_safe(f.name, cx);
    if !all_entries_runnable(at_run, 0) {
        Err(halted(unrunnable(), fuel))
    } else if !safe {
        Err(halted(no_comptime("'"@ + f.name + "' is not safe for VM-backed compile-time execution"@), fuel))
    } else if !all_runnable(args, 0) {
        Err(halted(unrunnable(), fuel))
    } else {
        match reply_to(cx.replies, f.name, values, args, 0, None) {
            Some(reply) => value_of_reply(reply, f.name, fuel),
            None => {
                let locals = bound_pairs(
                    f.params,
                    args,
                    0,
                    values_named(values, f.ct_params, 0, Seq::empty(), 0),
                    0,
                );
                Err(
                    halted(
                        ComptimeErrorView::Pending(
                            CtCallView {
                                name: f.name,
                                values,
                                needed,
                                locals,
                                value_params: at_run,
                                args,
                                fuel,
                            }
                        ),
                        fuel,
                    )
                )
            },
        }
    }
}

/// See [`call_run`].
pub fn run_call(
    f: &CtFn,
    values: &Vec<CtValue>,
    args: &Vec<CtValue>,
    cx: &CtContext,
    fuel: usize,
) -> (r: Result<(CtValue, usize), Halt>)
    ensures
        (match r { Ok(v) => Ok((v.0@, v.1)), Err(v) => Err(v@) }) == call_run(
            f@,
            ct_value_list_view(values@),
            ct_value_list_view(args@),
            cx@,
            fuel,
        ),
{
    proof { reveal(call_run); }
    let at_run = value_params(values, &f.ct_params);
    let (safe, needed) = vm_ctfe_safe_fn(&f.name, cx);
    if !entries_runnable(&at_run) {
        Err(halt(not_runnable(), fuel))
    } else if !safe {
        Err(halt(not_comptime(cat3("'", &f.name.as_str(), "' is not safe for VM-backed compile-time execution")), fuel))
    } else if !are_runnable(args) {
        Err(halt(not_runnable(), fuel))
    } else {
        match find_reply(&cx.replies, &f.name, values, args) {
            Some(reply) => reply_value(&reply, &f.name, fuel),
            None => {
                let locals = paired(&f.params, args, named_values(values, &f.ct_params));
                let call = CtCall {
                    name: (&f.name).clone(),
                    values: clone_ct_value_list(values),
                    needed,
                    locals,
                    value_params: at_run,
                    args: clone_ct_value_list(args),
                    fuel,
                };
                proof { unfold_ct_call(call); }
                Err(halt(ComptimeError::Pending(call), fuel))
            },
        }
    }
}

#[verifier::opaque]
pub open spec fn nested_too_deep() -> ComptimeErrorView {
    no_comptime("compile-time members nested too deeply"@)
}

/// See [`nested_too_deep`].
pub fn too_deep() -> (r: ComptimeError)
    ensures
        r@ == nested_too_deep(),
{
    proof { reveal(nested_too_deep); }
    not_comptime("compile-time members nested too deeply".to_owned())
}

/// The value of an expression, with the steps left. `depth` bounds how far the
/// members of types may lead from one to another.
pub open spec fn evaluated(
    e: ExprView,
    scope: Seq<(Seq<char>, CtValueView)>,
    cx: CtContextView,
    fuel: usize,
    depth: u32,
) -> Result<(CtValueView, usize), HaltView>
    decreases depth, e, 0nat,
{
    match e.kind {
        ExprKindView::Int(n) => Ok((CtValueView::Int(n), fuel)),
        ExprKindView::Float(bits) => Ok((CtValueView::Float(bits), fuel)),
        ExprKindView::Bool(b) => Ok((CtValueView::Bool(b), fuel)),
        ExprKindView::Str(text) => Ok((CtValueView::Str(text), fuel)),
        ExprKindView::Identifier(name) => match value_of_name(name, scope, cx) {
            Ok(out) => {
                let value = out;
                Ok((value, fuel))
            },
            Err(error) => Err(HaltView { error, fuel }),
        },
        ExprKindView::TypeApply { .. } => evaluated_type(e.kind, scope, cx, fuel, depth),
        ExprKindView::TupleLit(elements) => match evaluated_all(
            elements,
            scope,
            cx,
            depth,
            0,
            Seq::empty(),
            fuel,
        ) {
            Ok(out) => {
                let (values, fuel) = out;
                Ok((CtValueView::Tuple(values), fuel))
            },
            Err(error) => Err(error),
        },
        ExprKindView::ListLit(elements) => match evaluated_all(
            elements,
            scope,
            cx,
            depth,
            0,
            Seq::empty(),
            fuel,
        ) {
            Ok(out) => {
                let (values, fuel) = out;
                Ok((CtValueView::List(values), fuel))
            },
            Err(error) => Err(error),
        },
        ExprKindView::Member { .. } => evaluated_member(e.kind, scope, cx, fuel, depth),
        ExprKindView::Index { .. } => evaluated_index(e.kind, scope, cx, fuel, depth),
        ExprKindView::MethodCall { .. } => evaluated_method(e.kind, scope, cx, fuel, depth),
        ExprKindView::Invoke { .. } => evaluated_invoke(e.kind, scope, cx, fuel, depth),
        ExprKindView::Prefix(op, inner) => match evaluated(*inner, scope, cx, fuel, depth) {
            Ok(out) => {
                let (value, fuel) = out;
                match prefix_result(op, value) {
                    Ok(out) => {
                        let value = out;
                        Ok((value, fuel))
                    },
                    Err(error) => Err(HaltView { error, fuel }),
                }
            },
            Err(error) => Err(error),
        },
        ExprKindView::Infix(_, _, _) => evaluated_infix(e.kind, scope, cx, fuel, depth),
        ExprKindView::Compare { first, rest } => match evaluated(*first, scope, cx, fuel, depth) {
            Ok(out) => {
                let (value, fuel) = out;
                match integer_of(value, "chained comparison"@) {
                    Ok(out) => {
                        let left = out;
                        evaluated_chain(rest, scope, cx, depth, 0, left, fuel)
                    },
                    Err(error) => Err(HaltView { error, fuel }),
                }
            },
            Err(error) => Err(error),
        },
        ExprKindView::Call { .. } => evaluated_call(e.kind, scope, cx, fuel, depth),
        _ => Err(halted(no_comptime("unsupported compile-time expression"@), fuel)),
    }
}

/// See [`evaluated`].
pub fn eval(
    e: &Expr,
    scope: &Vec<(String, CtValue)>,
    cx: &CtContext,
    fuel: usize,
    depth: u32,
) -> (r: Result<(CtValue, usize), Halt>)
    ensures
        (
            match r { Ok(v) => Ok((v.0@, v.1)), Err(v) => Err(v@) }
        ) == evaluated(e@, binding_list_view(scope@), cx@, fuel, depth),
    decreases depth, e, 0nat,
{
    proof { unfold_expr_kind(e.kind); }
    match &e.kind {
        ExprKind::Int(n) => {
            let value2 = CtValue::Int(*n);
            proof { unfold_ct_value(value2); }
            Ok((value2, fuel))
        },
        ExprKind::Float(bits) => {
            let value3 = CtValue::Float(*bits);
            proof { unfold_ct_value(value3); }
            Ok((value3, fuel))
        },
        ExprKind::Bool(b) => {
            let value4 = CtValue::Bool(*b);
            proof { unfold_ct_value(value4); }
            Ok((value4, fuel))
        },
        ExprKind::Str(text) => {
            let value5 = CtValue::Str(text.clone());
            proof { unfold_ct_value(value5); }
            Ok((value5, fuel))
        },
        ExprKind::Identifier(name) => {
            let value = match name_value(name, scope, cx) {
                Ok(done) => done,
                Err(error) => {
                    return Err(Halt { error, fuel });
                },
            };
            Ok((value, fuel))
        },
        ExprKind::TypeApply { .. } => eval_type_apply(&e.kind, scope, cx, fuel, depth),
        ExprKind::TupleLit(elements) => {
            let (values, fuel) = match eval_all(elements, scope, cx, fuel, depth) {
                Ok(done) => done,
                Err(error) => {
                    return Err(error);
                },
            };
            let value6 = CtValue::Tuple(values);
            proof { unfold_ct_value(value6); }
            Ok((value6, fuel))
        },
        ExprKind::ListLit(elements) => {
            let (values, fuel) = match eval_all(elements, scope, cx, fuel, depth) {
                Ok(done) => done,
                Err(error) => {
                    return Err(error);
                },
            };
            let value7 = CtValue::List(values);
            proof { unfold_ct_value(value7); }
            Ok((value7, fuel))
        },
        ExprKind::Member { .. } => eval_member(&e.kind, scope, cx, fuel, depth),
        ExprKind::Index { .. } => eval_index(&e.kind, scope, cx, fuel, depth),
        ExprKind::MethodCall { .. } => eval_method(&e.kind, scope, cx, fuel, depth),
        ExprKind::Invoke { .. } => eval_invoke(&e.kind, scope, cx, fuel, depth),
        ExprKind::Prefix(op, inner) => {
            let (value, fuel) = match eval(&**inner, scope, cx, fuel, depth) {
                Ok(done) => done,
                Err(error) => {
                    return Err(error);
                },
            };
            let value = match prefix_operation(*op, &value) {
                Ok(done) => done,
                Err(error) => {
                    return Err(Halt { error, fuel });
                },
            };
            Ok((value, fuel))
        },
        ExprKind::Infix(_, _, _) => eval_infix(&e.kind, scope, cx, fuel, depth),
        ExprKind::Compare { first, rest } => {
            let (value, fuel) = match eval(&**first, scope, cx, fuel, depth) {
                Ok(done) => done,
                Err(error) => {
                    return Err(error);
                },
            };
            let left: i64 = match as_int(&value, "chained comparison") {
                Ok(done) => done,
                Err(error) => {
                    return Err(Halt { error, fuel });
                },
            };
            eval_chain(rest, left, scope, cx, fuel, depth)
        },
        ExprKind::Call { .. } => eval_call(&e.kind, scope, cx, fuel, depth),
        _ => {
            assert(!(e.kind@ is Int));
            assert(!(e.kind@ is Float));
            assert(!(e.kind@ is Bool));
            assert(!(e.kind@ is Str));
            assert(!(e.kind@ is Identifier));
            assert(!(e.kind@ is TypeApply));
            assert(!(e.kind@ is TupleLit));
            assert(!(e.kind@ is ListLit));
            assert(!(e.kind@ is Member));
            assert(!(e.kind@ is Index));
            assert(!(e.kind@ is MethodCall));
            assert(!(e.kind@ is Invoke));
            assert(!(e.kind@ is Prefix));
            assert(!(e.kind@ is Infix));
            assert(!(e.kind@ is Compare));
            assert(!(e.kind@ is Call));
            Err(halt(not_comptime("unsupported compile-time expression".to_owned()), fuel))
        },
    }
}

/// Negation of an integer or a boolean. The negation of the least integer is none.
#[verifier::opaque]
pub open spec fn prefix_result(
    op: PrefixOp,
    value: CtValueView,
) -> Result<CtValueView, ComptimeErrorView> {
    match op {
        PrefixOp::Neg => match integer_of(value, "unary '-'"@) {
            Ok(out) => {
                let n = out;
                fitting(fit(0 - n))
            },
            Err(error) => Err(error),
        },
        PrefixOp::Not => match boolean_of(value, "'not'"@) {
            Ok(out) => {
                let b = out;
                Ok(CtValueView::Bool(!b))
            },
            Err(error) => Err(error),
        },
    }
}

/// See [`prefix_result`].
pub fn prefix_operation(op: PrefixOp, value: &CtValue) -> (r: Result<CtValue, ComptimeError>)
    ensures
        (match r { Ok(v) => Ok(v@), Err(v) => Err(v@) }) == prefix_result(op, value@),
{
    proof { reveal(prefix_result); }
    match op {
        PrefixOp::Neg => {
            let n: i64 = match as_int(value, "unary '-'") {
                Ok(done) => done,
                Err(error) => {
                    return Err(error);
                },
            };
            in_range(checked_difference(0, n))
        },
        PrefixOp::Not => {
            let b = match as_bool(value, "'not'") {
                Ok(done) => done,
                Err(error) => {
                    return Err(error);
                },
            };
            let value2 = CtValue::Bool(!b);
            proof { unfold_ct_value(value2); }
            Ok(value2)
        },
    }
}

pub open spec fn evaluated_all(
    values: Seq<ExprView>,
    scope: Seq<(Seq<char>, CtValueView)>,
    cx: CtContextView,
    depth: u32,
    i: nat,
    out: Seq<CtValueView>,
    fuel: usize,
) -> Result<(Seq<CtValueView>, usize), HaltView>
    decreases depth, values, (values.len() - i) as nat,
{
    if i >= values.len() {
        Ok((out, fuel))
    } else {
        let value = values[i as int];
        match evaluated(value, scope, cx, fuel, depth) {
            Ok(taken) => {
                let (found, rest) = taken;
                let out = out.push(found);
                let fuel = rest;
                evaluated_all(values, scope, cx, depth, i + 1, out, fuel)
            },
            Err(error) => Err(error),
        }
    }
}

/// See [`evaluated_all`].
pub fn eval_all(
    values: &Vec<Expr>,
    scope: &Vec<(String, CtValue)>,
    cx: &CtContext,
    start: usize,
    depth: u32,
) -> (r: Result<(Vec<CtValue>, usize), Halt>)
    ensures
        (
            match r { Ok(v) => Ok((ct_value_list_view(v.0@), v.1)), Err(v) => Err(v@) }
        ) == evaluated_all(
            expr_list_view(values@),
            binding_list_view(scope@),
            cx@,
            depth,
            0,
            Seq::<CtValueView>::empty(),
            start,
        ),
    decreases depth, values@, 0nat,
{
    let mut out: Vec<CtValue> = Vec::new();
    assert(ct_value_list_view(out@) =~= Seq::<CtValueView>::empty());
    let mut fuel: usize = start;
    let ghost goal = evaluated_all(
        expr_list_view(values@),
        binding_list_view(scope@),
        cx@,
        depth,
        0,
        Seq::<CtValueView>::empty(),
        start,
    );
    let mut i: usize = 0;
    while i < values.len()
        invariant
            i <= values@.len(),
            expr_list_view(values@).len() == values@.len(),
            evaluated_all(
                expr_list_view(values@),
                binding_list_view(scope@),
                cx@,
                depth,
                i as nat,
                ct_value_list_view(out@),
                fuel,
            ) == goal,
            goal == evaluated_all(
                expr_list_view(values@),
                binding_list_view(scope@),
                cx@,
                depth,
                0,
                Seq::<CtValueView>::empty(),
                start,
            ),
        decreases values@.len() - i,
    {
        let value = &values[i];
        assert(expr_list_view(values@)[i as int] == value@);
        let (found, rest) = match eval(value, scope, cx, fuel, depth) {
            Ok(done) => done,
            Err(error) => {
                return Err(error);
            },
        };
        let ghost before = ct_value_list_view(out@);
        let ghost added = found@;
        out.push(found);
        assert(ct_value_list_view(out@) =~= before.push(added));
        fuel = rest;
        i = i + 1;
    }
    Ok((out, fuel))
}

/// A chain of comparisons. It ends at the first one that fails.
pub open spec fn evaluated_chain(
    rest: Seq<(InfixOp, ExprView)>,
    scope: Seq<(Seq<char>, CtValueView)>,
    cx: CtContextView,
    depth: u32,
    i: nat,
    left: i64,
    fuel: usize,
) -> Result<(CtValueView, usize), HaltView>
    decreases depth, rest, (rest.len() - i) as nat,
{
    if i >= rest.len() {
        Ok((CtValueView::Bool(true), fuel))
    } else {
        let link = rest[i as int];
        match evaluated(link.1, scope, cx, fuel, depth) {
            Ok(out) => {
                let (value, remaining) = out;
                let fuel = remaining;
                match integer_of(value, "chained comparison"@) {
                    Ok(out) => {
                        let right = out;
                        match ints_compare(link.0, left, right) {
                            Ok(out) => {
                                let holds = out;
                                if !holds {
                                    Ok((CtValueView::Bool(false), fuel))
                                } else {
                                    let left = right;
                                    evaluated_chain(rest, scope, cx, depth, i + 1, left, fuel)
                                }
                            },
                            Err(error) => Err(HaltView { error, fuel }),
                        }
                    },
                    Err(error) => Err(HaltView { error, fuel }),
                }
            },
            Err(error) => Err(error),
        }
    }
}

/// See [`evaluated_chain`].
pub fn eval_chain(
    rest: &Vec<(InfixOp, Expr)>,
    first: i64,
    scope: &Vec<(String, CtValue)>,
    cx: &CtContext,
    start: usize,
    depth: u32,
) -> (r: Result<(CtValue, usize), Halt>)
    ensures
        (match r { Ok(v) => Ok((v.0@, v.1)), Err(v) => Err(v@) }) == evaluated_chain(
            comparison_list_view(rest@),
            binding_list_view(scope@),
            cx@,
            depth,
            0,
            first,
            start,
        ),
    decreases depth, rest@, 0nat,
{
    let mut left: i64 = first;
    let mut fuel: usize = start;
    let ghost goal = evaluated_chain(
        comparison_list_view(rest@),
        binding_list_view(scope@),
        cx@,
        depth,
        0,
        first,
        start,
    );
    let mut i: usize = 0;
    while i < rest.len()
        invariant
            i <= rest@.len(),
            comparison_list_view(rest@).len() == rest@.len(),
            evaluated_chain(
                comparison_list_view(rest@),
                binding_list_view(scope@),
                cx@,
                depth,
                i as nat,
                left,
                fuel,
            ) == goal,
            goal == evaluated_chain(
                comparison_list_view(rest@),
                binding_list_view(scope@),
                cx@,
                depth,
                0,
                first,
                start,
            ),
        decreases rest@.len() - i,
    {
        let link = &rest[i];
        assert(comparison_list_view(rest@)[i as int].1 =~= link.1@);
        let (value, remaining) = match eval(&link.1, scope, cx, fuel, depth) {
            Ok(done) => done,
            Err(error) => {
                return Err(error);
            },
        };
        fuel = remaining;
        let right: i64 = match as_int(&value, "chained comparison") {
            Ok(done) => done,
            Err(error) => {
                return Err(Halt { error, fuel });
            },
        };
        let holds = match compare_ints(link.0, left, right) {
            Ok(done) => done,
            Err(error) => {
                return Err(Halt { error, fuel });
            },
        };
        if !holds {
            let value2 = CtValue::Bool(false);
            proof { unfold_ct_value(value2); }
            return Ok((value2, fuel));
        }
        left = right;
        i = i + 1;
    }
    let value3 = CtValue::Bool(true);
    proof { unfold_ct_value(value3); }
    Ok((value3, fuel))
}

/// An operand once more. One that took no steps is known already.
pub open spec fn evaluated_again(
    e: ExprView,
    value: CtValueView,
    taken: bool,
    scope: Seq<(Seq<char>, CtValueView)>,
    cx: CtContextView,
    fuel: usize,
    depth: u32,
) -> Result<(CtValueView, usize), HaltView>
    decreases depth, e, 1nat,
{
    if taken {
        evaluated(e, scope, cx, fuel, depth)
    } else {
        Ok((value, fuel))
    }
}

/// See [`evaluated_again`].
pub fn eval_again(
    e: &Expr,
    value: &CtValue,
    taken: bool,
    scope: &Vec<(String, CtValue)>,
    cx: &CtContext,
    fuel: usize,
    depth: u32,
) -> (r: Result<(CtValue, usize), Halt>)
    ensures
        (match r { Ok(v) => Ok((v.0@, v.1)), Err(v) => Err(v@) }) == evaluated_again(
            e@,
            value@,
            taken,
            binding_list_view(scope@),
            cx@,
            fuel,
            depth,
        ),
    decreases depth, e, 1nat,
{
    if taken {
        eval(e, scope, cx, fuel, depth)
    } else {
        Ok((clone_ct_value(value), fuel))
    }
}

#[verifier::opaque]
pub open spec fn two_strings(a: CtValueView, b: CtValueView) -> bool {
    match a {
        CtValueView::Str(_) => match b {
            CtValueView::Str(_) => true,
            _ => false,
        },
        _ => false,
    }
}

/// See [`two_strings`].
pub fn both_strings(a: &CtValue, b: &CtValue) -> (r: bool)
    ensures
        r == two_strings(a@, b@),
{
    proof { reveal(two_strings); }
    proof { unfold_ct_value(*a); }
    match a {
        CtValue::Str(_) => {
            proof { unfold_ct_value(*b); }
            match b {
                CtValue::Str(_) => true,
                _ => {
                    assert(!(b@ is Str));
                    false
                },
            }
        },
        _ => {
            assert(!(a@ is Str));
            false
        },
    }
}

/// An infix operation. `and` and `or` look at their right side only when they have
/// to. Operands that are not both strings are evaluated a second time, as integers.
pub open spec fn evaluated_infix(
    kind: ExprKindView,
    scope: Seq<(Seq<char>, CtValueView)>,
    cx: CtContextView,
    fuel: usize,
    depth: u32,
) -> Result<(CtValueView, usize), HaltView>
    decreases depth, kind, 0nat,
{
    match kind {
        ExprKindView::Infix(op, left, right) => {
            let before = fuel;
            match evaluated(*left, scope, cx, fuel, depth) {
                Ok(out) => {
                    let (a, fuel) = out;
                    let between = fuel;
                    match op {
                        InfixOp::And => match boolean_of(a, "'and'"@) {
                            Ok(out) => {
                                let holds = out;
                                if holds {
                                    match evaluated(*right, scope, cx, fuel, depth) {
                                        Ok(out) => {
                                            let (b, fuel) = out;
                                            match boolean_of(b, "'and'"@) {
                                                Ok(out) => {
                                                    let holds = out;
                                                    Ok((CtValueView::Bool(holds), fuel))
                                                },
                                                Err(error) => Err(HaltView { error, fuel }),
                                            }
                                        },
                                        Err(error) => Err(error),
                                    }
                                } else {
                                    Ok((CtValueView::Bool(false), fuel))
                                }
                            },
                            Err(error) => Err(HaltView { error, fuel }),
                        },
                        InfixOp::Or => match boolean_of(a, "'or'"@) {
                            Ok(out) => {
                                let holds = out;
                                if holds {
                                    Ok((CtValueView::Bool(true), fuel))
                                } else {
                                    match evaluated(*right, scope, cx, fuel, depth) {
                                        Ok(out) => {
                                            let (b, fuel) = out;
                                            match boolean_of(b, "'or'"@) {
                                                Ok(out) => {
                                                    let holds = out;
                                                    Ok((CtValueView::Bool(holds), fuel))
                                                },
                                                Err(error) => Err(HaltView { error, fuel }),
                                            }
                                        },
                                        Err(error) => Err(error),
                                    }
                                }
                            },
                            Err(error) => Err(HaltView { error, fuel }),
                        },
                        _ => match evaluated(*right, scope, cx, fuel, depth) {
                            Ok(out) => {
                                let (b, fuel) = out;
                                let after = fuel;
                                if two_strings(a, b) {
                                    match op_result(op, a, b) {
                                        Ok(out) => {
                                            let value = out;
                                            Ok((value, fuel))
                                        },
                                        Err(error) => Err(HaltView { error, fuel }),
                                    }
                                } else {
                                    match evaluated_again(
                                        *left,
                                        a,
                                        between != before,
                                        scope,
                                        cx,
                                        fuel,
                                        depth,
                                    ) {
                                        Ok(out) => {
                                            let (a, fuel) = out;
                                            match integer_of(a, "integer operator"@) {
                                                Ok(out) => {
                                                    let _ = out;
                                                    match evaluated_again(
                                                        *right,
                                                        b,
                                                        after != between,
                                                        scope,
                                                        cx,
                                                        fuel,
                                                        depth,
                                                    ) {
                                                        Ok(out) => {
                                                            let (b, fuel) = out;
                                                            match op_result(op, a, b) {
                                                                Ok(out) => {
                                                                    let value = out;
                                                                    Ok((value, fuel))
                                                                },
                                                                Err(error) => Err(
                                                                    HaltView { error, fuel }
                                                                ),
                                                            }
                                                        },
                                                        Err(error) => Err(error),
                                                    }
                                                },
                                                Err(error) => Err(HaltView { error, fuel }),
                                            }
                                        },
                                        Err(error) => Err(error),
                                    }
                                }
                            },
                            Err(error) => Err(error),
                        },
                    }
                },
                Err(error) => Err(error),
            }
        },
        _ => Err(halted(nested_too_deep(), fuel)),
    }
}

/// See [`evaluated_infix`].
pub fn eval_infix(
    kind: &ExprKind,
    scope: &Vec<(String, CtValue)>,
    cx: &CtContext,
    fuel: usize,
    depth: u32,
) -> (r: Result<(CtValue, usize), Halt>)
    ensures
        (
            match r { Ok(v) => Ok((v.0@, v.1)), Err(v) => Err(v@) }
        ) == evaluated_infix(kind@, binding_list_view(scope@), cx@, fuel, depth),
    decreases depth, kind, 0nat,
{
    proof { unfold_expr_kind(*kind); }
    match kind {
        ExprKind::Infix(op, left, right) => {
            let before: usize = fuel;
            let (a, fuel) = match eval(&**left, scope, cx, fuel, depth) {
                Ok(done) => done,
                Err(error) => {
                    return Err(error);
                },
            };
            let between: usize = fuel;
            match op {
                InfixOp::And => {
                    let holds = match as_bool(&a, "'and'") {
                        Ok(done) => done,
                        Err(error) => {
                            return Err(Halt { error, fuel });
                        },
                    };
                    if holds {
                        let (b, fuel) = match eval(&**right, scope, cx, fuel, depth) {
                            Ok(done) => done,
                            Err(error) => {
                                return Err(error);
                            },
                        };
                        let holds = match as_bool(&b, "'and'") {
                            Ok(done) => done,
                            Err(error) => {
                                return Err(Halt { error, fuel });
                            },
                        };
                        let value2 = CtValue::Bool(holds);
                        proof { unfold_ct_value(value2); }
                        Ok((value2, fuel))
                    } else {
                        let value3 = CtValue::Bool(false);
                        proof { unfold_ct_value(value3); }
                        Ok((value3, fuel))
                    }
                },
                InfixOp::Or => {
                    let holds = match as_bool(&a, "'or'") {
                        Ok(done) => done,
                        Err(error) => {
                            return Err(Halt { error, fuel });
                        },
                    };
                    if holds {
                        let value4 = CtValue::Bool(true);
                        proof { unfold_ct_value(value4); }
                        Ok((value4, fuel))
                    } else {
                        let (b, fuel) = match eval(&**right, scope, cx, fuel, depth) {
                            Ok(done) => done,
                            Err(error) => {
                                return Err(error);
                            },
                        };
                        let holds = match as_bool(&b, "'or'") {
                            Ok(done) => done,
                            Err(error) => {
                                return Err(Halt { error, fuel });
                            },
                        };
                        let value5 = CtValue::Bool(holds);
                        proof { unfold_ct_value(value5); }
                        Ok((value5, fuel))
                    }
                },
                _ => {
                    let (b, fuel) = match eval(&**right, scope, cx, fuel, depth) {
                        Ok(done) => done,
                        Err(error) => {
                            return Err(error);
                        },
                    };
                    let after: usize = fuel;
                    if both_strings(&a, &b) {
                        let value = match value_operation(*op, &a, &b) {
                            Ok(done) => done,
                            Err(error) => {
                                return Err(Halt { error, fuel });
                            },
                        };
                        Ok((value, fuel))
                    } else {
                        let (a, fuel) = match eval_again(
                            &**left,
                            &a,
                            between != before,
                            scope,
                            cx,
                            fuel,
                            depth,
                        ) {
                            Ok(done) => done,
                            Err(error) => {
                                return Err(error);
                            },
                        };
                        let _ = match as_int(&a, "integer operator") {
                            Ok(done) => done,
                            Err(error) => {
                                return Err(Halt { error, fuel });
                            },
                        };
                        let (b, fuel) = match eval_again(
                            &**right,
                            &b,
                            after != between,
                            scope,
                            cx,
                            fuel,
                            depth,
                        ) {
                            Ok(done) => done,
                            Err(error) => {
                                return Err(error);
                            },
                        };
                        let value = match value_operation(*op, &a, &b) {
                            Ok(done) => done,
                            Err(error) => {
                                return Err(Halt { error, fuel });
                            },
                        };
                        Ok((value, fuel))
                    }
                },
            }
        },
        _ => {
            assert(!(kind@ is Infix));
            Err(halt(too_deep(), fuel))
        },
    }
}

/// A type with arguments, or a reflection handle of one.
pub open spec fn evaluated_type(
    kind: ExprKindView,
    scope: Seq<(Seq<char>, CtValueView)>,
    cx: CtContextView,
    fuel: usize,
    depth: u32,
) -> Result<(CtValueView, usize), HaltView>
    decreases depth, kind, 0nat,
{
    match kind {
        ExprKindView::TypeApply { name, args } => if name == "reflect"@ {
            if args.len() == 1 {
                match type_of_param_arg(args[0], scope, cx, fuel, depth) {
                    Ok(out) => {
                        let (ty, fuel) = out;
                        Ok((CtValueView::Reflected(Box::new(ty)), fuel))
                    },
                    Err(error) => Err(error),
                }
            } else {
                Err(halted(ComptimeErrorView::Arity("reflect[T] takes exactly one type parameter"@), fuel))
            }
        } else {
            match type_of_name(name, args, scope, cx, fuel, depth) {
                Ok(out) => {
                    let (ty, fuel) = out;
                    Ok((CtValueView::Type(Box::new(ty)), fuel))
                },
                Err(error) => Err(error),
            }
        },
        _ => Err(halted(nested_too_deep(), fuel)),
    }
}

/// See [`evaluated_type`].
pub fn eval_type_apply(
    kind: &ExprKind,
    scope: &Vec<(String, CtValue)>,
    cx: &CtContext,
    fuel: usize,
    depth: u32,
) -> (r: Result<(CtValue, usize), Halt>)
    ensures
        (
            match r { Ok(v) => Ok((v.0@, v.1)), Err(v) => Err(v@) }
        ) == evaluated_type(kind@, binding_list_view(scope@), cx@, fuel, depth),
    decreases depth, kind, 0nat,
{
    proof { unfold_expr_kind(*kind); }
    match kind {
        ExprKind::TypeApply { name, args } => {
            if same_text(name.as_str(), "reflect") {
                if args.len() == 1 {
                    let (ty, fuel) = match param_arg_type(&args[0], scope, cx, fuel, depth) {
                        Ok(done) => done,
                        Err(error) => {
                            return Err(error);
                        },
                    };
                    let value = CtValue::Reflected(Box::new(ty));
                    proof { unfold_ct_value(value); }
                    Ok((value, fuel))
                } else {
                    Err(halt(ComptimeError::Arity("reflect[T] takes exactly one type parameter".to_owned()), fuel))
                }
            } else {
                let (ty, fuel) = match type_from_name(name, args, scope, cx, fuel, depth) {
                    Ok(done) => done,
                    Err(error) => {
                        return Err(error);
                    },
                };
                let value2 = CtValue::Type(Box::new(ty));
                proof { unfold_ct_value(value2); }
                Ok((value2, fuel))
            }
        },
        _ => {
            assert(!(kind@ is TypeApply));
            Err(halt(too_deep(), fuel))
        },
    }
}

/// A member of `Self`, of a type, or of a reflection handle.
pub open spec fn evaluated_member(
    kind: ExprKindView,
    scope: Seq<(Seq<char>, CtValueView)>,
    cx: CtContextView,
    fuel: usize,
    depth: u32,
) -> Result<(CtValueView, usize), HaltView>
    decreases depth, kind, 0nat,
{
    match kind {
        ExprKindView::Member { object, field } => match member_of_self(*object, field, scope) {
            Some(value) => Ok((value, fuel)),
            None => match evaluated(*object, scope, cx, fuel, depth) {
                Ok(out) => {
                    let (value, fuel) = out;
                    match value {
                        CtValueView::Type(ty) => if depth > 1 {
                            value_associated(*ty, field, cx, fuel, (depth - 1) as u32)
                        } else {
                            Err(halted(nested_too_deep(), fuel))
                        },
                        CtValueView::Reflected(ty) => if field == "T"@ {
                            Ok((CtValueView::Type(Box::new(type_itself(*ty))), fuel))
                        } else {
                            Err(halted(type_value_needed(field), fuel))
                        },
                        _ => Err(halted(type_value_needed(field), fuel)),
                    }
                },
                Err(error) => Err(error),
            },
        },
        _ => Err(halted(nested_too_deep(), fuel)),
    }
}

/// See [`evaluated_member`].
pub fn eval_member(
    kind: &ExprKind,
    scope: &Vec<(String, CtValue)>,
    cx: &CtContext,
    fuel: usize,
    depth: u32,
) -> (r: Result<(CtValue, usize), Halt>)
    ensures
        (
            match r { Ok(v) => Ok((v.0@, v.1)), Err(v) => Err(v@) }
        ) == evaluated_member(kind@, binding_list_view(scope@), cx@, fuel, depth),
    decreases depth, kind, 0nat,
{
    proof { unfold_expr_kind(*kind); }
    match kind {
        ExprKind::Member { object, field } => {
            match self_member(&**object, field, scope) {
                Some(value) => Ok((value, fuel)),
                None => {
                    let (value, fuel) = match eval(&**object, scope, cx, fuel, depth) {
                        Ok(done) => done,
                        Err(error) => {
                            return Err(error);
                        },
                    };
                    proof { unfold_ct_value(value); }
                    match &value {
                        CtValue::Type(ty) => {
                            if depth > 1 {
                                associated_value(&**ty, field, cx, fuel, depth - 1)
                            } else {
                                Err(halt(too_deep(), fuel))
                            }
                        },
                        CtValue::Reflected(ty) => {
                            if same_text(field.as_str(), "T") {
                                let value2 = CtValue::Type(Box::new(copied_type(&**ty)));
                                proof { unfold_ct_value(value2); }
                                Ok((value2, fuel))
                            } else {
                                Err(halt(no_type_value(field), fuel))
                            }
                        },
                        _ => {
                            assert(!(value@ is Type));
                            assert(!(value@ is Reflected));
                            Err(halt(no_type_value(field), fuel))
                        },
                    }
                },
            }
        },
        _ => {
            assert(!(kind@ is Member));
            Err(halt(too_deep(), fuel))
        },
    }
}

#[verifier::opaque]
pub open spec fn type_value_needed(field: Seq<char>) -> ComptimeErrorView {
    no_comptime("compile-time member access '."@ + field + "' needs a type value"@)
}

/// See [`type_value_needed`].
pub fn no_type_value(field: &String) -> (r: ComptimeError)
    ensures
        r@ == type_value_needed(field@),
{
    proof { reveal(type_value_needed); }
    not_comptime(cat3("compile-time member access '.", field.as_str(), "' needs a type value"))
}

#[verifier::opaque]
pub open spec fn member_of_self(
    object: ExprView,
    field: Seq<char>,
    scope: Seq<(Seq<char>, CtValueView)>,
) -> Option<CtValueView> {
    match object.kind {
        ExprKindView::Identifier(name) => if name == "Self"@ {
            value_bound(scope, field)
        } else {
            None
        },
        _ => None,
    }
}

/// See [`member_of_self`].
pub fn self_member(
    object: &Expr,
    field: &String,
    scope: &Vec<(String, CtValue)>,
) -> (r: Option<CtValue>)
    ensures
        opt_view(r) == member_of_self(object@, field@, binding_list_view(scope@)),
{
    proof { reveal(member_of_self); }
    proof { unfold_expr_kind(object.kind); }
    match &object.kind {
        ExprKind::Identifier(name) => {
            if same_text(name.as_str(), "Self") {
                find_binding(scope, field)
            } else {
                None
            }
        },
        _ => {
            assert(!(object.kind@ is Identifier));
            None
        },
    }
}

/// A member of a type: the value of the expression that declares it.
pub open spec fn value_associated(
    base: TyView,
    member: Seq<char>,
    cx: CtContextView,
    fuel: usize,
    depth: u32,
) -> Result<(CtValueView, usize), HaltView>
    decreases depth, base, 0nat,
{
    match member_of_type(base, member, cx) {
        Ok(out) => {
            let (value, env) = out;
            if depth > 0 {
                evaluated(value, env, cx, fuel, (depth - 1) as u32)
            } else {
                Err(halted(nested_too_deep(), fuel))
            }
        },
        Err(error) => Err(HaltView { error, fuel }),
    }
}

/// See [`value_associated`].
pub fn associated_value(
    base: &Ty,
    member: &String,
    cx: &CtContext,
    fuel: usize,
    depth: u32,
) -> (r: Result<(CtValue, usize), Halt>)
    ensures
        (
            match r { Ok(v) => Ok((v.0@, v.1)), Err(v) => Err(v@) }
        ) == value_associated(base@, member@, cx@, fuel, depth),
    decreases depth, base, 0nat,
{
    let (value, env) = match associated_member(base, member, cx) {
        Ok(done) => done,
        Err(error) => {
            return Err(Halt { error, fuel });
        },
    };
    if depth > 0 {
        eval(&value, &env, cx, fuel, depth - 1)
    } else {
        Err(halt(too_deep(), fuel))
    }
}

#[verifier::opaque]
pub open spec fn selects_field(field: Seq<char>) -> bool {
    field == "field"@ || field == "field_at"@ || field == "field_type"@
}

/// See [`selects_field`].
pub fn is_selector(field: &String) -> (r: bool)
    ensures
        r == selects_field(field@),
{
    proof { reveal(selects_field); }
    same_text(field.as_str(), "field") || same_text(field.as_str(), "field_at") || same_text(
        field.as_str(),
        "field_type",
    )
}

/// An element of a tuple or list, or a field of a reflection handle.
pub open spec fn evaluated_index(
    kind: ExprKindView,
    scope: Seq<(Seq<char>, CtValueView)>,
    cx: CtContextView,
    fuel: usize,
    depth: u32,
) -> Result<(CtValueView, usize), HaltView>
    decreases depth, kind, 0nat,
{
    match kind {
        ExprKindView::Index { object, index } => match selector_named(*object) {
            Some(field) => if field == "field_type"@ {
                Err(halted(removed_field_type(), fuel))
            } else {
                match evaluated_selected(*object, scope, cx, fuel, depth) {
                    Ok(out) => {
                        let (handle, fuel) = out;
                        match type_reflected(handle, "compile-time reflection selector '"@, field) {
                            Ok(out) => {
                                let ty = out;
                                match struct_reflected(ty, field + "[...]"@, cx) {
                                    Ok(out) => {
                                        let (info, args) = out;
                                        match evaluated(*index, scope, cx, fuel, depth) {
                                            Ok(out) => {
                                                let (selected, fuel) = out;
                                                match field_selected(field, selected, info) {
                                                    Ok(out) => {
                                                        let k = out;
                                                        if depth > 1 {
                                                            handle_of_field(
                                                                info,
                                                                args,
                                                                k,
                                                                scope,
                                                                cx,
                                                                fuel,
                                                                (depth - 1) as u32,
                                                            )
                                                        } else {
                                                            Err(halted(nested_too_deep(), fuel))
                                                        }
                                                    },
                                                    Err(error) => Err(HaltView { error, fuel }),
                                                }
                                            },
                                            Err(error) => Err(error),
                                        }
                                    },
                                    Err(error) => Err(HaltView { error, fuel }),
                                }
                            },
                            Err(error) => Err(HaltView { error, fuel }),
                        }
                    },
                    Err(error) => Err(error),
                }
            },
            None => match evaluated(*object, scope, cx, fuel, depth) {
                Ok(out) => {
                    let (value, fuel) = out;
                    match sequence_of(value, "indexing a comptime collection"@) {
                        Ok(out) => {
                            let values = out;
                            match evaluated(*index, scope, cx, fuel, depth) {
                                Ok(out) => {
                                    let (at, fuel) = out;
                                    match integer_of(at, "comptime index"@) {
                                        Ok(out) => {
                                            let at = out;
                                            match value_at(values, at) {
                                                Ok(out) => {
                                                    let value = out;
                                                    Ok((value, fuel))
                                                },
                                                Err(error) => Err(HaltView { error, fuel }),
                                            }
                                        },
                                        Err(error) => Err(HaltView { error, fuel }),
                                    }
                                },
                                Err(error) => Err(error),
                            }
                        },
                        Err(error) => Err(HaltView { error, fuel }),
                    }
                },
                Err(error) => Err(error),
            },
        },
        _ => Err(halted(nested_too_deep(), fuel)),
    }
}

/// See [`evaluated_index`].
pub fn eval_index(
    kind: &ExprKind,
    scope: &Vec<(String, CtValue)>,
    cx: &CtContext,
    fuel: usize,
    depth: u32,
) -> (r: Result<(CtValue, usize), Halt>)
    ensures
        (
            match r { Ok(v) => Ok((v.0@, v.1)), Err(v) => Err(v@) }
        ) == evaluated_index(kind@, binding_list_view(scope@), cx@, fuel, depth),
    decreases depth, kind, 0nat,
{
    proof { unfold_expr_kind(*kind); }
    match kind {
        ExprKind::Index { object, index } => {
            match selector_of(&**object) {
                Some(field) => {
                    if same_text(&field.as_str(), "field_type") {
                        Err(halt(field_type_removed(), fuel))
                    } else {
                        let (handle, fuel) = match eval_selected(
                            &**object,
                            scope,
                            cx,
                            fuel,
                            depth,
                        ) {
                            Ok(done) => done,
                            Err(error) => {
                                return Err(error);
                            },
                        };
                        let ty = match reflected(&handle, "compile-time reflection selector '", &field) {
                            Ok(done) => done,
                            Err(error) => {
                                return Err(Halt { error, fuel });
                            },
                        };
                        let (info, args) = match reflected_struct(&ty, &cat2(&field.as_str(), "[...]"), cx) {
                            Ok(done) => done,
                            Err(error) => {
                                return Err(Halt { error, fuel });
                            },
                        };
                        let (selected, fuel) = match eval(&**index, scope, cx, fuel, depth) {
                            Ok(done) => done,
                            Err(error) => {
                                return Err(error);
                            },
                        };
                        let k: usize = match selected_field(&field, &selected, &info) {
                            Ok(done) => done,
                            Err(error) => {
                                return Err(Halt { error, fuel });
                            },
                        };
                        if depth > 1 {
                            field_handle(&info, &args, k, scope, cx, fuel, depth - 1)
                        } else {
                            Err(halt(too_deep(), fuel))
                        }
                    }
                },
                None => {
                    let (value, fuel) = match eval(&**object, scope, cx, fuel, depth) {
                        Ok(done) => done,
                        Err(error) => {
                            return Err(error);
                        },
                    };
                    let values = match as_sequence(&value, "indexing a comptime collection") {
                        Ok(done) => done,
                        Err(error) => {
                            return Err(Halt { error, fuel });
                        },
                    };
                    let (at, fuel) = match eval(&**index, scope, cx, fuel, depth) {
                        Ok(done) => done,
                        Err(error) => {
                            return Err(error);
                        },
                    };
                    let at: i64 = match as_int(&at, "comptime index") {
                        Ok(done) => done,
                        Err(error) => {
                            return Err(Halt { error, fuel });
                        },
                    };
                    let value = match element_at(&values, at) {
                        Ok(done) => done,
                        Err(error) => {
                            return Err(Halt { error, fuel });
                        },
                    };
                    Ok((value, fuel))
                },
            }
        },
        _ => {
            assert(!(kind@ is Index));
            Err(halt(too_deep(), fuel))
        },
    }
}

#[verifier::opaque]
pub open spec fn removed_field_type() -> ComptimeErrorView {
    no_comptime("Reflected.field_type was removed; use Reflected.field[name]"@)
}

/// See [`removed_field_type`].
pub fn field_type_removed() -> (r: ComptimeError)
    ensures
        r@ == removed_field_type(),
{
    proof { reveal(removed_field_type); }
    not_comptime("Reflected.field_type was removed; use Reflected.field[name]".to_owned())
}

/// The field selector that an indexed expression ends in.
#[verifier::opaque]
pub open spec fn selector_named(object: ExprView) -> Option<Seq<char>> {
    match object.kind {
        ExprKindView::Member { field, .. } => if selects_field(field) {
            Some(field)
        } else {
            None
        },
        _ => None,
    }
}

/// See [`selector_named`].
pub fn selector_of(object: &Expr) -> (r: Option<String>)
    ensures
        opt_view(r) == selector_named(object@),
{
    proof { reveal(selector_named); }
    proof { unfold_expr_kind(object.kind); }
    match &object.kind {
        ExprKind::Member { field, .. } => {
            if is_selector(field) {
                Some(field.clone())
            } else {
                None
            }
        },
        _ => {
            assert(!(object.kind@ is Member));
            None
        },
    }
}

/// What stands before a field selector.
pub open spec fn evaluated_selected(
    object: ExprView,
    scope: Seq<(Seq<char>, CtValueView)>,
    cx: CtContextView,
    fuel: usize,
    depth: u32,
) -> Result<(CtValueView, usize), HaltView>
    decreases depth, object, 0nat,
{
    match object.kind {
        ExprKindView::Member { object, .. } => evaluated(*object, scope, cx, fuel, depth),
        _ => Err(halted(nested_too_deep(), fuel)),
    }
}

/// See [`evaluated_selected`].
pub fn eval_selected(
    object: &Expr,
    scope: &Vec<(String, CtValue)>,
    cx: &CtContext,
    fuel: usize,
    depth: u32,
) -> (r: Result<(CtValue, usize), Halt>)
    ensures
        (
            match r { Ok(v) => Ok((v.0@, v.1)), Err(v) => Err(v@) }
        ) == evaluated_selected(object@, binding_list_view(scope@), cx@, fuel, depth),
    decreases depth, object, 0nat,
{
    proof { unfold_expr_kind(object.kind); }
    match &object.kind {
        ExprKind::Member { object, .. } => eval(&**object, scope, cx, fuel, depth),
        _ => {
            assert(!(object.kind@ is Member));
            Err(halt(too_deep(), fuel))
        },
    }
}

/// The reflection handle of a field of a struct with its arguments.
pub open spec fn handle_of_field(
    info: CtStructView,
    args: Seq<TyArgView>,
    k: usize,
    scope: Seq<(Seq<char>, CtValueView)>,
    cx: CtContextView,
    fuel: usize,
    depth: u32,
) -> Result<(CtValueView, usize), HaltView>
    decreases depth, info, 0nat,
{
    let inner = scope_of_struct(args, info.decls, 0, scope, 0);
    if k < info.fields.len() && depth > 0 {
        match type_of_anno(info.fields[k as int].ty, inner, cx, fuel, (depth - 1) as u32) {
            Ok(out) => {
                let (ty, fuel) = out;
                Ok((CtValueView::Reflected(Box::new(ty)), fuel))
            },
            Err(error) => Err(error),
        }
    } else {
        Err(halted(nested_too_deep(), fuel))
    }
}

/// See [`handle_of_field`].
pub fn field_handle(
    info: &CtStruct,
    args: &Vec<TyArg>,
    k: usize,
    scope: &Vec<(String, CtValue)>,
    cx: &CtContext,
    fuel: usize,
    depth: u32,
) -> (r: Result<(CtValue, usize), Halt>)
    ensures
        (match r { Ok(v) => Ok((v.0@, v.1)), Err(v) => Err(v@) }) == handle_of_field(
            info@,
            ty_arg_list_view(args@),
            k,
            binding_list_view(scope@),
            cx@,
            fuel,
            depth,
        ),
    decreases depth, info, 0nat,
{
    let inner = struct_scope(args, &info.decls, clone_binding_list(scope));
    if k < info.fields.len() && depth > 0 {
        let (ty, fuel) = match type_from_anno(&info.fields[k].ty, &inner, cx, fuel, depth - 1) {
            Ok(done) => done,
            Err(error) => {
                return Err(error);
            },
        };
        let value = CtValue::Reflected(Box::new(ty));
        proof { unfold_ct_value(value); }
        Ok((value, fuel))
    } else {
        Err(halt(too_deep(), fuel))
    }
}

/// The length of a tuple or list, or what a reflection handle says.
pub open spec fn evaluated_method(
    kind: ExprKindView,
    scope: Seq<(Seq<char>, CtValueView)>,
    cx: CtContextView,
    fuel: usize,
    depth: u32,
) -> Result<(CtValueView, usize), HaltView>
    decreases depth, kind, 0nat,
{
    match kind {
        ExprKindView::MethodCall {
            object,
            method,
            args,
            kwargs,
        } => if args.len() == 0 && kwargs.len() == 0 {
            match evaluated(*object, scope, cx, fuel, depth) {
                Ok(out) => {
                    let (value, fuel) = out;
                    if method == "__len__"@ {
                        match sequence_of(value, "__len__() of a compile-time collection"@) {
                            Ok(out) => {
                                let values = out;
                                Ok((CtValueView::Int(integer_length(values)), fuel))
                            },
                            Err(error) => Err(HaltView { error, fuel }),
                        }
                    } else {
                        match type_reflected(value, "compile-time reflection method '"@, method) {
                            Ok(out) => {
                                let ty = out;
                                if depth > 1 {
                                    evaluated_reflection(
                                        ty,
                                        method,
                                        scope,
                                        cx,
                                        fuel,
                                        (depth - 1) as u32,
                                    )
                                } else {
                                    Err(halted(nested_too_deep(), fuel))
                                }
                            },
                            Err(error) => Err(HaltView { error, fuel }),
                        }
                    }
                },
                Err(error) => Err(error),
            }
        } else {
            Err(halted(no_comptime("unsupported compile-time expression"@), fuel))
        },
        _ => Err(halted(nested_too_deep(), fuel)),
    }
}

/// See [`evaluated_method`].
pub fn eval_method(
    kind: &ExprKind,
    scope: &Vec<(String, CtValue)>,
    cx: &CtContext,
    fuel: usize,
    depth: u32,
) -> (r: Result<(CtValue, usize), Halt>)
    ensures
        (
            match r { Ok(v) => Ok((v.0@, v.1)), Err(v) => Err(v@) }
        ) == evaluated_method(kind@, binding_list_view(scope@), cx@, fuel, depth),
    decreases depth, kind, 0nat,
{
    proof { unfold_expr_kind(*kind); }
    match kind {
        ExprKind::MethodCall { object, method, args, kwargs } => {
            if args.len() == 0 && kwargs.len() == 0 {
                let (value, fuel) = match eval(&**object, scope, cx, fuel, depth) {
                    Ok(done) => done,
                    Err(error) => {
                        return Err(error);
                    },
                };
                if same_text(method.as_str(), "__len__") {
                    let values = match as_sequence(&value, "__len__() of a compile-time collection") {
                        Ok(done) => done,
                        Err(error) => {
                            return Err(Halt { error, fuel });
                        },
                    };
                    let value2 = CtValue::Int(length_of(&values));
                    proof { unfold_ct_value(value2); }
                    Ok((value2, fuel))
                } else {
                    let ty = match reflected(&value, "compile-time reflection method '", method) {
                        Ok(done) => done,
                        Err(error) => {
                            return Err(Halt { error, fuel });
                        },
                    };
                    if depth > 1 {
                        eval_reflection_method(&ty, method, scope, cx, fuel, depth - 1)
                    } else {
                        Err(halt(too_deep(), fuel))
                    }
                }
            } else {
                Err(halt(not_comptime("unsupported compile-time expression".to_owned()), fuel))
            }
        },
        _ => {
            assert(!(kind@ is MethodCall));
            Err(halt(too_deep(), fuel))
        },
    }
}

#[verifier::opaque]
pub open spec fn integer_length(values: Seq<CtValueView>) -> i64 {
    if values.len() < 4294967295 {
        values.len() as i64
    } else {
        4294967295
    }
}

/// See [`integer_length`].
pub fn length_of(values: &Vec<CtValue>) -> (r: i64)
    ensures
        r == integer_length(ct_value_list_view(values@)),
{
    proof { reveal(integer_length); }
    if values.len() < 4294967295 {
        values.len() as i64
    } else {
        4294967295
    }
}

#[verifier::opaque]
pub open spec fn field_count(fields: Seq<ParamView>) -> i64 {
    if fields.len() < 4294967295 {
        fields.len() as i64
    } else {
        4294967295
    }
}

/// See [`field_count`].
pub fn count_of(fields: &Vec<Param>) -> (r: i64)
    ensures
        r == field_count(param_list_view(fields@)),
{
    proof { reveal(field_count); }
    if fields.len() < 4294967295 {
        fields.len() as i64
    } else {
        4294967295
    }
}

pub open spec fn evaluated_reflection(
    ty: TyView,
    method: Seq<char>,
    scope: Seq<(Seq<char>, CtValueView)>,
    cx: CtContextView,
    fuel: usize,
    depth: u32,
) -> Result<(CtValueView, usize), HaltView>
    decreases depth, ty, 0nat,
{
    if method == "is_struct"@ {
        Ok((CtValueView::Bool((ty matches TyView::Struct(_, _))), fuel))
    } else {
        match struct_reflected(ty, method + "()"@, cx) {
            Ok(out) => {
                let (info, args) = out;
                if method == "field_count"@ {
                    Ok((CtValueView::Int(field_count(info.fields)), fuel))
                } else if method == "field_names"@ {
                    Ok((CtValueView::Tuple(names_of_fields(info.fields, 0, Seq::empty())), fuel))
                } else if method == "field_types"@ {
                    let inner = scope_of_struct(args, info.decls, 0, scope, 0);
                    if depth > 0 {
                        match types_of_field_list(
                            info.fields,
                            inner,
                            cx,
                            (depth - 1) as u32,
                            0,
                            Seq::empty(),
                            fuel,
                        ) {
                            Ok(out) => {
                                let (types, fuel) = out;
                                Ok((CtValueView::Tuple(types), fuel))
                            },
                            Err(error) => Err(error),
                        }
                    } else {
                        Err(halted(nested_too_deep(), fuel))
                    }
                } else {
                    Err(halted(no_comptime("unsupported reflect[T] method '"@ + method + "'"@), fuel))
                }
            },
            Err(error) => Err(HaltView { error, fuel }),
        }
    }
}

/// See [`evaluated_reflection`].
pub fn eval_reflection_method(
    ty: &Ty,
    method: &String,
    scope: &Vec<(String, CtValue)>,
    cx: &CtContext,
    fuel: usize,
    depth: u32,
) -> (r: Result<(CtValue, usize), Halt>)
    ensures
        (match r { Ok(v) => Ok((v.0@, v.1)), Err(v) => Err(v@) }) == evaluated_reflection(
            ty@,
            method@,
            binding_list_view(scope@),
            cx@,
            fuel,
            depth,
        ),
    decreases depth, ty, 0nat,
{
    if same_text(method.as_str(), "is_struct") {
        let value = CtValue::Bool(matches!(ty, Ty::Struct(_, _)));
        proof { unfold_ct_value(value); }
        Ok((value, fuel))
    } else {
        let (info, args) = match reflected_struct(ty, &cat2(method.as_str(), "()"), cx) {
            Ok(done) => done,
            Err(error) => {
                return Err(Halt { error, fuel });
            },
        };
        if same_text(method.as_str(), "field_count") {
            let value2 = CtValue::Int(count_of(&info.fields));
            proof { unfold_ct_value(value2); }
            Ok((value2, fuel))
        } else if same_text(method.as_str(), "field_names") {
            let value3 = CtValue::Tuple(field_names(&info.fields));
            proof { unfold_ct_value(value3); }
            Ok((value3, fuel))
        } else if same_text(method.as_str(), "field_types") {
            let inner = struct_scope(&args, &info.decls, clone_binding_list(scope));
            if depth > 0 {
                let (types, fuel) = match field_type_values(
                    &info.fields,
                    &inner,
                    cx,
                    fuel,
                    depth - 1,
                ) {
                    Ok(done) => done,
                    Err(error) => {
                        return Err(error);
                    },
                };
                let value4 = CtValue::Tuple(types);
                proof { unfold_ct_value(value4); }
                Ok((value4, fuel))
            } else {
                Err(halt(too_deep(), fuel))
            }
        } else {
            Err(halt(not_comptime(cat3("unsupported reflect[T] method '", method.as_str(), "'")), fuel))
        }
    }
}

pub open spec fn types_of_field_list(
    fields: Seq<ParamView>,
    scope: Seq<(Seq<char>, CtValueView)>,
    cx: CtContextView,
    depth: u32,
    i: nat,
    out: Seq<CtValueView>,
    fuel: usize,
) -> Result<(Seq<CtValueView>, usize), HaltView>
    decreases depth, fields, (fields.len() - i) as nat,
{
    if i >= fields.len() {
        Ok((out, fuel))
    } else {
        let field = fields[i as int];
        if depth == 0 {
            Err(halted(nested_too_deep(), fuel))
        } else {
            match type_of_anno(field.ty, scope, cx, fuel, (depth - 1) as u32) {
                Ok(taken) => {
                    let (ty, rest) = taken;
                    let out = out.push(CtValueView::Type(Box::new(ty)));
                    let fuel = rest;
                    types_of_field_list(fields, scope, cx, depth, i + 1, out, fuel)
                },
                Err(error) => Err(error),
            }
        }
    }
}

/// See [`types_of_field_list`].
pub fn field_type_values(
    fields: &Vec<Param>,
    scope: &Vec<(String, CtValue)>,
    cx: &CtContext,
    start: usize,
    depth: u32,
) -> (r: Result<(Vec<CtValue>, usize), Halt>)
    ensures
        (
            match r { Ok(v) => Ok((ct_value_list_view(v.0@), v.1)), Err(v) => Err(v@) }
        ) == types_of_field_list(
            param_list_view(fields@),
            binding_list_view(scope@),
            cx@,
            depth,
            0,
            Seq::<CtValueView>::empty(),
            start,
        ),
    decreases depth, fields@, 0nat,
{
    let mut out: Vec<CtValue> = Vec::new();
    assert(ct_value_list_view(out@) =~= Seq::<CtValueView>::empty());
    let mut fuel: usize = start;
    let ghost goal = types_of_field_list(
        param_list_view(fields@),
        binding_list_view(scope@),
        cx@,
        depth,
        0,
        Seq::<CtValueView>::empty(),
        start,
    );
    let mut i: usize = 0;
    while i < fields.len()
        invariant
            i <= fields@.len(),
            param_list_view(fields@).len() == fields@.len(),
            types_of_field_list(
                param_list_view(fields@),
                binding_list_view(scope@),
                cx@,
                depth,
                i as nat,
                ct_value_list_view(out@),
                fuel,
            ) == goal,
            goal == types_of_field_list(
                param_list_view(fields@),
                binding_list_view(scope@),
                cx@,
                depth,
                0,
                Seq::<CtValueView>::empty(),
                start,
            ),
        decreases fields@.len() - i,
    {
        let field = &fields[i];
        assert(param_list_view(fields@)[i as int] == field@);
        if depth == 0 {
            return Err(halt(too_deep(), fuel));
        }
        let (ty, rest) = match type_from_anno(&field.ty, scope, cx, fuel, depth - 1) {
            Ok(done) => done,
            Err(error) => {
                return Err(error);
            },
        };
        let value = CtValue::Type(Box::new(ty));
        proof { unfold_ct_value(value); }
        let ghost before = ct_value_list_view(out@);
        let ghost added = value@;
        out.push(value);
        assert(ct_value_list_view(out@) =~= before.push(added));
        fuel = rest;
        i = i + 1;
    }
    Ok((out, fuel))
}

/// A method of a reflection handle with a field name as parameter.
pub open spec fn evaluated_invoke(
    kind: ExprKindView,
    scope: Seq<(Seq<char>, CtValueView)>,
    cx: CtContextView,
    fuel: usize,
    depth: u32,
) -> Result<(CtValueView, usize), HaltView>
    decreases depth, kind, 0nat,
{
    match kind {
        ExprKindView::Invoke {
            callee,
            param_args,
            args,
            kwargs,
        } => if args.len() == 0 && kwargs.len() == 0 {
            match method_selected(*callee) {
                Some(method) => match evaluated_selected(*callee, scope, cx, fuel, depth) {
                    Ok(out) => {
                        let (handle, fuel) = out;
                        match type_reflected(handle, "compile-time reflection method '"@, method) {
                            Ok(out) => {
                                let ty = out;
                                if method == "field_type"@ {
                                    Err(halted(removed_field_type(), fuel))
                                } else {
                                    match struct_reflected(ty, method, cx) {
                                        Ok(out) => {
                                            let (info, _) = out;
                                            match name_argument(
                                                param_args,
                                                method,
                                                scope,
                                                cx,
                                                fuel,
                                                depth,
                                                0,
                                            ) {
                                                Ok(out) => {
                                                    let (name, fuel) = out;
                                                    match field_named(name, info) {
                                                        Ok(out) => {
                                                            let k = out;
                                                            index_of_field(method, k, fuel)
                                                        },
                                                        Err(error) => Err(HaltView { error, fuel }),
                                                    }
                                                },
                                                Err(error) => Err(error),
                                            }
                                        },
                                        Err(error) => Err(HaltView { error, fuel }),
                                    }
                                }
                            },
                            Err(error) => Err(HaltView { error, fuel }),
                        }
                    },
                    Err(error) => Err(error),
                },
                None => Err(halted(no_comptime("unsupported parameterized compile-time callable"@), fuel)),
            }
        } else {
            Err(halted(no_comptime("unsupported compile-time expression"@), fuel))
        },
        _ => Err(halted(nested_too_deep(), fuel)),
    }
}

/// See [`evaluated_invoke`].
pub fn eval_invoke(
    kind: &ExprKind,
    scope: &Vec<(String, CtValue)>,
    cx: &CtContext,
    fuel: usize,
    depth: u32,
) -> (r: Result<(CtValue, usize), Halt>)
    ensures
        (
            match r { Ok(v) => Ok((v.0@, v.1)), Err(v) => Err(v@) }
        ) == evaluated_invoke(kind@, binding_list_view(scope@), cx@, fuel, depth),
    decreases depth, kind, 0nat,
{
    proof { unfold_expr_kind(*kind); }
    match kind {
        ExprKind::Invoke { callee, param_args, args, kwargs } => {
            if args.len() == 0 && kwargs.len() == 0 {
                match selector_method(&**callee) {
                    Some(method) => {
                        let (handle, fuel) = match eval_selected(
                            &**callee,
                            scope,
                            cx,
                            fuel,
                            depth,
                        ) {
                            Ok(done) => done,
                            Err(error) => {
                                return Err(error);
                            },
                        };
                        let ty = match reflected(&handle, "compile-time reflection method '", &method) {
                            Ok(done) => done,
                            Err(error) => {
                                return Err(Halt { error, fuel });
                            },
                        };
                        if same_text(&method.as_str(), "field_type") {
                            Err(halt(field_type_removed(), fuel))
                        } else {
                            let (info, _) = match reflected_struct(&ty, &method, cx) {
                                Ok(done) => done,
                                Err(error) => {
                                    return Err(Halt { error, fuel });
                                },
                            };
                            let (name, fuel) = match field_name_arg(
                                param_args,
                                &method,
                                scope,
                                cx,
                                fuel,
                                depth,
                            ) {
                                Ok(done) => done,
                                Err(error) => {
                                    return Err(error);
                                },
                            };
                            let k: usize = match named_field(&name, &info) {
                                Ok(done) => done,
                                Err(error) => {
                                    return Err(Halt { error, fuel });
                                },
                            };
                            field_index(&method, k, fuel)
                        }
                    },
                    None => Err(halt(not_comptime("unsupported parameterized compile-time callable".to_owned()), fuel)),
                }
            } else {
                Err(halt(not_comptime("unsupported compile-time expression".to_owned()), fuel))
            }
        },
        _ => {
            assert(!(kind@ is Invoke));
            Err(halt(too_deep(), fuel))
        },
    }
}

#[verifier::opaque]
pub open spec fn index_of_field(
    method: Seq<char>,
    k: usize,
    fuel: usize,
) -> Result<(CtValueView, usize), HaltView> {
    if method == "field_index"@ {
        Ok((CtValueView::Int(if k < 4294967295 {
            k as i64
        } else {
            4294967295
        }), fuel))
    } else {
        Err(halted(no_comptime("unsupported parameterized reflect[T] method '"@ + method + "'"@), fuel))
    }
}

/// See [`index_of_field`].
pub fn field_index(
    method: &String,
    k: usize,
    fuel: usize,
) -> (r: Result<(CtValue, usize), Halt>)
    ensures
        (
            match r { Ok(v) => Ok((v.0@, v.1)), Err(v) => Err(v@) }
        ) == index_of_field(method@, k, fuel),
{
    proof { reveal(index_of_field); }
    if same_text(method.as_str(), "field_index") {
        let value = CtValue::Int(if k < 4294967295 {
        k as i64
    } else {
        4294967295
    });
        proof { unfold_ct_value(value); }
        Ok((value, fuel))
    } else {
        Err(halt(not_comptime(cat3("unsupported parameterized reflect[T] method '", method.as_str(), "'")), fuel))
    }
}

#[verifier::opaque]
pub open spec fn method_selected(callee: ExprView) -> Option<Seq<char>> {
    match callee.kind {
        ExprKindView::Member { field, .. } => Some(field),
        _ => None,
    }
}

/// See [`method_selected`].
pub fn selector_method(callee: &Expr) -> (r: Option<String>)
    ensures
        opt_view(r) == method_selected(callee@),
{
    proof { reveal(method_selected); }
    proof { unfold_expr_kind(callee.kind); }
    match &callee.kind {
        ExprKind::Member { field, .. } => Some(field.clone()),
        _ => {
            assert(!(callee.kind@ is Member));
            None
        },
    }
}

/// The field name that a reflection method is given: one string, or one parameter
/// called `name`.
pub open spec fn name_argument(
    args: Seq<ParamArgView>,
    method: Seq<char>,
    scope: Seq<(Seq<char>, CtValueView)>,
    cx: CtContextView,
    fuel: usize,
    depth: u32,
    i: nat,
) -> Result<(Seq<char>, usize), HaltView>
    decreases depth, args, (args.len() - i) as nat,
{
    if i >= args.len() {
        Err(halted(wrong_name_arity(method), fuel))
    } else {
        let arg = args[i as int];
        if args.len() != 1 {
            Err(halted(wrong_name_arity(method), fuel))
        } else {
            name_given(arg, method, scope, cx, fuel, depth)
        }
    }
}

/// See [`name_argument`].
pub fn field_name_arg(
    args: &Vec<ParamArg>,
    method: &String,
    scope: &Vec<(String, CtValue)>,
    cx: &CtContext,
    fuel: usize,
    depth: u32,
) -> (r: Result<(String, usize), Halt>)
    ensures
        (match r { Ok(v) => Ok((v.0@, v.1)), Err(v) => Err(v@) }) == name_argument(
            param_arg_list_view(args@),
            method@,
            binding_list_view(scope@),
            cx@,
            fuel,
            depth,
            0,
        ),
    decreases depth, args@, 0nat,
{
    let ghost goal = name_argument(
        param_arg_list_view(args@),
        method@,
        binding_list_view(scope@),
        cx@,
        fuel,
        depth,
        0,
    );
    let mut i: usize = 0;
    while i < args.len()
        invariant
            i <= args@.len(),
            param_arg_list_view(args@).len() == args@.len(),
            name_argument(
                param_arg_list_view(args@),
                method@,
                binding_list_view(scope@),
                cx@,
                fuel,
                depth,
                i as nat,
            ) == goal,
            goal == name_argument(
                param_arg_list_view(args@),
                method@,
                binding_list_view(scope@),
                cx@,
                fuel,
                depth,
                0,
            ),
        decreases args@.len() - i,
    {
        let arg = &args[i];
        assert(param_arg_list_view(args@)[i as int] == arg@);
        if args.len() != 1 {
            return Err(halt(name_arity(method), fuel));
        }
        return field_name(arg, method, scope, cx, fuel, depth);
    }
    Err(halt(name_arity(method), fuel))
}

#[verifier::opaque]
pub open spec fn wrong_name_arity(method: Seq<char>) -> ComptimeErrorView {
    ComptimeErrorView::Arity("reflect[T]."@ + method + "[name]() takes one String parameter"@)
}

/// See [`wrong_name_arity`].
pub fn name_arity(method: &String) -> (r: ComptimeError)
    ensures
        r@ == wrong_name_arity(method@),
{
    proof { reveal(wrong_name_arity); }
    ComptimeError::Arity(cat3("reflect[T].", method.as_str(), "[name]() takes one String parameter"))
}

pub open spec fn name_given(
    arg: ParamArgView,
    method: Seq<char>,
    scope: Seq<(Seq<char>, CtValueView)>,
    cx: CtContextView,
    fuel: usize,
    depth: u32,
) -> Result<(Seq<char>, usize), HaltView>
    decreases depth, arg, 1nat,
{
    match arg {
        ParamArgView::Value(e) => match evaluated(e, scope, cx, fuel, depth) {
            Ok(out) => {
                let (value, fuel) = out;
                match value {
                    CtValueView::Str(name) => Ok((name, fuel)),
                    _ => Err(halted(no_comptime("reflection field name must be String, got "@ + ct_text(value)), fuel)),
                }
            },
            Err(error) => Err(error),
        },
        ParamArgView::Named { name, value } => if name == "name"@ {
            let decl = ParamDeclView::Value {
                name: "name"@,
                ty: Box::new(TyView::String),
                default: None,
                infer_only: false,
                variadic: false,
            };
            match resolved_arg(decl, *value, scope, cx, fuel, depth) {
                Ok(out) => {
                    let (value, fuel) = out;
                    match value {
                        CtValueView::Str(name) => Ok((name, fuel)),
                        _ => Err(halted(wrong_name_arity(method), fuel)),
                    }
                },
                Err(error) => Err(error),
            }
        } else {
            Err(halted(wrong_name_arity(method), fuel))
        },
        _ => Err(halted(wrong_name_arity(method), fuel)),
    }
}

/// See [`name_given`].
pub fn field_name(
    arg: &ParamArg,
    method: &String,
    scope: &Vec<(String, CtValue)>,
    cx: &CtContext,
    fuel: usize,
    depth: u32,
) -> (r: Result<(String, usize), Halt>)
    ensures
        (match r { Ok(v) => Ok((v.0@, v.1)), Err(v) => Err(v@) }) == name_given(
            arg@,
            method@,
            binding_list_view(scope@),
            cx@,
            fuel,
            depth,
        ),
    decreases depth, arg, 1nat,
{
    match arg {
        ParamArg::Value(e) => {
            let (value, fuel) = match eval(e, scope, cx, fuel, depth) {
                Ok(done) => done,
                Err(error) => {
                    return Err(error);
                },
            };
            proof { unfold_ct_value(value); }
            match value {
                CtValue::Str(name) => Ok((name, fuel)),
                _ => {
                    assert(!(value@ is Str));
                    Err(
                        halt(
                            not_comptime(cat2("reflection field name must be String, got ", show_ct(&value).as_str())),
                            fuel,
                        )
                    )
                },
            }
        },
        ParamArg::Named { name, value } => {
            if same_text(name.as_str(), "name") {
                let decl2 = ParamDecl::Value {
                    name: "name".to_owned(),
                    ty: Box::new(Ty::String),
                    default: None,
                    infer_only: false,
                    variadic: false,
                };
                proof { unfold_param_decl(decl2); }
                let decl = decl2;
                let (value, fuel) = match resolve_ct_arg(&decl, &**value, scope, cx, fuel, depth) {
                    Ok(done) => done,
                    Err(error) => {
                        return Err(error);
                    },
                };
                proof { unfold_ct_value(value); }
                match value {
                    CtValue::Str(name) => Ok((name, fuel)),
                    _ => {
                        assert(!(value@ is Str));
                        Err(halt(name_arity(method), fuel))
                    },
                }
            } else {
                Err(halt(name_arity(method), fuel))
            }
        },
        _ => {
            assert(!(arg@ is Value));
            assert(!(arg@ is Named));
            Err(halt(name_arity(method), fuel))
        },
    }
}

/// A call: a question about types, a reflection handle, a length, or a function to
/// be run.
pub open spec fn evaluated_call(
    kind: ExprKindView,
    scope: Seq<(Seq<char>, CtValueView)>,
    cx: CtContextView,
    fuel: usize,
    depth: u32,
) -> Result<(CtValueView, usize), HaltView>
    decreases depth, kind, 0nat,
{
    match kind {
        ExprKindView::Call { name, param_args, args, kwargs } => if name == "is_same_type"@ {
            evaluated_same_type(param_args, args.len() as usize, scope, cx, fuel, depth)
        } else if name == "reflect"@ && args.len() == 0 && kwargs.len() == 0 {
            if param_args.len() == 1 {
                match type_of_param_arg(param_args[0], scope, cx, fuel, depth) {
                    Ok(out) => {
                        let (ty, fuel) = out;
                        Ok((CtValueView::Reflected(Box::new(ty)), fuel))
                    },
                    Err(error) => Err(error),
                }
            } else {
                Err(halted(ComptimeErrorView::Arity("reflect[T]() takes exactly one type parameter"@), fuel))
            }
        } else if name == "len"@ && args.len() == 1 {
            match evaluated(args[0], scope, cx, fuel, depth) {
                Ok(out) => {
                    let (value, fuel) = out;
                    match sequence_of(value, "len() of a compile-time collection"@) {
                        Ok(out) => {
                            let values = out;
                            Ok((CtValueView::Int(integer_length(values)), fuel))
                        },
                        Err(error) => Err(HaltView { error, fuel }),
                    }
                },
                Err(error) => Err(error),
            }
        } else {
            match evaluated_all(args, scope, cx, depth, 0, Seq::empty(), fuel) {
                Ok(out) => {
                    let (argv, fuel) = out;
                    match fn_called(
                        name,
                        param_args.len() as usize,
                        argv.len() as usize,
                        cx,
                        fuel,
                    ) {
                        Ok(out) => {
                            let (f, fuel) = out;
                            match resolved_args(
                                param_args,
                                f.ct_params,
                                scope,
                                cx,
                                depth,
                                0,
                                Seq::empty(),
                                fuel,
                                0,
                            ) {
                                Ok(out) => {
                                    let (values, fuel) = out;
                                    call_run(f, values, argv, cx, fuel)
                                },
                                Err(error) => Err(error),
                            }
                        },
                        Err(error) => Err(error),
                    }
                },
                Err(error) => Err(error),
            }
        },
        _ => Err(halted(nested_too_deep(), fuel)),
    }
}

/// See [`evaluated_call`].
pub fn eval_call(
    kind: &ExprKind,
    scope: &Vec<(String, CtValue)>,
    cx: &CtContext,
    fuel: usize,
    depth: u32,
) -> (r: Result<(CtValue, usize), Halt>)
    ensures
        (
            match r { Ok(v) => Ok((v.0@, v.1)), Err(v) => Err(v@) }
        ) == evaluated_call(kind@, binding_list_view(scope@), cx@, fuel, depth),
    decreases depth, kind, 0nat,
{
    proof { unfold_expr_kind(*kind); }
    match kind {
        ExprKind::Call { name, param_args, args, kwargs } => {
            if same_text(name.as_str(), "is_same_type") {
                eval_is_same_type(param_args, args.len(), scope, cx, fuel, depth)
            } else if same_text(name.as_str(), "reflect") && args.len() == 0 && kwargs.len() == 0 {
                if param_args.len() == 1 {
                    let (ty, fuel) = match param_arg_type(&param_args[0], scope, cx, fuel, depth) {
                        Ok(done) => done,
                        Err(error) => {
                            return Err(error);
                        },
                    };
                    let value2 = CtValue::Reflected(Box::new(ty));
                    proof { unfold_ct_value(value2); }
                    Ok((value2, fuel))
                } else {
                    Err(halt(ComptimeError::Arity("reflect[T]() takes exactly one type parameter".to_owned()), fuel))
                }
            } else if same_text(name.as_str(), "len") && args.len() == 1 {
                let (value, fuel) = match eval(&args[0], scope, cx, fuel, depth) {
                    Ok(done) => done,
                    Err(error) => {
                        return Err(error);
                    },
                };
                let values = match as_sequence(&value, "len() of a compile-time collection") {
                    Ok(done) => done,
                    Err(error) => {
                        return Err(Halt { error, fuel });
                    },
                };
                let value3 = CtValue::Int(length_of(&values));
                proof { unfold_ct_value(value3); }
                Ok((value3, fuel))
            } else {
                let (argv, fuel) = match eval_all(args, scope, cx, fuel, depth) {
                    Ok(done) => done,
                    Err(error) => {
                        return Err(error);
                    },
                };
                let (f, fuel) = match called_fn(name, param_args.len(), argv.len(), cx, fuel) {
                    Ok(done) => done,
                    Err(error) => {
                        return Err(error);
                    },
                };
                let (values, fuel) = match resolve_ct_args(
                    param_args,
                    &f.ct_params,
                    scope,
                    cx,
                    fuel,
                    depth,
                ) {
                    Ok(done) => done,
                    Err(error) => {
                        return Err(error);
                    },
                };
                run_call(&f, &values, &argv, cx, fuel)
            }
        },
        _ => {
            assert(!(kind@ is Call));
            Err(halt(too_deep(), fuel))
        },
    }
}

/// Whether two types are the same.
pub open spec fn evaluated_same_type(
    param_args: Seq<ParamArgView>,
    args: usize,
    scope: Seq<(Seq<char>, CtValueView)>,
    cx: CtContextView,
    fuel: usize,
    depth: u32,
) -> Result<(CtValueView, usize), HaltView>
    decreases depth, param_args, 0nat,
{
    if param_args.len() == 2 && args == 0 {
        match type_of_param_arg(param_args[0], scope, cx, fuel, depth) {
            Ok(out) => {
                let (a, fuel) = out;
                match type_of_param_arg(param_args[1], scope, cx, fuel, depth) {
                    Ok(out) => {
                        let (b, fuel) = out;
                        Ok((CtValueView::Bool(a == b), fuel))
                    },
                    Err(error) => Err(error),
                }
            },
            Err(error) => Err(error),
        }
    } else {
        Err(halted(ComptimeErrorView::Arity("is_same_type[T, U]() takes two type parameters and no arguments"@), fuel))
    }
}

/// See [`evaluated_same_type`].
pub fn eval_is_same_type(
    param_args: &Vec<ParamArg>,
    args: usize,
    scope: &Vec<(String, CtValue)>,
    cx: &CtContext,
    fuel: usize,
    depth: u32,
) -> (r: Result<(CtValue, usize), Halt>)
    ensures
        (match r { Ok(v) => Ok((v.0@, v.1)), Err(v) => Err(v@) }) == evaluated_same_type(
            param_arg_list_view(param_args@),
            args,
            binding_list_view(scope@),
            cx@,
            fuel,
            depth,
        ),
    decreases depth, param_args@, 0nat,
{
    if param_args.len() == 2 && args == 0 {
        let (a, fuel) = match param_arg_type(&param_args[0], scope, cx, fuel, depth) {
            Ok(done) => done,
            Err(error) => {
                return Err(error);
            },
        };
        let (b, fuel) = match param_arg_type(&param_args[1], scope, cx, fuel, depth) {
            Ok(done) => done,
            Err(error) => {
                return Err(error);
            },
        };
        let value = CtValue::Bool(same_ty(&a, &b));
        proof { unfold_ct_value(value); }
        Ok((value, fuel))
    } else {
        Err(
            halt(
                ComptimeError::Arity("is_same_type[T, U]() takes two type parameters and no arguments".to_owned()),
                fuel,
            )
        )
    }
}

/// The values of compile-time arguments, each for its parameter.
pub open spec fn resolved_args(
    args: Seq<ParamArgView>,
    decls: Seq<ParamDeclView>,
    scope: Seq<(Seq<char>, CtValueView)>,
    cx: CtContextView,
    depth: u32,
    i: nat,
    out: Seq<CtValueView>,
    fuel: usize,
    k: usize,
) -> Result<(Seq<CtValueView>, usize), HaltView>
    decreases depth, args, (args.len() - i) as nat,
{
    if i >= args.len() {
        Ok((out, fuel))
    } else {
        let arg = args[i as int];
        if k >= decls.len() {
            Ok((out, fuel))
        } else {
            match resolved_arg(decls[k as int], arg, scope, cx, fuel, depth) {
                Ok(taken) => {
                    let (value, rest) = taken;
                    let out = out.push(value);
                    let fuel = rest;
                    let k = following_index(k);
                    resolved_args(args, decls, scope, cx, depth, i + 1, out, fuel, k)
                },
                Err(error) => Err(error),
            }
        }
    }
}

/// See [`resolved_args`].
pub fn resolve_ct_args(
    args: &Vec<ParamArg>,
    decls: &Vec<ParamDecl>,
    scope: &Vec<(String, CtValue)>,
    cx: &CtContext,
    start: usize,
    depth: u32,
) -> (r: Result<(Vec<CtValue>, usize), Halt>)
    ensures
        (
            match r { Ok(v) => Ok((ct_value_list_view(v.0@), v.1)), Err(v) => Err(v@) }
        ) == resolved_args(
            param_arg_list_view(args@),
            param_decl_list_view(decls@),
            binding_list_view(scope@),
            cx@,
            depth,
            0,
            Seq::<CtValueView>::empty(),
            start,
            0,
        ),
    decreases depth, args@, 0nat,
{
    let mut out: Vec<CtValue> = Vec::new();
    assert(ct_value_list_view(out@) =~= Seq::<CtValueView>::empty());
    let mut fuel: usize = start;
    let mut k: usize = 0;
    let ghost goal = resolved_args(
        param_arg_list_view(args@),
        param_decl_list_view(decls@),
        binding_list_view(scope@),
        cx@,
        depth,
        0,
        Seq::<CtValueView>::empty(),
        start,
        0,
    );
    let mut i: usize = 0;
    while i < args.len()
        invariant
            i <= args@.len(),
            param_arg_list_view(args@).len() == args@.len(),
            resolved_args(
                param_arg_list_view(args@),
                param_decl_list_view(decls@),
                binding_list_view(scope@),
                cx@,
                depth,
                i as nat,
                ct_value_list_view(out@),
                fuel,
                k,
            ) == goal,
            goal == resolved_args(
                param_arg_list_view(args@),
                param_decl_list_view(decls@),
                binding_list_view(scope@),
                cx@,
                depth,
                0,
                Seq::<CtValueView>::empty(),
                start,
                0,
            ),
        decreases args@.len() - i,
    {
        let arg = &args[i];
        assert(param_arg_list_view(args@)[i as int] == arg@);
        if k >= decls.len() {
            return Ok((out, fuel));
        }
        let (value, rest) = match resolve_ct_arg(&decls[k], arg, scope, cx, fuel, depth) {
            Ok(done) => done,
            Err(error) => {
                return Err(error);
            },
        };
        let ghost before = ct_value_list_view(out@);
        let ghost added = value@;
        out.push(value);
        assert(ct_value_list_view(out@) =~= before.push(added));
        fuel = rest;
        k = next_index(k);
        i = i + 1;
    }
    Ok((out, fuel))
}

/// The value of a compile-time argument for a parameter.
pub open spec fn resolved_arg(
    decl: ParamDeclView,
    arg: ParamArgView,
    scope: Seq<(Seq<char>, CtValueView)>,
    cx: CtContextView,
    fuel: usize,
    depth: u32,
) -> Result<(CtValueView, usize), HaltView>
    decreases depth, arg, 0nat,
{
    match arg {
        ParamArgView::Named { value, .. } => resolved_arg(decl, *value, scope, cx, fuel, depth),
        ParamArgView::Type(ty) => match decl {
            ParamDeclView::Type { .. } => match type_of_anno(ty, scope, cx, fuel, depth) {
                Ok(out) => {
                    let (ty, fuel) = out;
                    Ok((CtValueView::Type(Box::new(ty)), fuel))
                },
                Err(error) => Err(error),
            },
            ParamDeclView::Value { name, .. } => Err(
                halted(ComptimeErrorView::NotInt("value parameter '"@ + name + "'"@), fuel)
            ),
        },
        ParamArgView::Value(e) => match decl {
            ParamDeclView::Type { name, .. } => resolved_type_value(
                e,
                name,
                scope,
                cx,
                fuel,
                depth,
            ),
            ParamDeclView::Value { name, ty, .. } => match evaluated(e, scope, cx, fuel, depth) {
                Ok(out) => {
                    let (value, fuel) = out;
                    if value_has_type(value, *ty) {
                        Ok((value, fuel))
                    } else {
                        Err(halted(value_of_wrong_type("value parameter '"@, name, *ty, value), fuel))
                    }
                },
                Err(error) => Err(error),
            },
        },
    }
}

/// See [`resolved_arg`].
pub fn resolve_ct_arg(
    decl: &ParamDecl,
    arg: &ParamArg,
    scope: &Vec<(String, CtValue)>,
    cx: &CtContext,
    fuel: usize,
    depth: u32,
) -> (r: Result<(CtValue, usize), Halt>)
    ensures
        (match r { Ok(v) => Ok((v.0@, v.1)), Err(v) => Err(v@) }) == resolved_arg(
            decl@,
            arg@,
            binding_list_view(scope@),
            cx@,
            fuel,
            depth,
        ),
    decreases depth, arg, 0nat,
{
    match arg {
        ParamArg::Named { value, .. } => resolve_ct_arg(decl, &**value, scope, cx, fuel, depth),
        ParamArg::Type(ty) => {
            proof { unfold_param_decl(*decl); }
            match decl {
                ParamDecl::Type { .. } => {
                    let (ty, fuel) = match type_from_anno(ty, scope, cx, fuel, depth) {
                        Ok(done) => done,
                        Err(error) => {
                            return Err(error);
                        },
                    };
                    let value2 = CtValue::Type(Box::new(ty));
                    proof { unfold_ct_value(value2); }
                    Ok((value2, fuel))
                },
                ParamDecl::Value { name, .. } => Err(
                    halt(ComptimeError::NotInt(cat3("value parameter '", name.as_str(), "'")), fuel)
                ),
            }
        },
        ParamArg::Value(e) => {
            proof { unfold_param_decl(*decl); }
            match decl {
                ParamDecl::Type { name, .. } => resolve_type_value(e, name, scope, cx, fuel, depth),
                ParamDecl::Value { name, ty, .. } => {
                    let (value, fuel) = match eval(e, scope, cx, fuel, depth) {
                        Ok(done) => done,
                        Err(error) => {
                            return Err(error);
                        },
                    };
                    if ct_value_has_type(&value, &**ty) {
                        Ok((value, fuel))
                    } else {
                        Err(halt(wrong_type("value parameter '", name, &**ty, &value), fuel))
                    }
                },
            }
        },
    }
}

#[verifier::opaque]
pub open spec fn value_of_wrong_type(
    what: Seq<char>,
    name: Seq<char>,
    ty: TyView,
    value: CtValueView,
) -> ComptimeErrorView {
    no_comptime(what + name + "' expects "@ + ty_text(ty) + ", got "@ + ct_text(value))
}

/// See [`value_of_wrong_type`].
pub fn wrong_type(what: &str, name: &String, ty: &Ty, value: &CtValue) -> (r: ComptimeError)
    ensures
        r@ == value_of_wrong_type(what@, name@, ty@, value@),
{
    proof { reveal(value_of_wrong_type); }
    not_comptime(cat6(what, name.as_str(), "' expects ", show_ty(ty).as_str(), ", got ", show_ct(value).as_str()))
}

/// A type given as an expression.
pub open spec fn resolved_type_value(
    e: ExprView,
    name: Seq<char>,
    scope: Seq<(Seq<char>, CtValueView)>,
    cx: CtContextView,
    fuel: usize,
    depth: u32,
) -> Result<(CtValueView, usize), HaltView>
    decreases depth, e, 1nat,
{
    match e.kind {
        ExprKindView::Identifier(id) => match bare_type(id, scope, cx) {
            Ok(out) => {
                let ty = out;
                Ok((CtValueView::Type(Box::new(ty)), fuel))
            },
            Err(error) => Err(HaltView { error, fuel }),
        },
        ExprKindView::TypeApply { name: applied, args } => match type_of_name(
            applied,
            args,
            scope,
            cx,
            fuel,
            depth,
        ) {
            Ok(out) => {
                let (ty, fuel) = out;
                Ok((CtValueView::Type(Box::new(ty)), fuel))
            },
            Err(error) => Err(error),
        },
        _ => Err(
            halted(no_comptime("type parameter '"@ + name + "' needs a type argument, got "@ + expr_printed(e)), fuel)
        ),
    }
}

/// See [`resolved_type_value`].
pub fn resolve_type_value(
    e: &Expr,
    name: &String,
    scope: &Vec<(String, CtValue)>,
    cx: &CtContext,
    fuel: usize,
    depth: u32,
) -> (r: Result<(CtValue, usize), Halt>)
    ensures
        (
            match r { Ok(v) => Ok((v.0@, v.1)), Err(v) => Err(v@) }
        ) == resolved_type_value(e@, name@, binding_list_view(scope@), cx@, fuel, depth),
    decreases depth, e, 1nat,
{
    proof { unfold_expr_kind(e.kind); }
    match &e.kind {
        ExprKind::Identifier(id) => {
            let ty = match type_from_bare_name(id, scope, cx) {
                Ok(done) => done,
                Err(error) => {
                    return Err(Halt { error, fuel });
                },
            };
            let value = CtValue::Type(Box::new(ty));
            proof { unfold_ct_value(value); }
            Ok((value, fuel))
        },
        ExprKind::TypeApply { name: applied, args } => {
            let (ty, fuel) = match type_from_name(applied, args, scope, cx, fuel, depth) {
                Ok(done) => done,
                Err(error) => {
                    return Err(error);
                },
            };
            let value2 = CtValue::Type(Box::new(ty));
            proof { unfold_ct_value(value2); }
            Ok((value2, fuel))
        },
        _ => {
            assert(!(e.kind@ is Identifier));
            assert(!(e.kind@ is TypeApply));
            Err(
                halt(
                    not_comptime(
                        cat4("type parameter '", name.as_str(), "' needs a type argument, got ", print_expr(e).as_str())
                    ),
                    fuel,
                )
            )
        },
    }
}

/// The type a compile-time argument stands for.
pub open spec fn type_of_param_arg(
    arg: ParamArgView,
    scope: Seq<(Seq<char>, CtValueView)>,
    cx: CtContextView,
    fuel: usize,
    depth: u32,
) -> Result<(TyView, usize), HaltView>
    decreases depth, arg, 0nat,
{
    match arg {
        ParamArgView::Type(ty) => type_of_anno(ty, scope, cx, fuel, depth),
        ParamArgView::Value(e) => type_of_value(e, scope, cx, fuel, depth),
        ParamArgView::Named { value, .. } => type_of_param_arg(*value, scope, cx, fuel, depth),
    }
}

/// See [`type_of_param_arg`].
pub fn param_arg_type(
    arg: &ParamArg,
    scope: &Vec<(String, CtValue)>,
    cx: &CtContext,
    fuel: usize,
    depth: u32,
) -> (r: Result<(Ty, usize), Halt>)
    ensures
        (
            match r { Ok(v) => Ok((v.0@, v.1)), Err(v) => Err(v@) }
        ) == type_of_param_arg(arg@, binding_list_view(scope@), cx@, fuel, depth),
    decreases depth, arg, 0nat,
{
    match arg {
        ParamArg::Type(ty) => type_from_anno(ty, scope, cx, fuel, depth),
        ParamArg::Value(e) => type_from_value(e, scope, cx, fuel, depth),
        ParamArg::Named { value, .. } => param_arg_type(&**value, scope, cx, fuel, depth),
    }
}

pub open spec fn type_of_value(
    e: ExprView,
    scope: Seq<(Seq<char>, CtValueView)>,
    cx: CtContextView,
    fuel: usize,
    depth: u32,
) -> Result<(TyView, usize), HaltView>
    decreases depth, e, 1nat,
{
    match e.kind {
        ExprKindView::Identifier(id) => match bare_type(id, scope, cx) {
            Ok(out) => {
                let ty = out;
                Ok((ty, fuel))
            },
            Err(error) => Err(HaltView { error, fuel }),
        },
        ExprKindView::TypeApply { name, args } => type_of_name(name, args, scope, cx, fuel, depth),
        _ => match evaluated(e, scope, cx, fuel, depth) {
            Ok(out) => {
                let (value, fuel) = out;
                match value {
                    CtValueView::Type(ty) => Ok((type_itself(*ty), fuel)),
                    _ => Err(halted(no_comptime("expected a type argument"@), fuel)),
                }
            },
            Err(error) => Err(error),
        },
    }
}

/// See [`type_of_value`].
pub fn type_from_value(
    e: &Expr,
    scope: &Vec<(String, CtValue)>,
    cx: &CtContext,
    fuel: usize,
    depth: u32,
) -> (r: Result<(Ty, usize), Halt>)
    ensures
        (
            match r { Ok(v) => Ok((v.0@, v.1)), Err(v) => Err(v@) }
        ) == type_of_value(e@, binding_list_view(scope@), cx@, fuel, depth),
    decreases depth, e, 1nat,
{
    proof { unfold_expr_kind(e.kind); }
    match &e.kind {
        ExprKind::Identifier(id) => {
            let ty = match type_from_bare_name(id, scope, cx) {
                Ok(done) => done,
                Err(error) => {
                    return Err(Halt { error, fuel });
                },
            };
            Ok((ty, fuel))
        },
        ExprKind::TypeApply { name, args } => type_from_name(name, args, scope, cx, fuel, depth),
        _ => {
            assert(!(e.kind@ is Identifier));
            assert(!(e.kind@ is TypeApply));
            let (value, fuel) = match eval(e, scope, cx, fuel, depth) {
                Ok(done) => done,
                Err(error) => {
                    return Err(error);
                },
            };
            proof { unfold_ct_value(value); }
            match &value {
                CtValue::Type(ty) => Ok((copied_type(&**ty), fuel)),
                _ => {
                    assert(!(value@ is Type));
                    Err(halt(not_comptime("expected a type argument".to_owned()), fuel))
                },
            }
        },
    }
}

/// The type that a written type stands for.
pub open spec fn type_of_anno(
    ty: TypeView,
    scope: Seq<(Seq<char>, CtValueView)>,
    cx: CtContextView,
    fuel: usize,
    depth: u32,
) -> Result<(TyView, usize), HaltView>
    decreases depth, ty, 0nat,
{
    match ty {
        TypeView::Int => Ok((TyView::Int, fuel)),
        TypeView::UInt => Ok((TyView::UInt, fuel)),
        TypeView::Bool => Ok((TyView::Bool, fuel)),
        TypeView::String => Ok((TyView::String, fuel)),
        TypeView::Float64 => Ok((TyView::Float64, fuel)),
        TypeView::NoneTy => Ok((TyView::NoneTy, fuel)),
        TypeView::Named(name, args) => type_of_name(name, args, scope, cx, fuel, depth),
        TypeView::SelfParam(name) => match type_of_self(name, scope) {
            Ok(out) => {
                let ty = out;
                Ok((ty, fuel))
            },
            Err(error) => Err(HaltView { error, fuel }),
        },
        TypeView::Assoc { base, name } => match type_of_handle(*base, name, scope) {
            Some(ty) => Ok((ty, fuel)),
            None => match type_of_anno(*base, scope, cx, fuel, depth) {
                Ok(out) => {
                    let (base, fuel) = out;
                    if depth > 1 {
                        match value_associated(base, name, cx, fuel, (depth - 1) as u32) {
                            Ok(out) => {
                                let (value, fuel) = out;
                                match type_of_member(value, base, name) {
                                    Ok(out) => {
                                        let ty = out;
                                        Ok((ty, fuel))
                                    },
                                    Err(error) => Err(HaltView { error, fuel }),
                                }
                            },
                            Err(error) => Err(error),
                        }
                    } else {
                        Err(halted(nested_too_deep(), fuel))
                    }
                },
                Err(error) => Err(error),
            },
        },
        _ => Err(halted(no_comptime("unsupported compile-time type argument"@), fuel)),
    }
}

/// See [`type_of_anno`].
pub fn type_from_anno(
    ty: &Type,
    scope: &Vec<(String, CtValue)>,
    cx: &CtContext,
    fuel: usize,
    depth: u32,
) -> (r: Result<(Ty, usize), Halt>)
    ensures
        (
            match r { Ok(v) => Ok((v.0@, v.1)), Err(v) => Err(v@) }
        ) == type_of_anno(ty@, binding_list_view(scope@), cx@, fuel, depth),
    decreases depth, ty, 0nat,
{
    proof { unfold_type(*ty); }
    match ty {
        Type::Int => Ok((Ty::Int, fuel)),
        Type::UInt => Ok((Ty::UInt, fuel)),
        Type::Bool => Ok((Ty::Bool, fuel)),
        Type::String => Ok((Ty::String, fuel)),
        Type::Float64 => Ok((Ty::Float64, fuel)),
        Type::NoneTy => Ok((Ty::NoneTy, fuel)),
        Type::Named(name, args) => type_from_name(name, args, scope, cx, fuel, depth),
        Type::SelfParam(name) => {
            let ty = match self_type(name, scope) {
                Ok(done) => done,
                Err(error) => {
                    return Err(Halt { error, fuel });
                },
            };
            Ok((ty, fuel))
        },
        Type::Assoc { base, name } => {
            match handle_type(&**base, name, scope) {
                Some(ty) => Ok((ty, fuel)),
                None => {
                    let (base, fuel) = match type_from_anno(&**base, scope, cx, fuel, depth) {
                        Ok(done) => done,
                        Err(error) => {
                            return Err(error);
                        },
                    };
                    if depth > 1 {
                        let (value, fuel) = match associated_value(
                            &base,
                            name,
                            cx,
                            fuel,
                            depth - 1,
                        ) {
                            Ok(done) => done,
                            Err(error) => {
                                return Err(error);
                            },
                        };
                        let ty = match member_type(&value, &base, name) {
                            Ok(done) => done,
                            Err(error) => {
                                return Err(Halt { error, fuel });
                            },
                        };
                        Ok((ty, fuel))
                    } else {
                        Err(halt(too_deep(), fuel))
                    }
                },
            }
        },
        _ => {
            assert(!(ty@ is Int));
            assert(!(ty@ is UInt));
            assert(!(ty@ is Bool));
            assert(!(ty@ is String));
            assert(!(ty@ is Float64));
            assert(!(ty@ is NoneTy));
            assert(!(ty@ is Named));
            assert(!(ty@ is SelfParam));
            assert(!(ty@ is Assoc));
            Err(halt(not_comptime("unsupported compile-time type argument".to_owned()), fuel))
        },
    }
}

#[verifier::opaque]
pub open spec fn type_of_member(
    value: CtValueView,
    base: TyView,
    name: Seq<char>,
) -> Result<TyView, ComptimeErrorView> {
    match value {
        CtValueView::Type(ty) => Ok(type_itself(*ty)),
        _ => Err(no_comptime(ty_text(base) + "."@ + name + " is not type-valued"@)),
    }
}

/// See [`type_of_member`].
pub fn member_type(value: &CtValue, base: &Ty, name: &String) -> (r: Result<Ty, ComptimeError>)
    ensures
        (match r { Ok(v) => Ok(v@), Err(v) => Err(v@) }) == type_of_member(value@, base@, name@),
{
    proof { reveal(type_of_member); }
    proof { unfold_ct_value(*value); }
    match value {
        CtValue::Type(ty) => Ok(copied_type(&**ty)),
        _ => {
            assert(!(value@ is Type));
            Err(not_comptime(cat4(show_ty(base).as_str(), ".", name.as_str(), " is not type-valued")))
        },
    }
}

#[verifier::opaque]
pub open spec fn type_of_self(
    name: Seq<char>,
    scope: Seq<(Seq<char>, CtValueView)>,
) -> Result<TyView, ComptimeErrorView> {
    match value_bound(scope, name) {
        Some(value) => match value {
            CtValueView::Type(ty) => Ok(type_itself(*ty)),
            _ => Err(no_comptime("Self."@ + name + " is not type-valued"@)),
        },
        None => Err(no_comptime("unknown compile-time type Self."@ + name)),
    }
}

/// See [`type_of_self`].
pub fn self_type(
    name: &String,
    scope: &Vec<(String, CtValue)>,
) -> (r: Result<Ty, ComptimeError>)
    ensures
        (
            match r { Ok(v) => Ok(v@), Err(v) => Err(v@) }
        ) == type_of_self(name@, binding_list_view(scope@)),
{
    proof { reveal(type_of_self); }
    match find_binding(scope, name) {
        Some(value) => {
            proof { unfold_ct_value(value); }
            match &value {
                CtValue::Type(ty) => Ok(copied_type(&**ty)),
                _ => {
                    assert(!(value@ is Type));
                    Err(not_comptime(cat3("Self.", name.as_str(), " is not type-valued")))
                },
            }
        },
        None => Err(not_comptime(cat2("unknown compile-time type Self.", name.as_str()))),
    }
}

/// The type behind the handle that `base.T` names.
#[verifier::opaque]
pub open spec fn type_of_handle(
    base: TypeView,
    name: Seq<char>,
    scope: Seq<(Seq<char>, CtValueView)>,
) -> Option<TyView> {
    match base {
        TypeView::Named(binding, args) => if args.len() == 0 && name == "T"@ {
            match value_bound(scope, binding) {
                Some(value) => match value {
                    CtValueView::Reflected(ty) => Some(type_itself(*ty)),
                    _ => None,
                },
                None => None,
            }
        } else {
            None
        },
        _ => None,
    }
}

/// See [`type_of_handle`].
pub fn handle_type(
    base: &Type,
    name: &String,
    scope: &Vec<(String, CtValue)>,
) -> (r: Option<Ty>)
    ensures
        opt_view(r) == type_of_handle(base@, name@, binding_list_view(scope@)),
{
    proof { reveal(type_of_handle); }
    proof { unfold_type(*base); }
    match base {
        Type::Named(binding, args) => {
            if args.len() == 0 && same_text(name.as_str(), "T") {
                match find_binding(scope, binding) {
                    Some(value) => {
                        proof { unfold_ct_value(value); }
                        match &value {
                            CtValue::Reflected(ty) => Some(copied_type(&**ty)),
                            _ => {
                                assert(!(value@ is Reflected));
                                None
                            },
                        }
                    },
                    None => None,
                }
            } else {
                None
            }
        },
        _ => {
            assert(!(base@ is Named));
            None
        },
    }
}

/// The values of a name that is bound to a tuple or list.
#[verifier::opaque]
pub open spec fn sequence_bound(
    name: Seq<char>,
    scope: Seq<(Seq<char>, CtValueView)>,
) -> Option<Seq<CtValueView>> {
    match value_bound(scope, name) {
        Some(value) => match value {
            CtValueView::Tuple(values) => Some(values),
            CtValueView::List(values) => Some(values),
            _ => None,
        },
        None => None,
    }
}

/// See [`sequence_bound`].
pub fn bound_sequence(
    name: &String,
    scope: &Vec<(String, CtValue)>,
) -> (r: Option<Vec<CtValue>>)
    ensures
        (
            match r { Some(v) => Some(ct_value_list_view(v@)), None => None }
        ) == sequence_bound(name@, binding_list_view(scope@)),
{
    proof { reveal(sequence_bound); }
    match find_binding(scope, name) {
        Some(value) => {
            proof { unfold_ct_value(value); }
            match &value {
                CtValue::Tuple(values) => Some(clone_ct_value_list(values)),
                CtValue::List(values) => Some(clone_ct_value_list(values)),
                _ => {
                    assert(!(value@ is Tuple));
                    assert(!(value@ is List));
                    None
                },
            }
        },
        None => None,
    }
}

#[verifier::opaque]
pub open spec fn one_value_arg(args: Seq<ParamArgView>) -> bool {
    args.len() == 1 && (args[0] matches ParamArgView::Value(_))
}

/// See [`one_value_arg`].
pub fn is_single_value(args: &Vec<ParamArg>) -> (r: bool)
    ensures
        r == one_value_arg(param_arg_list_view(args@)),
{
    proof { reveal(one_value_arg); }
    args.len() == 1 && matches!(&args[0], ParamArg::Value(_))
}

/// The type that a name with arguments stands for: a struct, or an element of a
/// list of types.
pub open spec fn type_of_name(
    name: Seq<char>,
    args: Seq<ParamArgView>,
    scope: Seq<(Seq<char>, CtValueView)>,
    cx: CtContextView,
    fuel: usize,
    depth: u32,
) -> Result<(TyView, usize), HaltView>
    decreases depth, args, (args.len() + 2) as nat,
{
    if args.len() == 0 {
        match bare_type(name, scope, cx) {
            Ok(out) => {
                let ty = out;
                Ok((ty, fuel))
            },
            Err(error) => Err(HaltView { error, fuel }),
        }
    } else {
        match sequence_bound(name, scope) {
            Some(values) => if one_value_arg(args) {
                type_indexed(name, values, args, scope, cx, fuel, depth)
            } else {
                type_of_struct(name, args, scope, cx, fuel, depth)
            },
            None => type_of_struct(name, args, scope, cx, fuel, depth),
        }
    }
}

/// See [`type_of_name`].
pub fn type_from_name(
    name: &String,
    args: &Vec<ParamArg>,
    scope: &Vec<(String, CtValue)>,
    cx: &CtContext,
    fuel: usize,
    depth: u32,
) -> (r: Result<(Ty, usize), Halt>)
    ensures
        (match r { Ok(v) => Ok((v.0@, v.1)), Err(v) => Err(v@) }) == type_of_name(
            name@,
            param_arg_list_view(args@),
            binding_list_view(scope@),
            cx@,
            fuel,
            depth,
        ),
    decreases depth, args@, 2nat,
{
    if args.len() == 0 {
        let ty = match type_from_bare_name(name, scope, cx) {
            Ok(done) => done,
            Err(error) => {
                return Err(Halt { error, fuel });
            },
        };
        Ok((ty, fuel))
    } else {
        match bound_sequence(name, scope) {
            Some(values) => {
                if is_single_value(args) {
                    indexed_type(name, &values, args, scope, cx, fuel, depth)
                } else {
                    struct_type(name, args, scope, cx, fuel, depth)
                }
            },
            None => struct_type(name, args, scope, cx, fuel, depth),
        }
    }
}

/// An element of a list of types under the name of the list.
pub open spec fn type_indexed(
    name: Seq<char>,
    values: Seq<CtValueView>,
    args: Seq<ParamArgView>,
    scope: Seq<(Seq<char>, CtValueView)>,
    cx: CtContextView,
    fuel: usize,
    depth: u32,
) -> Result<(TyView, usize), HaltView>
    decreases depth, args, 0nat,
{
    if args.len() > 0 {
        match value_of_index(args[0], scope, cx, fuel, depth) {
            Ok(out) => {
                let (index, fuel) = out;
                match integer_of(index, "type-list index"@) {
                    Ok(out) => {
                        let index = out;
                        match element_type(name, values, index) {
                            Ok(out) => {
                                let ty = out;
                                Ok((ty, fuel))
                            },
                            Err(error) => Err(HaltView { error, fuel }),
                        }
                    },
                    Err(error) => Err(HaltView { error, fuel }),
                }
            },
            Err(error) => Err(error),
        }
    } else {
        Err(halted(nested_too_deep(), fuel))
    }
}

/// See [`type_indexed`].
pub fn indexed_type(
    name: &String,
    values: &Vec<CtValue>,
    args: &Vec<ParamArg>,
    scope: &Vec<(String, CtValue)>,
    cx: &CtContext,
    fuel: usize,
    depth: u32,
) -> (r: Result<(Ty, usize), Halt>)
    ensures
        (match r { Ok(v) => Ok((v.0@, v.1)), Err(v) => Err(v@) }) == type_indexed(
            name@,
            ct_value_list_view(values@),
            param_arg_list_view(args@),
            binding_list_view(scope@),
            cx@,
            fuel,
            depth,
        ),
    decreases depth, args@, 0nat,
{
    if args.len() > 0 {
        let (index, fuel) = match index_value(&args[0], scope, cx, fuel, depth) {
            Ok(done) => done,
            Err(error) => {
                return Err(error);
            },
        };
        let index: i64 = match as_int(&index, "type-list index") {
            Ok(done) => done,
            Err(error) => {
                return Err(Halt { error, fuel });
            },
        };
        let ty = match type_element(name, values, index) {
            Ok(done) => done,
            Err(error) => {
                return Err(Halt { error, fuel });
            },
        };
        Ok((ty, fuel))
    } else {
        Err(halt(too_deep(), fuel))
    }
}

pub open spec fn value_of_index(
    arg: ParamArgView,
    scope: Seq<(Seq<char>, CtValueView)>,
    cx: CtContextView,
    fuel: usize,
    depth: u32,
) -> Result<(CtValueView, usize), HaltView>
    decreases depth, arg, 0nat,
{
    match arg {
        ParamArgView::Value(e) => evaluated(e, scope, cx, fuel, depth),
        _ => Err(halted(nested_too_deep(), fuel)),
    }
}

/// See [`value_of_index`].
pub fn index_value(
    arg: &ParamArg,
    scope: &Vec<(String, CtValue)>,
    cx: &CtContext,
    fuel: usize,
    depth: u32,
) -> (r: Result<(CtValue, usize), Halt>)
    ensures
        (
            match r { Ok(v) => Ok((v.0@, v.1)), Err(v) => Err(v@) }
        ) == value_of_index(arg@, binding_list_view(scope@), cx@, fuel, depth),
    decreases depth, arg, 0nat,
{
    match arg {
        ParamArg::Value(e) => eval(e, scope, cx, fuel, depth),
        _ => {
            assert(!(arg@ is Value));
            Err(halt(too_deep(), fuel))
        },
    }
}

/// A struct with its arguments.
pub open spec fn type_of_struct(
    name: Seq<char>,
    args: Seq<ParamArgView>,
    scope: Seq<(Seq<char>, CtValueView)>,
    cx: CtContextView,
    fuel: usize,
    depth: u32,
) -> Result<(TyView, usize), HaltView>
    decreases depth, args, (args.len() + 1) as nat,
{
    match struct_named(cx.structs, name, 0, None) {
        Some(info) => if args.len() == info.decls.len() {
            match resolved_args(args, info.decls, scope, cx, depth, 0, Seq::empty(), fuel, 0) {
                Ok(out) => {
                    let (values, fuel) = out;
                    match args_of_type(values, info.decls, 0, Seq::empty(), 0) {
                        Ok(out) => {
                            let types = out;
                            Ok((TyView::Struct(name, types), fuel))
                        },
                        Err(error) => Err(HaltView { error, fuel }),
                    }
                },
                Err(error) => Err(error),
            }
        } else {
            Err(
                halted(wrong_type_arity(name, info.decls.len() as usize, args.len() as usize), fuel)
            )
        },
        None => Err(halted(no_comptime("'"@ + name + "' is not a compile-time type"@), fuel)),
    }
}

/// See [`type_of_struct`].
pub fn struct_type(
    name: &String,
    args: &Vec<ParamArg>,
    scope: &Vec<(String, CtValue)>,
    cx: &CtContext,
    fuel: usize,
    depth: u32,
) -> (r: Result<(Ty, usize), Halt>)
    ensures
        (match r { Ok(v) => Ok((v.0@, v.1)), Err(v) => Err(v@) }) == type_of_struct(
            name@,
            param_arg_list_view(args@),
            binding_list_view(scope@),
            cx@,
            fuel,
            depth,
        ),
    decreases depth, args@, 1nat,
{
    match find_struct(&cx.structs, name) {
        Some(info) => {
            if args.len() == info.decls.len() {
                let (values, fuel) = match resolve_ct_args(
                    args,
                    &info.decls,
                    scope,
                    cx,
                    fuel,
                    depth,
                ) {
                    Ok(done) => done,
                    Err(error) => {
                        return Err(error);
                    },
                };
                let types = match type_args(&values, &info.decls) {
                    Ok(done) => done,
                    Err(error) => {
                        return Err(Halt { error, fuel });
                    },
                };
                let ty = Ty::Struct(name.clone(), types);
                proof { unfold_ty(ty); }
                Ok((ty, fuel))
            } else {
                Err(halt(type_arity(name, info.decls.len(), args.len()), fuel))
            }
        },
        None => Err(halt(not_comptime(cat3("'", name.as_str(), "' is not a compile-time type")), fuel)),
    }
}

/// Values as the arguments of a type: a type for each type parameter.
pub open spec fn args_of_type(
    values: Seq<CtValueView>,
    decls: Seq<ParamDeclView>,
    i: nat,
    out: Seq<TyArgView>,
    k: usize,
) -> Result<Seq<TyArgView>, ComptimeErrorView>
    decreases values, (values.len() - i) as nat,
{
    if i >= values.len() {
        Ok(out)
    } else {
        let value = values[i as int];
        if k >= decls.len() {
            Ok(out)
        } else {
            match arg_of_type(value, decls[k as int]) {
                Ok(taken) => {
                    let arg = taken;
                    let out = out.push(arg);
                    let k = following_index(k);
                    args_of_type(values, decls, i + 1, out, k)
                },
                Err(error) => Err(error),
            }
        }
    }
}

/// See [`args_of_type`].
pub fn type_args(
    values: &Vec<CtValue>,
    decls: &Vec<ParamDecl>,
) -> (r: Result<Vec<TyArg>, ComptimeError>)
    ensures
        (match r { Ok(v) => Ok(ty_arg_list_view(v@)), Err(v) => Err(v@) }) == args_of_type(
            ct_value_list_view(values@),
            param_decl_list_view(decls@),
            0,
            Seq::<TyArgView>::empty(),
            0,
        ),
    decreases values@, 0nat,
{
    let mut out: Vec<TyArg> = Vec::new();
    assert(ty_arg_list_view(out@) =~= Seq::<TyArgView>::empty());
    let mut k: usize = 0;
    let ghost goal = args_of_type(
        ct_value_list_view(values@),
        param_decl_list_view(decls@),
        0,
        Seq::<TyArgView>::empty(),
        0,
    );
    let mut i: usize = 0;
    while i < values.len()
        invariant
            i <= values@.len(),
            ct_value_list_view(values@).len() == values@.len(),
            args_of_type(
                ct_value_list_view(values@),
                param_decl_list_view(decls@),
                i as nat,
                ty_arg_list_view(out@),
                k,
            ) == goal,
            goal == args_of_type(
                ct_value_list_view(values@),
                param_decl_list_view(decls@),
                0,
                Seq::<TyArgView>::empty(),
                0,
            ),
        decreases values@.len() - i,
    {
        let value = &values[i];
        assert(ct_value_list_view(values@)[i as int] == value@);
        if k >= decls.len() {
            return Ok(out);
        }
        let arg = match type_arg(value, &decls[k]) {
            Ok(done) => done,
            Err(error) => {
                return Err(error);
            },
        };
        let ghost before = ty_arg_list_view(out@);
        let ghost added = arg@;
        out.push(arg);
        assert(ty_arg_list_view(out@) =~= before.push(added));
        k = next_index(k);
        i = i + 1;
    }
    Ok(out)
}

#[verifier::opaque]
pub open spec fn arg_of_type(
    value: CtValueView,
    decl: ParamDeclView,
) -> Result<TyArgView, ComptimeErrorView> {
    match decl {
        ParamDeclView::Type { name, .. } => match value {
            CtValueView::Type(ty) => Ok(TyArgView::Ty(type_itself(*ty))),
            _ => Err(no_comptime("type parameter '"@ + name + "' needs a type argument"@)),
        },
        ParamDeclView::Value { .. } => Ok(TyArgView::Val(value)),
    }
}

/// See [`arg_of_type`].
pub fn type_arg(value: &CtValue, decl: &ParamDecl) -> (r: Result<TyArg, ComptimeError>)
    ensures
        (match r { Ok(v) => Ok(v@), Err(v) => Err(v@) }) == arg_of_type(value@, decl@),
{
    proof { reveal(arg_of_type); }
    proof { unfold_param_decl(*decl); }
    match decl {
        ParamDecl::Type { name, .. } => {
            proof { unfold_ct_value(*value); }
            match value {
                CtValue::Type(ty) => Ok(TyArg::Ty(copied_type(&**ty))),
                _ => {
                    assert(!(value@ is Type));
                    Err(not_comptime(cat3("type parameter '", name.as_str(), "' needs a type argument")))
                },
            }
        },
        ParamDecl::Value { .. } => Ok(TyArg::Val(clone_ct_value(value))),
    }
}

/// How many integers a `range` goes through.
pub open spec fn range_count(start: int, stop: int, step: int) -> nat {
    if step > 0 && start < stop {
        ((stop - start + step - 1) / step) as nat
    } else if step < 0 && start > stop {
        ((start - stop - step - 1) / (-step)) as nat
    } else {
        0
    }
}

/// The integers a `range` goes through.
pub open spec fn values_of_range(start: i64, stop: i64, step: i64) -> Seq<CtValueView> {
    Seq::new(
        range_count(start as int, stop as int, step as int),
        |k: int| CtValueView::Int((start + k * step) as i64),
    )
}

/// The numbers of a range that goes up are those below its count.
proof fn counted_up(d: int, s: int, k: int)
    requires
        d > 0,
        s > 0,
        k >= 0,
    ensures
        k * s < d <==> k < (d + s - 1) / s,
{
    let c = (d + s - 1) / s;
    lemma_fundamental_div_mod(d + s - 1, s);
    assert(s * c >= d && s * (c - 1) < d) by (nonlinear_arith)
        requires
            d + s - 1 == s * c + (d + s - 1) % s,
            0 <= (d + s - 1) % s < s,
    ;
    if k < c {
        assert(k * s <= s * (c - 1)) by (nonlinear_arith)
            requires
                k <= c - 1,
                s > 0,
        ;
    } else {
        assert(k * s >= s * c) by (nonlinear_arith)
            requires
                k >= c,
                s > 0,
        ;
    }
}

/// A range holds each of its steps that comes before its stop, and no more.
pub proof fn range_holds(start: int, stop: int, step: int, k: int)
    requires
        step != 0,
        k >= 0,
    ensures
        k < range_count(start, stop, step) <==> (if step > 0 {
            start + k * step < stop
        } else {
            start + k * step > stop
        }),
{
    if step > 0 {
        if start < stop {
            counted_up(stop - start, step, k);
            assert((stop - start + step - 1) / step >= 0) by {
                counted_up(stop - start, step, 0);
                assert(0 * step == 0);
            }
        } else {
            assert(k * step >= 0) by (nonlinear_arith)
                requires
                    k >= 0,
                    step > 0,
            ;
        }
    } else {
        assert(k * step == -(k * -step)) by (nonlinear_arith);
        if start > stop {
            counted_up(start - stop, -step, k);
            assert((start - stop - step - 1) / (-step) >= 0) by {
                counted_up(start - stop, -step, 0);
                assert(0 * -step == 0);
            }
        } else {
            assert(k * -step >= 0) by (nonlinear_arith)
                requires
                    k >= 0,
                    step < 0,
            ;
        }
    }
}

/// See [`values_of_range`].
pub fn range_values(start: i64, stop: i64, step: i64) -> (r: Vec<CtValue>)
    ensures
        ct_value_list_view(r@) == values_of_range(start, stop, step),
{
    let mut out: Vec<CtValue> = Vec::new();
    let ghost count = range_count(start as int, stop as int, step as int);
    if step == 0 {
        assert(ct_value_list_view(out@) =~= values_of_range(start, stop, step));
        return out;
    }
    let mut next: i64 = start;
    let mut more: bool = true;
    let ghost mut k: int = 0;
    while more && (step > 0 && next < stop || step < 0 && next > stop)
        invariant
            step != 0,
            k >= 0,
            count == range_count(start as int, stop as int, step as int),
            k <= count,
            more ==> next == start + k * step,
            !more ==> k == count,
            ct_value_list_view(out@) == values_of_range(start, stop, step).take(k),
        decreases count - k,
    {
        proof {
            range_holds(start as int, stop as int, step as int, k);
        }
        let value = CtValue::Int(next);
        proof { unfold_ct_value(value); }
        let ghost before = ct_value_list_view(out@);
        out.push(value);
        proof {
            assert(ct_value_list_view(out@) =~= before.push(value@));
            assert(values_of_range(start, stop, step)[k] == value@);
            assert(before.push(value@) =~= values_of_range(start, stop, step).take(k + 1));
            assert(start + (k + 1) * step == next + step) by (nonlinear_arith)
                requires
                    next == start + k * step,
            ;
            k = k + 1;
            range_holds(start as int, stop as int, step as int, k);
        }
        match checked_sum(next, step) {
            Some(n) => {
                next = n;
            },
            None => {
                more = false;
            },
        }
    }
    proof {
        if more {
            range_holds(start as int, stop as int, step as int, k);
        }
        assert(values_of_range(start, stop, step).take(k) =~= values_of_range(start, stop, step));
    }
    out
}

pub open spec fn all_integers(
    values: Seq<CtValueView>,
    i: nat,
    out: Seq<i64>,
) -> Result<Seq<i64>, ComptimeErrorView>
    decreases values, (values.len() - i) as nat,
{
    if i >= values.len() {
        Ok(out)
    } else {
        let value = values[i as int];
        match integer_of(value, "range argument"@) {
            Ok(taken) => {
                let n = taken;
                let out = out.push(n);
                all_integers(values, i + 1, out)
            },
            Err(error) => Err(error),
        }
    }
}

/// See [`all_integers`].
pub fn as_ints(values: &Vec<CtValue>) -> (r: Result<Vec<i64>, ComptimeError>)
    ensures
        (match r { Ok(v) => Ok(v@), Err(v) => Err(v@) }) == all_integers(
            ct_value_list_view(values@),
            0,
            Seq::<i64>::empty(),
        ),
    decreases values@, 0nat,
{
    let mut out: Vec<i64> = Vec::new();
    let ghost goal = all_integers(ct_value_list_view(values@), 0, Seq::<i64>::empty());
    let mut i: usize = 0;
    while i < values.len()
        invariant
            i <= values@.len(),
            ct_value_list_view(values@).len() == values@.len(),
            all_integers(ct_value_list_view(values@), i as nat, out@) == goal,
            goal == all_integers(ct_value_list_view(values@), 0, Seq::<i64>::empty()),
        decreases values@.len() - i,
    {
        let value = &values[i];
        assert(ct_value_list_view(values@)[i as int] == value@);
        let n: i64 = match as_int(value, "range argument") {
            Ok(done) => done,
            Err(error) => {
                return Err(error);
            },
        };
        out.push(n);
        i = i + 1;
    }
    Ok(out)
}

/// The range that its arguments say: stop; start and stop; or start, stop and step.
#[verifier::opaque]
pub open spec fn range_said(bounds: Seq<i64>) -> Result<(i64, i64, i64), ComptimeErrorView> {
    if bounds.len() == 1 {
        Ok((0, bounds[0], 1))
    } else if bounds.len() == 2 {
        Ok((bounds[0], bounds[1], 1))
    } else if bounds.len() == 3 {
        if bounds[2] == 0 {
            Err(ComptimeErrorView::BadRange("range step cannot be zero"@))
        } else {
            Ok((bounds[0], bounds[1], bounds[2]))
        }
    } else {
        Err(ComptimeErrorView::BadRange("range takes 1-3 arguments"@))
    }
}

/// See [`range_said`].
pub fn range_of(bounds: &Vec<i64>) -> (r: Result<(i64, i64, i64), ComptimeError>)
    ensures
        (match r { Ok(v) => Ok(v), Err(v) => Err(v@) }) == range_said(bounds@),
{
    proof { reveal(range_said); }
    if bounds.len() == 1 {
        Ok((0, bounds[0], 1))
    } else if bounds.len() == 2 {
        Ok((bounds[0], bounds[1], 1))
    } else if bounds.len() == 3 {
        if bounds[2] == 0 {
            Err(ComptimeError::BadRange("range step cannot be zero".to_owned()))
        } else {
            Ok((bounds[0], bounds[1], bounds[2]))
        }
    } else {
        Err(ComptimeError::BadRange("range takes 1-3 arguments".to_owned()))
    }
}

/// What a loop runs over: a range of integers, a tuple or a list.
#[verifier::opaque]
pub open spec fn evaluated_iter(
    iter: ExprView,
    scope: Seq<(Seq<char>, CtValueView)>,
    cx: CtContextView,
    fuel: usize,
    depth: u32,
) -> Result<(Seq<CtValueView>, usize), HaltView> {
    match args_of_range(iter) {
        Some(args) => evaluated_range(args, scope, cx, fuel, depth),
        None => evaluated_sequence(iter, scope, cx, fuel, depth),
    }
}

/// See [`evaluated_iter`].
pub fn eval_iter(
    iter: &Expr,
    scope: &Vec<(String, CtValue)>,
    cx: &CtContext,
    fuel: usize,
    depth: u32,
) -> (r: Result<(Vec<CtValue>, usize), Halt>)
    ensures
        (
            match r { Ok(v) => Ok((ct_value_list_view(v.0@), v.1)), Err(v) => Err(v@) }
        ) == evaluated_iter(iter@, binding_list_view(scope@), cx@, fuel, depth),
{
    proof { reveal(evaluated_iter); }
    match range_args(iter) {
        Some(args) => eval_range(&args, scope, cx, fuel, depth),
        None => eval_sequence(iter, scope, cx, fuel, depth),
    }
}

#[verifier::opaque]
pub open spec fn evaluated_range(
    args: Seq<ExprView>,
    scope: Seq<(Seq<char>, CtValueView)>,
    cx: CtContextView,
    fuel: usize,
    depth: u32,
) -> Result<(Seq<CtValueView>, usize), HaltView> {
    match evaluated_all(args, scope, cx, depth, 0, Seq::empty(), fuel) {
        Ok(out) => {
            let (values, fuel) = out;
            match sequence_of_range(values) {
                Ok(out) => {
                    let values = out;
                    Ok((values, fuel))
                },
                Err(error) => Err(HaltView { error, fuel }),
            }
        },
        Err(error) => Err(error),
    }
}

/// See [`evaluated_range`].
pub fn eval_range(
    args: &Vec<Expr>,
    scope: &Vec<(String, CtValue)>,
    cx: &CtContext,
    fuel: usize,
    depth: u32,
) -> (r: Result<(Vec<CtValue>, usize), Halt>)
    ensures
        (
            match r { Ok(v) => Ok((ct_value_list_view(v.0@), v.1)), Err(v) => Err(v@) }
        ) == evaluated_range(
            expr_list_view(args@),
            binding_list_view(scope@),
            cx@,
            fuel,
            depth,
        ),
{
    proof { reveal(evaluated_range); }
    let (values, fuel) = match eval_all(args, scope, cx, fuel, depth) {
        Ok(done) => done,
        Err(error) => {
            return Err(error);
        },
    };
    let values = match range_sequence(&values) {
        Ok(done) => done,
        Err(error) => {
            return Err(Halt { error, fuel });
        },
    };
    Ok((values, fuel))
}

#[verifier::opaque]
pub open spec fn sequence_of_range(
    bounds: Seq<CtValueView>,
) -> Result<Seq<CtValueView>, ComptimeErrorView> {
    match all_integers(bounds, 0, Seq::empty()) {
        Ok(out) => {
            let bounds = out;
            match range_said(bounds) {
                Ok(out) => {
                    let (start, stop, step) = out;
                    Ok(values_of_range(start, stop, step))
                },
                Err(error) => Err(error),
            }
        },
        Err(error) => Err(error),
    }
}

/// See [`sequence_of_range`].
pub fn range_sequence(bounds: &Vec<CtValue>) -> (r: Result<Vec<CtValue>, ComptimeError>)
    ensures
        (
            match r { Ok(v) => Ok(ct_value_list_view(v@)), Err(v) => Err(v@) }
        ) == sequence_of_range(ct_value_list_view(bounds@)),
{
    proof { reveal(sequence_of_range); }
    let bounds = match as_ints(bounds) {
        Ok(done) => done,
        Err(error) => {
            return Err(error);
        },
    };
    let (start, stop, step) = match range_of(&bounds) {
        Ok(done) => done,
        Err(error) => {
            return Err(error);
        },
    };
    Ok(range_values(start, stop, step))
}

#[verifier::opaque]
pub open spec fn evaluated_sequence(
    iter: ExprView,
    scope: Seq<(Seq<char>, CtValueView)>,
    cx: CtContextView,
    fuel: usize,
    depth: u32,
) -> Result<(Seq<CtValueView>, usize), HaltView> {
    match evaluated(iter, scope, cx, fuel, depth) {
        Ok(out) => {
            let (value, fuel) = out;
            match sequence_of(value, "a range(...), tuple, or list"@) {
                Ok(out) => {
                    let values = out;
                    Ok((values, fuel))
                },
                Err(error) => Err(HaltView { error, fuel }),
            }
        },
        Err(error) => Err(error),
    }
}

/// See [`evaluated_sequence`].
pub fn eval_sequence(
    iter: &Expr,
    scope: &Vec<(String, CtValue)>,
    cx: &CtContext,
    fuel: usize,
    depth: u32,
) -> (r: Result<(Vec<CtValue>, usize), Halt>)
    ensures
        (
            match r { Ok(v) => Ok((ct_value_list_view(v.0@), v.1)), Err(v) => Err(v@) }
        ) == evaluated_sequence(iter@, binding_list_view(scope@), cx@, fuel, depth),
{
    proof { reveal(evaluated_sequence); }
    let (value, fuel) = match eval(iter, scope, cx, fuel, depth) {
        Ok(done) => done,
        Err(error) => {
            return Err(error);
        },
    };
    let values = match as_sequence(&value, "a range(...), tuple, or list") {
        Ok(done) => done,
        Err(error) => {
            return Err(Halt { error, fuel });
        },
    };
    Ok((values, fuel))
}

#[verifier::opaque]
pub open spec fn args_of_range(iter: ExprView) -> Option<Seq<ExprView>> {
    match iter.kind {
        ExprKindView::Call { name, args, .. } => if name == "range"@ {
            Some(args)
        } else {
            None
        },
        _ => None,
    }
}

/// See [`args_of_range`].
pub fn range_args(iter: &Expr) -> (r: Option<Vec<Expr>>)
    ensures
        (match r { Some(v) => Some(expr_list_view(v@)), None => None }) == args_of_range(iter@),
{
    proof { reveal(args_of_range); }
    proof { unfold_expr_kind(iter.kind); }
    match &iter.kind {
        ExprKind::Call { name, args, .. } => {
            if same_text(name.as_str(), "range") {
                Some(clone_expr_list(args))
            } else {
                None
            }
        },
        _ => {
            assert(!(iter.kind@ is Call));
            None
        },
    }
}

} // verus!
