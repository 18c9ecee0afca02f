//! The names of types and compile-time values in messages.

use crate::ast::{Param, Type};
use crate::text::{
    cat2, cat3, cat4, cat5, decimal, quote, quoted_form, show_i64, show_u64, signed_decimal,
};
use crate::types::{
    CtValue, CtValueView, RefTy, RefTyView, Ty, TyArg, TyArgView, TyView, ct_value_list_view,
    ty_arg_list_view, ty_list_view, unfold_ct_value, unfold_ty,
};
use vstd::prelude::*;

verus! {

/// The name of a type in messages.
pub open spec fn ty_text(ty: TyView) -> Seq<char>
    decreases ty, 0nat,
{
    match ty {
        TyView::Int => "Int"@,
        TyView::UInt => "UInt"@,
        TyView::Bool => "Bool"@,
        TyView::String => "String"@,
        TyView::Float64 => "Float64"@,
        TyView::NoneTy => "None"@,
        TyView::IntLiteral => "IntLiteral"@,
        TyView::FloatLiteral => "FloatLiteral"@,
        TyView::List(element) => {
            let element = ty_text(*element);
            "List["@ + element + "]"@
        },
        TyView::SetOf(element) => {
            let element = ty_text(*element);
            "Set["@ + element + "]"@
        },
        TyView::Dict(key, value) => {
            let key = ty_text(*key);
            let value = ty_text(*value);
            "Dict["@ + key + ", "@ + value + "]"@
        },
        TyView::Tuple(elements) => {
            let elements = tys_text(elements, 0, ""@, true);
            "Tuple["@ + elements + "]"@
        },
        TyView::Variant(elements) => {
            let elements = tys_text(elements, 0, ""@, true);
            "Variant["@ + elements + "]"@
        },
        TyView::Struct(name, args) => if args.len() == 0 {
            name
        } else {
            let args = ty_args_text(args, 0, ""@, true);
            name + "["@ + args + "]"@
        },
        TyView::Ref(reference) => ref_text(reference),
        TyView::Pointer { element, .. } => {
            let element = ty_text(*element);
            "Pointer["@ + element + "]"@
        },
        TyView::Param { name } => name,
        TyView::Assoc { base, name } => {
            let base = ty_text(*base);
            base + "."@ + name
        },
        TyView::Func { params, ret } => {
            let params = tys_text(params, 0, ""@, true);
            let ret = ty_text(*ret);
            "def("@ + params + ") -> "@ + ret
        },
        TyView::GenericFunc { params, ret } => {
            let params = tys_text(params, 0, ""@, true);
            let ret = ty_text(*ret);
            "def("@ + params + ") -> "@ + ret
        },
        TyView::Overload(members) => {
            let members = tys_text(members, 0, ""@, true);
            "overload["@ + members + "]"@
        },
    }
}

/// See [`ty_text`].
pub fn show_ty(ty: &Ty) -> (r: String)
    ensures
        r@ == ty_text(ty@),
    decreases ty, 0nat,
{
    proof { unfold_ty(*ty); }
    match ty {
        Ty::Int => "Int".to_owned(),
        Ty::UInt => "UInt".to_owned(),
        Ty::Bool => "Bool".to_owned(),
        Ty::String => "String".to_owned(),
        Ty::Float64 => "Float64".to_owned(),
        Ty::NoneTy => "None".to_owned(),
        Ty::IntLiteral => "IntLiteral".to_owned(),
        Ty::FloatLiteral => "FloatLiteral".to_owned(),
        Ty::List(element) => {
            let element = show_ty(&**element);
            cat3("List[", element.as_str(), "]")
        },
        Ty::SetOf(element) => {
            let element = show_ty(&**element);
            cat3("Set[", element.as_str(), "]")
        },
        Ty::Dict(key, value) => {
            let key = show_ty(&**key);
            let value = show_ty(&**value);
            cat5("Dict[", key.as_str(), ", ", value.as_str(), "]")
        },
        Ty::Tuple(elements) => {
            let elements = show_tys(elements, "".to_owned());
            cat3("Tuple[", elements.as_str(), "]")
        },
        Ty::Variant(elements) => {
            let elements = show_tys(elements, "".to_owned());
            cat3("Variant[", elements.as_str(), "]")
        },
        Ty::Struct(name, args) => {
            if args.len() == 0 {
                name.clone()
            } else {
                let args = show_ty_args(args, "".to_owned());
                cat4(name.as_str(), "[", args.as_str(), "]")
            }
        },
        Ty::Ref(reference) => show_ref(reference),
        Ty::Pointer { element, .. } => {
            let element = show_ty(&**element);
            cat3("Pointer[", element.as_str(), "]")
        },
        Ty::Param { name } => name.clone(),
        Ty::Assoc { base, name } => {
            let base = show_ty(&**base);
            cat3(base.as_str(), ".", name.as_str())
        },
        Ty::Func { params, ret } => {
            let params = show_tys(params, "".to_owned());
            let ret = show_ty(&**ret);
            cat4("def(", params.as_str(), ") -> ", ret.as_str())
        },
        Ty::GenericFunc { params, ret } => {
            let params = show_tys(params, "".to_owned());
            let ret = show_ty(&**ret);
            cat4("def(", params.as_str(), ") -> ", ret.as_str())
        },
        Ty::Overload(members) => {
            let members = show_tys(members, "".to_owned());
            cat3("overload[", members.as_str(), "]")
        },
    }
}

/// Types with commas between them.
pub open spec fn tys_text(types: Seq<TyView>, i: nat, out: Seq<char>, first: bool) -> Seq<char>
    decreases types, (types.len() - i) as nat,
{
    if i >= types.len() {
        out
    } else {
        let ty = types[i as int];
        let text = ty_text(ty);
        let out = if first {
            out + text
        } else {
            out + ", "@ + text
        };
        let first = false;
        tys_text(types, i + 1, out, first)
    }
}

/// See [`tys_text`].
pub fn show_tys(types: &Vec<Ty>, start: String) -> (r: String)
    ensures
        r@ == tys_text(ty_list_view(types@), 0, start@, true),
    decreases types@, 0nat,
{
    let mut out: String = start;
    let mut first: bool = true;
    let ghost goal = tys_text(ty_list_view(types@), 0, start@, true);
    let mut i: usize = 0;
    while i < types.len()
        invariant
            i <= types@.len(),
            ty_list_view(types@).len() == types@.len(),
            tys_text(ty_list_view(types@), i as nat, out@, first) == goal,
            goal == tys_text(ty_list_view(types@), 0, start@, true),
        decreases types@.len() - i,
    {
        let ty = &types[i];
        assert(ty_list_view(types@)[i as int] == ty@);
        let text = show_ty(ty);
        out = if first {
            cat2(out.as_str(), text.as_str())
        } else {
            cat3(out.as_str(), ", ", text.as_str())
        };
        first = false;
        i = i + 1;
    }
    out
}

pub open spec fn ty_args_text(
    args: Seq<TyArgView>,
    i: nat,
    out: Seq<char>,
    first: bool,
) -> Seq<char>
    decreases args, (args.len() - i) as nat,
{
    if i >= args.len() {
        out
    } else {
        let arg = args[i as int];
        let text = ty_arg_text(arg);
        let out = if first {
            out + text
        } else {
            out + ", "@ + text
        };
        let first = false;
        ty_args_text(args, i + 1, out, first)
    }
}

/// See [`ty_args_text`].
pub fn show_ty_args(args: &Vec<TyArg>, start: String) -> (r: String)
    ensures
        r@ == ty_args_text(ty_arg_list_view(args@), 0, start@, true),
    decreases args@, 0nat,
{
    let mut out: String = start;
    let mut first: bool = true;
    let ghost goal = ty_args_text(ty_arg_list_view(args@), 0, start@, true);
    let mut i: usize = 0;
    while i < args.len()
        invariant
            i <= args@.len(),
            ty_arg_list_view(args@).len() == args@.len(),
            ty_args_text(ty_arg_list_view(args@), i as nat, out@, first) == goal,
            goal == ty_args_text(ty_arg_list_view(args@), 0, start@, true),
        decreases args@.len() - i,
    {
        let arg = &args[i];
        assert(ty_arg_list_view(args@)[i as int] == arg@);
        let text = show_ty_arg(arg);
        out = if first {
            cat2(out.as_str(), text.as_str())
        } else {
            cat3(out.as_str(), ", ", text.as_str())
        };
        first = false;
        i = i + 1;
    }
    out
}

pub open spec fn ty_arg_text(arg: TyArgView) -> Seq<char>
    decreases arg, 0nat,
{
    match arg {
        TyArgView::Ty(ty) => ty_text(ty),
        TyArgView::Val(value) => ct_text(value),
    }
}

/// See [`ty_arg_text`].
pub fn show_ty_arg(arg: &TyArg) -> (r: String)
    ensures
        r@ == ty_arg_text(arg@),
    decreases arg, 0nat,
{
    match arg {
        TyArg::Ty(ty) => show_ty(ty),
        TyArg::Val(value) => show_ct(value),
    }
}

pub open spec fn ct_text(value: CtValueView) -> Seq<char>
    decreases value, 0nat,
{
    match value {
        CtValueView::Int(n) => signed_decimal(n as int),
        CtValueView::UInt(n) => decimal(n as nat) + "u"@,
        CtValueView::Float(bits) => "Float64:"@ + decimal(bits as nat),
        CtValueView::Bool(b) => if b {
            "true"@
        } else {
            "false"@
        },
        CtValueView::Str(text) => quoted_form(text),
        CtValueView::Tuple(values) => {
            let values = cts_text(values, 0, ""@, true);
            "("@ + values + ")"@
        },
        CtValueView::List(values) => {
            let values = cts_text(values, 0, ""@, true);
            "["@ + values + "]"@
        },
        CtValueView::Type(ty) => ty_text(*ty),
        CtValueView::Reflected(ty) => {
            let ty = ty_text(*ty);
            "reflect["@ + ty + "]"@
        },
        CtValueView::Param(name) => name,
    }
}

/// See [`ct_text`].
pub fn show_ct(value: &CtValue) -> (r: String)
    ensures
        r@ == ct_text(value@),
    decreases value, 0nat,
{
    proof { unfold_ct_value(*value); }
    match value {
        CtValue::Int(n) => show_i64(*n),
        CtValue::UInt(n) => cat2(show_u64(*n).as_str(), "u"),
        CtValue::Float(bits) => cat2("Float64:", show_u64(*bits).as_str()),
        CtValue::Bool(b) => {
            if *b {
                "true".to_owned()
            } else {
                "false".to_owned()
            }
        },
        CtValue::Str(text) => quote(text),
        CtValue::Tuple(values) => {
            let values = show_cts(values, "".to_owned());
            cat3("(", values.as_str(), ")")
        },
        CtValue::List(values) => {
            let values = show_cts(values, "".to_owned());
            cat3("[", values.as_str(), "]")
        },
        CtValue::Type(ty) => show_ty(&**ty),
        CtValue::Reflected(ty) => {
            let ty = show_ty(&**ty);
            cat3("reflect[", ty.as_str(), "]")
        },
        CtValue::Param(name) => name.clone(),
    }
}

pub open spec fn cts_text(
    values: Seq<CtValueView>,
    i: nat,
    out: Seq<char>,
    first: bool,
) -> Seq<char>
    decreases values, (values.len() - i) as nat,
{
    if i >= values.len() {
        out
    } else {
        let value = values[i as int];
        let text = ct_text(value);
        let out = if first {
            out + text
        } else {
            out + ", "@ + text
        };
        let first = false;
        cts_text(values, i + 1, out, first)
    }
}

/// See [`cts_text`].
pub fn show_cts(values: &Vec<CtValue>, start: String) -> (r: String)
    ensures
        r@ == cts_text(ct_value_list_view(values@), 0, start@, true),
    decreases values@, 0nat,
{
    let mut out: String = start;
    let mut first: bool = true;
    let ghost goal = cts_text(ct_value_list_view(values@), 0, start@, true);
    let mut i: usize = 0;
    while i < values.len()
        invariant
            i <= values@.len(),
            ct_value_list_view(values@).len() == values@.len(),
            cts_text(ct_value_list_view(values@), i as nat, out@, first) == goal,
            goal == cts_text(ct_value_list_view(values@), 0, start@, true),
        decreases values@.len() - i,
    {
        let value = &values[i];
        assert(ct_value_list_view(values@)[i as int] == value@);
        let text = show_ct(value);
        out = if first {
            cat2(out.as_str(), text.as_str())
        } else {
            cat3(out.as_str(), ", ", text.as_str())
        };
        first = false;
        i = i + 1;
    }
    out
}

pub open spec fn ref_text(reference: RefTyView) -> Seq<char>
    decreases reference, 0nat,
{
    let referent = ty_text(*reference.referent);
    "ref "@ + referent
}

/// See [`ref_text`].
pub fn show_ref(reference: &RefTy) -> (r: String)
    ensures
        r@ == ref_text(reference@),
    decreases reference, 0nat,
{
    let referent = show_ty(&*reference.referent);
    cat2("ref ", referent.as_str())
}

} // verus!
