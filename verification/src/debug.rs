//! Expressions and statements as debug printing shows them.

use crate::ast::{
    ArgConvention, Capture, CaptureKind, CaptureView, CollectionKind, ComprehensionClause,
    ComprehensionClauseView, Expr, ExprKind, ExprKindView, ExprView, FnParam, FnParamView,
    ImportName, ImportNameView, ImportNames, ImportNamesView, InfixOp, KwArg, KwArgView, Method,
    MethodView, Param, ParamArg, ParamArgView, ParamKind, ParamView, PrefixOp, Stmt, StmtKind,
    StmtKindView, StmtView, StructComptime, StructComptimeView, SubscriptArg, SubscriptArgView,
    TStringPart, TStringPartView, Type, TypeParam, TypeParamView, TypeView, WithItem, WithItemView,
    branch_list_view, capture_list_view, comparison_list_view, comprehension_clause_list_view,
    entry_list_view, expr_list_view, fn_param_list_view, import_name_list_view, kw_arg_list_view,
    method_list_view, param_arg_list_view, param_list_view, stmt_list_view,
    struct_comptime_list_view, subscript_arg_list_view, t_string_part_list_view, type_list_view,
    type_param_list_view, unfold_expr_kind, unfold_import_names, unfold_stmt_kind, unfold_type,
    with_item_list_view,
};
use crate::text::{
    cat2, cat3, cat5, cat7, decimal, opt_view, quote, quoted_form, show_i64, show_u64, show_usize,
    signed_decimal, string_list_view,
};
use crate::token::Span;
use vstd::prelude::*;

verus! {

#[verifier::opaque]
pub open spec fn bool_debug(b: bool) -> Seq<char> {
    if b {
        "true"@
    } else {
        "false"@
    }
}

/// See [`bool_debug`].
pub fn debug_bool(b: bool) -> (r: String)
    ensures
        r@ == bool_debug(b),
{
    proof { reveal(bool_debug); }
    if b {
        "true".to_owned()
    } else {
        "false".to_owned()
    }
}

#[verifier::opaque]
pub open spec fn span_debug(span: Span) -> Seq<char> {
    "("@ + decimal(span.0 as nat) + ", "@ + decimal(span.1 as nat) + ")"@
}

/// See [`span_debug`].
pub fn debug_span(span: Span) -> (r: String)
    ensures
        r@ == span_debug(span),
{
    proof { reveal(span_debug); }
    cat5("(", show_usize(span.0).as_str(), ", ", show_usize(span.1).as_str(), ")")
}

pub open spec fn opt_string_debug(value: Option<Seq<char>>) -> Seq<char>
    decreases value, 0nat,
{
    match value {
        Some(value) => {
            let text = quoted_form(value);
            "Some("@ + text + ")"@
        },
        None => "None"@,
    }
}

/// See [`opt_string_debug`].
pub fn debug_opt_string(value: &Option<String>) -> (r: String)
    ensures
        r@ == opt_string_debug(opt_view(*value)),
    decreases value, 0nat,
{
    match value {
        Some(value) => {
            let text = quote(value);
            cat3("Some(", text.as_str(), ")")
        },
        None => "None".to_owned(),
    }
}

pub open spec fn expr_debug(expr: ExprView) -> Seq<char>
    decreases expr, 0nat,
{
    let kind_text = expr_kind_debug(expr.kind);
    let span_text = span_debug(expr.span);
    let source_text = opt_string_debug(expr.source);
    "Expr { kind: "@ + kind_text + ", span: "@ + span_text + ", source: "@ + source_text + " }"@
}

/// See [`expr_debug`].
pub fn debug_expr(expr: &Expr) -> (r: String)
    ensures
        r@ == expr_debug(expr@),
    decreases expr, 0nat,
{
    let kind_text = debug_expr_kind(&expr.kind);
    let span_text = debug_span(expr.span);
    let source_text = debug_opt_string(&expr.source);
    cat7("Expr { kind: ", kind_text.as_str(), ", span: ", span_text.as_str(), ", source: ", source_text.as_str(), " }")
}

pub open spec fn param_arg_debug(param_arg: ParamArgView) -> Seq<char>
    decreases param_arg, 0nat,
{
    match param_arg {
        ParamArgView::Type(a0) => {
            let a0_text = type_debug(a0);
            "Type("@ + a0_text + ")"@
        },
        ParamArgView::Value(a0) => {
            let a0_text = expr_debug(a0);
            "Value("@ + a0_text + ")"@
        },
        ParamArgView::Named { name, value } => {
            let name_text = quoted_form(name);
            let value_text = param_arg_debug(*value);
            "Named { name: "@ + name_text + ", value: "@ + value_text + " }"@
        },
    }
}

/// See [`param_arg_debug`].
pub fn debug_param_arg(param_arg: &ParamArg) -> (r: String)
    ensures
        r@ == param_arg_debug(param_arg@),
    decreases param_arg, 0nat,
{
    match param_arg {
        ParamArg::Type(a0) => {
            let a0_text = debug_type(a0);
            cat3("Type(", a0_text.as_str(), ")")
        },
        ParamArg::Value(a0) => {
            let a0_text = debug_expr(a0);
            cat3("Value(", a0_text.as_str(), ")")
        },
        ParamArg::Named { name, value } => {
            let name_text = quote(name);
            let value_text = debug_param_arg(&**value);
            cat5("Named { name: ", name_text.as_str(), ", value: ", value_text.as_str(), " }")
        },
    }
}

pub open spec fn param_arg_list_debug(
    items: Seq<ParamArgView>,
    i: nat,
    out: Seq<char>,
    first: bool,
) -> Seq<char>
    decreases items, (items.len() - i) as nat,
{
    if i >= items.len() {
        out + "]"@
    } else {
        let item = items[i as int];
        let text = param_arg_debug(item);
        let out = if first {
            out + text
        } else {
            out + ", "@ + text
        };
        let first = false;
        param_arg_list_debug(items, i + 1, out, first)
    }
}

/// See [`param_arg_list_debug`].
pub fn debug_param_arg_list(items: &Vec<ParamArg>) -> (r: String)
    ensures
        r@ == param_arg_list_debug(param_arg_list_view(items@), 0, "["@, true),
    decreases items@, 0nat,
{
    let mut out: String = "[".to_owned();
    let mut first: bool = true;
    let ghost goal = param_arg_list_debug(param_arg_list_view(items@), 0, "["@, true);
    let mut i: usize = 0;
    while i < items.len()
        invariant
            i <= items@.len(),
            param_arg_list_view(items@).len() == items@.len(),
            param_arg_list_debug(param_arg_list_view(items@), i as nat, out@, first) == goal,
            goal == param_arg_list_debug(param_arg_list_view(items@), 0, "["@, true),
        decreases items@.len() - i,
    {
        let item = &items[i];
        assert(param_arg_list_view(items@)[i as int] == item@);
        let text = debug_param_arg(item);
        out = if first {
            cat2(out.as_str(), text.as_str())
        } else {
            cat3(out.as_str(), ", ", text.as_str())
        };
        first = false;
        i = i + 1;
    }
    cat2(out.as_str(), "]")
}

pub open spec fn type_list_debug(
    items: Seq<TypeView>,
    i: nat,
    out: Seq<char>,
    first: bool,
) -> Seq<char>
    decreases items, (items.len() - i) as nat,
{
    if i >= items.len() {
        out + "]"@
    } else {
        let item = items[i as int];
        let text = type_debug(item);
        let out = if first {
            out + text
        } else {
            out + ", "@ + text
        };
        let first = false;
        type_list_debug(items, i + 1, out, first)
    }
}

/// See [`type_list_debug`].
pub fn debug_type_list(items: &Vec<Type>) -> (r: String)
    ensures
        r@ == type_list_debug(type_list_view(items@), 0, "["@, true),
    decreases items@, 0nat,
{
    let mut out: String = "[".to_owned();
    let mut first: bool = true;
    let ghost goal = type_list_debug(type_list_view(items@), 0, "["@, true);
    let mut i: usize = 0;
    while i < items.len()
        invariant
            i <= items@.len(),
            type_list_view(items@).len() == items@.len(),
            type_list_debug(type_list_view(items@), i as nat, out@, first) == goal,
            goal == type_list_debug(type_list_view(items@), 0, "["@, true),
        decreases items@.len() - i,
    {
        let item = &items[i];
        assert(type_list_view(items@)[i as int] == item@);
        let text = debug_type(item);
        out = if first {
            cat2(out.as_str(), text.as_str())
        } else {
            cat3(out.as_str(), ", ", text.as_str())
        };
        first = false;
        i = i + 1;
    }
    cat2(out.as_str(), "]")
}

pub open spec fn held_type_debug(value: Option<Box<TypeView>>) -> Seq<char>
    decreases value, 0nat,
{
    match value {
        Some(value) => {
            let text = type_debug(*value);
            "Some("@ + text + ")"@
        },
        None => "None"@,
    }
}

/// See [`held_type_debug`].
pub fn debug_held_type(value: &Option<Box<Type>>) -> (r: String)
    ensures
        r@ == held_type_debug((match value { Some(v) => Some(Box::new(v@)), None => None })),
    decreases value, 0nat,
{
    match value {
        Some(value) => {
            let text = debug_type(&**value);
            cat3("Some(", text.as_str(), ")")
        },
        None => "None".to_owned(),
    }
}

pub open spec fn held_expr_debug(value: Option<Box<ExprView>>) -> Seq<char>
    decreases value, 0nat,
{
    match value {
        Some(value) => {
            let text = expr_debug(*value);
            "Some("@ + text + ")"@
        },
        None => "None"@,
    }
}

/// See [`held_expr_debug`].
pub fn debug_held_expr(value: &Option<Box<Expr>>) -> (r: String)
    ensures
        r@ == held_expr_debug((match value { Some(v) => Some(Box::new(v@)), None => None })),
    decreases value, 0nat,
{
    match value {
        Some(value) => {
            let text = debug_expr(&**value);
            cat3("Some(", text.as_str(), ")")
        },
        None => "None".to_owned(),
    }
}

pub open spec fn type_debug(ty: TypeView) -> Seq<char>
    decreases ty, 1nat,
{
    match ty {
        TypeView::Int => "Int"@,
        TypeView::UInt => "UInt"@,
        TypeView::Bool => "Bool"@,
        TypeView::String => "String"@,
        TypeView::Float64 => "Float64"@,
        TypeView::NoneTy => "None"@,
        _ => type_debug_more(ty),
    }
}

/// See [`type_debug`].
pub fn debug_type(ty: &Type) -> (r: String)
    ensures
        r@ == type_debug(ty@),
    decreases ty, 1nat,
{
    proof { unfold_type(*ty); }
    match ty {
        Type::Int => "Int".to_owned(),
        Type::UInt => "UInt".to_owned(),
        Type::Bool => "Bool".to_owned(),
        Type::String => "String".to_owned(),
        Type::Float64 => "Float64".to_owned(),
        Type::NoneTy => "None".to_owned(),
        _ => {
            assert(!(ty@ is Int));
            assert(!(ty@ is UInt));
            assert(!(ty@ is Bool));
            assert(!(ty@ is String));
            assert(!(ty@ is Float64));
            assert(!(ty@ is NoneTy));
            debug_type_more(ty)
        },
    }
}

pub open spec fn type_debug_more(ty: TypeView) -> Seq<char>
    decreases ty, 0nat,
{
    match ty {
        TypeView::SelfParam(a0) => {
            let a0_text = quoted_form(a0);
            "SelfParam("@ + a0_text + ")"@
        },
        TypeView::Named(a0, a1) => {
            let a0_text = quoted_form(a0);
            let a1_text = param_arg_list_debug(a1, 0, "["@, true);
            "Named("@ + a0_text + ", "@ + a1_text + ")"@
        },
        TypeView::Assoc { base, name } => {
            let base_text = type_debug(*base);
            let name_text = quoted_form(name);
            "Assoc { base: "@ + base_text + ", name: "@ + name_text + " }"@
        },
        TypeView::Func { params, ret, thin, raises, raises_type } => {
            let params_text = type_list_debug(params, 0, "["@, true);
            let ret_text = type_debug(*ret);
            let thin_text = bool_debug(thin);
            let raises_text = bool_debug(raises);
            let raises_type_text = held_type_debug(raises_type);
            "Func { params: "@ + params_text + ", ret: "@ + ret_text + ", thin: "@ + thin_text + ", raises: "@ + raises_text + ", raises_type: "@ + raises_type_text + " }"@
        },
        TypeView::Ref { referent, origin } => {
            let referent_text = type_debug(*referent);
            let origin_text = held_expr_debug(origin);
            "Ref { referent: "@ + referent_text + ", origin: "@ + origin_text + " }"@
        },
        _ => "SelfType"@,
    }
}

/// See [`type_debug_more`].
pub fn debug_type_more(ty: &Type) -> (r: String)
    ensures
        r@ == type_debug_more(ty@),
    decreases ty, 0nat,
{
    proof { unfold_type(*ty); }
    match ty {
        Type::SelfParam(a0) => {
            let a0_text = quote(a0);
            cat3("SelfParam(", a0_text.as_str(), ")")
        },
        Type::Named(a0, a1) => {
            let a0_text = quote(a0);
            let a1_text = debug_param_arg_list(a1);
            cat5("Named(", a0_text.as_str(), ", ", a1_text.as_str(), ")")
        },
        Type::Assoc { base, name } => {
            let base_text = debug_type(&**base);
            let name_text = quote(name);
            cat5("Assoc { base: ", base_text.as_str(), ", name: ", name_text.as_str(), " }")
        },
        Type::Func { params, ret, thin, raises, raises_type } => {
            let params_text = debug_type_list(params);
            let ret_text = debug_type(&**ret);
            let thin_text = debug_bool(*thin);
            let raises_text = debug_bool(*raises);
            let raises_type_text = debug_held_type(raises_type);
            cat5(
                cat7(
                    "Func { params: ",
                    params_text.as_str(),
                    ", ret: ",
                    ret_text.as_str(),
                    ", thin: ",
                    thin_text.as_str(),
                    ", raises: ",
                ).as_str(),
                raises_text.as_str(),
                ", raises_type: ",
                raises_type_text.as_str(),
                " }",
            )
        },
        Type::Ref { referent, origin } => {
            let referent_text = debug_type(&**referent);
            let origin_text = debug_held_expr(origin);
            cat5("Ref { referent: ", referent_text.as_str(), ", origin: ", origin_text.as_str(), " }")
        },
        _ => {
            assert(!(ty@ is SelfParam));
            assert(!(ty@ is Named));
            assert(!(ty@ is Assoc));
            assert(!(ty@ is Func));
            assert(!(ty@ is Ref));
            "SelfType".to_owned()
        },
    }
}

pub open spec fn t_string_part_debug(t_string_part: TStringPartView) -> Seq<char>
    decreases t_string_part, 0nat,
{
    match t_string_part {
        TStringPartView::Literal(a0) => {
            let a0_text = quoted_form(a0);
            "Literal("@ + a0_text + ")"@
        },
        TStringPartView::Expr(a0) => {
            let a0_text = expr_debug(*a0);
            "Expr("@ + a0_text + ")"@
        },
    }
}

/// See [`t_string_part_debug`].
pub fn debug_t_string_part(t_string_part: &TStringPart) -> (r: String)
    ensures
        r@ == t_string_part_debug(t_string_part@),
    decreases t_string_part, 0nat,
{
    match t_string_part {
        TStringPart::Literal(a0) => {
            let a0_text = quote(a0);
            cat3("Literal(", a0_text.as_str(), ")")
        },
        TStringPart::Expr(a0) => {
            let a0_text = debug_expr(&**a0);
            cat3("Expr(", a0_text.as_str(), ")")
        },
    }
}

pub open spec fn t_string_part_list_debug(
    items: Seq<TStringPartView>,
    i: nat,
    out: Seq<char>,
    first: bool,
) -> Seq<char>
    decreases items, (items.len() - i) as nat,
{
    if i >= items.len() {
        out + "]"@
    } else {
        let item = items[i as int];
        let text = t_string_part_debug(item);
        let out = if first {
            out + text
        } else {
            out + ", "@ + text
        };
        let first = false;
        t_string_part_list_debug(items, i + 1, out, first)
    }
}

/// See [`t_string_part_list_debug`].
pub fn debug_t_string_part_list(items: &Vec<TStringPart>) -> (r: String)
    ensures
        r@ == t_string_part_list_debug(t_string_part_list_view(items@), 0, "["@, true),
    decreases items@, 0nat,
{
    let mut out: String = "[".to_owned();
    let mut first: bool = true;
    let ghost goal = t_string_part_list_debug(t_string_part_list_view(items@), 0, "["@, true);
    let mut i: usize = 0;
    while i < items.len()
        invariant
            i <= items@.len(),
            t_string_part_list_view(items@).len() == items@.len(),
            t_string_part_list_debug(
                t_string_part_list_view(items@),
                i as nat,
                out@,
                first,
            ) == goal,
            goal == t_string_part_list_debug(t_string_part_list_view(items@), 0, "["@, true),
        decreases items@.len() - i,
    {
        let item = &items[i];
        assert(t_string_part_list_view(items@)[i as int] == item@);
        let text = debug_t_string_part(item);
        out = if first {
            cat2(out.as_str(), text.as_str())
        } else {
            cat3(out.as_str(), ", ", text.as_str())
        };
        first = false;
        i = i + 1;
    }
    cat2(out.as_str(), "]")
}

#[verifier::opaque]
pub open spec fn prefix_op_debug(prefix_op: PrefixOp) -> Seq<char> {
    match prefix_op {
        PrefixOp::Neg => "Neg"@,
        PrefixOp::Not => "Not"@,
    }
}

/// See [`prefix_op_debug`].
pub fn debug_prefix_op(prefix_op: PrefixOp) -> (r: String)
    ensures
        r@ == prefix_op_debug(prefix_op),
{
    proof { reveal(prefix_op_debug); }
    match prefix_op {
        PrefixOp::Neg => "Neg".to_owned(),
        PrefixOp::Not => "Not".to_owned(),
    }
}

#[verifier::opaque]
pub open spec fn infix_op_debug(infix_op: InfixOp) -> Seq<char> {
    match infix_op {
        InfixOp::Add => "Add"@,
        InfixOp::Sub => "Sub"@,
        InfixOp::Mul => "Mul"@,
        InfixOp::Div => "Div"@,
        InfixOp::FloorDiv => "FloorDiv"@,
        InfixOp::Mod => "Mod"@,
        InfixOp::Pow => "Pow"@,
        InfixOp::Eq => "Eq"@,
        InfixOp::Ne => "Ne"@,
        InfixOp::Lt => "Lt"@,
        InfixOp::Gt => "Gt"@,
        InfixOp::Le => "Le"@,
        InfixOp::Ge => "Ge"@,
        InfixOp::And => "And"@,
        InfixOp::Or => "Or"@,
        InfixOp::In => "In"@,
        InfixOp::NotIn => "NotIn"@,
    }
}

/// See [`infix_op_debug`].
pub fn debug_infix_op(infix_op: InfixOp) -> (r: String)
    ensures
        r@ == infix_op_debug(infix_op),
{
    proof { reveal(infix_op_debug); }
    match infix_op {
        InfixOp::Add => "Add".to_owned(),
        InfixOp::Sub => "Sub".to_owned(),
        InfixOp::Mul => "Mul".to_owned(),
        InfixOp::Div => "Div".to_owned(),
        InfixOp::FloorDiv => "FloorDiv".to_owned(),
        InfixOp::Mod => "Mod".to_owned(),
        InfixOp::Pow => "Pow".to_owned(),
        InfixOp::Eq => "Eq".to_owned(),
        InfixOp::Ne => "Ne".to_owned(),
        InfixOp::Lt => "Lt".to_owned(),
        InfixOp::Gt => "Gt".to_owned(),
        InfixOp::Le => "Le".to_owned(),
        InfixOp::Ge => "Ge".to_owned(),
        InfixOp::And => "And".to_owned(),
        InfixOp::Or => "Or".to_owned(),
        InfixOp::In => "In".to_owned(),
        InfixOp::NotIn => "NotIn".to_owned(),
    }
}

pub open spec fn comparison_debug(pair: (InfixOp, ExprView)) -> Seq<char>
    decreases pair, 0nat,
{
    let text0 = infix_op_debug(pair.0);
    let text1 = expr_debug(pair.1);
    "("@ + text0 + ", "@ + text1 + ")"@
}

/// See [`comparison_debug`].
pub fn debug_comparison(pair: &(InfixOp, Expr)) -> (r: String)
    ensures
        r@ == comparison_debug((pair.0, pair.1@)),
    decreases pair, 0nat,
{
    let text0 = debug_infix_op(pair.0);
    let text1 = debug_expr(&pair.1);
    cat5("(", text0.as_str(), ", ", text1.as_str(), ")")
}

pub open spec fn comparison_list_debug(
    items: Seq<(InfixOp, ExprView)>,
    i: nat,
    out: Seq<char>,
    first: bool,
) -> Seq<char>
    decreases items, (items.len() - i) as nat,
{
    if i >= items.len() {
        out + "]"@
    } else {
        let item = items[i as int];
        let text = comparison_debug(item);
        let out = if first {
            out + text
        } else {
            out + ", "@ + text
        };
        let first = false;
        comparison_list_debug(items, i + 1, out, first)
    }
}

/// See [`comparison_list_debug`].
pub fn debug_comparison_list(items: &Vec<(InfixOp, Expr)>) -> (r: String)
    ensures
        r@ == comparison_list_debug(comparison_list_view(items@), 0, "["@, true),
    decreases items@, 0nat,
{
    let mut out: String = "[".to_owned();
    let mut first: bool = true;
    let ghost goal = comparison_list_debug(comparison_list_view(items@), 0, "["@, true);
    let mut i: usize = 0;
    while i < items.len()
        invariant
            i <= items@.len(),
            comparison_list_view(items@).len() == items@.len(),
            comparison_list_debug(comparison_list_view(items@), i as nat, out@, first) == goal,
            goal == comparison_list_debug(comparison_list_view(items@), 0, "["@, true),
        decreases items@.len() - i,
    {
        let item = &items[i];
        assert(comparison_list_view(items@)[i as int].1 =~= item.1@);
        let text = debug_comparison(item);
        out = if first {
            cat2(out.as_str(), text.as_str())
        } else {
            cat3(out.as_str(), ", ", text.as_str())
        };
        first = false;
        i = i + 1;
    }
    cat2(out.as_str(), "]")
}

pub open spec fn expr_list_debug(
    items: Seq<ExprView>,
    i: nat,
    out: Seq<char>,
    first: bool,
) -> Seq<char>
    decreases items, (items.len() - i) as nat,
{
    if i >= items.len() {
        out + "]"@
    } else {
        let item = items[i as int];
        let text = expr_debug(item);
        let out = if first {
            out + text
        } else {
            out + ", "@ + text
        };
        let first = false;
        expr_list_debug(items, i + 1, out, first)
    }
}

/// See [`expr_list_debug`].
pub fn debug_expr_list(items: &Vec<Expr>) -> (r: String)
    ensures
        r@ == expr_list_debug(expr_list_view(items@), 0, "["@, true),
    decreases items@, 0nat,
{
    let mut out: String = "[".to_owned();
    let mut first: bool = true;
    let ghost goal = expr_list_debug(expr_list_view(items@), 0, "["@, true);
    let mut i: usize = 0;
    while i < items.len()
        invariant
            i <= items@.len(),
            expr_list_view(items@).len() == items@.len(),
            expr_list_debug(expr_list_view(items@), i as nat, out@, first) == goal,
            goal == expr_list_debug(expr_list_view(items@), 0, "["@, true),
        decreases items@.len() - i,
    {
        let item = &items[i];
        assert(expr_list_view(items@)[i as int] == item@);
        let text = debug_expr(item);
        out = if first {
            cat2(out.as_str(), text.as_str())
        } else {
            cat3(out.as_str(), ", ", text.as_str())
        };
        first = false;
        i = i + 1;
    }
    cat2(out.as_str(), "]")
}

pub open spec fn kw_arg_debug(kw_arg: KwArgView) -> Seq<char>
    decreases kw_arg, 0nat,
{
    let name_text = quoted_form(kw_arg.name);
    let value_text = expr_debug(kw_arg.value);
    "KwArg { name: "@ + name_text + ", value: "@ + value_text + " }"@
}

/// See [`kw_arg_debug`].
pub fn debug_kw_arg(kw_arg: &KwArg) -> (r: String)
    ensures
        r@ == kw_arg_debug(kw_arg@),
    decreases kw_arg, 0nat,
{
    let name_text = quote(&kw_arg.name);
    let value_text = debug_expr(&kw_arg.value);
    cat5("KwArg { name: ", name_text.as_str(), ", value: ", value_text.as_str(), " }")
}

pub open spec fn kw_arg_list_debug(
    items: Seq<KwArgView>,
    i: nat,
    out: Seq<char>,
    first: bool,
) -> Seq<char>
    decreases items, (items.len() - i) as nat,
{
    if i >= items.len() {
        out + "]"@
    } else {
        let item = items[i as int];
        let text = kw_arg_debug(item);
        let out = if first {
            out + text
        } else {
            out + ", "@ + text
        };
        let first = false;
        kw_arg_list_debug(items, i + 1, out, first)
    }
}

/// See [`kw_arg_list_debug`].
pub fn debug_kw_arg_list(items: &Vec<KwArg>) -> (r: String)
    ensures
        r@ == kw_arg_list_debug(kw_arg_list_view(items@), 0, "["@, true),
    decreases items@, 0nat,
{
    let mut out: String = "[".to_owned();
    let mut first: bool = true;
    let ghost goal = kw_arg_list_debug(kw_arg_list_view(items@), 0, "["@, true);
    let mut i: usize = 0;
    while i < items.len()
        invariant
            i <= items@.len(),
            kw_arg_list_view(items@).len() == items@.len(),
            kw_arg_list_debug(kw_arg_list_view(items@), i as nat, out@, first) == goal,
            goal == kw_arg_list_debug(kw_arg_list_view(items@), 0, "["@, true),
        decreases items@.len() - i,
    {
        let item = &items[i];
        assert(kw_arg_list_view(items@)[i as int] == item@);
        let text = debug_kw_arg(item);
        out = if first {
            cat2(out.as_str(), text.as_str())
        } else {
            cat3(out.as_str(), ", ", text.as_str())
        };
        first = false;
        i = i + 1;
    }
    cat2(out.as_str(), "]")
}

pub open spec fn subscript_arg_debug(subscript_arg: SubscriptArgView) -> Seq<char>
    decreases subscript_arg, 0nat,
{
    match subscript_arg {
        SubscriptArgView::Index(a0) => {
            let a0_text = expr_debug(a0);
            "Index("@ + a0_text + ")"@
        },
        SubscriptArgView::Slice { lower, upper, step } => {
            let lower_text = held_expr_debug(lower);
            let upper_text = held_expr_debug(upper);
            let step_text = held_expr_debug(step);
            "Slice { lower: "@ + lower_text + ", upper: "@ + upper_text + ", step: "@ + step_text + " }"@
        },
    }
}

/// See [`subscript_arg_debug`].
pub fn debug_subscript_arg(subscript_arg: &SubscriptArg) -> (r: String)
    ensures
        r@ == subscript_arg_debug(subscript_arg@),
    decreases subscript_arg, 0nat,
{
    match subscript_arg {
        SubscriptArg::Index(a0) => {
            let a0_text = debug_expr(a0);
            cat3("Index(", a0_text.as_str(), ")")
        },
        SubscriptArg::Slice { lower, upper, step } => {
            let lower_text = debug_held_expr(lower);
            let upper_text = debug_held_expr(upper);
            let step_text = debug_held_expr(step);
            cat7(
                "Slice { lower: ",
                lower_text.as_str(),
                ", upper: ",
                upper_text.as_str(),
                ", step: ",
                step_text.as_str(),
                " }",
            )
        },
    }
}

pub open spec fn subscript_arg_list_debug(
    items: Seq<SubscriptArgView>,
    i: nat,
    out: Seq<char>,
    first: bool,
) -> Seq<char>
    decreases items, (items.len() - i) as nat,
{
    if i >= items.len() {
        out + "]"@
    } else {
        let item = items[i as int];
        let text = subscript_arg_debug(item);
        let out = if first {
            out + text
        } else {
            out + ", "@ + text
        };
        let first = false;
        subscript_arg_list_debug(items, i + 1, out, first)
    }
}

/// See [`subscript_arg_list_debug`].
pub fn debug_subscript_arg_list(items: &Vec<SubscriptArg>) -> (r: String)
    ensures
        r@ == subscript_arg_list_debug(subscript_arg_list_view(items@), 0, "["@, true),
    decreases items@, 0nat,
{
    let mut out: String = "[".to_owned();
    let mut first: bool = true;
    let ghost goal = subscript_arg_list_debug(subscript_arg_list_view(items@), 0, "["@, true);
    let mut i: usize = 0;
    while i < items.len()
        invariant
            i <= items@.len(),
            subscript_arg_list_view(items@).len() == items@.len(),
            subscript_arg_list_debug(
                subscript_arg_list_view(items@),
                i as nat,
                out@,
                first,
            ) == goal,
            goal == subscript_arg_list_debug(subscript_arg_list_view(items@), 0, "["@, true),
        decreases items@.len() - i,
    {
        let item = &items[i];
        assert(subscript_arg_list_view(items@)[i as int] == item@);
        let text = debug_subscript_arg(item);
        out = if first {
            cat2(out.as_str(), text.as_str())
        } else {
            cat3(out.as_str(), ", ", text.as_str())
        };
        first = false;
        i = i + 1;
    }
    cat2(out.as_str(), "]")
}

pub open spec fn opt_expr_debug(value: Option<ExprView>) -> Seq<char>
    decreases value, 0nat,
{
    match value {
        Some(value) => {
            let text = expr_debug(value);
            "Some("@ + text + ")"@
        },
        None => "None"@,
    }
}

/// See [`opt_expr_debug`].
pub fn debug_opt_expr(value: &Option<Expr>) -> (r: String)
    ensures
        r@ == opt_expr_debug(opt_view(*value)),
    decreases value, 0nat,
{
    match value {
        Some(value) => {
            let text = debug_expr(value);
            cat3("Some(", text.as_str(), ")")
        },
        None => "None".to_owned(),
    }
}

pub open spec fn entry_debug(pair: (ExprView, Option<ExprView>)) -> Seq<char>
    decreases pair, 0nat,
{
    let text0 = expr_debug(pair.0);
    let text1 = opt_expr_debug(pair.1);
    "("@ + text0 + ", "@ + text1 + ")"@
}

/// See [`entry_debug`].
pub fn debug_entry(pair: &(Expr, Option<Expr>)) -> (r: String)
    ensures
        r@ == entry_debug((pair.0@, opt_view(pair.1))),
    decreases pair, 0nat,
{
    let text0 = debug_expr(&pair.0);
    let text1 = debug_opt_expr(&pair.1);
    cat5("(", text0.as_str(), ", ", text1.as_str(), ")")
}

pub open spec fn entry_list_debug(
    items: Seq<(ExprView, Option<ExprView>)>,
    i: nat,
    out: Seq<char>,
    first: bool,
) -> Seq<char>
    decreases items, (items.len() - i) as nat,
{
    if i >= items.len() {
        out + "]"@
    } else {
        let item = items[i as int];
        let text = entry_debug(item);
        let out = if first {
            out + text
        } else {
            out + ", "@ + text
        };
        let first = false;
        entry_list_debug(items, i + 1, out, first)
    }
}

/// See [`entry_list_debug`].
pub fn debug_entry_list(items: &Vec<(Expr, Option<Expr>)>) -> (r: String)
    ensures
        r@ == entry_list_debug(entry_list_view(items@), 0, "["@, true),
    decreases items@, 0nat,
{
    let mut out: String = "[".to_owned();
    let mut first: bool = true;
    let ghost goal = entry_list_debug(entry_list_view(items@), 0, "["@, true);
    let mut i: usize = 0;
    while i < items.len()
        invariant
            i <= items@.len(),
            entry_list_view(items@).len() == items@.len(),
            entry_list_debug(entry_list_view(items@), i as nat, out@, first) == goal,
            goal == entry_list_debug(entry_list_view(items@), 0, "["@, true),
        decreases items@.len() - i,
    {
        let item = &items[i];
        assert(entry_list_view(items@)[i as int].0 =~= item.0@);
        assert(entry_list_view(items@)[i as int].1 =~= opt_view(item.1));
        let text = debug_entry(item);
        out = if first {
            cat2(out.as_str(), text.as_str())
        } else {
            cat3(out.as_str(), ", ", text.as_str())
        };
        first = false;
        i = i + 1;
    }
    cat2(out.as_str(), "]")
}

#[verifier::opaque]
pub open spec fn collection_kind_debug(collection_kind: CollectionKind) -> Seq<char> {
    match collection_kind {
        CollectionKind::List => "List"@,
        CollectionKind::SetOf => "Set"@,
        CollectionKind::Dict => "Dict"@,
    }
}

/// See [`collection_kind_debug`].
pub fn debug_collection_kind(collection_kind: CollectionKind) -> (r: String)
    ensures
        r@ == collection_kind_debug(collection_kind),
{
    proof { reveal(collection_kind_debug); }
    match collection_kind {
        CollectionKind::List => "List".to_owned(),
        CollectionKind::SetOf => "Set".to_owned(),
        CollectionKind::Dict => "Dict".to_owned(),
    }
}

pub open spec fn comprehension_clause_debug(
    comprehension_clause: ComprehensionClauseView,
) -> Seq<char>
    decreases comprehension_clause, 0nat,
{
    match comprehension_clause {
        ComprehensionClauseView::For { var, owned, iter } => {
            let var_text = quoted_form(var);
            let owned_text = bool_debug(owned);
            let iter_text = expr_debug(*iter);
            "For { var: "@ + var_text + ", owned: "@ + owned_text + ", iter: "@ + iter_text + " }"@
        },
        ComprehensionClauseView::If(a0) => {
            let a0_text = expr_debug(*a0);
            "If("@ + a0_text + ")"@
        },
    }
}

/// See [`comprehension_clause_debug`].
pub fn debug_comprehension_clause(comprehension_clause: &ComprehensionClause) -> (r: String)
    ensures
        r@ == comprehension_clause_debug(comprehension_clause@),
    decreases comprehension_clause, 0nat,
{
    match comprehension_clause {
        ComprehensionClause::For { var, owned, iter } => {
            let var_text = quote(var);
            let owned_text = debug_bool(*owned);
            let iter_text = debug_expr(&**iter);
            cat7(
                "For { var: ",
                var_text.as_str(),
                ", owned: ",
                owned_text.as_str(),
                ", iter: ",
                iter_text.as_str(),
                " }",
            )
        },
        ComprehensionClause::If(a0) => {
            let a0_text = debug_expr(&**a0);
            cat3("If(", a0_text.as_str(), ")")
        },
    }
}

pub open spec fn comprehension_clause_list_debug(
    items: Seq<ComprehensionClauseView>,
    i: nat,
    out: Seq<char>,
    first: bool,
) -> Seq<char>
    decreases items, (items.len() - i) as nat,
{
    if i >= items.len() {
        out + "]"@
    } else {
        let item = items[i as int];
        let text = comprehension_clause_debug(item);
        let out = if first {
            out + text
        } else {
            out + ", "@ + text
        };
        let first = false;
        comprehension_clause_list_debug(items, i + 1, out, first)
    }
}

/// See [`comprehension_clause_list_debug`].
pub fn debug_comprehension_clause_list(items: &Vec<ComprehensionClause>) -> (r: String)
    ensures
        r@ == comprehension_clause_list_debug(
            comprehension_clause_list_view(items@),
            0,
            "["@,
            true,
        ),
    decreases items@, 0nat,
{
    let mut out: String = "[".to_owned();
    let mut first: bool = true;
    let ghost goal = comprehension_clause_list_debug(
        comprehension_clause_list_view(items@),
        0,
        "["@,
        true,
    );
    let mut i: usize = 0;
    while i < items.len()
        invariant
            i <= items@.len(),
            comprehension_clause_list_view(items@).len() == items@.len(),
            comprehension_clause_list_debug(
                comprehension_clause_list_view(items@),
                i as nat,
                out@,
                first,
            ) == goal,
            goal == comprehension_clause_list_debug(
                comprehension_clause_list_view(items@),
                0,
                "["@,
                true,
            ),
        decreases items@.len() - i,
    {
        let item = &items[i];
        assert(comprehension_clause_list_view(items@)[i as int] == item@);
        let text = debug_comprehension_clause(item);
        out = if first {
            cat2(out.as_str(), text.as_str())
        } else {
            cat3(out.as_str(), ", ", text.as_str())
        };
        first = false;
        i = i + 1;
    }
    cat2(out.as_str(), "]")
}

pub open spec fn expr_kind_debug(expr_kind: ExprKindView) -> Seq<char>
    decreases expr_kind, 4nat,
{
    match expr_kind {
        ExprKindView::Int(a0) => {
            let a0_text = signed_decimal(a0 as int);
            "Int("@ + a0_text + ")"@
        },
        ExprKindView::Float(a0) => {
            let a0_text = decimal(a0 as nat);
            "Float("@ + a0_text + ")"@
        },
        ExprKindView::Bool(a0) => {
            let a0_text = bool_debug(a0);
            "Bool("@ + a0_text + ")"@
        },
        ExprKindView::Str(a0) => {
            let a0_text = quoted_form(a0);
            "Str("@ + a0_text + ")"@
        },
        ExprKindView::NoneLit => "None"@,
        ExprKindView::Identifier(a0) => {
            let a0_text = quoted_form(a0);
            "Identifier("@ + a0_text + ")"@
        },
        _ => expr_kind_debug_more(expr_kind),
    }
}

/// See [`expr_kind_debug`].
pub fn debug_expr_kind(expr_kind: &ExprKind) -> (r: String)
    ensures
        r@ == expr_kind_debug(expr_kind@),
    decreases expr_kind, 4nat,
{
    proof { unfold_expr_kind(*expr_kind); }
    match expr_kind {
        ExprKind::Int(a0) => {
            let a0_text = show_i64(*a0);
            cat3("Int(", a0_text.as_str(), ")")
        },
        ExprKind::Float(a0) => {
            let a0_text = show_u64(*a0);
            cat3("Float(", a0_text.as_str(), ")")
        },
        ExprKind::Bool(a0) => {
            let a0_text = debug_bool(*a0);
            cat3("Bool(", a0_text.as_str(), ")")
        },
        ExprKind::Str(a0) => {
            let a0_text = quote(a0);
            cat3("Str(", a0_text.as_str(), ")")
        },
        ExprKind::NoneLit => "None".to_owned(),
        ExprKind::Identifier(a0) => {
            let a0_text = quote(a0);
            cat3("Identifier(", a0_text.as_str(), ")")
        },
        _ => {
            assert(!(expr_kind@ is Int));
            assert(!(expr_kind@ is Float));
            assert(!(expr_kind@ is Bool));
            assert(!(expr_kind@ is Str));
            assert(!(expr_kind@ is NoneLit));
            assert(!(expr_kind@ is Identifier));
            debug_expr_kind_more(expr_kind)
        },
    }
}

pub open spec fn expr_kind_debug_more(expr_kind: ExprKindView) -> Seq<char>
    decreases expr_kind, 3nat,
{
    match expr_kind {
        ExprKindView::TypeValue(a0) => {
            let a0_text = type_debug(a0);
            "TypeValue("@ + a0_text + ")"@
        },
        ExprKindView::TString { parts, raw } => {
            let parts_text = t_string_part_list_debug(parts, 0, "["@, true);
            let raw_text = bool_debug(raw);
            "TString { parts: "@ + parts_text + ", raw: "@ + raw_text + " }"@
        },
        ExprKindView::TypeApply { name, args } => {
            let name_text = quoted_form(name);
            let args_text = param_arg_list_debug(args, 0, "["@, true);
            "TypeApply { name: "@ + name_text + ", args: "@ + args_text + " }"@
        },
        ExprKindView::Prefix(a0, a1) => {
            let a0_text = prefix_op_debug(a0);
            let a1_text = expr_debug(*a1);
            "Prefix("@ + a0_text + ", "@ + a1_text + ")"@
        },
        ExprKindView::Transfer(a0) => {
            let a0_text = expr_debug(*a0);
            "Transfer("@ + a0_text + ")"@
        },
        ExprKindView::Spread(a0) => {
            let a0_text = expr_debug(*a0);
            "Spread("@ + a0_text + ")"@
        },
        _ => expr_kind_debug_further(expr_kind),
    }
}

/// See [`expr_kind_debug_more`].
pub fn debug_expr_kind_more(expr_kind: &ExprKind) -> (r: String)
    ensures
        r@ == expr_kind_debug_more(expr_kind@),
    decreases expr_kind, 3nat,
{
    proof { unfold_expr_kind(*expr_kind); }
    match expr_kind {
        ExprKind::TypeValue(a0) => {
            let a0_text = debug_type(a0);
            cat3("TypeValue(", a0_text.as_str(), ")")
        },
        ExprKind::TString { parts, raw } => {
            let parts_text = debug_t_string_part_list(parts);
            let raw_text = debug_bool(*raw);
            cat5("TString { parts: ", parts_text.as_str(), ", raw: ", raw_text.as_str(), " }")
        },
        ExprKind::TypeApply { name, args } => {
            let name_text = quote(name);
            let args_text = debug_param_arg_list(args);
            cat5("TypeApply { name: ", name_text.as_str(), ", args: ", args_text.as_str(), " }")
        },
        ExprKind::Prefix(a0, a1) => {
            let a0_text = debug_prefix_op(*a0);
            let a1_text = debug_expr(&**a1);
            cat5("Prefix(", a0_text.as_str(), ", ", a1_text.as_str(), ")")
        },
        ExprKind::Transfer(a0) => {
            let a0_text = debug_expr(&**a0);
            cat3("Transfer(", a0_text.as_str(), ")")
        },
        ExprKind::Spread(a0) => {
            let a0_text = debug_expr(&**a0);
            cat3("Spread(", a0_text.as_str(), ")")
        },
        _ => {
            assert(!(expr_kind@ is TypeValue));
            assert(!(expr_kind@ is TString));
            assert(!(expr_kind@ is TypeApply));
            assert(!(expr_kind@ is Prefix));
            assert(!(expr_kind@ is Transfer));
            assert(!(expr_kind@ is Spread));
            debug_expr_kind_further(expr_kind)
        },
    }
}

pub open spec fn expr_kind_debug_further(expr_kind: ExprKindView) -> Seq<char>
    decreases expr_kind, 2nat,
{
    match expr_kind {
        ExprKindView::Infix(a0, a1, a2) => {
            let a0_text = infix_op_debug(a0);
            let a1_text = expr_debug(*a1);
            let a2_text = expr_debug(*a2);
            "Infix("@ + a0_text + ", "@ + a1_text + ", "@ + a2_text + ")"@
        },
        ExprKindView::Compare { first, rest } => {
            let first_text = expr_debug(*first);
            let rest_text = comparison_list_debug(rest, 0, "["@, true);
            "Compare { first: "@ + first_text + ", rest: "@ + rest_text + " }"@
        },
        ExprKindView::Call { name, param_args, args, kwargs } => {
            let name_text = quoted_form(name);
            let param_args_text = param_arg_list_debug(param_args, 0, "["@, true);
            let args_text = expr_list_debug(args, 0, "["@, true);
            let kwargs_text = kw_arg_list_debug(kwargs, 0, "["@, true);
            "Call { name: "@ + name_text + ", param_args: "@ + param_args_text + ", args: "@ + args_text + ", kwargs: "@ + kwargs_text + " }"@
        },
        ExprKindView::Invoke { callee, param_args, args, kwargs } => {
            let callee_text = expr_debug(*callee);
            let param_args_text = param_arg_list_debug(param_args, 0, "["@, true);
            let args_text = expr_list_debug(args, 0, "["@, true);
            let kwargs_text = kw_arg_list_debug(kwargs, 0, "["@, true);
            "Invoke { callee: "@ + callee_text + ", param_args: "@ + param_args_text + ", args: "@ + args_text + ", kwargs: "@ + kwargs_text + " }"@
        },
        ExprKindView::Member { object, field } => {
            let object_text = expr_debug(*object);
            let field_text = quoted_form(field);
            "Member { object: "@ + object_text + ", field: "@ + field_text + " }"@
        },
        ExprKindView::MethodCall { object, method, args, kwargs } => {
            let object_text = expr_debug(*object);
            let method_text = quoted_form(method);
            let args_text = expr_list_debug(args, 0, "["@, true);
            let kwargs_text = kw_arg_list_debug(kwargs, 0, "["@, true);
            "MethodCall { object: "@ + object_text + ", method: "@ + method_text + ", args: "@ + args_text + ", kwargs: "@ + kwargs_text + " }"@
        },
        _ => expr_kind_debug_rest(expr_kind),
    }
}

/// See [`expr_kind_debug_further`].
pub fn debug_expr_kind_further(expr_kind: &ExprKind) -> (r: String)
    ensures
        r@ == expr_kind_debug_further(expr_kind@),
    decreases expr_kind, 2nat,
{
    proof { unfold_expr_kind(*expr_kind); }
    match expr_kind {
        ExprKind::Infix(a0, a1, a2) => {
            let a0_text = debug_infix_op(*a0);
            let a1_text = debug_expr(&**a1);
            let a2_text = debug_expr(&**a2);
            cat7("Infix(", a0_text.as_str(), ", ", a1_text.as_str(), ", ", a2_text.as_str(), ")")
        },
        ExprKind::Compare { first, rest } => {
            let first_text = debug_expr(&**first);
            let rest_text = debug_comparison_list(rest);
            cat5("Compare { first: ", first_text.as_str(), ", rest: ", rest_text.as_str(), " }")
        },
        ExprKind::Call { name, param_args, args, kwargs } => {
            let name_text = quote(name);
            let param_args_text = debug_param_arg_list(param_args);
            let args_text = debug_expr_list(args);
            let kwargs_text = debug_kw_arg_list(kwargs);
            cat3(
                cat7(
                    "Call { name: ",
                    name_text.as_str(),
                    ", param_args: ",
                    param_args_text.as_str(),
                    ", args: ",
                    args_text.as_str(),
                    ", kwargs: ",
                ).as_str(),
                kwargs_text.as_str(),
                " }",
            )
        },
        ExprKind::Invoke { callee, param_args, args, kwargs } => {
            let callee_text = debug_expr(&**callee);
            let param_args_text = debug_param_arg_list(param_args);
            let args_text = debug_expr_list(args);
            let kwargs_text = debug_kw_arg_list(kwargs);
            cat3(
                cat7(
                    "Invoke { callee: ",
                    callee_text.as_str(),
                    ", param_args: ",
                    param_args_text.as_str(),
                    ", args: ",
                    args_text.as_str(),
                    ", kwargs: ",
                ).as_str(),
                kwargs_text.as_str(),
                " }",
            )
        },
        ExprKind::Member { object, field } => {
            let object_text = debug_expr(&**object);
            let field_text = quote(field);
            cat5("Member { object: ", object_text.as_str(), ", field: ", field_text.as_str(), " }")
        },
        ExprKind::MethodCall { object, method, args, kwargs } => {
            let object_text = debug_expr(&**object);
            let method_text = quote(method);
            let args_text = debug_expr_list(args);
            let kwargs_text = debug_kw_arg_list(kwargs);
            cat3(
                cat7(
                    "MethodCall { object: ",
                    object_text.as_str(),
                    ", method: ",
                    method_text.as_str(),
                    ", args: ",
                    args_text.as_str(),
                    ", kwargs: ",
                ).as_str(),
                kwargs_text.as_str(),
                " }",
            )
        },
        _ => {
            assert(!(expr_kind@ is Infix));
            assert(!(expr_kind@ is Compare));
            assert(!(expr_kind@ is Call));
            assert(!(expr_kind@ is Invoke));
            assert(!(expr_kind@ is Member));
            assert(!(expr_kind@ is MethodCall));
            debug_expr_kind_rest(expr_kind)
        },
    }
}

pub open spec fn expr_kind_debug_rest(expr_kind: ExprKindView) -> Seq<char>
    decreases expr_kind, 1nat,
{
    match expr_kind {
        ExprKindView::Index { object, index } => {
            let object_text = expr_debug(*object);
            let index_text = expr_debug(*index);
            "Index { object: "@ + object_text + ", index: "@ + index_text + " }"@
        },
        ExprKindView::Slice { object, lower, upper, step } => {
            let object_text = expr_debug(*object);
            let lower_text = held_expr_debug(lower);
            let upper_text = held_expr_debug(upper);
            let step_text = held_expr_debug(step);
            "Slice { object: "@ + object_text + ", lower: "@ + lower_text + ", upper: "@ + upper_text + ", step: "@ + step_text + " }"@
        },
        ExprKindView::MultiIndex { object, args } => {
            let object_text = expr_debug(*object);
            let args_text = subscript_arg_list_debug(args, 0, "["@, true);
            "MultiIndex { object: "@ + object_text + ", args: "@ + args_text + " }"@
        },
        ExprKindView::ListLit(a0) => {
            let a0_text = expr_list_debug(a0, 0, "["@, true);
            "ListLit("@ + a0_text + ")"@
        },
        ExprKindView::TupleLit(a0) => {
            let a0_text = expr_list_debug(a0, 0, "["@, true);
            "TupleLit("@ + a0_text + ")"@
        },
        ExprKindView::BraceLit(a0) => {
            let a0_text = entry_list_debug(a0, 0, "["@, true);
            "BraceLit("@ + a0_text + ")"@
        },
        _ => expr_kind_debug_last(expr_kind),
    }
}

/// See [`expr_kind_debug_rest`].
pub fn debug_expr_kind_rest(expr_kind: &ExprKind) -> (r: String)
    ensures
        r@ == expr_kind_debug_rest(expr_kind@),
    decreases expr_kind, 1nat,
{
    proof { unfold_expr_kind(*expr_kind); }
    match expr_kind {
        ExprKind::Index { object, index } => {
            let object_text = debug_expr(&**object);
            let index_text = debug_expr(&**index);
            cat5("Index { object: ", object_text.as_str(), ", index: ", index_text.as_str(), " }")
        },
        ExprKind::Slice { object, lower, upper, step } => {
            let object_text = debug_expr(&**object);
            let lower_text = debug_held_expr(lower);
            let upper_text = debug_held_expr(upper);
            let step_text = debug_held_expr(step);
            cat3(
                cat7(
                    "Slice { object: ",
                    object_text.as_str(),
                    ", lower: ",
                    lower_text.as_str(),
                    ", upper: ",
                    upper_text.as_str(),
                    ", step: ",
                ).as_str(),
                step_text.as_str(),
                " }",
            )
        },
        ExprKind::MultiIndex { object, args } => {
            let object_text = debug_expr(&**object);
            let args_text = debug_subscript_arg_list(args);
            cat5("MultiIndex { object: ", object_text.as_str(), ", args: ", args_text.as_str(), " }")
        },
        ExprKind::ListLit(a0) => {
            let a0_text = debug_expr_list(a0);
            cat3("ListLit(", a0_text.as_str(), ")")
        },
        ExprKind::TupleLit(a0) => {
            let a0_text = debug_expr_list(a0);
            cat3("TupleLit(", a0_text.as_str(), ")")
        },
        ExprKind::BraceLit(a0) => {
            let a0_text = debug_entry_list(a0);
            cat3("BraceLit(", a0_text.as_str(), ")")
        },
        _ => {
            assert(!(expr_kind@ is Index));
            assert(!(expr_kind@ is Slice));
            assert(!(expr_kind@ is MultiIndex));
            assert(!(expr_kind@ is ListLit));
            assert(!(expr_kind@ is TupleLit));
            assert(!(expr_kind@ is BraceLit));
            debug_expr_kind_last(expr_kind)
        },
    }
}

pub open spec fn expr_kind_debug_last(expr_kind: ExprKindView) -> Seq<char>
    decreases expr_kind, 0nat,
{
    match expr_kind {
        ExprKindView::Comprehension { kind, key, value, clauses } => {
            let kind_text = collection_kind_debug(kind);
            let key_text = held_expr_debug(key);
            let value_text = expr_debug(*value);
            let clauses_text = comprehension_clause_list_debug(clauses, 0, "["@, true);
            "Comprehension { kind: "@ + kind_text + ", key: "@ + key_text + ", value: "@ + value_text + ", clauses: "@ + clauses_text + " }"@
        },
        ExprKindView::Named { name, value } => {
            let name_text = quoted_form(name);
            let value_text = expr_debug(*value);
            "Named { name: "@ + name_text + ", value: "@ + value_text + " }"@
        },
        ExprKindView::IfExpr { cond, then_branch, else_branch } => {
            let cond_text = expr_debug(*cond);
            let then_branch_text = expr_debug(*then_branch);
            let else_branch_text = expr_debug(*else_branch);
            "IfExpr { cond: "@ + cond_text + ", then_branch: "@ + then_branch_text + ", else_branch: "@ + else_branch_text + " }"@
        },
        _ => "Uninitialized"@,
    }
}

/// See [`expr_kind_debug_last`].
pub fn debug_expr_kind_last(expr_kind: &ExprKind) -> (r: String)
    ensures
        r@ == expr_kind_debug_last(expr_kind@),
    decreases expr_kind, 0nat,
{
    proof { unfold_expr_kind(*expr_kind); }
    match expr_kind {
        ExprKind::Comprehension { kind, key, value, clauses } => {
            let kind_text = debug_collection_kind(*kind);
            let key_text = debug_held_expr(key);
            let value_text = debug_expr(&**value);
            let clauses_text = debug_comprehension_clause_list(clauses);
            cat3(
                cat7(
                    "Comprehension { kind: ",
                    kind_text.as_str(),
                    ", key: ",
                    key_text.as_str(),
                    ", value: ",
                    value_text.as_str(),
                    ", clauses: ",
                ).as_str(),
                clauses_text.as_str(),
                " }",
            )
        },
        ExprKind::Named { name, value } => {
            let name_text = quote(name);
            let value_text = debug_expr(&**value);
            cat5("Named { name: ", name_text.as_str(), ", value: ", value_text.as_str(), " }")
        },
        ExprKind::IfExpr { cond, then_branch, else_branch } => {
            let cond_text = debug_expr(&**cond);
            let then_branch_text = debug_expr(&**then_branch);
            let else_branch_text = debug_expr(&**else_branch);
            cat7(
                "IfExpr { cond: ",
                cond_text.as_str(),
                ", then_branch: ",
                then_branch_text.as_str(),
                ", else_branch: ",
                else_branch_text.as_str(),
                " }",
            )
        },
        _ => {
            assert(!(expr_kind@ is Comprehension));
            assert(!(expr_kind@ is Named));
            assert(!(expr_kind@ is IfExpr));
            "Uninitialized".to_owned()
        },
    }
}

pub open spec fn opt_type_debug(value: Option<TypeView>) -> Seq<char>
    decreases value, 0nat,
{
    match value {
        Some(value) => {
            let text = type_debug(value);
            "Some("@ + text + ")"@
        },
        None => "None"@,
    }
}

/// See [`opt_type_debug`].
pub fn debug_opt_type(value: &Option<Type>) -> (r: String)
    ensures
        r@ == opt_type_debug(opt_view(*value)),
    decreases value, 0nat,
{
    match value {
        Some(value) => {
            let text = debug_type(value);
            cat3("Some(", text.as_str(), ")")
        },
        None => "None".to_owned(),
    }
}

pub open spec fn string_list_debug(
    items: Seq<Seq<char>>,
    i: nat,
    out: Seq<char>,
    first: bool,
) -> Seq<char>
    decreases items, (items.len() - i) as nat,
{
    if i >= items.len() {
        out + "]"@
    } else {
        let item = items[i as int];
        let text = quoted_form(item);
        let out = if first {
            out + text
        } else {
            out + ", "@ + text
        };
        let first = false;
        string_list_debug(items, i + 1, out, first)
    }
}

/// See [`string_list_debug`].
pub fn debug_string_list(items: &Vec<String>) -> (r: String)
    ensures
        r@ == string_list_debug(string_list_view(items@), 0, "["@, true),
    decreases items@, 0nat,
{
    let mut out: String = "[".to_owned();
    let mut first: bool = true;
    let ghost goal = string_list_debug(string_list_view(items@), 0, "["@, true);
    let mut i: usize = 0;
    while i < items.len()
        invariant
            i <= items@.len(),
            string_list_view(items@).len() == items@.len(),
            string_list_debug(string_list_view(items@), i as nat, out@, first) == goal,
            goal == string_list_debug(string_list_view(items@), 0, "["@, true),
        decreases items@.len() - i,
    {
        let item = &items[i];
        assert(string_list_view(items@)[i as int] == item@);
        let text = quote(item);
        out = if first {
            cat2(out.as_str(), text.as_str())
        } else {
            cat3(out.as_str(), ", ", text.as_str())
        };
        first = false;
        i = i + 1;
    }
    cat2(out.as_str(), "]")
}

pub open spec fn import_name_debug(import_name: ImportNameView) -> Seq<char>
    decreases import_name, 0nat,
{
    let name_text = quoted_form(import_name.name);
    let alias_text = opt_string_debug(import_name.alias);
    "ImportName { name: "@ + name_text + ", alias: "@ + alias_text + " }"@
}

/// See [`import_name_debug`].
pub fn debug_import_name(import_name: &ImportName) -> (r: String)
    ensures
        r@ == import_name_debug(import_name@),
    decreases import_name, 0nat,
{
    let name_text = quote(&import_name.name);
    let alias_text = debug_opt_string(&import_name.alias);
    cat5("ImportName { name: ", name_text.as_str(), ", alias: ", alias_text.as_str(), " }")
}

pub open spec fn import_name_list_debug(
    items: Seq<ImportNameView>,
    i: nat,
    out: Seq<char>,
    first: bool,
) -> Seq<char>
    decreases items, (items.len() - i) as nat,
{
    if i >= items.len() {
        out + "]"@
    } else {
        let item = items[i as int];
        let text = import_name_debug(item);
        let out = if first {
            out + text
        } else {
            out + ", "@ + text
        };
        let first = false;
        import_name_list_debug(items, i + 1, out, first)
    }
}

/// See [`import_name_list_debug`].
pub fn debug_import_name_list(items: &Vec<ImportName>) -> (r: String)
    ensures
        r@ == import_name_list_debug(import_name_list_view(items@), 0, "["@, true),
    decreases items@, 0nat,
{
    let mut out: String = "[".to_owned();
    let mut first: bool = true;
    let ghost goal = import_name_list_debug(import_name_list_view(items@), 0, "["@, true);
    let mut i: usize = 0;
    while i < items.len()
        invariant
            i <= items@.len(),
            import_name_list_view(items@).len() == items@.len(),
            import_name_list_debug(import_name_list_view(items@), i as nat, out@, first) == goal,
            goal == import_name_list_debug(import_name_list_view(items@), 0, "["@, true),
        decreases items@.len() - i,
    {
        let item = &items[i];
        assert(import_name_list_view(items@)[i as int] == item@);
        let text = debug_import_name(item);
        out = if first {
            cat2(out.as_str(), text.as_str())
        } else {
            cat3(out.as_str(), ", ", text.as_str())
        };
        first = false;
        i = i + 1;
    }
    cat2(out.as_str(), "]")
}

pub open spec fn import_names_debug(import_names: ImportNamesView) -> Seq<char>
    decreases import_names, 0nat,
{
    match import_names {
        ImportNamesView::Names(a0) => {
            let a0_text = import_name_list_debug(a0, 0, "["@, true);
            "Names("@ + a0_text + ")"@
        },
        ImportNamesView::Wildcard => "Wildcard"@,
    }
}

/// See [`import_names_debug`].
pub fn debug_import_names(import_names: &ImportNames) -> (r: String)
    ensures
        r@ == import_names_debug(import_names@),
    decreases import_names, 0nat,
{
    proof { unfold_import_names(*import_names); }
    match import_names {
        ImportNames::Names(a0) => {
            let a0_text = debug_import_name_list(a0);
            cat3("Names(", a0_text.as_str(), ")")
        },
        ImportNames::Wildcard => "Wildcard".to_owned(),
    }
}

pub open spec fn stmt_debug(stmt: StmtView) -> Seq<char>
    decreases stmt, 0nat,
{
    let kind_text = stmt_kind_debug(stmt.kind);
    let span_text = span_debug(stmt.span);
    let module_text = opt_string_debug(stmt.module);
    "Stmt { kind: "@ + kind_text + ", span: "@ + span_text + ", module: "@ + module_text + " }"@
}

/// See [`stmt_debug`].
pub fn debug_stmt(stmt: &Stmt) -> (r: String)
    ensures
        r@ == stmt_debug(stmt@),
    decreases stmt, 0nat,
{
    let kind_text = debug_stmt_kind(&stmt.kind);
    let span_text = debug_span(stmt.span);
    let module_text = debug_opt_string(&stmt.module);
    cat7("Stmt { kind: ", kind_text.as_str(), ", span: ", span_text.as_str(), ", module: ", module_text.as_str(), " }")
}

pub open spec fn stmt_list_debug(
    items: Seq<StmtView>,
    i: nat,
    out: Seq<char>,
    first: bool,
) -> Seq<char>
    decreases items, (items.len() - i) as nat,
{
    if i >= items.len() {
        out + "]"@
    } else {
        let item = items[i as int];
        let text = stmt_debug(item);
        let out = if first {
            out + text
        } else {
            out + ", "@ + text
        };
        let first = false;
        stmt_list_debug(items, i + 1, out, first)
    }
}

/// See [`stmt_list_debug`].
pub fn debug_stmt_list(items: &Vec<Stmt>) -> (r: String)
    ensures
        r@ == stmt_list_debug(stmt_list_view(items@), 0, "["@, true),
    decreases items@, 0nat,
{
    let mut out: String = "[".to_owned();
    let mut first: bool = true;
    let ghost goal = stmt_list_debug(stmt_list_view(items@), 0, "["@, true);
    let mut i: usize = 0;
    while i < items.len()
        invariant
            i <= items@.len(),
            stmt_list_view(items@).len() == items@.len(),
            stmt_list_debug(stmt_list_view(items@), i as nat, out@, first) == goal,
            goal == stmt_list_debug(stmt_list_view(items@), 0, "["@, true),
        decreases items@.len() - i,
    {
        let item = &items[i];
        assert(stmt_list_view(items@)[i as int] == item@);
        let text = debug_stmt(item);
        out = if first {
            cat2(out.as_str(), text.as_str())
        } else {
            cat3(out.as_str(), ", ", text.as_str())
        };
        first = false;
        i = i + 1;
    }
    cat2(out.as_str(), "]")
}

pub open spec fn branch_debug(pair: (ExprView, Seq<StmtView>)) -> Seq<char>
    decreases pair, 0nat,
{
    let text0 = expr_debug(pair.0);
    let text1 = stmt_list_debug(pair.1, 0, "["@, true);
    "("@ + text0 + ", "@ + text1 + ")"@
}

/// See [`branch_debug`].
pub fn debug_branch(pair: &(Expr, Vec<Stmt>)) -> (r: String)
    ensures
        r@ == branch_debug((pair.0@, stmt_list_view(pair.1@))),
    decreases pair, 0nat,
{
    let text0 = debug_expr(&pair.0);
    let text1 = debug_stmt_list(&pair.1);
    cat5("(", text0.as_str(), ", ", text1.as_str(), ")")
}

pub open spec fn branch_list_debug(
    items: Seq<(ExprView, Seq<StmtView>)>,
    i: nat,
    out: Seq<char>,
    first: bool,
) -> Seq<char>
    decreases items, (items.len() - i) as nat,
{
    if i >= items.len() {
        out + "]"@
    } else {
        let item = items[i as int];
        let text = branch_debug(item);
        let out = if first {
            out + text
        } else {
            out + ", "@ + text
        };
        let first = false;
        branch_list_debug(items, i + 1, out, first)
    }
}

/// See [`branch_list_debug`].
pub fn debug_branch_list(items: &Vec<(Expr, Vec<Stmt>)>) -> (r: String)
    ensures
        r@ == branch_list_debug(branch_list_view(items@), 0, "["@, true),
    decreases items@, 0nat,
{
    let mut out: String = "[".to_owned();
    let mut first: bool = true;
    let ghost goal = branch_list_debug(branch_list_view(items@), 0, "["@, true);
    let mut i: usize = 0;
    while i < items.len()
        invariant
            i <= items@.len(),
            branch_list_view(items@).len() == items@.len(),
            branch_list_debug(branch_list_view(items@), i as nat, out@, first) == goal,
            goal == branch_list_debug(branch_list_view(items@), 0, "["@, true),
        decreases items@.len() - i,
    {
        let item = &items[i];
        assert(branch_list_view(items@)[i as int].0 =~= item.0@);
        assert(branch_list_view(items@)[i as int].1 =~= stmt_list_view(item.1@));
        let text = debug_branch(item);
        out = if first {
            cat2(out.as_str(), text.as_str())
        } else {
            cat3(out.as_str(), ", ", text.as_str())
        };
        first = false;
        i = i + 1;
    }
    cat2(out.as_str(), "]")
}

pub open spec fn opt_stmt_list_debug(value: Option<Seq<StmtView>>) -> Seq<char>
    decreases value, 0nat,
{
    match value {
        Some(value) => {
            let text = stmt_list_debug(value, 0, "["@, true);
            "Some("@ + text + ")"@
        },
        None => "None"@,
    }
}

/// See [`opt_stmt_list_debug`].
pub fn debug_opt_stmt_list(value: &Option<Vec<Stmt>>) -> (r: String)
    ensures
        r@ == opt_stmt_list_debug(
            (match value { Some(v) => Some(stmt_list_view(v@)), None => None }),
        ),
    decreases value, 0nat,
{
    match value {
        Some(value) => {
            let text = debug_stmt_list(value);
            cat3("Some(", text.as_str(), ")")
        },
        None => "None".to_owned(),
    }
}

pub open spec fn opt_string_stmt_list_debug(
    pair: (Option<Seq<char>>, Seq<StmtView>),
) -> Seq<char>
    decreases pair, 0nat,
{
    let text0 = opt_string_debug(pair.0);
    let text1 = stmt_list_debug(pair.1, 0, "["@, true);
    "("@ + text0 + ", "@ + text1 + ")"@
}

/// See [`opt_string_stmt_list_debug`].
pub fn debug_opt_string_stmt_list(pair: &(Option<String>, Vec<Stmt>)) -> (r: String)
    ensures
        r@ == opt_string_stmt_list_debug((opt_view(pair.0), stmt_list_view(pair.1@))),
    decreases pair, 0nat,
{
    let text0 = debug_opt_string(&pair.0);
    let text1 = debug_stmt_list(&pair.1);
    cat5("(", text0.as_str(), ", ", text1.as_str(), ")")
}

pub open spec fn opt_opt_string_stmt_list_debug(
    value: Option<(Option<Seq<char>>, Seq<StmtView>)>,
) -> Seq<char>
    decreases value, 0nat,
{
    match value {
        Some(value) => {
            let text = opt_string_stmt_list_debug(value);
            "Some("@ + text + ")"@
        },
        None => "None"@,
    }
}

/// See [`opt_opt_string_stmt_list_debug`].
pub fn debug_opt_opt_string_stmt_list(
    value: &Option<(Option<String>, Vec<Stmt>)>,
) -> (r: String)
    ensures
        r@ == opt_opt_string_stmt_list_debug(
            (match value { Some(v) => Some((opt_view(v.0), stmt_list_view(v.1@))), None => None }),
        ),
    decreases value, 0nat,
{
    match value {
        Some(value) => {
            let text = debug_opt_string_stmt_list(value);
            cat3("Some(", text.as_str(), ")")
        },
        None => "None".to_owned(),
    }
}

pub open spec fn with_item_debug(with_item: WithItemView) -> Seq<char>
    decreases with_item, 0nat,
{
    let context_text = expr_debug(with_item.context);
    let var_text = opt_string_debug(with_item.var);
    "WithItem { context: "@ + context_text + ", var: "@ + var_text + " }"@
}

/// See [`with_item_debug`].
pub fn debug_with_item(with_item: &WithItem) -> (r: String)
    ensures
        r@ == with_item_debug(with_item@),
    decreases with_item, 0nat,
{
    let context_text = debug_expr(&with_item.context);
    let var_text = debug_opt_string(&with_item.var);
    cat5("WithItem { context: ", context_text.as_str(), ", var: ", var_text.as_str(), " }")
}

pub open spec fn with_item_list_debug(
    items: Seq<WithItemView>,
    i: nat,
    out: Seq<char>,
    first: bool,
) -> Seq<char>
    decreases items, (items.len() - i) as nat,
{
    if i >= items.len() {
        out + "]"@
    } else {
        let item = items[i as int];
        let text = with_item_debug(item);
        let out = if first {
            out + text
        } else {
            out + ", "@ + text
        };
        let first = false;
        with_item_list_debug(items, i + 1, out, first)
    }
}

/// See [`with_item_list_debug`].
pub fn debug_with_item_list(items: &Vec<WithItem>) -> (r: String)
    ensures
        r@ == with_item_list_debug(with_item_list_view(items@), 0, "["@, true),
    decreases items@, 0nat,
{
    let mut out: String = "[".to_owned();
    let mut first: bool = true;
    let ghost goal = with_item_list_debug(with_item_list_view(items@), 0, "["@, true);
    let mut i: usize = 0;
    while i < items.len()
        invariant
            i <= items@.len(),
            with_item_list_view(items@).len() == items@.len(),
            with_item_list_debug(with_item_list_view(items@), i as nat, out@, first) == goal,
            goal == with_item_list_debug(with_item_list_view(items@), 0, "["@, true),
        decreases items@.len() - i,
    {
        let item = &items[i];
        assert(with_item_list_view(items@)[i as int] == item@);
        let text = debug_with_item(item);
        out = if first {
            cat2(out.as_str(), text.as_str())
        } else {
            cat3(out.as_str(), ", ", text.as_str())
        };
        first = false;
        i = i + 1;
    }
    cat2(out.as_str(), "]")
}

pub open spec fn type_param_debug(type_param: TypeParamView) -> Seq<char>
    decreases type_param, 0nat,
{
    let name_text = quoted_form(type_param.name);
    let bounds_text = string_list_debug(type_param.bounds, 0, "["@, true);
    let value_type_text = opt_type_debug(type_param.value_type);
    let default_text = opt_expr_debug(type_param.default);
    let infer_only_text = bool_debug(type_param.infer_only);
    "TypeParam { name: "@ + name_text + ", bounds: "@ + bounds_text + ", value_type: "@ + value_type_text + ", default: "@ + default_text + ", infer_only: "@ + infer_only_text + " }"@
}

/// See [`type_param_debug`].
pub fn debug_type_param(type_param: &TypeParam) -> (r: String)
    ensures
        r@ == type_param_debug(type_param@),
    decreases type_param, 0nat,
{
    let name_text = quote(&type_param.name);
    let bounds_text = debug_string_list(&type_param.bounds);
    let value_type_text = debug_opt_type(&type_param.value_type);
    let default_text = debug_opt_expr(&type_param.default);
    let infer_only_text = debug_bool(type_param.infer_only);
    cat5(
        cat7(
            "TypeParam { name: ",
            name_text.as_str(),
            ", bounds: ",
            bounds_text.as_str(),
            ", value_type: ",
            value_type_text.as_str(),
            ", default: ",
        ).as_str(),
        default_text.as_str(),
        ", infer_only: ",
        infer_only_text.as_str(),
        " }",
    )
}

pub open spec fn type_param_list_debug(
    items: Seq<TypeParamView>,
    i: nat,
    out: Seq<char>,
    first: bool,
) -> Seq<char>
    decreases items, (items.len() - i) as nat,
{
    if i >= items.len() {
        out + "]"@
    } else {
        let item = items[i as int];
        let text = type_param_debug(item);
        let out = if first {
            out + text
        } else {
            out + ", "@ + text
        };
        let first = false;
        type_param_list_debug(items, i + 1, out, first)
    }
}

/// See [`type_param_list_debug`].
pub fn debug_type_param_list(items: &Vec<TypeParam>) -> (r: String)
    ensures
        r@ == type_param_list_debug(type_param_list_view(items@), 0, "["@, true),
    decreases items@, 0nat,
{
    let mut out: String = "[".to_owned();
    let mut first: bool = true;
    let ghost goal = type_param_list_debug(type_param_list_view(items@), 0, "["@, true);
    let mut i: usize = 0;
    while i < items.len()
        invariant
            i <= items@.len(),
            type_param_list_view(items@).len() == items@.len(),
            type_param_list_debug(type_param_list_view(items@), i as nat, out@, first) == goal,
            goal == type_param_list_debug(type_param_list_view(items@), 0, "["@, true),
        decreases items@.len() - i,
    {
        let item = &items[i];
        assert(type_param_list_view(items@)[i as int] == item@);
        let text = debug_type_param(item);
        out = if first {
            cat2(out.as_str(), text.as_str())
        } else {
            cat3(out.as_str(), ", ", text.as_str())
        };
        first = false;
        i = i + 1;
    }
    cat2(out.as_str(), "]")
}

#[verifier::opaque]
pub open spec fn arg_convention_debug(arg_convention: ArgConvention) -> Seq<char> {
    match arg_convention {
        ArgConvention::Read => "Read"@,
        ArgConvention::Mut => "Mut"@,
        ArgConvention::Ref => "Ref"@,
        ArgConvention::Owned => "Owned"@,
        ArgConvention::Deinit => "Deinit"@,
        ArgConvention::Out => "Out"@,
    }
}

/// See [`arg_convention_debug`].
pub fn debug_arg_convention(arg_convention: ArgConvention) -> (r: String)
    ensures
        r@ == arg_convention_debug(arg_convention),
{
    proof { reveal(arg_convention_debug); }
    match arg_convention {
        ArgConvention::Read => "Read".to_owned(),
        ArgConvention::Mut => "Mut".to_owned(),
        ArgConvention::Ref => "Ref".to_owned(),
        ArgConvention::Owned => "Owned".to_owned(),
        ArgConvention::Deinit => "Deinit".to_owned(),
        ArgConvention::Out => "Out".to_owned(),
    }
}

pub open spec fn opt_arg_convention_debug(value: Option<ArgConvention>) -> Seq<char>
    decreases value, 0nat,
{
    match value {
        Some(value) => {
            let text = arg_convention_debug(value);
            "Some("@ + text + ")"@
        },
        None => "None"@,
    }
}

/// See [`opt_arg_convention_debug`].
pub fn debug_opt_arg_convention(value: &Option<ArgConvention>) -> (r: String)
    ensures
        r@ == opt_arg_convention_debug(*value),
    decreases value, 0nat,
{
    match value {
        Some(value) => {
            let text = debug_arg_convention(*value);
            cat3("Some(", text.as_str(), ")")
        },
        None => "None".to_owned(),
    }
}

#[verifier::opaque]
pub open spec fn param_kind_debug(param_kind: ParamKind) -> Seq<char> {
    match param_kind {
        ParamKind::Regular => "Regular"@,
        ParamKind::Variadic => "Variadic"@,
        ParamKind::KwVariadic => "KwVariadic"@,
    }
}

/// See [`param_kind_debug`].
pub fn debug_param_kind(param_kind: ParamKind) -> (r: String)
    ensures
        r@ == param_kind_debug(param_kind),
{
    proof { reveal(param_kind_debug); }
    match param_kind {
        ParamKind::Regular => "Regular".to_owned(),
        ParamKind::Variadic => "Variadic".to_owned(),
        ParamKind::KwVariadic => "KwVariadic".to_owned(),
    }
}

pub open spec fn fn_param_debug(fn_param: FnParamView) -> Seq<char>
    decreases fn_param, 0nat,
{
    let name_text = quoted_form(fn_param.name);
    let ty_text = type_debug(fn_param.ty);
    let default_text = opt_expr_debug(fn_param.default);
    let convention_text = opt_arg_convention_debug(fn_param.convention);
    let kind_text = param_kind_debug(fn_param.kind);
    "FnParam { name: "@ + name_text + ", ty: "@ + ty_text + ", default: "@ + default_text + ", convention: "@ + convention_text + ", kind: "@ + kind_text + " }"@
}

/// See [`fn_param_debug`].
pub fn debug_fn_param(fn_param: &FnParam) -> (r: String)
    ensures
        r@ == fn_param_debug(fn_param@),
    decreases fn_param, 0nat,
{
    let name_text = quote(&fn_param.name);
    let ty_text = debug_type(&fn_param.ty);
    let default_text = debug_opt_expr(&fn_param.default);
    let convention_text = debug_opt_arg_convention(&fn_param.convention);
    let kind_text = debug_param_kind(fn_param.kind);
    cat5(
        cat7(
            "FnParam { name: ",
            name_text.as_str(),
            ", ty: ",
            ty_text.as_str(),
            ", default: ",
            default_text.as_str(),
            ", convention: ",
        ).as_str(),
        convention_text.as_str(),
        ", kind: ",
        kind_text.as_str(),
        " }",
    )
}

pub open spec fn fn_param_list_debug(
    items: Seq<FnParamView>,
    i: nat,
    out: Seq<char>,
    first: bool,
) -> Seq<char>
    decreases items, (items.len() - i) as nat,
{
    if i >= items.len() {
        out + "]"@
    } else {
        let item = items[i as int];
        let text = fn_param_debug(item);
        let out = if first {
            out + text
        } else {
            out + ", "@ + text
        };
        let first = false;
        fn_param_list_debug(items, i + 1, out, first)
    }
}

/// See [`fn_param_list_debug`].
pub fn debug_fn_param_list(items: &Vec<FnParam>) -> (r: String)
    ensures
        r@ == fn_param_list_debug(fn_param_list_view(items@), 0, "["@, true),
    decreases items@, 0nat,
{
    let mut out: String = "[".to_owned();
    let mut first: bool = true;
    let ghost goal = fn_param_list_debug(fn_param_list_view(items@), 0, "["@, true);
    let mut i: usize = 0;
    while i < items.len()
        invariant
            i <= items@.len(),
            fn_param_list_view(items@).len() == items@.len(),
            fn_param_list_debug(fn_param_list_view(items@), i as nat, out@, first) == goal,
            goal == fn_param_list_debug(fn_param_list_view(items@), 0, "["@, true),
        decreases items@.len() - i,
    {
        let item = &items[i];
        assert(fn_param_list_view(items@)[i as int] == item@);
        let text = debug_fn_param(item);
        out = if first {
            cat2(out.as_str(), text.as_str())
        } else {
            cat3(out.as_str(), ", ", text.as_str())
        };
        first = false;
        i = i + 1;
    }
    cat2(out.as_str(), "]")
}

pub open spec fn opt_usize_debug(value: Option<usize>) -> Seq<char>
    decreases value, 0nat,
{
    match value {
        Some(value) => {
            let text = decimal(value as nat);
            "Some("@ + text + ")"@
        },
        None => "None"@,
    }
}

/// See [`opt_usize_debug`].
pub fn debug_opt_usize(value: &Option<usize>) -> (r: String)
    ensures
        r@ == opt_usize_debug(*value),
    decreases value, 0nat,
{
    match value {
        Some(value) => {
            let text = show_usize(*value);
            cat3("Some(", text.as_str(), ")")
        },
        None => "None".to_owned(),
    }
}

#[verifier::opaque]
pub open spec fn capture_kind_debug(capture_kind: CaptureKind) -> Seq<char> {
    match capture_kind {
        CaptureKind::Read => "Read"@,
        CaptureKind::Mut => "Mut"@,
        CaptureKind::Move => "Move"@,
    }
}

/// See [`capture_kind_debug`].
pub fn debug_capture_kind(capture_kind: CaptureKind) -> (r: String)
    ensures
        r@ == capture_kind_debug(capture_kind),
{
    proof { reveal(capture_kind_debug); }
    match capture_kind {
        CaptureKind::Read => "Read".to_owned(),
        CaptureKind::Mut => "Mut".to_owned(),
        CaptureKind::Move => "Move".to_owned(),
    }
}

pub open spec fn capture_debug(capture: CaptureView) -> Seq<char>
    decreases capture, 0nat,
{
    let name_text = quoted_form(capture.name);
    let kind_text = capture_kind_debug(capture.kind);
    "Capture { name: "@ + name_text + ", kind: "@ + kind_text + " }"@
}

/// See [`capture_debug`].
pub fn debug_capture(capture: &Capture) -> (r: String)
    ensures
        r@ == capture_debug(capture@),
    decreases capture, 0nat,
{
    let name_text = quote(&capture.name);
    let kind_text = debug_capture_kind(capture.kind);
    cat5("Capture { name: ", name_text.as_str(), ", kind: ", kind_text.as_str(), " }")
}

pub open spec fn capture_list_debug(
    items: Seq<CaptureView>,
    i: nat,
    out: Seq<char>,
    first: bool,
) -> Seq<char>
    decreases items, (items.len() - i) as nat,
{
    if i >= items.len() {
        out + "]"@
    } else {
        let item = items[i as int];
        let text = capture_debug(item);
        let out = if first {
            out + text
        } else {
            out + ", "@ + text
        };
        let first = false;
        capture_list_debug(items, i + 1, out, first)
    }
}

/// See [`capture_list_debug`].
pub fn debug_capture_list(items: &Vec<Capture>) -> (r: String)
    ensures
        r@ == capture_list_debug(capture_list_view(items@), 0, "["@, true),
    decreases items@, 0nat,
{
    let mut out: String = "[".to_owned();
    let mut first: bool = true;
    let ghost goal = capture_list_debug(capture_list_view(items@), 0, "["@, true);
    let mut i: usize = 0;
    while i < items.len()
        invariant
            i <= items@.len(),
            capture_list_view(items@).len() == items@.len(),
            capture_list_debug(capture_list_view(items@), i as nat, out@, first) == goal,
            goal == capture_list_debug(capture_list_view(items@), 0, "["@, true),
        decreases items@.len() - i,
    {
        let item = &items[i];
        assert(capture_list_view(items@)[i as int] == item@);
        let text = debug_capture(item);
        out = if first {
            cat2(out.as_str(), text.as_str())
        } else {
            cat3(out.as_str(), ", ", text.as_str())
        };
        first = false;
        i = i + 1;
    }
    cat2(out.as_str(), "]")
}

pub open spec fn opt_capture_list_debug(value: Option<Seq<CaptureView>>) -> Seq<char>
    decreases value, 0nat,
{
    match value {
        Some(value) => {
            let text = capture_list_debug(value, 0, "["@, true);
            "Some("@ + text + ")"@
        },
        None => "None"@,
    }
}

/// See [`opt_capture_list_debug`].
pub fn debug_opt_capture_list(value: &Option<Vec<Capture>>) -> (r: String)
    ensures
        r@ == opt_capture_list_debug(
            (match value { Some(v) => Some(capture_list_view(v@)), None => None }),
        ),
    decreases value, 0nat,
{
    match value {
        Some(value) => {
            let text = debug_capture_list(value);
            cat3("Some(", text.as_str(), ")")
        },
        None => "None".to_owned(),
    }
}

pub open spec fn param_debug(param: ParamView) -> Seq<char>
    decreases param, 0nat,
{
    let name_text = quoted_form(param.name);
    let ty_text = type_debug(param.ty);
    "Param { name: "@ + name_text + ", ty: "@ + ty_text + " }"@
}

/// See [`param_debug`].
pub fn debug_param(param: &Param) -> (r: String)
    ensures
        r@ == param_debug(param@),
    decreases param, 0nat,
{
    let name_text = quote(&param.name);
    let ty_text = debug_type(&param.ty);
    cat5("Param { name: ", name_text.as_str(), ", ty: ", ty_text.as_str(), " }")
}

pub open spec fn param_list_debug(
    items: Seq<ParamView>,
    i: nat,
    out: Seq<char>,
    first: bool,
) -> Seq<char>
    decreases items, (items.len() - i) as nat,
{
    if i >= items.len() {
        out + "]"@
    } else {
        let item = items[i as int];
        let text = param_debug(item);
        let out = if first {
            out + text
        } else {
            out + ", "@ + text
        };
        let first = false;
        param_list_debug(items, i + 1, out, first)
    }
}

/// See [`param_list_debug`].
pub fn debug_param_list(items: &Vec<Param>) -> (r: String)
    ensures
        r@ == param_list_debug(param_list_view(items@), 0, "["@, true),
    decreases items@, 0nat,
{
    let mut out: String = "[".to_owned();
    let mut first: bool = true;
    let ghost goal = param_list_debug(param_list_view(items@), 0, "["@, true);
    let mut i: usize = 0;
    while i < items.len()
        invariant
            i <= items@.len(),
            param_list_view(items@).len() == items@.len(),
            param_list_debug(param_list_view(items@), i as nat, out@, first) == goal,
            goal == param_list_debug(param_list_view(items@), 0, "["@, true),
        decreases items@.len() - i,
    {
        let item = &items[i];
        assert(param_list_view(items@)[i as int] == item@);
        let text = debug_param(item);
        out = if first {
            cat2(out.as_str(), text.as_str())
        } else {
            cat3(out.as_str(), ", ", text.as_str())
        };
        first = false;
        i = i + 1;
    }
    cat2(out.as_str(), "]")
}

pub open spec fn struct_comptime_debug(struct_comptime: StructComptimeView) -> Seq<char>
    decreases struct_comptime, 0nat,
{
    let name_text = quoted_form(struct_comptime.name);
    let value_text = expr_debug(struct_comptime.value);
    "StructComptime { name: "@ + name_text + ", value: "@ + value_text + " }"@
}

/// See [`struct_comptime_debug`].
pub fn debug_struct_comptime(struct_comptime: &StructComptime) -> (r: String)
    ensures
        r@ == struct_comptime_debug(struct_comptime@),
    decreases struct_comptime, 0nat,
{
    let name_text = quote(&struct_comptime.name);
    let value_text = debug_expr(&struct_comptime.value);
    cat5("StructComptime { name: ", name_text.as_str(), ", value: ", value_text.as_str(), " }")
}

pub open spec fn struct_comptime_list_debug(
    items: Seq<StructComptimeView>,
    i: nat,
    out: Seq<char>,
    first: bool,
) -> Seq<char>
    decreases items, (items.len() - i) as nat,
{
    if i >= items.len() {
        out + "]"@
    } else {
        let item = items[i as int];
        let text = struct_comptime_debug(item);
        let out = if first {
            out + text
        } else {
            out + ", "@ + text
        };
        let first = false;
        struct_comptime_list_debug(items, i + 1, out, first)
    }
}

/// See [`struct_comptime_list_debug`].
pub fn debug_struct_comptime_list(items: &Vec<StructComptime>) -> (r: String)
    ensures
        r@ == struct_comptime_list_debug(struct_comptime_list_view(items@), 0, "["@, true),
    decreases items@, 0nat,
{
    let mut out: String = "[".to_owned();
    let mut first: bool = true;
    let ghost goal = struct_comptime_list_debug(struct_comptime_list_view(items@), 0, "["@, true);
    let mut i: usize = 0;
    while i < items.len()
        invariant
            i <= items@.len(),
            struct_comptime_list_view(items@).len() == items@.len(),
            struct_comptime_list_debug(
                struct_comptime_list_view(items@),
                i as nat,
                out@,
                first,
            ) == goal,
            goal == struct_comptime_list_debug(struct_comptime_list_view(items@), 0, "["@, true),
        decreases items@.len() - i,
    {
        let item = &items[i];
        assert(struct_comptime_list_view(items@)[i as int] == item@);
        let text = debug_struct_comptime(item);
        out = if first {
            cat2(out.as_str(), text.as_str())
        } else {
            cat3(out.as_str(), ", ", text.as_str())
        };
        first = false;
        i = i + 1;
    }
    cat2(out.as_str(), "]")
}

pub open spec fn method_debug(method: MethodView) -> Seq<char>
    decreases method, 0nat,
{
    let name_text = quoted_form(method.name);
    let has_self_text = bool_debug(method.has_self);
    let self_convention_text = opt_arg_convention_debug(method.self_convention);
    let params_text = fn_param_list_debug(method.params, 0, "["@, true);
    let positional_only_text = opt_usize_debug(method.positional_only);
    let keyword_only_text = opt_usize_debug(method.keyword_only);
    let raises_type_text = opt_type_debug(method.raises_type);
    let ret_text = opt_type_debug(method.ret);
    let body_text = stmt_list_debug(method.body, 0, "["@, true);
    "Method { name: "@ + name_text + ", has_self: "@ + has_self_text + ", self_convention: "@ + self_convention_text + ", params: "@ + params_text + ", positional_only: "@ + positional_only_text + ", keyword_only: "@ + keyword_only_text + ", raises_type: "@ + raises_type_text + ", ret: "@ + ret_text + ", body: "@ + body_text + " }"@
}

/// See [`method_debug`].
pub fn debug_method(method: &Method) -> (r: String)
    ensures
        r@ == method_debug(method@),
    decreases method, 0nat,
{
    let name_text = quote(&method.name);
    let has_self_text = debug_bool(method.has_self);
    let self_convention_text = debug_opt_arg_convention(&method.self_convention);
    let params_text = debug_fn_param_list(&method.params);
    let positional_only_text = debug_opt_usize(&method.positional_only);
    let keyword_only_text = debug_opt_usize(&method.keyword_only);
    let raises_type_text = debug_opt_type(&method.raises_type);
    let ret_text = debug_opt_type(&method.ret);
    let body_text = debug_stmt_list(&method.body);
    cat7(
        cat7(
            cat7(
                "Method { name: ",
                name_text.as_str(),
                ", has_self: ",
                has_self_text.as_str(),
                ", self_convention: ",
                self_convention_text.as_str(),
                ", params: ",
            ).as_str(),
            params_text.as_str(),
            ", positional_only: ",
            positional_only_text.as_str(),
            ", keyword_only: ",
            keyword_only_text.as_str(),
            ", raises_type: ",
        ).as_str(),
        raises_type_text.as_str(),
        ", ret: ",
        ret_text.as_str(),
        ", body: ",
        body_text.as_str(),
        " }",
    )
}

pub open spec fn method_list_debug(
    items: Seq<MethodView>,
    i: nat,
    out: Seq<char>,
    first: bool,
) -> Seq<char>
    decreases items, (items.len() - i) as nat,
{
    if i >= items.len() {
        out + "]"@
    } else {
        let item = items[i as int];
        let text = method_debug(item);
        let out = if first {
            out + text
        } else {
            out + ", "@ + text
        };
        let first = false;
        method_list_debug(items, i + 1, out, first)
    }
}

/// See [`method_list_debug`].
pub fn debug_method_list(items: &Vec<Method>) -> (r: String)
    ensures
        r@ == method_list_debug(method_list_view(items@), 0, "["@, true),
    decreases items@, 0nat,
{
    let mut out: String = "[".to_owned();
    let mut first: bool = true;
    let ghost goal = method_list_debug(method_list_view(items@), 0, "["@, true);
    let mut i: usize = 0;
    while i < items.len()
        invariant
            i <= items@.len(),
            method_list_view(items@).len() == items@.len(),
            method_list_debug(method_list_view(items@), i as nat, out@, first) == goal,
            goal == method_list_debug(method_list_view(items@), 0, "["@, true),
        decreases items@.len() - i,
    {
        let item = &items[i];
        assert(method_list_view(items@)[i as int] == item@);
        let text = debug_method(item);
        out = if first {
            cat2(out.as_str(), text.as_str())
        } else {
            cat3(out.as_str(), ", ", text.as_str())
        };
        first = false;
        i = i + 1;
    }
    cat2(out.as_str(), "]")
}

pub open spec fn stmt_kind_debug(stmt_kind: StmtKindView) -> Seq<char>
    decreases stmt_kind, 4nat,
{
    match stmt_kind {
        StmtKindView::VarDecl { name, ty, value } => {
            let name_text = quoted_form(name);
            let ty_text = opt_type_debug(ty);
            let value_text = expr_debug(value);
            "VarDecl { name: "@ + name_text + ", ty: "@ + ty_text + ", value: "@ + value_text + " }"@
        },
        StmtKindView::RefDecl { name, value } => {
            let name_text = quoted_form(name);
            let value_text = expr_debug(value);
            "RefDecl { name: "@ + name_text + ", value: "@ + value_text + " }"@
        },
        StmtKindView::Assign { name, value } => {
            let name_text = quoted_form(name);
            let value_text = expr_debug(value);
            "Assign { name: "@ + name_text + ", value: "@ + value_text + " }"@
        },
        StmtKindView::Comptime { name, value } => {
            let name_text = quoted_form(name);
            let value_text = expr_debug(value);
            "Comptime { name: "@ + name_text + ", value: "@ + value_text + " }"@
        },
        StmtKindView::Raise(a0) => {
            let a0_text = expr_debug(a0);
            "Raise("@ + a0_text + ")"@
        },
        StmtKindView::Return(a0) => {
            let a0_text = opt_expr_debug(a0);
            "Return("@ + a0_text + ")"@
        },
        _ => stmt_kind_debug_more(stmt_kind),
    }
}

/// See [`stmt_kind_debug`].
pub fn debug_stmt_kind(stmt_kind: &StmtKind) -> (r: String)
    ensures
        r@ == stmt_kind_debug(stmt_kind@),
    decreases stmt_kind, 4nat,
{
    proof { unfold_stmt_kind(*stmt_kind); }
    match stmt_kind {
        StmtKind::VarDecl { name, ty, value } => {
            let name_text = quote(name);
            let ty_text = debug_opt_type(ty);
            let value_text = debug_expr(value);
            cat7(
                "VarDecl { name: ",
                name_text.as_str(),
                ", ty: ",
                ty_text.as_str(),
                ", value: ",
                value_text.as_str(),
                " }",
            )
        },
        StmtKind::RefDecl { name, value } => {
            let name_text = quote(name);
            let value_text = debug_expr(value);
            cat5("RefDecl { name: ", name_text.as_str(), ", value: ", value_text.as_str(), " }")
        },
        StmtKind::Assign { name, value } => {
            let name_text = quote(name);
            let value_text = debug_expr(value);
            cat5("Assign { name: ", name_text.as_str(), ", value: ", value_text.as_str(), " }")
        },
        StmtKind::Comptime { name, value } => {
            let name_text = quote(name);
            let value_text = debug_expr(value);
            cat5("Comptime { name: ", name_text.as_str(), ", value: ", value_text.as_str(), " }")
        },
        StmtKind::Raise(a0) => {
            let a0_text = debug_expr(a0);
            cat3("Raise(", a0_text.as_str(), ")")
        },
        StmtKind::Return(a0) => {
            let a0_text = debug_opt_expr(a0);
            cat3("Return(", a0_text.as_str(), ")")
        },
        _ => {
            assert(!(stmt_kind@ is VarDecl));
            assert(!(stmt_kind@ is RefDecl));
            assert(!(stmt_kind@ is Assign));
            assert(!(stmt_kind@ is Comptime));
            assert(!(stmt_kind@ is Raise));
            assert(!(stmt_kind@ is Return));
            debug_stmt_kind_more(stmt_kind)
        },
    }
}

pub open spec fn stmt_kind_debug_more(stmt_kind: StmtKindView) -> Seq<char>
    decreases stmt_kind, 3nat,
{
    match stmt_kind {
        StmtKindView::Pass => "Pass"@,
        StmtKindView::Break => "Break"@,
        StmtKindView::Import { path } => {
            let path_text = string_list_debug(path, 0, "["@, true);
            "Import { path: "@ + path_text + " }"@
        },
        StmtKindView::FromImport { level, path, names } => {
            let level_text = decimal(level as nat);
            let path_text = string_list_debug(path, 0, "["@, true);
            let names_text = import_names_debug(names);
            "FromImport { level: "@ + level_text + ", path: "@ + path_text + ", names: "@ + names_text + " }"@
        },
        StmtKindView::SetPlace { place, value } => {
            let place_text = expr_debug(place);
            let value_text = expr_debug(value);
            "SetPlace { place: "@ + place_text + ", value: "@ + value_text + " }"@
        },
        StmtKindView::AugAssign { place, op, value } => {
            let place_text = expr_debug(place);
            let op_text = infix_op_debug(op);
            let value_text = expr_debug(value);
            "AugAssign { place: "@ + place_text + ", op: "@ + op_text + ", value: "@ + value_text + " }"@
        },
        _ => stmt_kind_debug_further(stmt_kind),
    }
}

/// See [`stmt_kind_debug_more`].
pub fn debug_stmt_kind_more(stmt_kind: &StmtKind) -> (r: String)
    ensures
        r@ == stmt_kind_debug_more(stmt_kind@),
    decreases stmt_kind, 3nat,
{
    proof { unfold_stmt_kind(*stmt_kind); }
    match stmt_kind {
        StmtKind::Pass => "Pass".to_owned(),
        StmtKind::Break => "Break".to_owned(),
        StmtKind::Import { path } => {
            let path_text = debug_string_list(path);
            cat3("Import { path: ", path_text.as_str(), " }")
        },
        StmtKind::FromImport { level, path, names } => {
            let level_text = show_usize(*level);
            let path_text = debug_string_list(path);
            let names_text = debug_import_names(names);
            cat7(
                "FromImport { level: ",
                level_text.as_str(),
                ", path: ",
                path_text.as_str(),
                ", names: ",
                names_text.as_str(),
                " }",
            )
        },
        StmtKind::SetPlace { place, value } => {
            let place_text = debug_expr(place);
            let value_text = debug_expr(value);
            cat5("SetPlace { place: ", place_text.as_str(), ", value: ", value_text.as_str(), " }")
        },
        StmtKind::AugAssign { place, op, value } => {
            let place_text = debug_expr(place);
            let op_text = debug_infix_op(*op);
            let value_text = debug_expr(value);
            cat7(
                "AugAssign { place: ",
                place_text.as_str(),
                ", op: ",
                op_text.as_str(),
                ", value: ",
                value_text.as_str(),
                " }",
            )
        },
        _ => {
            assert(!(stmt_kind@ is Pass));
            assert(!(stmt_kind@ is Break));
            assert(!(stmt_kind@ is Import));
            assert(!(stmt_kind@ is FromImport));
            assert(!(stmt_kind@ is SetPlace));
            assert(!(stmt_kind@ is AugAssign));
            debug_stmt_kind_further(stmt_kind)
        },
    }
}

pub open spec fn stmt_kind_debug_further(stmt_kind: StmtKindView) -> Seq<char>
    decreases stmt_kind, 2nat,
{
    match stmt_kind {
        StmtKindView::Unpack { targets, value } => {
            let targets_text = expr_list_debug(targets, 0, "["@, true);
            let value_text = expr_debug(value);
            "Unpack { targets: "@ + targets_text + ", value: "@ + value_text + " }"@
        },
        StmtKindView::Expr(a0) => {
            let a0_text = expr_debug(a0);
            "Expr("@ + a0_text + ")"@
        },
        StmtKindView::If { branches, orelse } => {
            let branches_text = branch_list_debug(branches, 0, "["@, true);
            let orelse_text = opt_stmt_list_debug(orelse);
            "If { branches: "@ + branches_text + ", orelse: "@ + orelse_text + " }"@
        },
        StmtKindView::ComptimeIf { branches, orelse } => {
            let branches_text = branch_list_debug(branches, 0, "["@, true);
            let orelse_text = opt_stmt_list_debug(orelse);
            "ComptimeIf { branches: "@ + branches_text + ", orelse: "@ + orelse_text + " }"@
        },
        StmtKindView::While { cond, body, orelse } => {
            let cond_text = expr_debug(cond);
            let body_text = stmt_list_debug(body, 0, "["@, true);
            let orelse_text = opt_stmt_list_debug(orelse);
            "While { cond: "@ + cond_text + ", body: "@ + body_text + ", orelse: "@ + orelse_text + " }"@
        },
        StmtKindView::For { var, reference, owned, iter, body, orelse } => {
            let var_text = quoted_form(var);
            let reference_text = bool_debug(reference);
            let owned_text = bool_debug(owned);
            let iter_text = expr_debug(iter);
            let body_text = stmt_list_debug(body, 0, "["@, true);
            let orelse_text = opt_stmt_list_debug(orelse);
            "For { var: "@ + var_text + ", reference: "@ + reference_text + ", owned: "@ + owned_text + ", iter: "@ + iter_text + ", body: "@ + body_text + ", orelse: "@ + orelse_text + " }"@
        },
        _ => stmt_kind_debug_rest(stmt_kind),
    }
}

/// See [`stmt_kind_debug_further`].
pub fn debug_stmt_kind_further(stmt_kind: &StmtKind) -> (r: String)
    ensures
        r@ == stmt_kind_debug_further(stmt_kind@),
    decreases stmt_kind, 2nat,
{
    proof { unfold_stmt_kind(*stmt_kind); }
    match stmt_kind {
        StmtKind::Unpack { targets, value } => {
            let targets_text = debug_expr_list(targets);
            let value_text = debug_expr(value);
            cat5("Unpack { targets: ", targets_text.as_str(), ", value: ", value_text.as_str(), " }")
        },
        StmtKind::Expr(a0) => {
            let a0_text = debug_expr(a0);
            cat3("Expr(", a0_text.as_str(), ")")
        },
        StmtKind::If { branches, orelse } => {
            let branches_text = debug_branch_list(branches);
            let orelse_text = debug_opt_stmt_list(orelse);
            cat5("If { branches: ", branches_text.as_str(), ", orelse: ", orelse_text.as_str(), " }")
        },
        StmtKind::ComptimeIf { branches, orelse } => {
            let branches_text = debug_branch_list(branches);
            let orelse_text = debug_opt_stmt_list(orelse);
            cat5("ComptimeIf { branches: ", branches_text.as_str(), ", orelse: ", orelse_text.as_str(), " }")
        },
        StmtKind::While { cond, body, orelse } => {
            let cond_text = debug_expr(cond);
            let body_text = debug_stmt_list(body);
            let orelse_text = debug_opt_stmt_list(orelse);
            cat7(
                "While { cond: ",
                cond_text.as_str(),
                ", body: ",
                body_text.as_str(),
                ", orelse: ",
                orelse_text.as_str(),
                " }",
            )
        },
        StmtKind::For { var, reference, owned, iter, body, orelse } => {
            let var_text = quote(var);
            let reference_text = debug_bool(*reference);
            let owned_text = debug_bool(*owned);
            let iter_text = debug_expr(iter);
            let body_text = debug_stmt_list(body);
            let orelse_text = debug_opt_stmt_list(orelse);
            cat7(
                cat7(
                    "For { var: ",
                    var_text.as_str(),
                    ", reference: ",
                    reference_text.as_str(),
                    ", owned: ",
                    owned_text.as_str(),
                    ", iter: ",
                ).as_str(),
                iter_text.as_str(),
                ", body: ",
                body_text.as_str(),
                ", orelse: ",
                orelse_text.as_str(),
                " }",
            )
        },
        _ => {
            assert(!(stmt_kind@ is Unpack));
            assert(!(stmt_kind@ is Expr));
            assert(!(stmt_kind@ is If));
            assert(!(stmt_kind@ is ComptimeIf));
            assert(!(stmt_kind@ is While));
            assert(!(stmt_kind@ is For));
            debug_stmt_kind_rest(stmt_kind)
        },
    }
}

pub open spec fn stmt_kind_debug_rest(stmt_kind: StmtKindView) -> Seq<char>
    decreases stmt_kind, 1nat,
{
    match stmt_kind {
        StmtKindView::ComptimeFor { var, iter, body } => {
            let var_text = quoted_form(var);
            let iter_text = expr_debug(iter);
            let body_text = stmt_list_debug(body, 0, "["@, true);
            "ComptimeFor { var: "@ + var_text + ", iter: "@ + iter_text + ", body: "@ + body_text + " }"@
        },
        StmtKindView::Try { body, except, orelse, finalbody } => {
            let body_text = stmt_list_debug(body, 0, "["@, true);
            let except_text = opt_opt_string_stmt_list_debug(except);
            let orelse_text = opt_stmt_list_debug(orelse);
            let finalbody_text = opt_stmt_list_debug(finalbody);
            "Try { body: "@ + body_text + ", except: "@ + except_text + ", orelse: "@ + orelse_text + ", finalbody: "@ + finalbody_text + " }"@
        },
        StmtKindView::With { items, body } => {
            let items_text = with_item_list_debug(items, 0, "["@, true);
            let body_text = stmt_list_debug(body, 0, "["@, true);
            "With { items: "@ + items_text + ", body: "@ + body_text + " }"@
        },
        StmtKindView::Def {
            name,
            decorators,
            type_params,
            params,
            positional_only,
            keyword_only,
            captures,
            raises,
            raises_type,
            ret,
            where_clause,
            body,
        } => {
            let name_text = quoted_form(name);
            let decorators_text = string_list_debug(decorators, 0, "["@, true);
            let type_params_text = type_param_list_debug(type_params, 0, "["@, true);
            let params_text = fn_param_list_debug(params, 0, "["@, true);
            let positional_only_text = opt_usize_debug(positional_only);
            let keyword_only_text = opt_usize_debug(keyword_only);
            let captures_text = opt_capture_list_debug(captures);
            let raises_text = bool_debug(raises);
            let raises_type_text = opt_type_debug(raises_type);
            let ret_text = opt_type_debug(ret);
            let where_clause_text = opt_expr_debug(where_clause);
            let body_text = stmt_list_debug(body, 0, "["@, true);
            "Def { name: "@ + name_text + ", decorators: "@ + decorators_text + ", type_params: "@ + type_params_text + ", params: "@ + params_text + ", positional_only: "@ + positional_only_text + ", keyword_only: "@ + keyword_only_text + ", captures: "@ + captures_text + ", raises: "@ + raises_text + ", raises_type: "@ + raises_type_text + ", ret: "@ + ret_text + ", where_clause: "@ + where_clause_text + ", body: "@ + body_text + " }"@
        },
        StmtKindView::Struct {
            name,
            decorators,
            type_params,
            conforms,
            callable_conformance,
            conformance_conditions,
            fields,
            associated,
            methods,
            fieldwise_init,
        } => {
            let name_text = quoted_form(name);
            let decorators_text = string_list_debug(decorators, 0, "["@, true);
            let type_params_text = type_param_list_debug(type_params, 0, "["@, true);
            let conforms_text = string_list_debug(conforms, 0, "["@, true);
            let callable_conformance_text = opt_type_debug(callable_conformance);
            let conformance_conditions_text = expr_list_debug(conformance_conditions, 0, "["@, true);
            let fields_text = param_list_debug(fields, 0, "["@, true);
            let associated_text = struct_comptime_list_debug(associated, 0, "["@, true);
            let methods_text = method_list_debug(methods, 0, "["@, true);
            let fieldwise_init_text = bool_debug(fieldwise_init);
            "Struct { name: "@ + name_text + ", decorators: "@ + decorators_text + ", type_params: "@ + type_params_text + ", conforms: "@ + conforms_text + ", callable_conformance: "@ + callable_conformance_text + ", conformance_conditions: "@ + conformance_conditions_text + ", fields: "@ + fields_text + ", associated: "@ + associated_text + ", methods: "@ + methods_text + ", fieldwise_init: "@ + fieldwise_init_text + " }"@
        },
        StmtKindView::Trait { name } => {
            let name_text = quoted_form(name);
            "Trait { name: "@ + name_text + " }"@
        },
        _ => stmt_kind_debug_last(stmt_kind),
    }
}

/// See [`stmt_kind_debug_rest`].
pub fn debug_stmt_kind_rest(stmt_kind: &StmtKind) -> (r: String)
    ensures
        r@ == stmt_kind_debug_rest(stmt_kind@),
    decreases stmt_kind, 1nat,
{
    proof { unfold_stmt_kind(*stmt_kind); }
    match stmt_kind {
        StmtKind::ComptimeFor { var, iter, body } => {
            let var_text = quote(var);
            let iter_text = debug_expr(iter);
            let body_text = debug_stmt_list(body);
            cat7(
                "ComptimeFor { var: ",
                var_text.as_str(),
                ", iter: ",
                iter_text.as_str(),
                ", body: ",
                body_text.as_str(),
                " }",
            )
        },
        StmtKind::Try { body, except, orelse, finalbody } => {
            let body_text = debug_stmt_list(body);
            let except_text = debug_opt_opt_string_stmt_list(except);
            let orelse_text = debug_opt_stmt_list(orelse);
            let finalbody_text = debug_opt_stmt_list(finalbody);
            cat3(
                cat7(
                    "Try { body: ",
                    body_text.as_str(),
                    ", except: ",
                    except_text.as_str(),
                    ", orelse: ",
                    orelse_text.as_str(),
                    ", finalbody: ",
                ).as_str(),
                finalbody_text.as_str(),
                " }",
            )
        },
        StmtKind::With { items, body } => {
            let items_text = debug_with_item_list(items);
            let body_text = debug_stmt_list(body);
            cat5("With { items: ", items_text.as_str(), ", body: ", body_text.as_str(), " }")
        },
        StmtKind::Def {
            name,
            decorators,
            type_params,
            params,
            positional_only,
            keyword_only,
            captures,
            raises,
            raises_type,
            ret,
            where_clause,
            body,
        } => {
            let name_text = quote(name);
            let decorators_text = debug_string_list(decorators);
            let type_params_text = debug_type_param_list(type_params);
            let params_text = debug_fn_param_list(params);
            let positional_only_text = debug_opt_usize(positional_only);
            let keyword_only_text = debug_opt_usize(keyword_only);
            let captures_text = debug_opt_capture_list(captures);
            let raises_text = debug_bool(*raises);
            let raises_type_text = debug_opt_type(raises_type);
            let ret_text = debug_opt_type(ret);
            let where_clause_text = debug_opt_expr(where_clause);
            let body_text = debug_stmt_list(body);
            cat7(
                cat7(
                    cat7(
                        cat7(
                            "Def { name: ",
                            name_text.as_str(),
                            ", decorators: ",
                            decorators_text.as_str(),
                            ", type_params: ",
                            type_params_text.as_str(),
                            ", params: ",
                        ).as_str(),
                        params_text.as_str(),
                        ", positional_only: ",
                        positional_only_text.as_str(),
                        ", keyword_only: ",
                        keyword_only_text.as_str(),
                        ", captures: ",
                    ).as_str(),
                    captures_text.as_str(),
                    ", raises: ",
                    raises_text.as_str(),
                    ", raises_type: ",
                    raises_type_text.as_str(),
                    ", ret: ",
                ).as_str(),
                ret_text.as_str(),
                ", where_clause: ",
                where_clause_text.as_str(),
                ", body: ",
                body_text.as_str(),
                " }",
            )
        },
        StmtKind::Struct {
            name,
            decorators,
            type_params,
            conforms,
            callable_conformance,
            conformance_conditions,
            fields,
            associated,
            methods,
            fieldwise_init,
        } => {
            let name_text = quote(name);
            let decorators_text = debug_string_list(decorators);
            let type_params_text = debug_type_param_list(type_params);
            let conforms_text = debug_string_list(conforms);
            let callable_conformance_text = debug_opt_type(callable_conformance);
            let conformance_conditions_text = debug_expr_list(conformance_conditions);
            let fields_text = debug_param_list(fields);
            let associated_text = debug_struct_comptime_list(associated);
            let methods_text = debug_method_list(methods);
            let fieldwise_init_text = debug_bool(*fieldwise_init);
            cat3(
                cat7(
                    cat7(
                        cat7(
                            "Struct { name: ",
                            name_text.as_str(),
                            ", decorators: ",
                            decorators_text.as_str(),
                            ", type_params: ",
                            type_params_text.as_str(),
                            ", conforms: ",
                        ).as_str(),
                        conforms_text.as_str(),
                        ", callable_conformance: ",
                        callable_conformance_text.as_str(),
                        ", conformance_conditions: ",
                        conformance_conditions_text.as_str(),
                        ", fields: ",
                    ).as_str(),
                    fields_text.as_str(),
                    ", associated: ",
                    associated_text.as_str(),
                    ", methods: ",
                    methods_text.as_str(),
                    ", fieldwise_init: ",
                ).as_str(),
                fieldwise_init_text.as_str(),
                " }",
            )
        },
        StmtKind::Trait { name } => {
            let name_text = quote(name);
            cat3("Trait { name: ", name_text.as_str(), " }")
        },
        _ => {
            assert(!(stmt_kind@ is ComptimeFor));
            assert(!(stmt_kind@ is Try));
            assert(!(stmt_kind@ is With));
            assert(!(stmt_kind@ is Def));
            assert(!(stmt_kind@ is Struct));
            assert(!(stmt_kind@ is Trait));
            debug_stmt_kind_last(stmt_kind)
        },
    }
}

pub open spec fn stmt_kind_debug_last(stmt_kind: StmtKindView) -> Seq<char>
    decreases stmt_kind, 0nat,
{
    match stmt_kind {
        _ => "Continue"@,
    }
}

/// See [`stmt_kind_debug_last`].
pub fn debug_stmt_kind_last(stmt_kind: &StmtKind) -> (r: String)
    ensures
        r@ == stmt_kind_debug_last(stmt_kind@),
    decreases stmt_kind, 0nat,
{
    proof { unfold_stmt_kind(*stmt_kind); }
    match stmt_kind {
        _ => "Continue".to_owned(),
    }
}

/// What `{:?}` prints of the form of an expression.
#[verifier::opaque]
pub open spec fn expr_kind_printed(kind: ExprKindView) -> Seq<char> {
    expr_kind_debug(kind)
}

/// See [`expr_kind_printed`].
pub fn print_expr_kind(kind: &ExprKind) -> (r: String)
    ensures
        r@ == expr_kind_printed(kind@),
{
    proof { reveal(expr_kind_printed); }
    debug_expr_kind(kind)
}

/// What `{:?}` prints of an expression.
#[verifier::opaque]
pub open spec fn expr_printed(e: ExprView) -> Seq<char> {
    expr_debug(e)
}

/// See [`expr_printed`].
pub fn print_expr(e: &Expr) -> (r: String)
    ensures
        r@ == expr_printed(e@),
{
    proof { reveal(expr_printed); }
    debug_expr(e)
}

/// What `{:?}` prints of the form of a statement.
#[verifier::opaque]
pub open spec fn stmt_kind_printed(kind: StmtKindView) -> Seq<char> {
    stmt_kind_debug(kind)
}

/// See [`stmt_kind_printed`].
pub fn print_stmt_kind(kind: &StmtKind) -> (r: String)
    ensures
        r@ == stmt_kind_printed(kind@),
{
    proof { reveal(stmt_kind_printed); }
    debug_stmt_kind(kind)
}

} // verus!
