//! Flattening of operators, subscripts and displays.

use crate::ast::{
    Expr, ExprKind, ExprKindView, ExprView, InfixOp, KwArg, KwArgView, ParamArg, ParamArgView,
    SliceKind, SubscriptArg, SubscriptArgView, TStringPart, TStringPartView, Type,
    comparison_list_view, entry_list_view, expr_list_view, kw_arg_list_view, param_arg_list_view,
    subscript_arg_list_view, t_string_part_list_view, unfold_expr_kind,
};
use crate::calls::lowered_value;
use crate::debug::{expr_kind_printed, print_expr_kind};
use crate::flatten::{
    Flatten, FlattenView, at_block, bears_origin, child, child_facts, defined, emitted, ended,
    fact_adjustments, fact_place_ty, fact_ty, find_slices, following_index, fresh_reg, fresh_slot,
    is_descriptor, is_origin_bearing_pointer, is_reference, is_reference_ty, is_slice_descriptor,
    known_adjustments, known_place_ty, known_ty, lowered_constant, marked_unsupported, next_index,
    opened, resolved_callable, resolved_target, slices_among, slot_of_use,
};
use crate::hir::{HirExpr, HirExprView};
use crate::mir::{
    Const, ConstView, MirInstr, MirInstrView, MirPlace, MirPlaceView, MirSubscriptArg,
    MirSubscriptArgView, MirTerm, MirTermView, Reg, UseMode, callee_named, kw_reg_list_view,
    mir_subscript_arg_list_view, named, opt_place_list_view, unfold_mir_instr,
};
use crate::places::{lowered_deref, lowered_field_place, lowered_simple_place, lowered_try_place};
use crate::text::{cat2, opt_view};
use crate::types::{Ty, TyView, clone_ty, clone_ty_list, ty_list_view, unfold_ty};
use crate::values::Value;
use vstd::prelude::*;

verus! {

pub open spec fn lowered_args(
    s: FlattenView,
    args: Seq<ExprView>,
    h: Option<HirExprView>,
    i: nat,
    out: Seq<Reg>,
    k: usize,
) -> (FlattenView, Seq<Reg>)
    decreases args, (args.len() - i) as nat,
{
    if i >= args.len() {
        (s, out)
    } else {
        let arg = args[i as int];
        let (s, reg) = lowered_value(s, arg, child_facts(h, k));
        let out = out.push(reg);
        let k = following_index(k);
        lowered_args(s, args, h, i + 1, out, k)
    }
}

pub open spec fn lowered_kwargs(
    s: FlattenView,
    kwargs: Seq<KwArgView>,
    h: Option<HirExprView>,
    i: nat,
    out: Seq<(Seq<char>, Reg)>,
    k: usize,
) -> (FlattenView, Seq<(Seq<char>, Reg)>)
    decreases kwargs, (kwargs.len() - i) as nat,
{
    if i >= kwargs.len() {
        (s, out)
    } else {
        let kwarg = kwargs[i as int];
        let (s, reg) = lowered_value(s, kwarg.value, child_facts(h, k));
        let out = out.push((kwarg.name, reg));
        let k = following_index(k);
        lowered_kwargs(s, kwargs, h, i + 1, out, k)
    }
}

pub open spec fn lowered_arg_places(
    s: FlattenView,
    args: Seq<ExprView>,
    h: Option<HirExprView>,
    i: nat,
    out: Seq<Option<MirPlaceView>>,
    k: usize,
) -> (FlattenView, Seq<Option<MirPlaceView>>)
    decreases args, (args.len() - i) as nat,
{
    if i >= args.len() {
        (s, out)
    } else {
        let arg = args[i as int];
        let (s, place) = lowered_simple_place(s, arg, child_facts(h, k));
        let out = out.push(place);
        let k = following_index(k);
        lowered_arg_places(s, args, h, i + 1, out, k)
    }
}

pub open spec fn lowered_param_args(
    s: FlattenView,
    args: Seq<ParamArgView>,
    i: nat,
    out: Seq<Option<Reg>>,
) -> (FlattenView, Seq<Option<Reg>>)
    decreases args, (args.len() - i) as nat,
{
    if i >= args.len() {
        (s, out)
    } else {
        let arg = args[i as int];
        let (s, reg) = lowered_param_arg(s, arg);
        let out = out.push(reg);
        lowered_param_args(s, args, i + 1, out)
    }
}

/// A compile-time argument: a value is evaluated, a type is erased.
pub open spec fn lowered_param_arg(
    s: FlattenView,
    arg: ParamArgView,
) -> (FlattenView, Option<Reg>)
    decreases arg, 0nat,
{
    match arg {
        ParamArgView::Value(value) => {
            let (s, reg) = lowered_value(s, value, None);
            (s, Some(reg))
        },
        ParamArgView::Type(_) => (s, None),
        ParamArgView::Named { value, .. } => lowered_param_arg(s, *value),
    }
}

pub open spec fn lowered_opt(
    s: FlattenView,
    value: Option<Box<ExprView>>,
    h: Option<HirExprView>,
) -> (FlattenView, Option<Reg>)
    decreases value, 0nat,
{
    match value {
        Some(value) => {
            let (s, reg) = lowered_value(s, *value, h);
            (s, Some(reg))
        },
        None => (s, None),
    }
}

/// `and` and `or`: the right operand is evaluated only when it decides.
pub open spec fn lowered_short_circuit(
    s: FlattenView,
    e: ExprView,
    h: Option<HirExprView>,
) -> (FlattenView, Reg)
    decreases e, 1nat,
{
    match e.kind {
        ExprKindView::Infix(op, left, right) => {
            let (s, first) = lowered_value(s, *left, child_facts(h, 0));
            let (s, result) = fresh_slot(s);
            let s = defined(s, result, first, None);
            let (s, rhs) = opened(s);
            let (s, merge) = opened(s);
            let s = if op == InfixOp::And {
                let s = ended(s, MirTermView::Branch { cond: first, then_b: rhs, else_b: merge });
                s
            } else {
                let s = ended(s, MirTermView::Branch { cond: first, then_b: merge, else_b: rhs });
                s
            };
            let s = at_block(s, rhs);
            let (s, second) = lowered_value(s, *right, child_facts(h, 1));
            let s = defined(s, result, second, None);
            let s = ended(s, MirTermView::Jump(merge));
            let s = at_block(s, merge);
            lowered_merge(s, e, result)
        },
        _ => lowered_no_value(s, e),
    }
}

/// The value of a variable in which branches have left their result.
#[verifier::opaque]
pub open spec fn lowered_merge(s: FlattenView, e: ExprView, result: u32) -> (FlattenView, Reg) {
    let (s, dest) = fresh_reg(s, e.span, e.source, None);
    let s = emitted(s, MirInstrView::UseVar { dest, var: result, mode: UseMode::Copy });
    (s, dest)
}

/// What cannot be lowered is marked, and stands for no value.
#[verifier::opaque]
pub open spec fn lowered_no_value(s: FlattenView, e: ExprView) -> (FlattenView, Reg) {
    let (s, dest) = fresh_reg(s, e.span, e.source, None);
    let s = marked_unsupported(s, "unchecked expression reached MIR lowering: "@ + expr_kind_printed(e.kind));
    let s = emitted(s, MirInstrView::Const { dest, k: ConstView::NoneValue });
    (s, dest)
}

/// A conditional expression: each arm leaves its value in one variable.
pub open spec fn lowered_ternary(
    s: FlattenView,
    e: ExprView,
    h: Option<HirExprView>,
) -> (FlattenView, Reg)
    decreases e, 1nat,
{
    match e.kind {
        ExprKindView::IfExpr { cond, then_branch, else_branch } => {
            let (s, test) = lowered_value(s, *cond, child_facts(h, 0));
            let (s, result) = fresh_slot(s);
            let (s, then_b) = opened(s);
            let (s, else_b) = opened(s);
            let (s, merge) = opened(s);
            let s = ended(s, MirTermView::Branch { cond: test, then_b, else_b });
            let s = at_block(s, then_b);
            let (s, first) = lowered_value(s, *then_branch, child_facts(h, 1));
            let s = defined(s, result, first, None);
            let s = ended(s, MirTermView::Jump(merge));
            let s = at_block(s, else_b);
            let (s, second) = lowered_value(s, *else_branch, child_facts(h, 2));
            let s = defined(s, result, second, None);
            let s = ended(s, MirTermView::Jump(merge));
            let s = at_block(s, merge);
            lowered_merge(s, e, result)
        },
        _ => lowered_no_value(s, e),
    }
}

/// A chain of comparisons: each operand is evaluated once, and the first link
/// that fails ends it.
pub open spec fn lowered_chain(
    s: FlattenView,
    e: ExprView,
    h: Option<HirExprView>,
) -> (FlattenView, Reg)
    decreases e, 1nat,
{
    match e.kind {
        ExprKindView::Compare { first, rest } => {
            let (s, result) = fresh_slot(s);
            let (s, merge) = opened(s);
            let (s, start) = lowered_value(s, *first, child_facts(h, 0));
            let s = lowered_links(s, rest, e, h, result, merge, 0, start, 1);
            let s = at_block(s, merge);
            lowered_merge(s, e, result)
        },
        _ => lowered_no_value(s, e),
    }
}

pub open spec fn lowered_links(
    s: FlattenView,
    rest: Seq<(InfixOp, ExprView)>,
    e: ExprView,
    h: Option<HirExprView>,
    result: u32,
    merge: usize,
    i: nat,
    prev: Reg,
    k: usize,
) -> FlattenView
    decreases rest, (rest.len() - i) as nat,
{
    if i >= rest.len() {
        s
    } else {
        let link = rest[i as int];
        let (s, operand) = lowered_value(s, link.1, child_facts(h, k));
        let (s, test) = fresh_reg(s, e.span, e.source, None);
        let s = emitted(s, MirInstrView::BinOp { op: link.0, dest: test, a: prev, b: operand });
        let s = defined(s, result, test, None);
        let s = if k >= rest.len() {
            let s = ended(s, MirTermView::Jump(merge));
            s
        } else {
            let (s, next_b) = opened(s);
            let s = ended(s, MirTermView::Branch { cond: test, then_b: next_b, else_b: merge });
            let s = at_block(s, next_b);
            s
        };
        let prev = operand;
        let k = following_index(k);
        lowered_links(s, rest, e, h, result, merge, i + 1, prev, k)
    }
}

/// A move out of a variable or field. A move out of a subscript reads it.
pub open spec fn lowered_transfer(
    s: FlattenView,
    e: ExprView,
    h: Option<HirExprView>,
) -> (FlattenView, Reg)
    decreases e, 1nat,
{
    match e.kind {
        ExprKindView::Transfer(inner) => match inner.kind {
            ExprKindView::Identifier(name) => {
                let (s, var) = slot_of_use(s, name, child_facts(h, 0));
                let (s, dest) = fresh_reg(s, e.span, e.source, Some(var));
                let s = emitted(s, MirInstrView::UseVar { dest, var, mode: UseMode::Move });
                (s, dest)
            },
            _ => {
                let (s, place) = lowered_field_place(s, *inner, child_facts(h, 0));
                match place {
                    Some(place) => {
                        let (s, dest) = fresh_reg(s, e.span, e.source, Some(place.root));
                        let s = emitted(s, MirInstrView::MovePlace { dest, place });
                        (s, dest)
                    },
                    None => lowered_value(s, *inner, child_facts(h, 0)),
                }
            },
        },
        _ => lowered_no_value(s, e),
    }
}

/// A member: of a field chain it is a place that is read, of a temporary a
/// field of its value.
pub open spec fn lowered_member(
    s: FlattenView,
    e: ExprView,
    h: Option<HirExprView>,
) -> (FlattenView, Reg)
    decreases e, 2nat,
{
    match e.kind {
        ExprKindView::Member { object, field } => {
            let (s, chain) = if is_descriptor(child_facts(h, 0)) {
                (s, None)
            } else {
                lowered_field_place(s, e, h)
            };
            match chain {
                Some(place) => {
                    let (s, dest) = fresh_reg(s, e.span, e.source, Some(place.root));
                    let s = emitted(s, MirInstrView::LoadPlace { dest, place });
                    (s, dest)
                },
                None => {
                    let (s, base) = lowered_value(s, *object, child_facts(h, 0));
                    let (s, dest) = fresh_reg(s, e.span, e.source, None);
                    let s = emitted(s, MirInstrView::GetField { dest, base, field });
                    (s, dest)
                },
            }
        },
        _ => lowered_no_value(s, e),
    }
}

/// The place an indexed expression reads, when it is storage of references or
/// stands behind a pointer.
pub open spec fn lowered_index_place(
    s: FlattenView,
    e: ExprView,
    object: ExprView,
    h: Option<HirExprView>,
) -> (FlattenView, Option<MirPlaceView>)
    decreases e, 2nat,
{
    let (s, stored) = if is_reference_ty(known_place_ty(h)) {
        lowered_try_place(s, e, h, false)
    } else {
        (s, None)
    };
    match stored {
        Some(place) => (s, Some(place)),
        None => lowered_deref(s, object, child_facts(h, 0)),
    }
}

pub open spec fn lowered_index(
    s: FlattenView,
    e: ExprView,
    h: Option<HirExprView>,
) -> (FlattenView, Reg)
    decreases e, 3nat,
{
    match e.kind {
        ExprKindView::Index { object, index } => {
            let (s, place) = lowered_index_place(s, e, *object, h);
            match place {
                Some(place) => {
                    let (s, dest) = fresh_reg(s, e.span, e.source, Some(place.root));
                    let s = emitted(s, MirInstrView::LoadPlace { dest, place });
                    (s, dest)
                },
                None => {
                    let (s, base) = lowered_value(s, *object, child_facts(h, 0));
                    if bears_origin(child_facts(h, 0)) {
                        let (s, dest) = fresh_reg(s, e.span, e.source, None);
                        let s = emitted(s, MirInstrView::ReadRef { dest, reference: base });
                        (s, dest)
                    } else {
                        let (s, at) = lowered_value(s, *index, child_facts(h, 1));
                        let (s, dest) = fresh_reg(s, e.span, e.source, None);
                        let s = emitted(s, MirInstrView::Index { dest, base, index: at });
                        (s, dest)
                    }
                },
            }
        },
        _ => lowered_no_value(s, e),
    }
}

/// A slice of one dimension.
pub open spec fn lowered_slice(
    s: FlattenView,
    e: ExprView,
    h: Option<HirExprView>,
) -> (FlattenView, Reg)
    decreases e, 1nat,
{
    match e.kind {
        ExprKindView::Slice { object, lower, upper, step } => {
            let (s, base) = lowered_value(s, *object, child_facts(h, 0));
            let upper_at = if lower is Some {
                2usize
            } else {
                1usize
            };
            let step_at = if upper is Some {
                (upper_at + 1) as usize
            } else {
                upper_at
            };
            let (s, low) = lowered_opt(s, lower, child_facts(h, 1));
            let (s, high) = lowered_opt(s, upper, child_facts(h, upper_at));
            let (s, by) = lowered_opt(s, step, child_facts(h, step_at));
            match chosen_slice_kind(h) {
                Some(kind) => {
                    let (s, dest) = fresh_reg(s, e.span, e.source, None);
                    let s = emitted(
                        s,
                        MirInstrView::Slice {
                            dest,
                            object: base,
                            kind,
                            lower: low,
                            upper: high,
                            step: by,
                            resolved: resolved_target(h),
                        },
                    );
                    (s, dest)
                },
                None => lowered_no_value(s, e),
            }
        },
        _ => lowered_no_value(s, e),
    }
}

/// The arguments of a subscript with several, and the position of the next
/// child. An argument without a descriptor of its kind ends them.
pub open spec fn lowered_subscripts(
    s: FlattenView,
    args: Seq<SubscriptArgView>,
    kinds: Seq<Option<SliceKind>>,
    h: Option<HirExprView>,
    i: nat,
    out: Seq<MirSubscriptArgView>,
    k: usize,
    n: usize,
) -> (FlattenView, Seq<MirSubscriptArgView>)
    decreases args, (args.len() - i) as nat,
{
    if i >= args.len() {
        (s, out)
    } else {
        let arg = args[i as int];
        if n >= kinds.len() {
            (s, out)
        } else {
            let (s, (lowered, at)) = lowered_subscript(s, arg, kinds[n as int], h, k);
            match lowered {
                Some(lowered) => {
                    let out = out.push(lowered);
                    let k = at;
                    let n = following_index(n);
                    lowered_subscripts(s, args, kinds, h, i + 1, out, k, n)
                },
                None => (s, out),
            }
        }
    }
}

pub open spec fn lowered_subscript(
    s: FlattenView,
    arg: SubscriptArgView,
    kind: Option<SliceKind>,
    h: Option<HirExprView>,
    k: usize,
) -> (FlattenView, (Option<MirSubscriptArgView>, usize))
    decreases arg, 0nat,
{
    match arg {
        SubscriptArgView::Index(value) => {
            let (s, at) = lowered_value(s, value, child_facts(h, k));
            (s, (Some(MirSubscriptArgView::Index(at)), following_index(k)))
        },
        SubscriptArgView::Slice { lower, upper, step } => {
            let upper_at = if lower is Some {
                following_index(k)
            } else {
                k
            };
            let step_at = if upper is Some {
                following_index(upper_at)
            } else {
                upper_at
            };
            let end = if step is Some {
                following_index(step_at)
            } else {
                step_at
            };
            let (s, low) = lowered_opt(s, lower, child_facts(h, k));
            let (s, high) = lowered_opt(s, upper, child_facts(h, upper_at));
            let (s, by) = lowered_opt(s, step, child_facts(h, step_at));
            match kind {
                Some(kind) => (
                    s,
                    (
                        Some(
                            MirSubscriptArgView::Slice { kind, lower: low, upper: high, step: by }
                        ),
                        end,
                    ),
                ),
                None => (s, (None, end)),
            }
        },
    }
}

pub open spec fn lowered_multi_index(
    s: FlattenView,
    e: ExprView,
    h: Option<HirExprView>,
) -> (FlattenView, Reg)
    decreases e, 1nat,
{
    match e.kind {
        ExprKindView::MultiIndex { object, args } => {
            let (s, base) = lowered_value(s, *object, child_facts(h, 0));
            match slices_among(known_adjustments(h), 0) {
                Some((kinds, _)) => {
                    let (s, args) = lowered_subscripts(s, args, kinds, h, 0, Seq::empty(), 1, 0);
                    let (s, dest) = fresh_reg(s, e.span, e.source, None);
                    let s = emitted(
                        s,
                        MirInstrView::MultiIndex {
                            dest,
                            object: base,
                            args,
                            resolved: resolved_target(h),
                        },
                    );
                    (s, dest)
                },
                None => lowered_no_value(s, e),
            }
        },
        _ => lowered_no_value(s, e),
    }
}

/// A template string: its pieces joined from left to right.
pub open spec fn lowered_template(
    s: FlattenView,
    e: ExprView,
    h: Option<HirExprView>,
) -> (FlattenView, Reg)
    decreases e, 1nat,
{
    match e.kind {
        ExprKindView::TString { parts, .. } => {
            let (s, start) = lowered_constant(s, e, ConstView::Str(""@));
            lowered_parts(s, parts, e, h, 0, start, 0)
        },
        _ => lowered_no_value(s, e),
    }
}

pub open spec fn lowered_parts(
    s: FlattenView,
    parts: Seq<TStringPartView>,
    e: ExprView,
    h: Option<HirExprView>,
    i: nat,
    result: Reg,
    k: usize,
) -> (FlattenView, Reg)
    decreases parts, (parts.len() - i) as nat,
{
    if i >= parts.len() {
        (s, result)
    } else {
        let part = parts[i as int];
        let (s, piece) = lowered_part(s, part, e, child_facts(h, k));
        let (s, joined) = fresh_reg(s, e.span, e.source, None);
        let s = emitted(
            s,
            MirInstrView::BinOp { op: InfixOp::Add, dest: joined, a: result, b: piece },
        );
        let result = joined;
        let k = if (part matches TStringPartView::Expr(_)) {
            following_index(k)
        } else {
            k
        };
        lowered_parts(s, parts, e, h, i + 1, result, k)
    }
}

pub open spec fn lowered_part(
    s: FlattenView,
    part: TStringPartView,
    e: ExprView,
    h: Option<HirExprView>,
) -> (FlattenView, Reg)
    decreases part, 0nat,
{
    match part {
        TStringPartView::Literal(text) => lowered_constant(s, e, ConstView::Str(text)),
        TStringPartView::Expr(value) => {
            let (s, arg) = lowered_value(s, *value, h);
            let (s, dest) = fresh_reg(s, value.span, value.source, None);
            let s = lowered_conversion(s, dest, "String"@, arg);
            (s, dest)
        },
    }
}

/// A call of a conversion with one argument.
#[verifier::opaque]
pub open spec fn lowered_conversion(
    s: FlattenView,
    dest: Reg,
    target: Seq<char>,
    arg: Reg,
) -> FlattenView {
    let args = seq![arg];
    let places = seq![None];
    let kwargs = Seq::<(Seq<char>, Reg)>::empty();
    let params = Seq::<Option<Reg>>::empty();
    let s = emitted(
        s,
        MirInstrView::Call {
            dest,
            func: callee_named(target),
            raises: None,
            args,
            kwargs,
            arg_places: places,
            param_arg_regs: params,
        },
    );
    s
}

/// A list or tuple of values.
pub open spec fn lowered_list(
    s: FlattenView,
    e: ExprView,
    h: Option<HirExprView>,
) -> (FlattenView, Reg)
    decreases e, 1nat,
{
    match e.kind {
        ExprKindView::ListLit(values) => {
            let (s, elems) = lowered_args(s, values, h, 0, Seq::empty(), 0);
            let (s, dest) = fresh_reg(s, e.span, e.source, None);
            let s = emitted(
                s,
                MirInstrView::MakeList { dest, elems, element_type: element_of_list(known_ty(h)) },
            );
            (s, dest)
        },
        ExprKindView::TupleLit(values) => {
            let (s, elems) = lowered_args(s, values, h, 0, Seq::empty(), 0);
            let (s, dest) = fresh_reg(s, e.span, e.source, None);
            let s = emitted(
                s,
                MirInstrView::MakeTuple {
                    dest,
                    elems,
                    element_types: elements_of_tuple(known_ty(h)),
                },
            );
            (s, dest)
        },
        _ => lowered_no_value(s, e),
    }
}

/// A set or dictionary display. An empty one is a dictionary, unless it is
/// checked as a set.
pub open spec fn lowered_brace(
    s: FlattenView,
    e: ExprView,
    h: Option<HirExprView>,
) -> (FlattenView, Reg)
    decreases e, 1nat,
{
    match e.kind {
        ExprKindView::BraceLit(entries) => {
            let (s, dest) = fresh_reg(s, e.span, e.source, None);
            let s = if displays_dictionary(entries, known_ty(h)) {
                let (s, pairs) = lowered_pairs(s, entries, h, 0, Seq::empty(), 0);
                let s = emitted(
                    s,
                    MirInstrView::MakeDict {
                        dest,
                        entries: pairs,
                        key_type: key_of_dict(known_ty(h)),
                        value_type: value_of_dict(known_ty(h)),
                    },
                );
                s
            } else {
                let (s, elems) = lowered_keys(s, entries, h, 0, Seq::empty(), 0);
                let s = emitted(
                    s,
                    MirInstrView::MakeSet {
                        dest,
                        elems,
                        element_type: element_of_set(known_ty(h)),
                    },
                );
                s
            };
            (s, dest)
        },
        _ => lowered_no_value(s, e),
    }
}

/// The keys and values of a dictionary display. One without a value ends it.
pub open spec fn lowered_pairs(
    s: FlattenView,
    entries: Seq<(ExprView, Option<ExprView>)>,
    h: Option<HirExprView>,
    i: nat,
    out: Seq<(Reg, Reg)>,
    k: usize,
) -> (FlattenView, Seq<(Reg, Reg)>)
    decreases entries, (entries.len() - i) as nat,
{
    if i >= entries.len() {
        (s, out)
    } else {
        let entry = entries[i as int];
        let (s, key) = lowered_value(s, entry.0, child_facts(h, k));
        match entry.1 {
            Some(value) => {
                let (s, value) = lowered_value(s, value, child_facts(h, following_index(k)));
                let out = out.push((key, value));
                let k = following_index(following_index(k));
                lowered_pairs(s, entries, h, i + 1, out, k)
            },
            None => (s, out),
        }
    }
}

pub open spec fn lowered_keys(
    s: FlattenView,
    entries: Seq<(ExprView, Option<ExprView>)>,
    h: Option<HirExprView>,
    i: nat,
    out: Seq<Reg>,
    k: usize,
) -> (FlattenView, Seq<Reg>)
    decreases entries, (entries.len() - i) as nat,
{
    if i >= entries.len() {
        (s, out)
    } else {
        let entry = entries[i as int];
        let (s, key) = lowered_value(s, entry.0, child_facts(h, k));
        let out = out.push(key);
        let k = if entry.1 is Some {
            following_index(following_index(k))
        } else {
            following_index(k)
        };
        lowered_keys(s, entries, h, i + 1, out, k)
    }
}

impl Flatten {
    /// See [`lowered_args`].
    pub fn args(
        self,
        args: &Vec<Expr>,
        h: Option<&HirExpr>,
        base: usize,
    ) -> (r: (Flatten, Vec<Reg>))
        ensures
            r.0@ == lowered_args(
                self@,
                expr_list_view(args@),
                opt_view(h),
                0,
                Seq::<Reg>::empty(),
                base,
            ).0,
            r.1@ == lowered_args(
                self@,
                expr_list_view(args@),
                opt_view(h),
                0,
                Seq::<Reg>::empty(),
                base,
            ).1,
        decreases args@, 0nat,
    {
        let mut this = self;
        let mut out: Vec<Reg> = Vec::new();
        let mut k: usize = base;
        let ghost goal = lowered_args(
            self@,
            expr_list_view(args@),
            opt_view(h),
            0,
            Seq::<Reg>::empty(),
            base,
        );
        let mut i: usize = 0;
        while i < args.len()
            invariant
                i <= args@.len(),
                expr_list_view(args@).len() == args@.len(),
                lowered_args(this@, expr_list_view(args@), opt_view(h), i as nat, out@, k) == goal,
                goal == lowered_args(
                    self@,
                    expr_list_view(args@),
                    opt_view(h),
                    0,
                    Seq::<Reg>::empty(),
                    base,
                ),
            decreases args@.len() - i,
        {
            let arg = &args[i];
            assert(expr_list_view(args@)[i as int] == arg@);
            let (next, reg) = this.expr(arg, child(h, k));
            this = next;
            out.push(reg);
            k = next_index(k);
            i = i + 1;
        }
        (this, out)
    }

    /// See [`lowered_kwargs`].
    pub fn kwargs(
        self,
        kwargs: &Vec<KwArg>,
        h: Option<&HirExpr>,
        base: usize,
    ) -> (r: (Flatten, Vec<(String, Reg)>))
        ensures
            r.0@ == lowered_kwargs(
                self@,
                kw_arg_list_view(kwargs@),
                opt_view(h),
                0,
                Seq::<(Seq<char>, Reg)>::empty(),
                base,
            ).0,
            kw_reg_list_view(r.1@) == lowered_kwargs(
                self@,
                kw_arg_list_view(kwargs@),
                opt_view(h),
                0,
                Seq::<(Seq<char>, Reg)>::empty(),
                base,
            ).1,
        decreases kwargs@, 0nat,
    {
        let mut this = self;
        let mut out: Vec<(String, Reg)> = Vec::new();
        assert(kw_reg_list_view(out@) =~= Seq::<(Seq<char>, Reg)>::empty());
        let mut k: usize = base;
        let ghost goal = lowered_kwargs(
            self@,
            kw_arg_list_view(kwargs@),
            opt_view(h),
            0,
            Seq::<(Seq<char>, Reg)>::empty(),
            base,
        );
        let mut i: usize = 0;
        while i < kwargs.len()
            invariant
                i <= kwargs@.len(),
                kw_arg_list_view(kwargs@).len() == kwargs@.len(),
                lowered_kwargs(
                    this@,
                    kw_arg_list_view(kwargs@),
                    opt_view(h),
                    i as nat,
                    kw_reg_list_view(out@),
                    k,
                ) == goal,
                goal == lowered_kwargs(
                    self@,
                    kw_arg_list_view(kwargs@),
                    opt_view(h),
                    0,
                    Seq::<(Seq<char>, Reg)>::empty(),
                    base,
                ),
            decreases kwargs@.len() - i,
        {
            let kwarg = &kwargs[i];
            assert(kw_arg_list_view(kwargs@)[i as int] == kwarg@);
            let (next, reg) = this.expr(&kwarg.value, child(h, k));
            this = next;
            let item = ((&kwarg.name).clone(), reg);
            let ghost before = kw_reg_list_view(out@);
            let ghost added = (item.0@, item.1);
            out.push(item);
            assert(kw_reg_list_view(out@) =~= before.push(added));
            k = next_index(k);
            i = i + 1;
        }
        (this, out)
    }

    /// See [`lowered_arg_places`].
    pub fn arg_places(
        self,
        args: &Vec<Expr>,
        h: Option<&HirExpr>,
        base: usize,
    ) -> (r: (Flatten, Vec<Option<MirPlace>>))
        ensures
            r.0@ == lowered_arg_places(
                self@,
                expr_list_view(args@),
                opt_view(h),
                0,
                Seq::<Option<MirPlaceView>>::empty(),
                base,
            ).0,
            opt_place_list_view(r.1@) == lowered_arg_places(
                self@,
                expr_list_view(args@),
                opt_view(h),
                0,
                Seq::<Option<MirPlaceView>>::empty(),
                base,
            ).1,
        decreases args@, 0nat,
    {
        let mut this = self;
        let mut out: Vec<Option<MirPlace>> = Vec::new();
        assert(opt_place_list_view(out@) =~= Seq::<Option<MirPlaceView>>::empty());
        let mut k: usize = base;
        let ghost goal = lowered_arg_places(
            self@,
            expr_list_view(args@),
            opt_view(h),
            0,
            Seq::<Option<MirPlaceView>>::empty(),
            base,
        );
        let mut i: usize = 0;
        while i < args.len()
            invariant
                i <= args@.len(),
                expr_list_view(args@).len() == args@.len(),
                lowered_arg_places(
                    this@,
                    expr_list_view(args@),
                    opt_view(h),
                    i as nat,
                    opt_place_list_view(out@),
                    k,
                ) == goal,
                goal == lowered_arg_places(
                    self@,
                    expr_list_view(args@),
                    opt_view(h),
                    0,
                    Seq::<Option<MirPlaceView>>::empty(),
                    base,
                ),
            decreases args@.len() - i,
        {
            let arg = &args[i];
            assert(expr_list_view(args@)[i as int] == arg@);
            let (next, place) = this.simple_place(arg, child(h, k));
            this = next;
            let ghost before = opt_place_list_view(out@);
            let ghost added = opt_view(place);
            out.push(place);
            assert(opt_place_list_view(out@) =~= before.push(added));
            k = next_index(k);
            i = i + 1;
        }
        (this, out)
    }

    /// See [`lowered_param_args`].
    pub fn param_args(self, args: &Vec<ParamArg>) -> (r: (Flatten, Vec<Option<Reg>>))
        ensures
            r.0@ == lowered_param_args(
                self@,
                param_arg_list_view(args@),
                0,
                Seq::<Option<Reg>>::empty(),
            ).0,
            r.1@ == lowered_param_args(
                self@,
                param_arg_list_view(args@),
                0,
                Seq::<Option<Reg>>::empty(),
            ).1,
        decreases args@, 0nat,
    {
        let mut this = self;
        let mut out: Vec<Option<Reg>> = Vec::new();
        let ghost goal = lowered_param_args(
            self@,
            param_arg_list_view(args@),
            0,
            Seq::<Option<Reg>>::empty(),
        );
        let mut i: usize = 0;
        while i < args.len()
            invariant
                i <= args@.len(),
                param_arg_list_view(args@).len() == args@.len(),
                lowered_param_args(this@, param_arg_list_view(args@), i as nat, out@) == goal,
                goal == lowered_param_args(
                    self@,
                    param_arg_list_view(args@),
                    0,
                    Seq::<Option<Reg>>::empty(),
                ),
            decreases args@.len() - i,
        {
            let arg = &args[i];
            assert(param_arg_list_view(args@)[i as int] == arg@);
            let (next, reg) = this.param_arg(arg);
            this = next;
            out.push(reg);
            i = i + 1;
        }
        (this, out)
    }

    /// See [`lowered_param_arg`].
    pub fn param_arg(self, arg: &ParamArg) -> (r: (Flatten, Option<Reg>))
        ensures
            r.0@ == lowered_param_arg(self@, arg@).0,
            r.1 == lowered_param_arg(self@, arg@).1,
        decreases arg, 0nat,
    {
        let mut this = self;
        match arg {
            ParamArg::Value(value) => {
                let (next, reg) = this.expr(value, None);
                this = next;
                return (this, Some(reg));
            },
            ParamArg::Type(_) => {
                return (this, None);
            },
            ParamArg::Named { value, .. } => {
                return this.param_arg(&**value);
            },
        }
    }

    /// See [`lowered_opt`].
    pub fn opt_expr(
        self,
        value: &Option<Box<Expr>>,
        h: Option<&HirExpr>,
    ) -> (r: (Flatten, Option<Reg>))
        ensures
            r.0@ == lowered_opt(
                self@,
                (match value { Some(v) => Some(Box::new(v@)), None => None }),
                opt_view(h),
            ).0,
            r.1 == lowered_opt(
                self@,
                (match value { Some(v) => Some(Box::new(v@)), None => None }),
                opt_view(h),
            ).1,
        decreases value, 0nat,
    {
        let mut this = self;
        match value {
            Some(value) => {
                let (next, reg) = this.expr(&**value, h);
                this = next;
                return (this, Some(reg));
            },
            None => {
                return (this, None);
            },
        }
    }

    /// See [`lowered_short_circuit`].
    pub fn short_circuit(self, e: &Expr, h: Option<&HirExpr>) -> (r: (Flatten, Reg))
        ensures
            r.0@ == lowered_short_circuit(self@, e@, opt_view(h)).0,
            r.1 == lowered_short_circuit(self@, e@, opt_view(h)).1,
        decreases e, 1nat,
    {
        let mut this = self;
        proof { unfold_expr_kind(e.kind); }
        match &e.kind {
            ExprKind::Infix(op, left, right) => {
                let (next, first) = this.expr(&**left, child(h, 0));
                this = next;
                let (next2, result) = this.fresh_var();
                this = next2;
                this = this.define(result, first, None);
                let (next3, rhs) = this.new_block();
                this = next3;
                let (next4, merge) = this.new_block();
                this = next4;
                if *op == InfixOp::And {
                    this = this.end(MirTerm::Branch { cond: first, then_b: rhs, else_b: merge });
                } else {
                    this = this.end(MirTerm::Branch { cond: first, then_b: merge, else_b: rhs });
                }
                this = this.goto(rhs);
                let (next5, second) = this.expr(&**right, child(h, 1));
                this = next5;
                this = this.define(result, second, None);
                this = this.end(MirTerm::Jump(merge));
                this = this.goto(merge);
                return this.merged(e, result);
            },
            _ => {
                assert(!(e.kind@ is Infix));
                return this.no_value(e);
            },
        }
    }

    /// See [`lowered_merge`].
    pub fn merged(self, e: &Expr, result: u32) -> (r: (Flatten, Reg))
        ensures
            r.0@ == lowered_merge(self@, e@, result).0,
            r.1 == lowered_merge(self@, e@, result).1,
    {
        proof { reveal(lowered_merge); }
        let mut this = self;
        let (next, dest) = this.fresh(e.span, &e.source, None);
        this = next;
        let instr = MirInstr::UseVar { dest, var: result, mode: UseMode::Copy };
        proof { unfold_mir_instr(instr); }
        this = this.emit(instr);
        return (this, dest);
    }

    /// See [`lowered_no_value`].
    pub fn no_value(self, e: &Expr) -> (r: (Flatten, Reg))
        ensures
            r.0@ == lowered_no_value(self@, e@).0,
            r.1 == lowered_no_value(self@, e@).1,
    {
        proof { reveal(lowered_no_value); }
        let mut this = self;
        let (next, dest) = this.fresh(e.span, &e.source, None);
        this = next;
        this = this.unsupported(cat2("unchecked expression reached MIR lowering: ", print_expr_kind(&e.kind).as_str()));
        let instr = MirInstr::Const { dest, k: Const::NoneValue };
        proof { unfold_mir_instr(instr); }
        this = this.emit(instr);
        return (this, dest);
    }

    /// See [`lowered_ternary`].
    pub fn ternary(self, e: &Expr, h: Option<&HirExpr>) -> (r: (Flatten, Reg))
        ensures
            r.0@ == lowered_ternary(self@, e@, opt_view(h)).0,
            r.1 == lowered_ternary(self@, e@, opt_view(h)).1,
        decreases e, 1nat,
    {
        let mut this = self;
        proof { unfold_expr_kind(e.kind); }
        match &e.kind {
            ExprKind::IfExpr { cond, then_branch, else_branch } => {
                let (next, test) = this.expr(&**cond, child(h, 0));
                this = next;
                let (next2, result) = this.fresh_var();
                this = next2;
                let (next3, then_b) = this.new_block();
                this = next3;
                let (next4, else_b) = this.new_block();
                this = next4;
                let (next5, merge) = this.new_block();
                this = next5;
                this = this.end(MirTerm::Branch { cond: test, then_b, else_b });
                this = this.goto(then_b);
                let (next6, first) = this.expr(&**then_branch, child(h, 1));
                this = next6;
                this = this.define(result, first, None);
                this = this.end(MirTerm::Jump(merge));
                this = this.goto(else_b);
                let (next7, second) = this.expr(&**else_branch, child(h, 2));
                this = next7;
                this = this.define(result, second, None);
                this = this.end(MirTerm::Jump(merge));
                this = this.goto(merge);
                return this.merged(e, result);
            },
            _ => {
                assert(!(e.kind@ is IfExpr));
                return this.no_value(e);
            },
        }
    }

    /// See [`lowered_chain`].
    pub fn compare_chain(self, e: &Expr, h: Option<&HirExpr>) -> (r: (Flatten, Reg))
        ensures
            r.0@ == lowered_chain(self@, e@, opt_view(h)).0,
            r.1 == lowered_chain(self@, e@, opt_view(h)).1,
        decreases e, 1nat,
    {
        let mut this = self;
        proof { unfold_expr_kind(e.kind); }
        match &e.kind {
            ExprKind::Compare { first, rest } => {
                let (next, result) = this.fresh_var();
                this = next;
                let (next2, merge) = this.new_block();
                this = next2;
                let (next3, start) = this.expr(&**first, child(h, 0));
                this = next3;
                this = this.links(rest, e, h, result, merge, start);
                this = this.goto(merge);
                return this.merged(e, result);
            },
            _ => {
                assert(!(e.kind@ is Compare));
                return this.no_value(e);
            },
        }
    }

    /// See [`lowered_links`].
    pub fn links(
        self,
        rest: &Vec<(InfixOp, Expr)>,
        e: &Expr,
        h: Option<&HirExpr>,
        result: u32,
        merge: usize,
        start: Reg,
    ) -> (r: Flatten)
        ensures
            r@ == lowered_links(
                self@,
                comparison_list_view(rest@),
                e@,
                opt_view(h),
                result,
                merge,
                0,
                start,
                1,
            ),
        decreases rest@, 0nat,
    {
        let mut this = self;
        let mut prev: Reg = start;
        let mut k: usize = 1;
        let ghost goal = lowered_links(
            self@,
            comparison_list_view(rest@),
            e@,
            opt_view(h),
            result,
            merge,
            0,
            start,
            1,
        );
        let mut i: usize = 0;
        while i < rest.len()
            invariant
                i <= rest@.len(),
                comparison_list_view(rest@).len() == rest@.len(),
                lowered_links(
                    this@,
                    comparison_list_view(rest@),
                    e@,
                    opt_view(h),
                    result,
                    merge,
                    i as nat,
                    prev,
                    k,
                ) == goal,
                goal == lowered_links(
                    self@,
                    comparison_list_view(rest@),
                    e@,
                    opt_view(h),
                    result,
                    merge,
                    0,
                    start,
                    1,
                ),
            decreases rest@.len() - i,
        {
            let link = &rest[i];
            assert(comparison_list_view(rest@)[i as int].1 =~= link.1@);
            let (next, operand) = this.expr(&link.1, child(h, k));
            this = next;
            let (next2, test) = this.fresh(e.span, &e.source, None);
            this = next2;
            let instr = MirInstr::BinOp { op: link.0, dest: test, a: prev, b: operand };
            proof { unfold_mir_instr(instr); }
            this = this.emit(instr);
            this = this.define(result, test, None);
            if k >= rest.len() {
                this = this.end(MirTerm::Jump(merge));
            } else {
                let (next3, next_b) = this.new_block();
                this = next3;
                this = this.end(MirTerm::Branch { cond: test, then_b: next_b, else_b: merge });
                this = this.goto(next_b);
            }
            prev = operand;
            k = next_index(k);
            i = i + 1;
        }
        this
    }

    /// See [`lowered_transfer`].
    pub fn transfer(self, e: &Expr, h: Option<&HirExpr>) -> (r: (Flatten, Reg))
        ensures
            r.0@ == lowered_transfer(self@, e@, opt_view(h)).0,
            r.1 == lowered_transfer(self@, e@, opt_view(h)).1,
        decreases e, 1nat,
    {
        let mut this = self;
        proof { unfold_expr_kind(e.kind); }
        match &e.kind {
            ExprKind::Transfer(inner) => {
                proof { unfold_expr_kind(inner.kind); }
                match &inner.kind {
                    ExprKind::Identifier(name) => {
                        let (next, var) = this.expression_var(name, child(h, 0));
                        this = next;
                        let (next2, dest) = this.fresh(e.span, &e.source, Some(var));
                        this = next2;
                        let instr = MirInstr::UseVar { dest, var, mode: UseMode::Move };
                        proof { unfold_mir_instr(instr); }
                        this = this.emit(instr);
                        return (this, dest);
                    },
                    _ => {
                        assert(!(inner.kind@ is Identifier));
                        let (next3, place) = this.pure_field_place(&**inner, child(h, 0));
                        this = next3;
                        match place {
                            Some(place) => {
                                let (next4, dest) = this.fresh(e.span, &e.source, Some(place.root));
                                this = next4;
                                let instr2 = MirInstr::MovePlace { dest, place };
                                proof { unfold_mir_instr(instr2); }
                                this = this.emit(instr2);
                                return (this, dest);
                            },
                            None => {
                                return this.expr(&**inner, child(h, 0));
                            },
                        }
                    },
                }
            },
            _ => {
                assert(!(e.kind@ is Transfer));
                return this.no_value(e);
            },
        }
    }

    /// See [`lowered_member`].
    pub fn member(self, e: &Expr, h: Option<&HirExpr>) -> (r: (Flatten, Reg))
        ensures
            r.0@ == lowered_member(self@, e@, opt_view(h)).0,
            r.1 == lowered_member(self@, e@, opt_view(h)).1,
        decreases e, 2nat,
    {
        let mut this = self;
        proof { unfold_expr_kind(e.kind); }
        match &e.kind {
            ExprKind::Member { object, field } => {
                let chain = if is_slice_descriptor(child(h, 0)) {
                    None
                } else {
                    let (next, value) = this.pure_field_place(e, h);
                    this = next;
                    value
                };
                match chain {
                    Some(place) => {
                        let (next2, dest) = this.fresh(e.span, &e.source, Some(place.root));
                        this = next2;
                        let instr = MirInstr::LoadPlace { dest, place };
                        proof { unfold_mir_instr(instr); }
                        this = this.emit(instr);
                        return (this, dest);
                    },
                    None => {
                        let (next3, base) = this.expr(&**object, child(h, 0));
                        this = next3;
                        let (next4, dest) = this.fresh(e.span, &e.source, None);
                        this = next4;
                        let instr2 = MirInstr::GetField { dest, base, field: field.clone() };
                        proof { unfold_mir_instr(instr2); }
                        this = this.emit(instr2);
                        return (this, dest);
                    },
                }
            },
            _ => {
                assert(!(e.kind@ is Member));
                return this.no_value(e);
            },
        }
    }

    /// See [`lowered_index_place`].
    pub fn index_place(
        self,
        e: &Expr,
        object: &Expr,
        h: Option<&HirExpr>,
    ) -> (r: (Flatten, Option<MirPlace>))
        ensures
            r.0@ == lowered_index_place(self@, e@, object@, opt_view(h)).0,
            opt_view(r.1) == lowered_index_place(self@, e@, object@, opt_view(h)).1,
        decreases e, 2nat,
    {
        let mut this = self;
        let stored = if is_reference(&fact_place_ty(h)) {
            let (next, value) = this.try_place(e, h, false);
            this = next;
            value
        } else {
            None
        };
        match stored {
            Some(place) => {
                return (this, Some(place));
            },
            None => {
                return this.pointer_deref_place(object, child(h, 0));
            },
        }
    }

    /// See [`lowered_index`].
    pub fn index(self, e: &Expr, h: Option<&HirExpr>) -> (r: (Flatten, Reg))
        ensures
            r.0@ == lowered_index(self@, e@, opt_view(h)).0,
            r.1 == lowered_index(self@, e@, opt_view(h)).1,
        decreases e, 3nat,
    {
        let mut this = self;
        proof { unfold_expr_kind(e.kind); }
        match &e.kind {
            ExprKind::Index { object, index } => {
                let (next, place) = this.index_place(e, &**object, h);
                this = next;
                match place {
                    Some(place) => {
                        let (next2, dest) = this.fresh(e.span, &e.source, Some(place.root));
                        this = next2;
                        let instr = MirInstr::LoadPlace { dest, place };
                        proof { unfold_mir_instr(instr); }
                        this = this.emit(instr);
                        return (this, dest);
                    },
                    None => {
                        let (next3, base) = this.expr(&**object, child(h, 0));
                        this = next3;
                        if is_origin_bearing_pointer(child(h, 0)) {
                            let (next4, dest) = this.fresh(e.span, &e.source, None);
                            this = next4;
                            let instr2 = MirInstr::ReadRef { dest, reference: base };
                            proof { unfold_mir_instr(instr2); }
                            this = this.emit(instr2);
                            return (this, dest);
                        } else {
                            let (next5, at) = this.expr(&**index, child(h, 1));
                            this = next5;
                            let (next6, dest) = this.fresh(e.span, &e.source, None);
                            this = next6;
                            let instr3 = MirInstr::Index { dest, base, index: at };
                            proof { unfold_mir_instr(instr3); }
                            this = this.emit(instr3);
                            return (this, dest);
                        }
                    },
                }
            },
            _ => {
                assert(!(e.kind@ is Index));
                return this.no_value(e);
            },
        }
    }

    /// See [`lowered_slice`].
    pub fn slice(self, e: &Expr, h: Option<&HirExpr>) -> (r: (Flatten, Reg))
        ensures
            r.0@ == lowered_slice(self@, e@, opt_view(h)).0,
            r.1 == lowered_slice(self@, e@, opt_view(h)).1,
        decreases e, 1nat,
    {
        let mut this = self;
        proof { unfold_expr_kind(e.kind); }
        match &e.kind {
            ExprKind::Slice { object, lower, upper, step } => {
                let (next, base) = this.expr(&**object, child(h, 0));
                this = next;
                let upper_at: usize = if lower.is_some() {
                    2usize
                } else {
                    1usize
                };
                let step_at: usize = if upper.is_some() {
                    upper_at + 1
                } else {
                    upper_at
                };
                let (next2, low) = this.opt_expr(lower, child(h, 1));
                this = next2;
                let (next3, high) = this.opt_expr(upper, child(h, upper_at));
                this = next3;
                let (next4, by) = this.opt_expr(step, child(h, step_at));
                this = next4;
                match slice_kind(h) {
                    Some(kind) => {
                        let (next5, dest) = this.fresh(e.span, &e.source, None);
                        this = next5;
                        let instr = MirInstr::Slice {
                            dest,
                            object: base,
                            kind,
                            lower: low,
                            upper: high,
                            step: by,
                            resolved: resolved_callable(h),
                        };
                        proof { unfold_mir_instr(instr); }
                        this = this.emit(instr);
                        return (this, dest);
                    },
                    None => {
                        return this.no_value(e);
                    },
                }
            },
            _ => {
                assert(!(e.kind@ is Slice));
                return this.no_value(e);
            },
        }
    }

    /// See [`lowered_subscripts`].
    pub fn subscript_args(
        self,
        args: &Vec<SubscriptArg>,
        kinds: &Vec<Option<SliceKind>>,
        h: Option<&HirExpr>,
    ) -> (r: (Flatten, Vec<MirSubscriptArg>))
        ensures
            r.0@ == lowered_subscripts(
                self@,
                subscript_arg_list_view(args@),
                kinds@,
                opt_view(h),
                0,
                Seq::<MirSubscriptArgView>::empty(),
                1,
                0,
            ).0,
            mir_subscript_arg_list_view(r.1@) == lowered_subscripts(
                self@,
                subscript_arg_list_view(args@),
                kinds@,
                opt_view(h),
                0,
                Seq::<MirSubscriptArgView>::empty(),
                1,
                0,
            ).1,
        decreases args@, 0nat,
    {
        let mut this = self;
        let mut out: Vec<MirSubscriptArg> = Vec::new();
        assert(mir_subscript_arg_list_view(out@) =~= Seq::<MirSubscriptArgView>::empty());
        let mut k: usize = 1;
        let mut n: usize = 0;
        let ghost goal = lowered_subscripts(
            self@,
            subscript_arg_list_view(args@),
            kinds@,
            opt_view(h),
            0,
            Seq::<MirSubscriptArgView>::empty(),
            1,
            0,
        );
        let mut i: usize = 0;
        while i < args.len()
            invariant
                i <= args@.len(),
                subscript_arg_list_view(args@).len() == args@.len(),
                lowered_subscripts(
                    this@,
                    subscript_arg_list_view(args@),
                    kinds@,
                    opt_view(h),
                    i as nat,
                    mir_subscript_arg_list_view(out@),
                    k,
                    n,
                ) == goal,
                goal == lowered_subscripts(
                    self@,
                    subscript_arg_list_view(args@),
                    kinds@,
                    opt_view(h),
                    0,
                    Seq::<MirSubscriptArgView>::empty(),
                    1,
                    0,
                ),
            decreases args@.len() - i,
        {
            let arg = &args[i];
            assert(subscript_arg_list_view(args@)[i as int] == arg@);
            if n >= kinds.len() {
                return (this, out);
            }
            let (next, (lowered, at)) = this.subscript_arg(arg, kinds[n], h, k);
            this = next;
            match lowered {
                Some(lowered) => {
                    let ghost before = mir_subscript_arg_list_view(out@);
                    let ghost added = lowered@;
                    out.push(lowered);
                    assert(mir_subscript_arg_list_view(out@) =~= before.push(added));
                },
                None => {
                    return (this, out);
                },
            }
            k = at;
            n = next_index(n);
            i = i + 1;
        }
        (this, out)
    }

    /// See [`lowered_subscript`].
    pub fn subscript_arg(
        self,
        arg: &SubscriptArg,
        kind: Option<SliceKind>,
        h: Option<&HirExpr>,
        k: usize,
    ) -> (r: (Flatten, (Option<MirSubscriptArg>, usize)))
        ensures
            r.0@ == lowered_subscript(self@, arg@, kind, opt_view(h), k).0,
            (opt_view(r.1.0), r.1.1) == lowered_subscript(self@, arg@, kind, opt_view(h), k).1,
        decreases arg, 0nat,
    {
        let mut this = self;
        match arg {
            SubscriptArg::Index(value) => {
                let (next, at) = this.expr(value, child(h, k));
                this = next;
                return (this, (Some(MirSubscriptArg::Index(at)), next_index(k)));
            },
            SubscriptArg::Slice { lower, upper, step } => {
                let upper_at: usize = if lower.is_some() {
                    next_index(k)
                } else {
                    k
                };
                let step_at: usize = if upper.is_some() {
                    next_index(upper_at)
                } else {
                    upper_at
                };
                let end: usize = if step.is_some() {
                    next_index(step_at)
                } else {
                    step_at
                };
                let (next2, low) = this.opt_expr(lower, child(h, k));
                this = next2;
                let (next3, high) = this.opt_expr(upper, child(h, upper_at));
                this = next3;
                let (next4, by) = this.opt_expr(step, child(h, step_at));
                this = next4;
                match kind {
                    Some(kind) => {
                        return (
                            this,
                            (
                                Some(
                                    MirSubscriptArg::Slice { kind, lower: low, upper: high, step: by }
                                ),
                                end,
                            ),
                        );
                    },
                    None => {
                        return (this, (None, end));
                    },
                }
            },
        }
    }

    /// See [`lowered_multi_index`].
    pub fn multi_index(self, e: &Expr, h: Option<&HirExpr>) -> (r: (Flatten, Reg))
        ensures
            r.0@ == lowered_multi_index(self@, e@, opt_view(h)).0,
            r.1 == lowered_multi_index(self@, e@, opt_view(h)).1,
        decreases e, 1nat,
    {
        let mut this = self;
        proof { unfold_expr_kind(e.kind); }
        match &e.kind {
            ExprKind::MultiIndex { object, args } => {
                let (next, base) = this.expr(&**object, child(h, 0));
                this = next;
                match find_slices(&fact_adjustments(h)) {
                    Some((kinds, _)) => {
                        let (next2, args) = this.subscript_args(args, &kinds, h);
                        this = next2;
                        let (next3, dest) = this.fresh(e.span, &e.source, None);
                        this = next3;
                        let instr = MirInstr::MultiIndex {
                            dest,
                            object: base,
                            args,
                            resolved: resolved_callable(h),
                        };
                        proof { unfold_mir_instr(instr); }
                        this = this.emit(instr);
                        return (this, dest);
                    },
                    None => {
                        return this.no_value(e);
                    },
                }
            },
            _ => {
                assert(!(e.kind@ is MultiIndex));
                return this.no_value(e);
            },
        }
    }

    /// See [`lowered_template`].
    pub fn template(self, e: &Expr, h: Option<&HirExpr>) -> (r: (Flatten, Reg))
        ensures
            r.0@ == lowered_template(self@, e@, opt_view(h)).0,
            r.1 == lowered_template(self@, e@, opt_view(h)).1,
        decreases e, 1nat,
    {
        let mut this = self;
        proof { unfold_expr_kind(e.kind); }
        match &e.kind {
            ExprKind::TString { parts, .. } => {
                let (next, start) = this.constant(e, Const::Str("".to_owned()));
                this = next;
                return this.template_parts(parts, e, h, start);
            },
            _ => {
                assert(!(e.kind@ is TString));
                return this.no_value(e);
            },
        }
    }

    /// See [`lowered_parts`].
    pub fn template_parts(
        self,
        parts: &Vec<TStringPart>,
        e: &Expr,
        h: Option<&HirExpr>,
        start: Reg,
    ) -> (r: (Flatten, Reg))
        ensures
            r.0@ == lowered_parts(
                self@,
                t_string_part_list_view(parts@),
                e@,
                opt_view(h),
                0,
                start,
                0,
            ).0,
            r.1 == lowered_parts(
                self@,
                t_string_part_list_view(parts@),
                e@,
                opt_view(h),
                0,
                start,
                0,
            ).1,
        decreases parts@, 0nat,
    {
        let mut this = self;
        let mut result: Reg = start;
        let mut k: usize = 0;
        let ghost goal = lowered_parts(
            self@,
            t_string_part_list_view(parts@),
            e@,
            opt_view(h),
            0,
            start,
            0,
        );
        let mut i: usize = 0;
        while i < parts.len()
            invariant
                i <= parts@.len(),
                t_string_part_list_view(parts@).len() == parts@.len(),
                lowered_parts(
                    this@,
                    t_string_part_list_view(parts@),
                    e@,
                    opt_view(h),
                    i as nat,
                    result,
                    k,
                ) == goal,
                goal == lowered_parts(
                    self@,
                    t_string_part_list_view(parts@),
                    e@,
                    opt_view(h),
                    0,
                    start,
                    0,
                ),
            decreases parts@.len() - i,
        {
            let part = &parts[i];
            assert(t_string_part_list_view(parts@)[i as int] == part@);
            let (next, piece) = this.template_part(part, e, child(h, k));
            this = next;
            let (next2, joined) = this.fresh(e.span, &e.source, None);
            this = next2;
            let instr = MirInstr::BinOp { op: InfixOp::Add, dest: joined, a: result, b: piece };
            proof { unfold_mir_instr(instr); }
            this = this.emit(instr);
            result = joined;
            k = if matches!(part, TStringPart::Expr(_)) {
                next_index(k)
            } else {
                k
            };
            i = i + 1;
        }
        (this, result)
    }

    /// See [`lowered_part`].
    pub fn template_part(
        self,
        part: &TStringPart,
        e: &Expr,
        h: Option<&HirExpr>,
    ) -> (r: (Flatten, Reg))
        ensures
            r.0@ == lowered_part(self@, part@, e@, opt_view(h)).0,
            r.1 == lowered_part(self@, part@, e@, opt_view(h)).1,
        decreases part, 0nat,
    {
        let mut this = self;
        match part {
            TStringPart::Literal(text) => {
                return this.constant(e, Const::Str(text.clone()));
            },
            TStringPart::Expr(value) => {
                let (next, arg) = this.expr(&**value, h);
                this = next;
                let (next2, dest) = this.fresh(value.span, &value.source, None);
                this = next2;
                this = this.convert(dest, &"String".to_owned(), arg);
                return (this, dest);
            },
        }
    }

    /// See [`lowered_conversion`].
    pub fn convert(self, dest: Reg, target: &String, arg: Reg) -> (r: Flatten)
        ensures
            r@ == lowered_conversion(self@, dest, target@, arg),
    {
        proof { reveal(lowered_conversion); }
        let mut this = self;
        let ghost seen = arg;
        let list = vec![arg];
        assert(list@ =~= seq![seen]);
        let args = list;
        let item: Option<MirPlace> = None;
        let ghost seen2 = opt_view(item);
        let list2 = vec![item];
        assert(opt_place_list_view(list2@) =~= seq![seen2]);
        let places = list2;
        let kwargs: Vec<(String, Reg)> = Vec::new();
        assert(kw_reg_list_view(kwargs@) =~= Seq::<(Seq<char>, Reg)>::empty());
        let params: Vec<Option<Reg>> = Vec::new();
        let instr = MirInstr::Call {
            dest,
            func: named(target),
            raises: None,
            args,
            kwargs,
            arg_places: places,
            param_arg_regs: params,
        };
        proof { unfold_mir_instr(instr); }
        return this.emit(instr);
    }

    /// See [`lowered_list`].
    pub fn list(self, e: &Expr, h: Option<&HirExpr>) -> (r: (Flatten, Reg))
        ensures
            r.0@ == lowered_list(self@, e@, opt_view(h)).0,
            r.1 == lowered_list(self@, e@, opt_view(h)).1,
        decreases e, 1nat,
    {
        let mut this = self;
        proof { unfold_expr_kind(e.kind); }
        match &e.kind {
            ExprKind::ListLit(values) => {
                let (next, elems) = this.args(values, h, 0);
                this = next;
                let (next2, dest) = this.fresh(e.span, &e.source, None);
                this = next2;
                let instr = MirInstr::MakeList { dest, elems, element_type: list_element(&fact_ty(h)) };
                proof { unfold_mir_instr(instr); }
                this = this.emit(instr);
                return (this, dest);
            },
            ExprKind::TupleLit(values) => {
                let (next3, elems) = this.args(values, h, 0);
                this = next3;
                let (next4, dest) = this.fresh(e.span, &e.source, None);
                this = next4;
                let instr2 = MirInstr::MakeTuple {
                    dest,
                    elems,
                    element_types: tuple_elements(&fact_ty(h)),
                };
                proof { unfold_mir_instr(instr2); }
                this = this.emit(instr2);
                return (this, dest);
            },
            _ => {
                assert(!(e.kind@ is ListLit));
                assert(!(e.kind@ is TupleLit));
                return this.no_value(e);
            },
        }
    }

    /// See [`lowered_brace`].
    pub fn brace(self, e: &Expr, h: Option<&HirExpr>) -> (r: (Flatten, Reg))
        ensures
            r.0@ == lowered_brace(self@, e@, opt_view(h)).0,
            r.1 == lowered_brace(self@, e@, opt_view(h)).1,
        decreases e, 1nat,
    {
        let mut this = self;
        proof { unfold_expr_kind(e.kind); }
        match &e.kind {
            ExprKind::BraceLit(entries) => {
                let (next, dest) = this.fresh(e.span, &e.source, None);
                this = next;
                if is_dictionary(entries, &fact_ty(h)) {
                    let (next2, pairs) = this.brace_pairs(entries, h);
                    this = next2;
                    let instr = MirInstr::MakeDict {
                        dest,
                        entries: pairs,
                        key_type: dict_key(&fact_ty(h)),
                        value_type: dict_value(&fact_ty(h)),
                    };
                    proof { unfold_mir_instr(instr); }
                    this = this.emit(instr);
                } else {
                    let (next3, elems) = this.brace_keys(entries, h);
                    this = next3;
                    let instr2 = MirInstr::MakeSet {
                        dest,
                        elems,
                        element_type: set_element(&fact_ty(h)),
                    };
                    proof { unfold_mir_instr(instr2); }
                    this = this.emit(instr2);
                }
                return (this, dest);
            },
            _ => {
                assert(!(e.kind@ is BraceLit));
                return this.no_value(e);
            },
        }
    }

    /// See [`lowered_pairs`].
    pub fn brace_pairs(
        self,
        entries: &Vec<(Expr, Option<Expr>)>,
        h: Option<&HirExpr>,
    ) -> (r: (Flatten, Vec<(Reg, Reg)>))
        ensures
            r.0@ == lowered_pairs(
                self@,
                entry_list_view(entries@),
                opt_view(h),
                0,
                Seq::<(Reg, Reg)>::empty(),
                0,
            ).0,
            r.1@ == lowered_pairs(
                self@,
                entry_list_view(entries@),
                opt_view(h),
                0,
                Seq::<(Reg, Reg)>::empty(),
                0,
            ).1,
        decreases entries@, 0nat,
    {
        let mut this = self;
        let mut out: Vec<(Reg, Reg)> = Vec::new();
        let mut k: usize = 0;
        let ghost goal = lowered_pairs(
            self@,
            entry_list_view(entries@),
            opt_view(h),
            0,
            Seq::<(Reg, Reg)>::empty(),
            0,
        );
        let mut i: usize = 0;
        while i < entries.len()
            invariant
                i <= entries@.len(),
                entry_list_view(entries@).len() == entries@.len(),
                lowered_pairs(this@, entry_list_view(entries@), opt_view(h), i as nat, out@, k) == goal,
                goal == lowered_pairs(
                    self@,
                    entry_list_view(entries@),
                    opt_view(h),
                    0,
                    Seq::<(Reg, Reg)>::empty(),
                    0,
                ),
            decreases entries@.len() - i,
        {
            let entry = &entries[i];
            assert(entry_list_view(entries@)[i as int].0 =~= entry.0@);
            assert(entry_list_view(entries@)[i as int].1 =~= opt_view(entry.1));
            let (next, key) = this.expr(&entry.0, child(h, k));
            this = next;
            match &entry.1 {
                Some(value) => {
                    let (next2, value) = this.expr(value, child(h, next_index(k)));
                    this = next2;
                    out.push((key, value));
                },
                None => {
                    return (this, out);
                },
            }
            k = next_index(next_index(k));
            i = i + 1;
        }
        (this, out)
    }

    /// See [`lowered_keys`].
    pub fn brace_keys(
        self,
        entries: &Vec<(Expr, Option<Expr>)>,
        h: Option<&HirExpr>,
    ) -> (r: (Flatten, Vec<Reg>))
        ensures
            r.0@ == lowered_keys(
                self@,
                entry_list_view(entries@),
                opt_view(h),
                0,
                Seq::<Reg>::empty(),
                0,
            ).0,
            r.1@ == lowered_keys(
                self@,
                entry_list_view(entries@),
                opt_view(h),
                0,
                Seq::<Reg>::empty(),
                0,
            ).1,
        decreases entries@, 0nat,
    {
        let mut this = self;
        let mut out: Vec<Reg> = Vec::new();
        let mut k: usize = 0;
        let ghost goal = lowered_keys(
            self@,
            entry_list_view(entries@),
            opt_view(h),
            0,
            Seq::<Reg>::empty(),
            0,
        );
        let mut i: usize = 0;
        while i < entries.len()
            invariant
                i <= entries@.len(),
                entry_list_view(entries@).len() == entries@.len(),
                lowered_keys(this@, entry_list_view(entries@), opt_view(h), i as nat, out@, k) == goal,
                goal == lowered_keys(
                    self@,
                    entry_list_view(entries@),
                    opt_view(h),
                    0,
                    Seq::<Reg>::empty(),
                    0,
                ),
            decreases entries@.len() - i,
        {
            let entry = &entries[i];
            assert(entry_list_view(entries@)[i as int].0 =~= entry.0@);
            assert(entry_list_view(entries@)[i as int].1 =~= opt_view(entry.1));
            let (next, key) = this.expr(&entry.0, child(h, k));
            this = next;
            out.push(key);
            k = if entry.1.is_some() {
                next_index(next_index(k))
            } else {
                next_index(k)
            };
            i = i + 1;
        }
        (this, out)
    }
}

#[verifier::opaque]
pub open spec fn chosen_slice_kind(h: Option<HirExprView>) -> Option<SliceKind> {
    match slices_among(known_adjustments(h), 0) {
        Some((kinds, _)) => if kinds.len() > 0 {
            kinds[0]
        } else {
            None
        },
        None => None,
    }
}

/// See [`chosen_slice_kind`].
pub fn slice_kind(h: Option<&HirExpr>) -> (r: Option<SliceKind>)
    ensures
        r == chosen_slice_kind(opt_view(h)),
{
    proof { reveal(chosen_slice_kind); }
    match find_slices(&fact_adjustments(h)) {
        Some((kinds, _)) => {
            if kinds.len() > 0 {
                kinds[0]
            } else {
                None
            }
        },
        None => None,
    }
}

#[verifier::opaque]
pub open spec fn displays_dictionary(
    entries: Seq<(ExprView, Option<ExprView>)>,
    ty: Option<TyView>,
) -> bool {
    let paired = if entries.len() == 0 {
        true
    } else {
        entries[0].1 is Some
    };
    paired && !(element_of_set(ty) is Some)
}

/// See [`displays_dictionary`].
pub fn is_dictionary(entries: &Vec<(Expr, Option<Expr>)>, ty: &Option<Ty>) -> (r: bool)
    ensures
        r == displays_dictionary(entry_list_view(entries@), opt_view(*ty)),
{
    proof { reveal(displays_dictionary); }
    let paired = if entries.len() == 0 {
        true
    } else {
        entries[0].1.is_some()
    };
    paired && !set_element(ty).is_some()
}

#[verifier::opaque]
pub open spec fn element_of_list(ty: Option<TyView>) -> Option<TyView> {
    match ty {
        Some(ty) => match ty {
            TyView::List(element) => Some(*element),
            _ => None,
        },
        None => None,
    }
}

/// See [`element_of_list`].
pub fn list_element(ty: &Option<Ty>) -> (r: Option<Ty>)
    ensures
        opt_view(r) == element_of_list(opt_view(*ty)),
{
    proof { reveal(element_of_list); }
    match ty {
        Some(ty) => {
            proof { unfold_ty(*ty); }
            match ty {
                Ty::List(element) => Some(clone_ty((&**element))),
                _ => {
                    assert(!(ty@ is List));
                    None
                },
            }
        },
        None => None,
    }
}

#[verifier::opaque]
pub open spec fn element_of_set(ty: Option<TyView>) -> Option<TyView> {
    match ty {
        Some(ty) => match ty {
            TyView::SetOf(element) => Some(*element),
            _ => None,
        },
        None => None,
    }
}

/// See [`element_of_set`].
pub fn set_element(ty: &Option<Ty>) -> (r: Option<Ty>)
    ensures
        opt_view(r) == element_of_set(opt_view(*ty)),
{
    proof { reveal(element_of_set); }
    match ty {
        Some(ty) => {
            proof { unfold_ty(*ty); }
            match ty {
                Ty::SetOf(element) => Some(clone_ty((&**element))),
                _ => {
                    assert(!(ty@ is SetOf));
                    None
                },
            }
        },
        None => None,
    }
}

#[verifier::opaque]
pub open spec fn key_of_dict(ty: Option<TyView>) -> Option<TyView> {
    match ty {
        Some(ty) => match ty {
            TyView::Dict(key, _) => Some(*key),
            _ => None,
        },
        None => None,
    }
}

/// See [`key_of_dict`].
pub fn dict_key(ty: &Option<Ty>) -> (r: Option<Ty>)
    ensures
        opt_view(r) == key_of_dict(opt_view(*ty)),
{
    proof { reveal(key_of_dict); }
    match ty {
        Some(ty) => {
            proof { unfold_ty(*ty); }
            match ty {
                Ty::Dict(key, _) => Some(clone_ty((&**key))),
                _ => {
                    assert(!(ty@ is Dict));
                    None
                },
            }
        },
        None => None,
    }
}

#[verifier::opaque]
pub open spec fn value_of_dict(ty: Option<TyView>) -> Option<TyView> {
    match ty {
        Some(ty) => match ty {
            TyView::Dict(_, value) => Some(*value),
            _ => None,
        },
        None => None,
    }
}

/// See [`value_of_dict`].
pub fn dict_value(ty: &Option<Ty>) -> (r: Option<Ty>)
    ensures
        opt_view(r) == value_of_dict(opt_view(*ty)),
{
    proof { reveal(value_of_dict); }
    match ty {
        Some(ty) => {
            proof { unfold_ty(*ty); }
            match ty {
                Ty::Dict(_, value) => Some(clone_ty((&**value))),
                _ => {
                    assert(!(ty@ is Dict));
                    None
                },
            }
        },
        None => None,
    }
}

#[verifier::opaque]
pub open spec fn elements_of_tuple(ty: Option<TyView>) -> Option<Seq<TyView>> {
    match ty {
        Some(ty) => match ty {
            TyView::Tuple(elements) => Some(elements),
            _ => None,
        },
        None => None,
    }
}

/// See [`elements_of_tuple`].
pub fn tuple_elements(ty: &Option<Ty>) -> (r: Option<Vec<Ty>>)
    ensures
        (
            match r { Some(v) => Some(ty_list_view(v@)), None => None }
        ) == elements_of_tuple(opt_view(*ty)),
{
    proof { reveal(elements_of_tuple); }
    match ty {
        Some(ty) => {
            proof { unfold_ty(*ty); }
            match ty {
                Ty::Tuple(elements) => Some(clone_ty_list(elements)),
                _ => {
                    assert(!(ty@ is Tuple));
                    None
                },
            }
        },
        None => None,
    }
}

} // verus!
