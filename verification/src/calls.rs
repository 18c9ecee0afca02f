//! Flattening of calls, and of expressions as a whole.

use crate::ast::{
    Capture, CaptureKind, CaptureView, Expr, ExprKind, ExprKindView, ExprView, InfixOp, PrefixOp,
    capture_list_view, clone_expr, expr_list_view, unfold_expr_kind,
};
use crate::checked::{
    OverloadEntry, OverloadEntryView, SemanticAdjustment, SemanticAdjustmentView,
    overload_entry_list_view, unfold_semantic_adjustment,
};
use crate::comprehensions::lowered_comprehension;
use crate::exprs::{
    elements_of_tuple, lowered_arg_places, lowered_args, lowered_brace, lowered_chain,
    lowered_conversion, lowered_index, lowered_kwargs, lowered_list, lowered_member,
    lowered_multi_index, lowered_no_value, lowered_param_args, lowered_short_circuit,
    lowered_slice, lowered_template, lowered_ternary, lowered_transfer, tuple_elements,
};
use crate::facts::{projected_variant, variant_projection};
use crate::flatten::{
    Flatten, FlattenView, NestedInfo, NestedInfoView, borrow_among, child, child_facts,
    conversion_among, defined, destroys_explicitly, emitted, explicit_destroy_among,
    fact_adjustments, fact_any_ty, fact_raises, fact_ty, find_borrow, find_conversion, find_nested,
    find_pointer, find_simd, find_variant, find_variant_operation, fresh_reg, index_sum, interned,
    is_function, known_adjustments, known_any_ty, known_raises, known_ty, lowered_closure,
    lowered_constant, lowered_identifier, marked_unsupported, names_function, nested_named,
    overloaded_name, place_of_name, plus, pointer_among, resolved_callable, resolved_target,
    simd_among, unresolved_target, variant_among, variant_operation_among, with_reg_type,
};
use crate::hir::{HirExpr, HirExprView};
use crate::mir::{
    Const, ConstView, MirInstr, MirInstrView, MirPlace, MirPlaceView, Proj, ProjView, Reg,
    callee_named, kw_reg_list_view, named, opt_place_list_view, project, projected,
    unfold_mir_instr,
};
use crate::places::{lowered_handle, lowered_pointer_source, lowered_try_place};
use crate::receivers::{consumed_receiver, lowered_receiver};
use crate::text::{cat3, contains_name, opt_view, same_text};
use crate::types::{Ty, TyView, ty_list_view, unfold_ty};
use vstd::prelude::*;

verus! {

/// The variant that an operation is called on.
#[verifier::opaque]
pub open spec fn variant_operand(e: ExprView) -> ExprView {
    match e.kind {
        ExprKindView::Invoke { callee, .. } => match callee.kind {
            ExprKindView::Member { object, .. } => *object,
            _ => e,
        },
        _ => e,
    }
}

/// See [`variant_operand`].
pub fn operand_of(e: &Expr) -> (r: Expr)
    ensures
        r@ == variant_operand(e@),
{
    proof { reveal(variant_operand); }
    proof { unfold_expr_kind(e.kind); }
    match &e.kind {
        ExprKind::Invoke { callee, .. } => {
            proof { unfold_expr_kind(callee.kind); }
            match &callee.kind {
                ExprKind::Member { object, .. } => clone_expr((&**object)),
                _ => {
                    assert(!(callee.kind@ is Member));
                    clone_expr(e)
                },
            }
        },
        _ => {
            assert(!(e.kind@ is Invoke));
            clone_expr(e)
        },
    }
}

/// A call by name.
pub open spec fn lowered_call(
    s: FlattenView,
    e: ExprView,
    h: Option<HirExprView>,
) -> (FlattenView, Reg)
    decreases e, 2nat,
{
    match e.kind {
        ExprKindView::Call { name, args, kwargs, .. } => {
            let adjustments = known_adjustments(h);
            if pointer_among(adjustments, 0) is Some {
                let (s, place) = lowered_pointer_source(
                    s,
                    kwargs,
                    child_facts(h, args.len() as usize),
                    0,
                );
                match place {
                    Some(place) => {
                        let (s, dest) = fresh_reg(s, e.span, e.source, Some(place.root));
                        let s = emitted(s, MirInstrView::MakeRef { dest, place });
                        (s, dest)
                    },
                    None => lowered_no_value(s, e),
                }
            } else {
                match variant_among(adjustments, 0) {
                    Some((alternatives, index)) => lowered_variant(s, e, h, alternatives, index),
                    None => match simd_among(adjustments, 0) {
                        Some((dtype, width)) => {
                            let (s, elems) = lowered_args(s, args, h, 0, Seq::empty(), 0);
                            let (s, dest) = fresh_reg(s, e.span, e.source, None);
                            let s = emitted(
                                s,
                                MirInstrView::MakeSimd { dest, dtype, width, elems },
                            );
                            (s, dest)
                        },
                        None => match nested_named(s.nested, name, 0) {
                            Some(info) => lowered_nested_call(s, e, h, info),
                            None => if s.vars.contains(name) {
                                lowered_local_call(s, e, h)
                            } else {
                                lowered_named_call(s, e, h)
                            },
                        },
                    },
                }
            }
        },
        _ => lowered_no_value(s, e),
    }
}

/// The construction of a variant from its one argument.
pub open spec fn lowered_variant(
    s: FlattenView,
    e: ExprView,
    h: Option<HirExprView>,
    alternatives: Seq<TyView>,
    index: usize,
) -> (FlattenView, Reg)
    decreases e, 1nat,
{
    match e.kind {
        ExprKindView::Call { args, .. } => {
            let (s, payload) = lowered_first_arg(s, args, child_facts(h, 0), 0);
            match payload {
                Some(value) => {
                    let (s, dest) = fresh_reg(s, e.span, e.source, None);
                    let s = emitted(
                        s,
                        MirInstrView::MakeVariant { dest, alternatives, index, value },
                    );
                    (s, dest)
                },
                None => lowered_no_value(s, e),
            }
        },
        _ => lowered_no_value(s, e),
    }
}

pub open spec fn lowered_first_arg(
    s: FlattenView,
    args: Seq<ExprView>,
    h: Option<HirExprView>,
    i: nat,
) -> (FlattenView, Option<Reg>)
    decreases args, (args.len() - i) as nat,
{
    if i >= args.len() {
        (s, None)
    } else {
        let arg = args[i as int];
        let (s, reg) = lowered_value(s, arg, h);
        (s, Some(reg))
    }
}

/// A call of a nested function, through its closure.
pub open spec fn lowered_nested_call(
    s: FlattenView,
    e: ExprView,
    h: Option<HirExprView>,
    info: NestedInfoView,
) -> (FlattenView, Reg)
    decreases e, 1nat,
{
    match e.kind {
        ExprKindView::Call { args, .. } => {
            let (s, callee) = lowered_closure(s, e, info);
            let (s, regs) = lowered_args(s, args, h, 0, Seq::empty(), 0);
            let (s, dest) = fresh_reg(s, e.span, e.source, None);
            let kwargs = Seq::<(Seq<char>, Reg)>::empty();
            let s = emitted(
                s,
                MirInstrView::CallIndirect {
                    dest,
                    callee,
                    raises: known_raises(h),
                    args: regs,
                    kwargs,
                },
            );
            let s = kept_alive(s, info.captures, 0);
            (s, dest)
        },
        _ => lowered_no_value(s, e),
    }
}

/// What a closure captured by reference lives on after its call.
pub open spec fn kept_alive(s: FlattenView, captures: Seq<CaptureView>, i: nat) -> FlattenView
    decreases captures, (captures.len() - i) as nat,
{
    if i >= captures.len() {
        s
    } else {
        let capture = captures[i as int];
        if capture.kind != CaptureKind::Move {
            let (s, var) = interned(s, capture.name);
            let s = emitted(s, MirInstrView::KeepAlive { var });
            kept_alive(s, captures, i + 1)
        } else {
            kept_alive(s, captures, i + 1)
        }
    }
}

/// A call of a local variable that holds a function.
pub open spec fn lowered_local_call(
    s: FlattenView,
    e: ExprView,
    h: Option<HirExprView>,
) -> (FlattenView, Reg)
    decreases e, 1nat,
{
    match e.kind {
        ExprKindView::Call { name, args, kwargs, .. } => {
            let (s, callee) = lowered_identifier(s, e, name, None);
            let (s, regs) = lowered_args(s, args, h, 0, Seq::empty(), 0);
            let (s, kw) = lowered_kwargs(s, kwargs, h, 0, Seq::empty(), args.len() as usize);
            let (s, dest) = fresh_reg(s, e.span, e.source, None);
            let s = emitted(
                s,
                MirInstrView::CallIndirect {
                    dest,
                    callee,
                    raises: known_raises(h),
                    args: regs,
                    kwargs: kw,
                },
            );
            (s, dest)
        },
        _ => lowered_no_value(s, e),
    }
}

/// A call of a function, constructor or builtin. `Tuple` is built in place.
pub open spec fn lowered_named_call(
    s: FlattenView,
    e: ExprView,
    h: Option<HirExprView>,
) -> (FlattenView, Reg)
    decreases e, 1nat,
{
    match e.kind {
        ExprKindView::Call {
            name,
            param_args,
            args,
            kwargs,
        } => if name == "Tuple"@ && kwargs.len() == 0 && !names_function(s.overloads.functions, name, 0) {
            let (s, regs) = lowered_args(s, args, h, 0, Seq::empty(), 0);
            let (s, dest) = fresh_reg(s, e.span, e.source, None);
            let s = emitted(
                s,
                MirInstrView::MakeTuple {
                    dest,
                    elems: regs,
                    element_types: elements_of_tuple(known_ty(h)),
                },
            );
            (s, dest)
        } else {
            let (s, params) = lowered_param_args(s, param_args, 0, Seq::empty());
            let (s, regs) = lowered_args(s, args, h, 0, Seq::empty(), 0);
            let (s, places) = lowered_arg_places(s, args, h, 0, Seq::empty(), 0);
            let (s, kw) = lowered_kwargs(s, kwargs, h, 0, Seq::empty(), args.len() as usize);
            let target = target_of_call(h, s.overloads.functions, name, args.len() as usize);
            let (s, dest) = fresh_reg(s, e.span, e.source, None);
            let s = emitted(
                s,
                MirInstrView::Call {
                    dest,
                    func: callee_named(target),
                    raises: known_raises(h),
                    args: regs,
                    kwargs: kw,
                    arg_places: places,
                    param_arg_regs: params,
                },
            );
            (s, dest)
        },
        _ => lowered_no_value(s, e),
    }
}

/// A call of a value. On a member it may be an operation on a variant.
pub open spec fn lowered_invoke(
    s: FlattenView,
    e: ExprView,
    h: Option<HirExprView>,
) -> (FlattenView, Reg)
    decreases e, 3nat,
{
    match e.kind {
        ExprKindView::Invoke {
            callee,
            args,
            kwargs,
            ..
        } => match variant_operation_among(known_adjustments(h), 0) {
            Some(operation) => lowered_variant_operation(s, e, h, operation),
            None => {
                let (s, target) = lowered_value(s, *callee, child_facts(h, 0));
                let (s, regs) = lowered_args(s, args, h, 0, Seq::empty(), 1);
                let (s, kw) = lowered_kwargs(
                    s,
                    kwargs,
                    h,
                    0,
                    Seq::empty(),
                    index_sum(1, args.len() as usize),
                );
                let (s, dest) = fresh_reg(s, e.span, e.source, None);
                let s = emitted(
                    s,
                    MirInstrView::CallIndirect {
                        dest,
                        callee: target,
                        raises: known_raises(h),
                        args: regs,
                        kwargs: kw,
                    },
                );
                (s, dest)
            },
        },
        _ => lowered_no_value(s, e),
    }
}

/// The place that a member is looked up in.
pub open spec fn lowered_owner_place(
    s: FlattenView,
    e: ExprView,
    h: Option<HirExprView>,
) -> (FlattenView, Option<MirPlaceView>)
    decreases e, 0nat,
{
    match e.kind {
        ExprKindView::Member { object, .. } => lowered_try_place(
            s,
            *object,
            child_facts(h, 0),
            false,
        ),
        _ => (s, None),
    }
}

/// The place of the variant an operation is called on.
pub open spec fn lowered_operand_place(
    s: FlattenView,
    e: ExprView,
    h: Option<HirExprView>,
) -> (FlattenView, Option<MirPlaceView>)
    decreases e, 0nat,
{
    match e.kind {
        ExprKindView::Invoke { callee, .. } => lowered_owner_place(s, *callee, child_facts(h, 0)),
        _ => (s, None),
    }
}

/// The value that a member is looked up in.
pub open spec fn lowered_owner_value(
    s: FlattenView,
    e: ExprView,
    h: Option<HirExprView>,
    call: ExprView,
) -> (FlattenView, Reg)
    decreases e, 0nat,
{
    match e.kind {
        ExprKindView::Member { object, .. } => lowered_value(s, *object, child_facts(h, 0)),
        _ => lowered_no_value(s, call),
    }
}

/// The value of the variant an operation is called on.
pub open spec fn lowered_operand_value(
    s: FlattenView,
    e: ExprView,
    h: Option<HirExprView>,
) -> (FlattenView, Reg)
    decreases e, 0nat,
{
    match e.kind {
        ExprKindView::Invoke { callee, .. } => lowered_owner_value(
            s,
            *callee,
            child_facts(h, 0),
            e,
        ),
        _ => lowered_no_value(s, e),
    }
}

/// The payload of an operation on a variant.
pub open spec fn lowered_operand_payload(
    s: FlattenView,
    e: ExprView,
    h: Option<HirExprView>,
) -> (FlattenView, Option<Reg>)
    decreases e, 0nat,
{
    match e.kind {
        ExprKindView::Invoke { args, .. } => lowered_first_arg(s, args, child_facts(h, 1), 0),
        _ => (s, None),
    }
}

pub open spec fn lowered_variant_test(
    s: FlattenView,
    e: ExprView,
    h: Option<HirExprView>,
    index: usize,
) -> (FlattenView, Reg)
    decreases e, 1nat,
{
    let (s, variant) = lowered_operand_value(s, e, h);
    emitted_variant_is(s, e, variant, index)
}

pub open spec fn lowered_variant_store(
    s: FlattenView,
    e: ExprView,
    h: Option<HirExprView>,
    index: usize,
) -> (FlattenView, Reg)
    decreases e, 1nat,
{
    let (s, place) = lowered_operand_place(s, e, h);
    let (s, value) = lowered_operand_payload(s, e, h);
    emitted_variant_set(s, e, place, value, index)
}

pub open spec fn lowered_variant_taking(
    s: FlattenView,
    e: ExprView,
    h: Option<HirExprView>,
    index: usize,
    checked: bool,
) -> (FlattenView, Reg)
    decreases e, 1nat,
{
    let (s, place) = lowered_operand_place(s, e, h);
    emitted_variant_take(s, e, variant_operand(e), place, index, checked)
}

pub open spec fn lowered_variant_exchange(
    s: FlattenView,
    e: ExprView,
    h: Option<HirExprView>,
    input_index: usize,
    output_index: usize,
    checked: bool,
) -> (FlattenView, Reg)
    decreases e, 1nat,
{
    let (s, place) = lowered_operand_place(s, e, h);
    let (s, value) = lowered_operand_payload(s, e, h);
    emitted_variant_replace(s, e, place, value, input_index, output_index, checked)
}

/// An operation on a variant.
pub open spec fn lowered_variant_operation(
    s: FlattenView,
    e: ExprView,
    h: Option<HirExprView>,
    operation: SemanticAdjustmentView,
) -> (FlattenView, Reg)
    decreases e, 2nat,
{
    match operation {
        SemanticAdjustmentView::VariantIs { index } => lowered_variant_test(s, e, h, index),
        SemanticAdjustmentView::VariantTypeSupported { supported } => lowered_constant(
            s,
            e,
            ConstView::Bool(supported),
        ),
        SemanticAdjustmentView::VariantSet { index } => lowered_variant_store(s, e, h, index),
        SemanticAdjustmentView::VariantTake { index, checked } => lowered_variant_taking(
            s,
            e,
            h,
            index,
            checked,
        ),
        SemanticAdjustmentView::VariantReplace { input_index, output_index, checked } => lowered_variant_exchange(
            s,
            e,
            h,
            input_index,
            output_index,
            checked,
        ),
        _ => lowered_no_value(s, e),
    }
}

#[verifier::opaque]
pub open spec fn emitted_variant_is(
    s: FlattenView,
    e: ExprView,
    variant: Reg,
    index: usize,
) -> (FlattenView, Reg) {
    let (s, dest) = fresh_reg(s, e.span, e.source, None);
    let s = emitted(s, MirInstrView::VariantIs { dest, variant, index });
    (s, dest)
}

#[verifier::opaque]
pub open spec fn emitted_variant_set(
    s: FlattenView,
    e: ExprView,
    place: Option<MirPlaceView>,
    value: Option<Reg>,
    index: usize,
) -> (FlattenView, Reg) {
    match (place, value) {
        (Some(place), Some(value)) => {
            let (s, dest) = fresh_reg(s, e.span, e.source, None);
            let s = emitted(s, MirInstrView::VariantSet { dest, place, index, value });
            (s, dest)
        },
        _ => lowered_no_value(s, e),
    }
}

#[verifier::opaque]
pub open spec fn emitted_variant_take(
    s: FlattenView,
    e: ExprView,
    object: ExprView,
    place: Option<MirPlaceView>,
    index: usize,
    checked: bool,
) -> (FlattenView, Reg) {
    match place {
        Some(place) => {
            let (s, variant) = fresh_reg(s, object.span, object.source, None);
            let s = emitted(s, MirInstrView::MovePlace { dest: variant, place });
            let (s, dest) = fresh_reg(s, e.span, e.source, None);
            let s = emitted(s, MirInstrView::VariantTake { dest, variant, index, checked });
            (s, dest)
        },
        None => lowered_no_value(s, e),
    }
}

#[verifier::opaque]
pub open spec fn emitted_variant_replace(
    s: FlattenView,
    e: ExprView,
    place: Option<MirPlaceView>,
    value: Option<Reg>,
    input_index: usize,
    output_index: usize,
    checked: bool,
) -> (FlattenView, Reg) {
    match (place, value) {
        (Some(place), Some(value)) => {
            let (s, dest) = fresh_reg(s, e.span, e.source, None);
            let s = emitted(
                s,
                MirInstrView::VariantReplace {
                    dest,
                    place,
                    input_index,
                    output_index,
                    value,
                    checked,
                },
            );
            (s, dest)
        },
        _ => lowered_no_value(s, e),
    }
}

/// A method call. On a type it is a direct call of the type's function.
pub open spec fn lowered_method(
    s: FlattenView,
    e: ExprView,
    h: Option<HirExprView>,
) -> (FlattenView, Reg)
    decreases e, 4nat,
{
    match e.kind {
        ExprKindView::MethodCall { object, method, .. } => match object.kind {
            ExprKindView::Identifier(name) => if s.vars.contains(name) {
                lowered_value_method(s, e, h)
            } else {
                let target = match resolved_target(h) {
                    Some(target) => target,
                    None => name + "."@ + method,
                };
                lowered_type_method(s, e, h, target, true)
            },
            ExprKindView::TypeApply { name, .. } => lowered_type_method(s, e, h, name + "."@ + method, false),
            _ => lowered_value_method(s, e, h),
        },
        _ => lowered_no_value(s, e),
    }
}

pub open spec fn lowered_type_method(
    s: FlattenView,
    e: ExprView,
    h: Option<HirExprView>,
    target: Seq<char>,
    with_places: bool,
) -> (FlattenView, Reg)
    decreases e, 1nat,
{
    match e.kind {
        ExprKindView::MethodCall { args, kwargs, .. } => {
            let (s, regs) = lowered_args(s, args, h, 0, Seq::empty(), 1);
            let (s, kw) = lowered_kwargs(
                s,
                kwargs,
                h,
                0,
                Seq::empty(),
                index_sum(1, args.len() as usize),
            );
            let (s, dest) = fresh_reg(s, e.span, e.source, None);
            let (s, places) = if with_places {
                lowered_arg_places(s, args, h, 0, Seq::empty(), 1)
            } else {
                (s, places_unknown(args, 0, Seq::empty()))
            };
            let params = Seq::<Option<Reg>>::empty();
            let s = emitted(
                s,
                MirInstrView::Call {
                    dest,
                    func: callee_named(target),
                    raises: known_raises(h),
                    args: regs,
                    kwargs: kw,
                    arg_places: places,
                    param_arg_regs: params,
                },
            );
            (s, dest)
        },
        _ => lowered_no_value(s, e),
    }
}

#[verifier::opaque]
pub open spec fn emitted_method(
    s: FlattenView,
    e: ExprView,
    h: Option<HirExprView>,
    method: Seq<char>,
    recv: Reg,
    args: Seq<Reg>,
    kwargs: Seq<(Seq<char>, Reg)>,
    back: Option<MirPlaceView>,
    places: Seq<Option<MirPlaceView>>,
) -> (FlattenView, Reg) {
    let (s, dest) = fresh_reg(s, e.span, e.source, None);
    let s = emitted(
        s,
        MirInstrView::MethodCall {
            dest,
            recv,
            method,
            resolved: resolved_target(h),
            raises: known_raises(h),
            args,
            kwargs,
            recv_place: back,
            arg_places: places,
        },
    );
    (s, dest)
}

/// A method call on a value. A receiver that is a place is read through it and
/// can be written back; an explicit destructor consumes it.
pub open spec fn lowered_value_method(
    s: FlattenView,
    e: ExprView,
    h: Option<HirExprView>,
) -> (FlattenView, Reg)
    decreases e, 3nat,
{
    match e.kind {
        ExprKindView::MethodCall { method, args, kwargs, .. } => {
            let destroy = explicit_destroy_among(known_adjustments(h), 0);
            let (s, (recv, place)) = lowered_receiver(s, e, h, destroy);
            let (s, regs) = lowered_args(s, args, h, 0, Seq::empty(), 1);
            let (s, kw) = lowered_kwargs(
                s,
                kwargs,
                h,
                0,
                Seq::empty(),
                index_sum(1, args.len() as usize),
            );
            let (s, places) = lowered_arg_places(s, args, h, 0, Seq::empty(), 1);
            let back = if destroy {
                None
            } else {
                place
            };
            let (s, dest) = emitted_method(s, e, h, method, recv, regs, kw, back, places);
            let s = if destroy {
                let s = consumed_receiver(s, e, h, recv);
                s
            } else {
                s
            };
            (s, dest)
        },
        _ => lowered_no_value(s, e),
    }
}

/// An expression as a value in a register, whose type is recorded.
pub open spec fn lowered_value(
    s: FlattenView,
    e: ExprView,
    h: Option<HirExprView>,
) -> (FlattenView, Reg)
    decreases e, 9nat,
{
    let (s, reg) = lowered_adjusted(s, e, h);
    let s = with_reg_type(s, reg, known_ty(h));
    (s, reg)
}

/// An expression after what the checker adjusted: a borrow, or a conversion.
pub open spec fn lowered_adjusted(
    s: FlattenView,
    e: ExprView,
    h: Option<HirExprView>,
) -> (FlattenView, Reg)
    decreases e, 8nat,
{
    let adjustments = known_adjustments(h);
    if borrow_among(adjustments, 0) is Some {
        lowered_handle(s, e, h)
    } else {
        match conversion_among(adjustments, 0) {
            Some(target) => {
                let (s, arg) = lowered_unconverted(s, e, h);
                let (s, dest) = fresh_reg(s, e.span, e.source, None);
                let s = lowered_conversion(s, dest, target, arg);
                (s, dest)
            },
            None => lowered_unconverted(s, e, h),
        }
    }
}

/// An expression without adjustments: its parts from left to right, then one
/// instruction of its own.
pub open spec fn lowered_unconverted(
    s: FlattenView,
    e: ExprView,
    h: Option<HirExprView>,
) -> (FlattenView, Reg)
    decreases e, 6nat,
{
    match e.kind {
        ExprKindView::Int(n) => lowered_constant(s, e, ConstView::Int(n)),
        ExprKindView::Float(bits) => lowered_constant(s, e, ConstView::Float(bits)),
        ExprKindView::Bool(b) => lowered_constant(s, e, ConstView::Bool(b)),
        ExprKindView::Str(text) => lowered_constant(s, e, ConstView::Str(text)),
        ExprKindView::NoneLit => lowered_constant(s, e, ConstView::NoneValue),
        ExprKindView::Uninitialized => lowered_constant(s, e, ConstView::NoneValue),
        ExprKindView::Spread(_) => lowered_spread(s, e),
        ExprKindView::Identifier(name) => lowered_identifier(s, e, name, h),
        ExprKindView::TypeApply { name, .. } => lowered_type_apply(s, e, name, h),
        ExprKindView::TypeValue(_) => lowered_no_value(s, e),
        ExprKindView::Prefix(_, _) => lowered_operation(s, e, h),
        ExprKindView::Infix(_, _, _) => lowered_operation(s, e, h),
        ExprKindView::Named { .. } => lowered_operation(s, e, h),
        ExprKindView::Transfer(_) => lowered_operation(s, e, h),
        ExprKindView::Call { .. } => lowered_application(s, e, h),
        ExprKindView::Invoke { .. } => lowered_application(s, e, h),
        ExprKindView::MethodCall { .. } => lowered_application(s, e, h),
        ExprKindView::Member { .. } => lowered_access(s, e, h),
        ExprKindView::Index { .. } => lowered_access(s, e, h),
        ExprKindView::Slice { .. } => lowered_access(s, e, h),
        ExprKindView::MultiIndex { .. } => lowered_access(s, e, h),
        ExprKindView::IfExpr { .. } => lowered_choice(s, e, h),
        ExprKindView::Compare { .. } => lowered_choice(s, e, h),
        ExprKindView::ListLit(_) => lowered_display(s, e, h),
        ExprKindView::TupleLit(_) => lowered_display(s, e, h),
        ExprKindView::BraceLit(_) => lowered_display(s, e, h),
        ExprKindView::Comprehension { .. } => lowered_display(s, e, h),
        ExprKindView::TString { .. } => lowered_display(s, e, h),
    }
}

pub open spec fn lowered_application(
    s: FlattenView,
    e: ExprView,
    h: Option<HirExprView>,
) -> (FlattenView, Reg)
    decreases e, 5nat,
{
    match e.kind {
        ExprKindView::Call { .. } => lowered_call(s, e, h),
        ExprKindView::Invoke { .. } => lowered_invoke(s, e, h),
        ExprKindView::MethodCall { .. } => lowered_method(s, e, h),
        _ => lowered_no_value(s, e),
    }
}

pub open spec fn lowered_access(
    s: FlattenView,
    e: ExprView,
    h: Option<HirExprView>,
) -> (FlattenView, Reg)
    decreases e, 5nat,
{
    match e.kind {
        ExprKindView::Member { .. } => lowered_member(s, e, h),
        ExprKindView::Index { .. } => lowered_index(s, e, h),
        ExprKindView::Slice { .. } => lowered_slice(s, e, h),
        ExprKindView::MultiIndex { .. } => lowered_multi_index(s, e, h),
        _ => lowered_no_value(s, e),
    }
}

pub open spec fn lowered_choice(
    s: FlattenView,
    e: ExprView,
    h: Option<HirExprView>,
) -> (FlattenView, Reg)
    decreases e, 5nat,
{
    match e.kind {
        ExprKindView::IfExpr { .. } => lowered_ternary(s, e, h),
        ExprKindView::Compare { .. } => lowered_chain(s, e, h),
        _ => lowered_no_value(s, e),
    }
}

pub open spec fn lowered_display(
    s: FlattenView,
    e: ExprView,
    h: Option<HirExprView>,
) -> (FlattenView, Reg)
    decreases e, 5nat,
{
    match e.kind {
        ExprKindView::ListLit(_) => lowered_list(s, e, h),
        ExprKindView::TupleLit(_) => lowered_list(s, e, h),
        ExprKindView::BraceLit(_) => lowered_brace(s, e, h),
        ExprKindView::Comprehension { .. } => lowered_comprehension(s, e, h),
        ExprKindView::TString { .. } => lowered_template(s, e, h),
        _ => lowered_no_value(s, e),
    }
}

/// A unary or binary operation, a binding, or a move. `and` and `or` branch.
pub open spec fn lowered_operation(
    s: FlattenView,
    e: ExprView,
    h: Option<HirExprView>,
) -> (FlattenView, Reg)
    decreases e, 5nat,
{
    match e.kind {
        ExprKindView::Prefix(op, value) => {
            let (s, a) = lowered_value(s, *value, child_facts(h, 0));
            emitted_unary(s, e, op, a)
        },
        ExprKindView::Infix(op, left, right) => if op == InfixOp::And || op == InfixOp::Or {
            lowered_short_circuit(s, e, h)
        } else {
            let (s, a) = lowered_value(s, *left, child_facts(h, 0));
            let (s, b) = lowered_value(s, *right, child_facts(h, 1));
            emitted_binary(s, e, op, a, b)
        },
        ExprKindView::Named { name, value } => {
            let (s, reg) = lowered_value(s, *value, child_facts(h, 0));
            let (s, var) = interned(s, name);
            let s = defined(s, var, reg, None);
            (s, reg)
        },
        ExprKindView::Transfer(_) => lowered_transfer(s, e, h),
        _ => lowered_no_value(s, e),
    }
}

#[verifier::opaque]
pub open spec fn emitted_unary(
    s: FlattenView,
    e: ExprView,
    op: PrefixOp,
    a: Reg,
) -> (FlattenView, Reg) {
    let (s, dest) = fresh_reg(s, e.span, e.source, None);
    let s = emitted(s, MirInstrView::UnOp { op, dest, a });
    (s, dest)
}

#[verifier::opaque]
pub open spec fn emitted_binary(
    s: FlattenView,
    e: ExprView,
    op: InfixOp,
    a: Reg,
    b: Reg,
) -> (FlattenView, Reg) {
    let (s, dest) = fresh_reg(s, e.span, e.source, None);
    let s = emitted(s, MirInstrView::BinOp { op, dest, a, b });
    (s, dest)
}

/// A type with arguments is a value only as the alternative of a variant.
#[verifier::opaque]
pub open spec fn lowered_type_apply(
    s: FlattenView,
    e: ExprView,
    name: Seq<char>,
    h: Option<HirExprView>,
) -> (FlattenView, Reg) {
    let (s, place) = lowered_variant_read(s, name, h);
    match place {
        Some(place) => {
            let (s, dest) = fresh_reg(s, e.span, e.source, Some(place.root));
            let s = emitted(s, MirInstrView::LoadPlace { dest, place });
            (s, dest)
        },
        None => lowered_no_value(s, e),
    }
}

/// An unexpanded spread has no value.
#[verifier::opaque]
pub open spec fn lowered_spread(s: FlattenView, e: ExprView) -> (FlattenView, Reg) {
    let (s, dest) = fresh_reg(s, e.span, e.source, None);
    let s = marked_unsupported(s, "unexpanded call spread reached MIR lowering"@);
    let s = emitted(s, MirInstrView::Const { dest, k: ConstView::NoneValue });
    (s, dest)
}

/// The alternative of a variant that is read. A variable whose type is not
/// known yet has the type of the variant.
#[verifier::opaque]
pub open spec fn lowered_variant_read(
    s: FlattenView,
    name: Seq<char>,
    h: Option<HirExprView>,
) -> (FlattenView, Option<MirPlaceView>) {
    match projected_variant(known_adjustments(h), 0) {
        Some((alternatives, index)) => match known_any_ty(h) {
            Some(ty) => {
                let (s, base) = place_of_name(s, name);
                let root = if base.root_ty is None {
                    with_variant_root(base, alternatives)
                } else {
                    base
                };
                (s, Some(projected(root, ProjView::Variant(index), ty)))
            },
            None => (s, None),
        },
        None => (s, None),
    }
}

impl Flatten {
    /// See [`lowered_call`].
    pub fn call(self, e: &Expr, h: Option<&HirExpr>) -> (r: (Flatten, Reg))
        ensures
            r.0@ == lowered_call(self@, e@, opt_view(h)).0,
            r.1 == lowered_call(self@, e@, opt_view(h)).1,
        decreases e, 2nat,
    {
        let mut this = self;
        proof { unfold_expr_kind(e.kind); }
        match &e.kind {
            ExprKind::Call { name, args, kwargs, .. } => {
                let adjustments = fact_adjustments(h);
                if find_pointer(&adjustments).is_some() {
                    let (next, place) = this.pointer_source(kwargs, child(h, args.len()));
                    this = next;
                    match place {
                        Some(place) => {
                            let (next2, dest) = this.fresh(e.span, &e.source, Some(place.root));
                            this = next2;
                            let instr = MirInstr::MakeRef { dest, place };
                            proof { unfold_mir_instr(instr); }
                            this = this.emit(instr);
                            return (this, dest);
                        },
                        None => {
                            return this.no_value(e);
                        },
                    }
                } else {
                    match find_variant(&adjustments) {
                        Some((alternatives, index)) => {
                            return this.construct_variant(e, h, alternatives, index);
                        },
                        None => {
                            match find_simd(&adjustments) {
                                Some((dtype, width)) => {
                                    let (next3, elems) = this.args(args, h, 0);
                                    this = next3;
                                    let (next4, dest) = this.fresh(e.span, &e.source, None);
                                    this = next4;
                                    let instr2 = MirInstr::MakeSimd { dest, dtype, width, elems };
                                    proof { unfold_mir_instr(instr2); }
                                    this = this.emit(instr2);
                                    return (this, dest);
                                },
                                None => {
                                    match find_nested(&this.nested, name) {
                                        Some(info) => {
                                            return this.nested_call(e, h, &info);
                                        },
                                        None => {
                                            if contains_name(&this.vars, name) {
                                                return this.local_call(e, h);
                                            } else {
                                                return this.named_call(e, h);
                                            }
                                        },
                                    }
                                },
                            }
                        },
                    }
                }
            },
            _ => {
                assert(!(e.kind@ is Call));
                return this.no_value(e);
            },
        }
    }

    /// See [`lowered_variant`].
    pub fn construct_variant(
        self,
        e: &Expr,
        h: Option<&HirExpr>,
        alternatives: Vec<Ty>,
        index: usize,
    ) -> (r: (Flatten, Reg))
        ensures
            r.0@ == lowered_variant(self@, e@, opt_view(h), ty_list_view(alternatives@), index).0,
            r.1 == lowered_variant(self@, e@, opt_view(h), ty_list_view(alternatives@), index).1,
        decreases e, 1nat,
    {
        let mut this = self;
        proof { unfold_expr_kind(e.kind); }
        match &e.kind {
            ExprKind::Call { args, .. } => {
                let (next, payload) = this.first_arg(args, child(h, 0));
                this = next;
                match payload {
                    Some(value) => {
                        let (next2, dest) = this.fresh(e.span, &e.source, None);
                        this = next2;
                        let instr = MirInstr::MakeVariant { dest, alternatives, index, value };
                        proof { unfold_mir_instr(instr); }
                        this = this.emit(instr);
                        return (this, dest);
                    },
                    None => {
                        return this.no_value(e);
                    },
                }
            },
            _ => {
                assert(!(e.kind@ is Call));
                return this.no_value(e);
            },
        }
    }

    /// See [`lowered_first_arg`].
    pub fn first_arg(self, args: &Vec<Expr>, h: Option<&HirExpr>) -> (r: (Flatten, Option<Reg>))
        ensures
            r.0@ == lowered_first_arg(self@, expr_list_view(args@), opt_view(h), 0).0,
            r.1 == lowered_first_arg(self@, expr_list_view(args@), opt_view(h), 0).1,
        decreases args@, 0nat,
    {
        let mut this = self;
        let ghost goal = lowered_first_arg(self@, expr_list_view(args@), opt_view(h), 0);
        let mut i: usize = 0;
        while i < args.len()
            invariant
                i <= args@.len(),
                expr_list_view(args@).len() == args@.len(),
                lowered_first_arg(this@, expr_list_view(args@), opt_view(h), i as nat) == goal,
                goal == lowered_first_arg(self@, expr_list_view(args@), opt_view(h), 0),
            decreases args@.len() - i,
        {
            let arg = &args[i];
            assert(expr_list_view(args@)[i as int] == arg@);
            let (next, reg) = this.expr(arg, h);
            this = next;
            return (this, Some(reg));
        }
        (this, None)
    }

    /// See [`lowered_nested_call`].
    pub fn nested_call(
        self,
        e: &Expr,
        h: Option<&HirExpr>,
        info: &NestedInfo,
    ) -> (r: (Flatten, Reg))
        ensures
            r.0@ == lowered_nested_call(self@, e@, opt_view(h), info@).0,
            r.1 == lowered_nested_call(self@, e@, opt_view(h), info@).1,
        decreases e, 1nat,
    {
        let mut this = self;
        proof { unfold_expr_kind(e.kind); }
        match &e.kind {
            ExprKind::Call { args, .. } => {
                let (next, callee) = this.make_closure(e, info);
                this = next;
                let (next2, regs) = this.args(args, h, 0);
                this = next2;
                let (next3, dest) = this.fresh(e.span, &e.source, None);
                this = next3;
                let kwargs: Vec<(String, Reg)> = Vec::new();
                assert(kw_reg_list_view(kwargs@) =~= Seq::<(Seq<char>, Reg)>::empty());
                let instr = MirInstr::CallIndirect {
                    dest,
                    callee,
                    raises: fact_raises(h),
                    args: regs,
                    kwargs,
                };
                proof { unfold_mir_instr(instr); }
                this = this.emit(instr);
                this = this.keep_alive(&info.captures);
                return (this, dest);
            },
            _ => {
                assert(!(e.kind@ is Call));
                return this.no_value(e);
            },
        }
    }

    /// See [`kept_alive`].
    pub fn keep_alive(self, captures: &Vec<Capture>) -> (r: Flatten)
        ensures
            r@ == kept_alive(self@, capture_list_view(captures@), 0),
        decreases captures@, 0nat,
    {
        let mut this = self;
        let ghost goal = kept_alive(self@, capture_list_view(captures@), 0);
        let mut i: usize = 0;
        while i < captures.len()
            invariant
                i <= captures@.len(),
                capture_list_view(captures@).len() == captures@.len(),
                kept_alive(this@, capture_list_view(captures@), i as nat) == goal,
                goal == kept_alive(self@, capture_list_view(captures@), 0),
            decreases captures@.len() - i,
        {
            let capture = &captures[i];
            assert(capture_list_view(captures@)[i as int] == capture@);
            if capture.kind != CaptureKind::Move {
                let (next, var) = this.var(&capture.name);
                this = next;
                let instr = MirInstr::KeepAlive { var };
                proof { unfold_mir_instr(instr); }
                this = this.emit(instr);
            }
            i = i + 1;
        }
        this
    }

    /// See [`lowered_local_call`].
    pub fn local_call(self, e: &Expr, h: Option<&HirExpr>) -> (r: (Flatten, Reg))
        ensures
            r.0@ == lowered_local_call(self@, e@, opt_view(h)).0,
            r.1 == lowered_local_call(self@, e@, opt_view(h)).1,
        decreases e, 1nat,
    {
        let mut this = self;
        proof { unfold_expr_kind(e.kind); }
        match &e.kind {
            ExprKind::Call { name, args, kwargs, .. } => {
                let (next, callee) = this.identifier(e, name, None);
                this = next;
                let (next2, regs) = this.args(args, h, 0);
                this = next2;
                let (next3, kw) = this.kwargs(kwargs, h, args.len());
                this = next3;
                let (next4, dest) = this.fresh(e.span, &e.source, None);
                this = next4;
                let instr = MirInstr::CallIndirect {
                    dest,
                    callee,
                    raises: fact_raises(h),
                    args: regs,
                    kwargs: kw,
                };
                proof { unfold_mir_instr(instr); }
                this = this.emit(instr);
                return (this, dest);
            },
            _ => {
                assert(!(e.kind@ is Call));
                return this.no_value(e);
            },
        }
    }

    /// See [`lowered_named_call`].
    pub fn named_call(self, e: &Expr, h: Option<&HirExpr>) -> (r: (Flatten, Reg))
        ensures
            r.0@ == lowered_named_call(self@, e@, opt_view(h)).0,
            r.1 == lowered_named_call(self@, e@, opt_view(h)).1,
        decreases e, 1nat,
    {
        let mut this = self;
        proof { unfold_expr_kind(e.kind); }
        match &e.kind {
            ExprKind::Call { name, param_args, args, kwargs } => {
                if same_text(name.as_str(), "Tuple") && kwargs.len() == 0 && !is_function(&this.overloads.functions, name) {
                    let (next, regs) = this.args(args, h, 0);
                    this = next;
                    let (next2, dest) = this.fresh(e.span, &e.source, None);
                    this = next2;
                    let instr = MirInstr::MakeTuple {
                        dest,
                        elems: regs,
                        element_types: tuple_elements(&fact_ty(h)),
                    };
                    proof { unfold_mir_instr(instr); }
                    this = this.emit(instr);
                    return (this, dest);
                } else {
                    let (next3, params) = this.param_args(param_args);
                    this = next3;
                    let (next4, regs) = this.args(args, h, 0);
                    this = next4;
                    let (next5, places) = this.arg_places(args, h, 0);
                    this = next5;
                    let (next6, kw) = this.kwargs(kwargs, h, args.len());
                    this = next6;
                    let target = call_target(h, &this.overloads.functions, name, args.len());
                    let (next7, dest) = this.fresh(e.span, &e.source, None);
                    this = next7;
                    let instr2 = MirInstr::Call {
                        dest,
                        func: named(&target),
                        raises: fact_raises(h),
                        args: regs,
                        kwargs: kw,
                        arg_places: places,
                        param_arg_regs: params,
                    };
                    proof { unfold_mir_instr(instr2); }
                    this = this.emit(instr2);
                    return (this, dest);
                }
            },
            _ => {
                assert(!(e.kind@ is Call));
                return this.no_value(e);
            },
        }
    }

    /// See [`lowered_invoke`].
    pub fn invoke(self, e: &Expr, h: Option<&HirExpr>) -> (r: (Flatten, Reg))
        ensures
            r.0@ == lowered_invoke(self@, e@, opt_view(h)).0,
            r.1 == lowered_invoke(self@, e@, opt_view(h)).1,
        decreases e, 3nat,
    {
        let mut this = self;
        proof { unfold_expr_kind(e.kind); }
        match &e.kind {
            ExprKind::Invoke { callee, args, kwargs, .. } => {
                match find_variant_operation(&fact_adjustments(h)) {
                    Some(operation) => {
                        return this.variant_operation(e, h, &operation);
                    },
                    None => {
                        let (next, target) = this.expr(&**callee, child(h, 0));
                        this = next;
                        let (next2, regs) = this.args(args, h, 1);
                        this = next2;
                        let (next3, kw) = this.kwargs(kwargs, h, plus(1, args.len()));
                        this = next3;
                        let (next4, dest) = this.fresh(e.span, &e.source, None);
                        this = next4;
                        let instr = MirInstr::CallIndirect {
                            dest,
                            callee: target,
                            raises: fact_raises(h),
                            args: regs,
                            kwargs: kw,
                        };
                        proof { unfold_mir_instr(instr); }
                        this = this.emit(instr);
                        return (this, dest);
                    },
                }
            },
            _ => {
                assert(!(e.kind@ is Invoke));
                return this.no_value(e);
            },
        }
    }

    /// See [`lowered_owner_place`].
    pub fn owner_place(self, e: &Expr, h: Option<&HirExpr>) -> (r: (Flatten, Option<MirPlace>))
        ensures
            r.0@ == lowered_owner_place(self@, e@, opt_view(h)).0,
            opt_view(r.1) == lowered_owner_place(self@, e@, opt_view(h)).1,
        decreases e, 0nat,
    {
        let mut this = self;
        proof { unfold_expr_kind(e.kind); }
        match &e.kind {
            ExprKind::Member { object, .. } => {
                return this.try_place(&**object, child(h, 0), false);
            },
            _ => {
                assert(!(e.kind@ is Member));
                return (this, None);
            },
        }
    }

    /// See [`lowered_operand_place`].
    pub fn operand_place(self, e: &Expr, h: Option<&HirExpr>) -> (r: (Flatten, Option<MirPlace>))
        ensures
            r.0@ == lowered_operand_place(self@, e@, opt_view(h)).0,
            opt_view(r.1) == lowered_operand_place(self@, e@, opt_view(h)).1,
        decreases e, 0nat,
    {
        let mut this = self;
        proof { unfold_expr_kind(e.kind); }
        match &e.kind {
            ExprKind::Invoke { callee, .. } => {
                return this.owner_place(&**callee, child(h, 0));
            },
            _ => {
                assert(!(e.kind@ is Invoke));
                return (this, None);
            },
        }
    }

    /// See [`lowered_owner_value`].
    pub fn owner_value(self, e: &Expr, h: Option<&HirExpr>, call: &Expr) -> (r: (Flatten, Reg))
        ensures
            r.0@ == lowered_owner_value(self@, e@, opt_view(h), call@).0,
            r.1 == lowered_owner_value(self@, e@, opt_view(h), call@).1,
        decreases e, 0nat,
    {
        let mut this = self;
        proof { unfold_expr_kind(e.kind); }
        match &e.kind {
            ExprKind::Member { object, .. } => {
                return this.expr(&**object, child(h, 0));
            },
            _ => {
                assert(!(e.kind@ is Member));
                return this.no_value(call);
            },
        }
    }

    /// See [`lowered_operand_value`].
    pub fn operand_value(self, e: &Expr, h: Option<&HirExpr>) -> (r: (Flatten, Reg))
        ensures
            r.0@ == lowered_operand_value(self@, e@, opt_view(h)).0,
            r.1 == lowered_operand_value(self@, e@, opt_view(h)).1,
        decreases e, 0nat,
    {
        let mut this = self;
        proof { unfold_expr_kind(e.kind); }
        match &e.kind {
            ExprKind::Invoke { callee, .. } => {
                return this.owner_value(&**callee, child(h, 0), e);
            },
            _ => {
                assert(!(e.kind@ is Invoke));
                return this.no_value(e);
            },
        }
    }

    /// See [`lowered_operand_payload`].
    pub fn operand_payload(self, e: &Expr, h: Option<&HirExpr>) -> (r: (Flatten, Option<Reg>))
        ensures
            r.0@ == lowered_operand_payload(self@, e@, opt_view(h)).0,
            r.1 == lowered_operand_payload(self@, e@, opt_view(h)).1,
        decreases e, 0nat,
    {
        let mut this = self;
        proof { unfold_expr_kind(e.kind); }
        match &e.kind {
            ExprKind::Invoke { args, .. } => {
                return this.first_arg(args, child(h, 1));
            },
            _ => {
                assert(!(e.kind@ is Invoke));
                return (this, None);
            },
        }
    }

    /// See [`lowered_variant_test`].
    pub fn variant_test(self, e: &Expr, h: Option<&HirExpr>, index: usize) -> (r: (Flatten, Reg))
        ensures
            r.0@ == lowered_variant_test(self@, e@, opt_view(h), index).0,
            r.1 == lowered_variant_test(self@, e@, opt_view(h), index).1,
        decreases e, 1nat,
    {
        let mut this = self;
        let (next, variant) = this.operand_value(e, h);
        this = next;
        return this.variant_is(e, variant, index);
    }

    /// See [`lowered_variant_store`].
    pub fn variant_store(self, e: &Expr, h: Option<&HirExpr>, index: usize) -> (r: (Flatten, Reg))
        ensures
            r.0@ == lowered_variant_store(self@, e@, opt_view(h), index).0,
            r.1 == lowered_variant_store(self@, e@, opt_view(h), index).1,
        decreases e, 1nat,
    {
        let mut this = self;
        let (next, place) = this.operand_place(e, h);
        this = next;
        let (next2, value) = this.operand_payload(e, h);
        this = next2;
        return this.variant_set(e, place, value, index);
    }

    /// See [`lowered_variant_taking`].
    pub fn variant_taking(
        self,
        e: &Expr,
        h: Option<&HirExpr>,
        index: usize,
        checked: bool,
    ) -> (r: (Flatten, Reg))
        ensures
            r.0@ == lowered_variant_taking(self@, e@, opt_view(h), index, checked).0,
            r.1 == lowered_variant_taking(self@, e@, opt_view(h), index, checked).1,
        decreases e, 1nat,
    {
        let mut this = self;
        let (next, place) = this.operand_place(e, h);
        this = next;
        return this.variant_take(e, &operand_of(e), place, index, checked);
    }

    /// See [`lowered_variant_exchange`].
    pub fn variant_exchange(
        self,
        e: &Expr,
        h: Option<&HirExpr>,
        input_index: usize,
        output_index: usize,
        checked: bool,
    ) -> (r: (Flatten, Reg))
        ensures
            r.0@ == lowered_variant_exchange(
                self@,
                e@,
                opt_view(h),
                input_index,
                output_index,
                checked,
            ).0,
            r.1 == lowered_variant_exchange(
                self@,
                e@,
                opt_view(h),
                input_index,
                output_index,
                checked,
            ).1,
        decreases e, 1nat,
    {
        let mut this = self;
        let (next, place) = this.operand_place(e, h);
        this = next;
        let (next2, value) = this.operand_payload(e, h);
        this = next2;
        return this.variant_replace(e, place, value, input_index, output_index, checked);
    }

    /// See [`lowered_variant_operation`].
    pub fn variant_operation(
        self,
        e: &Expr,
        h: Option<&HirExpr>,
        operation: &SemanticAdjustment,
    ) -> (r: (Flatten, Reg))
        ensures
            r.0@ == lowered_variant_operation(self@, e@, opt_view(h), operation@).0,
            r.1 == lowered_variant_operation(self@, e@, opt_view(h), operation@).1,
        decreases e, 2nat,
    {
        let mut this = self;
        proof { unfold_semantic_adjustment(*operation); }
        match operation {
            SemanticAdjustment::VariantIs { index } => {
                return this.variant_test(e, h, *index);
            },
            SemanticAdjustment::VariantTypeSupported { supported } => {
                return this.constant(e, Const::Bool(*supported));
            },
            SemanticAdjustment::VariantSet { index } => {
                return this.variant_store(e, h, *index);
            },
            SemanticAdjustment::VariantTake { index, checked } => {
                return this.variant_taking(e, h, *index, *checked);
            },
            SemanticAdjustment::VariantReplace { input_index, output_index, checked } => {
                return this.variant_exchange(e, h, *input_index, *output_index, *checked);
            },
            _ => {
                assert(!(operation@ is VariantIs));
                assert(!(operation@ is VariantTypeSupported));
                assert(!(operation@ is VariantSet));
                assert(!(operation@ is VariantTake));
                assert(!(operation@ is VariantReplace));
                return this.no_value(e);
            },
        }
    }

    /// See [`emitted_variant_is`].
    pub fn variant_is(self, e: &Expr, variant: Reg, index: usize) -> (r: (Flatten, Reg))
        ensures
            r.0@ == emitted_variant_is(self@, e@, variant, index).0,
            r.1 == emitted_variant_is(self@, e@, variant, index).1,
    {
        proof { reveal(emitted_variant_is); }
        let mut this = self;
        let (next, dest) = this.fresh(e.span, &e.source, None);
        this = next;
        let instr = MirInstr::VariantIs { dest, variant, index };
        proof { unfold_mir_instr(instr); }
        this = this.emit(instr);
        return (this, dest);
    }

    /// See [`emitted_variant_set`].
    pub fn variant_set(
        self,
        e: &Expr,
        place: Option<MirPlace>,
        value: Option<Reg>,
        index: usize,
    ) -> (r: (Flatten, Reg))
        ensures
            r.0@ == emitted_variant_set(self@, e@, opt_view(place), value, index).0,
            r.1 == emitted_variant_set(self@, e@, opt_view(place), value, index).1,
    {
        proof { reveal(emitted_variant_set); }
        let mut this = self;
        match (place, value) {
            (Some(place), Some(value)) => {
                let (next, dest) = this.fresh(e.span, &e.source, None);
                this = next;
                let instr = MirInstr::VariantSet { dest, place, index, value };
                proof { unfold_mir_instr(instr); }
                this = this.emit(instr);
                return (this, dest);
            },
            _ => {
                return this.no_value(e);
            },
        }
    }

    /// See [`emitted_variant_take`].
    pub fn variant_take(
        self,
        e: &Expr,
        object: &Expr,
        place: Option<MirPlace>,
        index: usize,
        checked: bool,
    ) -> (r: (Flatten, Reg))
        ensures
            r.0@ == emitted_variant_take(self@, e@, object@, opt_view(place), index, checked).0,
            r.1 == emitted_variant_take(self@, e@, object@, opt_view(place), index, checked).1,
    {
        proof { reveal(emitted_variant_take); }
        let mut this = self;
        match place {
            Some(place) => {
                let (next, variant) = this.fresh(object.span, &object.source, None);
                this = next;
                let instr = MirInstr::MovePlace { dest: variant, place };
                proof { unfold_mir_instr(instr); }
                this = this.emit(instr);
                let (next2, dest) = this.fresh(e.span, &e.source, None);
                this = next2;
                let instr2 = MirInstr::VariantTake { dest, variant, index, checked };
                proof { unfold_mir_instr(instr2); }
                this = this.emit(instr2);
                return (this, dest);
            },
            None => {
                return this.no_value(e);
            },
        }
    }

    /// See [`emitted_variant_replace`].
    pub fn variant_replace(
        self,
        e: &Expr,
        place: Option<MirPlace>,
        value: Option<Reg>,
        input_index: usize,
        output_index: usize,
        checked: bool,
    ) -> (r: (Flatten, Reg))
        ensures
            r.0@ == emitted_variant_replace(
                self@,
                e@,
                opt_view(place),
                value,
                input_index,
                output_index,
                checked,
            ).0,
            r.1 == emitted_variant_replace(
                self@,
                e@,
                opt_view(place),
                value,
                input_index,
                output_index,
                checked,
            ).1,
    {
        proof { reveal(emitted_variant_replace); }
        let mut this = self;
        match (place, value) {
            (Some(place), Some(value)) => {
                let (next, dest) = this.fresh(e.span, &e.source, None);
                this = next;
                let instr = MirInstr::VariantReplace {
                    dest,
                    place,
                    input_index,
                    output_index,
                    value,
                    checked,
                };
                proof { unfold_mir_instr(instr); }
                this = this.emit(instr);
                return (this, dest);
            },
            _ => {
                return this.no_value(e);
            },
        }
    }

    /// See [`lowered_method`].
    pub fn method_call(self, e: &Expr, h: Option<&HirExpr>) -> (r: (Flatten, Reg))
        ensures
            r.0@ == lowered_method(self@, e@, opt_view(h)).0,
            r.1 == lowered_method(self@, e@, opt_view(h)).1,
        decreases e, 4nat,
    {
        let mut this = self;
        proof { unfold_expr_kind(e.kind); }
        match &e.kind {
            ExprKind::MethodCall { object, method, .. } => {
                proof { unfold_expr_kind(object.kind); }
                match &object.kind {
                    ExprKind::Identifier(name) => {
                        if contains_name(&this.vars, name) {
                            return this.value_method(e, h);
                        } else {
                            let target = match resolved_callable(h) {
                                Some(target) => target,
                                None => cat3(name.as_str(), ".", method.as_str()),
                            };
                            return this.type_method(e, h, target, true);
                        }
                    },
                    ExprKind::TypeApply { name, .. } => {
                        return this.type_method(e, h, cat3(name.as_str(), ".", method.as_str()), false);
                    },
                    _ => {
                        assert(!(object.kind@ is Identifier));
                        assert(!(object.kind@ is TypeApply));
                        return this.value_method(e, h);
                    },
                }
            },
            _ => {
                assert(!(e.kind@ is MethodCall));
                return this.no_value(e);
            },
        }
    }

    /// See [`lowered_type_method`].
    pub fn type_method(
        self,
        e: &Expr,
        h: Option<&HirExpr>,
        target: String,
        with_places: bool,
    ) -> (r: (Flatten, Reg))
        ensures
            r.0@ == lowered_type_method(self@, e@, opt_view(h), target@, with_places).0,
            r.1 == lowered_type_method(self@, e@, opt_view(h), target@, with_places).1,
        decreases e, 1nat,
    {
        let mut this = self;
        proof { unfold_expr_kind(e.kind); }
        match &e.kind {
            ExprKind::MethodCall { args, kwargs, .. } => {
                let (next, regs) = this.args(args, h, 1);
                this = next;
                let (next2, kw) = this.kwargs(kwargs, h, plus(1, args.len()));
                this = next2;
                let (next3, dest) = this.fresh(e.span, &e.source, None);
                this = next3;
                let places = if with_places {
                    let (next4, value) = this.arg_places(args, h, 1);
                    this = next4;
                    value
                } else {
                    no_places(args)
                };
                let params: Vec<Option<Reg>> = Vec::new();
                let instr = MirInstr::Call {
                    dest,
                    func: named(&target),
                    raises: fact_raises(h),
                    args: regs,
                    kwargs: kw,
                    arg_places: places,
                    param_arg_regs: params,
                };
                proof { unfold_mir_instr(instr); }
                this = this.emit(instr);
                return (this, dest);
            },
            _ => {
                assert(!(e.kind@ is MethodCall));
                return this.no_value(e);
            },
        }
    }

    /// See [`emitted_method`].
    pub fn emit_method(
        self,
        e: &Expr,
        h: Option<&HirExpr>,
        method: &String,
        recv: Reg,
        args: Vec<Reg>,
        kwargs: Vec<(String, Reg)>,
        back: Option<MirPlace>,
        places: Vec<Option<MirPlace>>,
    ) -> (r: (Flatten, Reg))
        ensures
            r.0@ == emitted_method(
                self@,
                e@,
                opt_view(h),
                method@,
                recv,
                args@,
                kw_reg_list_view(kwargs@),
                opt_view(back),
                opt_place_list_view(places@),
            ).0,
            r.1 == emitted_method(
                self@,
                e@,
                opt_view(h),
                method@,
                recv,
                args@,
                kw_reg_list_view(kwargs@),
                opt_view(back),
                opt_place_list_view(places@),
            ).1,
    {
        proof { reveal(emitted_method); }
        let mut this = self;
        let (next, dest) = this.fresh(e.span, &e.source, None);
        this = next;
        let instr = MirInstr::MethodCall {
            dest,
            recv,
            method: method.clone(),
            resolved: resolved_callable(h),
            raises: fact_raises(h),
            args,
            kwargs,
            recv_place: back,
            arg_places: places,
        };
        proof { unfold_mir_instr(instr); }
        this = this.emit(instr);
        return (this, dest);
    }

    /// See [`lowered_value_method`].
    pub fn value_method(self, e: &Expr, h: Option<&HirExpr>) -> (r: (Flatten, Reg))
        ensures
            r.0@ == lowered_value_method(self@, e@, opt_view(h)).0,
            r.1 == lowered_value_method(self@, e@, opt_view(h)).1,
        decreases e, 3nat,
    {
        let mut this = self;
        proof { unfold_expr_kind(e.kind); }
        match &e.kind {
            ExprKind::MethodCall { method, args, kwargs, .. } => {
                let destroy = destroys_explicitly(&fact_adjustments(h));
                let (next, (recv, place)) = this.receiver(e, h, destroy);
                this = next;
                let (next2, regs) = this.args(args, h, 1);
                this = next2;
                let (next3, kw) = this.kwargs(kwargs, h, plus(1, args.len()));
                this = next3;
                let (next4, places) = this.arg_places(args, h, 1);
                this = next4;
                let back = if destroy {
                    None
                } else {
                    place
                };
                let (next5, dest) = this.emit_method(e, h, method, recv, regs, kw, back, places);
                this = next5;
                if destroy {
                    this = this.consume_receiver(e, h, recv);
                }
                return (this, dest);
            },
            _ => {
                assert(!(e.kind@ is MethodCall));
                return this.no_value(e);
            },
        }
    }

    /// See [`lowered_value`].
    pub fn expr(self, e: &Expr, h: Option<&HirExpr>) -> (r: (Flatten, Reg))
        ensures
            r.0@ == lowered_value(self@, e@, opt_view(h)).0,
            r.1 == lowered_value(self@, e@, opt_view(h)).1,
        decreases e, 9nat,
    {
        let mut this = self;
        let (next, reg) = this.expr_with_adjustments(e, h);
        this = next;
        this = this.set_reg_type(reg, fact_ty(h));
        return (this, reg);
    }

    /// See [`lowered_adjusted`].
    pub fn expr_with_adjustments(self, e: &Expr, h: Option<&HirExpr>) -> (r: (Flatten, Reg))
        ensures
            r.0@ == lowered_adjusted(self@, e@, opt_view(h)).0,
            r.1 == lowered_adjusted(self@, e@, opt_view(h)).1,
        decreases e, 8nat,
    {
        let mut this = self;
        let adjustments = fact_adjustments(h);
        if find_borrow(&adjustments).is_some() {
            return this.reference_handle(e, h);
        } else {
            match find_conversion(&adjustments) {
                Some(target) => {
                    let (next, arg) = this.expr_unconverted(e, h);
                    this = next;
                    let (next2, dest) = this.fresh(e.span, &e.source, None);
                    this = next2;
                    this = this.convert(dest, &target, arg);
                    return (this, dest);
                },
                None => {
                    return this.expr_unconverted(e, h);
                },
            }
        }
    }

    /// See [`lowered_unconverted`].
    pub fn expr_unconverted(self, e: &Expr, h: Option<&HirExpr>) -> (r: (Flatten, Reg))
        ensures
            r.0@ == lowered_unconverted(self@, e@, opt_view(h)).0,
            r.1 == lowered_unconverted(self@, e@, opt_view(h)).1,
        decreases e, 6nat,
    {
        let mut this = self;
        proof { unfold_expr_kind(e.kind); }
        match &e.kind {
            ExprKind::Int(n) => {
                return this.constant(e, Const::Int(*n));
            },
            ExprKind::Float(bits) => {
                return this.constant(e, Const::Float(*bits));
            },
            ExprKind::Bool(b) => {
                return this.constant(e, Const::Bool(*b));
            },
            ExprKind::Str(text) => {
                return this.constant(e, Const::Str(text.clone()));
            },
            ExprKind::NoneLit => {
                return this.constant(e, Const::NoneValue);
            },
            ExprKind::Uninitialized => {
                return this.constant(e, Const::NoneValue);
            },
            ExprKind::Spread(_) => {
                return this.spread(e);
            },
            ExprKind::Identifier(name) => {
                return this.identifier(e, name, h);
            },
            ExprKind::TypeApply { name, .. } => {
                return this.type_apply(e, name, h);
            },
            ExprKind::TypeValue(_) => {
                return this.no_value(e);
            },
            ExprKind::Prefix(_, _) => {
                return this.operation(e, h);
            },
            ExprKind::Infix(_, _, _) => {
                return this.operation(e, h);
            },
            ExprKind::Named { .. } => {
                return this.operation(e, h);
            },
            ExprKind::Transfer(_) => {
                return this.operation(e, h);
            },
            ExprKind::Call { .. } => {
                return this.application(e, h);
            },
            ExprKind::Invoke { .. } => {
                return this.application(e, h);
            },
            ExprKind::MethodCall { .. } => {
                return this.application(e, h);
            },
            ExprKind::Member { .. } => {
                return this.access(e, h);
            },
            ExprKind::Index { .. } => {
                return this.access(e, h);
            },
            ExprKind::Slice { .. } => {
                return this.access(e, h);
            },
            ExprKind::MultiIndex { .. } => {
                return this.access(e, h);
            },
            ExprKind::IfExpr { .. } => {
                return this.choice(e, h);
            },
            ExprKind::Compare { .. } => {
                return this.choice(e, h);
            },
            ExprKind::ListLit(_) => {
                return this.display(e, h);
            },
            ExprKind::TupleLit(_) => {
                return this.display(e, h);
            },
            ExprKind::BraceLit(_) => {
                return this.display(e, h);
            },
            ExprKind::Comprehension { .. } => {
                return this.display(e, h);
            },
            ExprKind::TString { .. } => {
                return this.display(e, h);
            },
        }
    }

    /// See [`lowered_application`].
    pub fn application(self, e: &Expr, h: Option<&HirExpr>) -> (r: (Flatten, Reg))
        ensures
            r.0@ == lowered_application(self@, e@, opt_view(h)).0,
            r.1 == lowered_application(self@, e@, opt_view(h)).1,
        decreases e, 5nat,
    {
        let mut this = self;
        proof { unfold_expr_kind(e.kind); }
        match &e.kind {
            ExprKind::Call { .. } => {
                return this.call(e, h);
            },
            ExprKind::Invoke { .. } => {
                return this.invoke(e, h);
            },
            ExprKind::MethodCall { .. } => {
                return this.method_call(e, h);
            },
            _ => {
                assert(!(e.kind@ is Call));
                assert(!(e.kind@ is Invoke));
                assert(!(e.kind@ is MethodCall));
                return this.no_value(e);
            },
        }
    }

    /// See [`lowered_access`].
    pub fn access(self, e: &Expr, h: Option<&HirExpr>) -> (r: (Flatten, Reg))
        ensures
            r.0@ == lowered_access(self@, e@, opt_view(h)).0,
            r.1 == lowered_access(self@, e@, opt_view(h)).1,
        decreases e, 5nat,
    {
        let mut this = self;
        proof { unfold_expr_kind(e.kind); }
        match &e.kind {
            ExprKind::Member { .. } => {
                return this.member(e, h);
            },
            ExprKind::Index { .. } => {
                return this.index(e, h);
            },
            ExprKind::Slice { .. } => {
                return this.slice(e, h);
            },
            ExprKind::MultiIndex { .. } => {
                return this.multi_index(e, h);
            },
            _ => {
                assert(!(e.kind@ is Member));
                assert(!(e.kind@ is Index));
                assert(!(e.kind@ is Slice));
                assert(!(e.kind@ is MultiIndex));
                return this.no_value(e);
            },
        }
    }

    /// See [`lowered_choice`].
    pub fn choice(self, e: &Expr, h: Option<&HirExpr>) -> (r: (Flatten, Reg))
        ensures
            r.0@ == lowered_choice(self@, e@, opt_view(h)).0,
            r.1 == lowered_choice(self@, e@, opt_view(h)).1,
        decreases e, 5nat,
    {
        let mut this = self;
        proof { unfold_expr_kind(e.kind); }
        match &e.kind {
            ExprKind::IfExpr { .. } => {
                return this.ternary(e, h);
            },
            ExprKind::Compare { .. } => {
                return this.compare_chain(e, h);
            },
            _ => {
                assert(!(e.kind@ is IfExpr));
                assert(!(e.kind@ is Compare));
                return this.no_value(e);
            },
        }
    }

    /// See [`lowered_display`].
    pub fn display(self, e: &Expr, h: Option<&HirExpr>) -> (r: (Flatten, Reg))
        ensures
            r.0@ == lowered_display(self@, e@, opt_view(h)).0,
            r.1 == lowered_display(self@, e@, opt_view(h)).1,
        decreases e, 5nat,
    {
        let mut this = self;
        proof { unfold_expr_kind(e.kind); }
        match &e.kind {
            ExprKind::ListLit(_) => {
                return this.list(e, h);
            },
            ExprKind::TupleLit(_) => {
                return this.list(e, h);
            },
            ExprKind::BraceLit(_) => {
                return this.brace(e, h);
            },
            ExprKind::Comprehension { .. } => {
                return this.comprehension(e, h);
            },
            ExprKind::TString { .. } => {
                return this.template(e, h);
            },
            _ => {
                assert(!(e.kind@ is ListLit));
                assert(!(e.kind@ is TupleLit));
                assert(!(e.kind@ is BraceLit));
                assert(!(e.kind@ is Comprehension));
                assert(!(e.kind@ is TString));
                return this.no_value(e);
            },
        }
    }

    /// See [`lowered_operation`].
    pub fn operation(self, e: &Expr, h: Option<&HirExpr>) -> (r: (Flatten, Reg))
        ensures
            r.0@ == lowered_operation(self@, e@, opt_view(h)).0,
            r.1 == lowered_operation(self@, e@, opt_view(h)).1,
        decreases e, 5nat,
    {
        let mut this = self;
        proof { unfold_expr_kind(e.kind); }
        match &e.kind {
            ExprKind::Prefix(op, value) => {
                let (next, a) = this.expr(&**value, child(h, 0));
                this = next;
                return this.unary(e, *op, a);
            },
            ExprKind::Infix(op, left, right) => {
                if *op == InfixOp::And || *op == InfixOp::Or {
                    return this.short_circuit(e, h);
                } else {
                    let (next2, a) = this.expr(&**left, child(h, 0));
                    this = next2;
                    let (next3, b) = this.expr(&**right, child(h, 1));
                    this = next3;
                    return this.binary(e, *op, a, b);
                }
            },
            ExprKind::Named { name, value } => {
                let (next4, reg) = this.expr(&**value, child(h, 0));
                this = next4;
                let (next5, var) = this.var(name);
                this = next5;
                this = this.define(var, reg, None);
                return (this, reg);
            },
            ExprKind::Transfer(_) => {
                return this.transfer(e, h);
            },
            _ => {
                assert(!(e.kind@ is Prefix));
                assert(!(e.kind@ is Infix));
                assert(!(e.kind@ is Named));
                assert(!(e.kind@ is Transfer));
                return this.no_value(e);
            },
        }
    }

    /// See [`emitted_unary`].
    pub fn unary(self, e: &Expr, op: PrefixOp, a: Reg) -> (r: (Flatten, Reg))
        ensures
            r.0@ == emitted_unary(self@, e@, op, a).0,
            r.1 == emitted_unary(self@, e@, op, a).1,
    {
        proof { reveal(emitted_unary); }
        let mut this = self;
        let (next, dest) = this.fresh(e.span, &e.source, None);
        this = next;
        let instr = MirInstr::UnOp { op, dest, a };
        proof { unfold_mir_instr(instr); }
        this = this.emit(instr);
        return (this, dest);
    }

    /// See [`emitted_binary`].
    pub fn binary(self, e: &Expr, op: InfixOp, a: Reg, b: Reg) -> (r: (Flatten, Reg))
        ensures
            r.0@ == emitted_binary(self@, e@, op, a, b).0,
            r.1 == emitted_binary(self@, e@, op, a, b).1,
    {
        proof { reveal(emitted_binary); }
        let mut this = self;
        let (next, dest) = this.fresh(e.span, &e.source, None);
        this = next;
        let instr = MirInstr::BinOp { op, dest, a, b };
        proof { unfold_mir_instr(instr); }
        this = this.emit(instr);
        return (this, dest);
    }

    /// See [`lowered_type_apply`].
    pub fn type_apply(self, e: &Expr, name: &String, h: Option<&HirExpr>) -> (r: (Flatten, Reg))
        ensures
            r.0@ == lowered_type_apply(self@, e@, name@, opt_view(h)).0,
            r.1 == lowered_type_apply(self@, e@, name@, opt_view(h)).1,
    {
        proof { reveal(lowered_type_apply); }
        let mut this = self;
        let (next, place) = this.variant_read(name, h);
        this = next;
        match place {
            Some(place) => {
                let (next2, dest) = this.fresh(e.span, &e.source, Some(place.root));
                this = next2;
                let instr = MirInstr::LoadPlace { dest, place };
                proof { unfold_mir_instr(instr); }
                this = this.emit(instr);
                return (this, dest);
            },
            None => {
                return this.no_value(e);
            },
        }
    }

    /// See [`lowered_spread`].
    pub fn spread(self, e: &Expr) -> (r: (Flatten, Reg))
        ensures
            r.0@ == lowered_spread(self@, e@).0,
            r.1 == lowered_spread(self@, e@).1,
    {
        proof { reveal(lowered_spread); }
        let mut this = self;
        let (next, dest) = this.fresh(e.span, &e.source, None);
        this = next;
        this = this.unsupported("unexpanded call spread reached MIR lowering".to_owned());
        let instr = MirInstr::Const { dest, k: Const::NoneValue };
        proof { unfold_mir_instr(instr); }
        this = this.emit(instr);
        return (this, dest);
    }

    /// See [`lowered_variant_read`].
    pub fn variant_read(
        self,
        name: &String,
        h: Option<&HirExpr>,
    ) -> (r: (Flatten, Option<MirPlace>))
        ensures
            r.0@ == lowered_variant_read(self@, name@, opt_view(h)).0,
            opt_view(r.1) == lowered_variant_read(self@, name@, opt_view(h)).1,
    {
        proof { reveal(lowered_variant_read); }
        let mut this = self;
        match variant_projection(&fact_adjustments(h)) {
            Some((alternatives, index)) => {
                match fact_any_ty(h) {
                    Some(ty) => {
                        let (next, base) = this.resolved_place(name);
                        this = next;
                        let root = if base.root_ty.is_none() {
                            variant_rooted(base, alternatives)
                        } else {
                            base
                        };
                        return (this, Some(project(root, Proj::Variant(index), ty)));
                    },
                    None => {
                        return (this, None);
                    },
                }
            },
            None => {
                return (this, None);
            },
        }
    }
}

#[verifier::opaque]
pub open spec fn with_variant_root(
    place: MirPlaceView,
    alternatives: Seq<TyView>,
) -> MirPlaceView {
    let place = MirPlaceView { root_ty: Some(TyView::Variant(alternatives)), ..place };
    place
}

/// See [`with_variant_root`].
pub fn variant_rooted(place: MirPlace, alternatives: Vec<Ty>) -> (r: MirPlace)
    ensures
        r@ == with_variant_root(place@, ty_list_view(alternatives@)),
{
    proof { reveal(with_variant_root); }
    let mut place = place;
    let ty = Ty::Variant(alternatives);
    proof { unfold_ty(ty); }
    place.root_ty = Some(ty);
    place
}

/// The target of a call: what the checker resolved, else what the name gives.
#[verifier::opaque]
pub open spec fn target_of_call(
    h: Option<HirExprView>,
    functions: Seq<OverloadEntryView>,
    name: Seq<char>,
    argc: usize,
) -> Seq<char> {
    match resolved_target(h) {
        Some(target) => target,
        None => unresolved_target(functions, name, argc),
    }
}

/// See [`target_of_call`].
pub fn call_target(
    h: Option<&HirExpr>,
    functions: &Vec<OverloadEntry>,
    name: &String,
    argc: usize,
) -> (r: String)
    ensures
        r@ == target_of_call(opt_view(h), overload_entry_list_view(functions@), name@, argc),
{
    proof { reveal(target_of_call); }
    match resolved_callable(h) {
        Some(target) => target,
        None => overloaded_name(functions, name, argc),
    }
}

pub open spec fn places_unknown(
    args: Seq<ExprView>,
    i: nat,
    out: Seq<Option<MirPlaceView>>,
) -> Seq<Option<MirPlaceView>>
    decreases args, (args.len() - i) as nat,
{
    if i >= args.len() {
        out
    } else {
        let arg = args[i as int];
        let out = out.push(None);
        places_unknown(args, i + 1, out)
    }
}

/// See [`places_unknown`].
pub fn no_places(args: &Vec<Expr>) -> (r: Vec<Option<MirPlace>>)
    ensures
        opt_place_list_view(r@) == places_unknown(
            expr_list_view(args@),
            0,
            Seq::<Option<MirPlaceView>>::empty(),
        ),
    decreases args@, 0nat,
{
    let mut out: Vec<Option<MirPlace>> = Vec::new();
    assert(opt_place_list_view(out@) =~= Seq::<Option<MirPlaceView>>::empty());
    let ghost goal = places_unknown(expr_list_view(args@), 0, Seq::<Option<MirPlaceView>>::empty());
    let mut i: usize = 0;
    while i < args.len()
        invariant
            i <= args@.len(),
            expr_list_view(args@).len() == args@.len(),
            places_unknown(expr_list_view(args@), i as nat, opt_place_list_view(out@)) == goal,
            goal == places_unknown(expr_list_view(args@), 0, Seq::<Option<MirPlaceView>>::empty()),
        decreases args@.len() - i,
    {
        let arg = &args[i];
        assert(expr_list_view(args@)[i as int] == arg@);
        let item: Option<MirPlace> = None;
        let ghost before = opt_place_list_view(out@);
        let ghost added = opt_view(item);
        out.push(item);
        assert(opt_place_list_view(out@) =~= before.push(added));
        i = i + 1;
    }
    out
}

} // verus!
