//! Blocks lead to blocks of their function: calls.

use crate::aims::comprehensions::lowered_comprehension_aims;
use crate::aims::exprs::{
    lowered_arg_places_aims, lowered_args_aims, lowered_brace_aims, lowered_chain_aims,
    lowered_conversion_aims, lowered_index_aims, lowered_kwargs_aims, lowered_list_aims,
    lowered_member_aims, lowered_multi_index_aims, lowered_no_value_aims, lowered_param_args_aims,
    lowered_short_circuit_aims, lowered_slice_aims, lowered_template_aims, lowered_ternary_aims,
    lowered_transfer_aims,
};
use crate::aims::places::{lowered_handle_aims, lowered_pointer_source_aims, lowered_try_place_aims};
use crate::aims::receivers::{consumed_receiver_aims, lowered_receiver_aims};
use crate::ast::{CaptureKind, CaptureView, ExprKindView, ExprView, InfixOp, PrefixOp};
use crate::calls::{
    emitted_binary, emitted_method, emitted_unary, emitted_variant_is, emitted_variant_replace,
    emitted_variant_set, emitted_variant_take, kept_alive, lowered_access, lowered_adjusted,
    lowered_application, lowered_call, lowered_choice, lowered_display, lowered_first_arg,
    lowered_invoke, lowered_local_call, lowered_method, lowered_named_call, lowered_nested_call,
    lowered_operand_payload, lowered_operand_place, lowered_operand_value, lowered_operation,
    lowered_owner_place, lowered_owner_value, lowered_spread, lowered_type_apply,
    lowered_type_method, lowered_unconverted, lowered_value, lowered_value_method, lowered_variant,
    lowered_variant_exchange, lowered_variant_operation, lowered_variant_read,
    lowered_variant_store, lowered_variant_taking, lowered_variant_test, places_unknown,
    target_of_call, variant_operand, with_variant_root,
};
use crate::checked::SemanticAdjustmentView;
use crate::comprehensions::lowered_comprehension;
use crate::exprs::{
    elements_of_tuple, lowered_arg_places, lowered_args, lowered_brace, lowered_chain,
    lowered_conversion, lowered_index, lowered_kwargs, lowered_list, lowered_member,
    lowered_multi_index, lowered_no_value, lowered_param_args, lowered_short_circuit, lowered_slice,
    lowered_template, lowered_ternary, lowered_transfer,
};
use crate::facts::projected_variant;
use crate::flatten::{
    FlattenView, NestedInfoView, borrow_among, child_facts, conversion_among, defined, emitted,
    explicit_destroy_among, fresh_reg, index_sum, interned, known_adjustments, known_any_ty,
    known_raises, known_ty, lowered_closure, lowered_constant, lowered_identifier,
    marked_unsupported, names_function, nested_named, place_of_name, pointer_among, resolved_target,
    simd_among, variant_among, variant_operation_among, with_reg_type,
};
use crate::hir::HirExprView;
use crate::mir::{
    Const, ConstView, MirInstrView, MirPlaceView, ProjView, Reg, callee_named, projected,
};
use crate::places::{lowered_handle, lowered_pointer_source, lowered_try_place};
use crate::receivers::{consumed_receiver, lowered_receiver};
use crate::types::TyView;
use crate::aims::flatten::{
    aimed, defined_aims, emitted_aims, fresh_reg_aims, further, interned_aims, lowered_closure_aims,
    lowered_constant_aims, lowered_identifier_aims, marked_unsupported_aims, place_of_name_aims,
    with_reg_type_aims,
};
use vstd::prelude::*;

verus! {

pub(crate) proof fn lowered_call_aims(
    s: FlattenView,
    e: ExprView,
    h: Option<HirExprView>,
)
    requires
        aimed(s),
    ensures
        aimed(lowered_call(s, e, h).0),
        further(s, lowered_call(s, e, h).0),
    decreases e, 2nat,
{
    let _ = {
        match e.kind {
            ExprKindView::Call { name, args, kwargs, .. } => {
                let adjustments = known_adjustments(h);
                if pointer_among(adjustments, 0) is Some {
                    let (s, place) = {
                        lowered_pointer_source_aims(s, kwargs, child_facts(h, args.len() as usize), 0);
                        lowered_pointer_source(s, kwargs, child_facts(h, args.len() as usize), 0)
                    };
                    match place {
                        Some(place) => {
                            let (s, dest) = {
                                fresh_reg_aims(s, e.span, e.source, Some(place.root));
                                fresh_reg(s, e.span, e.source, Some(place.root))
                            };
                            let s = {
                                emitted_aims(s, MirInstrView::MakeRef { dest, place });
                                emitted(s, MirInstrView::MakeRef { dest, place })
                            };
                            (s, dest)
                        },
                        None => {
                            lowered_no_value_aims(s, e);
                            lowered_no_value(s, e)
                        },
                    }
                } else {
                    match variant_among(adjustments, 0) {
                        Some((alternatives, index)) => {
                            lowered_variant_aims(s, e, h, alternatives, index);
                            lowered_variant(s, e, h, alternatives, index)
                        },
                        None => match simd_among(adjustments, 0) {
                            Some((dtype, width)) => {
                                let (s, elems) = {
                                    lowered_args_aims(s, args, h, 0, Seq::empty(), 0);
                                    lowered_args(s, args, h, 0, Seq::empty(), 0)
                                };
                                let (s, dest) = {
                                    fresh_reg_aims(s, e.span, e.source, None);
                                    fresh_reg(s, e.span, e.source, None)
                                };
                                let s = {
                                    emitted_aims(s, MirInstrView::MakeSimd { dest, dtype, width, elems });
                                    emitted(s, MirInstrView::MakeSimd { dest, dtype, width, elems })
                                };
                                (s, dest)
                            },
                            None => match nested_named(s.nested, name, 0) {
                                Some(info) => {
                                    lowered_nested_call_aims(s, e, h, info);
                                    lowered_nested_call(s, e, h, info)
                                },
                                None => if s.vars.contains(name) {
                                    {
                                        lowered_local_call_aims(s, e, h);
                                        lowered_local_call(s, e, h)
                                    }
                                } else {
                                    {
                                        lowered_named_call_aims(s, e, h);
                                        lowered_named_call(s, e, h)
                                    }
                                },
                            },
                        },
                    }
                }
            },
            _ => {
                lowered_no_value_aims(s, e);
                lowered_no_value(s, e)
            },
        }
    };
}

pub(crate) proof fn lowered_variant_aims(
    s: FlattenView,
    e: ExprView,
    h: Option<HirExprView>,
    alternatives: Seq<TyView>,
    index: usize,
)
    requires
        aimed(s),
    ensures
        aimed(lowered_variant(s, e, h, alternatives, index).0),
        further(s, lowered_variant(s, e, h, alternatives, index).0),
    decreases e, 1nat,
{
    let _ = {
        match e.kind {
            ExprKindView::Call { args, .. } => {
                let (s, payload) = {
                    lowered_first_arg_aims(s, args, child_facts(h, 0), 0);
                    lowered_first_arg(s, args, child_facts(h, 0), 0)
                };
                match payload {
                    Some(value) => {
                        let (s, dest) = {
                            fresh_reg_aims(s, e.span, e.source, None);
                            fresh_reg(s, e.span, e.source, None)
                        };
                        let s = {
                            emitted_aims(s, MirInstrView::MakeVariant { dest, alternatives, index, value });
                            emitted(s, MirInstrView::MakeVariant { dest, alternatives, index, value })
                        };
                        (s, dest)
                    },
                    None => {
                        lowered_no_value_aims(s, e);
                        lowered_no_value(s, e)
                    },
                }
            },
            _ => {
                lowered_no_value_aims(s, e);
                lowered_no_value(s, e)
            },
        }
    };
}

pub(crate) proof fn lowered_first_arg_aims(
    s: FlattenView,
    args: Seq<ExprView>,
    h: Option<HirExprView>,
    i: nat,
)
    requires
        aimed(s),
    ensures
        aimed(lowered_first_arg(s, args, h, i).0),
        further(s, lowered_first_arg(s, args, h, i).0),
    decreases args, (args.len() - i) as nat,
{
    let _ = {
        if i >= args.len() {
            (s, None)
        } else {
            let arg = args[i as int];
            let (s, reg) = {
                lowered_value_aims(s, arg, h);
                lowered_value(s, arg, h)
            };
            (s, Some(reg))
        }
    };
}

pub(crate) proof fn lowered_nested_call_aims(
    s: FlattenView,
    e: ExprView,
    h: Option<HirExprView>,
    info: NestedInfoView,
)
    requires
        aimed(s),
    ensures
        aimed(lowered_nested_call(s, e, h, info).0),
        further(s, lowered_nested_call(s, e, h, info).0),
    decreases e, 1nat,
{
    let _ = {
        match e.kind {
            ExprKindView::Call { args, .. } => {
                let (s, callee) = {
                    lowered_closure_aims(s, e, info);
                    lowered_closure(s, e, info)
                };
                let (s, regs) = {
                    lowered_args_aims(s, args, h, 0, Seq::empty(), 0);
                    lowered_args(s, args, h, 0, Seq::empty(), 0)
                };
                let (s, dest) = {
                    fresh_reg_aims(s, e.span, e.source, None);
                    fresh_reg(s, e.span, e.source, None)
                };
                let kwargs = Seq::<(Seq<char>, Reg)>::empty();
                let s = {
                    emitted_aims(s, MirInstrView::CallIndirect { dest, callee, raises: known_raises(h), args: regs, kwargs, });
                    emitted(s, MirInstrView::CallIndirect { dest, callee, raises: known_raises(h), args: regs, kwargs, })
                };
                let s = {
                    kept_alive_aims(s, info.captures, 0);
                    kept_alive(s, info.captures, 0)
                };
                (s, dest)
            },
            _ => {
                lowered_no_value_aims(s, e);
                lowered_no_value(s, e)
            },
        }
    };
}

pub(crate) proof fn kept_alive_aims(
    s: FlattenView,
    captures: Seq<CaptureView>,
    i: nat,
)
    requires
        aimed(s),
    ensures
        aimed(kept_alive(s, captures, i)),
        further(s, kept_alive(s, captures, i)),
    decreases captures, (captures.len() - i) as nat,
{
    let _ = {
        if i >= captures.len() {
            s
        } else {
            let capture = captures[i as int];
            if capture.kind != CaptureKind::Move {
                let (s, var) = {
                    interned_aims(s, capture.name);
                    interned(s, capture.name)
                };
                let s = {
                    emitted_aims(s, MirInstrView::KeepAlive { var });
                    emitted(s, MirInstrView::KeepAlive { var })
                };
                {
                    kept_alive_aims(s, captures, i + 1);
                    kept_alive(s, captures, i + 1)
                }
            } else {
                {
                    kept_alive_aims(s, captures, i + 1);
                    kept_alive(s, captures, i + 1)
                }
            }
        }
    };
}

pub(crate) proof fn lowered_local_call_aims(
    s: FlattenView,
    e: ExprView,
    h: Option<HirExprView>,
)
    requires
        aimed(s),
    ensures
        aimed(lowered_local_call(s, e, h).0),
        further(s, lowered_local_call(s, e, h).0),
    decreases e, 1nat,
{
    let _ = {
        match e.kind {
            ExprKindView::Call { name, args, kwargs, .. } => {
                let (s, callee) = {
                    lowered_identifier_aims(s, e, name, None);
                    lowered_identifier(s, e, name, None)
                };
                let (s, regs) = {
                    lowered_args_aims(s, args, h, 0, Seq::empty(), 0);
                    lowered_args(s, args, h, 0, Seq::empty(), 0)
                };
                let (s, kw) = {
                    lowered_kwargs_aims(s, kwargs, h, 0, Seq::empty(), args.len() as usize);
                    lowered_kwargs(s, kwargs, h, 0, Seq::empty(), args.len() as usize)
                };
                let (s, dest) = {
                    fresh_reg_aims(s, e.span, e.source, None);
                    fresh_reg(s, e.span, e.source, None)
                };
                let s = {
                    emitted_aims(s, MirInstrView::CallIndirect { dest, callee, raises: known_raises(h), args: regs, kwargs: kw, });
                    emitted(s, MirInstrView::CallIndirect { dest, callee, raises: known_raises(h), args: regs, kwargs: kw, })
                };
                (s, dest)
            },
            _ => {
                lowered_no_value_aims(s, e);
                lowered_no_value(s, e)
            },
        }
    };
}

pub(crate) proof fn lowered_named_call_aims(
    s: FlattenView,
    e: ExprView,
    h: Option<HirExprView>,
)
    requires
        aimed(s),
    ensures
        aimed(lowered_named_call(s, e, h).0),
        further(s, lowered_named_call(s, e, h).0),
    decreases e, 1nat,
{
    let _ = {
        match e.kind {
            ExprKindView::Call {
                name,
                param_args,
                args,
                kwargs,
            } => if name == "Tuple"@ && kwargs.len() == 0 && !names_function(s.overloads.functions, name, 0) {
                let (s, regs) = {
                    lowered_args_aims(s, args, h, 0, Seq::empty(), 0);
                    lowered_args(s, args, h, 0, Seq::empty(), 0)
                };
                let (s, dest) = {
                    fresh_reg_aims(s, e.span, e.source, None);
                    fresh_reg(s, e.span, e.source, None)
                };
                let s = {
                    emitted_aims(s, MirInstrView::MakeTuple { dest, elems: regs, element_types: elements_of_tuple(known_ty(h)), });
                    emitted(s, MirInstrView::MakeTuple { dest, elems: regs, element_types: elements_of_tuple(known_ty(h)), })
                };
                (s, dest)
            } else {
                let (s, params) = {
                    lowered_param_args_aims(s, param_args, 0, Seq::empty());
                    lowered_param_args(s, param_args, 0, Seq::empty())
                };
                let (s, regs) = {
                    lowered_args_aims(s, args, h, 0, Seq::empty(), 0);
                    lowered_args(s, args, h, 0, Seq::empty(), 0)
                };
                let (s, places) = {
                    lowered_arg_places_aims(s, args, h, 0, Seq::empty(), 0);
                    lowered_arg_places(s, args, h, 0, Seq::empty(), 0)
                };
                let (s, kw) = {
                    lowered_kwargs_aims(s, kwargs, h, 0, Seq::empty(), args.len() as usize);
                    lowered_kwargs(s, kwargs, h, 0, Seq::empty(), args.len() as usize)
                };
                let target = target_of_call(h, s.overloads.functions, name, args.len() as usize);
                let (s, dest) = {
                    fresh_reg_aims(s, e.span, e.source, None);
                    fresh_reg(s, e.span, e.source, None)
                };
                let s = {
                    emitted_aims(s, MirInstrView::Call { dest, func: callee_named(target), raises: known_raises(h), args: regs, kwargs: kw, arg_places: places, param_arg_regs: params, });
                    emitted(s, MirInstrView::Call { dest, func: callee_named(target), raises: known_raises(h), args: regs, kwargs: kw, arg_places: places, param_arg_regs: params, })
                };
                (s, dest)
            },
            _ => {
                lowered_no_value_aims(s, e);
                lowered_no_value(s, e)
            },
        }
    };
}

pub(crate) proof fn lowered_invoke_aims(
    s: FlattenView,
    e: ExprView,
    h: Option<HirExprView>,
)
    requires
        aimed(s),
    ensures
        aimed(lowered_invoke(s, e, h).0),
        further(s, lowered_invoke(s, e, h).0),
    decreases e, 3nat,
{
    let _ = {
        match e.kind {
            ExprKindView::Invoke {
                callee,
                args,
                kwargs,
                ..
            } => match variant_operation_among(known_adjustments(h), 0) {
                Some(operation) => {
                    lowered_variant_operation_aims(s, e, h, operation);
                    lowered_variant_operation(s, e, h, operation)
                },
                None => {
                    let (s, target) = {
                        lowered_value_aims(s, *callee, child_facts(h, 0));
                        lowered_value(s, *callee, child_facts(h, 0))
                    };
                    let (s, regs) = {
                        lowered_args_aims(s, args, h, 0, Seq::empty(), 1);
                        lowered_args(s, args, h, 0, Seq::empty(), 1)
                    };
                    let (s, kw) = {
                        lowered_kwargs_aims(s, kwargs, h, 0, Seq::empty(), index_sum(1, args.len() as usize));
                        lowered_kwargs(s, kwargs, h, 0, Seq::empty(), index_sum(1, args.len() as usize))
                    };
                    let (s, dest) = {
                        fresh_reg_aims(s, e.span, e.source, None);
                        fresh_reg(s, e.span, e.source, None)
                    };
                    let s = {
                        emitted_aims(s, MirInstrView::CallIndirect { dest, callee: target, raises: known_raises(h), args: regs, kwargs: kw, });
                        emitted(s, MirInstrView::CallIndirect { dest, callee: target, raises: known_raises(h), args: regs, kwargs: kw, })
                    };
                    (s, dest)
                },
            },
            _ => {
                lowered_no_value_aims(s, e);
                lowered_no_value(s, e)
            },
        }
    };
}

pub(crate) proof fn lowered_owner_place_aims(
    s: FlattenView,
    e: ExprView,
    h: Option<HirExprView>,
)
    requires
        aimed(s),
    ensures
        aimed(lowered_owner_place(s, e, h).0),
        further(s, lowered_owner_place(s, e, h).0),
    decreases e, 0nat,
{
    let _ = {
        match e.kind {
            ExprKindView::Member { object, .. } => {
                lowered_try_place_aims(s, *object, child_facts(h, 0), false);
                lowered_try_place(s, *object, child_facts(h, 0), false)
            },
            _ => (s, None),
        }
    };
}

pub(crate) proof fn lowered_operand_place_aims(
    s: FlattenView,
    e: ExprView,
    h: Option<HirExprView>,
)
    requires
        aimed(s),
    ensures
        aimed(lowered_operand_place(s, e, h).0),
        further(s, lowered_operand_place(s, e, h).0),
    decreases e, 0nat,
{
    let _ = {
        match e.kind {
            ExprKindView::Invoke { callee, .. } => {
                lowered_owner_place_aims(s, *callee, child_facts(h, 0));
                lowered_owner_place(s, *callee, child_facts(h, 0))
            },
            _ => (s, None),
        }
    };
}

pub(crate) proof fn lowered_owner_value_aims(
    s: FlattenView,
    e: ExprView,
    h: Option<HirExprView>,
    call: ExprView,
)
    requires
        aimed(s),
    ensures
        aimed(lowered_owner_value(s, e, h, call).0),
        further(s, lowered_owner_value(s, e, h, call).0),
    decreases e, 0nat,
{
    let _ = {
        match e.kind {
            ExprKindView::Member { object, .. } => {
                lowered_value_aims(s, *object, child_facts(h, 0));
                lowered_value(s, *object, child_facts(h, 0))
            },
            _ => {
                lowered_no_value_aims(s, call);
                lowered_no_value(s, call)
            },
        }
    };
}

pub(crate) proof fn lowered_operand_value_aims(
    s: FlattenView,
    e: ExprView,
    h: Option<HirExprView>,
)
    requires
        aimed(s),
    ensures
        aimed(lowered_operand_value(s, e, h).0),
        further(s, lowered_operand_value(s, e, h).0),
    decreases e, 0nat,
{
    let _ = {
        match e.kind {
            ExprKindView::Invoke { callee, .. } => {
                lowered_owner_value_aims(s, *callee, child_facts(h, 0), e);
                lowered_owner_value(s, *callee, child_facts(h, 0), e)
            },
            _ => {
                lowered_no_value_aims(s, e);
                lowered_no_value(s, e)
            },
        }
    };
}

pub(crate) proof fn lowered_operand_payload_aims(
    s: FlattenView,
    e: ExprView,
    h: Option<HirExprView>,
)
    requires
        aimed(s),
    ensures
        aimed(lowered_operand_payload(s, e, h).0),
        further(s, lowered_operand_payload(s, e, h).0),
    decreases e, 0nat,
{
    let _ = {
        match e.kind {
            ExprKindView::Invoke { args, .. } => {
                lowered_first_arg_aims(s, args, child_facts(h, 1), 0);
                lowered_first_arg(s, args, child_facts(h, 1), 0)
            },
            _ => (s, None),
        }
    };
}

pub(crate) proof fn lowered_variant_test_aims(
    s: FlattenView,
    e: ExprView,
    h: Option<HirExprView>,
    index: usize,
)
    requires
        aimed(s),
    ensures
        aimed(lowered_variant_test(s, e, h, index).0),
        further(s, lowered_variant_test(s, e, h, index).0),
    decreases e, 1nat,
{
    let _ = {
        let (s, variant) = {
            lowered_operand_value_aims(s, e, h);
            lowered_operand_value(s, e, h)
        };
        {
            emitted_variant_is_aims(s, e, variant, index);
            emitted_variant_is(s, e, variant, index)
        }
    };
}

pub(crate) proof fn lowered_variant_store_aims(
    s: FlattenView,
    e: ExprView,
    h: Option<HirExprView>,
    index: usize,
)
    requires
        aimed(s),
    ensures
        aimed(lowered_variant_store(s, e, h, index).0),
        further(s, lowered_variant_store(s, e, h, index).0),
    decreases e, 1nat,
{
    let _ = {
        let (s, place) = {
            lowered_operand_place_aims(s, e, h);
            lowered_operand_place(s, e, h)
        };
        let (s, value) = {
            lowered_operand_payload_aims(s, e, h);
            lowered_operand_payload(s, e, h)
        };
        {
            emitted_variant_set_aims(s, e, place, value, index);
            emitted_variant_set(s, e, place, value, index)
        }
    };
}

pub(crate) proof fn lowered_variant_taking_aims(
    s: FlattenView,
    e: ExprView,
    h: Option<HirExprView>,
    index: usize,
    checked: bool,
)
    requires
        aimed(s),
    ensures
        aimed(lowered_variant_taking(s, e, h, index, checked).0),
        further(s, lowered_variant_taking(s, e, h, index, checked).0),
    decreases e, 1nat,
{
    let _ = {
        let (s, place) = {
            lowered_operand_place_aims(s, e, h);
            lowered_operand_place(s, e, h)
        };
        {
            emitted_variant_take_aims(s, e, variant_operand(e), place, index, checked);
            emitted_variant_take(s, e, variant_operand(e), place, index, checked)
        }
    };
}

pub(crate) proof fn lowered_variant_exchange_aims(
    s: FlattenView,
    e: ExprView,
    h: Option<HirExprView>,
    input_index: usize,
    output_index: usize,
    checked: bool,
)
    requires
        aimed(s),
    ensures
        aimed(lowered_variant_exchange(s, e, h, input_index, output_index, checked).0),
        further(s, lowered_variant_exchange(s, e, h, input_index, output_index, checked).0),
    decreases e, 1nat,
{
    let _ = {
        let (s, place) = {
            lowered_operand_place_aims(s, e, h);
            lowered_operand_place(s, e, h)
        };
        let (s, value) = {
            lowered_operand_payload_aims(s, e, h);
            lowered_operand_payload(s, e, h)
        };
        {
            emitted_variant_replace_aims(s, e, place, value, input_index, output_index, checked);
            emitted_variant_replace(s, e, place, value, input_index, output_index, checked)
        }
    };
}

pub(crate) proof fn lowered_variant_operation_aims(
    s: FlattenView,
    e: ExprView,
    h: Option<HirExprView>,
    operation: SemanticAdjustmentView,
)
    requires
        aimed(s),
    ensures
        aimed(lowered_variant_operation(s, e, h, operation).0),
        further(s, lowered_variant_operation(s, e, h, operation).0),
    decreases e, 2nat,
{
    let _ = {
        match operation {
            SemanticAdjustmentView::VariantIs { index } => {
                lowered_variant_test_aims(s, e, h, index);
                lowered_variant_test(s, e, h, index)
            },
            SemanticAdjustmentView::VariantTypeSupported { supported } => {
                lowered_constant_aims(s, e, ConstView::Bool(supported));
                lowered_constant(s, e, ConstView::Bool(supported))
            },
            SemanticAdjustmentView::VariantSet { index } => {
                lowered_variant_store_aims(s, e, h, index);
                lowered_variant_store(s, e, h, index)
            },
            SemanticAdjustmentView::VariantTake { index, checked } => {
                lowered_variant_taking_aims(s, e, h, index, checked);
                lowered_variant_taking(s, e, h, index, checked)
            },
            SemanticAdjustmentView::VariantReplace { input_index, output_index, checked } => {
                lowered_variant_exchange_aims(s, e, h, input_index, output_index, checked);
                lowered_variant_exchange(s, e, h, input_index, output_index, checked)
            },
            _ => {
                lowered_no_value_aims(s, e);
                lowered_no_value(s, e)
            },
        }
    };
}

pub(crate) proof fn emitted_variant_is_aims(
    s: FlattenView,
    e: ExprView,
    variant: Reg,
    index: usize,
)
    requires
        aimed(s),
    ensures
        aimed(emitted_variant_is(s, e, variant, index).0),
        further(s, emitted_variant_is(s, e, variant, index).0),
{
    reveal(emitted_variant_is);
    let _ = {
        let (s, dest) = {
            fresh_reg_aims(s, e.span, e.source, None);
            fresh_reg(s, e.span, e.source, None)
        };
        let s = {
            emitted_aims(s, MirInstrView::VariantIs { dest, variant, index });
            emitted(s, MirInstrView::VariantIs { dest, variant, index })
        };
        (s, dest)
    };
}

pub(crate) proof fn emitted_variant_set_aims(
    s: FlattenView,
    e: ExprView,
    place: Option<MirPlaceView>,
    value: Option<Reg>,
    index: usize,
)
    requires
        aimed(s),
    ensures
        aimed(emitted_variant_set(s, e, place, value, index).0),
        further(s, emitted_variant_set(s, e, place, value, index).0),
{
    reveal(emitted_variant_set);
    let _ = {
        match (place, value) {
            (Some(place), Some(value)) => {
                let (s, dest) = {
                    fresh_reg_aims(s, e.span, e.source, None);
                    fresh_reg(s, e.span, e.source, None)
                };
                let s = {
                    emitted_aims(s, MirInstrView::VariantSet { dest, place, index, value });
                    emitted(s, MirInstrView::VariantSet { dest, place, index, value })
                };
                (s, dest)
            },
            _ => {
                lowered_no_value_aims(s, e);
                lowered_no_value(s, e)
            },
        }
    };
}

pub(crate) proof fn emitted_variant_take_aims(
    s: FlattenView,
    e: ExprView,
    object: ExprView,
    place: Option<MirPlaceView>,
    index: usize,
    checked: bool,
)
    requires
        aimed(s),
    ensures
        aimed(emitted_variant_take(s, e, object, place, index, checked).0),
        further(s, emitted_variant_take(s, e, object, place, index, checked).0),
{
    reveal(emitted_variant_take);
    let _ = {
        match place {
            Some(place) => {
                let (s, variant) = {
                    fresh_reg_aims(s, object.span, object.source, None);
                    fresh_reg(s, object.span, object.source, None)
                };
                let s = {
                    emitted_aims(s, MirInstrView::MovePlace { dest: variant, place });
                    emitted(s, MirInstrView::MovePlace { dest: variant, place })
                };
                let (s, dest) = {
                    fresh_reg_aims(s, e.span, e.source, None);
                    fresh_reg(s, e.span, e.source, None)
                };
                let s = {
                    emitted_aims(s, MirInstrView::VariantTake { dest, variant, index, checked });
                    emitted(s, MirInstrView::VariantTake { dest, variant, index, checked })
                };
                (s, dest)
            },
            None => {
                lowered_no_value_aims(s, e);
                lowered_no_value(s, e)
            },
        }
    };
}

pub(crate) proof fn emitted_variant_replace_aims(
    s: FlattenView,
    e: ExprView,
    place: Option<MirPlaceView>,
    value: Option<Reg>,
    input_index: usize,
    output_index: usize,
    checked: bool,
)
    requires
        aimed(s),
    ensures
        aimed(emitted_variant_replace(s, e, place, value, input_index, output_index, checked).0),
        further(s, emitted_variant_replace(s, e, place, value, input_index, output_index, checked).0),
{
    reveal(emitted_variant_replace);
    let _ = {
        match (place, value) {
            (Some(place), Some(value)) => {
                let (s, dest) = {
                    fresh_reg_aims(s, e.span, e.source, None);
                    fresh_reg(s, e.span, e.source, None)
                };
                let s = {
                    emitted_aims(s, MirInstrView::VariantReplace { dest, place, input_index, output_index, value, checked, });
                    emitted(s, MirInstrView::VariantReplace { dest, place, input_index, output_index, value, checked, })
                };
                (s, dest)
            },
            _ => {
                lowered_no_value_aims(s, e);
                lowered_no_value(s, e)
            },
        }
    };
}

pub(crate) proof fn lowered_method_aims(
    s: FlattenView,
    e: ExprView,
    h: Option<HirExprView>,
)
    requires
        aimed(s),
    ensures
        aimed(lowered_method(s, e, h).0),
        further(s, lowered_method(s, e, h).0),
    decreases e, 4nat,
{
    let _ = {
        match e.kind {
            ExprKindView::MethodCall { object, method, .. } => match object.kind {
                ExprKindView::Identifier(name) => if s.vars.contains(name) {
                    {
                        lowered_value_method_aims(s, e, h);
                        lowered_value_method(s, e, h)
                    }
                } else {
                    let target = match resolved_target(h) {
                        Some(target) => target,
                        None => name + "."@ + method,
                    };
                    {
                        lowered_type_method_aims(s, e, h, target, true);
                        lowered_type_method(s, e, h, target, true)
                    }
                },
                ExprKindView::TypeApply { name, .. } => {
                    lowered_type_method_aims(s, e, h, name + "."@ + method, false);
                    lowered_type_method(s, e, h, name + "."@ + method, false)
                },
                _ => {
                    lowered_value_method_aims(s, e, h);
                    lowered_value_method(s, e, h)
                },
            },
            _ => {
                lowered_no_value_aims(s, e);
                lowered_no_value(s, e)
            },
        }
    };
}

pub(crate) proof fn lowered_type_method_aims(
    s: FlattenView,
    e: ExprView,
    h: Option<HirExprView>,
    target: Seq<char>,
    with_places: bool,
)
    requires
        aimed(s),
    ensures
        aimed(lowered_type_method(s, e, h, target, with_places).0),
        further(s, lowered_type_method(s, e, h, target, with_places).0),
    decreases e, 1nat,
{
    let _ = {
        match e.kind {
            ExprKindView::MethodCall { args, kwargs, .. } => {
                let (s, regs) = {
                    lowered_args_aims(s, args, h, 0, Seq::empty(), 1);
                    lowered_args(s, args, h, 0, Seq::empty(), 1)
                };
                let (s, kw) = {
                    lowered_kwargs_aims(s, kwargs, h, 0, Seq::empty(), index_sum(1, args.len() as usize));
                    lowered_kwargs(s, kwargs, h, 0, Seq::empty(), index_sum(1, args.len() as usize))
                };
                let (s, dest) = {
                    fresh_reg_aims(s, e.span, e.source, None);
                    fresh_reg(s, e.span, e.source, None)
                };
                let (s, places) = if with_places {
                    {
                        lowered_arg_places_aims(s, args, h, 0, Seq::empty(), 1);
                        lowered_arg_places(s, args, h, 0, Seq::empty(), 1)
                    }
                } else {
                    (s, places_unknown(args, 0, Seq::empty()))
                };
                let params = Seq::<Option<Reg>>::empty();
                let s = {
                    emitted_aims(s, MirInstrView::Call { dest, func: callee_named(target), raises: known_raises(h), args: regs, kwargs: kw, arg_places: places, param_arg_regs: params, });
                    emitted(s, MirInstrView::Call { dest, func: callee_named(target), raises: known_raises(h), args: regs, kwargs: kw, arg_places: places, param_arg_regs: params, })
                };
                (s, dest)
            },
            _ => {
                lowered_no_value_aims(s, e);
                lowered_no_value(s, e)
            },
        }
    };
}

pub(crate) proof fn emitted_method_aims(
    s: FlattenView,
    e: ExprView,
    h: Option<HirExprView>,
    method: Seq<char>,
    recv: Reg,
    args: Seq<Reg>,
    kwargs: Seq<(Seq<char>, Reg)>,
    back: Option<MirPlaceView>,
    places: Seq<Option<MirPlaceView>>,
)
    requires
        aimed(s),
    ensures
        aimed(emitted_method(s, e, h, method, recv, args, kwargs, back, places).0),
        further(s, emitted_method(s, e, h, method, recv, args, kwargs, back, places).0),
{
    reveal(emitted_method);
    let _ = {
        let (s, dest) = {
            fresh_reg_aims(s, e.span, e.source, None);
            fresh_reg(s, e.span, e.source, None)
        };
        let s = {
            emitted_aims(s, MirInstrView::MethodCall { dest, recv, method, resolved: resolved_target(h), raises: known_raises(h), args, kwargs, recv_place: back, arg_places: places, });
            emitted(s, MirInstrView::MethodCall { dest, recv, method, resolved: resolved_target(h), raises: known_raises(h), args, kwargs, recv_place: back, arg_places: places, })
        };
        (s, dest)
    };
}

pub(crate) proof fn lowered_value_method_aims(
    s: FlattenView,
    e: ExprView,
    h: Option<HirExprView>,
)
    requires
        aimed(s),
    ensures
        aimed(lowered_value_method(s, e, h).0),
        further(s, lowered_value_method(s, e, h).0),
    decreases e, 3nat,
{
    let _ = {
        match e.kind {
            ExprKindView::MethodCall { method, args, kwargs, .. } => {
                let destroy = explicit_destroy_among(known_adjustments(h), 0);
                let (s, (recv, place)) = {
                    lowered_receiver_aims(s, e, h, destroy);
                    lowered_receiver(s, e, h, destroy)
                };
                let (s, regs) = {
                    lowered_args_aims(s, args, h, 0, Seq::empty(), 1);
                    lowered_args(s, args, h, 0, Seq::empty(), 1)
                };
                let (s, kw) = {
                    lowered_kwargs_aims(s, kwargs, h, 0, Seq::empty(), index_sum(1, args.len() as usize));
                    lowered_kwargs(s, kwargs, h, 0, Seq::empty(), index_sum(1, args.len() as usize))
                };
                let (s, places) = {
                    lowered_arg_places_aims(s, args, h, 0, Seq::empty(), 1);
                    lowered_arg_places(s, args, h, 0, Seq::empty(), 1)
                };
                let back = if destroy {
                    None
                } else {
                    place
                };
                let (s, dest) = {
                    emitted_method_aims(s, e, h, method, recv, regs, kw, back, places);
                    emitted_method(s, e, h, method, recv, regs, kw, back, places)
                };
                let s = if destroy {
                    let s = {
                        consumed_receiver_aims(s, e, h, recv);
                        consumed_receiver(s, e, h, recv)
                    };
                    s
                } else {
                    s
                };
                (s, dest)
            },
            _ => {
                lowered_no_value_aims(s, e);
                lowered_no_value(s, e)
            },
        }
    };
}

pub(crate) proof fn lowered_value_aims(
    s: FlattenView,
    e: ExprView,
    h: Option<HirExprView>,
)
    requires
        aimed(s),
    ensures
        aimed(lowered_value(s, e, h).0),
        further(s, lowered_value(s, e, h).0),
    decreases e, 9nat,
{
    let _ = {
        let (s, reg) = {
            lowered_adjusted_aims(s, e, h);
            lowered_adjusted(s, e, h)
        };
        let s = {
            with_reg_type_aims(s, reg, known_ty(h));
            with_reg_type(s, reg, known_ty(h))
        };
        (s, reg)
    };
}

pub(crate) proof fn lowered_adjusted_aims(
    s: FlattenView,
    e: ExprView,
    h: Option<HirExprView>,
)
    requires
        aimed(s),
    ensures
        aimed(lowered_adjusted(s, e, h).0),
        further(s, lowered_adjusted(s, e, h).0),
    decreases e, 8nat,
{
    let _ = {
        let adjustments = known_adjustments(h);
        if borrow_among(adjustments, 0) is Some {
            {
                lowered_handle_aims(s, e, h);
                lowered_handle(s, e, h)
            }
        } else {
            match conversion_among(adjustments, 0) {
                Some(target) => {
                    let (s, arg) = {
                        lowered_unconverted_aims(s, e, h);
                        lowered_unconverted(s, e, h)
                    };
                    let (s, dest) = {
                        fresh_reg_aims(s, e.span, e.source, None);
                        fresh_reg(s, e.span, e.source, None)
                    };
                    let s = {
                        lowered_conversion_aims(s, dest, target, arg);
                        lowered_conversion(s, dest, target, arg)
                    };
                    (s, dest)
                },
                None => {
                    lowered_unconverted_aims(s, e, h);
                    lowered_unconverted(s, e, h)
                },
            }
        }
    };
}

pub(crate) proof fn lowered_unconverted_aims(
    s: FlattenView,
    e: ExprView,
    h: Option<HirExprView>,
)
    requires
        aimed(s),
    ensures
        aimed(lowered_unconverted(s, e, h).0),
        further(s, lowered_unconverted(s, e, h).0),
    decreases e, 6nat,
{
    let _ = {
        match e.kind {
            ExprKindView::Int(n) => {
                lowered_constant_aims(s, e, ConstView::Int(n));
                lowered_constant(s, e, ConstView::Int(n))
            },
            ExprKindView::Float(bits) => {
                lowered_constant_aims(s, e, ConstView::Float(bits));
                lowered_constant(s, e, ConstView::Float(bits))
            },
            ExprKindView::Bool(b) => {
                lowered_constant_aims(s, e, ConstView::Bool(b));
                lowered_constant(s, e, ConstView::Bool(b))
            },
            ExprKindView::Str(text) => {
                lowered_constant_aims(s, e, ConstView::Str(text));
                lowered_constant(s, e, ConstView::Str(text))
            },
            ExprKindView::NoneLit => {
                lowered_constant_aims(s, e, ConstView::NoneValue);
                lowered_constant(s, e, ConstView::NoneValue)
            },
            ExprKindView::Uninitialized => {
                lowered_constant_aims(s, e, ConstView::NoneValue);
                lowered_constant(s, e, ConstView::NoneValue)
            },
            ExprKindView::Spread(_) => {
                lowered_spread_aims(s, e);
                lowered_spread(s, e)
            },
            ExprKindView::Identifier(name) => {
                lowered_identifier_aims(s, e, name, h);
                lowered_identifier(s, e, name, h)
            },
            ExprKindView::TypeApply { name, .. } => {
                lowered_type_apply_aims(s, e, name, h);
                lowered_type_apply(s, e, name, h)
            },
            ExprKindView::TypeValue(_) => {
                lowered_no_value_aims(s, e);
                lowered_no_value(s, e)
            },
            ExprKindView::Prefix(_, _) => {
                lowered_operation_aims(s, e, h);
                lowered_operation(s, e, h)
            },
            ExprKindView::Infix(_, _, _) => {
                lowered_operation_aims(s, e, h);
                lowered_operation(s, e, h)
            },
            ExprKindView::Named { .. } => {
                lowered_operation_aims(s, e, h);
                lowered_operation(s, e, h)
            },
            ExprKindView::Transfer(_) => {
                lowered_operation_aims(s, e, h);
                lowered_operation(s, e, h)
            },
            ExprKindView::Call { .. } => {
                lowered_application_aims(s, e, h);
                lowered_application(s, e, h)
            },
            ExprKindView::Invoke { .. } => {
                lowered_application_aims(s, e, h);
                lowered_application(s, e, h)
            },
            ExprKindView::MethodCall { .. } => {
                lowered_application_aims(s, e, h);
                lowered_application(s, e, h)
            },
            ExprKindView::Member { .. } => {
                lowered_access_aims(s, e, h);
                lowered_access(s, e, h)
            },
            ExprKindView::Index { .. } => {
                lowered_access_aims(s, e, h);
                lowered_access(s, e, h)
            },
            ExprKindView::Slice { .. } => {
                lowered_access_aims(s, e, h);
                lowered_access(s, e, h)
            },
            ExprKindView::MultiIndex { .. } => {
                lowered_access_aims(s, e, h);
                lowered_access(s, e, h)
            },
            ExprKindView::IfExpr { .. } => {
                lowered_choice_aims(s, e, h);
                lowered_choice(s, e, h)
            },
            ExprKindView::Compare { .. } => {
                lowered_choice_aims(s, e, h);
                lowered_choice(s, e, h)
            },
            ExprKindView::ListLit(_) => {
                lowered_display_aims(s, e, h);
                lowered_display(s, e, h)
            },
            ExprKindView::TupleLit(_) => {
                lowered_display_aims(s, e, h);
                lowered_display(s, e, h)
            },
            ExprKindView::BraceLit(_) => {
                lowered_display_aims(s, e, h);
                lowered_display(s, e, h)
            },
            ExprKindView::Comprehension { .. } => {
                lowered_display_aims(s, e, h);
                lowered_display(s, e, h)
            },
            ExprKindView::TString { .. } => {
                lowered_display_aims(s, e, h);
                lowered_display(s, e, h)
            },
        }
    };
}

pub(crate) proof fn lowered_application_aims(
    s: FlattenView,
    e: ExprView,
    h: Option<HirExprView>,
)
    requires
        aimed(s),
    ensures
        aimed(lowered_application(s, e, h).0),
        further(s, lowered_application(s, e, h).0),
    decreases e, 5nat,
{
    let _ = {
        match e.kind {
            ExprKindView::Call { .. } => {
                lowered_call_aims(s, e, h);
                lowered_call(s, e, h)
            },
            ExprKindView::Invoke { .. } => {
                lowered_invoke_aims(s, e, h);
                lowered_invoke(s, e, h)
            },
            ExprKindView::MethodCall { .. } => {
                lowered_method_aims(s, e, h);
                lowered_method(s, e, h)
            },
            _ => {
                lowered_no_value_aims(s, e);
                lowered_no_value(s, e)
            },
        }
    };
}

pub(crate) proof fn lowered_access_aims(
    s: FlattenView,
    e: ExprView,
    h: Option<HirExprView>,
)
    requires
        aimed(s),
    ensures
        aimed(lowered_access(s, e, h).0),
        further(s, lowered_access(s, e, h).0),
    decreases e, 5nat,
{
    let _ = {
        match e.kind {
            ExprKindView::Member { .. } => {
                lowered_member_aims(s, e, h);
                lowered_member(s, e, h)
            },
            ExprKindView::Index { .. } => {
                lowered_index_aims(s, e, h);
                lowered_index(s, e, h)
            },
            ExprKindView::Slice { .. } => {
                lowered_slice_aims(s, e, h);
                lowered_slice(s, e, h)
            },
            ExprKindView::MultiIndex { .. } => {
                lowered_multi_index_aims(s, e, h);
                lowered_multi_index(s, e, h)
            },
            _ => {
                lowered_no_value_aims(s, e);
                lowered_no_value(s, e)
            },
        }
    };
}

pub(crate) proof fn lowered_choice_aims(
    s: FlattenView,
    e: ExprView,
    h: Option<HirExprView>,
)
    requires
        aimed(s),
    ensures
        aimed(lowered_choice(s, e, h).0),
        further(s, lowered_choice(s, e, h).0),
    decreases e, 5nat,
{
    let _ = {
        match e.kind {
            ExprKindView::IfExpr { .. } => {
                lowered_ternary_aims(s, e, h);
                lowered_ternary(s, e, h)
            },
            ExprKindView::Compare { .. } => {
                lowered_chain_aims(s, e, h);
                lowered_chain(s, e, h)
            },
            _ => {
                lowered_no_value_aims(s, e);
                lowered_no_value(s, e)
            },
        }
    };
}

pub(crate) proof fn lowered_display_aims(
    s: FlattenView,
    e: ExprView,
    h: Option<HirExprView>,
)
    requires
        aimed(s),
    ensures
        aimed(lowered_display(s, e, h).0),
        further(s, lowered_display(s, e, h).0),
    decreases e, 5nat,
{
    let _ = {
        match e.kind {
            ExprKindView::ListLit(_) => {
                lowered_list_aims(s, e, h);
                lowered_list(s, e, h)
            },
            ExprKindView::TupleLit(_) => {
                lowered_list_aims(s, e, h);
                lowered_list(s, e, h)
            },
            ExprKindView::BraceLit(_) => {
                lowered_brace_aims(s, e, h);
                lowered_brace(s, e, h)
            },
            ExprKindView::Comprehension { .. } => {
                lowered_comprehension_aims(s, e, h);
                lowered_comprehension(s, e, h)
            },
            ExprKindView::TString { .. } => {
                lowered_template_aims(s, e, h);
                lowered_template(s, e, h)
            },
            _ => {
                lowered_no_value_aims(s, e);
                lowered_no_value(s, e)
            },
        }
    };
}

pub(crate) proof fn lowered_operation_aims(
    s: FlattenView,
    e: ExprView,
    h: Option<HirExprView>,
)
    requires
        aimed(s),
    ensures
        aimed(lowered_operation(s, e, h).0),
        further(s, lowered_operation(s, e, h).0),
    decreases e, 5nat,
{
    let _ = {
        match e.kind {
            ExprKindView::Prefix(op, value) => {
                let (s, a) = {
                    lowered_value_aims(s, *value, child_facts(h, 0));
                    lowered_value(s, *value, child_facts(h, 0))
                };
                {
                    emitted_unary_aims(s, e, op, a);
                    emitted_unary(s, e, op, a)
                }
            },
            ExprKindView::Infix(op, left, right) => if op == InfixOp::And || op == InfixOp::Or {
                {
                    lowered_short_circuit_aims(s, e, h);
                    lowered_short_circuit(s, e, h)
                }
            } else {
                let (s, a) = {
                    lowered_value_aims(s, *left, child_facts(h, 0));
                    lowered_value(s, *left, child_facts(h, 0))
                };
                let (s, b) = {
                    lowered_value_aims(s, *right, child_facts(h, 1));
                    lowered_value(s, *right, child_facts(h, 1))
                };
                {
                    emitted_binary_aims(s, e, op, a, b);
                    emitted_binary(s, e, op, a, b)
                }
            },
            ExprKindView::Named { name, value } => {
                let (s, reg) = {
                    lowered_value_aims(s, *value, child_facts(h, 0));
                    lowered_value(s, *value, child_facts(h, 0))
                };
                let (s, var) = {
                    interned_aims(s, name);
                    interned(s, name)
                };
                let s = {
                    defined_aims(s, var, reg, None);
                    defined(s, var, reg, None)
                };
                (s, reg)
            },
            ExprKindView::Transfer(_) => {
                lowered_transfer_aims(s, e, h);
                lowered_transfer(s, e, h)
            },
            _ => {
                lowered_no_value_aims(s, e);
                lowered_no_value(s, e)
            },
        }
    };
}

pub(crate) proof fn emitted_unary_aims(
    s: FlattenView,
    e: ExprView,
    op: PrefixOp,
    a: Reg,
)
    requires
        aimed(s),
    ensures
        aimed(emitted_unary(s, e, op, a).0),
        further(s, emitted_unary(s, e, op, a).0),
{
    reveal(emitted_unary);
    let _ = {
        let (s, dest) = {
            fresh_reg_aims(s, e.span, e.source, None);
            fresh_reg(s, e.span, e.source, None)
        };
        let s = {
            emitted_aims(s, MirInstrView::UnOp { op, dest, a });
            emitted(s, MirInstrView::UnOp { op, dest, a })
        };
        (s, dest)
    };
}

pub(crate) proof fn emitted_binary_aims(
    s: FlattenView,
    e: ExprView,
    op: InfixOp,
    a: Reg,
    b: Reg,
)
    requires
        aimed(s),
    ensures
        aimed(emitted_binary(s, e, op, a, b).0),
        further(s, emitted_binary(s, e, op, a, b).0),
{
    reveal(emitted_binary);
    let _ = {
        let (s, dest) = {
            fresh_reg_aims(s, e.span, e.source, None);
            fresh_reg(s, e.span, e.source, None)
        };
        let s = {
            emitted_aims(s, MirInstrView::BinOp { op, dest, a, b });
            emitted(s, MirInstrView::BinOp { op, dest, a, b })
        };
        (s, dest)
    };
}

pub(crate) proof fn lowered_type_apply_aims(
    s: FlattenView,
    e: ExprView,
    name: Seq<char>,
    h: Option<HirExprView>,
)
    requires
        aimed(s),
    ensures
        aimed(lowered_type_apply(s, e, name, h).0),
        further(s, lowered_type_apply(s, e, name, h).0),
{
    reveal(lowered_type_apply);
    let _ = {
        let (s, place) = {
            lowered_variant_read_aims(s, name, h);
            lowered_variant_read(s, name, h)
        };
        match place {
            Some(place) => {
                let (s, dest) = {
                    fresh_reg_aims(s, e.span, e.source, Some(place.root));
                    fresh_reg(s, e.span, e.source, Some(place.root))
                };
                let s = {
                    emitted_aims(s, MirInstrView::LoadPlace { dest, place });
                    emitted(s, MirInstrView::LoadPlace { dest, place })
                };
                (s, dest)
            },
            None => {
                lowered_no_value_aims(s, e);
                lowered_no_value(s, e)
            },
        }
    };
}

pub(crate) proof fn lowered_spread_aims(
    s: FlattenView,
    e: ExprView,
)
    requires
        aimed(s),
    ensures
        aimed(lowered_spread(s, e).0),
        further(s, lowered_spread(s, e).0),
{
    reveal(lowered_spread);
    let _ = {
        let (s, dest) = {
            fresh_reg_aims(s, e.span, e.source, None);
            fresh_reg(s, e.span, e.source, None)
        };
        let s = {
            marked_unsupported_aims(s, "unexpanded call spread reached MIR lowering"@);
            marked_unsupported(s, "unexpanded call spread reached MIR lowering"@)
        };
        let s = {
            emitted_aims(s, MirInstrView::Const { dest, k: ConstView::NoneValue });
            emitted(s, MirInstrView::Const { dest, k: ConstView::NoneValue })
        };
        (s, dest)
    };
}

pub(crate) proof fn lowered_variant_read_aims(
    s: FlattenView,
    name: Seq<char>,
    h: Option<HirExprView>,
)
    requires
        aimed(s),
    ensures
        aimed(lowered_variant_read(s, name, h).0),
        further(s, lowered_variant_read(s, name, h).0),
{
    reveal(lowered_variant_read);
    let _ = {
        match projected_variant(known_adjustments(h), 0) {
            Some((alternatives, index)) => match known_any_ty(h) {
                Some(ty) => {
                    let (s, base) = {
                        place_of_name_aims(s, name);
                        place_of_name(s, name)
                    };
                    let root = if base.root_ty is None {
                        with_variant_root(base, alternatives)
                    } else {
                        base
                    };
                    (s, Some(projected(root, ProjView::Variant(index), ty)))
                },
                None => (s, None),
            },
            None => (s, None),
        }
    };
}

} // verus!
