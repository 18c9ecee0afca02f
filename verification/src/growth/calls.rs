//! Flattening only adds registers, slots and blocks: calls.

use crate::ast::{CaptureKind, CaptureView, ExprKindView, ExprView, InfixOp, PrefixOp};
use crate::calls::{
    emitted_binary, emitted_method, emitted_unary, emitted_variant_is, emitted_variant_replace,
    emitted_variant_set, emitted_variant_take, kept_alive, lowered_access, lowered_adjusted,
    lowered_application, lowered_call, lowered_choice, lowered_display, lowered_first_arg,
    lowered_invoke, lowered_local_call, lowered_method, lowered_named_call, lowered_nested_call,
    lowered_operand_payload, lowered_operand_place, lowered_operand_value, lowered_operation,
    lowered_owner_place, lowered_owner_value, lowered_spread, lowered_type_apply,
    lowered_type_method, lowered_unconverted, lowered_value, lowered_value_method, lowered_variant,
    lowered_variant_exchange, lowered_variant_operation, lowered_variant_read,
    lowered_variant_store, lowered_variant_taking, lowered_variant_test, places_unknown,
    target_of_call, variant_operand, with_variant_root,
};
use crate::checked::SemanticAdjustmentView;
use crate::comprehensions::lowered_comprehension;
use crate::exprs::{
    elements_of_tuple, lowered_arg_places, lowered_args, lowered_brace, lowered_chain,
    lowered_conversion, lowered_index, lowered_kwargs, lowered_list, lowered_member,
    lowered_multi_index, lowered_no_value, lowered_param_args, lowered_short_circuit, lowered_slice,
    lowered_template, lowered_ternary, lowered_transfer,
};
use crate::facts::projected_variant;
use crate::flatten::{
    FlattenView, NestedInfoView, borrow_among, child_facts, conversion_among, defined, emitted,
    explicit_destroy_among, fresh_reg, index_sum, interned, known_adjustments, known_any_ty,
    known_raises, known_ty, lowered_closure, lowered_constant, lowered_identifier,
    marked_unsupported, names_function, nested_named, place_of_name, pointer_among, resolved_target,
    simd_among, variant_among, variant_operation_among, with_reg_type,
};
use crate::growth::comprehensions::lowered_comprehension_grows;
use crate::growth::exprs::{
    lowered_arg_places_grows, lowered_args_grows, lowered_brace_grows, lowered_chain_grows,
    lowered_conversion_grows, lowered_index_grows, lowered_kwargs_grows, lowered_list_grows,
    lowered_member_grows, lowered_multi_index_grows, lowered_no_value_grows,
    lowered_param_args_grows, lowered_short_circuit_grows, lowered_slice_grows,
    lowered_template_grows, lowered_ternary_grows, lowered_transfer_grows,
};
use crate::growth::flatten::{
    defined_grows, emitted_grows, fresh_reg_grows, grown, interned_grows, lowered_closure_grows,
    lowered_constant_grows, lowered_identifier_grows, marked_unsupported_grows, place_of_name_grows,
    with_reg_type_grows,
};
use crate::growth::places::{
    lowered_handle_grows, lowered_pointer_source_grows, lowered_try_place_grows,
};
use crate::growth::receivers::{consumed_receiver_grows, lowered_receiver_grows};
use crate::hir::HirExprView;
use crate::mir::{
    Const, ConstView, MirInstrView, MirPlaceView, ProjView, Reg, callee_named, projected,
};
use crate::places::{lowered_handle, lowered_pointer_source, lowered_try_place};
use crate::receivers::{consumed_receiver, lowered_receiver};
use crate::types::TyView;
use vstd::prelude::*;

verus! {

pub(crate) proof fn lowered_call_grows(
    from: FlattenView,
    s: FlattenView,
    e: ExprView,
    h: Option<HirExprView>,
)
    requires
        grown(from, s),
    ensures
        grown(from, lowered_call(s, e, h).0),
        s.blocks.len() <= lowered_call(s, e, h).0.blocks.len(),
    decreases e, 2nat,
{
    let _ = {
        match e.kind {
            ExprKindView::Call { name, args, kwargs, .. } => {
                let adjustments = known_adjustments(h);
                if pointer_among(adjustments, 0) is Some {
                    let (s, place) = {
                        lowered_pointer_source_grows(from, s, kwargs, child_facts(h, args.len() as usize), 0);
                        lowered_pointer_source(s, kwargs, child_facts(h, args.len() as usize), 0)
                    };
                    match place {
                        Some(place) => {
                            let (s, dest) = {
                                fresh_reg_grows(from, s, e.span, e.source, Some(place.root));
                                fresh_reg(s, e.span, e.source, Some(place.root))
                            };
                            let s = {
                                emitted_grows(from, s, MirInstrView::MakeRef { dest, place });
                                emitted(s, MirInstrView::MakeRef { dest, place })
                            };
                            (s, dest)
                        },
                        None => {
                            lowered_no_value_grows(from, s, e);
                            lowered_no_value(s, e)
                        },
                    }
                } else {
                    match variant_among(adjustments, 0) {
                        Some((alternatives, index)) => {
                            lowered_variant_grows(from, s, e, h, alternatives, index);
                            lowered_variant(s, e, h, alternatives, index)
                        },
                        None => match simd_among(adjustments, 0) {
                            Some((dtype, width)) => {
                                let (s, elems) = {
                                    lowered_args_grows(from, s, args, h, 0, Seq::empty(), 0);
                                    lowered_args(s, args, h, 0, Seq::empty(), 0)
                                };
                                let (s, dest) = {
                                    fresh_reg_grows(from, s, e.span, e.source, None);
                                    fresh_reg(s, e.span, e.source, None)
                                };
                                let s = {
                                    emitted_grows(from, s, MirInstrView::MakeSimd { dest, dtype, width, elems });
                                    emitted(s, MirInstrView::MakeSimd { dest, dtype, width, elems })
                                };
                                (s, dest)
                            },
                            None => match nested_named(s.nested, name, 0) {
                                Some(info) => {
                                    lowered_nested_call_grows(from, s, e, h, info);
                                    lowered_nested_call(s, e, h, info)
                                },
                                None => if s.vars.contains(name) {
                                    {
                                        lowered_local_call_grows(from, s, e, h);
                                        lowered_local_call(s, e, h)
                                    }
                                } else {
                                    {
                                        lowered_named_call_grows(from, s, e, h);
                                        lowered_named_call(s, e, h)
                                    }
                                },
                            },
                        },
                    }
                }
            },
            _ => {
                lowered_no_value_grows(from, s, e);
                lowered_no_value(s, e)
            },
        }
    };
}

pub(crate) proof fn lowered_variant_grows(
    from: FlattenView,
    s: FlattenView,
    e: ExprView,
    h: Option<HirExprView>,
    alternatives: Seq<TyView>,
    index: usize,
)
    requires
        grown(from, s),
    ensures
        grown(from, lowered_variant(s, e, h, alternatives, index).0),
        s.blocks.len() <= lowered_variant(s, e, h, alternatives, index).0.blocks.len(),
    decreases e, 1nat,
{
    let _ = {
        match e.kind {
            ExprKindView::Call { args, .. } => {
                let (s, payload) = {
                    lowered_first_arg_grows(from, s, args, child_facts(h, 0), 0);
                    lowered_first_arg(s, args, child_facts(h, 0), 0)
                };
                match payload {
                    Some(value) => {
                        let (s, dest) = {
                            fresh_reg_grows(from, s, e.span, e.source, None);
                            fresh_reg(s, e.span, e.source, None)
                        };
                        let s = {
                            emitted_grows(from, s, MirInstrView::MakeVariant { dest, alternatives, index, value });
                            emitted(s, MirInstrView::MakeVariant { dest, alternatives, index, value })
                        };
                        (s, dest)
                    },
                    None => {
                        lowered_no_value_grows(from, s, e);
                        lowered_no_value(s, e)
                    },
                }
            },
            _ => {
                lowered_no_value_grows(from, s, e);
                lowered_no_value(s, e)
            },
        }
    };
}

pub(crate) proof fn lowered_first_arg_grows(
    from: FlattenView,
    s: FlattenView,
    args: Seq<ExprView>,
    h: Option<HirExprView>,
    i: nat,
)
    requires
        grown(from, s),
    ensures
        grown(from, lowered_first_arg(s, args, h, i).0),
        s.blocks.len() <= lowered_first_arg(s, args, h, i).0.blocks.len(),
    decreases args, (args.len() - i) as nat,
{
    let _ = {
        if i >= args.len() {
            (s, None)
        } else {
            let arg = args[i as int];
            let (s, reg) = {
                lowered_value_grows(from, s, arg, h);
                lowered_value(s, arg, h)
            };
            (s, Some(reg))
        }
    };
}

pub(crate) proof fn lowered_nested_call_grows(
    from: FlattenView,
    s: FlattenView,
    e: ExprView,
    h: Option<HirExprView>,
    info: NestedInfoView,
)
    requires
        grown(from, s),
    ensures
        grown(from, lowered_nested_call(s, e, h, info).0),
        s.blocks.len() <= lowered_nested_call(s, e, h, info).0.blocks.len(),
    decreases e, 1nat,
{
    let _ = {
        match e.kind {
            ExprKindView::Call { args, .. } => {
                let (s, callee) = {
                    lowered_closure_grows(from, s, e, info);
                    lowered_closure(s, e, info)
                };
                let (s, regs) = {
                    lowered_args_grows(from, s, args, h, 0, Seq::empty(), 0);
                    lowered_args(s, args, h, 0, Seq::empty(), 0)
                };
                let (s, dest) = {
                    fresh_reg_grows(from, s, e.span, e.source, None);
                    fresh_reg(s, e.span, e.source, None)
                };
                let kwargs = Seq::<(Seq<char>, Reg)>::empty();
                let s = {
                    emitted_grows(from, s, MirInstrView::CallIndirect { dest, callee, raises: known_raises(h), args: regs, kwargs, });
                    emitted(s, MirInstrView::CallIndirect { dest, callee, raises: known_raises(h), args: regs, kwargs, })
                };
                let s = {
                    kept_alive_grows(from, s, info.captures, 0);
                    kept_alive(s, info.captures, 0)
                };
                (s, dest)
            },
            _ => {
                lowered_no_value_grows(from, s, e);
                lowered_no_value(s, e)
            },
        }
    };
}

pub(crate) proof fn kept_alive_grows(
    from: FlattenView,
    s: FlattenView,
    captures: Seq<CaptureView>,
    i: nat,
)
    requires
        grown(from, s),
    ensures
        grown(from, kept_alive(s, captures, i)),
        s.blocks.len() <= kept_alive(s, captures, i).blocks.len(),
    decreases captures, (captures.len() - i) as nat,
{
    let _ = {
        if i >= captures.len() {
            s
        } else {
            let capture = captures[i as int];
            if capture.kind != CaptureKind::Move {
                let (s, var) = {
                    interned_grows(from, s, capture.name);
                    interned(s, capture.name)
                };
                let s = {
                    emitted_grows(from, s, MirInstrView::KeepAlive { var });
                    emitted(s, MirInstrView::KeepAlive { var })
                };
                {
                    kept_alive_grows(from, s, captures, i + 1);
                    kept_alive(s, captures, i + 1)
                }
            } else {
                {
                    kept_alive_grows(from, s, captures, i + 1);
                    kept_alive(s, captures, i + 1)
                }
            }
        }
    };
}

pub(crate) proof fn lowered_local_call_grows(
    from: FlattenView,
    s: FlattenView,
    e: ExprView,
    h: Option<HirExprView>,
)
    requires
        grown(from, s),
    ensures
        grown(from, lowered_local_call(s, e, h).0),
        s.blocks.len() <= lowered_local_call(s, e, h).0.blocks.len(),
    decreases e, 1nat,
{
    let _ = {
        match e.kind {
            ExprKindView::Call { name, args, kwargs, .. } => {
                let (s, callee) = {
                    lowered_identifier_grows(from, s, e, name, None);
                    lowered_identifier(s, e, name, None)
                };
                let (s, regs) = {
                    lowered_args_grows(from, s, args, h, 0, Seq::empty(), 0);
                    lowered_args(s, args, h, 0, Seq::empty(), 0)
                };
                let (s, kw) = {
                    lowered_kwargs_grows(from, s, kwargs, h, 0, Seq::empty(), args.len() as usize);
                    lowered_kwargs(s, kwargs, h, 0, Seq::empty(), args.len() as usize)
                };
                let (s, dest) = {
                    fresh_reg_grows(from, s, e.span, e.source, None);
                    fresh_reg(s, e.span, e.source, None)
                };
                let s = {
                    emitted_grows(from, s, MirInstrView::CallIndirect { dest, callee, raises: known_raises(h), args: regs, kwargs: kw, });
                    emitted(s, MirInstrView::CallIndirect { dest, callee, raises: known_raises(h), args: regs, kwargs: kw, })
                };
                (s, dest)
            },
            _ => {
                lowered_no_value_grows(from, s, e);
                lowered_no_value(s, e)
            },
        }
    };
}

pub(crate) proof fn lowered_named_call_grows(
    from: FlattenView,
    s: FlattenView,
    e: ExprView,
    h: Option<HirExprView>,
)
    requires
        grown(from, s),
    ensures
        grown(from, lowered_named_call(s, e, h).0),
        s.blocks.len() <= lowered_named_call(s, e, h).0.blocks.len(),
    decreases e, 1nat,
{
    let _ = {
        match e.kind {
            ExprKindView::Call {
                name,
                param_args,
                args,
                kwargs,
            } => if name == "Tuple"@ && kwargs.len() == 0 && !names_function(s.overloads.functions, name, 0) {
                let (s, regs) = {
                    lowered_args_grows(from, s, args, h, 0, Seq::empty(), 0);
                    lowered_args(s, args, h, 0, Seq::empty(), 0)
                };
                let (s, dest) = {
                    fresh_reg_grows(from, s, e.span, e.source, None);
                    fresh_reg(s, e.span, e.source, None)
                };
                let s = {
                    emitted_grows(from, s, MirInstrView::MakeTuple { dest, elems: regs, element_types: elements_of_tuple(known_ty(h)), });
                    emitted(s, MirInstrView::MakeTuple { dest, elems: regs, element_types: elements_of_tuple(known_ty(h)), })
                };
                (s, dest)
            } else {
                let (s, params) = {
                    lowered_param_args_grows(from, s, param_args, 0, Seq::empty());
                    lowered_param_args(s, param_args, 0, Seq::empty())
                };
                let (s, regs) = {
                    lowered_args_grows(from, s, args, h, 0, Seq::empty(), 0);
                    lowered_args(s, args, h, 0, Seq::empty(), 0)
                };
                let (s, places) = {
                    lowered_arg_places_grows(from, s, args, h, 0, Seq::empty(), 0);
                    lowered_arg_places(s, args, h, 0, Seq::empty(), 0)
                };
                let (s, kw) = {
                    lowered_kwargs_grows(from, s, kwargs, h, 0, Seq::empty(), args.len() as usize);
                    lowered_kwargs(s, kwargs, h, 0, Seq::empty(), args.len() as usize)
                };
                let target = target_of_call(h, s.overloads.functions, name, args.len() as usize);
                let (s, dest) = {
                    fresh_reg_grows(from, s, e.span, e.source, None);
                    fresh_reg(s, e.span, e.source, None)
                };
                let s = {
                    emitted_grows(from, s, MirInstrView::Call { dest, func: callee_named(target), raises: known_raises(h), args: regs, kwargs: kw, arg_places: places, param_arg_regs: params, });
                    emitted(s, MirInstrView::Call { dest, func: callee_named(target), raises: known_raises(h), args: regs, kwargs: kw, arg_places: places, param_arg_regs: params, })
                };
                (s, dest)
            },
            _ => {
                lowered_no_value_grows(from, s, e);
                lowered_no_value(s, e)
            },
        }
    };
}

pub(crate) proof fn lowered_invoke_grows(
    from: FlattenView,
    s: FlattenView,
    e: ExprView,
    h: Option<HirExprView>,
)
    requires
        grown(from, s),
    ensures
        grown(from, lowered_invoke(s, e, h).0),
        s.blocks.len() <= lowered_invoke(s, e, h).0.blocks.len(),
    decreases e, 3nat,
{
    let _ = {
        match e.kind {
            ExprKindView::Invoke {
                callee,
                args,
                kwargs,
                ..
            } => match variant_operation_among(known_adjustments(h), 0) {
                Some(operation) => {
                    lowered_variant_operation_grows(from, s, e, h, operation);
                    lowered_variant_operation(s, e, h, operation)
                },
                None => {
                    let (s, target) = {
                        lowered_value_grows(from, s, *callee, child_facts(h, 0));
                        lowered_value(s, *callee, child_facts(h, 0))
                    };
                    let (s, regs) = {
                        lowered_args_grows(from, s, args, h, 0, Seq::empty(), 1);
                        lowered_args(s, args, h, 0, Seq::empty(), 1)
                    };
                    let (s, kw) = {
                        lowered_kwargs_grows(from, s, kwargs, h, 0, Seq::empty(), index_sum(1, args.len() as usize));
                        lowered_kwargs(s, kwargs, h, 0, Seq::empty(), index_sum(1, args.len() as usize))
                    };
                    let (s, dest) = {
                        fresh_reg_grows(from, s, e.span, e.source, None);
                        fresh_reg(s, e.span, e.source, None)
                    };
                    let s = {
                        emitted_grows(from, s, MirInstrView::CallIndirect { dest, callee: target, raises: known_raises(h), args: regs, kwargs: kw, });
                        emitted(s, MirInstrView::CallIndirect { dest, callee: target, raises: known_raises(h), args: regs, kwargs: kw, })
                    };
                    (s, dest)
                },
            },
            _ => {
                lowered_no_value_grows(from, s, e);
                lowered_no_value(s, e)
            },
        }
    };
}

pub(crate) proof fn lowered_owner_place_grows(
    from: FlattenView,
    s: FlattenView,
    e: ExprView,
    h: Option<HirExprView>,
)
    requires
        grown(from, s),
    ensures
        grown(from, lowered_owner_place(s, e, h).0),
        s.blocks.len() <= lowered_owner_place(s, e, h).0.blocks.len(),
    decreases e, 0nat,
{
    let _ = {
        match e.kind {
            ExprKindView::Member { object, .. } => {
                lowered_try_place_grows(from, s, *object, child_facts(h, 0), false);
                lowered_try_place(s, *object, child_facts(h, 0), false)
            },
            _ => (s, None),
        }
    };
}

pub(crate) proof fn lowered_operand_place_grows(
    from: FlattenView,
    s: FlattenView,
    e: ExprView,
    h: Option<HirExprView>,
)
    requires
        grown(from, s),
    ensures
        grown(from, lowered_operand_place(s, e, h).0),
        s.blocks.len() <= lowered_operand_place(s, e, h).0.blocks.len(),
    decreases e, 0nat,
{
    let _ = {
        match e.kind {
            ExprKindView::Invoke { callee, .. } => {
                lowered_owner_place_grows(from, s, *callee, child_facts(h, 0));
                lowered_owner_place(s, *callee, child_facts(h, 0))
            },
            _ => (s, None),
        }
    };
}

pub(crate) proof fn lowered_owner_value_grows(
    from: FlattenView,
    s: FlattenView,
    e: ExprView,
    h: Option<HirExprView>,
    call: ExprView,
)
    requires
        grown(from, s),
    ensures
        grown(from, lowered_owner_value(s, e, h, call).0),
        s.blocks.len() <= lowered_owner_value(s, e, h, call).0.blocks.len(),
    decreases e, 0nat,
{
    let _ = {
        match e.kind {
            ExprKindView::Member { object, .. } => {
                lowered_value_grows(from, s, *object, child_facts(h, 0));
                lowered_value(s, *object, child_facts(h, 0))
            },
            _ => {
                lowered_no_value_grows(from, s, call);
                lowered_no_value(s, call)
            },
        }
    };
}

pub(crate) proof fn lowered_operand_value_grows(
    from: FlattenView,
    s: FlattenView,
    e: ExprView,
    h: Option<HirExprView>,
)
    requires
        grown(from, s),
    ensures
        grown(from, lowered_operand_value(s, e, h).0),
        s.blocks.len() <= lowered_operand_value(s, e, h).0.blocks.len(),
    decreases e, 0nat,
{
    let _ = {
        match e.kind {
            ExprKindView::Invoke { callee, .. } => {
                lowered_owner_value_grows(from, s, *callee, child_facts(h, 0), e);
                lowered_owner_value(s, *callee, child_facts(h, 0), e)
            },
            _ => {
                lowered_no_value_grows(from, s, e);
                lowered_no_value(s, e)
            },
        }
    };
}

pub(crate) proof fn lowered_operand_payload_grows(
    from: FlattenView,
    s: FlattenView,
    e: ExprView,
    h: Option<HirExprView>,
)
    requires
        grown(from, s),
    ensures
        grown(from, lowered_operand_payload(s, e, h).0),
        s.blocks.len() <= lowered_operand_payload(s, e, h).0.blocks.len(),
    decreases e, 0nat,
{
    let _ = {
        match e.kind {
            ExprKindView::Invoke { args, .. } => {
                lowered_first_arg_grows(from, s, args, child_facts(h, 1), 0);
                lowered_first_arg(s, args, child_facts(h, 1), 0)
            },
            _ => (s, None),
        }
    };
}

pub(crate) proof fn lowered_variant_test_grows(
    from: FlattenView,
    s: FlattenView,
    e: ExprView,
    h: Option<HirExprView>,
    index: usize,
)
    requires
        grown(from, s),
    ensures
        grown(from, lowered_variant_test(s, e, h, index).0),
        s.blocks.len() <= lowered_variant_test(s, e, h, index).0.blocks.len(),
    decreases e, 1nat,
{
    let _ = {
        let (s, variant) = {
            lowered_operand_value_grows(from, s, e, h);
            lowered_operand_value(s, e, h)
        };
        {
            emitted_variant_is_grows(from, s, e, variant, index);
            emitted_variant_is(s, e, variant, index)
        }
    };
}

pub(crate) proof fn lowered_variant_store_grows(
    from: FlattenView,
    s: FlattenView,
    e: ExprView,
    h: Option<HirExprView>,
    index: usize,
)
    requires
        grown(from, s),
    ensures
        grown(from, lowered_variant_store(s, e, h, index).0),
        s.blocks.len() <= lowered_variant_store(s, e, h, index).0.blocks.len(),
    decreases e, 1nat,
{
    let _ = {
        let (s, place) = {
            lowered_operand_place_grows(from, s, e, h);
            lowered_operand_place(s, e, h)
        };
        let (s, value) = {
            lowered_operand_payload_grows(from, s, e, h);
            lowered_operand_payload(s, e, h)
        };
        {
            emitted_variant_set_grows(from, s, e, place, value, index);
            emitted_variant_set(s, e, place, value, index)
        }
    };
}

pub(crate) proof fn lowered_variant_taking_grows(
    from: FlattenView,
    s: FlattenView,
    e: ExprView,
    h: Option<HirExprView>,
    index: usize,
    checked: bool,
)
    requires
        grown(from, s),
    ensures
        grown(from, lowered_variant_taking(s, e, h, index, checked).0),
        s.blocks.len() <= lowered_variant_taking(s, e, h, index, checked).0.blocks.len(),
    decreases e, 1nat,
{
    let _ = {
        let (s, place) = {
            lowered_operand_place_grows(from, s, e, h);
            lowered_operand_place(s, e, h)
        };
        {
            emitted_variant_take_grows(from, s, e, variant_operand(e), place, index, checked);
            emitted_variant_take(s, e, variant_operand(e), place, index, checked)
        }
    };
}

pub(crate) proof fn lowered_variant_exchange_grows(
    from: FlattenView,
    s: FlattenView,
    e: ExprView,
    h: Option<HirExprView>,
    input_index: usize,
    output_index: usize,
    checked: bool,
)
    requires
        grown(from, s),
    ensures
        grown(from, lowered_variant_exchange(s, e, h, input_index, output_index, checked).0),
        s.blocks.len() <= lowered_variant_exchange(s, e, h, input_index, output_index, checked).0.blocks.len(),
    decreases e, 1nat,
{
    let _ = {
        let (s, place) = {
            lowered_operand_place_grows(from, s, e, h);
            lowered_operand_place(s, e, h)
        };
        let (s, value) = {
            lowered_operand_payload_grows(from, s, e, h);
            lowered_operand_payload(s, e, h)
        };
        {
            emitted_variant_replace_grows(from, s, e, place, value, input_index, output_index, checked);
            emitted_variant_replace(s, e, place, value, input_index, output_index, checked)
        }
    };
}

pub(crate) proof fn lowered_variant_operation_grows(
    from: FlattenView,
    s: FlattenView,
    e: ExprView,
    h: Option<HirExprView>,
    operation: SemanticAdjustmentView,
)
    requires
        grown(from, s),
    ensures
        grown(from, lowered_variant_operation(s, e, h, operation).0),
        s.blocks.len() <= lowered_variant_operation(s, e, h, operation).0.blocks.len(),
    decreases e, 2nat,
{
    let _ = {
        match operation {
            SemanticAdjustmentView::VariantIs { index } => {
                lowered_variant_test_grows(from, s, e, h, index);
                lowered_variant_test(s, e, h, index)
            },
            SemanticAdjustmentView::VariantTypeSupported { supported } => {
                lowered_constant_grows(from, s, e, ConstView::Bool(supported));
                lowered_constant(s, e, ConstView::Bool(supported))
            },
            SemanticAdjustmentView::VariantSet { index } => {
                lowered_variant_store_grows(from, s, e, h, index);
                lowered_variant_store(s, e, h, index)
            },
            SemanticAdjustmentView::VariantTake { index, checked } => {
                lowered_variant_taking_grows(from, s, e, h, index, checked);
                lowered_variant_taking(s, e, h, index, checked)
            },
            SemanticAdjustmentView::VariantReplace { input_index, output_index, checked } => {
                lowered_variant_exchange_grows(from, s, e, h, input_index, output_index, checked);
                lowered_variant_exchange(s, e, h, input_index, output_index, checked)
            },
            _ => {
                lowered_no_value_grows(from, s, e);
                lowered_no_value(s, e)
            },
        }
    };
}

pub(crate) proof fn emitted_variant_is_grows(
    from: FlattenView,
    s: FlattenView,
    e: ExprView,
    variant: Reg,
    index: usize,
)
    requires
        grown(from, s),
    ensures
        grown(from, emitted_variant_is(s, e, variant, index).0),
        s.blocks.len() <= emitted_variant_is(s, e, variant, index).0.blocks.len(),
{
    reveal(emitted_variant_is);
    let _ = {
        let (s, dest) = {
            fresh_reg_grows(from, s, e.span, e.source, None);
            fresh_reg(s, e.span, e.source, None)
        };
        let s = {
            emitted_grows(from, s, MirInstrView::VariantIs { dest, variant, index });
            emitted(s, MirInstrView::VariantIs { dest, variant, index })
        };
        (s, dest)
    };
}

pub(crate) proof fn emitted_variant_set_grows(
    from: FlattenView,
    s: FlattenView,
    e: ExprView,
    place: Option<MirPlaceView>,
    value: Option<Reg>,
    index: usize,
)
    requires
        grown(from, s),
    ensures
        grown(from, emitted_variant_set(s, e, place, value, index).0),
        s.blocks.len() <= emitted_variant_set(s, e, place, value, index).0.blocks.len(),
{
    reveal(emitted_variant_set);
    let _ = {
        match (place, value) {
            (Some(place), Some(value)) => {
                let (s, dest) = {
                    fresh_reg_grows(from, s, e.span, e.source, None);
                    fresh_reg(s, e.span, e.source, None)
                };
                let s = {
                    emitted_grows(from, s, MirInstrView::VariantSet { dest, place, index, value });
                    emitted(s, MirInstrView::VariantSet { dest, place, index, value })
                };
                (s, dest)
            },
            _ => {
                lowered_no_value_grows(from, s, e);
                lowered_no_value(s, e)
            },
        }
    };
}

pub(crate) proof fn emitted_variant_take_grows(
    from: FlattenView,
    s: FlattenView,
    e: ExprView,
    object: ExprView,
    place: Option<MirPlaceView>,
    index: usize,
    checked: bool,
)
    requires
        grown(from, s),
    ensures
        grown(from, emitted_variant_take(s, e, object, place, index, checked).0),
        s.blocks.len() <= emitted_variant_take(s, e, object, place, index, checked).0.blocks.len(),
{
    reveal(emitted_variant_take);
    let _ = {
        match place {
            Some(place) => {
                let (s, variant) = {
                    fresh_reg_grows(from, s, object.span, object.source, None);
                    fresh_reg(s, object.span, object.source, None)
                };
                let s = {
                    emitted_grows(from, s, MirInstrView::MovePlace { dest: variant, place });
                    emitted(s, MirInstrView::MovePlace { dest: variant, place })
                };
                let (s, dest) = {
                    fresh_reg_grows(from, s, e.span, e.source, None);
                    fresh_reg(s, e.span, e.source, None)
                };
                let s = {
                    emitted_grows(from, s, MirInstrView::VariantTake { dest, variant, index, checked });
                    emitted(s, MirInstrView::VariantTake { dest, variant, index, checked })
                };
                (s, dest)
            },
            None => {
                lowered_no_value_grows(from, s, e);
                lowered_no_value(s, e)
            },
        }
    };
}

pub(crate) proof fn emitted_variant_replace_grows(
    from: FlattenView,
    s: FlattenView,
    e: ExprView,
    place: Option<MirPlaceView>,
    value: Option<Reg>,
    input_index: usize,
    output_index: usize,
    checked: bool,
)
    requires
        grown(from, s),
    ensures
        grown(from, emitted_variant_replace(s, e, place, value, input_index, output_index, checked).0),
        s.blocks.len() <= emitted_variant_replace(s, e, place, value, input_index, output_index, checked).0.blocks.len(),
{
    reveal(emitted_variant_replace);
    let _ = {
        match (place, value) {
            (Some(place), Some(value)) => {
                let (s, dest) = {
                    fresh_reg_grows(from, s, e.span, e.source, None);
                    fresh_reg(s, e.span, e.source, None)
                };
                let s = {
                    emitted_grows(from, s, MirInstrView::VariantReplace { dest, place, input_index, output_index, value, checked, });
                    emitted(s, MirInstrView::VariantReplace { dest, place, input_index, output_index, value, checked, })
                };
                (s, dest)
            },
            _ => {
                lowered_no_value_grows(from, s, e);
                lowered_no_value(s, e)
            },
        }
    };
}

pub(crate) proof fn lowered_method_grows(
    from: FlattenView,
    s: FlattenView,
    e: ExprView,
    h: Option<HirExprView>,
)
    requires
        grown(from, s),
    ensures
        grown(from, lowered_method(s, e, h).0),
        s.blocks.len() <= lowered_method(s, e, h).0.blocks.len(),
    decreases e, 4nat,
{
    let _ = {
        match e.kind {
            ExprKindView::MethodCall { object, method, .. } => match object.kind {
                ExprKindView::Identifier(name) => if s.vars.contains(name) {
                    {
                        lowered_value_method_grows(from, s, e, h);
                        lowered_value_method(s, e, h)
                    }
                } else {
                    let target = match resolved_target(h) {
                        Some(target) => target,
                        None => name + "."@ + method,
                    };
                    {
                        lowered_type_method_grows(from, s, e, h, target, true);
                        lowered_type_method(s, e, h, target, true)
                    }
                },
                ExprKindView::TypeApply { name, .. } => {
                    lowered_type_method_grows(from, s, e, h, name + "."@ + method, false);
                    lowered_type_method(s, e, h, name + "."@ + method, false)
                },
                _ => {
                    lowered_value_method_grows(from, s, e, h);
                    lowered_value_method(s, e, h)
                },
            },
            _ => {
                lowered_no_value_grows(from, s, e);
                lowered_no_value(s, e)
            },
        }
    };
}

pub(crate) proof fn lowered_type_method_grows(
    from: FlattenView,
    s: FlattenView,
    e: ExprView,
    h: Option<HirExprView>,
    target: Seq<char>,
    with_places: bool,
)
    requires
        grown(from, s),
    ensures
        grown(from, lowered_type_method(s, e, h, target, with_places).0),
        s.blocks.len() <= lowered_type_method(s, e, h, target, with_places).0.blocks.len(),
    decreases e, 1nat,
{
    let _ = {
        match e.kind {
            ExprKindView::MethodCall { args, kwargs, .. } => {
                let (s, regs) = {
                    lowered_args_grows(from, s, args, h, 0, Seq::empty(), 1);
                    lowered_args(s, args, h, 0, Seq::empty(), 1)
                };
                let (s, kw) = {
                    lowered_kwargs_grows(from, s, kwargs, h, 0, Seq::empty(), index_sum(1, args.len() as usize));
                    lowered_kwargs(s, kwargs, h, 0, Seq::empty(), index_sum(1, args.len() as usize))
                };
                let (s, dest) = {
                    fresh_reg_grows(from, s, e.span, e.source, None);
                    fresh_reg(s, e.span, e.source, None)
                };
                let (s, places) = if with_places {
                    {
                        lowered_arg_places_grows(from, s, args, h, 0, Seq::empty(), 1);
                        lowered_arg_places(s, args, h, 0, Seq::empty(), 1)
                    }
                } else {
                    (s, places_unknown(args, 0, Seq::empty()))
                };
                let params = Seq::<Option<Reg>>::empty();
                let s = {
                    emitted_grows(from, s, MirInstrView::Call { dest, func: callee_named(target), raises: known_raises(h), args: regs, kwargs: kw, arg_places: places, param_arg_regs: params, });
                    emitted(s, MirInstrView::Call { dest, func: callee_named(target), raises: known_raises(h), args: regs, kwargs: kw, arg_places: places, param_arg_regs: params, })
                };
                (s, dest)
            },
            _ => {
                lowered_no_value_grows(from, s, e);
                lowered_no_value(s, e)
            },
        }
    };
}

pub(crate) proof fn emitted_method_grows(
    from: FlattenView,
    s: FlattenView,
    e: ExprView,
    h: Option<HirExprView>,
    method: Seq<char>,
    recv: Reg,
    args: Seq<Reg>,
    kwargs: Seq<(Seq<char>, Reg)>,
    back: Option<MirPlaceView>,
    places: Seq<Option<MirPlaceView>>,
)
    requires
        grown(from, s),
    ensures
        grown(from, emitted_method(s, e, h, method, recv, args, kwargs, back, places).0),
        s.blocks.len() <= emitted_method(s, e, h, method, recv, args, kwargs, back, places).0.blocks.len(),
{
    reveal(emitted_method);
    let _ = {
        let (s, dest) = {
            fresh_reg_grows(from, s, e.span, e.source, None);
            fresh_reg(s, e.span, e.source, None)
        };
        let s = {
            emitted_grows(from, s, MirInstrView::MethodCall { dest, recv, method, resolved: resolved_target(h), raises: known_raises(h), args, kwargs, recv_place: back, arg_places: places, });
            emitted(s, MirInstrView::MethodCall { dest, recv, method, resolved: resolved_target(h), raises: known_raises(h), args, kwargs, recv_place: back, arg_places: places, })
        };
        (s, dest)
    };
}

pub(crate) proof fn lowered_value_method_grows(
    from: FlattenView,
    s: FlattenView,
    e: ExprView,
    h: Option<HirExprView>,
)
    requires
        grown(from, s),
    ensures
        grown(from, lowered_value_method(s, e, h).0),
        s.blocks.len() <= lowered_value_method(s, e, h).0.blocks.len(),
    decreases e, 3nat,
{
    let _ = {
        match e.kind {
            ExprKindView::MethodCall { method, args, kwargs, .. } => {
                let destroy = explicit_destroy_among(known_adjustments(h), 0);
                let (s, (recv, place)) = {
                    lowered_receiver_grows(from, s, e, h, destroy);
                    lowered_receiver(s, e, h, destroy)
                };
                let (s, regs) = {
                    lowered_args_grows(from, s, args, h, 0, Seq::empty(), 1);
                    lowered_args(s, args, h, 0, Seq::empty(), 1)
                };
                let (s, kw) = {
                    lowered_kwargs_grows(from, s, kwargs, h, 0, Seq::empty(), index_sum(1, args.len() as usize));
                    lowered_kwargs(s, kwargs, h, 0, Seq::empty(), index_sum(1, args.len() as usize))
                };
                let (s, places) = {
                    lowered_arg_places_grows(from, s, args, h, 0, Seq::empty(), 1);
                    lowered_arg_places(s, args, h, 0, Seq::empty(), 1)
                };
                let back = if destroy {
                    None
                } else {
                    place
                };
                let (s, dest) = {
                    emitted_method_grows(from, s, e, h, method, recv, regs, kw, back, places);
                    emitted_method(s, e, h, method, recv, regs, kw, back, places)
                };
                let s = if destroy {
                    let s = {
                        consumed_receiver_grows(from, s, e, h, recv);
                        consumed_receiver(s, e, h, recv)
                    };
                    s
                } else {
                    s
                };
                (s, dest)
            },
            _ => {
                lowered_no_value_grows(from, s, e);
                lowered_no_value(s, e)
            },
        }
    };
}

pub(crate) proof fn lowered_value_grows(
    from: FlattenView,
    s: FlattenView,
    e: ExprView,
    h: Option<HirExprView>,
)
    requires
        grown(from, s),
    ensures
        grown(from, lowered_value(s, e, h).0),
        s.blocks.len() <= lowered_value(s, e, h).0.blocks.len(),
    decreases e, 9nat,
{
    let _ = {
        let (s, reg) = {
            lowered_adjusted_grows(from, s, e, h);
            lowered_adjusted(s, e, h)
        };
        let s = {
            with_reg_type_grows(from, s, reg, known_ty(h));
            with_reg_type(s, reg, known_ty(h))
        };
        (s, reg)
    };
}

pub(crate) proof fn lowered_adjusted_grows(
    from: FlattenView,
    s: FlattenView,
    e: ExprView,
    h: Option<HirExprView>,
)
    requires
        grown(from, s),
    ensures
        grown(from, lowered_adjusted(s, e, h).0),
        s.blocks.len() <= lowered_adjusted(s, e, h).0.blocks.len(),
    decreases e, 8nat,
{
    let _ = {
        let adjustments = known_adjustments(h);
        if borrow_among(adjustments, 0) is Some {
            {
                lowered_handle_grows(from, s, e, h);
                lowered_handle(s, e, h)
            }
        } else {
            match conversion_among(adjustments, 0) {
                Some(target) => {
                    let (s, arg) = {
                        lowered_unconverted_grows(from, s, e, h);
                        lowered_unconverted(s, e, h)
                    };
                    let (s, dest) = {
                        fresh_reg_grows(from, s, e.span, e.source, None);
                        fresh_reg(s, e.span, e.source, None)
                    };
                    let s = {
                        lowered_conversion_grows(from, s, dest, target, arg);
                        lowered_conversion(s, dest, target, arg)
                    };
                    (s, dest)
                },
                None => {
                    lowered_unconverted_grows(from, s, e, h);
                    lowered_unconverted(s, e, h)
                },
            }
        }
    };
}

pub(crate) proof fn lowered_unconverted_grows(
    from: FlattenView,
    s: FlattenView,
    e: ExprView,
    h: Option<HirExprView>,
)
    requires
        grown(from, s),
    ensures
        grown(from, lowered_unconverted(s, e, h).0),
        s.blocks.len() <= lowered_unconverted(s, e, h).0.blocks.len(),
    decreases e, 6nat,
{
    let _ = {
        match e.kind {
            ExprKindView::Int(n) => {
                lowered_constant_grows(from, s, e, ConstView::Int(n));
                lowered_constant(s, e, ConstView::Int(n))
            },
            ExprKindView::Float(bits) => {
                lowered_constant_grows(from, s, e, ConstView::Float(bits));
                lowered_constant(s, e, ConstView::Float(bits))
            },
            ExprKindView::Bool(b) => {
                lowered_constant_grows(from, s, e, ConstView::Bool(b));
                lowered_constant(s, e, ConstView::Bool(b))
            },
            ExprKindView::Str(text) => {
                lowered_constant_grows(from, s, e, ConstView::Str(text));
                lowered_constant(s, e, ConstView::Str(text))
            },
            ExprKindView::NoneLit => {
                lowered_constant_grows(from, s, e, ConstView::NoneValue);
                lowered_constant(s, e, ConstView::NoneValue)
            },
            ExprKindView::Uninitialized => {
                lowered_constant_grows(from, s, e, ConstView::NoneValue);
                lowered_constant(s, e, ConstView::NoneValue)
            },
            ExprKindView::Spread(_) => {
                lowered_spread_grows(from, s, e);
                lowered_spread(s, e)
            },
            ExprKindView::Identifier(name) => {
                lowered_identifier_grows(from, s, e, name, h);
                lowered_identifier(s, e, name, h)
            },
            ExprKindView::TypeApply { name, .. } => {
                lowered_type_apply_grows(from, s, e, name, h);
                lowered_type_apply(s, e, name, h)
            },
            ExprKindView::TypeValue(_) => {
                lowered_no_value_grows(from, s, e);
                lowered_no_value(s, e)
            },
            ExprKindView::Prefix(_, _) => {
                lowered_operation_grows(from, s, e, h);
                lowered_operation(s, e, h)
            },
            ExprKindView::Infix(_, _, _) => {
                lowered_operation_grows(from, s, e, h);
                lowered_operation(s, e, h)
            },
            ExprKindView::Named { .. } => {
                lowered_operation_grows(from, s, e, h);
                lowered_operation(s, e, h)
            },
            ExprKindView::Transfer(_) => {
                lowered_operation_grows(from, s, e, h);
                lowered_operation(s, e, h)
            },
            ExprKindView::Call { .. } => {
                lowered_application_grows(from, s, e, h);
                lowered_application(s, e, h)
            },
            ExprKindView::Invoke { .. } => {
                lowered_application_grows(from, s, e, h);
                lowered_application(s, e, h)
            },
            ExprKindView::MethodCall { .. } => {
                lowered_application_grows(from, s, e, h);
                lowered_application(s, e, h)
            },
            ExprKindView::Member { .. } => {
                lowered_access_grows(from, s, e, h);
                lowered_access(s, e, h)
            },
            ExprKindView::Index { .. } => {
                lowered_access_grows(from, s, e, h);
                lowered_access(s, e, h)
            },
            ExprKindView::Slice { .. } => {
                lowered_access_grows(from, s, e, h);
                lowered_access(s, e, h)
            },
            ExprKindView::MultiIndex { .. } => {
                lowered_access_grows(from, s, e, h);
                lowered_access(s, e, h)
            },
            ExprKindView::IfExpr { .. } => {
                lowered_choice_grows(from, s, e, h);
                lowered_choice(s, e, h)
            },
            ExprKindView::Compare { .. } => {
                lowered_choice_grows(from, s, e, h);
                lowered_choice(s, e, h)
            },
            ExprKindView::ListLit(_) => {
                lowered_display_grows(from, s, e, h);
                lowered_display(s, e, h)
            },
            ExprKindView::TupleLit(_) => {
                lowered_display_grows(from, s, e, h);
                lowered_display(s, e, h)
            },
            ExprKindView::BraceLit(_) => {
                lowered_display_grows(from, s, e, h);
                lowered_display(s, e, h)
            },
            ExprKindView::Comprehension { .. } => {
                lowered_display_grows(from, s, e, h);
                lowered_display(s, e, h)
            },
            ExprKindView::TString { .. } => {
                lowered_display_grows(from, s, e, h);
                lowered_display(s, e, h)
            },
        }
    };
}

pub(crate) proof fn lowered_application_grows(
    from: FlattenView,
    s: FlattenView,
    e: ExprView,
    h: Option<HirExprView>,
)
    requires
        grown(from, s),
    ensures
        grown(from, lowered_application(s, e, h).0),
        s.blocks.len() <= lowered_application(s, e, h).0.blocks.len(),
    decreases e, 5nat,
{
    let _ = {
        match e.kind {
            ExprKindView::Call { .. } => {
                lowered_call_grows(from, s, e, h);
                lowered_call(s, e, h)
            },
            ExprKindView::Invoke { .. } => {
                lowered_invoke_grows(from, s, e, h);
                lowered_invoke(s, e, h)
            },
            ExprKindView::MethodCall { .. } => {
                lowered_method_grows(from, s, e, h);
                lowered_method(s, e, h)
            },
            _ => {
                lowered_no_value_grows(from, s, e);
                lowered_no_value(s, e)
            },
        }
    };
}

pub(crate) proof fn lowered_access_grows(
    from: FlattenView,
    s: FlattenView,
    e: ExprView,
    h: Option<HirExprView>,
)
    requires
        grown(from, s),
    ensures
        grown(from, lowered_access(s, e, h).0),
        s.blocks.len() <= lowered_access(s, e, h).0.blocks.len(),
    decreases e, 5nat,
{
    let _ = {
        match e.kind {
            ExprKindView::Member { .. } => {
                lowered_member_grows(from, s, e, h);
                lowered_member(s, e, h)
            },
            ExprKindView::Index { .. } => {
                lowered_index_grows(from, s, e, h);
                lowered_index(s, e, h)
            },
            ExprKindView::Slice { .. } => {
                lowered_slice_grows(from, s, e, h);
                lowered_slice(s, e, h)
            },
            ExprKindView::MultiIndex { .. } => {
                lowered_multi_index_grows(from, s, e, h);
                lowered_multi_index(s, e, h)
            },
            _ => {
                lowered_no_value_grows(from, s, e);
                lowered_no_value(s, e)
            },
        }
    };
}

pub(crate) proof fn lowered_choice_grows(
    from: FlattenView,
    s: FlattenView,
    e: ExprView,
    h: Option<HirExprView>,
)
    requires
        grown(from, s),
    ensures
        grown(from, lowered_choice(s, e, h).0),
        s.blocks.len() <= lowered_choice(s, e, h).0.blocks.len(),
    decreases e, 5nat,
{
    let _ = {
        match e.kind {
            ExprKindView::IfExpr { .. } => {
                lowered_ternary_grows(from, s, e, h);
                lowered_ternary(s, e, h)
            },
            ExprKindView::Compare { .. } => {
                lowered_chain_grows(from, s, e, h);
                lowered_chain(s, e, h)
            },
            _ => {
                lowered_no_value_grows(from, s, e);
                lowered_no_value(s, e)
            },
        }
    };
}

pub(crate) proof fn lowered_display_grows(
    from: FlattenView,
    s: FlattenView,
    e: ExprView,
    h: Option<HirExprView>,
)
    requires
        grown(from, s),
    ensures
        grown(from, lowered_display(s, e, h).0),
        s.blocks.len() <= lowered_display(s, e, h).0.blocks.len(),
    decreases e, 5nat,
{
    let _ = {
        match e.kind {
            ExprKindView::ListLit(_) => {
                lowered_list_grows(from, s, e, h);
                lowered_list(s, e, h)
            },
            ExprKindView::TupleLit(_) => {
                lowered_list_grows(from, s, e, h);
                lowered_list(s, e, h)
            },
            ExprKindView::BraceLit(_) => {
                lowered_brace_grows(from, s, e, h);
                lowered_brace(s, e, h)
            },
            ExprKindView::Comprehension { .. } => {
                lowered_comprehension_grows(from, s, e, h);
                lowered_comprehension(s, e, h)
            },
            ExprKindView::TString { .. } => {
                lowered_template_grows(from, s, e, h);
                lowered_template(s, e, h)
            },
            _ => {
                lowered_no_value_grows(from, s, e);
                lowered_no_value(s, e)
            },
        }
    };
}

pub(crate) proof fn lowered_operation_grows(
    from: FlattenView,
    s: FlattenView,
    e: ExprView,
    h: Option<HirExprView>,
)
    requires
        grown(from, s),
    ensures
        grown(from, lowered_operation(s, e, h).0),
        s.blocks.len() <= lowered_operation(s, e, h).0.blocks.len(),
    decreases e, 5nat,
{
    let _ = {
        match e.kind {
            ExprKindView::Prefix(op, value) => {
                let (s, a) = {
                    lowered_value_grows(from, s, *value, child_facts(h, 0));
                    lowered_value(s, *value, child_facts(h, 0))
                };
                {
                    emitted_unary_grows(from, s, e, op, a);
                    emitted_unary(s, e, op, a)
                }
            },
            ExprKindView::Infix(op, left, right) => if op == InfixOp::And || op == InfixOp::Or {
                {
                    lowered_short_circuit_grows(from, s, e, h);
                    lowered_short_circuit(s, e, h)
                }
            } else {
                let (s, a) = {
                    lowered_value_grows(from, s, *left, child_facts(h, 0));
                    lowered_value(s, *left, child_facts(h, 0))
                };
                let (s, b) = {
                    lowered_value_grows(from, s, *right, child_facts(h, 1));
                    lowered_value(s, *right, child_facts(h, 1))
                };
                {
                    emitted_binary_grows(from, s, e, op, a, b);
                    emitted_binary(s, e, op, a, b)
                }
            },
            ExprKindView::Named { name, value } => {
                let (s, reg) = {
                    lowered_value_grows(from, s, *value, child_facts(h, 0));
                    lowered_value(s, *value, child_facts(h, 0))
                };
                let (s, var) = {
                    interned_grows(from, s, name);
                    interned(s, name)
                };
                let s = {
                    defined_grows(from, s, var, reg, None);
                    defined(s, var, reg, None)
                };
                (s, reg)
            },
            ExprKindView::Transfer(_) => {
                lowered_transfer_grows(from, s, e, h);
                lowered_transfer(s, e, h)
            },
            _ => {
                lowered_no_value_grows(from, s, e);
                lowered_no_value(s, e)
            },
        }
    };
}

pub(crate) proof fn emitted_unary_grows(
    from: FlattenView,
    s: FlattenView,
    e: ExprView,
    op: PrefixOp,
    a: Reg,
)
    requires
        grown(from, s),
    ensures
        grown(from, emitted_unary(s, e, op, a).0),
        s.blocks.len() <= emitted_unary(s, e, op, a).0.blocks.len(),
{
    reveal(emitted_unary);
    let _ = {
        let (s, dest) = {
            fresh_reg_grows(from, s, e.span, e.source, None);
            fresh_reg(s, e.span, e.source, None)
        };
        let s = {
            emitted_grows(from, s, MirInstrView::UnOp { op, dest, a });
            emitted(s, MirInstrView::UnOp { op, dest, a })
        };
        (s, dest)
    };
}

pub(crate) proof fn emitted_binary_grows(
    from: FlattenView,
    s: FlattenView,
    e: ExprView,
    op: InfixOp,
    a: Reg,
    b: Reg,
)
    requires
        grown(from, s),
    ensures
        grown(from, emitted_binary(s, e, op, a, b).0),
        s.blocks.len() <= emitted_binary(s, e, op, a, b).0.blocks.len(),
{
    reveal(emitted_binary);
    let _ = {
        let (s, dest) = {
            fresh_reg_grows(from, s, e.span, e.source, None);
            fresh_reg(s, e.span, e.source, None)
        };
        let s = {
            emitted_grows(from, s, MirInstrView::BinOp { op, dest, a, b });
            emitted(s, MirInstrView::BinOp { op, dest, a, b })
        };
        (s, dest)
    };
}

pub(crate) proof fn lowered_type_apply_grows(
    from: FlattenView,
    s: FlattenView,
    e: ExprView,
    name: Seq<char>,
    h: Option<HirExprView>,
)
    requires
        grown(from, s),
    ensures
        grown(from, lowered_type_apply(s, e, name, h).0),
        s.blocks.len() <= lowered_type_apply(s, e, name, h).0.blocks.len(),
{
    reveal(lowered_type_apply);
    let _ = {
        let (s, place) = {
            lowered_variant_read_grows(from, s, name, h);
            lowered_variant_read(s, name, h)
        };
        match place {
            Some(place) => {
                let (s, dest) = {
                    fresh_reg_grows(from, s, e.span, e.source, Some(place.root));
                    fresh_reg(s, e.span, e.source, Some(place.root))
                };
                let s = {
                    emitted_grows(from, s, MirInstrView::LoadPlace { dest, place });
                    emitted(s, MirInstrView::LoadPlace { dest, place })
                };
                (s, dest)
            },
            None => {
                lowered_no_value_grows(from, s, e);
                lowered_no_value(s, e)
            },
        }
    };
}

pub(crate) proof fn lowered_spread_grows(
    from: FlattenView,
    s: FlattenView,
    e: ExprView,
)
    requires
        grown(from, s),
    ensures
        grown(from, lowered_spread(s, e).0),
        s.blocks.len() <= lowered_spread(s, e).0.blocks.len(),
{
    reveal(lowered_spread);
    let _ = {
        let (s, dest) = {
            fresh_reg_grows(from, s, e.span, e.source, None);
            fresh_reg(s, e.span, e.source, None)
        };
        let s = {
            marked_unsupported_grows(from, s, "unexpanded call spread reached MIR lowering"@);
            marked_unsupported(s, "unexpanded call spread reached MIR lowering"@)
        };
        let s = {
            emitted_grows(from, s, MirInstrView::Const { dest, k: ConstView::NoneValue });
            emitted(s, MirInstrView::Const { dest, k: ConstView::NoneValue })
        };
        (s, dest)
    };
}

pub(crate) proof fn lowered_variant_read_grows(
    from: FlattenView,
    s: FlattenView,
    name: Seq<char>,
    h: Option<HirExprView>,
)
    requires
        grown(from, s),
    ensures
        grown(from, lowered_variant_read(s, name, h).0),
        s.blocks.len() <= lowered_variant_read(s, name, h).0.blocks.len(),
{
    reveal(lowered_variant_read);
    let _ = {
        match projected_variant(known_adjustments(h), 0) {
            Some((alternatives, index)) => match known_any_ty(h) {
                Some(ty) => {
                    let (s, base) = {
                        place_of_name_grows(from, s, name);
                        place_of_name(s, name)
                    };
                    let root = if base.root_ty is None {
                        with_variant_root(base, alternatives)
                    } else {
                        base
                    };
                    (s, Some(projected(root, ProjView::Variant(index), ty)))
                },
                None => (s, None),
            },
            None => (s, None),
        }
    };
}

} // verus!
