//! Blocks lead to blocks of their function: expressions.

use crate::aims::calls::lowered_value_aims;
use crate::aims::places::{
    lowered_deref_aims, lowered_field_place_aims, lowered_simple_place_aims, lowered_try_place_aims,
};
use crate::ast::{
    Expr, ExprKindView, ExprView, InfixOp, KwArgView, ParamArgView, SliceKind, SubscriptArgView,
    TStringPartView, Type,
};
use crate::calls::lowered_value;
use crate::debug::expr_kind_printed;
use crate::exprs::{
    chosen_slice_kind, displays_dictionary, element_of_list, element_of_set, elements_of_tuple,
    key_of_dict, lowered_arg_places, lowered_args, lowered_brace, lowered_chain, lowered_conversion,
    lowered_index, lowered_index_place, lowered_keys, lowered_kwargs, lowered_links, lowered_list,
    lowered_member, lowered_merge, lowered_multi_index, lowered_no_value, lowered_opt,
    lowered_pairs, lowered_param_arg, lowered_param_args, lowered_part, lowered_parts,
    lowered_short_circuit, lowered_slice, lowered_subscript, lowered_subscripts, lowered_template,
    lowered_ternary, lowered_transfer, value_of_dict,
};
use crate::flatten::{
    FlattenView, at_block, bears_origin, child_facts, defined, emitted, ended, following_index,
    fresh_reg, fresh_slot, is_descriptor, is_reference_ty, known_adjustments, known_place_ty,
    known_ty, lowered_constant, marked_unsupported, opened, resolved_target, slices_among,
    slot_of_use,
};
use crate::hir::HirExprView;
use crate::mir::{
    Const, ConstView, MirInstrView, MirPlaceView, MirSubscriptArgView, MirTermView, Reg, UseMode,
    callee_named,
};
use crate::places::{lowered_deref, lowered_field_place, lowered_simple_place, lowered_try_place};
use crate::values::Value;
use crate::aims::flatten::{
    aimed, at_block_aims, defined_aims, emitted_aims, ended_aims, fresh_reg_aims, fresh_slot_aims,
    further, lowered_constant_aims, marked_unsupported_aims, opened_aims, roomy, slot_of_use_aims,
};
use vstd::prelude::*;

verus! {

pub(crate) proof fn lowered_args_aims(
    s: FlattenView,
    args: Seq<ExprView>,
    h: Option<HirExprView>,
    i: nat,
    out: Seq<Reg>,
    k: usize,
)
    requires
        aimed(s),
    ensures
        aimed(lowered_args(s, args, h, i, out, k).0),
        further(s, lowered_args(s, args, h, i, out, k).0),
    decreases args, (args.len() - i) as nat,
{
    let _ = {
        if i >= args.len() {
            (s, out)
        } else {
            let arg = args[i as int];
            let (s, reg) = {
                lowered_value_aims(s, arg, child_facts(h, k));
                lowered_value(s, arg, child_facts(h, k))
            };
            let out = out.push(reg);
            let k = following_index(k);
            {
                lowered_args_aims(s, args, h, i + 1, out, k);
                lowered_args(s, args, h, i + 1, out, k)
            }
        }
    };
}

pub(crate) proof fn lowered_kwargs_aims(
    s: FlattenView,
    kwargs: Seq<KwArgView>,
    h: Option<HirExprView>,
    i: nat,
    out: Seq<(Seq<char>, Reg)>,
    k: usize,
)
    requires
        aimed(s),
    ensures
        aimed(lowered_kwargs(s, kwargs, h, i, out, k).0),
        further(s, lowered_kwargs(s, kwargs, h, i, out, k).0),
    decreases kwargs, (kwargs.len() - i) as nat,
{
    let _ = {
        if i >= kwargs.len() {
            (s, out)
        } else {
            let kwarg = kwargs[i as int];
            let (s, reg) = {
                lowered_value_aims(s, kwarg.value, child_facts(h, k));
                lowered_value(s, kwarg.value, child_facts(h, k))
            };
            let out = out.push((kwarg.name, reg));
            let k = following_index(k);
            {
                lowered_kwargs_aims(s, kwargs, h, i + 1, out, k);
                lowered_kwargs(s, kwargs, h, i + 1, out, k)
            }
        }
    };
}

pub(crate) proof fn lowered_arg_places_aims(
    s: FlattenView,
    args: Seq<ExprView>,
    h: Option<HirExprView>,
    i: nat,
    out: Seq<Option<MirPlaceView>>,
    k: usize,
)
    requires
        aimed(s),
    ensures
        aimed(lowered_arg_places(s, args, h, i, out, k).0),
        further(s, lowered_arg_places(s, args, h, i, out, k).0),
    decreases args, (args.len() - i) as nat,
{
    let _ = {
        if i >= args.len() {
            (s, out)
        } else {
            let arg = args[i as int];
            let (s, place) = {
                lowered_simple_place_aims(s, arg, child_facts(h, k));
                lowered_simple_place(s, arg, child_facts(h, k))
            };
            let out = out.push(place);
            let k = following_index(k);
            {
                lowered_arg_places_aims(s, args, h, i + 1, out, k);
                lowered_arg_places(s, args, h, i + 1, out, k)
            }
        }
    };
}

pub(crate) proof fn lowered_param_args_aims(
    s: FlattenView,
    args: Seq<ParamArgView>,
    i: nat,
    out: Seq<Option<Reg>>,
)
    requires
        aimed(s),
    ensures
        aimed(lowered_param_args(s, args, i, out).0),
        further(s, lowered_param_args(s, args, i, out).0),
    decreases args, (args.len() - i) as nat,
{
    let _ = {
        if i >= args.len() {
            (s, out)
        } else {
            let arg = args[i as int];
            let (s, reg) = {
                lowered_param_arg_aims(s, arg);
                lowered_param_arg(s, arg)
            };
            let out = out.push(reg);
            {
                lowered_param_args_aims(s, args, i + 1, out);
                lowered_param_args(s, args, i + 1, out)
            }
        }
    };
}

pub(crate) proof fn lowered_param_arg_aims(
    s: FlattenView,
    arg: ParamArgView,
)
    requires
        aimed(s),
    ensures
        aimed(lowered_param_arg(s, arg).0),
        further(s, lowered_param_arg(s, arg).0),
    decreases arg, 0nat,
{
    let _ = {
        match arg {
            ParamArgView::Value(value) => {
                let (s, reg) = {
                    lowered_value_aims(s, value, None);
                    lowered_value(s, value, None)
                };
                (s, Some(reg))
            },
            ParamArgView::Type(_) => (s, None),
            ParamArgView::Named { value, .. } => {
                lowered_param_arg_aims(s, *value);
                lowered_param_arg(s, *value)
            },
        }
    };
}

pub(crate) proof fn lowered_opt_aims(
    s: FlattenView,
    value: Option<Box<ExprView>>,
    h: Option<HirExprView>,
)
    requires
        aimed(s),
    ensures
        aimed(lowered_opt(s, value, h).0),
        further(s, lowered_opt(s, value, h).0),
    decreases value, 0nat,
{
    let _ = {
        match value {
            Some(value) => {
                let (s, reg) = {
                    lowered_value_aims(s, *value, h);
                    lowered_value(s, *value, h)
                };
                (s, Some(reg))
            },
            None => (s, None),
        }
    };
}

pub(crate) proof fn lowered_short_circuit_aims(
    s: FlattenView,
    e: ExprView,
    h: Option<HirExprView>,
)
    requires
        aimed(s),
    ensures
        aimed(lowered_short_circuit(s, e, h).0),
        further(s, lowered_short_circuit(s, e, h).0),
    decreases e, 1nat,
{
    let _ = {
        match e.kind {
            ExprKindView::Infix(op, left, right) => {
                let (s, first) = {
                    lowered_value_aims(s, *left, child_facts(h, 0));
                    lowered_value(s, *left, child_facts(h, 0))
                };
                let (s, result) = {
                    fresh_slot_aims(s);
                    fresh_slot(s)
                };
                let s = {
                    defined_aims(s, result, first, None);
                    defined(s, result, first, None)
                };
                let (s, rhs) = {
                    opened_aims(s);
                    opened(s)
                };
                let (s, merge) = {
                    opened_aims(s);
                    opened(s)
                };
                let s = if op == InfixOp::And {
                    let s = {
                        ended_aims(s, MirTermView::Branch { cond: first, then_b: rhs, else_b: merge });
                        ended(s, MirTermView::Branch { cond: first, then_b: rhs, else_b: merge })
                    };
                    s
                } else {
                    let s = {
                        ended_aims(s, MirTermView::Branch { cond: first, then_b: merge, else_b: rhs });
                        ended(s, MirTermView::Branch { cond: first, then_b: merge, else_b: rhs })
                    };
                    s
                };
                let s = {
                    at_block_aims(s, rhs);
                    at_block(s, rhs)
                };
                let (s, second) = {
                    lowered_value_aims(s, *right, child_facts(h, 1));
                    lowered_value(s, *right, child_facts(h, 1))
                };
                let s = {
                    defined_aims(s, result, second, None);
                    defined(s, result, second, None)
                };
                let s = {
                    ended_aims(s, MirTermView::Jump(merge));
                    ended(s, MirTermView::Jump(merge))
                };
                let s = {
                    at_block_aims(s, merge);
                    at_block(s, merge)
                };
                {
                    lowered_merge_aims(s, e, result);
                    lowered_merge(s, e, result)
                }
            },
            _ => {
                lowered_no_value_aims(s, e);
                lowered_no_value(s, e)
            },
        }
    };
}

pub(crate) proof fn lowered_merge_aims(
    s: FlattenView,
    e: ExprView,
    result: u32,
)
    requires
        aimed(s),
    ensures
        aimed(lowered_merge(s, e, result).0),
        further(s, lowered_merge(s, e, result).0),
{
    reveal(lowered_merge);
    let _ = {
        let (s, dest) = {
            fresh_reg_aims(s, e.span, e.source, None);
            fresh_reg(s, e.span, e.source, None)
        };
        let s = {
            emitted_aims(s, MirInstrView::UseVar { dest, var: result, mode: UseMode::Copy });
            emitted(s, MirInstrView::UseVar { dest, var: result, mode: UseMode::Copy })
        };
        (s, dest)
    };
}

pub(crate) proof fn lowered_no_value_aims(
    s: FlattenView,
    e: ExprView,
)
    requires
        aimed(s),
    ensures
        aimed(lowered_no_value(s, e).0),
        further(s, lowered_no_value(s, e).0),
{
    reveal(lowered_no_value);
    let _ = {
        let (s, dest) = {
            fresh_reg_aims(s, e.span, e.source, None);
            fresh_reg(s, e.span, e.source, None)
        };
        let s = {
            marked_unsupported_aims(s, "unchecked expression reached MIR lowering: "@ + expr_kind_printed(e.kind));
            marked_unsupported(s, "unchecked expression reached MIR lowering: "@ + expr_kind_printed(e.kind))
        };
        let s = {
            emitted_aims(s, MirInstrView::Const { dest, k: ConstView::NoneValue });
            emitted(s, MirInstrView::Const { dest, k: ConstView::NoneValue })
        };
        (s, dest)
    };
}

pub(crate) proof fn lowered_ternary_aims(
    s: FlattenView,
    e: ExprView,
    h: Option<HirExprView>,
)
    requires
        aimed(s),
    ensures
        aimed(lowered_ternary(s, e, h).0),
        further(s, lowered_ternary(s, e, h).0),
    decreases e, 1nat,
{
    let _ = {
        match e.kind {
            ExprKindView::IfExpr { cond, then_branch, else_branch } => {
                let (s, test) = {
                    lowered_value_aims(s, *cond, child_facts(h, 0));
                    lowered_value(s, *cond, child_facts(h, 0))
                };
                let (s, result) = {
                    fresh_slot_aims(s);
                    fresh_slot(s)
                };
                let (s, then_b) = {
                    opened_aims(s);
                    opened(s)
                };
                let (s, else_b) = {
                    opened_aims(s);
                    opened(s)
                };
                let (s, merge) = {
                    opened_aims(s);
                    opened(s)
                };
                let s = {
                    ended_aims(s, MirTermView::Branch { cond: test, then_b, else_b });
                    ended(s, MirTermView::Branch { cond: test, then_b, else_b })
                };
                let s = {
                    at_block_aims(s, then_b);
                    at_block(s, then_b)
                };
                let (s, first) = {
                    lowered_value_aims(s, *then_branch, child_facts(h, 1));
                    lowered_value(s, *then_branch, child_facts(h, 1))
                };
                let s = {
                    defined_aims(s, result, first, None);
                    defined(s, result, first, None)
                };
                let s = {
                    ended_aims(s, MirTermView::Jump(merge));
                    ended(s, MirTermView::Jump(merge))
                };
                let s = {
                    at_block_aims(s, else_b);
                    at_block(s, else_b)
                };
                let (s, second) = {
                    lowered_value_aims(s, *else_branch, child_facts(h, 2));
                    lowered_value(s, *else_branch, child_facts(h, 2))
                };
                let s = {
                    defined_aims(s, result, second, None);
                    defined(s, result, second, None)
                };
                let s = {
                    ended_aims(s, MirTermView::Jump(merge));
                    ended(s, MirTermView::Jump(merge))
                };
                let s = {
                    at_block_aims(s, merge);
                    at_block(s, merge)
                };
                {
                    lowered_merge_aims(s, e, result);
                    lowered_merge(s, e, result)
                }
            },
            _ => {
                lowered_no_value_aims(s, e);
                lowered_no_value(s, e)
            },
        }
    };
}

pub(crate) proof fn lowered_chain_aims(
    s: FlattenView,
    e: ExprView,
    h: Option<HirExprView>,
)
    requires
        aimed(s),
    ensures
        aimed(lowered_chain(s, e, h).0),
        further(s, lowered_chain(s, e, h).0),
    decreases e, 1nat,
{
    let _ = {
        match e.kind {
            ExprKindView::Compare { first, rest } => {
                let (s, result) = {
                    fresh_slot_aims(s);
                    fresh_slot(s)
                };
                let (s, merge) = {
                    opened_aims(s);
                    opened(s)
                };
                let (s, start) = {
                    lowered_value_aims(s, *first, child_facts(h, 0));
                    lowered_value(s, *first, child_facts(h, 0))
                };
                let s = {
                    lowered_links_aims(s, rest, e, h, result, merge, 0, start, 1);
                    lowered_links(s, rest, e, h, result, merge, 0, start, 1)
                };
                let s = {
                    at_block_aims(s, merge);
                    at_block(s, merge)
                };
                {
                    lowered_merge_aims(s, e, result);
                    lowered_merge(s, e, result)
                }
            },
            _ => {
                lowered_no_value_aims(s, e);
                lowered_no_value(s, e)
            },
        }
    };
}

pub(crate) proof fn lowered_links_aims(
    s: FlattenView,
    rest: Seq<(InfixOp, ExprView)>,
    e: ExprView,
    h: Option<HirExprView>,
    result: u32,
    merge: usize,
    i: nat,
    prev: Reg,
    k: usize,
)
    requires
        aimed(s),
        roomy(s) ==> merge < s.blocks.len(),
    ensures
        aimed(lowered_links(s, rest, e, h, result, merge, i, prev, k)),
        further(s, lowered_links(s, rest, e, h, result, merge, i, prev, k)),
    decreases rest, (rest.len() - i) as nat,
{
    let _ = {
        if i >= rest.len() {
            s
        } else {
            let link = rest[i as int];
            let (s, operand) = {
                lowered_value_aims(s, link.1, child_facts(h, k));
                lowered_value(s, link.1, child_facts(h, k))
            };
            let (s, test) = {
                fresh_reg_aims(s, e.span, e.source, None);
                fresh_reg(s, e.span, e.source, None)
            };
            let s = {
                emitted_aims(s, MirInstrView::BinOp { op: link.0, dest: test, a: prev, b: operand });
                emitted(s, MirInstrView::BinOp { op: link.0, dest: test, a: prev, b: operand })
            };
            let s = {
                defined_aims(s, result, test, None);
                defined(s, result, test, None)
            };
            let s = if k >= rest.len() {
                let s = {
                    ended_aims(s, MirTermView::Jump(merge));
                    ended(s, MirTermView::Jump(merge))
                };
                s
            } else {
                let (s, next_b) = {
                    opened_aims(s);
                    opened(s)
                };
                let s = {
                    ended_aims(s, MirTermView::Branch { cond: test, then_b: next_b, else_b: merge });
                    ended(s, MirTermView::Branch { cond: test, then_b: next_b, else_b: merge })
                };
                let s = {
                    at_block_aims(s, next_b);
                    at_block(s, next_b)
                };
                s
            };
            let prev = operand;
            let k = following_index(k);
            {
                lowered_links_aims(s, rest, e, h, result, merge, i + 1, prev, k);
                lowered_links(s, rest, e, h, result, merge, i + 1, prev, k)
            }
        }
    };
}

pub(crate) proof fn lowered_transfer_aims(
    s: FlattenView,
    e: ExprView,
    h: Option<HirExprView>,
)
    requires
        aimed(s),
    ensures
        aimed(lowered_transfer(s, e, h).0),
        further(s, lowered_transfer(s, e, h).0),
    decreases e, 1nat,
{
    let _ = {
        match e.kind {
            ExprKindView::Transfer(inner) => match inner.kind {
                ExprKindView::Identifier(name) => {
                    let (s, var) = {
                        slot_of_use_aims(s, name, child_facts(h, 0));
                        slot_of_use(s, name, child_facts(h, 0))
                    };
                    let (s, dest) = {
                        fresh_reg_aims(s, e.span, e.source, Some(var));
                        fresh_reg(s, e.span, e.source, Some(var))
                    };
                    let s = {
                        emitted_aims(s, MirInstrView::UseVar { dest, var, mode: UseMode::Move });
                        emitted(s, MirInstrView::UseVar { dest, var, mode: UseMode::Move })
                    };
                    (s, dest)
                },
                _ => {
                    let (s, place) = {
                        lowered_field_place_aims(s, *inner, child_facts(h, 0));
                        lowered_field_place(s, *inner, child_facts(h, 0))
                    };
                    match place {
                        Some(place) => {
                            let (s, dest) = {
                                fresh_reg_aims(s, e.span, e.source, Some(place.root));
                                fresh_reg(s, e.span, e.source, Some(place.root))
                            };
                            let s = {
                                emitted_aims(s, MirInstrView::MovePlace { dest, place });
                                emitted(s, MirInstrView::MovePlace { dest, place })
                            };
                            (s, dest)
                        },
                        None => {
                            lowered_value_aims(s, *inner, child_facts(h, 0));
                            lowered_value(s, *inner, child_facts(h, 0))
                        },
                    }
                },
            },
            _ => {
                lowered_no_value_aims(s, e);
                lowered_no_value(s, e)
            },
        }
    };
}

pub(crate) proof fn lowered_member_aims(
    s: FlattenView,
    e: ExprView,
    h: Option<HirExprView>,
)
    requires
        aimed(s),
    ensures
        aimed(lowered_member(s, e, h).0),
        further(s, lowered_member(s, e, h).0),
    decreases e, 2nat,
{
    let _ = {
        match e.kind {
            ExprKindView::Member { object, field } => {
                let (s, chain) = if is_descriptor(child_facts(h, 0)) {
                    (s, None)
                } else {
                    {
                        lowered_field_place_aims(s, e, h);
                        lowered_field_place(s, e, h)
                    }
                };
                match chain {
                    Some(place) => {
                        let (s, dest) = {
                            fresh_reg_aims(s, e.span, e.source, Some(place.root));
                            fresh_reg(s, e.span, e.source, Some(place.root))
                        };
                        let s = {
                            emitted_aims(s, MirInstrView::LoadPlace { dest, place });
                            emitted(s, MirInstrView::LoadPlace { dest, place })
                        };
                        (s, dest)
                    },
                    None => {
                        let (s, base) = {
                            lowered_value_aims(s, *object, child_facts(h, 0));
                            lowered_value(s, *object, child_facts(h, 0))
                        };
                        let (s, dest) = {
                            fresh_reg_aims(s, e.span, e.source, None);
                            fresh_reg(s, e.span, e.source, None)
                        };
                        let s = {
                            emitted_aims(s, MirInstrView::GetField { dest, base, field });
                            emitted(s, MirInstrView::GetField { dest, base, field })
                        };
                        (s, dest)
                    },
                }
            },
            _ => {
                lowered_no_value_aims(s, e);
                lowered_no_value(s, e)
            },
        }
    };
}

pub(crate) proof fn lowered_index_place_aims(
    s: FlattenView,
    e: ExprView,
    object: ExprView,
    h: Option<HirExprView>,
)
    requires
        aimed(s),
    ensures
        aimed(lowered_index_place(s, e, object, h).0),
        further(s, lowered_index_place(s, e, object, h).0),
    decreases e, 2nat,
{
    let _ = {
        let (s, stored) = if is_reference_ty(known_place_ty(h)) {
            {
                lowered_try_place_aims(s, e, h, false);
                lowered_try_place(s, e, h, false)
            }
        } else {
            (s, None)
        };
        match stored {
            Some(place) => (s, Some(place)),
            None => {
                lowered_deref_aims(s, object, child_facts(h, 0));
                lowered_deref(s, object, child_facts(h, 0))
            },
        }
    };
}

pub(crate) proof fn lowered_index_aims(
    s: FlattenView,
    e: ExprView,
    h: Option<HirExprView>,
)
    requires
        aimed(s),
    ensures
        aimed(lowered_index(s, e, h).0),
        further(s, lowered_index(s, e, h).0),
    decreases e, 3nat,
{
    let _ = {
        match e.kind {
            ExprKindView::Index { object, index } => {
                let (s, place) = {
                    lowered_index_place_aims(s, e, *object, h);
                    lowered_index_place(s, e, *object, h)
                };
                match place {
                    Some(place) => {
                        let (s, dest) = {
                            fresh_reg_aims(s, e.span, e.source, Some(place.root));
                            fresh_reg(s, e.span, e.source, Some(place.root))
                        };
                        let s = {
                            emitted_aims(s, MirInstrView::LoadPlace { dest, place });
                            emitted(s, MirInstrView::LoadPlace { dest, place })
                        };
                        (s, dest)
                    },
                    None => {
                        let (s, base) = {
                            lowered_value_aims(s, *object, child_facts(h, 0));
                            lowered_value(s, *object, child_facts(h, 0))
                        };
                        if bears_origin(child_facts(h, 0)) {
                            let (s, dest) = {
                                fresh_reg_aims(s, e.span, e.source, None);
                                fresh_reg(s, e.span, e.source, None)
                            };
                            let s = {
                                emitted_aims(s, MirInstrView::ReadRef { dest, reference: base });
                                emitted(s, MirInstrView::ReadRef { dest, reference: base })
                            };
                            (s, dest)
                        } else {
                            let (s, at) = {
                                lowered_value_aims(s, *index, child_facts(h, 1));
                                lowered_value(s, *index, child_facts(h, 1))
                            };
                            let (s, dest) = {
                                fresh_reg_aims(s, e.span, e.source, None);
                                fresh_reg(s, e.span, e.source, None)
                            };
                            let s = {
                                emitted_aims(s, MirInstrView::Index { dest, base, index: at });
                                emitted(s, MirInstrView::Index { dest, base, index: at })
                            };
                            (s, dest)
                        }
                    },
                }
            },
            _ => {
                lowered_no_value_aims(s, e);
                lowered_no_value(s, e)
            },
        }
    };
}

pub(crate) proof fn lowered_slice_aims(
    s: FlattenView,
    e: ExprView,
    h: Option<HirExprView>,
)
    requires
        aimed(s),
    ensures
        aimed(lowered_slice(s, e, h).0),
        further(s, lowered_slice(s, e, h).0),
    decreases e, 1nat,
{
    let _ = {
        match e.kind {
            ExprKindView::Slice { object, lower, upper, step } => {
                let (s, base) = {
                    lowered_value_aims(s, *object, child_facts(h, 0));
                    lowered_value(s, *object, child_facts(h, 0))
                };
                let upper_at = if lower is Some {
                    2usize
                } else {
                    1usize
                };
                let step_at = if upper is Some {
                    (upper_at + 1) as usize
                } else {
                    upper_at
                };
                let (s, low) = {
                    lowered_opt_aims(s, lower, child_facts(h, 1));
                    lowered_opt(s, lower, child_facts(h, 1))
                };
                let (s, high) = {
                    lowered_opt_aims(s, upper, child_facts(h, upper_at));
                    lowered_opt(s, upper, child_facts(h, upper_at))
                };
                let (s, by) = {
                    lowered_opt_aims(s, step, child_facts(h, step_at));
                    lowered_opt(s, step, child_facts(h, step_at))
                };
                match chosen_slice_kind(h) {
                    Some(kind) => {
                        let (s, dest) = {
                            fresh_reg_aims(s, e.span, e.source, None);
                            fresh_reg(s, e.span, e.source, None)
                        };
                        let s = {
                            emitted_aims(s, MirInstrView::Slice { dest, object: base, kind, lower: low, upper: high, step: by, resolved: resolved_target(h), });
                            emitted(s, MirInstrView::Slice { dest, object: base, kind, lower: low, upper: high, step: by, resolved: resolved_target(h), })
                        };
                        (s, dest)
                    },
                    None => {
                        lowered_no_value_aims(s, e);
                        lowered_no_value(s, e)
                    },
                }
            },
            _ => {
                lowered_no_value_aims(s, e);
                lowered_no_value(s, e)
            },
        }
    };
}

pub(crate) proof fn lowered_subscripts_aims(
    s: FlattenView,
    args: Seq<SubscriptArgView>,
    kinds: Seq<Option<SliceKind>>,
    h: Option<HirExprView>,
    i: nat,
    out: Seq<MirSubscriptArgView>,
    k: usize,
    n: usize,
)
    requires
        aimed(s),
    ensures
        aimed(lowered_subscripts(s, args, kinds, h, i, out, k, n).0),
        further(s, lowered_subscripts(s, args, kinds, h, i, out, k, n).0),
    decreases args, (args.len() - i) as nat,
{
    let _ = {
        if i >= args.len() {
            (s, out)
        } else {
            let arg = args[i as int];
            if n >= kinds.len() {
                (s, out)
            } else {
                let (s, (lowered, at)) = {
                    lowered_subscript_aims(s, arg, kinds[n as int], h, k);
                    lowered_subscript(s, arg, kinds[n as int], h, k)
                };
                match lowered {
                    Some(lowered) => {
                        let out = out.push(lowered);
                        let k = at;
                        let n = following_index(n);
                        {
                            lowered_subscripts_aims(s, args, kinds, h, i + 1, out, k, n);
                            lowered_subscripts(s, args, kinds, h, i + 1, out, k, n)
                        }
                    },
                    None => (s, out),
                }
            }
        }
    };
}

pub(crate) proof fn lowered_subscript_aims(
    s: FlattenView,
    arg: SubscriptArgView,
    kind: Option<SliceKind>,
    h: Option<HirExprView>,
    k: usize,
)
    requires
        aimed(s),
    ensures
        aimed(lowered_subscript(s, arg, kind, h, k).0),
        further(s, lowered_subscript(s, arg, kind, h, k).0),
    decreases arg, 0nat,
{
    let _ = {
        match arg {
            SubscriptArgView::Index(value) => {
                let (s, at) = {
                    lowered_value_aims(s, value, child_facts(h, k));
                    lowered_value(s, value, child_facts(h, k))
                };
                (s, (Some(MirSubscriptArgView::Index(at)), following_index(k)))
            },
            SubscriptArgView::Slice { lower, upper, step } => {
                let upper_at = if lower is Some {
                    following_index(k)
                } else {
                    k
                };
                let step_at = if upper is Some {
                    following_index(upper_at)
                } else {
                    upper_at
                };
                let end = if step is Some {
                    following_index(step_at)
                } else {
                    step_at
                };
                let (s, low) = {
                    lowered_opt_aims(s, lower, child_facts(h, k));
                    lowered_opt(s, lower, child_facts(h, k))
                };
                let (s, high) = {
                    lowered_opt_aims(s, upper, child_facts(h, upper_at));
                    lowered_opt(s, upper, child_facts(h, upper_at))
                };
                let (s, by) = {
                    lowered_opt_aims(s, step, child_facts(h, step_at));
                    lowered_opt(s, step, child_facts(h, step_at))
                };
                match kind {
                    Some(kind) => (
                        s,
                        (
                            Some(
                                MirSubscriptArgView::Slice { kind, lower: low, upper: high, step: by }
                            ),
                            end,
                        ),
                    ),
                    None => (s, (None, end)),
                }
            },
        }
    };
}

pub(crate) proof fn lowered_multi_index_aims(
    s: FlattenView,
    e: ExprView,
    h: Option<HirExprView>,
)
    requires
        aimed(s),
    ensures
        aimed(lowered_multi_index(s, e, h).0),
        further(s, lowered_multi_index(s, e, h).0),
    decreases e, 1nat,
{
    let _ = {
        match e.kind {
            ExprKindView::MultiIndex { object, args } => {
                let (s, base) = {
                    lowered_value_aims(s, *object, child_facts(h, 0));
                    lowered_value(s, *object, child_facts(h, 0))
                };
                match slices_among(known_adjustments(h), 0) {
                    Some((kinds, _)) => {
                        let (s, args) = {
                            lowered_subscripts_aims(s, args, kinds, h, 0, Seq::empty(), 1, 0);
                            lowered_subscripts(s, args, kinds, h, 0, Seq::empty(), 1, 0)
                        };
                        let (s, dest) = {
                            fresh_reg_aims(s, e.span, e.source, None);
                            fresh_reg(s, e.span, e.source, None)
                        };
                        let s = {
                            emitted_aims(s, MirInstrView::MultiIndex { dest, object: base, args, resolved: resolved_target(h), });
                            emitted(s, MirInstrView::MultiIndex { dest, object: base, args, resolved: resolved_target(h), })
                        };
                        (s, dest)
                    },
                    None => {
                        lowered_no_value_aims(s, e);
                        lowered_no_value(s, e)
                    },
                }
            },
            _ => {
                lowered_no_value_aims(s, e);
                lowered_no_value(s, e)
            },
        }
    };
}

pub(crate) proof fn lowered_template_aims(
    s: FlattenView,
    e: ExprView,
    h: Option<HirExprView>,
)
    requires
        aimed(s),
    ensures
        aimed(lowered_template(s, e, h).0),
        further(s, lowered_template(s, e, h).0),
    decreases e, 1nat,
{
    let _ = {
        match e.kind {
            ExprKindView::TString { parts, .. } => {
                let (s, start) = {
                    lowered_constant_aims(s, e, ConstView::Str(""@));
                    lowered_constant(s, e, ConstView::Str(""@))
                };
                {
                    lowered_parts_aims(s, parts, e, h, 0, start, 0);
                    lowered_parts(s, parts, e, h, 0, start, 0)
                }
            },
            _ => {
                lowered_no_value_aims(s, e);
                lowered_no_value(s, e)
            },
        }
    };
}

pub(crate) proof fn lowered_parts_aims(
    s: FlattenView,
    parts: Seq<TStringPartView>,
    e: ExprView,
    h: Option<HirExprView>,
    i: nat,
    result: Reg,
    k: usize,
)
    requires
        aimed(s),
    ensures
        aimed(lowered_parts(s, parts, e, h, i, result, k).0),
        further(s, lowered_parts(s, parts, e, h, i, result, k).0),
    decreases parts, (parts.len() - i) as nat,
{
    let _ = {
        if i >= parts.len() {
            (s, result)
        } else {
            let part = parts[i as int];
            let (s, piece) = {
                lowered_part_aims(s, part, e, child_facts(h, k));
                lowered_part(s, part, e, child_facts(h, k))
            };
            let (s, joined) = {
                fresh_reg_aims(s, e.span, e.source, None);
                fresh_reg(s, e.span, e.source, None)
            };
            let s = {
                emitted_aims(s, MirInstrView::BinOp { op: InfixOp::Add, dest: joined, a: result, b: piece });
                emitted(s, MirInstrView::BinOp { op: InfixOp::Add, dest: joined, a: result, b: piece })
            };
            let result = joined;
            let k = if (part matches TStringPartView::Expr(_)) {
                following_index(k)
            } else {
                k
            };
            {
                lowered_parts_aims(s, parts, e, h, i + 1, result, k);
                lowered_parts(s, parts, e, h, i + 1, result, k)
            }
        }
    };
}

pub(crate) proof fn lowered_part_aims(
    s: FlattenView,
    part: TStringPartView,
    e: ExprView,
    h: Option<HirExprView>,
)
    requires
        aimed(s),
    ensures
        aimed(lowered_part(s, part, e, h).0),
        further(s, lowered_part(s, part, e, h).0),
    decreases part, 0nat,
{
    let _ = {
        match part {
            TStringPartView::Literal(text) => {
                lowered_constant_aims(s, e, ConstView::Str(text));
                lowered_constant(s, e, ConstView::Str(text))
            },
            TStringPartView::Expr(value) => {
                let (s, arg) = {
                    lowered_value_aims(s, *value, h);
                    lowered_value(s, *value, h)
                };
                let (s, dest) = {
                    fresh_reg_aims(s, value.span, value.source, None);
                    fresh_reg(s, value.span, value.source, None)
                };
                let s = {
                    lowered_conversion_aims(s, dest, "String"@, arg);
                    lowered_conversion(s, dest, "String"@, arg)
                };
                (s, dest)
            },
        }
    };
}

pub(crate) proof fn lowered_conversion_aims(
    s: FlattenView,
    dest: Reg,
    target: Seq<char>,
    arg: Reg,
)
    requires
        aimed(s),
    ensures
        aimed(lowered_conversion(s, dest, target, arg)),
        further(s, lowered_conversion(s, dest, target, arg)),
{
    reveal(lowered_conversion);
    let _ = {
        let args = seq![arg];
        let places = seq![None];
        let kwargs = Seq::<(Seq<char>, Reg)>::empty();
        let params = Seq::<Option<Reg>>::empty();
        let s = {
            emitted_aims(s, MirInstrView::Call { dest, func: callee_named(target), raises: None, args, kwargs, arg_places: places, param_arg_regs: params, });
            emitted(s, MirInstrView::Call { dest, func: callee_named(target), raises: None, args, kwargs, arg_places: places, param_arg_regs: params, })
        };
        s
    };
}

pub(crate) proof fn lowered_list_aims(
    s: FlattenView,
    e: ExprView,
    h: Option<HirExprView>,
)
    requires
        aimed(s),
    ensures
        aimed(lowered_list(s, e, h).0),
        further(s, lowered_list(s, e, h).0),
    decreases e, 1nat,
{
    let _ = {
        match e.kind {
            ExprKindView::ListLit(values) => {
                let (s, elems) = {
                    lowered_args_aims(s, values, h, 0, Seq::empty(), 0);
                    lowered_args(s, values, h, 0, Seq::empty(), 0)
                };
                let (s, dest) = {
                    fresh_reg_aims(s, e.span, e.source, None);
                    fresh_reg(s, e.span, e.source, None)
                };
                let s = {
                    emitted_aims(s, MirInstrView::MakeList { dest, elems, element_type: element_of_list(known_ty(h)) });
                    emitted(s, MirInstrView::MakeList { dest, elems, element_type: element_of_list(known_ty(h)) })
                };
                (s, dest)
            },
            ExprKindView::TupleLit(values) => {
                let (s, elems) = {
                    lowered_args_aims(s, values, h, 0, Seq::empty(), 0);
                    lowered_args(s, values, h, 0, Seq::empty(), 0)
                };
                let (s, dest) = {
                    fresh_reg_aims(s, e.span, e.source, None);
                    fresh_reg(s, e.span, e.source, None)
                };
                let s = {
                    emitted_aims(s, MirInstrView::MakeTuple { dest, elems, element_types: elements_of_tuple(known_ty(h)), });
                    emitted(s, MirInstrView::MakeTuple { dest, elems, element_types: elements_of_tuple(known_ty(h)), })
                };
                (s, dest)
            },
            _ => {
                lowered_no_value_aims(s, e);
                lowered_no_value(s, e)
            },
        }
    };
}

pub(crate) proof fn lowered_brace_aims(
    s: FlattenView,
    e: ExprView,
    h: Option<HirExprView>,
)
    requires
        aimed(s),
    ensures
        aimed(lowered_brace(s, e, h).0),
        further(s, lowered_brace(s, e, h).0),
    decreases e, 1nat,
{
    let _ = {
        match e.kind {
            ExprKindView::BraceLit(entries) => {
                let (s, dest) = {
                    fresh_reg_aims(s, e.span, e.source, None);
                    fresh_reg(s, e.span, e.source, None)
                };
                let s = if displays_dictionary(entries, known_ty(h)) {
                    let (s, pairs) = {
                        lowered_pairs_aims(s, entries, h, 0, Seq::empty(), 0);
                        lowered_pairs(s, entries, h, 0, Seq::empty(), 0)
                    };
                    let s = {
                        emitted_aims(s, MirInstrView::MakeDict { dest, entries: pairs, key_type: key_of_dict(known_ty(h)), value_type: value_of_dict(known_ty(h)), });
                        emitted(s, MirInstrView::MakeDict { dest, entries: pairs, key_type: key_of_dict(known_ty(h)), value_type: value_of_dict(known_ty(h)), })
                    };
                    s
                } else {
                    let (s, elems) = {
                        lowered_keys_aims(s, entries, h, 0, Seq::empty(), 0);
                        lowered_keys(s, entries, h, 0, Seq::empty(), 0)
                    };
                    let s = {
                        emitted_aims(s, MirInstrView::MakeSet { dest, elems, element_type: element_of_set(known_ty(h)), });
                        emitted(s, MirInstrView::MakeSet { dest, elems, element_type: element_of_set(known_ty(h)), })
                    };
                    s
                };
                (s, dest)
            },
            _ => {
                lowered_no_value_aims(s, e);
                lowered_no_value(s, e)
            },
        }
    };
}

pub(crate) proof fn lowered_pairs_aims(
    s: FlattenView,
    entries: Seq<(ExprView, Option<ExprView>)>,
    h: Option<HirExprView>,
    i: nat,
    out: Seq<(Reg, Reg)>,
    k: usize,
)
    requires
        aimed(s),
    ensures
        aimed(lowered_pairs(s, entries, h, i, out, k).0),
        further(s, lowered_pairs(s, entries, h, i, out, k).0),
    decreases entries, (entries.len() - i) as nat,
{
    let _ = {
        if i >= entries.len() {
            (s, out)
        } else {
            let entry = entries[i as int];
            let (s, key) = {
                lowered_value_aims(s, entry.0, child_facts(h, k));
                lowered_value(s, entry.0, child_facts(h, k))
            };
            match entry.1 {
                Some(value) => {
                    let (s, value) = {
                        lowered_value_aims(s, value, child_facts(h, following_index(k)));
                        lowered_value(s, value, child_facts(h, following_index(k)))
                    };
                    let out = out.push((key, value));
                    let k = following_index(following_index(k));
                    {
                        lowered_pairs_aims(s, entries, h, i + 1, out, k);
                        lowered_pairs(s, entries, h, i + 1, out, k)
                    }
                },
                None => (s, out),
            }
        }
    };
}

pub(crate) proof fn lowered_keys_aims(
    s: FlattenView,
    entries: Seq<(ExprView, Option<ExprView>)>,
    h: Option<HirExprView>,
    i: nat,
    out: Seq<Reg>,
    k: usize,
)
    requires
        aimed(s),
    ensures
        aimed(lowered_keys(s, entries, h, i, out, k).0),
        further(s, lowered_keys(s, entries, h, i, out, k).0),
    decreases entries, (entries.len() - i) as nat,
{
    let _ = {
        if i >= entries.len() {
            (s, out)
        } else {
            let entry = entries[i as int];
            let (s, key) = {
                lowered_value_aims(s, entry.0, child_facts(h, k));
                lowered_value(s, entry.0, child_facts(h, k))
            };
            let out = out.push(key);
            let k = if entry.1 is Some {
                following_index(following_index(k))
            } else {
                following_index(k)
            };
            {
                lowered_keys_aims(s, entries, h, i + 1, out, k);
                lowered_keys(s, entries, h, i + 1, out, k)
            }
        }
    };
}

} // verus!
