//! Blocks lead to blocks of their function: places.

use crate::aims::calls::{lowered_unconverted_aims, lowered_value_aims};
use crate::ast::{ExprKindView, ExprView, KwArgView};
use crate::calls::{lowered_unconverted, lowered_value};
use crate::debug::expr_kind_printed;
use crate::facts::projected_variant;
use crate::flatten::{
    FlattenView, LoanView, alias_of, bears_origin, borrow_among, child_facts, emitted,
    following_index, fresh_reg, holds_slot, interned, is_descriptor, known_adjustments,
    known_any_ty, loans_of, marked_unsupported, place_of_handle, place_of_name, place_of_use,
    pointer_among, slot_of_use,
};
use crate::hir::HirExprView;
use crate::mir::{MirInstrView, ProjView, accessed_through, projected, projected_opt, whole_place};
use crate::places::{
    all_loans, denotes_variant, lowered_alias_handle, lowered_arg_borrows, lowered_borrows,
    lowered_deref, lowered_field_place, lowered_handle, lowered_kwarg_borrows, lowered_no_place,
    lowered_place, lowered_pointer_source, lowered_simple_place, lowered_try_place,
    lowered_variant_place,
};
use crate::aims::flatten::{
    aimed, emitted_aims, fresh_reg_aims, further, interned_aims, marked_unsupported_aims,
    place_of_name_aims, place_of_use_aims, slot_of_use_aims,
};
use vstd::prelude::*;

verus! {

pub(crate) proof fn lowered_place_aims(
    s: FlattenView,
    e: ExprView,
    h: Option<HirExprView>,
)
    requires
        aimed(s),
    ensures
        aimed(lowered_place(s, e, h).0),
        further(s, lowered_place(s, e, h).0),
    decreases e, 1nat,
{
    let _ = {
        match e.kind {
            ExprKindView::Identifier(name) => {
                place_of_use_aims(s, name, h);
                place_of_use(s, name, h)
            },
            ExprKindView::Member { object, field } => {
                let (s, base) = {
                    lowered_place_aims(s, *object, child_facts(h, 0));
                    lowered_place(s, *object, child_facts(h, 0))
                };
                (s, projected_opt(base, ProjView::Field(field), known_any_ty(h)))
            },
            ExprKindView::Index { object, index } => {
                let (s, base) = {
                    lowered_place_aims(s, *object, child_facts(h, 0));
                    lowered_place(s, *object, child_facts(h, 0))
                };
                let (s, at) = {
                    lowered_value_aims(s, *index, child_facts(h, 1));
                    lowered_value(s, *index, child_facts(h, 1))
                };
                (s, projected_opt(base, ProjView::Index(at), known_any_ty(h)))
            },
            ExprKindView::TypeApply { name, .. } => {
                let (s, place) = {
                    lowered_variant_place_aims(s, name, h);
                    lowered_variant_place(s, name, h)
                };
                match place {
                    Some(place) => (s, place),
                    None => {
                        lowered_no_place_aims(s, e);
                        lowered_no_place(s, e)
                    },
                }
            },
            _ => {
                lowered_no_place_aims(s, e);
                lowered_no_place(s, e)
            },
        }
    };
}

pub(crate) proof fn lowered_variant_place_aims(
    s: FlattenView,
    name: Seq<char>,
    h: Option<HirExprView>,
)
    requires
        aimed(s),
    ensures
        aimed(lowered_variant_place(s, name, h).0),
        further(s, lowered_variant_place(s, name, h).0),
{
    reveal(lowered_variant_place);
    let _ = {
        match projected_variant(known_adjustments(h), 0) {
            Some((_, index)) => match known_any_ty(h) {
                Some(ty) => {
                    let (s, base) = {
                        place_of_name_aims(s, name);
                        place_of_name(s, name)
                    };
                    (s, Some(projected(base, ProjView::Variant(index), ty)))
                },
                None => (s, None),
            },
            None => (s, None),
        }
    };
}

pub(crate) proof fn lowered_no_place_aims(
    s: FlattenView,
    e: ExprView,
)
    requires
        aimed(s),
    ensures
        aimed(lowered_no_place(s, e).0),
        further(s, lowered_no_place(s, e).0),
{
    reveal(lowered_no_place);
    let _ = {
        let s = {
            marked_unsupported_aims(s, "invalid assignment place reached MIR lowering: "@ + expr_kind_printed(e.kind));
            marked_unsupported(s, "invalid assignment place reached MIR lowering: "@ + expr_kind_printed(e.kind))
        };
        let (s, var) = {
            interned_aims(s, "$invalid_place"@);
            interned(s, "$invalid_place"@)
        };
        (s, whole_place(var, None))
    };
}

pub(crate) proof fn lowered_simple_place_aims(
    s: FlattenView,
    e: ExprView,
    h: Option<HirExprView>,
)
    requires
        aimed(s),
    ensures
        aimed(lowered_simple_place(s, e, h).0),
        further(s, lowered_simple_place(s, e, h).0),
    decreases e, 1nat,
{
    let _ = {
        match e.kind {
            ExprKindView::Identifier(name) => {
                let (s, place) = {
                    place_of_use_aims(s, name, h);
                    place_of_use(s, name, h)
                };
                (s, Some(place))
            },
            ExprKindView::Member { object, field } => if is_descriptor(child_facts(h, 0)) {
                (s, None)
            } else {
                let (s, base) = {
                    lowered_simple_place_aims(s, *object, child_facts(h, 0));
                    lowered_simple_place(s, *object, child_facts(h, 0))
                };
                match base {
                    Some(base) => (
                        s,
                        Some(projected_opt(base, ProjView::Field(field), known_any_ty(h))),
                    ),
                    None => (s, None),
                }
            },
            ExprKindView::TypeApply { name, .. } => {
                lowered_variant_place_aims(s, name, h);
                lowered_variant_place(s, name, h)
            },
            _ => (s, None),
        }
    };
}

pub(crate) proof fn lowered_field_place_aims(
    s: FlattenView,
    e: ExprView,
    h: Option<HirExprView>,
)
    requires
        aimed(s),
    ensures
        aimed(lowered_field_place(s, e, h).0),
        further(s, lowered_field_place(s, e, h).0),
    decreases e, 1nat,
{
    let _ = {
        match e.kind {
            ExprKindView::Identifier(name) => {
                let root = if name == "Self"@ {
                    "self"@
                } else {
                    name
                };
                let (s, place) = {
                    place_of_use_aims(s, root, h);
                    place_of_use(s, root, h)
                };
                (s, Some(place))
            },
            ExprKindView::Member { object, field } => if is_descriptor(child_facts(h, 0)) {
                (s, None)
            } else {
                let (s, base) = {
                    lowered_field_place_aims(s, *object, child_facts(h, 0));
                    lowered_field_place(s, *object, child_facts(h, 0))
                };
                match base {
                    Some(base) => (
                        s,
                        Some(projected_opt(base, ProjView::Field(field), known_any_ty(h))),
                    ),
                    None => (s, None),
                }
            },
            _ => (s, None),
        }
    };
}

pub(crate) proof fn lowered_try_place_aims(
    s: FlattenView,
    e: ExprView,
    h: Option<HirExprView>,
    moved: bool,
)
    requires
        aimed(s),
    ensures
        aimed(lowered_try_place(s, e, h, moved).0),
        further(s, lowered_try_place(s, e, h, moved).0),
    decreases e, 1nat,
{
    let _ = {
        match e.kind {
            ExprKindView::Identifier(name) => {
                let (s, place) = {
                    place_of_use_aims(s, name, h);
                    place_of_use(s, name, h)
                };
                (s, Some(place))
            },
            ExprKindView::Member { object, field } => if is_descriptor(child_facts(h, 0)) {
                (s, None)
            } else {
                let (s, base) = {
                    lowered_try_place_aims(s, *object, child_facts(h, 0), false);
                    lowered_try_place(s, *object, child_facts(h, 0), false)
                };
                match base {
                    Some(base) => (
                        s,
                        Some(projected_opt(base, ProjView::Field(field), known_any_ty(h))),
                    ),
                    None => (s, None),
                }
            },
            ExprKindView::Index { object, index } => {
                let (s, base) = {
                    lowered_try_place_aims(s, *object, child_facts(h, 0), false);
                    lowered_try_place(s, *object, child_facts(h, 0), false)
                };
                match base {
                    Some(base) => {
                        let (s, at) = {
                            lowered_value_aims(s, *index, child_facts(h, 1));
                            lowered_value(s, *index, child_facts(h, 1))
                        };
                        (s, Some(projected_opt(base, ProjView::Index(at), known_any_ty(h))))
                    },
                    None => (s, None),
                }
            },
            ExprKindView::TypeApply { name, .. } => {
                lowered_variant_place_aims(s, name, h);
                lowered_variant_place(s, name, h)
            },
            ExprKindView::Transfer(inner) => if moved {
                {
                    lowered_try_place_aims(s, *inner, child_facts(h, 0), false);
                    lowered_try_place(s, *inner, child_facts(h, 0), false)
                }
            } else {
                (s, None)
            },
            _ => (s, None),
        }
    };
}

pub(crate) proof fn lowered_deref_aims(
    s: FlattenView,
    object: ExprView,
    h: Option<HirExprView>,
)
    requires
        aimed(s),
    ensures
        aimed(lowered_deref(s, object, h).0),
        further(s, lowered_deref(s, object, h).0),
{
    reveal(lowered_deref);
    let _ = {
        match object.kind {
            ExprKindView::Identifier(name) => if !bears_origin(h) || s.reassigned.contains(name) {
                (s, None)
            } else {
                let (s, var) = {
                    slot_of_use_aims(s, name, h);
                    slot_of_use(s, name, h)
                };
                match loans_of(s.aggregate_loans, var) {
                    Some(loans) => if loans.len() == 1 {
                        (s, Some(accessed_through(loans[0].place, var)))
                    } else {
                        (s, None)
                    },
                    None => (s, None),
                }
            },
            _ => (s, None),
        }
    };
}

pub(crate) proof fn lowered_alias_handle_aims(
    s: FlattenView,
    e: ExprView,
    h: Option<HirExprView>,
)
    requires
        aimed(s),
    ensures
        aimed(lowered_alias_handle(s, e, h).0),
        further(s, lowered_alias_handle(s, e, h).0),
{
    reveal(lowered_alias_handle);
    let _ = {
        match e.kind {
            ExprKindView::Identifier(name) => {
                let (s, var) = {
                    slot_of_use_aims(s, name, h);
                    slot_of_use(s, name, h)
                };
                match alias_of(s.aliases, var) {
                    Some(loan) => {
                        let (s, dest) = {
                            fresh_reg_aims(s, e.span, e.source, Some(loan.place.root));
                            fresh_reg(s, e.span, e.source, Some(loan.place.root))
                        };
                        let s = {
                            emitted_aims(s, MirInstrView::MakeRef { dest, place: loan.place });
                            emitted(s, MirInstrView::MakeRef { dest, place: loan.place })
                        };
                        (s, Some(dest))
                    },
                    None => if holds_slot(s.runtime_aliases, var, 0) {
                        let (s, dest) = {
                            fresh_reg_aims(s, e.span, e.source, Some(var));
                            fresh_reg(s, e.span, e.source, Some(var))
                        };
                        let place = place_of_handle(s, var);
                        let s = {
                            emitted_aims(s, MirInstrView::MakeRef { dest, place });
                            emitted(s, MirInstrView::MakeRef { dest, place })
                        };
                        (s, Some(dest))
                    } else {
                        (s, None)
                    },
                }
            },
            _ => (s, None),
        }
    };
}

pub(crate) proof fn lowered_handle_aims(
    s: FlattenView,
    e: ExprView,
    h: Option<HirExprView>,
)
    requires
        aimed(s),
    ensures
        aimed(lowered_handle(s, e, h).0),
        further(s, lowered_handle(s, e, h).0),
    decreases e, 7nat,
{
    let _ = {
        let (s, direct) = {
            lowered_alias_handle_aims(s, e, h);
            lowered_alias_handle(s, e, h)
        };
        match direct {
            Some(handle) => (s, handle),
            None => if denotes_variant(e, h) {
                let (s, place) = {
                    lowered_place_aims(s, e, h);
                    lowered_place(s, e, h)
                };
                let (s, dest) = {
                    fresh_reg_aims(s, e.span, e.source, Some(place.root));
                    fresh_reg(s, e.span, e.source, Some(place.root))
                };
                let s = {
                    emitted_aims(s, MirInstrView::MakeRef { dest, place });
                    emitted(s, MirInstrView::MakeRef { dest, place })
                };
                (s, dest)
            } else if (
                match e.kind {
                    ExprKindView::Member { .. } | ExprKindView::Index { .. } => true,
                    _ => false,
                }
            ) {
                let (s, place) = {
                    lowered_place_aims(s, e, h);
                    lowered_place(s, e, h)
                };
                let (s, storage) = {
                    fresh_reg_aims(s, e.span, e.source, Some(place.root));
                    fresh_reg(s, e.span, e.source, Some(place.root))
                };
                let s = {
                    emitted_aims(s, MirInstrView::MakeRef { dest: storage, place });
                    emitted(s, MirInstrView::MakeRef { dest: storage, place })
                };
                let (s, dest) = {
                    fresh_reg_aims(s, e.span, e.source, None);
                    fresh_reg(s, e.span, e.source, None)
                };
                let s = {
                    emitted_aims(s, MirInstrView::ReadRef { dest, reference: storage });
                    emitted(s, MirInstrView::ReadRef { dest, reference: storage })
                };
                (s, dest)
            } else {
                {
                    lowered_unconverted_aims(s, e, h);
                    lowered_unconverted(s, e, h)
                }
            },
        }
    };
}

pub(crate) proof fn lowered_borrows_aims(
    s: FlattenView,
    e: ExprView,
    h: Option<HirExprView>,
)
    requires
        aimed(s),
    ensures
        aimed(lowered_borrows(s, e, h).0),
        further(s, lowered_borrows(s, e, h).0),
    decreases e, 1nat,
{
    let _ = {
        match e.kind {
            ExprKindView::Identifier(name) => {
                let (s, var) = {
                    slot_of_use_aims(s, name, h);
                    slot_of_use(s, name, h)
                };
                match borrow_among(known_adjustments(h), 0) {
                    Some(mutable) => match alias_of(s.aliases, var) {
                        Some(loan) => (s, seq![LoanView { place: loan.place, mutable }]),
                        None => (s, Seq::empty()),
                    },
                    None => match loans_of(s.aggregate_loans, var) {
                        Some(loans) => (s, loans),
                        None => (s, Seq::empty()),
                    },
                }
            },
            ExprKindView::Call { args, kwargs, .. } => match pointer_among(known_adjustments(h), 0) {
                Some(mutable) => {
                    let (s, place) = {
                        lowered_pointer_source_aims(s, kwargs, child_facts(h, args.len() as usize), 0);
                        lowered_pointer_source(s, kwargs, child_facts(h, args.len() as usize), 0)
                    };
                    match place {
                        Some(place) => (s, seq![LoanView { place, mutable }]),
                        None => (s, Seq::empty()),
                    }
                },
                None => {
                    let found = Seq::<LoanView>::empty();
                    let (s, loans) = {
                        lowered_arg_borrows_aims(s, args, h, 0, found, 0);
                        lowered_arg_borrows(s, args, h, 0, found, 0)
                    };
                    {
                        lowered_kwarg_borrows_aims(s, kwargs, h, 0, loans, args.len() as usize);
                        lowered_kwarg_borrows(s, kwargs, h, 0, loans, args.len() as usize)
                    }
                },
            },
            ExprKindView::Transfer(inner) => {
                lowered_borrows_aims(s, *inner, child_facts(h, 0));
                lowered_borrows(s, *inner, child_facts(h, 0))
            },
            ExprKindView::ListLit(values) => {
                let found = Seq::<LoanView>::empty();
                {
                    lowered_arg_borrows_aims(s, values, h, 0, found, 0);
                    lowered_arg_borrows(s, values, h, 0, found, 0)
                }
            },
            ExprKindView::TupleLit(values) => {
                let found = Seq::<LoanView>::empty();
                {
                    lowered_arg_borrows_aims(s, values, h, 0, found, 0);
                    lowered_arg_borrows(s, values, h, 0, found, 0)
                }
            },
            _ => (s, Seq::empty()),
        }
    };
}

pub(crate) proof fn lowered_pointer_source_aims(
    s: FlattenView,
    kwargs: Seq<KwArgView>,
    h: Option<HirExprView>,
    i: nat,
)
    requires
        aimed(s),
    ensures
        aimed(lowered_pointer_source(s, kwargs, h, i).0),
        further(s, lowered_pointer_source(s, kwargs, h, i).0),
    decreases kwargs, (kwargs.len() - i) as nat,
{
    let _ = {
        if i >= kwargs.len() {
            (s, None)
        } else {
            let kwarg = kwargs[i as int];
            let (s, place) = {
                lowered_place_aims(s, kwarg.value, h);
                lowered_place(s, kwarg.value, h)
            };
            (s, Some(place))
        }
    };
}

pub(crate) proof fn lowered_arg_borrows_aims(
    s: FlattenView,
    args: Seq<ExprView>,
    h: Option<HirExprView>,
    i: nat,
    out: Seq<LoanView>,
    k: usize,
)
    requires
        aimed(s),
    ensures
        aimed(lowered_arg_borrows(s, args, h, i, out, k).0),
        further(s, lowered_arg_borrows(s, args, h, i, out, k).0),
    decreases args, (args.len() - i) as nat,
{
    let _ = {
        if i >= args.len() {
            (s, out)
        } else {
            let arg = args[i as int];
            let (s, more) = {
                lowered_borrows_aims(s, arg, child_facts(h, k));
                lowered_borrows(s, arg, child_facts(h, k))
            };
            let out = all_loans(more, 0, out);
            let k = following_index(k);
            {
                lowered_arg_borrows_aims(s, args, h, i + 1, out, k);
                lowered_arg_borrows(s, args, h, i + 1, out, k)
            }
        }
    };
}

pub(crate) proof fn lowered_kwarg_borrows_aims(
    s: FlattenView,
    kwargs: Seq<KwArgView>,
    h: Option<HirExprView>,
    i: nat,
    out: Seq<LoanView>,
    k: usize,
)
    requires
        aimed(s),
    ensures
        aimed(lowered_kwarg_borrows(s, kwargs, h, i, out, k).0),
        further(s, lowered_kwarg_borrows(s, kwargs, h, i, out, k).0),
    decreases kwargs, (kwargs.len() - i) as nat,
{
    let _ = {
        if i >= kwargs.len() {
            (s, out)
        } else {
            let kwarg = kwargs[i as int];
            let (s, more) = {
                lowered_borrows_aims(s, kwarg.value, child_facts(h, k));
                lowered_borrows(s, kwarg.value, child_facts(h, k))
            };
            let out = all_loans(more, 0, out);
            let k = following_index(k);
            {
                lowered_kwarg_borrows_aims(s, kwargs, h, i + 1, out, k);
                lowered_kwarg_borrows(s, kwargs, h, i + 1, out, k)
            }
        }
    };
}

} // verus!
