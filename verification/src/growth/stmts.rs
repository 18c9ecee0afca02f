//! Flattening only adds registers, slots and blocks: statements.

use crate::ast::{ExprKindView, ExprView, InfixOp, StmtView, SubscriptArgView};
use crate::calls::{emitted_binary, lowered_value};
use crate::exprs::lowered_subscripts;
use crate::flatten::{
    FlattenView, LoanView, alias_of, bears_origin, borrow_among, child_facts, defined, emitted,
    following_index, fresh_reg, holds_slot, interned, is_reference_ty, known_adjustments,
    marked_unsupported, place_of_handle, resolved_target, slices_among, with_alias, with_loans,
    with_opt_var_type, with_runtime_alias,
};
use crate::growth::calls::{emitted_binary_grows, lowered_value_grows};
use crate::growth::exprs::lowered_subscripts_grows;
use crate::growth::flatten::{
    defined_grows, emitted_grows, fresh_reg_grows, grown, interned_grows, marked_unsupported_grows,
    with_alias_grows, with_loans_grows, with_opt_var_type_grows, with_runtime_alias_grows,
};
use crate::growth::places::{
    lowered_borrows_grows, lowered_deref_grows, lowered_place_grows, lowered_simple_place_grows,
};
use crate::hir::{HirExprView, TerminatorView};
use crate::mir::{
    Const, ConstView, MirInstrView, MirPlaceView, MirSubscriptArgView, MirTermView, Reg,
    accessed_through, whole_place,
};
use crate::places::{lowered_borrows, lowered_deref, lowered_place, lowered_simple_place};
use crate::stmts::{
    begun_loans, candidates_of, facts_of_root, lowered_aug, lowered_aug_handle, lowered_aug_place,
    lowered_aug_store, lowered_aug_var, lowered_bind, lowered_carried_loans, lowered_loan,
    lowered_loans, lowered_multi_set, lowered_ref_stmt, lowered_returned, lowered_runtime_ref,
    lowered_set_direct, lowered_set_place, lowered_subscript_set, lowered_target,
    lowered_target_handle, lowered_target_place, lowered_targets, lowered_term, lowered_unpack,
    marked_no_descriptors, written_as_place,
};
use crate::types::TyView;
use vstd::prelude::*;

verus! {

pub(crate) proof fn lowered_runtime_ref_grows(
    from: FlattenView,
    s: FlattenView,
    reference: u32,
    value: ExprView,
    h: Option<HirExprView>,
)
    requires
        grown(from, s),
    ensures
        grown(from, lowered_runtime_ref(s, reference, value, h)),
        s.blocks.len() <= lowered_runtime_ref(s, reference, value, h).blocks.len(),
{
    reveal(lowered_runtime_ref);
    let _ = {
        let (s, src) = {
            lowered_value_grows(from, s, value, h);
            lowered_value(s, value, h)
        };
        let s = {
            with_runtime_alias_grows(from, s, reference);
            with_runtime_alias(s, reference)
        };
        let s = {
            defined_grows(from, s, reference, src, None);
            defined(s, reference, src, None)
        };
        let candidates = candidates_of(value);
        let s = {
            lowered_loans_grows(from, s, candidates, reference, h, 0, 0);
            lowered_loans(s, candidates, reference, h, 0, 0)
        };
        s
    };
}

pub(crate) proof fn lowered_loans_grows(
    from: FlattenView,
    s: FlattenView,
    candidates: Seq<ExprView>,
    reference: u32,
    h: Option<HirExprView>,
    i: nat,
    k: usize,
)
    requires
        grown(from, s),
    ensures
        grown(from, lowered_loans(s, candidates, reference, h, i, k)),
        s.blocks.len() <= lowered_loans(s, candidates, reference, h, i, k).blocks.len(),
    decreases candidates, (candidates.len() - i) as nat,
{
    let _ = {
        if i >= candidates.len() {
            s
        } else {
            let candidate = candidates[i as int];
            let (s, place) = {
                lowered_simple_place_grows(from, s, candidate, child_facts(h, k));
                lowered_simple_place(s, candidate, child_facts(h, k))
            };
            let s = {
                lowered_loan_grows(from, s, reference, place, candidate);
                lowered_loan(s, reference, place, candidate)
            };
            let k = following_index(k);
            {
                lowered_loans_grows(from, s, candidates, reference, h, i + 1, k);
                lowered_loans(s, candidates, reference, h, i + 1, k)
            }
        }
    };
}

pub(crate) proof fn lowered_loan_grows(
    from: FlattenView,
    s: FlattenView,
    reference: u32,
    place: Option<MirPlaceView>,
    at: ExprView,
)
    requires
        grown(from, s),
    ensures
        grown(from, lowered_loan(s, reference, place, at)),
        s.blocks.len() <= lowered_loan(s, reference, place, at).blocks.len(),
{
    reveal(lowered_loan);
    let _ = {
        match place {
            Some(place) => {
                let (s, marker) = {
                    fresh_reg_grows(from, s, at.span, at.source, Some(place.root));
                    fresh_reg(s, at.span, at.source, Some(place.root))
                };
                let s = {
                    emitted_grows(from, s, MirInstrView::BeginLoan { reference, place, mutable: true, marker });
                    emitted(s, MirInstrView::BeginLoan { reference, place, mutable: true, marker })
                };
                s
            },
            None => s,
        }
    };
}

pub(crate) proof fn lowered_ref_stmt_grows(
    from: FlattenView,
    s: FlattenView,
    stmt: StmtView,
    name: Seq<char>,
    value: ExprView,
    h: Option<HirExprView>,
)
    requires
        grown(from, s),
    ensures
        grown(from, lowered_ref_stmt(s, stmt, name, value, h)),
        s.blocks.len() <= lowered_ref_stmt(s, stmt, name, value, h).blocks.len(),
{
    reveal(lowered_ref_stmt);
    let _ = {
        let (s, reference) = {
            interned_grows(from, s, name);
            interned(s, name)
        };
        if written_as_place(value) {
            let (s, place) = {
                lowered_place_grows(from, s, value, h);
                lowered_place(s, value, h)
            };
            let s = {
                with_alias_grows(from, s, reference, LoanView { place, mutable: true });
                with_alias(s, reference, LoanView { place, mutable: true })
            };
            let (s, marker) = {
                fresh_reg_grows(from, s, stmt.span, stmt.module, Some(place.root));
                fresh_reg(s, stmt.span, stmt.module, Some(place.root))
            };
            let s = {
                emitted_grows(from, s, MirInstrView::BeginLoan { reference, place, mutable: true, marker });
                emitted(s, MirInstrView::BeginLoan { reference, place, mutable: true, marker })
            };
            s
        } else {
            let s = {
                lowered_runtime_ref_grows(from, s, reference, value, h);
                lowered_runtime_ref(s, reference, value, h)
            };
            s
        }
    };
}

pub(crate) proof fn lowered_subscript_set_grows(
    from: FlattenView,
    s: FlattenView,
    target: ExprView,
    h: Option<HirExprView>,
    value: Reg,
)
    requires
        grown(from, s),
    ensures
        grown(from, lowered_subscript_set(s, target, h, value).0),
        s.blocks.len() <= lowered_subscript_set(s, target, h, value).0.blocks.len(),
{
    reveal(lowered_subscript_set);
    let _ = {
        match target.kind {
            ExprKindView::Slice { object, lower, upper, step } => {
                let s = match slices_among(known_adjustments(h), 0) {
                    Some((kinds, keyword)) => {
                        let whole = seq![SubscriptArgView::Slice { lower, upper, step }];
                        let (s, args) = {
                            lowered_subscripts_grows(from, s, whole, kinds, h, 0, Seq::empty(), 1, 0);
                            lowered_subscripts(s, whole, kinds, h, 0, Seq::empty(), 1, 0)
                        };
                        let s = {
                            lowered_multi_set_grows(from, s, *object, h, args, value, keyword);
                            lowered_multi_set(s, *object, h, args, value, keyword)
                        };
                        s
                    },
                    None => {
                        let s = {
                            marked_no_descriptors_grows(from, s);
                            marked_no_descriptors(s)
                        };
                        s
                    },
                };
                (s, true)
            },
            ExprKindView::MultiIndex { object, args } => {
                let s = match slices_among(known_adjustments(h), 0) {
                    Some((kinds, keyword)) => {
                        let (s, args) = {
                            lowered_subscripts_grows(from, s, args, kinds, h, 0, Seq::empty(), 1, 0);
                            lowered_subscripts(s, args, kinds, h, 0, Seq::empty(), 1, 0)
                        };
                        let s = {
                            lowered_multi_set_grows(from, s, *object, h, args, value, keyword);
                            lowered_multi_set(s, *object, h, args, value, keyword)
                        };
                        s
                    },
                    None => {
                        let s = {
                            marked_no_descriptors_grows(from, s);
                            marked_no_descriptors(s)
                        };
                        s
                    },
                };
                (s, true)
            },
            _ => (s, false),
        }
    };
}

pub(crate) proof fn marked_no_descriptors_grows(
    from: FlattenView,
    s: FlattenView,
)
    requires
        grown(from, s),
    ensures
        grown(from, marked_no_descriptors(s)),
        s.blocks.len() <= marked_no_descriptors(s).blocks.len(),
{
    reveal(marked_no_descriptors);
    let _ = {
        let s = {
            marked_unsupported_grows(from, s, "checked subscript assignment lacks descriptor metadata"@);
            marked_unsupported(s, "checked subscript assignment lacks descriptor metadata"@)
        };
        s
    };
}

pub(crate) proof fn lowered_multi_set_grows(
    from: FlattenView,
    s: FlattenView,
    object: ExprView,
    h: Option<HirExprView>,
    args: Seq<MirSubscriptArgView>,
    value: Reg,
    keyword: Option<Seq<char>>,
)
    requires
        grown(from, s),
    ensures
        grown(from, lowered_multi_set(s, object, h, args, value, keyword)),
        s.blocks.len() <= lowered_multi_set(s, object, h, args, value, keyword).blocks.len(),
{
    reveal(lowered_multi_set);
    let _ = {
        let (s, receiver) = {
            lowered_place_grows(from, s, object, child_facts(h, 0));
            lowered_place(s, object, child_facts(h, 0))
        };
        let s = {
            emitted_grows(from, s, MirInstrView::MultiSet { receiver_place: receiver, args, value, value_keyword: keyword, resolved: resolved_target(h), });
            emitted(s, MirInstrView::MultiSet { receiver_place: receiver, args, value, value_keyword: keyword, resolved: resolved_target(h), })
        };
        s
    };
}

pub(crate) proof fn lowered_target_place_grows(
    from: FlattenView,
    s: FlattenView,
    target: ExprView,
    h: Option<HirExprView>,
)
    requires
        grown(from, s),
    ensures
        grown(from, lowered_target_place(s, target, h).0),
        s.blocks.len() <= lowered_target_place(s, target, h).0.blocks.len(),
{
    reveal(lowered_target_place);
    let _ = {
        match target.kind {
            ExprKindView::Index { object, .. } => {
                lowered_deref_grows(from, s, *object, child_facts(h, 0));
                lowered_deref(s, *object, child_facts(h, 0))
            },
            _ => (s, None),
        }
    };
}

pub(crate) proof fn lowered_target_handle_grows(
    from: FlattenView,
    s: FlattenView,
    target: ExprView,
    h: Option<HirExprView>,
)
    requires
        grown(from, s),
    ensures
        grown(from, lowered_target_handle(s, target, h).0),
        s.blocks.len() <= lowered_target_handle(s, target, h).0.blocks.len(),
{
    reveal(lowered_target_handle);
    let _ = {
        match target.kind {
            ExprKindView::Index { object, .. } => if bears_origin(child_facts(h, 0)) {
                let (s, reference) = {
                    lowered_value_grows(from, s, *object, child_facts(h, 0));
                    lowered_value(s, *object, child_facts(h, 0))
                };
                (s, Some(reference))
            } else {
                (s, None)
            },
            _ => (s, None),
        }
    };
}

pub(crate) proof fn lowered_set_place_grows(
    from: FlattenView,
    s: FlattenView,
    target: ExprView,
    value: ExprView,
    facts: Seq<HirExprView>,
)
    requires
        grown(from, s),
    ensures
        grown(from, lowered_set_place(s, target, value, facts)),
        s.blocks.len() <= lowered_set_place(s, target, value, facts).blocks.len(),
{
    reveal(lowered_set_place);
    let _ = {
        let (s, src) = {
            lowered_value_grows(from, s, value, facts_of_root(facts, 1));
            lowered_value(s, value, facts_of_root(facts, 1))
        };
        let (s, done) = {
            lowered_subscript_set_grows(from, s, target, facts_of_root(facts, 0), src);
            lowered_subscript_set(s, target, facts_of_root(facts, 0), src)
        };
        if !done {
            let (s, behind) = {
                lowered_target_place_grows(from, s, target, facts_of_root(facts, 0));
                lowered_target_place(s, target, facts_of_root(facts, 0))
            };
            match behind {
                Some(place) => {
                    let s = {
                        emitted_grows(from, s, MirInstrView::Store { place, src });
                        emitted(s, MirInstrView::Store { place, src })
                    };
                    s
                },
                None => {
                    let s = {
                        lowered_set_direct_grows(from, s, target, src, facts);
                        lowered_set_direct(s, target, src, facts)
                    };
                    s
                },
            }
        } else {
            s
        }
    };
}

pub(crate) proof fn lowered_set_direct_grows(
    from: FlattenView,
    s: FlattenView,
    target: ExprView,
    src: Reg,
    facts: Seq<HirExprView>,
)
    requires
        grown(from, s),
    ensures
        grown(from, lowered_set_direct(s, target, src, facts)),
        s.blocks.len() <= lowered_set_direct(s, target, src, facts).blocks.len(),
{
    reveal(lowered_set_direct);
    let _ = {
        let (s, handle) = {
            lowered_target_handle_grows(from, s, target, facts_of_root(facts, 0));
            lowered_target_handle(s, target, facts_of_root(facts, 0))
        };
        match handle {
            Some(reference) => {
                let s = {
                    emitted_grows(from, s, MirInstrView::WriteRef { reference, value: src });
                    emitted(s, MirInstrView::WriteRef { reference, value: src })
                };
                s
            },
            None => {
                let (s, place) = {
                    lowered_place_grows(from, s, target, facts_of_root(facts, 0));
                    lowered_place(s, target, facts_of_root(facts, 0))
                };
                if is_reference_ty(place.ty) && borrow_among(
                    known_adjustments(facts_of_root(facts, 1)),
                    0,
                ) is Some {
                    let s = {
                        emitted_grows(from, s, MirInstrView::StoreRef { place, reference: src });
                        emitted(s, MirInstrView::StoreRef { place, reference: src })
                    };
                    s
                } else {
                    let s = {
                        emitted_grows(from, s, MirInstrView::Store { place, src });
                        emitted(s, MirInstrView::Store { place, src })
                    };
                    s
                }
            },
        }
    };
}

pub(crate) proof fn lowered_aug_grows(
    from: FlattenView,
    s: FlattenView,
    target: ExprView,
    op: InfixOp,
    value: ExprView,
    facts: Seq<HirExprView>,
)
    requires
        grown(from, s),
    ensures
        grown(from, lowered_aug(s, target, op, value, facts)),
        s.blocks.len() <= lowered_aug(s, target, op, value, facts).blocks.len(),
{
    reveal(lowered_aug);
    let _ = {
        match target.kind {
            ExprKindView::Identifier(name) => {
                let s = {
                    lowered_aug_var_grows(from, s, target, name, op, value, facts);
                    lowered_aug_var(s, target, name, op, value, facts)
                };
                s
            },
            _ => {
                let s = {
                    lowered_aug_place_grows(from, s, target, op, value, facts);
                    lowered_aug_place(s, target, op, value, facts)
                };
                s
            },
        }
    };
}

pub(crate) proof fn lowered_aug_var_grows(
    from: FlattenView,
    s: FlattenView,
    target: ExprView,
    name: Seq<char>,
    op: InfixOp,
    value: ExprView,
    facts: Seq<HirExprView>,
)
    requires
        grown(from, s),
    ensures
        grown(from, lowered_aug_var(s, target, name, op, value, facts)),
        s.blocks.len() <= lowered_aug_var(s, target, name, op, value, facts).blocks.len(),
{
    reveal(lowered_aug_var);
    let _ = {
        let (s, var) = {
            interned_grows(from, s, name);
            interned(s, name)
        };
        let (s, cur) = {
            lowered_value_grows(from, s, target, facts_of_root(facts, 0));
            lowered_value(s, target, facts_of_root(facts, 0))
        };
        let (s, rhs) = {
            lowered_value_grows(from, s, value, facts_of_root(facts, 1));
            lowered_value(s, value, facts_of_root(facts, 1))
        };
        let (s, res) = {
            emitted_binary_grows(from, s, target, op, cur, rhs);
            emitted_binary(s, target, op, cur, rhs)
        };
        if holds_slot(s.runtime_aliases, var, 0) {
            let (s, handle) = {
                fresh_reg_grows(from, s, target.span, target.source, Some(var));
                fresh_reg(s, target.span, target.source, Some(var))
            };
            let place = place_of_handle(s, var);
            let s = {
                emitted_grows(from, s, MirInstrView::MakeRef { dest: handle, place });
                emitted(s, MirInstrView::MakeRef { dest: handle, place })
            };
            let s = {
                emitted_grows(from, s, MirInstrView::WriteRef { reference: handle, value: res });
                emitted(s, MirInstrView::WriteRef { reference: handle, value: res })
            };
            s
        } else {
            match alias_of(s.aliases, var) {
                Some(loan) => {
                    let s = {
                        emitted_grows(from, s, MirInstrView::Store { place: accessed_through(loan.place, var), src: res });
                        emitted(s, MirInstrView::Store { place: accessed_through(loan.place, var), src: res })
                    };
                    s
                },
                None => {
                    let s = {
                        defined_grows(from, s, var, res, None);
                        defined(s, var, res, None)
                    };
                    s
                },
            }
        }
    };
}

pub(crate) proof fn lowered_aug_place_grows(
    from: FlattenView,
    s: FlattenView,
    target: ExprView,
    op: InfixOp,
    value: ExprView,
    facts: Seq<HirExprView>,
)
    requires
        grown(from, s),
    ensures
        grown(from, lowered_aug_place(s, target, op, value, facts)),
        s.blocks.len() <= lowered_aug_place(s, target, op, value, facts).blocks.len(),
{
    reveal(lowered_aug_place);
    let _ = {
        let (s, behind) = {
            lowered_target_place_grows(from, s, target, facts_of_root(facts, 0));
            lowered_target_place(s, target, facts_of_root(facts, 0))
        };
        match behind {
            Some(place) => {
                let root = place.root;
                let s = {
                    lowered_aug_store_grows(from, s, target, place, Some(root), op, value, facts);
                    lowered_aug_store(s, target, place, Some(root), op, value, facts)
                };
                s
            },
            None => {
                let (s, handle) = {
                    lowered_target_handle_grows(from, s, target, facts_of_root(facts, 0));
                    lowered_target_handle(s, target, facts_of_root(facts, 0))
                };
                match handle {
                    Some(reference) => {
                        let s = {
                            lowered_aug_handle_grows(from, s, target, reference, op, value, facts);
                            lowered_aug_handle(s, target, reference, op, value, facts)
                        };
                        s
                    },
                    None => {
                        let (s, place) = {
                            lowered_place_grows(from, s, target, facts_of_root(facts, 0));
                            lowered_place(s, target, facts_of_root(facts, 0))
                        };
                        let s = {
                            lowered_aug_store_grows(from, s, target, place, None, op, value, facts);
                            lowered_aug_store(s, target, place, None, op, value, facts)
                        };
                        s
                    },
                }
            },
        }
    };
}

pub(crate) proof fn lowered_aug_store_grows(
    from: FlattenView,
    s: FlattenView,
    target: ExprView,
    place: MirPlaceView,
    root: Option<u32>,
    op: InfixOp,
    value: ExprView,
    facts: Seq<HirExprView>,
)
    requires
        grown(from, s),
    ensures
        grown(from, lowered_aug_store(s, target, place, root, op, value, facts)),
        s.blocks.len() <= lowered_aug_store(s, target, place, root, op, value, facts).blocks.len(),
{
    reveal(lowered_aug_store);
    let _ = {
        let (s, cur) = {
            fresh_reg_grows(from, s, target.span, target.source, root);
            fresh_reg(s, target.span, target.source, root)
        };
        let s = {
            emitted_grows(from, s, MirInstrView::LoadPlace { dest: cur, place });
            emitted(s, MirInstrView::LoadPlace { dest: cur, place })
        };
        let (s, rhs) = {
            lowered_value_grows(from, s, value, facts_of_root(facts, 1));
            lowered_value(s, value, facts_of_root(facts, 1))
        };
        let (s, res) = {
            emitted_binary_grows(from, s, target, op, cur, rhs);
            emitted_binary(s, target, op, cur, rhs)
        };
        let s = {
            emitted_grows(from, s, MirInstrView::Store { place, src: res });
            emitted(s, MirInstrView::Store { place, src: res })
        };
        s
    };
}

pub(crate) proof fn lowered_aug_handle_grows(
    from: FlattenView,
    s: FlattenView,
    target: ExprView,
    reference: Reg,
    op: InfixOp,
    value: ExprView,
    facts: Seq<HirExprView>,
)
    requires
        grown(from, s),
    ensures
        grown(from, lowered_aug_handle(s, target, reference, op, value, facts)),
        s.blocks.len() <= lowered_aug_handle(s, target, reference, op, value, facts).blocks.len(),
{
    reveal(lowered_aug_handle);
    let _ = {
        let (s, cur) = {
            fresh_reg_grows(from, s, target.span, target.source, None);
            fresh_reg(s, target.span, target.source, None)
        };
        let s = {
            emitted_grows(from, s, MirInstrView::ReadRef { dest: cur, reference });
            emitted(s, MirInstrView::ReadRef { dest: cur, reference })
        };
        let (s, rhs) = {
            lowered_value_grows(from, s, value, facts_of_root(facts, 1));
            lowered_value(s, value, facts_of_root(facts, 1))
        };
        let (s, res) = {
            emitted_binary_grows(from, s, target, op, cur, rhs);
            emitted_binary(s, target, op, cur, rhs)
        };
        let s = {
            emitted_grows(from, s, MirInstrView::WriteRef { reference, value: res });
            emitted(s, MirInstrView::WriteRef { reference, value: res })
        };
        s
    };
}

pub(crate) proof fn lowered_unpack_grows(
    from: FlattenView,
    s: FlattenView,
    targets: Seq<ExprView>,
    value: ExprView,
    facts: Seq<HirExprView>,
)
    requires
        grown(from, s),
    ensures
        grown(from, lowered_unpack(s, targets, value, facts)),
        s.blocks.len() <= lowered_unpack(s, targets, value, facts).blocks.len(),
{
    reveal(lowered_unpack);
    let _ = {
        let (s, tuple) = {
            lowered_value_grows(from, s, value, facts_of_root(facts, targets.len() as usize));
            lowered_value(s, value, facts_of_root(facts, targets.len() as usize))
        };
        let s = {
            lowered_targets_grows(from, s, targets, tuple, facts, 0, 0);
            lowered_targets(s, targets, tuple, facts, 0, 0)
        };
        s
    };
}

pub(crate) proof fn lowered_targets_grows(
    from: FlattenView,
    s: FlattenView,
    targets: Seq<ExprView>,
    tuple: Reg,
    facts: Seq<HirExprView>,
    i: nat,
    k: usize,
)
    requires
        grown(from, s),
    ensures
        grown(from, lowered_targets(s, targets, tuple, facts, i, k)),
        s.blocks.len() <= lowered_targets(s, targets, tuple, facts, i, k).blocks.len(),
    decreases targets, (targets.len() - i) as nat,
{
    let _ = {
        if i >= targets.len() {
            s
        } else {
            let target = targets[i as int];
            let s = {
                lowered_target_grows(from, s, target, tuple, k, facts);
                lowered_target(s, target, tuple, k, facts)
            };
            let k = following_index(k);
            {
                lowered_targets_grows(from, s, targets, tuple, facts, i + 1, k);
                lowered_targets(s, targets, tuple, facts, i + 1, k)
            }
        }
    };
}

pub(crate) proof fn lowered_target_grows(
    from: FlattenView,
    s: FlattenView,
    target: ExprView,
    tuple: Reg,
    k: usize,
    facts: Seq<HirExprView>,
)
    requires
        grown(from, s),
    ensures
        grown(from, lowered_target(s, target, tuple, k, facts)),
        s.blocks.len() <= lowered_target(s, target, tuple, k, facts).blocks.len(),
{
    reveal(lowered_target);
    let _ = {
        let (s, at) = {
            fresh_reg_grows(from, s, target.span, target.source, None);
            fresh_reg(s, target.span, target.source, None)
        };
        let s = {
            emitted_grows(from, s, MirInstrView::Const { dest: at, k: ConstView::Int(k as i64) });
            emitted(s, MirInstrView::Const { dest: at, k: ConstView::Int(k as i64) })
        };
        let (s, element) = {
            fresh_reg_grows(from, s, target.span, target.source, None);
            fresh_reg(s, target.span, target.source, None)
        };
        let s = {
            emitted_grows(from, s, MirInstrView::Index { dest: element, base: tuple, index: at });
            emitted(s, MirInstrView::Index { dest: element, base: tuple, index: at })
        };
        match target.kind {
            ExprKindView::Identifier(name) => {
                let (s, var) = {
                    interned_grows(from, s, name);
                    interned(s, name)
                };
                let s = {
                    defined_grows(from, s, var, element, None);
                    defined(s, var, element, None)
                };
                s
            },
            _ => {
                let (s, place) = {
                    lowered_place_grows(from, s, target, facts_of_root(facts, k));
                    lowered_place(s, target, facts_of_root(facts, k))
                };
                let s = {
                    emitted_grows(from, s, MirInstrView::Store { place, src: element });
                    emitted(s, MirInstrView::Store { place, src: element })
                };
                s
            },
        }
    };
}

pub(crate) proof fn lowered_bind_grows(
    from: FlattenView,
    s: FlattenView,
    dest: u32,
    expr: HirExprView,
    binding_ty: Option<TyView>,
)
    requires
        grown(from, s),
    ensures
        grown(from, lowered_bind(s, dest, expr, binding_ty)),
        s.blocks.len() <= lowered_bind(s, dest, expr, binding_ty).blocks.len(),
{
    reveal(lowered_bind);
    let _ = {
        let (s, src) = {
            lowered_value_grows(from, s, expr.syntax, Some(expr));
            lowered_value(s, expr.syntax, Some(expr))
        };
        let ty = match expr.ty {
            Some(ty) => Some(ty),
            None => binding_ty,
        };
        let s = {
            with_opt_var_type_grows(from, s, dest, ty);
            with_opt_var_type(s, dest, ty)
        };
        match alias_of(s.aliases, dest) {
            Some(loan) => {
                let s = {
                    emitted_grows(from, s, MirInstrView::Store { place: accessed_through(loan.place, dest), src });
                    emitted(s, MirInstrView::Store { place: accessed_through(loan.place, dest), src })
                };
                s
            },
            None => if holds_slot(s.runtime_aliases, dest, 0) {
                let (s, handle) = {
                    fresh_reg_grows(from, s, expr.syntax.span, expr.syntax.source, Some(dest));
                    fresh_reg(s, expr.syntax.span, expr.syntax.source, Some(dest))
                };
                let place = accessed_through(whole_place(dest, expr.ty), dest);
                let s = {
                    emitted_grows(from, s, MirInstrView::MakeRef { dest: handle, place });
                    emitted(s, MirInstrView::MakeRef { dest: handle, place })
                };
                let s = {
                    emitted_grows(from, s, MirInstrView::WriteRef { reference: handle, value: src });
                    emitted(s, MirInstrView::WriteRef { reference: handle, value: src })
                };
                s
            } else {
                let s = {
                    defined_grows(from, s, dest, src, binding_ty);
                    defined(s, dest, src, binding_ty)
                };
                let s = {
                    lowered_carried_loans_grows(from, s, dest, expr);
                    lowered_carried_loans(s, dest, expr)
                };
                s
            },
        }
    };
}

pub(crate) proof fn lowered_carried_loans_grows(
    from: FlattenView,
    s: FlattenView,
    dest: u32,
    expr: HirExprView,
)
    requires
        grown(from, s),
    ensures
        grown(from, lowered_carried_loans(s, dest, expr)),
        s.blocks.len() <= lowered_carried_loans(s, dest, expr).blocks.len(),
{
    reveal(lowered_carried_loans);
    let _ = {
        let (s, loans) = {
            lowered_borrows_grows(from, s, expr.syntax, Some(expr));
            lowered_borrows(s, expr.syntax, Some(expr))
        };
        let s = {
            begun_loans_grows(from, s, loans, dest, expr.syntax, 0);
            begun_loans(s, loans, dest, expr.syntax, 0)
        };
        let s = {
            with_loans_grows(from, s, dest, loans);
            with_loans(s, dest, loans)
        };
        s
    };
}

pub(crate) proof fn begun_loans_grows(
    from: FlattenView,
    s: FlattenView,
    loans: Seq<LoanView>,
    reference: u32,
    at: ExprView,
    i: nat,
)
    requires
        grown(from, s),
    ensures
        grown(from, begun_loans(s, loans, reference, at, i)),
        s.blocks.len() <= begun_loans(s, loans, reference, at, i).blocks.len(),
    decreases loans, (loans.len() - i) as nat,
{
    let _ = {
        if i >= loans.len() {
            s
        } else {
            let loan = loans[i as int];
            let (s, marker) = {
                fresh_reg_grows(from, s, at.span, at.source, Some(loan.place.root));
                fresh_reg(s, at.span, at.source, Some(loan.place.root))
            };
            let s = {
                emitted_grows(from, s, MirInstrView::BeginLoan { reference, place: loan.place, mutable: loan.mutable, marker });
                emitted(s, MirInstrView::BeginLoan { reference, place: loan.place, mutable: loan.mutable, marker })
            };
            {
                begun_loans_grows(from, s, loans, reference, at, i + 1);
                begun_loans(s, loans, reference, at, i + 1)
            }
        }
    };
}

pub(crate) proof fn lowered_term_grows(
    from: FlattenView,
    s: FlattenView,
    term: Option<TerminatorView>,
)
    requires
        grown(from, s),
    ensures
        grown(from, lowered_term(s, term).0),
        s.blocks.len() <= lowered_term(s, term).0.blocks.len(),
{
    reveal(lowered_term);
    let _ = {
        match term {
            Some(term) => match term {
                TerminatorView::Jump(target) => (s, MirTermView::Jump(target)),
                TerminatorView::Branch { cond, then_b, else_b } => {
                    let (s, test) = {
                        lowered_value_grows(from, s, cond.syntax, Some(cond));
                        lowered_value(s, cond.syntax, Some(cond))
                    };
                    (s, MirTermView::Branch { cond: test, then_b, else_b })
                },
                TerminatorView::Return(value) => {
                    let (s, reg) = {
                        lowered_returned_grows(from, s, value);
                        lowered_returned(s, value)
                    };
                    (s, MirTermView::Return(reg))
                },
                TerminatorView::FallOff => (s, MirTermView::FallOff),
                TerminatorView::EscapeJump(target) => (
                    s,
                    MirTermView::EscapeJump { target, cleanup: Seq::empty() },
                ),
            },
            None => (s, MirTermView::FallOff),
        }
    };
}

pub(crate) proof fn lowered_returned_grows(
    from: FlattenView,
    s: FlattenView,
    value: Option<HirExprView>,
)
    requires
        grown(from, s),
    ensures
        grown(from, lowered_returned(s, value).0),
        s.blocks.len() <= lowered_returned(s, value).0.blocks.len(),
{
    reveal(lowered_returned);
    let _ = {
        match value {
            Some(value) => if s.returns_reference {
                let (s, place) = {
                    lowered_place_grows(from, s, value.syntax, Some(value));
                    lowered_place(s, value.syntax, Some(value))
                };
                let (s, dest) = {
                    fresh_reg_grows(from, s, value.syntax.span, value.syntax.source, Some(place.root));
                    fresh_reg(s, value.syntax.span, value.syntax.source, Some(place.root))
                };
                let s = {
                    emitted_grows(from, s, MirInstrView::MakeRef { dest, place });
                    emitted(s, MirInstrView::MakeRef { dest, place })
                };
                (s, Some(dest))
            } else {
                let (s, reg) = {
                    lowered_value_grows(from, s, value.syntax, Some(value));
                    lowered_value(s, value.syntax, Some(value))
                };
                (s, Some(reg))
            },
            None => (s, None),
        }
    };
}

} // verus!
