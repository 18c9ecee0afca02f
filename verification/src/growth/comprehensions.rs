//! Flattening only adds registers, slots and blocks: comprehensions.

use crate::ast::{CollectionKind, ComprehensionClauseView, ExprKindView, ExprView};
use crate::calls::lowered_value;
use crate::checked::{CheckedComprehensionBindingView, IterationProtocolView};
use crate::comprehensions::{
    bound_element, closed_clauses, lowered_clause, lowered_clause_loop, lowered_clauses,
    lowered_comprehension, lowered_empty, lowered_insertion,
};
use crate::exprs::{
    element_of_list, element_of_set, key_of_dict, lowered_no_value, lowered_opt, value_of_dict,
};
use crate::flatten::{
    FlattenView, at_block, child_facts, defined, emitted, ended, following_index, fresh_reg,
    fresh_slot, interned, known_adjustments, known_bindings, known_ty, marked_unsupported, opened,
    with_opt_var_type, with_owner_var, with_var_type,
};
use crate::growth::calls::lowered_value_grows;
use crate::growth::exprs::{lowered_no_value_grows, lowered_opt_grows};
use crate::growth::flatten::{
    at_block_grows, defined_grows, emitted_grows, ended_grows, ends_within, fresh_reg_grows,
    fresh_slot_grows, grown, interned_grows, marked_unsupported_grows, opened_grows,
    with_opt_var_type_grows, with_owner_var_grows, with_var_type_grows,
};
use crate::hir::HirExprView;
use crate::lower::protocol_of;
use crate::mir::{MirInstrView, MirTermView, Reg, UseMode};
use crate::text::decimal;
use crate::types::TyView;
use vstd::prelude::*;

verus! {

pub(crate) proof fn lowered_comprehension_grows(
    from: FlattenView,
    s: FlattenView,
    e: ExprView,
    h: Option<HirExprView>,
)
    requires
        grown(from, s),
    ensures
        grown(from, lowered_comprehension(s, e, h).0),
        s.blocks.len() <= lowered_comprehension(s, e, h).0.blocks.len(),
    decreases e, 2nat,
{
    let _ = {
        match e.kind {
            ExprKindView::Comprehension { kind, clauses, .. } => {
                let (s, empty) = {
                    fresh_reg_grows(from, s, e.span, e.source, None);
                    fresh_reg(s, e.span, e.source, None)
                };
                let ty = known_ty(h);
                let s = {
                    lowered_empty_grows(from, s, empty, kind, ty);
                    lowered_empty(s, empty, kind, ty)
                };
                let (s, collection) = {
                    fresh_slot_grows(from, s);
                    fresh_slot(s)
                };
                let s = {
                    with_opt_var_type_grows(from, s, collection, ty);
                    with_opt_var_type(s, collection, ty)
                };
                let s = {
                    defined_grows(from, s, collection, empty, ty);
                    defined(s, collection, empty, ty)
                };
                let bindings = known_bindings(h);
                let (s, ends) = {
                    lowered_clauses_grows(from, s, clauses, bindings, h, 0, Seq::empty(), 0, 0);
                    lowered_clauses(s, clauses, bindings, h, 0, Seq::empty(), 0, 0)
                };
                let s = {
                    lowered_insertion_grows(from, s, e, h, collection);
                    lowered_insertion(s, e, h, collection)
                };
                let s = {
                    closed_clauses_grows(from, s, ends, ends.len() as usize);
                    closed_clauses(s, ends, ends.len() as usize)
                };
                let (s, dest) = {
                    fresh_reg_grows(from, s, e.span, e.source, Some(collection));
                    fresh_reg(s, e.span, e.source, Some(collection))
                };
                let s = {
                    emitted_grows(from, s, MirInstrView::UseVar { dest, var: collection, mode: UseMode::Move });
                    emitted(s, MirInstrView::UseVar { dest, var: collection, mode: UseMode::Move })
                };
                (s, dest)
            },
            _ => {
                lowered_no_value_grows(from, s, e);
                lowered_no_value(s, e)
            },
        }
    };
}

pub(crate) proof fn lowered_empty_grows(
    from: FlattenView,
    s: FlattenView,
    dest: Reg,
    kind: CollectionKind,
    ty: Option<TyView>,
)
    requires
        grown(from, s),
    ensures
        grown(from, lowered_empty(s, dest, kind, ty)),
        s.blocks.len() <= lowered_empty(s, dest, kind, ty).blocks.len(),
{
    reveal(lowered_empty);
    let _ = {
        let none = Seq::<Reg>::empty();
        let pairs = Seq::<(Reg, Reg)>::empty();
        match kind {
            CollectionKind::List => {
                let s = {
                    emitted_grows(from, s, MirInstrView::MakeList { dest, elems: none, element_type: element_of_list(ty) });
                    emitted(s, MirInstrView::MakeList { dest, elems: none, element_type: element_of_list(ty) })
                };
                s
            },
            CollectionKind::SetOf => {
                let s = {
                    emitted_grows(from, s, MirInstrView::MakeSet { dest, elems: none, element_type: element_of_set(ty) });
                    emitted(s, MirInstrView::MakeSet { dest, elems: none, element_type: element_of_set(ty) })
                };
                s
            },
            CollectionKind::Dict => {
                let s = {
                    emitted_grows(from, s, MirInstrView::MakeDict { dest, entries: pairs, key_type: key_of_dict(ty), value_type: value_of_dict(ty), });
                    emitted(s, MirInstrView::MakeDict { dest, entries: pairs, key_type: key_of_dict(ty), value_type: value_of_dict(ty), })
                };
                s
            },
        }
    };
}

pub(crate) proof fn lowered_clauses_grows(
    from: FlattenView,
    s: FlattenView,
    clauses: Seq<ComprehensionClauseView>,
    bindings: Seq<CheckedComprehensionBindingView>,
    h: Option<HirExprView>,
    i: nat,
    out: Seq<(usize, usize)>,
    k: usize,
    bound: usize,
)
    requires
        grown(from, s),
        s.blocks.len() <= usize::MAX ==> ends_within(out, from.blocks.len(), s.blocks.len()),
    ensures
        grown(from, lowered_clauses(s, clauses, bindings, h, i, out, k, bound).0),
        s.blocks.len() <= lowered_clauses(s, clauses, bindings, h, i, out, k, bound).0.blocks.len(),
        lowered_clauses(s, clauses, bindings, h, i, out, k, bound).0.blocks.len() <= usize::MAX ==> ends_within(lowered_clauses(s, clauses, bindings, h, i, out, k, bound).1, from.blocks.len(), lowered_clauses(s, clauses, bindings, h, i, out, k, bound).0.blocks.len()),
    decreases clauses, (clauses.len() - i) as nat,
{
    let _ = {
        if i >= clauses.len() {
            (s, out)
        } else {
            let clause = clauses[i as int];
            let (s, end) = {
                lowered_clause_grows(from, s, clause, bindings, bound, child_facts(h, k));
                lowered_clause(s, clause, bindings, bound, child_facts(h, k))
            };
            let out = out.push(end);
            let k = following_index(k);
            let bound = if (clause matches ComprehensionClauseView::For { .. }) {
                following_index(bound)
            } else {
                bound
            };
            {
                lowered_clauses_grows(from, s, clauses, bindings, h, i + 1, out, k, bound);
                lowered_clauses(s, clauses, bindings, h, i + 1, out, k, bound)
            }
        }
    };
}

pub(crate) proof fn lowered_clause_grows(
    from: FlattenView,
    s: FlattenView,
    clause: ComprehensionClauseView,
    bindings: Seq<CheckedComprehensionBindingView>,
    bound: usize,
    h: Option<HirExprView>,
)
    requires
        grown(from, s),
    ensures
        grown(from, lowered_clause(s, clause, bindings, bound, h).0),
        s.blocks.len() <= lowered_clause(s, clause, bindings, bound, h).0.blocks.len(),
        lowered_clause(s, clause, bindings, bound, h).0.blocks.len() <= usize::MAX ==> from.blocks.len() <= lowered_clause(s, clause, bindings, bound, h).1.1 < lowered_clause(s, clause, bindings, bound, h).0.blocks.len(),
    decreases clause, 0nat,
{
    let _ = {
        match clause {
            ComprehensionClauseView::If(condition) => {
                let (s, test) = {
                    lowered_value_grows(from, s, *condition, h);
                    lowered_value(s, *condition, h)
                };
                let (s, body) = {
                    opened_grows(from, s);
                    opened(s)
                };
                let (s, continuation) = {
                    opened_grows(from, s);
                    opened(s)
                };
                let s = {
                    ended_grows(from, s, MirTermView::Branch { cond: test, then_b: body, else_b: continuation });
                    ended(s, MirTermView::Branch { cond: test, then_b: body, else_b: continuation })
                };
                let s = {
                    at_block_grows(from, s, body);
                    at_block(s, body)
                };
                (s, (continuation, continuation))
            },
            ComprehensionClauseView::For { var, owned, iter } => {
                let count = s.vars.len() as usize;
                let (s, iterator) = {
                    interned_grows(from, s, "$compiter"@ + decimal(count as nat));
                    interned(s, "$compiter"@ + decimal(count as nat))
                };
                let (s, value) = {
                    lowered_value_grows(from, s, *iter, h);
                    lowered_value(s, *iter, h)
                };
                let ty = known_ty(h);
                let s = {
                    with_opt_var_type_grows(from, s, iterator, ty);
                    with_opt_var_type(s, iterator, ty)
                };
                let s = {
                    defined_grows(from, s, iterator, value, ty);
                    defined(s, iterator, value, ty)
                };
                let protocol = protocol_of(known_adjustments(h), owned);
                let (s, (header, exit, element)) = {
                    lowered_clause_loop_grows(from, s, *iter, iterator, protocol);
                    lowered_clause_loop(s, *iter, iterator, protocol)
                };
                let s = {
                    bound_element_grows(from, s, var, bindings, bound, element);
                    bound_element(s, var, bindings, bound, element)
                };
                (s, (header, exit))
            },
        }
    };
}

pub(crate) proof fn lowered_clause_loop_grows(
    from: FlattenView,
    s: FlattenView,
    iter: ExprView,
    iterator: u32,
    protocol: IterationProtocolView,
)
    requires
        grown(from, s),
    ensures
        grown(from, lowered_clause_loop(s, iter, iterator, protocol).0),
        s.blocks.len() <= lowered_clause_loop(s, iter, iterator, protocol).0.blocks.len(),
        lowered_clause_loop(s, iter, iterator, protocol).0.blocks.len() <= usize::MAX ==> from.blocks.len() <= lowered_clause_loop(s, iter, iterator, protocol).1.1 < lowered_clause_loop(s, iter, iterator, protocol).0.blocks.len(),
{
    reveal(lowered_clause_loop);
    let _ = {
        let s = {
            emitted_grows(from, s, MirInstrView::GetIter { iter: iterator, mode: protocol.mode, prepare: protocol.prepare });
            emitted(s, MirInstrView::GetIter { iter: iterator, mode: protocol.mode, prepare: protocol.prepare })
        };
        let (s, header) = {
            opened_grows(from, s);
            opened(s)
        };
        let (s, body) = {
            opened_grows(from, s);
            opened(s)
        };
        let (s, exit) = {
            opened_grows(from, s);
            opened(s)
        };
        let s = {
            ended_grows(from, s, MirTermView::Jump(header));
            ended(s, MirTermView::Jump(header))
        };
        let s = {
            at_block_grows(from, s, header);
            at_block(s, header)
        };
        let (s, more) = {
            fresh_reg_grows(from, s, iter.span, iter.source, Some(iterator));
            fresh_reg(s, iter.span, iter.source, Some(iterator))
        };
        let s = {
            emitted_grows(from, s, MirInstrView::HasNext { dest: more, iter: iterator, method: protocol.has_next });
            emitted(s, MirInstrView::HasNext { dest: more, iter: iterator, method: protocol.has_next })
        };
        let s = {
            ended_grows(from, s, MirTermView::Branch { cond: more, then_b: body, else_b: exit });
            ended(s, MirTermView::Branch { cond: more, then_b: body, else_b: exit })
        };
        let s = {
            at_block_grows(from, s, body);
            at_block(s, body)
        };
        let (s, element) = {
            fresh_reg_grows(from, s, iter.span, iter.source, Some(iterator));
            fresh_reg(s, iter.span, iter.source, Some(iterator))
        };
        let s = {
            emitted_grows(from, s, MirInstrView::Next { dest: element, iter: iterator, method: protocol.next });
            emitted(s, MirInstrView::Next { dest: element, iter: iterator, method: protocol.next })
        };
        (s, (header, exit, element))
    };
}

pub(crate) proof fn bound_element_grows(
    from: FlattenView,
    s: FlattenView,
    var: Seq<char>,
    bindings: Seq<CheckedComprehensionBindingView>,
    bound: usize,
    element: Reg,
)
    requires
        grown(from, s),
    ensures
        grown(from, bound_element(s, var, bindings, bound, element)),
        s.blocks.len() <= bound_element(s, var, bindings, bound, element).blocks.len(),
{
    reveal(bound_element);
    let _ = {
        if bound < bindings.len() {
            let owner = bindings[bound as int].owner;
            let ty = bindings[bound as int].ty;
            let (s, target) = {
                interned_grows(from, s, "$comp"@ + var + "$"@ + decimal(owner.0 as u64 as nat));
                interned(s, "$comp"@ + var + "$"@ + decimal(owner.0 as u64 as nat))
            };
            let s = {
                with_owner_var_grows(from, s, owner, target);
                with_owner_var(s, owner, target)
            };
            let s = {
                with_var_type_grows(from, s, target, ty);
                with_var_type(s, target, ty)
            };
            let s = {
                defined_grows(from, s, target, element, Some(ty));
                defined(s, target, element, Some(ty))
            };
            s
        } else {
            let s = {
                marked_unsupported_grows(from, s, "comprehension binder lacks checked metadata"@);
                marked_unsupported(s, "comprehension binder lacks checked metadata"@)
            };
            s
        }
    };
}

pub(crate) proof fn lowered_insertion_grows(
    from: FlattenView,
    s: FlattenView,
    e: ExprView,
    h: Option<HirExprView>,
    collection: u32,
)
    requires
        grown(from, s),
    ensures
        grown(from, lowered_insertion(s, e, h, collection)),
        s.blocks.len() <= lowered_insertion(s, e, h, collection).blocks.len(),
    decreases e, 1nat,
{
    let _ = {
        match e.kind {
            ExprKindView::Comprehension { key, value, clauses, .. } => {
                let value_at = if key is Some {
                    following_index(clauses.len() as usize)
                } else {
                    clauses.len() as usize
                };
                let (s, key) = {
                    lowered_opt_grows(from, s, key, child_facts(h, clauses.len() as usize));
                    lowered_opt(s, key, child_facts(h, clauses.len() as usize))
                };
                let (s, value) = {
                    lowered_value_grows(from, s, *value, child_facts(h, value_at));
                    lowered_value(s, *value, child_facts(h, value_at))
                };
                let s = {
                    emitted_grows(from, s, MirInstrView::CollectionInsert { collection, key, value });
                    emitted(s, MirInstrView::CollectionInsert { collection, key, value })
                };
                s
            },
            _ => s,
        }
    };
}

pub(crate) proof fn closed_clauses_grows(
    from: FlattenView,
    s: FlattenView,
    ends: Seq<(usize, usize)>,
    n: usize,
)
    requires
        grown(from, s),
        s.blocks.len() <= usize::MAX ==> ends_within(ends, from.blocks.len(), s.blocks.len()),
    ensures
        grown(from, closed_clauses(s, ends, n)),
        s.blocks.len() <= closed_clauses(s, ends, n).blocks.len(),
    decreases n,
{
    let _ = {
        if n > 0 && n <= ends.len() {
            let end = ends[(n - 1) as usize as int];
            let s = {
                ended_grows(from, s, MirTermView::Jump(end.0));
                ended(s, MirTermView::Jump(end.0))
            };
            let s = {
                at_block_grows(from, s, end.1);
                at_block(s, end.1)
            };
            let s = {
                closed_clauses_grows(from, s, ends, (n - 1) as usize);
                closed_clauses(s, ends, (n - 1) as usize)
            };
            s
        } else {
            s
        }
    };
}

} // verus!
