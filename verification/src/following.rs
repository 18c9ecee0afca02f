//! How blocks of the flat form end, and what bindings in them store.

use crate::calls::lowered_value;
use crate::checked::OverloadSetsView;
use crate::computing::{
    agrees, executed, filled, flat_form_computes, here, leads, leads_next, leads_on, meaning,
    unadjusted, Memory, Point,
};
use crate::flatten::{
    alias_of, at_block, defined, emitted, ended, following_index, holds_slot, with_opt_var_type,
    with_var_type, FlattenView, NestedInfoView,
};
use crate::functions::{flattened, function_ended, function_started};
use crate::growth::as_many_blocks;
use crate::growth::calls::lowered_value_grows;
use crate::growth::flatten::{ended_grows, kept};
use crate::growth::regions::{lowered_blocks_grows, lowered_instrs_grows};
use crate::growth::stmts::{lowered_carried_loans_grows, lowered_term_grows};
use crate::hir::{BasicBlockView, CfgView, HirExprView, TerminatorView};
use crate::mir::{MirBlockView, MirInstrView, MirTermView};
use crate::regions::{lowered_blocks, lowered_instrs};
use crate::stmts::{lowered_bind, lowered_carried_loans, lowered_returned, lowered_term};
use crate::types::TyView;
use crate::values::{KnownView, ValueView};
use vstd::prelude::*;

verus! {

/// Whether a block of the flat form ends like one of a graph: it goes to the same blocks, for
/// the same outcome of a test, or leaves in the same way.
pub open spec fn ends_alike(graph: Option<TerminatorView>, flat: MirTermView) -> bool {
    match graph {
        Some(TerminatorView::Jump(to)) => flat == MirTermView::Jump(to),
        Some(TerminatorView::Branch { then_b, else_b, .. }) => flat matches MirTermView::Branch {
            then_b: on_true,
            else_b: on_false,
            ..
        } && on_true == then_b && on_false == else_b,
        Some(TerminatorView::Return(None)) => flat == MirTermView::Return(None),
        Some(TerminatorView::Return(Some(_))) => flat matches MirTermView::Return(Some(_)),
        Some(TerminatorView::FallOff) => flat is FallOff,
        Some(TerminatorView::EscapeJump(to)) => flat matches MirTermView::EscapeJump {
            target,
            ..
        } && target == to,
        None => flat is FallOff,
    }
}

/// Whether the first blocks of a graph have ended: each in the block of its number or in one
/// of those that were added.
pub open spec fn ended_so_far(
    blocks: Seq<BasicBlockView>,
    s: FlattenView,
    n: int,
    total: nat,
) -> bool {
    forall|k: int|
        0 <= k < n ==> exists|b: int|
            (b == k || total <= b) && 0 <= b < s.blocks.len() && ends_alike(
                (#[trigger] blocks[k]).term,
                (#[trigger] s.blocks[b]).term,
            )
}

proof fn blocks_end_from(s: FlattenView, blocks: Seq<BasicBlockView>, fuel: u32, i: nat, k: usize)
    requires
        k == i,
        i <= blocks.len() <= s.blocks.len(),
        ended_so_far(blocks, s, i as int, blocks.len()),
        lowered_blocks(s, blocks, fuel, i, k).blocks.len() <= usize::MAX,
    ensures
        ended_so_far(
            blocks,
            lowered_blocks(s, blocks, fuel, i, k),
            blocks.len() as int,
            blocks.len(),
        ),
    decreases blocks.len() - i,
{
    if i < blocks.len() {
        let block = blocks[i as int];
        lowered_blocks_grows(s, s, blocks, fuel, i, k);
        reveal(at_block);
        reveal(following_index);
        assert(following_index(k) == k + 1);
        let s0 = at_block(s, k);
        lowered_instrs_grows(s0, s0, block.instrs, fuel, 0);
        let s1 = lowered_instrs(s0, block.instrs, fuel, 0);
        lowered_term_grows(s0, s1, block.term);
        let (s2, term) = lowered_term(s1, block.term);
        ended_grows(s0, s2, term);
        let t = ended(s2, term);
        lowered_blocks_grows(t, t, blocks, fuel, i + 1, (k + 1) as usize);
        assert(kept(s0, t));
        assert(kept(s0, s2));
        reveal(ended);
        reveal(lowered_term);
        reveal(lowered_returned);
        assert(ends_alike(block.term, t.blocks[s2.cur as int].term));
        assert forall|j: int| 0 <= j < i + 1 implies exists|b: int|
            (b == j || blocks.len() <= b) && 0 <= b < t.blocks.len() && ends_alike(
                (#[trigger] blocks[j]).term,
                (#[trigger] t.blocks[b]).term,
            ) by {
            if j < i {
                let b = choose|b: int|
                    (b == j || blocks.len() <= b) && 0 <= b < s.blocks.len() && ends_alike(
                        blocks[j].term,
                        (#[trigger] s.blocks[b]).term,
                    );
                assert(t.blocks[b] == s0.blocks[b]);
            } else {
                let b = s2.cur as int;
                assert(b == j || s0.blocks.len() <= b);
                assert(t.blocks[b].term == term);
            }
        }
        blocks_end_from(t, blocks, fuel, i + 1, (k + 1) as usize);
    }
}

/// Each block of a graph ends in the flat form as it does in the graph: with the same targets
/// for the same outcome of its test.
pub proof fn blocks_end_as_in_graph(
    cfg: CfgView,
    nested: Seq<NestedInfoView>,
    overloads: OverloadSetsView,
    returns_reference: bool,
    reference_parameters: Seq<bool>,
    k: int,
)
    requires
        0 <= k < cfg.blocks.len(),
        flattened(
            cfg,
            nested,
            overloads,
            returns_reference,
            reference_parameters,
        ).blocks.len() <= usize::MAX,
    ensures
        ({
            let function = flattened(
                cfg,
                nested,
                overloads,
                returns_reference,
                reference_parameters,
            );
            exists|b: int|
                (b == k || cfg.blocks.len() <= b) && 0 <= b < function.blocks.len() && ends_alike(
                    cfg.blocks[k].term,
                    (#[trigger] function.blocks[b]).term,
                )
        }),
{
    reveal(flattened);
    reveal(function_started);
    reveal(function_ended);
    let flat = function_started(cfg, nested, overloads, returns_reference, reference_parameters);
    as_many_blocks(cfg.blocks, 0, Seq::empty());
    blocks_end_from(flat, cfg.blocks, 4294967295, 0, 0);
    let end = lowered_blocks(flat, cfg.blocks, 4294967295, 0, 0);
    assert(cfg.blocks[k] == cfg.blocks[k]);
    let b = choose|b: int|
        (b == k || cfg.blocks.len() <= b) && 0 <= b < end.blocks.len() && ends_alike(
            cfg.blocks[k].term,
            (#[trigger] end.blocks[b]).term,
        );
    let function = flattened(cfg, nested, overloads, returns_reference, reference_parameters);
    assert(function.blocks[b] == end.blocks[b]);
}

/// A block that ends in a test goes to the first target when the condition means true, and to
/// the second when it means false.
pub proof fn flat_branch_follows(
    s: FlattenView,
    cond: HirExprView,
    then_b: usize,
    else_b: usize,
    holds: bool,
    g: Seq<MirBlockView>,
    known: Seq<KnownView>,
    m: Memory,
) -> (after: Memory)
    requires
        unadjusted(cond.syntax, Some(cond)),
        meaning(cond.syntax, known) == Some(ValueView::Bool(holds)),
        s.cur < s.blocks.len(),
        ({
            let (u, term) = lowered_term(
                s,
                Some(TerminatorView::Branch { cond, then_b, else_b }),
            );
            let t = ended(u, term);
            &&& t.spans.len() < u32::MAX
            &&& t.vars.len() <= u32::MAX
            &&& filled(s, t, g)
            &&& g[t.cur as int] == t.blocks[t.cur as int]
        }),
    ensures
        leads(
            g,
            known,
            here(s, m),
            Point::At(
                if holds {
                    then_b as int
                } else {
                    else_b as int
                },
                0,
                after,
            ),
        ),
        agrees(s, m, after),
{
    reveal(lowered_term);
    reveal(ended);
    let (u, test) = lowered_value(s, cond.syntax, Some(cond));
    lowered_value_grows(s, s, cond.syntax, Some(cond));
    let t = ended(u, MirTermView::Branch { cond: test, then_b, else_b });
    assert(kept(s, u));
    assert(filled(s, u, g)) by {
        assert forall|b: int|
            0 <= b < u.blocks.len() && (b == s.cur || s.blocks.len() <= b) && b != u.cur implies
            #[trigger] g[b] == u.blocks[b] by {
            assert(t.blocks[b] == u.blocks[b]);
        }
    }
    let after = flat_form_computes(s, cond.syntax, Some(cond), g, known, m);
    leads_next(g, known, here(u, after));
    leads_on(
        g,
        known,
        here(s, m),
        here(u, after),
        Point::At(
            if holds {
                then_b as int
            } else {
                else_b as int
            },
            0,
            after,
        ),
    );
    after
}

/// A binding of a variable that is no reference stores what its expression means in the
/// variable.
pub proof fn flat_binding_stores(
    s: FlattenView,
    dest: u32,
    expr: HirExprView,
    binding_ty: Option<TyView>,
    g: Seq<MirBlockView>,
    known: Seq<KnownView>,
    m: Memory,
) -> (after: Memory)
    requires
        unadjusted(expr.syntax, Some(expr)),
        meaning(expr.syntax, known) is Some,
        s.cur < s.blocks.len(),
        lowered_value(s, expr.syntax, Some(expr)).0.spans.len() < u32::MAX,
        lowered_value(s, expr.syntax, Some(expr)).0.vars.len() <= u32::MAX,
        alias_of(lowered_value(s, expr.syntax, Some(expr)).0.aliases, dest) is None,
        !holds_slot(lowered_value(s, expr.syntax, Some(expr)).0.runtime_aliases, dest, 0),
        lowered_bind(s, dest, expr, binding_ty).blocks.len() <= usize::MAX,
        filled(s, lowered_bind(s, dest, expr, binding_ty), g),
    ensures
        ({
            let u = lowered_value(s, expr.syntax, Some(expr)).0;
            leads(
                g,
                known,
                here(s, m),
                Point::At(u.cur as int, u.blocks[u.cur as int].instrs.len() as int + 1, after),
            )
        }),
        Some(after.vars[dest]) == meaning(expr.syntax, known),
        forall|v: u32| v < s.vars.len() && v != dest ==> #[trigger] after.vars[v] == m.vars[v],
{
    reveal(lowered_bind);
    reveal(with_opt_var_type);
    reveal(with_var_type);
    reveal(defined);
    reveal(emitted);
    let (u, src) = lowered_value(s, expr.syntax, Some(expr));
    lowered_value_grows(s, s, expr.syntax, Some(expr));
    let ty = match expr.ty {
        Some(ty) => Some(ty),
        None => binding_ty,
    };
    let u1 = with_opt_var_type(u, dest, ty);
    let u2 = defined(u1, dest, src, binding_ty);
    let t = lowered_carried_loans(u2, dest, expr);
    assert(lowered_bind(s, dest, expr, binding_ty) == t);
    lowered_carried_loans_grows(u2, u2, dest, expr);
    assert(kept(s, u));
    assert(kept(u2, t));
    let c = u.cur as int;
    let n = u.blocks[c].instrs.len() as int;
    let instr = MirInstrView::DefVar { var: dest, src, binding_ty };
    assert(u2.blocks[c].instrs[n] == instr);
    assert(t.blocks[c].instrs[n] == u2.blocks[c].instrs[n]);
    assert(g[c].instrs[n] == instr) by {
        if t.cur != u.cur {
            assert(g[c] == t.blocks[c]);
        } else {
            assert(g[c].instrs[n] == t.blocks[c].instrs[n]);
        }
    }
    assert(filled(s, u, g)) by {
        assert forall|b: int|
            0 <= b < u.blocks.len() && (b == s.cur || s.blocks.len() <= b) && b != u.cur implies
            #[trigger] g[b] == u.blocks[b] by {
            assert(u2.blocks[b] == u.blocks[b]);
            assert(t.blocks[b] == u2.blocks[b]);
        }
        if t.cur != u.cur {
            assert(g[c] == t.blocks[c]);
        }
        assert forall|j: int| 0 <= j < u.blocks[c].instrs.len() implies #[trigger] g[c].instrs[j]
            == u.blocks[c].instrs[j] by {
            assert(u2.blocks[c].instrs[j] == u.blocks[c].instrs[j]);
            assert(t.blocks[c].instrs[j] == u2.blocks[c].instrs[j]);
        }
    }
    let m1 = flat_form_computes(s, expr.syntax, Some(expr), g, known, m);
    let after = Memory { vars: m1.vars.insert(dest, m1.regs[src.0]), ..m1 };
    leads_next(g, known, here(u, m1));
    assert(executed(instr, m1, known) == Some(after));
    leads_on(g, known, here(s, m), here(u, m1), Point::At(c, n + 1, after));
    after
}

} // verus!
