//! Blocks lead to blocks of their function: blocks and regions.

use crate::growth::regions::lowered_blocks_grows;
use crate::aims::calls::lowered_value_aims;
use crate::aims::stmts::{
    lowered_aug_aims, lowered_bind_aims, lowered_ref_stmt_aims, lowered_set_place_aims,
    lowered_term_aims, lowered_unpack_aims,
};
use crate::ast::{Stmt, StmtKindView, StmtView};
use crate::calls::lowered_value;
use crate::cfg::region_cfg;
use crate::debug::stmt_kind_printed;
use crate::flatten::{
    FlattenView, at_block, defined, emitted, ended, following_index, fresh_reg, interned,
    marked_unsupported, nested_named,
};
use crate::hir::{BasicBlockView, HirExprView, HirInstrView};
use crate::mir::{MirBlockView, MirInstrView, MirTermView};
use crate::regions::{
    absorbed, blocks_for, interned_opt, lowered_blocks, lowered_enclosed_try, lowered_eval,
    lowered_handler, lowered_has_next, lowered_instr, lowered_instrs, lowered_nested_def,
    lowered_next, lowered_opt_region, lowered_region, lowered_stmt, lowered_try, marked_malformed,
    marked_nested, marked_unchecked, region_start,
};
use crate::stmts::{
    facts_of_root, lowered_aug, lowered_bind, lowered_ref_stmt, lowered_set_place, lowered_term,
    lowered_unpack, stmt_leaves_loop,
};
use crate::aims::flatten::{
    aimed, all_lead, at_block_aims, blocks_aimed, defined_aims, emitted_aims, emitted_further,
    ended_aims, few_blocks, few_handled, few_in, few_opt, fits, fresh_reg_aims, further,
    handler_aimed, instr_aimed, interned_aims, little, marked_unsupported_aims, opt_blocks_aimed,
    roomy,
};
use crate::sealing::{few_edges, region_blocks_end, region_finds_room};
use vstd::prelude::*;

verus! {

proof fn bare_blocks_aim(blocks: Seq<BasicBlockView>, i: nat, out: Seq<MirBlockView>)
    requires
        i <= blocks.len(),
        forall|k: int|
            0 <= k < out.len() ==> (#[trigger] out[k]).instrs.len() == 0 && out[k].term
                == MirTermView::Return(None),
    ensures
        blocks_for(blocks, i, out).len() == out.len() + blocks.len() - i,
        blocks_aimed(blocks_for(blocks, i, out)),
    decreases blocks, (blocks.len() - i) as nat,
{
    if i < blocks.len() {
        let block = blocks[i as int];
        let out = out.push(MirBlockView { instrs: Seq::empty(), term: MirTermView::Return(None) });
        bare_blocks_aim(blocks, i + 1, out);
    }
}

/// The blocks that flattening starts with are as many as those of the graph, and lead
/// nowhere.
pub(crate) proof fn blocks_for_aim(blocks: Seq<BasicBlockView>)
    ensures
        blocks_for(blocks, 0, Seq::empty()).len() == blocks.len(),
        blocks_aimed(blocks_for(blocks, 0, Seq::empty())),
{
    bare_blocks_aim(blocks, 0, Seq::empty());
}

proof fn lowered_region_aims(
    s: FlattenView,
    body: Seq<StmtView>,
    loops: Seq<(usize, usize)>,
    fuel: u32,
)
    requires
        aimed(s),
    ensures
        ({
            let (t, made) = lowered_region(s, body, loops, fuel);
            &&& further(s, t)
            &&& t.blocks.len() == s.blocks.len()
            &&& t.cur == s.cur
            &&& fits(s) && (t.complete || (little(t) && few_blocks(made))) ==> {
                &&& t.complete
                &&& blocks_aimed(t.blocks)
                &&& blocks_aimed(made)
            }
        }),
    decreases fuel, 0nat, 0nat,
{
    if fuel == 0 {
        marked_unsupported_aims(s, "try regions nested too deeply"@);
        reveal(marked_unsupported);
        reveal(emitted);
    } else {
        let cfg = region_cfg(s.vars, body, loops, s.checked);
        reveal(region_start);
        reveal(absorbed);
        let region = region_start(s, cfg);
        lowered_blocks_grows(region, region, cfg.blocks, (fuel - 1) as u32, 0, 0);
        if fits(s) {
            blocks_for_aim(cfg.blocks);
            region_blocks_end(s.vars, body, loops, s.checked);
            region_finds_room(s.vars, body, loops, s.checked);
            few_edges(cfg.blocks);
            lowered_blocks_aims(region, cfg.blocks, (fuel - 1) as u32, 0, 0);
        }
    }
}

proof fn lowered_opt_region_aims(
    s: FlattenView,
    body: Option<Seq<StmtView>>,
    loops: Seq<(usize, usize)>,
    fuel: u32,
)
    requires
        aimed(s),
    ensures
        ({
            let (t, made) = lowered_opt_region(s, body, loops, fuel);
            &&& further(s, t)
            &&& t.blocks.len() == s.blocks.len()
            &&& t.cur == s.cur
            &&& fits(s) && (t.complete || (little(t) && few_opt(made))) ==> {
                &&& t.complete
                &&& blocks_aimed(t.blocks)
                &&& opt_blocks_aimed(made)
            }
        }),
    decreases fuel, 1nat, 0nat,
{
    if let Some(body) = body {
        lowered_region_aims(s, body, loops, fuel);
    }
}

proof fn lowered_handler_aims(
    s: FlattenView,
    except: Option<(Option<Seq<char>>, Seq<StmtView>)>,
    loops: Seq<(usize, usize)>,
    fuel: u32,
)
    requires
        aimed(s),
    ensures
        ({
            let (t, made) = lowered_handler(s, except, loops, fuel);
            &&& further(s, t)
            &&& t.blocks.len() == s.blocks.len()
            &&& t.cur == s.cur
            &&& fits(s) && (t.complete || (little(t) && few_handled(made))) ==> {
                &&& t.complete
                &&& blocks_aimed(t.blocks)
                &&& handler_aimed(made)
            }
        }),
    decreases fuel, 1nat, 0nat,
{
    if let Some((name, body)) = except {
        interned_opt_aims(s, name);
        reveal(interned_opt);
        reveal(interned);
        lowered_region_aims(interned_opt(s, name).0, body, loops, fuel);
    }
}

pub(crate) proof fn interned_opt_aims(
    s: FlattenView,
    name: Option<Seq<char>>,
)
    requires
        aimed(s),
    ensures
        aimed(interned_opt(s, name).0),
        further(s, interned_opt(s, name).0),
{
    reveal(interned_opt);
    let _ = {
        match name {
            Some(name) => {
                let (s, var) = {
                    interned_aims(s, name);
                    interned(s, name)
                };
                (s, Some(var))
            },
            None => (s, None),
        }
    };
}

/// The regions of a `try` only add to a state, and leave its place.
proof fn regions_grow(s: FlattenView, stmt: StmtView, loops: Seq<(usize, usize)>, fuel: u32)
    requires
        stmt.kind is Try,
    ensures
        ({
            let body = stmt.kind->Try_body;
            let (s1, body) = lowered_region(s, body, loops, fuel);
            let (s2, handler) = lowered_handler(s1, stmt.kind->Try_except, loops, fuel);
            let (s3, orelse) = lowered_opt_region(s2, stmt.kind->Try_orelse, loops, fuel);
            let (s4, finalbody) = lowered_opt_region(s3, stmt.kind->Try_finalbody, loops, fuel);
            &&& stays(s, s1)
            &&& stays(s1, s2)
            &&& stays(s2, s3)
            &&& stays(s3, s4)
        }),
{
    let (s1, body) = lowered_region(s, stmt.kind->Try_body, loops, fuel);
    region_stays(s, stmt.kind->Try_body, loops, fuel);
    let (s2, handler) = lowered_handler(s1, stmt.kind->Try_except, loops, fuel);
    if let Some((name, body)) = stmt.kind->Try_except {
        reveal(interned_opt);
        reveal(interned);
        region_stays(interned_opt(s1, name).0, body, loops, fuel);
    }
    let (s3, orelse) = lowered_opt_region(s2, stmt.kind->Try_orelse, loops, fuel);
    if let Some(body) = stmt.kind->Try_orelse {
        region_stays(s2, body, loops, fuel);
    }
    if let Some(body) = stmt.kind->Try_finalbody {
        region_stays(s3, body, loops, fuel);
    }
}

/// Whether a state comes after another, at the same place.
spec fn stays(s: FlattenView, t: FlattenView) -> bool {
    further(s, t) && t.blocks.len() == s.blocks.len() && t.cur == s.cur
}

proof fn region_stays(s: FlattenView, body: Seq<StmtView>, loops: Seq<(usize, usize)>, fuel: u32)
    ensures
        stays(s, lowered_region(s, body, loops, fuel).0),
{
    if fuel == 0 {
        reveal(marked_unsupported);
        reveal(emitted);
        emitted_further(s, MirInstrView::Unsupported("try regions nested too deeply"@));
    } else {
        let cfg = region_cfg(s.vars, body, loops, s.checked);
        reveal(region_start);
        reveal(absorbed);
        let region = region_start(s, cfg);
        lowered_blocks_grows(region, region, cfg.blocks, (fuel - 1) as u32, 0, 0);
    }
}

proof fn lowered_try_aims(
    s: FlattenView,
    stmt: StmtView,
    loops: Seq<(usize, usize)>,
    fuel: u32,
)
    requires
        aimed(s),
    ensures
        aimed(lowered_try(s, stmt, loops, fuel)),
        further(s, lowered_try(s, stmt, loops, fuel)),
    decreases fuel, 2nat, 0nat,
{
    match stmt.kind {
        StmtKindView::Try { body, except, orelse, finalbody } => {
            lowered_region_aims(s, body, loops, fuel);
            let (s1, body) = lowered_region(s, body, loops, fuel);
            let (s2, handler) = lowered_handler(s1, except, loops, fuel);
            let (s3, orelse) = lowered_opt_region(s2, orelse, loops, fuel);
            let (s4, finalbody) = lowered_opt_region(s3, finalbody, loops, fuel);
            let cleanup = Seq::<u32>::empty();
            let instr = MirInstrView::Try { body, handler, orelse, finalbody, cleanup };
            let t = emitted(s4, instr);
            regions_grow(s, stmt, loops, fuel);
            emitted_further(s4, instr);
            if fits(t) {
                reveal(emitted);
                assert(fits(s));
                assert(s.blocks.len() <= usize::MAX ==> s4.cur < s4.blocks.len());
                if !t.complete {
                    assert(s.blocks.len() <= usize::MAX);
                    assert(few_in(instr));
                }
                assert(s1.complete);
                lowered_handler_aims(s1, except, loops, fuel);
                assert(s2.complete);
                if let StmtKindView::Try { orelse: other, finalbody: last, .. } = stmt.kind {
                    lowered_opt_region_aims(s2, other, loops, fuel);
                    assert(s3.complete);
                    lowered_opt_region_aims(s3, last, loops, fuel);
                    assert(s4.complete);
                }
                assert(instr_aimed(instr));
                assert(aimed(s4));
                emitted_aims(s4, instr);
            }
        },
        _ => {
            marked_unsupported_aims(s, "malformed HIR try instruction"@);
        },
    }
}

pub(crate) proof fn lowered_stmt_aims(
    s: FlattenView,
    stmt: StmtView,
    facts: Seq<HirExprView>,
    fuel: u32,
)
    requires
        aimed(s),
    ensures
        aimed(lowered_stmt(s, stmt, facts, fuel)),
        further(s, lowered_stmt(s, stmt, facts, fuel)),
    decreases fuel, 3nat, 0nat,
{
    let _ = {
        match stmt.kind {
            StmtKindView::RefDecl { name, value } => {
                let s = {
                    lowered_ref_stmt_aims(s, stmt, name, value, facts_of_root(facts, 0));
                    lowered_ref_stmt(s, stmt, name, value, facts_of_root(facts, 0))
                };
                s
            },
            StmtKindView::SetPlace { place, value } => {
                let s = {
                    lowered_set_place_aims(s, place, value, facts);
                    lowered_set_place(s, place, value, facts)
                };
                s
            },
            StmtKindView::AugAssign { place, op, value } => {
                let s = {
                    lowered_aug_aims(s, place, op, value, facts);
                    lowered_aug(s, place, op, value, facts)
                };
                s
            },
            StmtKindView::Raise(value) => {
                let (s, src) = {
                    lowered_value_aims(s, value, facts_of_root(facts, 0));
                    lowered_value(s, value, facts_of_root(facts, 0))
                };
                let s = {
                    emitted_aims(s, MirInstrView::Raise { src });
                    emitted(s, MirInstrView::Raise { src })
                };
                s
            },
            StmtKindView::Comptime { name, value } => {
                let (s, src) = {
                    lowered_value_aims(s, value, facts_of_root(facts, 0));
                    lowered_value(s, value, facts_of_root(facts, 0))
                };
                let (s, var) = {
                    interned_aims(s, name);
                    interned(s, name)
                };
                let s = {
                    defined_aims(s, var, src, None);
                    defined(s, var, src, None)
                };
                s
            },
            StmtKindView::Pass => s,
            StmtKindView::Import { .. } => s,
            StmtKindView::FromImport { .. } => s,
            StmtKindView::Try { .. } => {
                let s = {
                    lowered_enclosed_try_aims(s, stmt, fuel);
                    lowered_enclosed_try(s, stmt, fuel)
                };
                s
            },
            StmtKindView::Def { name, .. } => {
                let s = {
                    lowered_nested_def_aims(s, name);
                    lowered_nested_def(s, name)
                };
                s
            },
            StmtKindView::Struct { .. } => {
                let s = {
                    marked_nested_aims(s);
                    marked_nested(s)
                };
                s
            },
            StmtKindView::Trait { .. } => {
                let s = {
                    marked_nested_aims(s);
                    marked_nested(s)
                };
                s
            },
            StmtKindView::Unpack { targets, value } => {
                let s = {
                    lowered_unpack_aims(s, targets, value, facts);
                    lowered_unpack(s, targets, value, facts)
                };
                s
            },
            StmtKindView::With { .. } => {
                let s = {
                    marked_unchecked_aims(s, stmt);
                    marked_unchecked(s, stmt)
                };
                s
            },
            StmtKindView::ComptimeIf { .. } => {
                let s = {
                    marked_unchecked_aims(s, stmt);
                    marked_unchecked(s, stmt)
                };
                s
            },
            StmtKindView::ComptimeFor { .. } => {
                let s = {
                    marked_unchecked_aims(s, stmt);
                    marked_unchecked(s, stmt)
                };
                s
            },
            _ => {
                let s = {
                    marked_malformed_aims(s, stmt);
                    marked_malformed(s, stmt)
                };
                s
            },
        }
    };
}

pub(crate) proof fn lowered_enclosed_try_aims(
    s: FlattenView,
    stmt: StmtView,
    fuel: u32,
)
    requires
        aimed(s),
    ensures
        aimed(lowered_enclosed_try(s, stmt, fuel)),
        further(s, lowered_enclosed_try(s, stmt, fuel)),
    decreases fuel, 2nat, 1nat,
{
    let _ = {
        if stmt_leaves_loop(stmt) {
            let s = {
                marked_unsupported_aims(s, "try with break/continue crossing the try boundary"@);
                marked_unsupported(s, "try with break/continue crossing the try boundary"@)
            };
            s
        } else {
            let no_loops = Seq::<(usize, usize)>::empty();
            let s = {
                lowered_try_aims(s, stmt, no_loops, fuel);
                lowered_try(s, stmt, no_loops, fuel)
            };
            s
        }
    };
}

pub(crate) proof fn lowered_nested_def_aims(
    s: FlattenView,
    name: Seq<char>,
)
    requires
        aimed(s),
    ensures
        aimed(lowered_nested_def(s, name)),
        further(s, lowered_nested_def(s, name)),
{
    reveal(lowered_nested_def);
    let _ = {
        if nested_named(s.nested, name, 0) is None {
            let s = {
                marked_nested_aims(s);
                marked_nested(s)
            };
            s
        } else {
            s
        }
    };
}

pub(crate) proof fn marked_nested_aims(
    s: FlattenView,
)
    requires
        aimed(s),
    ensures
        aimed(marked_nested(s)),
        further(s, marked_nested(s)),
{
    reveal(marked_nested);
    let _ = {
        let s = {
            marked_unsupported_aims(s, "nested def/struct/trait declaration"@);
            marked_unsupported(s, "nested def/struct/trait declaration"@)
        };
        s
    };
}

pub(crate) proof fn marked_unchecked_aims(
    s: FlattenView,
    stmt: StmtView,
)
    requires
        aimed(s),
    ensures
        aimed(marked_unchecked(s, stmt)),
        further(s, marked_unchecked(s, stmt)),
{
    reveal(marked_unchecked);
    let _ = {
        let s = {
            marked_unsupported_aims(s, "unchecked statement reached MIR lowering: "@ + stmt_kind_printed(stmt.kind));
            marked_unsupported(s, "unchecked statement reached MIR lowering: "@ + stmt_kind_printed(stmt.kind))
        };
        s
    };
}

pub(crate) proof fn marked_malformed_aims(
    s: FlattenView,
    stmt: StmtView,
)
    requires
        aimed(s),
    ensures
        aimed(marked_malformed(s, stmt)),
        further(s, marked_malformed(s, stmt)),
{
    reveal(marked_malformed);
    let _ = {
        let s = {
            marked_unsupported_aims(s, "malformed HIR statement instruction: "@ + stmt_kind_printed(stmt.kind));
            marked_unsupported(s, "malformed HIR statement instruction: "@ + stmt_kind_printed(stmt.kind))
        };
        s
    };
}

pub(crate) proof fn lowered_instr_aims(
    s: FlattenView,
    instr: HirInstrView,
    fuel: u32,
)
    requires
        aimed(s),
    ensures
        aimed(lowered_instr(s, instr, fuel)),
        further(s, lowered_instr(s, instr, fuel)),
    decreases fuel, 4nat, 0nat,
{
    let _ = {
        match instr {
            HirInstrView::Bind { dest, expr, binding_ty } => {
                let s = {
                    lowered_bind_aims(s, dest, expr, binding_ty);
                    lowered_bind(s, dest, expr, binding_ty)
                };
                s
            },
            HirInstrView::Eval(value) => {
                let s = {
                    lowered_eval_aims(s, value);
                    lowered_eval(s, value)
                };
                s
            },
            HirInstrView::Stmt(stmt) => {
                let s = {
                    lowered_stmt_aims(s, stmt.syntax, stmt.expressions, fuel);
                    lowered_stmt(s, stmt.syntax, stmt.expressions, fuel)
                };
                s
            },
            HirInstrView::Try { stmt, loop_targets } => {
                let s = {
                    lowered_try_aims(s, stmt.syntax, loop_targets, fuel);
                    lowered_try(s, stmt.syntax, loop_targets, fuel)
                };
                s
            },
            HirInstrView::Drop(var) => {
                let s = {
                    emitted_aims(s, MirInstrView::DropVar { var });
                    emitted(s, MirInstrView::DropVar { var })
                };
                s
            },
            HirInstrView::GetIter { iter, protocol } => {
                let s = {
                    emitted_aims(s, MirInstrView::GetIter { iter, mode: protocol.mode, prepare: protocol.prepare });
                    emitted(s, MirInstrView::GetIter { iter, mode: protocol.mode, prepare: protocol.prepare })
                };
                s
            },
            HirInstrView::HasNext { iter, dest, method } => {
                let s = {
                    lowered_has_next_aims(s, iter, dest, method);
                    lowered_has_next(s, iter, dest, method)
                };
                s
            },
            HirInstrView::Next { iter, dest, method } => {
                let s = {
                    lowered_next_aims(s, iter, dest, method);
                    lowered_next(s, iter, dest, method)
                };
                s
            },
        }
    };
}

pub(crate) proof fn lowered_eval_aims(
    s: FlattenView,
    value: HirExprView,
)
    requires
        aimed(s),
    ensures
        aimed(lowered_eval(s, value)),
        further(s, lowered_eval(s, value)),
{
    reveal(lowered_eval);
    let _ = {
        let (s, _) = {
            lowered_value_aims(s, value.syntax, Some(value));
            lowered_value(s, value.syntax, Some(value))
        };
        s
    };
}

pub(crate) proof fn lowered_has_next_aims(
    s: FlattenView,
    iter: u32,
    dest: u32,
    method: Option<Seq<char>>,
)
    requires
        aimed(s),
    ensures
        aimed(lowered_has_next(s, iter, dest, method)),
        further(s, lowered_has_next(s, iter, dest, method)),
{
    reveal(lowered_has_next);
    let _ = {
        let (s, reg) = {
            fresh_reg_aims(s, (0, 0), None, None);
            fresh_reg(s, (0, 0), None, None)
        };
        let s = {
            emitted_aims(s, MirInstrView::HasNext { dest: reg, iter, method });
            emitted(s, MirInstrView::HasNext { dest: reg, iter, method })
        };
        let s = {
            defined_aims(s, dest, reg, None);
            defined(s, dest, reg, None)
        };
        s
    };
}

pub(crate) proof fn lowered_next_aims(
    s: FlattenView,
    iter: u32,
    dest: u32,
    method: Option<Seq<char>>,
)
    requires
        aimed(s),
    ensures
        aimed(lowered_next(s, iter, dest, method)),
        further(s, lowered_next(s, iter, dest, method)),
{
    reveal(lowered_next);
    let _ = {
        let (s, reg) = {
            fresh_reg_aims(s, (0, 0), None, Some(iter));
            fresh_reg(s, (0, 0), None, Some(iter))
        };
        let s = {
            emitted_aims(s, MirInstrView::Next { dest: reg, iter, method });
            emitted(s, MirInstrView::Next { dest: reg, iter, method })
        };
        let s = {
            defined_aims(s, dest, reg, None);
            defined(s, dest, reg, None)
        };
        s
    };
}

pub(crate) proof fn lowered_instrs_aims(
    s: FlattenView,
    instrs: Seq<HirInstrView>,
    fuel: u32,
    i: nat,
)
    requires
        aimed(s),
    ensures
        aimed(lowered_instrs(s, instrs, fuel, i)),
        further(s, lowered_instrs(s, instrs, fuel, i)),
    decreases fuel, 5nat, (instrs.len() - i) as nat,
{
    let _ = {
        if i >= instrs.len() {
            s
        } else {
            let instr = instrs[i as int];
            let s = {
                lowered_instr_aims(s, instr, fuel);
                lowered_instr(s, instr, fuel)
            };
            {
                lowered_instrs_aims(s, instrs, fuel, i + 1);
                lowered_instrs(s, instrs, fuel, i + 1)
            }
        }
    };
}

pub(crate) proof fn lowered_blocks_aims(
    s: FlattenView,
    blocks: Seq<BasicBlockView>,
    fuel: u32,
    i: nat,
    k: usize,
)
    requires
        aimed(s),
        roomy(s) ==> all_lead(blocks, s.blocks.len()) && blocks.len() <= s.blocks.len(),
        i <= usize::MAX ==> k == i,
    ensures
        aimed(lowered_blocks(s, blocks, fuel, i, k)),
        further(s, lowered_blocks(s, blocks, fuel, i, k)),
    decreases fuel, 6nat, (blocks.len() - i) as nat,
{
    reveal(following_index);
    let _ = {
        if i >= blocks.len() {
            s
        } else {
            let block = blocks[i as int];
            let s = {
                at_block_aims(s, k);
                at_block(s, k)
            };
            let s = {
                lowered_instrs_aims(s, block.instrs, fuel, 0);
                lowered_instrs(s, block.instrs, fuel, 0)
            };
            let (s, term) = {
                lowered_term_aims(s, block.term);
                lowered_term(s, block.term)
            };
            let s = {
                ended_aims(s, term);
                ended(s, term)
            };
            let k = following_index(k);
            {
                lowered_blocks_aims(s, blocks, fuel, i + 1, k);
                lowered_blocks(s, blocks, fuel, i + 1, k)
            }
        }
    };
}

} // verus!
