//! Flattening only adds registers, slots and blocks: blocks and regions.

use crate::ast::{Stmt, StmtKindView, StmtView};
use crate::calls::lowered_value;
use crate::cfg::region_cfg;
use crate::debug::stmt_kind_printed;
use crate::flatten::{
    FlattenView, at_block, defined, emitted, ended, following_index, fresh_reg, interned,
    marked_unsupported, nested_named,
};
use crate::growth::region_slots_keep_numbers;
use crate::growth::calls::lowered_value_grows;
use crate::growth::flatten::{
    defined_grows, emitted_grows, ended_grows, fresh_reg_grows, grown, interned_grows, larger,
    marked_unsupported_grows,
};
use crate::growth::stmts::{
    lowered_aug_grows, lowered_bind_grows, lowered_ref_stmt_grows, lowered_set_place_grows,
    lowered_term_grows, lowered_unpack_grows,
};
use crate::hir::{BasicBlockView, HirExprView, HirInstrView};
use crate::mir::MirInstrView;
use crate::regions::{
    absorbed, interned_opt, lowered_blocks, lowered_enclosed_try, lowered_eval, lowered_handler,
    lowered_has_next, lowered_instr, lowered_instrs, lowered_nested_def, lowered_next,
    lowered_opt_region, lowered_region, lowered_stmt, lowered_try, marked_malformed, marked_nested,
    marked_unchecked, region_start,
};
use crate::stmts::{
    facts_of_root, lowered_aug, lowered_bind, lowered_ref_stmt, lowered_set_place, lowered_term,
    lowered_unpack, stmt_leaves_loop,
};
use vstd::prelude::*;

verus! {

pub(crate) proof fn lowered_region_grows(
    from: FlattenView,
    s: FlattenView,
    body: Seq<StmtView>,
    loops: Seq<(usize, usize)>,
    fuel: u32,
)
    requires
        grown(from, s),
    ensures
        grown(from, lowered_region(s, body, loops, fuel).0),
        s.blocks.len() <= lowered_region(s, body, loops, fuel).0.blocks.len(),
    decreases fuel, 0nat, 0nat,
{
    if fuel == 0 {
        marked_unsupported_grows(from, s, "try regions nested too deeply"@);
    } else {
        let cfg = region_cfg(s.vars, body, loops, s.checked);
        region_slots_keep_numbers(s.vars, body, loops, s.checked);
        reveal(region_start);
        let region = region_start(s, cfg);
        let start = FlattenView { vars: s.vars, blocks: Seq::empty(), ..s };
        lowered_blocks_grows(start, region, cfg.blocks, (fuel - 1) as u32, 0, 0);
        reveal(absorbed);
    }
}

pub(crate) proof fn lowered_opt_region_grows(
    from: FlattenView,
    s: FlattenView,
    body: Option<Seq<StmtView>>,
    loops: Seq<(usize, usize)>,
    fuel: u32,
)
    requires
        grown(from, s),
    ensures
        grown(from, lowered_opt_region(s, body, loops, fuel).0),
        s.blocks.len() <= lowered_opt_region(s, body, loops, fuel).0.blocks.len(),
    decreases fuel, 1nat, 0nat,
{
    let _ = {
        match body {
            Some(body) => {
                let (s, blocks) = {
                    lowered_region_grows(from, s, body, loops, fuel);
                    lowered_region(s, body, loops, fuel)
                };
                (s, Some(blocks))
            },
            None => (s, None),
        }
    };
}

pub(crate) proof fn lowered_handler_grows(
    from: FlattenView,
    s: FlattenView,
    except: Option<(Option<Seq<char>>, Seq<StmtView>)>,
    loops: Seq<(usize, usize)>,
    fuel: u32,
)
    requires
        grown(from, s),
    ensures
        grown(from, lowered_handler(s, except, loops, fuel).0),
        s.blocks.len() <= lowered_handler(s, except, loops, fuel).0.blocks.len(),
    decreases fuel, 1nat, 0nat,
{
    let _ = {
        match except {
            Some((name, body)) => {
                let (s, slot) = {
                    interned_opt_grows(from, s, name);
                    interned_opt(s, name)
                };
                let (s, blocks) = {
                    lowered_region_grows(from, s, body, loops, fuel);
                    lowered_region(s, body, loops, fuel)
                };
                (s, Some((slot, blocks)))
            },
            None => (s, None),
        }
    };
}

pub(crate) proof fn interned_opt_grows(
    from: FlattenView,
    s: FlattenView,
    name: Option<Seq<char>>,
)
    requires
        grown(from, s),
    ensures
        grown(from, interned_opt(s, name).0),
        s.blocks.len() <= interned_opt(s, name).0.blocks.len(),
{
    reveal(interned_opt);
    let _ = {
        match name {
            Some(name) => {
                let (s, var) = {
                    interned_grows(from, s, name);
                    interned(s, name)
                };
                (s, Some(var))
            },
            None => (s, None),
        }
    };
}

pub(crate) proof fn lowered_try_grows(
    from: FlattenView,
    s: FlattenView,
    stmt: StmtView,
    loops: Seq<(usize, usize)>,
    fuel: u32,
)
    requires
        grown(from, s),
    ensures
        grown(from, lowered_try(s, stmt, loops, fuel)),
        s.blocks.len() <= lowered_try(s, stmt, loops, fuel).blocks.len(),
    decreases fuel, 2nat, 0nat,
{
    let _ = {
        match stmt.kind {
            StmtKindView::Try { body, except, orelse, finalbody } => {
                let (s, body) = {
                    lowered_region_grows(from, s, body, loops, fuel);
                    lowered_region(s, body, loops, fuel)
                };
                let (s, handler) = {
                    lowered_handler_grows(from, s, except, loops, fuel);
                    lowered_handler(s, except, loops, fuel)
                };
                let (s, orelse) = {
                    lowered_opt_region_grows(from, s, orelse, loops, fuel);
                    lowered_opt_region(s, orelse, loops, fuel)
                };
                let (s, finalbody) = {
                    lowered_opt_region_grows(from, s, finalbody, loops, fuel);
                    lowered_opt_region(s, finalbody, loops, fuel)
                };
                let cleanup = Seq::<u32>::empty();
                let s = {
                    emitted_grows(from, s, MirInstrView::Try { body, handler, orelse, finalbody, cleanup });
                    emitted(s, MirInstrView::Try { body, handler, orelse, finalbody, cleanup })
                };
                s
            },
            _ => {
                let s = {
                    marked_unsupported_grows(from, s, "malformed HIR try instruction"@);
                    marked_unsupported(s, "malformed HIR try instruction"@)
                };
                s
            },
        }
    };
}

pub(crate) proof fn lowered_stmt_grows(
    from: FlattenView,
    s: FlattenView,
    stmt: StmtView,
    facts: Seq<HirExprView>,
    fuel: u32,
)
    requires
        grown(from, s),
    ensures
        grown(from, lowered_stmt(s, stmt, facts, fuel)),
        s.blocks.len() <= lowered_stmt(s, stmt, facts, fuel).blocks.len(),
    decreases fuel, 3nat, 0nat,
{
    let _ = {
        match stmt.kind {
            StmtKindView::RefDecl { name, value } => {
                let s = {
                    lowered_ref_stmt_grows(from, s, stmt, name, value, facts_of_root(facts, 0));
                    lowered_ref_stmt(s, stmt, name, value, facts_of_root(facts, 0))
                };
                s
            },
            StmtKindView::SetPlace { place, value } => {
                let s = {
                    lowered_set_place_grows(from, s, place, value, facts);
                    lowered_set_place(s, place, value, facts)
                };
                s
            },
            StmtKindView::AugAssign { place, op, value } => {
                let s = {
                    lowered_aug_grows(from, s, place, op, value, facts);
                    lowered_aug(s, place, op, value, facts)
                };
                s
            },
            StmtKindView::Raise(value) => {
                let (s, src) = {
                    lowered_value_grows(from, s, value, facts_of_root(facts, 0));
                    lowered_value(s, value, facts_of_root(facts, 0))
                };
                let s = {
                    emitted_grows(from, s, MirInstrView::Raise { src });
                    emitted(s, MirInstrView::Raise { src })
                };
                s
            },
            StmtKindView::Comptime { name, value } => {
                let (s, src) = {
                    lowered_value_grows(from, s, value, facts_of_root(facts, 0));
                    lowered_value(s, value, facts_of_root(facts, 0))
                };
                let (s, var) = {
                    interned_grows(from, s, name);
                    interned(s, name)
                };
                let s = {
                    defined_grows(from, s, var, src, None);
                    defined(s, var, src, None)
                };
                s
            },
            StmtKindView::Pass => s,
            StmtKindView::Import { .. } => s,
            StmtKindView::FromImport { .. } => s,
            StmtKindView::Try { .. } => {
                let s = {
                    lowered_enclosed_try_grows(from, s, stmt, fuel);
                    lowered_enclosed_try(s, stmt, fuel)
                };
                s
            },
            StmtKindView::Def { name, .. } => {
                let s = {
                    lowered_nested_def_grows(from, s, name);
                    lowered_nested_def(s, name)
                };
                s
            },
            StmtKindView::Struct { .. } => {
                let s = {
                    marked_nested_grows(from, s);
                    marked_nested(s)
                };
                s
            },
            StmtKindView::Trait { .. } => {
                let s = {
                    marked_nested_grows(from, s);
                    marked_nested(s)
                };
                s
            },
            StmtKindView::Unpack { targets, value } => {
                let s = {
                    lowered_unpack_grows(from, s, targets, value, facts);
                    lowered_unpack(s, targets, value, facts)
                };
                s
            },
            StmtKindView::With { .. } => {
                let s = {
                    marked_unchecked_grows(from, s, stmt);
                    marked_unchecked(s, stmt)
                };
                s
            },
            StmtKindView::ComptimeIf { .. } => {
                let s = {
                    marked_unchecked_grows(from, s, stmt);
                    marked_unchecked(s, stmt)
                };
                s
            },
            StmtKindView::ComptimeFor { .. } => {
                let s = {
                    marked_unchecked_grows(from, s, stmt);
                    marked_unchecked(s, stmt)
                };
                s
            },
            _ => {
                let s = {
                    marked_malformed_grows(from, s, stmt);
                    marked_malformed(s, stmt)
                };
                s
            },
        }
    };
}

pub(crate) proof fn lowered_enclosed_try_grows(
    from: FlattenView,
    s: FlattenView,
    stmt: StmtView,
    fuel: u32,
)
    requires
        grown(from, s),
    ensures
        grown(from, lowered_enclosed_try(s, stmt, fuel)),
        s.blocks.len() <= lowered_enclosed_try(s, stmt, fuel).blocks.len(),
    decreases fuel, 2nat, 1nat,
{
    let _ = {
        if stmt_leaves_loop(stmt) {
            let s = {
                marked_unsupported_grows(from, s, "try with break/continue crossing the try boundary"@);
                marked_unsupported(s, "try with break/continue crossing the try boundary"@)
            };
            s
        } else {
            let no_loops = Seq::<(usize, usize)>::empty();
            let s = {
                lowered_try_grows(from, s, stmt, no_loops, fuel);
                lowered_try(s, stmt, no_loops, fuel)
            };
            s
        }
    };
}

pub(crate) proof fn lowered_nested_def_grows(
    from: FlattenView,
    s: FlattenView,
    name: Seq<char>,
)
    requires
        grown(from, s),
    ensures
        grown(from, lowered_nested_def(s, name)),
        s.blocks.len() <= lowered_nested_def(s, name).blocks.len(),
{
    reveal(lowered_nested_def);
    let _ = {
        if nested_named(s.nested, name, 0) is None {
            let s = {
                marked_nested_grows(from, s);
                marked_nested(s)
            };
            s
        } else {
            s
        }
    };
}

pub(crate) proof fn marked_nested_grows(
    from: FlattenView,
    s: FlattenView,
)
    requires
        grown(from, s),
    ensures
        grown(from, marked_nested(s)),
        s.blocks.len() <= marked_nested(s).blocks.len(),
{
    reveal(marked_nested);
    let _ = {
        let s = {
            marked_unsupported_grows(from, s, "nested def/struct/trait declaration"@);
            marked_unsupported(s, "nested def/struct/trait declaration"@)
        };
        s
    };
}

pub(crate) proof fn marked_unchecked_grows(
    from: FlattenView,
    s: FlattenView,
    stmt: StmtView,
)
    requires
        grown(from, s),
    ensures
        grown(from, marked_unchecked(s, stmt)),
        s.blocks.len() <= marked_unchecked(s, stmt).blocks.len(),
{
    reveal(marked_unchecked);
    let _ = {
        let s = {
            marked_unsupported_grows(from, s, "unchecked statement reached MIR lowering: "@ + stmt_kind_printed(stmt.kind));
            marked_unsupported(s, "unchecked statement reached MIR lowering: "@ + stmt_kind_printed(stmt.kind))
        };
        s
    };
}

pub(crate) proof fn marked_malformed_grows(
    from: FlattenView,
    s: FlattenView,
    stmt: StmtView,
)
    requires
        grown(from, s),
    ensures
        grown(from, marked_malformed(s, stmt)),
        s.blocks.len() <= marked_malformed(s, stmt).blocks.len(),
{
    reveal(marked_malformed);
    let _ = {
        let s = {
            marked_unsupported_grows(from, s, "malformed HIR statement instruction: "@ + stmt_kind_printed(stmt.kind));
            marked_unsupported(s, "malformed HIR statement instruction: "@ + stmt_kind_printed(stmt.kind))
        };
        s
    };
}

pub(crate) proof fn lowered_instr_grows(
    from: FlattenView,
    s: FlattenView,
    instr: HirInstrView,
    fuel: u32,
)
    requires
        grown(from, s),
    ensures
        grown(from, lowered_instr(s, instr, fuel)),
        s.blocks.len() <= lowered_instr(s, instr, fuel).blocks.len(),
    decreases fuel, 4nat, 0nat,
{
    let _ = {
        match instr {
            HirInstrView::Bind { dest, expr, binding_ty } => {
                let s = {
                    lowered_bind_grows(from, s, dest, expr, binding_ty);
                    lowered_bind(s, dest, expr, binding_ty)
                };
                s
            },
            HirInstrView::Eval(value) => {
                let s = {
                    lowered_eval_grows(from, s, value);
                    lowered_eval(s, value)
                };
                s
            },
            HirInstrView::Stmt(stmt) => {
                let s = {
                    lowered_stmt_grows(from, s, stmt.syntax, stmt.expressions, fuel);
                    lowered_stmt(s, stmt.syntax, stmt.expressions, fuel)
                };
                s
            },
            HirInstrView::Try { stmt, loop_targets } => {
                let s = {
                    lowered_try_grows(from, s, stmt.syntax, loop_targets, fuel);
                    lowered_try(s, stmt.syntax, loop_targets, fuel)
                };
                s
            },
            HirInstrView::Drop(var) => {
                let s = {
                    emitted_grows(from, s, MirInstrView::DropVar { var });
                    emitted(s, MirInstrView::DropVar { var })
                };
                s
            },
            HirInstrView::GetIter { iter, protocol } => {
                let s = {
                    emitted_grows(from, s, MirInstrView::GetIter { iter, mode: protocol.mode, prepare: protocol.prepare });
                    emitted(s, MirInstrView::GetIter { iter, mode: protocol.mode, prepare: protocol.prepare })
                };
                s
            },
            HirInstrView::HasNext { iter, dest, method } => {
                let s = {
                    lowered_has_next_grows(from, s, iter, dest, method);
                    lowered_has_next(s, iter, dest, method)
                };
                s
            },
            HirInstrView::Next { iter, dest, method } => {
                let s = {
                    lowered_next_grows(from, s, iter, dest, method);
                    lowered_next(s, iter, dest, method)
                };
                s
            },
        }
    };
}

pub(crate) proof fn lowered_eval_grows(
    from: FlattenView,
    s: FlattenView,
    value: HirExprView,
)
    requires
        grown(from, s),
    ensures
        grown(from, lowered_eval(s, value)),
        s.blocks.len() <= lowered_eval(s, value).blocks.len(),
{
    reveal(lowered_eval);
    let _ = {
        let (s, _) = {
            lowered_value_grows(from, s, value.syntax, Some(value));
            lowered_value(s, value.syntax, Some(value))
        };
        s
    };
}

pub(crate) proof fn lowered_has_next_grows(
    from: FlattenView,
    s: FlattenView,
    iter: u32,
    dest: u32,
    method: Option<Seq<char>>,
)
    requires
        grown(from, s),
    ensures
        grown(from, lowered_has_next(s, iter, dest, method)),
        s.blocks.len() <= lowered_has_next(s, iter, dest, method).blocks.len(),
{
    reveal(lowered_has_next);
    let _ = {
        let (s, reg) = {
            fresh_reg_grows(from, s, (0, 0), None, None);
            fresh_reg(s, (0, 0), None, None)
        };
        let s = {
            emitted_grows(from, s, MirInstrView::HasNext { dest: reg, iter, method });
            emitted(s, MirInstrView::HasNext { dest: reg, iter, method })
        };
        let s = {
            defined_grows(from, s, dest, reg, None);
            defined(s, dest, reg, None)
        };
        s
    };
}

pub(crate) proof fn lowered_next_grows(
    from: FlattenView,
    s: FlattenView,
    iter: u32,
    dest: u32,
    method: Option<Seq<char>>,
)
    requires
        grown(from, s),
    ensures
        grown(from, lowered_next(s, iter, dest, method)),
        s.blocks.len() <= lowered_next(s, iter, dest, method).blocks.len(),
{
    reveal(lowered_next);
    let _ = {
        let (s, reg) = {
            fresh_reg_grows(from, s, (0, 0), None, Some(iter));
            fresh_reg(s, (0, 0), None, Some(iter))
        };
        let s = {
            emitted_grows(from, s, MirInstrView::Next { dest: reg, iter, method });
            emitted(s, MirInstrView::Next { dest: reg, iter, method })
        };
        let s = {
            defined_grows(from, s, dest, reg, None);
            defined(s, dest, reg, None)
        };
        s
    };
}

pub(crate) proof fn lowered_instrs_grows(
    from: FlattenView,
    s: FlattenView,
    instrs: Seq<HirInstrView>,
    fuel: u32,
    i: nat,
)
    requires
        grown(from, s),
    ensures
        grown(from, lowered_instrs(s, instrs, fuel, i)),
        s.blocks.len() <= lowered_instrs(s, instrs, fuel, i).blocks.len(),
    decreases fuel, 5nat, (instrs.len() - i) as nat,
{
    let _ = {
        if i >= instrs.len() {
            s
        } else {
            let instr = instrs[i as int];
            let s = {
                lowered_instr_grows(from, s, instr, fuel);
                lowered_instr(s, instr, fuel)
            };
            {
                lowered_instrs_grows(from, s, instrs, fuel, i + 1);
                lowered_instrs(s, instrs, fuel, i + 1)
            }
        }
    };
}

pub(crate) proof fn lowered_blocks_grows(
    from: FlattenView,
    s: FlattenView,
    blocks: Seq<BasicBlockView>,
    fuel: u32,
    i: nat,
    k: usize,
)
    requires
        larger(from, s),
    ensures
        larger(from, lowered_blocks(s, blocks, fuel, i, k)),
        s.blocks.len() <= lowered_blocks(s, blocks, fuel, i, k).blocks.len(),
    decreases fuel, 6nat, (blocks.len() - i) as nat,
{
    if i < blocks.len() {
        let block = blocks[i as int];
        reveal(at_block);
        let s0 = at_block(s, k);
        lowered_instrs_grows(s0, s0, block.instrs, fuel, 0);
        let s1 = lowered_instrs(s0, block.instrs, fuel, 0);
        lowered_term_grows(s0, s1, block.term);
        let (s2, term) = lowered_term(s1, block.term);
        ended_grows(s0, s2, term);
        lowered_blocks_grows(from, ended(s2, term), blocks, fuel, i + 1, following_index(k));
    }
}

} // verus!
