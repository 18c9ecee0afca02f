//! Lowering only adds: slots, registers and blocks keep their numbers.

use crate::ast::StmtView;
use crate::cfg::{
    escaping_loops, finished, function_cfg, region_cfg, rooted, same_names, started,
};
use crate::checked::{CheckedExprView, OverloadSetsView};
use crate::flatten::NestedInfoView;
use crate::functions::{flattened, function_ended, function_started};
use crate::growth::lower::{lower_block_grows, seal_block_grows};
use crate::growth::regions::lowered_blocks_grows;
use crate::hir::{BasicBlockView, CfgView, TerminatorView};
use crate::locals::{declared_names, implicit_names};
use crate::lower::{lower_block, new_block, LowerView};
use crate::mir::{MirBlockView, MirTermView};
use crate::regions::blocks_for;
use vstd::prelude::*;

pub mod calls;
pub mod comprehensions;
pub mod exprs;
pub mod flatten;
pub mod lower;
pub mod places;
pub mod receivers;
pub mod regions;
pub mod stmts;

verus! {

/// Whether a list starts with another.
pub open spec fn starts_with<A>(all: Seq<A>, front: Seq<A>) -> bool {
    &&& front.len() <= all.len()
    &&& forall|k: int| 0 <= k < front.len() ==> #[trigger] all[k] == front[k]
}

proof fn rooted_grows(
    implicit: Seq<Seq<char>>,
    i: nat,
    vars: Seq<Seq<char>>,
    scope: Seq<(Seq<char>, Seq<char>)>,
)
    ensures
        starts_with(rooted(implicit, i, vars, scope).0, vars),
    decreases implicit.len() - i,
{
    if i < implicit.len() {
        let name = implicit[i as int];
        rooted_grows(implicit, i + 1, vars.push(name), scope.push((name, name)));
        rooted_grows(implicit, i + 1, vars, scope);
    }
}

proof fn finished_grows(
    lower: LowerView,
    body: Seq<StmtView>,
    end: TerminatorView,
    n_params: usize,
)
    ensures
        starts_with(finished(lower, body, end, n_params).vars, lower.vars),
        lower.blocks.len() <= finished(lower, body, end, n_params).blocks.len(),
        finished(lower, body, end, n_params).n_params == n_params,
        finished(lower, body, end, n_params).entry == 0,
{
    reveal(finished);
    lower_block_grows(lower, lower, body, 0);
    seal_block_grows(lower, lower_block(lower, body, 0), end);
}

/// The parameters of a function are the first slots of its control-flow graph, in order,
/// and its entry is a block of the graph.
pub proof fn parameters_come_first(
    params: Seq<Seq<char>>,
    captures: Seq<Seq<char>>,
    body: Seq<StmtView>,
    checked: Seq<CheckedExprView>,
)
    ensures
        ({
            let cfg = function_cfg(params, captures, body, checked);
            &&& starts_with(cfg.vars, params)
            &&& cfg.n_params == params.len() as usize
            &&& cfg.entry < cfg.blocks.len()
        }),
{
    reveal(function_cfg);
    let explicit = declared_names(body, 0, Seq::empty());
    let implicit = implicit_names(body, explicit, 0, Seq::empty());
    let named = same_names(params, 0, Seq::empty());
    let (vars, scope) = rooted(implicit, 0, params, named);
    rooted_grows(implicit, 0, params, named);
    reveal(started);
    reveal(new_block);
    let lower = started(vars, scope, captures, Seq::empty(), true, checked);
    finished_grows(lower, body, TerminatorView::Return(None), params.len() as usize);
}

/// The slots that a region starts with keep their numbers in the region's graph, and its
/// entry is a block of the graph.
pub proof fn region_slots_keep_numbers(
    seed_vars: Seq<Seq<char>>,
    body: Seq<StmtView>,
    external: Seq<(usize, usize)>,
    checked: Seq<CheckedExprView>,
)
    ensures
        ({
            let cfg = region_cfg(seed_vars, body, external, checked);
            &&& starts_with(cfg.vars, seed_vars)
            &&& cfg.entry < cfg.blocks.len()
        }),
{
    reveal(region_cfg);
    let loops = escaping_loops(external, 0, Seq::empty());
    let scope = same_names(seed_vars, 0, Seq::empty());
    reveal(started);
    reveal(new_block);
    let lower = started(seed_vars, scope, Seq::empty(), loops, false, checked);
    finished_grows(lower, body, TerminatorView::FallOff, 0);
}

pub(crate) proof fn as_many_blocks(blocks: Seq<BasicBlockView>, i: nat, out: Seq<MirBlockView>)
    requires
        i <= blocks.len(),
    ensures
        blocks_for(blocks, i, out).len() == out.len() + blocks.len() - i,
    decreases blocks.len() - i,
{
    if i < blocks.len() {
        let block = blocks[i as int];
        as_many_blocks(
            blocks,
            i + 1,
            out.push(MirBlockView { instrs: Seq::empty(), term: MirTermView::Return(None) }),
        );
    }
}

/// A function of the flat form has the slots of its control-flow graph under their
/// numbers, and a block for each block of the graph.
pub proof fn flattening_keeps_numbers(
    cfg: CfgView,
    nested: Seq<NestedInfoView>,
    overloads: OverloadSetsView,
    returns_reference: bool,
    reference_parameters: Seq<bool>,
)
    ensures
        ({
            let function = flattened(
                cfg,
                nested,
                overloads,
                returns_reference,
                reference_parameters,
            );
            &&& starts_with(function.var_names, cfg.vars)
            &&& cfg.blocks.len() <= function.blocks.len()
            &&& function.n_params == cfg.n_params
            &&& function.complete ==> cfg.complete
        }),
{
    reveal(flattened);
    reveal(function_started);
    reveal(function_ended);
    let flat = function_started(cfg, nested, overloads, returns_reference, reference_parameters);
    as_many_blocks(cfg.blocks, 0, Seq::empty());
    lowered_blocks_grows(flat, flat, cfg.blocks, 4294967295, 0, 0);
}

} // verus!
