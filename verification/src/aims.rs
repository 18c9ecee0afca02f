//! The blocks of the flat form lead to blocks of their function.

use crate::aims::flatten::{blocks_aimed, few_blocks};
use crate::aims::regions::{blocks_for_aim, lowered_blocks_aims};
use crate::ast::StmtView;
use crate::cfg::function_cfg;
use crate::checked::{CheckedExprView, OverloadSetsView};
use crate::flatten::NestedInfoView;
use crate::functions::{flattened, function_ended, function_started, registers_of};
use crate::growth::flattening_keeps_numbers;
use crate::sealing::{few_edges, function_blocks_end, function_finds_room};
use vstd::prelude::*;

pub mod calls;
pub mod comprehensions;
pub mod exprs;
pub mod flatten;
pub mod places;
pub mod receivers;
pub mod regions;
pub mod stmts;

verus! {

/// In the flat form of a function each block leads to blocks of the function alone, and a
/// block of a region to blocks of the region.
pub proof fn flat_blocks_lead_inside(
    params: Seq<Seq<char>>,
    captures: Seq<Seq<char>>,
    body: Seq<StmtView>,
    checked: Seq<CheckedExprView>,
    nested: Seq<NestedInfoView>,
    overloads: OverloadSetsView,
    returns_reference: bool,
    reference_parameters: Seq<bool>,
)
    ensures
        ({
            let cfg = function_cfg(params, captures, body, checked);
            let function = flattened(
                cfg,
                nested,
                overloads,
                returns_reference,
                reference_parameters,
            );
            function.complete ==> blocks_aimed(function.blocks)
        }),
{
    let cfg = function_cfg(params, captures, body, checked);
    flattening_keeps_numbers(cfg, nested, overloads, returns_reference, reference_parameters);
    if cfg.complete {
        reveal(flattened);
        reveal(function_started);
        reveal(function_ended);
        function_blocks_end(params, captures, body, checked);
        blocks_for_aim(cfg.blocks);
        let flat = function_started(
            cfg,
            nested,
            overloads,
            returns_reference,
            reference_parameters,
        );
        lowered_blocks_aims(flat, cfg.blocks, 4294967295, 0, 0);
    }
}

/// The flat form of a function is complete whenever its registers stay below the limit of 32
/// bits and its blocks, those of each region too, are so few that they and their edges can be
/// counted in 32 bits.
pub proof fn flattening_finds_room(
    params: Seq<Seq<char>>,
    captures: Seq<Seq<char>>,
    body: Seq<StmtView>,
    checked: Seq<CheckedExprView>,
    nested: Seq<NestedInfoView>,
    overloads: OverloadSetsView,
    returns_reference: bool,
    reference_parameters: Seq<bool>,
)
    ensures
        ({
            let cfg = function_cfg(params, captures, body, checked);
            let function = flattened(
                cfg,
                nested,
                overloads,
                returns_reference,
                reference_parameters,
            );
            function.n_regs < u32::MAX && few_blocks(function.blocks) ==> function.complete
        }),
{
    let cfg = function_cfg(params, captures, body, checked);
    let function = flattened(cfg, nested, overloads, returns_reference, reference_parameters);
    flattening_keeps_numbers(cfg, nested, overloads, returns_reference, reference_parameters);
    if function.n_regs < u32::MAX && few_blocks(function.blocks) {
        few_edges(cfg.blocks);
        function_finds_room(params, captures, body, checked);
        reveal(flattened);
        reveal(function_started);
        reveal(function_ended);
        reveal(registers_of);
        function_blocks_end(params, captures, body, checked);
        blocks_for_aim(cfg.blocks);
        let flat = function_started(
            cfg,
            nested,
            overloads,
            returns_reference,
            reference_parameters,
        );
        lowered_blocks_aims(flat, cfg.blocks, 4294967295, 0, 0);
    }
}

} // verus!
