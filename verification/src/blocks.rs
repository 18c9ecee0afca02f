//! Building control-flow graphs and reading them.

use crate::ast::{stmt_list_view, Stmt, StmtView};
use crate::cfg::{
    build_fn_with_context, build_seeded_checked_with_loops, function_cfg, region_cfg,
};
use crate::checked::{
    checked_expr_list_view, unfold_checked_program, CheckedExpr, CheckedExprView, CheckedProgram,
};
use crate::graph::{targets_are_edges, targets_of};
use crate::hir::{
    basic_block_list_view, unfold_basic_block, unfold_cfg, BasicBlock, Cfg, Terminator,
};
use crate::text::string_list_view;
use vstd::prelude::*;

verus! {

impl Cfg {
    /// The graph of a body without parameters.
    pub fn build(body: &Vec<Stmt>) -> (r: Cfg)
        ensures
            r@ == function_cfg(Seq::empty(), Seq::empty(), stmt_list_view(body@), Seq::empty()),
    {
        let params: Vec<String> = Vec::new();
        assert(string_list_view(params@) =~= Seq::<Seq<char>>::empty());
        Cfg::build_fn(&params, body)
    }

    /// The graph of a function body. The parameters have the first slots.
    pub fn build_fn(params: &Vec<String>, body: &Vec<Stmt>) -> (r: Cfg)
        ensures
            r@ == function_cfg(
                string_list_view(params@),
                Seq::empty(),
                stmt_list_view(body@),
                Seq::empty(),
            ),
    {
        let captures: Vec<String> = Vec::new();
        assert(string_list_view(captures@) =~= Seq::<Seq<char>>::empty());
        Cfg::build_fn_with_captures(params, captures, body)
    }

    /// The graph of a function body that was checked.
    pub fn build_checked_fn(
        checked: &CheckedProgram,
        params: &Vec<String>,
        body: &Vec<Stmt>,
    ) -> (r: Cfg)
        ensures
            r@ == function_cfg(
                string_list_view(params@),
                Seq::empty(),
                stmt_list_view(body@),
                checked@.expressions,
            ),
    {
        let captures: Vec<String> = Vec::new();
        assert(string_list_view(captures@) =~= Seq::<Seq<char>>::empty());
        Cfg::build_checked_fn_with_captures(checked, params, captures, body)
    }

    /// The graph of a function body in which some names stand for captured values.
    pub fn build_fn_with_captures(
        params: &Vec<String>,
        shadow_captures: Vec<String>,
        body: &Vec<Stmt>,
    ) -> (r: Cfg)
        ensures
            r@ == function_cfg(
                string_list_view(params@),
                string_list_view(shadow_captures@),
                stmt_list_view(body@),
                Seq::empty(),
            ),
    {
        let checked: Vec<CheckedExpr> = Vec::new();
        assert(checked_expr_list_view(checked@) =~= Seq::<CheckedExprView>::empty());
        build_fn_with_context(params, shadow_captures, body, &checked)
    }

    /// The graph of a checked function body in which some names stand for captured values.
    pub fn build_checked_fn_with_captures(
        checked: &CheckedProgram,
        params: &Vec<String>,
        shadow_captures: Vec<String>,
        body: &Vec<Stmt>,
    ) -> (r: Cfg)
        ensures
            r@ == function_cfg(
                string_list_view(params@),
                string_list_view(shadow_captures@),
                stmt_list_view(body@),
                checked@.expressions,
            ),
    {
        proof { unfold_checked_program(*checked); }
        build_fn_with_context(params, shadow_captures, body, &checked.expressions)
    }

    /// The graph of a region that starts with the slots of the function around it.
    pub fn build_seeded(seed_vars: Vec<String>, body: &Vec<Stmt>) -> (r: Cfg)
        ensures
            r@ == region_cfg(
                string_list_view(seed_vars@),
                stmt_list_view(body@),
                Seq::empty(),
                Seq::empty(),
            ),
    {
        let external_loops: Vec<(usize, usize)> = Vec::new();
        assert(external_loops@ =~= Seq::<(usize, usize)>::empty());
        Cfg::build_seeded_with_loops(seed_vars, body, &external_loops)
    }

    /// The graph of a region inside loops of the function around it, given by the blocks
    /// that they continue and break to, innermost last.
    pub fn build_seeded_with_loops(
        seed_vars: Vec<String>,
        body: &Vec<Stmt>,
        external_loops: &Vec<(usize, usize)>,
    ) -> (r: Cfg)
        ensures
            r@ == region_cfg(
                string_list_view(seed_vars@),
                stmt_list_view(body@),
                external_loops@,
                Seq::empty(),
            ),
    {
        let checked: Vec<CheckedExpr> = Vec::new();
        assert(checked_expr_list_view(checked@) =~= Seq::<CheckedExprView>::empty());
        Cfg::build_seeded_checked_with_loops(seed_vars, body, external_loops, &checked)
    }

    /// The graph of a checked region inside loops of the function around it.
    pub fn build_seeded_checked_with_loops(
        seed_vars: Vec<String>,
        body: &Vec<Stmt>,
        external_loops: &Vec<(usize, usize)>,
        checked: &Vec<CheckedExpr>,
    ) -> (r: Cfg)
        ensures
            r@ == region_cfg(
                string_list_view(seed_vars@),
                stmt_list_view(body@),
                external_loops@,
                checked_expr_list_view(checked@),
            ),
    {
        build_seeded_checked_with_loops(seed_vars, body, external_loops, checked)
    }

    /// The number of blocks.
    pub fn node_count(&self) -> (r: usize)
        ensures
            r == self@.g.nodes,
    {
        self.g.node_count()
    }

    /// The number of edges.
    pub fn edge_count(&self) -> (r: usize)
        ensures
            r == self@.g.edges.len(),
    {
        self.g.edge_count()
    }

    /// A block, by its number.
    pub fn block(&self, b: usize) -> (r: &BasicBlock)
        requires
            b < self@.blocks.len(),
        ensures
            r@ == self@.blocks[b as int],
    {
        proof { unfold_cfg(*self); }
        &self.blocks[b]
    }

    /// The terminator of a block, if it has one.
    pub fn term(&self, b: usize) -> (r: Option<&Terminator>)
        requires
            b < self@.blocks.len(),
        ensures
            match r {
                Some(term) => self@.blocks[b as int].term == Some(term@),
                None => self@.blocks[b as int].term is None,
            },
    {
        let block = self.block(b);
        proof { unfold_basic_block(*block); }
        match &block.term {
            Some(term) => Some(term),
            None => None,
        }
    }

    /// The successors of a block, the edge that was added last first.
    pub fn successors(&self, b: usize) -> (r: Vec<usize>)
        requires
            b <= u32::MAX,
        ensures
            r@ == targets_of(self@.g.edges, b),
    {
        self.g.successors(b)
    }

    /// Whether there is an edge from a block to another.
    pub fn has_edge(&self, from: usize, to: usize) -> (r: bool)
        ensures
            from <= u32::MAX ==> r == self@.g.edges.contains((from, to)),
            from > u32::MAX ==> !r,
    {
        let targets = self.g.successors(from);
        let mut i: usize = 0;
        proof { targets_are_edges(self@.g.edges, from, to); }
        while i < targets.len()
            invariant
                i <= targets.len(),
                forall|k: int| 0 <= k < i ==> targets@[k] != to,
                from <= u32::MAX ==> targets@ == targets_of(self@.g.edges, from),
                from > u32::MAX ==> targets@ == Seq::<usize>::empty(),
                targets_of(self@.g.edges, from).contains(to) <==> self@.g.edges.contains((from, to)),
            decreases targets.len() - i,
        {
            if targets[i] == to {
                return true;
            }
            i += 1;
        }
        false
    }
}

} // verus!
