//! Flattening of blocks and `try` regions.

use crate::ast::{Stmt, StmtKind, StmtKindView, StmtView, stmt_list_view, unfold_stmt_kind};
use crate::calls::lowered_value;
use crate::cfg::{build_seeded_checked_with_loops, region_cfg};
use crate::checked::{clone_checked_expr_list, clone_overload_sets};
use crate::debug::{print_stmt_kind, stmt_kind_printed};
use crate::flatten::{
    Flatten, FlattenView, at_block, clone_nested_info_list, clone_slot_loan_list,
    clone_slot_loans_list, defined, emitted, ended, find_nested, following_index, fresh_reg,
    interned, marked_unsupported, nested_named, next_index, unfold_flatten,
};
use crate::hir::{
    BasicBlock, BasicBlockView, Cfg, CfgView, HirExpr, HirExprView, HirInstr, HirInstrView,
    basic_block_list_view, hir_expr_list_view, hir_instr_list_view,
};
use crate::mir::{
    MirBlock, MirBlockView, MirInstr, MirInstrView, MirTerm, MirTermView, clone_mir_block_list,
    clone_reg_origin_list, mir_block_list_view, mir_instr_list_view, unfold_mir_block,
    unfold_mir_instr,
};
use crate::stmts::{
    facts_of_root, lowered_aug, lowered_bind, lowered_ref_stmt, lowered_set_place, lowered_term,
    lowered_unpack, root_facts, stmt_crosses_control, stmt_leaves_loop,
};
use crate::text::{cat2, clone_string_list, copy_vec, opt_view};
use crate::types::clone_slot_ty_list;
use vstd::prelude::*;

verus! {

pub open spec fn blocks_for(
    blocks: Seq<BasicBlockView>,
    i: nat,
    out: Seq<MirBlockView>,
) -> Seq<MirBlockView>
    decreases blocks, (blocks.len() - i) as nat,
{
    if i >= blocks.len() {
        out
    } else {
        let block = blocks[i as int];
        let out = out.push(MirBlockView { instrs: Seq::empty(), term: MirTermView::Return(None) });
        blocks_for(blocks, i + 1, out)
    }
}

/// See [`blocks_for`].
pub fn open_blocks(blocks: &Vec<BasicBlock>) -> (r: Vec<MirBlock>)
    ensures
        mir_block_list_view(r@) == blocks_for(
            basic_block_list_view(blocks@),
            0,
            Seq::<MirBlockView>::empty(),
        ),
    decreases blocks@, 0nat,
{
    let mut out: Vec<MirBlock> = Vec::new();
    assert(mir_block_list_view(out@) =~= Seq::<MirBlockView>::empty());
    let ghost goal = blocks_for(basic_block_list_view(blocks@), 0, Seq::<MirBlockView>::empty());
    let mut i: usize = 0;
    while i < blocks.len()
        invariant
            i <= blocks@.len(),
            basic_block_list_view(blocks@).len() == blocks@.len(),
            blocks_for(basic_block_list_view(blocks@), i as nat, mir_block_list_view(out@)) == goal,
            goal == blocks_for(basic_block_list_view(blocks@), 0, Seq::<MirBlockView>::empty()),
        decreases blocks@.len() - i,
    {
        let block = &blocks[i];
        assert(basic_block_list_view(blocks@)[i as int] == block@);
        let list: Vec<MirInstr> = Vec::new();
        assert(mir_instr_list_view(list@) =~= Seq::<MirInstrView>::empty());
        let block2 = MirBlock { instrs: list, term: MirTerm::Return(None) };
        proof { unfold_mir_block(block2); }
        let ghost before = mir_block_list_view(out@);
        let ghost added = block2@;
        out.push(block2);
        assert(mir_block_list_view(out@) =~= before.push(added));
        i = i + 1;
    }
    out
}

/// The cursor for a region: blocks of its own, and the registers, variables
/// and references of the function so far.
#[verifier::opaque]
pub open spec fn region_start(s: FlattenView, cfg: CfgView) -> FlattenView {
    FlattenView {
        blocks: blocks_for(cfg.blocks, 0, Seq::empty()),
        spans: s.spans,
        reg_types: s.reg_types,
        cur: 0,
        vars: cfg.vars,
        var_types: cfg.var_types,
        owner_vars: s.owner_vars,
        nested: s.nested,
        overloads: s.overloads,
        checked: s.checked,
        aliases: s.aliases,
        runtime_aliases: s.runtime_aliases,
        aggregate_loans: s.aggregate_loans,
        reassigned: s.reassigned,
        returns_reference: s.returns_reference,
        complete: s.complete && cfg.complete,
    }
}

/// Take over the registers and variables of a region.
#[verifier::opaque]
pub open spec fn absorbed(s: FlattenView, region: FlattenView) -> FlattenView {
    let s = FlattenView { spans: region.spans, ..s };
    let s = FlattenView { reg_types: region.reg_types, ..s };
    let s = FlattenView { vars: region.vars, ..s };
    let s = FlattenView { var_types: region.var_types, ..s };
    let s = FlattenView { owner_vars: region.owner_vars, ..s };
    let s = FlattenView { complete: region.complete, ..s };
    s
}

/// A region of a `try` as blocks of its own. Regions nested deeper than `fuel`
/// are marked.
pub open spec fn lowered_region(
    s: FlattenView,
    body: Seq<StmtView>,
    loops: Seq<(usize, usize)>,
    fuel: u32,
) -> (FlattenView, Seq<MirBlockView>)
    decreases fuel, 0nat, 0nat,
{
    if fuel == 0 {
        let s = marked_unsupported(s, "try regions nested too deeply"@);
        (s, Seq::empty())
    } else {
        let cfg = region_cfg(s.vars, body, loops, s.checked);
        let region = region_start(s, cfg);
        let region = lowered_blocks(region, cfg.blocks, (fuel - 1) as u32, 0, 0);
        let s = absorbed(s, region);
        (s, region.blocks)
    }
}

pub open spec fn lowered_opt_region(
    s: FlattenView,
    body: Option<Seq<StmtView>>,
    loops: Seq<(usize, usize)>,
    fuel: u32,
) -> (FlattenView, Option<Seq<MirBlockView>>)
    decreases fuel, 1nat, 0nat,
{
    match body {
        Some(body) => {
            let (s, blocks) = lowered_region(s, body, loops, fuel);
            (s, Some(blocks))
        },
        None => (s, None),
    }
}

/// The handler of a `try`: the slot of the error, then its region.
pub open spec fn lowered_handler(
    s: FlattenView,
    except: Option<(Option<Seq<char>>, Seq<StmtView>)>,
    loops: Seq<(usize, usize)>,
    fuel: u32,
) -> (FlattenView, Option<(Option<u32>, Seq<MirBlockView>)>)
    decreases fuel, 1nat, 0nat,
{
    match except {
        Some((name, body)) => {
            let (s, slot) = interned_opt(s, name);
            let (s, blocks) = lowered_region(s, body, loops, fuel);
            (s, Some((slot, blocks)))
        },
        None => (s, None),
    }
}

#[verifier::opaque]
pub open spec fn interned_opt(
    s: FlattenView,
    name: Option<Seq<char>>,
) -> (FlattenView, Option<u32>) {
    match name {
        Some(name) => {
            let (s, var) = interned(s, name);
            (s, Some(var))
        },
        None => (s, None),
    }
}

/// A `try`: its regions in source order, then the instruction that holds them.
pub open spec fn lowered_try(
    s: FlattenView,
    stmt: StmtView,
    loops: Seq<(usize, usize)>,
    fuel: u32,
) -> FlattenView
    decreases fuel, 2nat, 0nat,
{
    match stmt.kind {
        StmtKindView::Try { body, except, orelse, finalbody } => {
            let (s, body) = lowered_region(s, body, loops, fuel);
            let (s, handler) = lowered_handler(s, except, loops, fuel);
            let (s, orelse) = lowered_opt_region(s, orelse, loops, fuel);
            let (s, finalbody) = lowered_opt_region(s, finalbody, loops, fuel);
            let cleanup = Seq::<u32>::empty();
            let s = emitted(s, MirInstrView::Try { body, handler, orelse, finalbody, cleanup });
            s
        },
        _ => {
            let s = marked_unsupported(s, "malformed HIR try instruction"@);
            s
        },
    }
}

/// A statement kept whole.
pub open spec fn lowered_stmt(
    s: FlattenView,
    stmt: StmtView,
    facts: Seq<HirExprView>,
    fuel: u32,
) -> FlattenView
    decreases fuel, 3nat, 0nat,
{
    match stmt.kind {
        StmtKindView::RefDecl { name, value } => {
            let s = lowered_ref_stmt(s, stmt, name, value, facts_of_root(facts, 0));
            s
        },
        StmtKindView::SetPlace { place, value } => {
            let s = lowered_set_place(s, place, value, facts);
            s
        },
        StmtKindView::AugAssign { place, op, value } => {
            let s = lowered_aug(s, place, op, value, facts);
            s
        },
        StmtKindView::Raise(value) => {
            let (s, src) = lowered_value(s, value, facts_of_root(facts, 0));
            let s = emitted(s, MirInstrView::Raise { src });
            s
        },
        StmtKindView::Comptime { name, value } => {
            let (s, src) = lowered_value(s, value, facts_of_root(facts, 0));
            let (s, var) = interned(s, name);
            let s = defined(s, var, src, None);
            s
        },
        StmtKindView::Pass => s,
        StmtKindView::Import { .. } => s,
        StmtKindView::FromImport { .. } => s,
        StmtKindView::Try { .. } => {
            let s = lowered_enclosed_try(s, stmt, fuel);
            s
        },
        StmtKindView::Def { name, .. } => {
            let s = lowered_nested_def(s, name);
            s
        },
        StmtKindView::Struct { .. } => {
            let s = marked_nested(s);
            s
        },
        StmtKindView::Trait { .. } => {
            let s = marked_nested(s);
            s
        },
        StmtKindView::Unpack { targets, value } => {
            let s = lowered_unpack(s, targets, value, facts);
            s
        },
        StmtKindView::With { .. } => {
            let s = marked_unchecked(s, stmt);
            s
        },
        StmtKindView::ComptimeIf { .. } => {
            let s = marked_unchecked(s, stmt);
            s
        },
        StmtKindView::ComptimeFor { .. } => {
            let s = marked_unchecked(s, stmt);
            s
        },
        _ => {
            let s = marked_malformed(s, stmt);
            s
        },
    }
}

/// A `try` among loops of a region: none of them can be left from inside.
pub open spec fn lowered_enclosed_try(s: FlattenView, stmt: StmtView, fuel: u32) -> FlattenView
    decreases fuel, 2nat, 1nat,
{
    if stmt_leaves_loop(stmt) {
        let s = marked_unsupported(s, "try with break/continue crossing the try boundary"@);
        s
    } else {
        let no_loops = Seq::<(usize, usize)>::empty();
        let s = lowered_try(s, stmt, no_loops, fuel);
        s
    }
}

/// A nested function that was lifted needs nothing here.
#[verifier::opaque]
pub open spec fn lowered_nested_def(s: FlattenView, name: Seq<char>) -> FlattenView {
    if nested_named(s.nested, name, 0) is None {
        let s = marked_nested(s);
        s
    } else {
        s
    }
}

#[verifier::opaque]
pub open spec fn marked_nested(s: FlattenView) -> FlattenView {
    let s = marked_unsupported(s, "nested def/struct/trait declaration"@);
    s
}

#[verifier::opaque]
pub open spec fn marked_unchecked(s: FlattenView, stmt: StmtView) -> FlattenView {
    let s = marked_unsupported(s, "unchecked statement reached MIR lowering: "@ + stmt_kind_printed(stmt.kind));
    s
}

#[verifier::opaque]
pub open spec fn marked_malformed(s: FlattenView, stmt: StmtView) -> FlattenView {
    let s = marked_unsupported(s, "malformed HIR statement instruction: "@ + stmt_kind_printed(stmt.kind));
    s
}

/// One straight-line instruction.
pub open spec fn lowered_instr(s: FlattenView, instr: HirInstrView, fuel: u32) -> FlattenView
    decreases fuel, 4nat, 0nat,
{
    match instr {
        HirInstrView::Bind { dest, expr, binding_ty } => {
            let s = lowered_bind(s, dest, expr, binding_ty);
            s
        },
        HirInstrView::Eval(value) => {
            let s = lowered_eval(s, value);
            s
        },
        HirInstrView::Stmt(stmt) => {
            let s = lowered_stmt(s, stmt.syntax, stmt.expressions, fuel);
            s
        },
        HirInstrView::Try { stmt, loop_targets } => {
            let s = lowered_try(s, stmt.syntax, loop_targets, fuel);
            s
        },
        HirInstrView::Drop(var) => {
            let s = emitted(s, MirInstrView::DropVar { var });
            s
        },
        HirInstrView::GetIter { iter, protocol } => {
            let s = emitted(
                s,
                MirInstrView::GetIter { iter, mode: protocol.mode, prepare: protocol.prepare },
            );
            s
        },
        HirInstrView::HasNext { iter, dest, method } => {
            let s = lowered_has_next(s, iter, dest, method);
            s
        },
        HirInstrView::Next { iter, dest, method } => {
            let s = lowered_next(s, iter, dest, method);
            s
        },
    }
}

#[verifier::opaque]
pub open spec fn lowered_eval(s: FlattenView, value: HirExprView) -> FlattenView {
    let (s, _) = lowered_value(s, value.syntax, Some(value));
    s
}

#[verifier::opaque]
pub open spec fn lowered_has_next(
    s: FlattenView,
    iter: u32,
    dest: u32,
    method: Option<Seq<char>>,
) -> FlattenView {
    let (s, reg) = fresh_reg(s, (0, 0), None, None);
    let s = emitted(s, MirInstrView::HasNext { dest: reg, iter, method });
    let s = defined(s, dest, reg, None);
    s
}

#[verifier::opaque]
pub open spec fn lowered_next(
    s: FlattenView,
    iter: u32,
    dest: u32,
    method: Option<Seq<char>>,
) -> FlattenView {
    let (s, reg) = fresh_reg(s, (0, 0), None, Some(iter));
    let s = emitted(s, MirInstrView::Next { dest: reg, iter, method });
    let s = defined(s, dest, reg, None);
    s
}

pub open spec fn lowered_instrs(
    s: FlattenView,
    instrs: Seq<HirInstrView>,
    fuel: u32,
    i: nat,
) -> FlattenView
    decreases fuel, 5nat, (instrs.len() - i) as nat,
{
    if i >= instrs.len() {
        s
    } else {
        let instr = instrs[i as int];
        let s = lowered_instr(s, instr, fuel);
        lowered_instrs(s, instrs, fuel, i + 1)
    }
}

/// The blocks of a graph, each into the block of its number.
pub open spec fn lowered_blocks(
    s: FlattenView,
    blocks: Seq<BasicBlockView>,
    fuel: u32,
    i: nat,
    k: usize,
) -> FlattenView
    decreases fuel, 6nat, (blocks.len() - i) as nat,
{
    if i >= blocks.len() {
        s
    } else {
        let block = blocks[i as int];
        let s = at_block(s, k);
        let s = lowered_instrs(s, block.instrs, fuel, 0);
        let (s, term) = lowered_term(s, block.term);
        let s = ended(s, term);
        let k = following_index(k);
        lowered_blocks(s, blocks, fuel, i + 1, k)
    }
}

impl Flatten {
    /// See [`region_start`].
    pub fn region_state(&self, cfg: &Cfg) -> (r: Flatten)
        ensures
            r@ == region_start(self@, cfg@),
    {
        proof { reveal(region_start); }
        let flatten = Flatten {
            blocks: open_blocks(&cfg.blocks),
            spans: clone_reg_origin_list(&self.spans),
            reg_types: clone_slot_ty_list(&self.reg_types),
            cur: 0,
            vars: clone_string_list(&cfg.vars),
            var_types: clone_slot_ty_list(&cfg.var_types),
            owner_vars: copy_vec(&self.owner_vars),
            nested: clone_nested_info_list(&self.nested),
            overloads: clone_overload_sets(&self.overloads),
            checked: clone_checked_expr_list(&self.checked),
            aliases: clone_slot_loan_list(&self.aliases),
            runtime_aliases: copy_vec(&self.runtime_aliases),
            aggregate_loans: clone_slot_loans_list(&self.aggregate_loans),
            reassigned: clone_string_list(&self.reassigned),
            returns_reference: self.returns_reference,
            complete: self.complete && cfg.complete,
        };
        proof { unfold_flatten(flatten); }
        flatten
    }

    /// See [`absorbed`].
    pub fn absorb(self, region: &Flatten) -> (r: Flatten)
        ensures
            r@ == absorbed(self@, region@),
    {
        proof { reveal(absorbed); }
        let mut this = self;
        this.spans = clone_reg_origin_list(&region.spans);
        this.reg_types = clone_slot_ty_list(&region.reg_types);
        this.vars = clone_string_list(&region.vars);
        this.var_types = clone_slot_ty_list(&region.var_types);
        this.owner_vars = copy_vec(&region.owner_vars);
        this.complete = region.complete;
        return this;
    }

    /// See [`lowered_region`].
    pub fn lower_region(
        self,
        body: &Vec<Stmt>,
        loops: &Vec<(usize, usize)>,
        fuel: u32,
    ) -> (r: (Flatten, Vec<MirBlock>))
        ensures
            r.0@ == lowered_region(self@, stmt_list_view(body@), loops@, fuel).0,
            mir_block_list_view(r.1@) == lowered_region(self@, stmt_list_view(body@), loops@, fuel).1,
        decreases fuel, 0nat, 0nat,
    {
        let mut this = self;
        if fuel == 0 {
            this = this.unsupported("try regions nested too deeply".to_owned());
            let list: Vec<MirBlock> = Vec::new();
            assert(mir_block_list_view(list@) =~= Seq::<MirBlockView>::empty());
            return (this, list);
        } else {
            let cfg = build_seeded_checked_with_loops(
                clone_string_list(&this.vars),
                body,
                loops,
                &this.checked,
            );
            let region = this.region_state(&cfg);
            let region = region.lower_blocks(&cfg.blocks, fuel - 1);
            this = this.absorb(&region);
            return (this, clone_mir_block_list(&region.blocks));
        }
    }

    /// See [`lowered_opt_region`].
    pub fn opt_region(
        self,
        body: &Option<Vec<Stmt>>,
        loops: &Vec<(usize, usize)>,
        fuel: u32,
    ) -> (r: (Flatten, Option<Vec<MirBlock>>))
        ensures
            r.0@ == lowered_opt_region(
                self@,
                (match body { Some(v) => Some(stmt_list_view(v@)), None => None }),
                loops@,
                fuel,
            ).0,
            (
                match r.1 { Some(v) => Some(mir_block_list_view(v@)), None => None }
            ) == lowered_opt_region(
                self@,
                (match body { Some(v) => Some(stmt_list_view(v@)), None => None }),
                loops@,
                fuel,
            ).1,
        decreases fuel, 1nat, 0nat,
    {
        let mut this = self;
        match body {
            Some(body) => {
                let (next, blocks) = this.lower_region(body, loops, fuel);
                this = next;
                return (this, Some(blocks));
            },
            None => {
                return (this, None);
            },
        }
    }

    /// See [`lowered_handler`].
    pub fn handler(
        self,
        except: &Option<(Option<String>, Vec<Stmt>)>,
        loops: &Vec<(usize, usize)>,
        fuel: u32,
    ) -> (r: (Flatten, Option<(Option<u32>, Vec<MirBlock>)>))
        ensures
            r.0@ == lowered_handler(
                self@,
                (match except { Some(v) => Some((opt_view(v.0), stmt_list_view(v.1@))), None => None }),
                loops@,
                fuel,
            ).0,
            (
                match r.1 { Some(v) => Some((v.0, mir_block_list_view(v.1@))), None => None }
            ) == lowered_handler(
                self@,
                (match except { Some(v) => Some((opt_view(v.0), stmt_list_view(v.1@))), None => None }),
                loops@,
                fuel,
            ).1,
        decreases fuel, 1nat, 0nat,
    {
        let mut this = self;
        match except {
            Some((name, body)) => {
                let (next, slot) = this.opt_var(name);
                this = next;
                let (next2, blocks) = this.lower_region(body, loops, fuel);
                this = next2;
                return (this, Some((slot, blocks)));
            },
            None => {
                return (this, None);
            },
        }
    }

    /// See [`interned_opt`].
    pub fn opt_var(self, name: &Option<String>) -> (r: (Flatten, Option<u32>))
        ensures
            r.0@ == interned_opt(self@, opt_view(*name)).0,
            r.1 == interned_opt(self@, opt_view(*name)).1,
    {
        proof { reveal(interned_opt); }
        let mut this = self;
        match name {
            Some(name) => {
                let (next, var) = this.var(name);
                this = next;
                return (this, Some(var));
            },
            None => {
                return (this, None);
            },
        }
    }

    /// See [`lowered_try`].
    pub fn emit_try(self, stmt: &Stmt, loops: &Vec<(usize, usize)>, fuel: u32) -> (r: Flatten)
        ensures
            r@ == lowered_try(self@, stmt@, loops@, fuel),
        decreases fuel, 2nat, 0nat,
    {
        let mut this = self;
        proof { unfold_stmt_kind(stmt.kind); }
        match &stmt.kind {
            StmtKind::Try { body, except, orelse, finalbody } => {
                let (next, body) = this.lower_region(body, loops, fuel);
                this = next;
                let (next2, handler) = this.handler(except, loops, fuel);
                this = next2;
                let (next3, orelse) = this.opt_region(orelse, loops, fuel);
                this = next3;
                let (next4, finalbody) = this.opt_region(finalbody, loops, fuel);
                this = next4;
                let cleanup: Vec<u32> = Vec::new();
                let instr = MirInstr::Try { body, handler, orelse, finalbody, cleanup };
                proof { unfold_mir_instr(instr); }
                return this.emit(instr);
            },
            _ => {
                assert(!(stmt.kind@ is Try));
                return this.unsupported("malformed HIR try instruction".to_owned());
            },
        }
    }

    /// See [`lowered_stmt`].
    pub fn lower_stmt(self, stmt: &Stmt, facts: &Vec<HirExpr>, fuel: u32) -> (r: Flatten)
        ensures
            r@ == lowered_stmt(self@, stmt@, hir_expr_list_view(facts@), fuel),
        decreases fuel, 3nat, 0nat,
    {
        let mut this = self;
        proof { unfold_stmt_kind(stmt.kind); }
        match &stmt.kind {
            StmtKind::RefDecl { name, value } => {
                return this.ref_decl(stmt, name, value, root_facts(facts, 0));
            },
            StmtKind::SetPlace { place, value } => {
                return this.set_place(place, value, facts);
            },
            StmtKind::AugAssign { place, op, value } => {
                return this.aug_assign(place, *op, value, facts);
            },
            StmtKind::Raise(value) => {
                let (next, src) = this.expr(value, root_facts(facts, 0));
                this = next;
                let instr = MirInstr::Raise { src };
                proof { unfold_mir_instr(instr); }
                return this.emit(instr);
            },
            StmtKind::Comptime { name, value } => {
                let (next2, src) = this.expr(value, root_facts(facts, 0));
                this = next2;
                let (next3, var) = this.var(name);
                this = next3;
                return this.define(var, src, None);
            },
            StmtKind::Pass => {
                return this;
            },
            StmtKind::Import { .. } => {
                return this;
            },
            StmtKind::FromImport { .. } => {
                return this;
            },
            StmtKind::Try { .. } => {
                return this.enclosed_try(stmt, fuel);
            },
            StmtKind::Def { name, .. } => {
                return this.nested_def(name);
            },
            StmtKind::Struct { .. } => {
                return this.nested_declaration();
            },
            StmtKind::Trait { .. } => {
                return this.nested_declaration();
            },
            StmtKind::Unpack { targets, value } => {
                return this.unpack(targets, value, facts);
            },
            StmtKind::With { .. } => {
                return this.unchecked_stmt(stmt);
            },
            StmtKind::ComptimeIf { .. } => {
                return this.unchecked_stmt(stmt);
            },
            StmtKind::ComptimeFor { .. } => {
                return this.unchecked_stmt(stmt);
            },
            _ => {
                assert(!(stmt.kind@ is RefDecl));
                assert(!(stmt.kind@ is SetPlace));
                assert(!(stmt.kind@ is AugAssign));
                assert(!(stmt.kind@ is Raise));
                assert(!(stmt.kind@ is Comptime));
                assert(!(stmt.kind@ is Pass));
                assert(!(stmt.kind@ is Import));
                assert(!(stmt.kind@ is FromImport));
                assert(!(stmt.kind@ is Try));
                assert(!(stmt.kind@ is Def));
                assert(!(stmt.kind@ is Struct));
                assert(!(stmt.kind@ is Trait));
                assert(!(stmt.kind@ is Unpack));
                assert(!(stmt.kind@ is With));
                assert(!(stmt.kind@ is ComptimeIf));
                assert(!(stmt.kind@ is ComptimeFor));
                return this.malformed_stmt(stmt);
            },
        }
    }

    /// See [`lowered_enclosed_try`].
    pub fn enclosed_try(self, stmt: &Stmt, fuel: u32) -> (r: Flatten)
        ensures
            r@ == lowered_enclosed_try(self@, stmt@, fuel),
        decreases fuel, 2nat, 1nat,
    {
        let mut this = self;
        if stmt_crosses_control(stmt) {
            return this.unsupported("try with break/continue crossing the try boundary".to_owned());
        } else {
            let no_loops: Vec<(usize, usize)> = Vec::new();
            return this.emit_try(stmt, &no_loops, fuel);
        }
    }

    /// See [`lowered_nested_def`].
    pub fn nested_def(self, name: &String) -> (r: Flatten)
        ensures
            r@ == lowered_nested_def(self@, name@),
    {
        proof { reveal(lowered_nested_def); }
        let mut this = self;
        if find_nested(&this.nested, name).is_none() {
            return this.nested_declaration();
        } else {
            return this;
        }
    }

    /// See [`marked_nested`].
    pub fn nested_declaration(self) -> (r: Flatten)
        ensures
            r@ == marked_nested(self@),
    {
        proof { reveal(marked_nested); }
        let mut this = self;
        return this.unsupported("nested def/struct/trait declaration".to_owned());
    }

    /// See [`marked_unchecked`].
    pub fn unchecked_stmt(self, stmt: &Stmt) -> (r: Flatten)
        ensures
            r@ == marked_unchecked(self@, stmt@),
    {
        proof { reveal(marked_unchecked); }
        let mut this = self;
        return this.unsupported(cat2("unchecked statement reached MIR lowering: ", print_stmt_kind(&stmt.kind).as_str()));
    }

    /// See [`marked_malformed`].
    pub fn malformed_stmt(self, stmt: &Stmt) -> (r: Flatten)
        ensures
            r@ == marked_malformed(self@, stmt@),
    {
        proof { reveal(marked_malformed); }
        let mut this = self;
        return this.unsupported(cat2("malformed HIR statement instruction: ", print_stmt_kind(&stmt.kind).as_str()));
    }

    /// See [`lowered_instr`].
    pub fn lower_instr(self, instr: &HirInstr, fuel: u32) -> (r: Flatten)
        ensures
            r@ == lowered_instr(self@, instr@, fuel),
        decreases fuel, 4nat, 0nat,
    {
        let mut this = self;
        match instr {
            HirInstr::Bind { dest, expr, binding_ty } => {
                return this.bind(*dest, expr, binding_ty);
            },
            HirInstr::Eval(value) => {
                return this.eval(value);
            },
            HirInstr::Stmt(stmt) => {
                return this.lower_stmt(&stmt.syntax, &stmt.expressions, fuel);
            },
            HirInstr::Try { stmt, loop_targets } => {
                return this.emit_try(&stmt.syntax, loop_targets, fuel);
            },
            HirInstr::Drop(var) => {
                let instr2 = MirInstr::DropVar { var: *var };
                proof { unfold_mir_instr(instr2); }
                return this.emit(instr2);
            },
            HirInstr::GetIter { iter, protocol } => {
                let instr3 = MirInstr::GetIter {
                    iter: *iter,
                    mode: protocol.mode,
                    prepare: clone_string_list(&protocol.prepare),
                };
                proof { unfold_mir_instr(instr3); }
                return this.emit(instr3);
            },
            HirInstr::HasNext { iter, dest, method } => {
                return this.has_next(*iter, *dest, method);
            },
            HirInstr::Next { iter, dest, method } => {
                return this.next(*iter, *dest, method);
            },
        }
    }

    /// See [`lowered_eval`].
    pub fn eval(self, value: &HirExpr) -> (r: Flatten)
        ensures
            r@ == lowered_eval(self@, value@),
    {
        proof { reveal(lowered_eval); }
        let mut this = self;
        let (next, _) = this.expr(&value.syntax, Some(value));
        this = next;
        return this;
    }

    /// See [`lowered_has_next`].
    pub fn has_next(self, iter: u32, dest: u32, method: &Option<String>) -> (r: Flatten)
        ensures
            r@ == lowered_has_next(self@, iter, dest, opt_view(*method)),
    {
        proof { reveal(lowered_has_next); }
        let mut this = self;
        let (next, reg) = this.fresh((0, 0), &None, None);
        this = next;
        let instr = MirInstr::HasNext {
            dest: reg,
            iter,
            method: (match method { Some(y) => Some(y.clone()), None => None }),
        };
        proof { unfold_mir_instr(instr); }
        this = this.emit(instr);
        return this.define(dest, reg, None);
    }

    /// See [`lowered_next`].
    pub fn next(self, iter: u32, dest: u32, method: &Option<String>) -> (r: Flatten)
        ensures
            r@ == lowered_next(self@, iter, dest, opt_view(*method)),
    {
        proof { reveal(lowered_next); }
        let mut this = self;
        let (next, reg) = this.fresh((0, 0), &None, Some(iter));
        this = next;
        let instr = MirInstr::Next {
            dest: reg,
            iter,
            method: (match method { Some(y) => Some(y.clone()), None => None }),
        };
        proof { unfold_mir_instr(instr); }
        this = this.emit(instr);
        return this.define(dest, reg, None);
    }

    /// See [`lowered_instrs`].
    pub fn lower_instrs(self, instrs: &Vec<HirInstr>, fuel: u32) -> (r: Flatten)
        ensures
            r@ == lowered_instrs(self@, hir_instr_list_view(instrs@), fuel, 0),
        decreases fuel, 5nat, 0nat,
    {
        let mut this = self;
        let ghost goal = lowered_instrs(self@, hir_instr_list_view(instrs@), fuel, 0);
        let mut i: usize = 0;
        while i < instrs.len()
            invariant
                i <= instrs@.len(),
                hir_instr_list_view(instrs@).len() == instrs@.len(),
                lowered_instrs(this@, hir_instr_list_view(instrs@), fuel, i as nat) == goal,
                goal == lowered_instrs(self@, hir_instr_list_view(instrs@), fuel, 0),
            decreases instrs@.len() - i,
        {
            let instr = &instrs[i];
            assert(hir_instr_list_view(instrs@)[i as int] == instr@);
            this = this.lower_instr(instr, fuel);
            i = i + 1;
        }
        this
    }

    /// See [`lowered_blocks`].
    pub fn lower_blocks(self, blocks: &Vec<BasicBlock>, fuel: u32) -> (r: Flatten)
        ensures
            r@ == lowered_blocks(self@, basic_block_list_view(blocks@), fuel, 0, 0),
        decreases fuel, 6nat, 0nat,
    {
        let mut this = self;
        let mut k: usize = 0;
        let ghost goal = lowered_blocks(self@, basic_block_list_view(blocks@), fuel, 0, 0);
        let mut i: usize = 0;
        while i < blocks.len()
            invariant
                i <= blocks@.len(),
                basic_block_list_view(blocks@).len() == blocks@.len(),
                lowered_blocks(this@, basic_block_list_view(blocks@), fuel, i as nat, k) == goal,
                goal == lowered_blocks(self@, basic_block_list_view(blocks@), fuel, 0, 0),
            decreases blocks@.len() - i,
        {
            let block = &blocks[i];
            assert(basic_block_list_view(blocks@)[i as int] == block@);
            this = this.goto(k);
            this = this.lower_instrs(&block.instrs, fuel);
            let (next, term) = this.lower_term(&block.term);
            this = next;
            this = this.end(term);
            k = next_index(k);
            i = i + 1;
        }
        this
    }
}

} // verus!
