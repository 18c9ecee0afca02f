//! Lowering of statements into a control-flow graph.

use crate::ast::{
    Expr, ExprKind, ExprKindView, ExprView, InfixOp, KwArg, KwArgView, ParamArg, ParamArgView,
    Stmt, StmtKind, StmtKindView, StmtView, branch_list_view, clone_stmt, expr_list_view,
    kw_arg_list_view, param_arg_list_view, stmt_list_view, unfold_expr_kind, unfold_stmt_kind,
};
use crate::checked::{
    CheckedExpr, CheckedExprView, IterationMode, IterationProtocol, IterationProtocolView,
    SemanticAdjustment, SemanticAdjustmentView, checked_expr_list_view, clone_iteration_protocol,
    find_checked, node_by_id, semantic_adjustment_list_view, unfold_iteration_protocol,
};
use crate::facts::{
    chosen_protocol, expr_at, hir_expr, hir_of, hir_of_stmt, hir_stmt, ident, iterate_protocol,
    made_expr, made_ident, unchecked, unchecked_expr,
};
use crate::graph::{
    BlockGraph, BlockGraphView, block_fits, block_graph_view, edge_fits, with_block, with_edge,
};
use crate::hir::{
    BasicBlock, BasicBlockView, HirExpr, HirExprView, HirInstr, HirInstrView, HirStmt, HirStmtView,
    Terminator, TerminatorView, basic_block_list_view, hir_instr_list_view, unfold_basic_block,
};
use crate::scopes::{
    declared_in, find_slot, is_declared, renaming_list_view, resolve_name, runtime_name,
    scope_list_view, slot_of, with_entry,
};
use crate::text::{
    cat2, cat3, contains_name, decimal, opt_view, same_string, show_usize, string_list_view,
};
use crate::types::{Ty, TyView, clone_ty};
use vstd::prelude::*;

verus! {

/// The targets of `break` and `continue` in one enclosing loop. A loop of the
/// enclosing function is left by an escape.
#[derive(Debug, Clone, Copy, PartialEq, Eq, Structural)]
pub struct LoopFrame {
    pub header: usize,
    pub exit: usize,
    pub escape: bool,
}

/// The lowering cursor: it appends to the current block and splits at control
/// flow. A block gets its terminator once.
#[derive(Debug)]
pub struct Lower {
    pub g: BlockGraph,
    pub blocks: Vec<BasicBlock>,
    pub cur: usize,
    /// Enclosing loops, innermost last.
    pub loops: Vec<LoopFrame>,
    /// A name's first appearance assigns its slot.
    pub vars: Vec<String>,
    /// Source name to runtime name, innermost scope last.
    pub scopes: Vec<Vec<(String, String)>>,
    pub captures: Vec<String>,
    /// Whether this is a function body and not a region.
    pub is_function: bool,
    pub checked: Vec<CheckedExpr>,
    /// Whether all blocks and edges found room.
    pub complete: bool,
}

/// What a [`Lower`] holds.
pub struct LowerView {
    pub g: BlockGraphView,
    pub blocks: Seq<BasicBlockView>,
    pub cur: usize,
    pub loops: Seq<LoopFrame>,
    pub vars: Seq<Seq<char>>,
    pub scopes: Seq<Seq<(Seq<char>, Seq<char>)>>,
    pub captures: Seq<Seq<char>>,
    pub is_function: bool,
    pub checked: Seq<CheckedExprView>,
    pub complete: bool,
}

pub open spec fn lower_view(x: Lower) -> LowerView
    decreases x,
{
    LowerView {
        g: block_graph_view(x.g),
        blocks: basic_block_list_view(x.blocks@),
        cur: x.cur,
        loops: x.loops@,
        vars: string_list_view(x.vars@),
        scopes: scope_list_view(x.scopes@),
        captures: string_list_view(x.captures@),
        is_function: x.is_function,
        checked: checked_expr_list_view(x.checked@),
        complete: x.complete,
    }
}

impl View for Lower {
    type V = LowerView;

    open spec fn view(&self) -> LowerView {
        lower_view(*self)
    }
}

pub proof fn unfold_lower(x: Lower)
    ensures
        lower_view(x) == (LowerView { g: block_graph_view(x.g), blocks: basic_block_list_view(x.blocks@), cur: x.cur, loops: x.loops@, vars: string_list_view(x.vars@), scopes: scope_list_view(x.scopes@), captures: string_list_view(x.captures@), is_function: x.is_function, checked: checked_expr_list_view(x.checked@), complete: x.complete }),
{
        assert(lower_view(x).blocks =~= basic_block_list_view(x.blocks@));
        assert(lower_view(x).vars =~= string_list_view(x.vars@));
        assert(lower_view(x).scopes =~= scope_list_view(x.scopes@));
        assert(lower_view(x).captures =~= string_list_view(x.captures@));
        assert(lower_view(x).checked =~= checked_expr_list_view(x.checked@));
}

/// A block without instructions and terminator.
pub open spec fn empty_block() -> BasicBlockView {
    BasicBlockView { instrs: Seq::empty(), term: None }
}

/// A new block.
#[verifier::opaque]
pub open spec fn new_block(s: LowerView) -> (LowerView, usize) {
    (
        LowerView {
            g: with_block(s.g),
            blocks: s.blocks.push(empty_block()),
            complete: s.complete && block_fits(s.g),
            ..s
        },
        s.blocks.len() as usize,
    )
}

/// Whether the current block can still be extended.
pub open spec fn unsealed(s: LowerView) -> bool {
    s.cur < s.blocks.len() && s.blocks[s.cur as int].term is None
}

/// Append an instruction to the current block. What follows a terminator is
/// dropped.
#[verifier::opaque]
pub open spec fn push_instr(s: LowerView, instr: HirInstrView) -> LowerView {
    if unsealed(s) {
        let block = s.blocks[s.cur as int];
        LowerView {
            blocks: s.blocks.update(
                s.cur as int,
                BasicBlockView { instrs: block.instrs.push(instr), term: None },
            ),
            ..s
        }
    } else {
        s
    }
}

/// Connect the current block to another.
#[verifier::opaque]
pub open spec fn connect_to(s: LowerView, to: usize) -> LowerView {
    LowerView {
        g: with_edge(s.g, s.cur, to),
        complete: s.complete && edge_fits(s.g, s.cur, to),
        ..s
    }
}

/// The edges a terminator implies. A return, the end of a region and an escape
/// leave the graph.
#[verifier::opaque]
pub open spec fn connect_targets(s: LowerView, term: TerminatorView) -> LowerView {
    match term {
        TerminatorView::Jump(to) => connect_to(s, to),
        TerminatorView::Branch { then_b, else_b, .. } => connect_to(connect_to(s, then_b), else_b),
        _ => s,
    }
}

/// Give the current block its terminator and its edges. A sealed block stays as
/// it is.
#[verifier::opaque]
pub open spec fn seal_block(s: LowerView, term: TerminatorView) -> LowerView {
    if unsealed(s) {
        let t = connect_targets(s, term);
        let block = t.blocks[t.cur as int];
        LowerView {
            blocks: t.blocks.update(
                t.cur as int,
                BasicBlockView { instrs: block.instrs, term: Some(term) },
            ),
            ..t
        }
    } else {
        s
    }
}

/// The slot of a name, which is added when it is new.
#[verifier::opaque]
pub open spec fn intern(s: LowerView, name: Seq<char>) -> (LowerView, u32) {
    match slot_of(s.vars, name, 0) {
        Some(i) => (s, i as u32),
        None => (LowerView { vars: s.vars.push(name), ..s }, s.vars.len() as u32),
    }
}

/// Whether a scope around the innermost declares a name.
#[verifier::opaque]
pub open spec fn shadows(s: LowerView, name: Seq<char>) -> bool {
    s.scopes.len() > 0 && declared_in(s.scopes, name, (s.scopes.len() - 1) as nat)
}

/// Whether any scope declares a name.
#[verifier::opaque]
pub open spec fn visible(s: LowerView, name: Seq<char>) -> bool {
    declared_in(s.scopes, name, s.scopes.len())
}

/// Name a variable in the innermost scope.
#[verifier::opaque]
pub open spec fn name_in_scope(s: LowerView, name: Seq<char>, runtime: Seq<char>) -> LowerView {
    LowerView { scopes: with_entry(s.scopes, name, runtime), ..s }
}

#[verifier::opaque]
pub open spec fn enter_scope(s: LowerView) -> LowerView {
    LowerView { scopes: s.scopes.push(Seq::empty()), ..s }
}

#[verifier::opaque]
pub open spec fn leave_scope(s: LowerView) -> LowerView {
    if s.scopes.len() == 0 {
        s
    } else {
        LowerView { scopes: s.scopes.drop_last(), ..s }
    }
}

#[verifier::opaque]
pub open spec fn leave_loop(s: LowerView) -> LowerView {
    if s.loops.len() == 0 {
        s
    } else {
        LowerView { loops: s.loops.drop_last(), ..s }
    }
}

/// The names without one of them.
#[verifier::opaque]
pub open spec fn without_name(names: Seq<Seq<char>>, name: Seq<char>) -> Seq<Seq<char>>
    decreases names.len(),
{
    if names.len() == 0 {
        Seq::empty()
    } else if names.last() == name {
        without_name(names.drop_last(), name)
    } else {
        without_name(names.drop_last(), name).push(names.last())
    }
}

/// Take a name from the captures; whether it was one.
#[verifier::opaque]
pub open spec fn take_captured(s: LowerView, name: Seq<char>) -> (LowerView, bool) {
    (
        LowerView { captures: without_name(s.captures, name), ..s },
        s.captures.contains(name),
    )
}

/// The name of a slot.
#[verifier::opaque]
pub open spec fn slot_name(s: LowerView, slot: u32) -> Seq<char> {
    if slot < s.vars.len() {
        s.vars[slot as int]
    } else {
        Seq::empty()
    }
}

impl Lower {
    /// See [`new_block`].
    pub fn new_block(self) -> (r: (Lower, usize))
        ensures
            r.0@ == new_block(self@).0,
            r.1 == new_block(self@).1,
    {
        proof {
            reveal(new_block);
        }
        let mut this = self;
        let id: usize = this.blocks.len();
        let fits = this.g.add_block();
        this.complete = this.complete && fits;
        let block = BasicBlock { instrs: Vec::new(), term: None };
        proof {
            unfold_basic_block(block);
        }
        assert(hir_instr_list_view(block.instrs@) =~= Seq::<HirInstrView>::empty());
        assert(block@ == empty_block());
        let ghost before = basic_block_list_view(this.blocks@);
        this.blocks.push(block);
        assert(basic_block_list_view(this.blocks@) =~= before.push(empty_block()));
        (this, id)
    }

    /// See [`push_instr`].
    pub fn push(self, instr: HirInstr) -> (r: Lower)
        ensures
            r@ == push_instr(self@, instr@),
    {
        proof {
            reveal(push_instr);
        }
        let mut this = self;
        let cur: usize = this.cur;
        if cur < this.blocks.len() && this.blocks[cur].term.is_none() {
            let ghost before = basic_block_list_view(this.blocks@);
            let ghost block = this.blocks@[cur as int];
            proof {
                unfold_basic_block(block);
            }
            let ghost added = instr@;
            let ghost instrs = hir_instr_list_view(block.instrs@);
            this.blocks[cur].instrs.push(instr);
            let ghost now = this.blocks@[cur as int];
            proof {
                unfold_basic_block(now);
            }
            assert(hir_instr_list_view(now.instrs@) =~= instrs.push(added));
            assert(basic_block_list_view(this.blocks@) =~= before.update(cur as int, now@));
        }
        this
    }

    /// See [`seal_block`].
    pub fn seal(self, term: Terminator) -> (r: Lower)
        ensures
            r@ == seal_block(self@, term@),
    {
        proof {
            reveal(seal_block);
            reveal(connect_targets);
            reveal(connect_to);
        }
        let mut this = self;
        let cur: usize = this.cur;
        if cur < this.blocks.len() && this.blocks[cur].term.is_none() {
            match &term {
                Terminator::Jump(to) => {
                    let fits = this.g.connect(cur, *to);
                    this.complete = this.complete && fits;
                },
                Terminator::Branch { then_b, else_b, .. } => {
                    let fits = this.g.connect(cur, *then_b);
                    this.complete = this.complete && fits;
                    let fits = this.g.connect(cur, *else_b);
                    this.complete = this.complete && fits;
                },
                Terminator::Return(_) | Terminator::FallOff | Terminator::EscapeJump(_) => {},
            }
            let ghost before = basic_block_list_view(this.blocks@);
            let ghost block = this.blocks@[cur as int];
            proof {
                unfold_basic_block(block);
            }
            let ghost added = term@;
            this.blocks[cur].term = Some(term);
            let ghost now = this.blocks@[cur as int];
            proof {
                unfold_basic_block(now);
            }
            assert(basic_block_list_view(this.blocks@) =~= before.update(cur as int, now@));
        }
        this
    }

    /// See [`intern`].
    pub fn var(self, name: &String) -> (r: (Lower, u32))
        ensures
            r.0@ == intern(self@, name@).0,
            r.1 == intern(self@, name@).1,
    {
        proof {
            reveal(intern);
        }
        let mut this = self;
        match find_slot(&this.vars, name) {
            Some(i) => (this, i as u32),
            None => {
                let i: usize = this.vars.len();
                let ghost before = string_list_view(this.vars@);
                this.vars.push(name.clone());
                assert(string_list_view(this.vars@) =~= before.push(name@));
                (this, i as u32)
            },
        }
    }

    /// See [`shadows`].
    pub fn shadows(&self, name: &String) -> (r: bool)
        ensures
            r == shadows(self@, name@),
    {
        proof {
            reveal(shadows);
        }
        self.scopes.len() > 0 && is_declared(&self.scopes, name, self.scopes.len() - 1)
    }

    /// See [`visible`].
    pub fn visible(&self, name: &String) -> (r: bool)
        ensures
            r == visible(self@, name@),
    {
        proof {
            reveal(visible);
        }
        is_declared(&self.scopes, name, self.scopes.len())
    }

    /// See [`name_in_scope`].
    pub fn name_in_scope(self, name: &String, runtime: &String) -> (r: Lower)
        ensures
            r@ == name_in_scope(self@, name@, runtime@),
    {
        proof {
            reveal(name_in_scope);
        }
        let mut this = self;
        let n: usize = this.scopes.len();
        if n > 0 {
            let ghost before = scope_list_view(this.scopes@);
            let ghost scope = renaming_list_view(this.scopes@[n - 1]@);
            let entry = (name.clone(), runtime.clone());
            let ghost added = (name@, runtime@);
            this.scopes[n - 1].push(entry);
            assert(renaming_list_view(this.scopes@[n - 1]@) =~= scope.push(added));
            assert(scope_list_view(this.scopes@) =~= before.drop_last().push(
                before.last().push(added),
            ));
        }
        this
    }

    /// See [`enter_scope`].
    pub fn enter_scope(self) -> (r: Lower)
        ensures
            r@ == enter_scope(self@),
    {
        proof {
            reveal(enter_scope);
        }
        let mut this = self;
        let ghost before = scope_list_view(this.scopes@);
        let scope: Vec<(String, String)> = Vec::new();
        assert(renaming_list_view(scope@) =~= Seq::<(Seq<char>, Seq<char>)>::empty());
        this.scopes.push(scope);
        assert(scope_list_view(this.scopes@) =~= before.push(Seq::empty()));
        this
    }

    /// See [`leave_scope`].
    pub fn leave_scope(self) -> (r: Lower)
        ensures
            r@ == leave_scope(self@),
    {
        proof {
            reveal(leave_scope);
        }
        let mut this = self;
        let ghost before = scope_list_view(this.scopes@);
        if this.scopes.len() > 0 {
            let _ = this.scopes.pop();
            assert(scope_list_view(this.scopes@) =~= before.drop_last());
        }
        this
    }

    /// See [`leave_loop`].
    pub fn leave_loop(self) -> (r: Lower)
        ensures
            r@ == leave_loop(self@),
    {
        proof {
            reveal(leave_loop);
        }
        let mut this = self;
        if this.loops.len() > 0 {
            let _ = this.loops.pop();
        }
        this
    }

    /// See [`take_captured`].
    pub fn take_captured(self, name: &String) -> (r: (Lower, bool))
        ensures
            r.0@ == take_captured(self@, name@).0,
            r.1 == take_captured(self@, name@).1,
    {
        proof {
            reveal(take_captured);
            reveal(without_name);
        }
        let mut this = self;
        let found = contains_name(&this.captures, name);
        let ghost all = string_list_view(this.captures@);
        let mut kept: Vec<String> = Vec::new();
        assert(string_list_view(kept@) =~= Seq::<Seq<char>>::empty());
        for i in 0..this.captures.len()
            invariant
                all == string_list_view(this.captures@),
                string_list_view(kept@) == without_name(all.take(i as int), name@),
        {
            proof {
                reveal(without_name);
            }
            assert(all.take(i + 1).last() == all[i as int]);
            assert(all.take(i + 1).drop_last() =~= all.take(i as int));
            if !same_string(&this.captures[i], name) {
                let ghost before = string_list_view(kept@);
                kept.push(this.captures[i].clone());
                assert(string_list_view(kept@) =~= before.push(all[i as int]));
            }
        }
        assert(all.take(all.len() as int) =~= all);
        this.captures = kept;
        (this, found)
    }

    /// See [`slot_name`].
    pub fn slot_name(&self, slot: u32) -> (r: String)
        ensures
            r@ == slot_name(self@, slot),
    {
        proof {
            reveal(slot_name);
        }
        if (slot as usize) < self.vars.len() {
            self.vars[slot as usize].clone()
        } else {
            let s = "".to_owned();
            proof {
                reveal_strlit("");
            }
            assert(s@ =~= Seq::<char>::empty());
            s
        }
    }
}


/// The headers and exits of loops.
pub open spec fn targets_of_loops(
    loops: Seq<LoopFrame>,
    i: nat,
    out: Seq<(usize, usize)>,
) -> Seq<(usize, usize)>
    decreases loops, (loops.len() - i) as nat,
{
    if i >= loops.len() {
        out
    } else {
        let frame = loops[i as int];
        let out = out.push((frame.header, frame.exit));
        targets_of_loops(loops, i + 1, out)
    }
}

/// See [`targets_of_loops`].
pub fn loop_targets(loops: &Vec<LoopFrame>) -> (r: Vec<(usize, usize)>)
    ensures
        r@ == targets_of_loops(loops@, 0, Seq::<(usize, usize)>::empty()),
    decreases loops@, 0nat,
{
    let mut out: Vec<(usize, usize)> = Vec::new();
    let ghost goal = targets_of_loops(loops@, 0, Seq::<(usize, usize)>::empty());
    let mut i: usize = 0;
    while i < loops.len()
        invariant
            i <= loops@.len(),
            targets_of_loops(loops@, i as nat, out@) == goal,
            goal == targets_of_loops(loops@, 0, Seq::<(usize, usize)>::empty()),
        decreases loops@.len() - i,
    {
        let frame = &loops[i];
        out.push((frame.header, frame.exit));
        i = i + 1;
    }
    out
}

/// Whether every loop belongs to the enclosing function.
pub open spec fn all_loops_escape(loops: Seq<LoopFrame>, i: nat) -> bool
    decreases loops, (loops.len() - i) as nat,
{
    if i >= loops.len() {
        true
    } else {
        let frame = loops[i as int];
        if !frame.escape {
            false
        } else {
            all_loops_escape(loops, i + 1)
        }
    }
}

/// See [`all_loops_escape`].
pub fn all_escape(loops: &Vec<LoopFrame>) -> (r: bool)
    ensures
        r == all_loops_escape(loops@, 0),
    decreases loops@, 0nat,
{
    let ghost goal = all_loops_escape(loops@, 0);
    let mut i: usize = 0;
    while i < loops.len()
        invariant
            i <= loops@.len(),
            all_loops_escape(loops@, i as nat) == goal,
            goal == all_loops_escape(loops@, 0),
        decreases loops@.len() - i,
    {
        let frame = &loops[i];
        if !frame.escape {
            return false;
        }
        i = i + 1;
    }
    true
}

#[verifier::opaque]
pub open spec fn lowered_expr(s: LowerView, e: ExprView) -> HirExprView {
    hir_of(s.checked, s.scopes, e)
}

#[verifier::opaque]
pub open spec fn lowered_statement(s: LowerView, syntax: StmtView) -> HirStmtView {
    hir_of_stmt(s.checked, s.scopes, syntax)
}

/// Declare a variable in the innermost scope. One that an outer scope
/// declares too gets a runtime name of its own.
#[verifier::opaque]
pub open spec fn declare(s: LowerView, name: Seq<char>) -> (LowerView, u32) {
    let runtime = if shadows(s, name) {
        let count = s.vars.len() as usize;
        name + "$shadow"@ + decimal(count as nat)
    } else {
        name
    };
    let s = if s.scopes.len() == 0 {
        let s = enter_scope(s);
        s
    } else {
        s
    };
    let s = name_in_scope(s, name, runtime);
    intern(s, runtime)
}

#[verifier::opaque]
pub open spec fn fresh_name(s: LowerView, prefix: Seq<char>) -> Seq<char> {
    let count = s.vars.len() as usize;
    prefix + decimal(count as nat)
}

/// A reference declaration, kept as a statement under its runtime name.
#[verifier::opaque]
pub open spec fn lower_ref_decl(
    s: LowerView,
    stmt: StmtView,
    name: Seq<char>,
    value: ExprView,
) -> LowerView {
    let value = lowered_expr(s, value);
    let (s, runtime) = declare(s, name);
    let syntax = StmtView {
        kind: StmtKindView::RefDecl { name: slot_name(s, runtime), value: value.syntax },
        span: stmt.span,
        module: stmt.module,
    };
    let statement = lowered_statement(s, syntax);
    let s = push_instr(s, HirInstrView::Stmt(statement));
    s
}

#[verifier::opaque]
pub open spec fn lower_opaque(s: LowerView, stmt: StmtView) -> LowerView {
    let statement = lowered_statement(s, stmt);
    let s = push_instr(s, HirInstrView::Stmt(statement));
    s
}

/// Leave the innermost loop, or go to its next round. Outside a loop the
/// statement is kept.
#[verifier::opaque]
pub open spec fn lower_jump(s: LowerView, stmt: StmtView, to_header: bool) -> LowerView {
    if s.loops.len() == 0 {
        let s = lower_opaque(s, stmt);
        s
    } else {
        let frame = s.loops[(s.loops.len() - 1) as usize as int];
        let target = if to_header {
            frame.header
        } else {
            frame.exit
        };
        let term = if frame.escape {
            TerminatorView::EscapeJump(target)
        } else {
            TerminatorView::Jump(target)
        };
        let s = seal_block(s, term);
        s
    }
}

/// A body in a scope of its own.
pub open spec fn lower_scoped(s: LowerView, body: Seq<StmtView>) -> LowerView
    decreases body, body.len() + 1,
{
    let s = enter_scope(s);
    let s = lower_block(s, body, 0);
    let s = leave_scope(s);
    s
}

pub open spec fn lower_block(s: LowerView, body: Seq<StmtView>, i: nat) -> LowerView
    decreases body, (body.len() - i) as nat,
{
    if i >= body.len() {
        s
    } else {
        let stmt = body[i as int];
        let s = lower_stmt(s, stmt);
        lower_block(s, body, i + 1)
    }
}

/// The branches of an `if`. Each condition that fails leads to the block of
/// the next.
pub open spec fn lower_branches(
    s: LowerView,
    branches: Seq<(ExprView, Seq<StmtView>)>,
    join: usize,
    i: nat,
) -> LowerView
    decreases branches, (branches.len() - i) as nat,
{
    if i >= branches.len() {
        s
    } else {
        let branch = branches[i as int];
        let (s, then_b) = new_block(s);
        let (s, else_b) = new_block(s);
        let cond = lowered_expr(s, branch.0);
        let s = seal_block(s, TerminatorView::Branch { cond, then_b, else_b });
        let s = LowerView { cur: then_b, ..s };
        let s = lower_scoped(s, branch.1);
        let s = seal_block(s, TerminatorView::Jump(join));
        let s = LowerView { cur: else_b, ..s };
        lower_branches(s, branches, join, i + 1)
    }
}

pub open spec fn lower_opt_scoped(s: LowerView, body: Option<Seq<StmtView>>) -> LowerView
    decreases body, 0nat,
{
    match body {
        Some(body) => {
            let s = lower_scoped(s, body);
            s
        },
        None => s,
    }
}

/// The `else` of a loop: it runs when the loop ends without `break`.
pub open spec fn lower_loop_else(
    s: LowerView,
    orelse: Option<Seq<StmtView>>,
    normal_exit: usize,
    exit: usize,
) -> LowerView
    decreases orelse, 0nat,
{
    match orelse {
        Some(body) => {
            let s = LowerView { cur: normal_exit, ..s };
            let s = lower_scoped(s, body);
            let s = seal_block(s, TerminatorView::Jump(exit));
            s
        },
        None => s,
    }
}

/// The body of a loop and the way back to its header.
pub open spec fn lower_loop_body(
    s: LowerView,
    body: Seq<StmtView>,
    header: usize,
    exit: usize,
) -> LowerView
    decreases body, body.len() + 1,
{
    let s = LowerView { loops: s.loops.push(LoopFrame { header, exit, escape: false }), ..s };
    let s = lower_block(s, body, 0);
    let s = leave_loop(s);
    s
}

/// A `while` loop: a header that tests, a body, an exit.
pub open spec fn lower_while(s: LowerView, stmt: StmtView) -> LowerView
    decreases stmt, 1nat,
{
    match stmt.kind {
        StmtKindView::While { cond, body, orelse } => {
            let (s, header) = new_block(s);
            let (s, body_b) = new_block(s);
            let (s, exit) = new_block(s);
            let (s, normal_exit) = if orelse is Some {
                new_block(s)
            } else {
                (s, exit)
            };
            let s = seal_block(s, TerminatorView::Jump(header));
            let s = LowerView { cur: header, ..s };
            let cond = lowered_expr(s, cond);
            let s = seal_block(
                s,
                TerminatorView::Branch { cond, then_b: body_b, else_b: normal_exit },
            );
            let s = LowerView { cur: body_b, ..s };
            let s = lower_loop_body(s, body, header, exit);
            let s = seal_block(s, TerminatorView::Jump(header));
            let s = lower_loop_else(s, orelse, normal_exit, exit);
            let s = LowerView { cur: exit, ..s };
            s
        },
        _ => s,
    }
}

/// A `for` loop over an iterator: the iterable is evaluated once, the header
/// asks for another element, the body binds it.
pub open spec fn lower_for(s: LowerView, stmt: StmtView) -> LowerView
    decreases stmt, 1nat,
{
    match stmt.kind {
        StmtKindView::For { var, owned, iter, body, orelse, .. } => {
            let it_name = fresh_name(s, "$iter"@);
            let (s, it_var) = intern(s, it_name);
            let checked_iter = lowered_expr(s, iter);
            let protocol = protocol_of(checked_iter.adjustments, owned);
            let s = push_instr(
                s,
                HirInstrView::Bind { dest: it_var, expr: checked_iter, binding_ty: None },
            );
            let s = push_instr(s, HirInstrView::GetIter { iter: it_var, protocol });
            let (s, header) = new_block(s);
            let (s, body_b) = new_block(s);
            let (s, exit) = new_block(s);
            let (s, normal_exit) = if orelse is Some {
                new_block(s)
            } else {
                (s, exit)
            };
            let s = seal_block(s, TerminatorView::Jump(header));
            let s = LowerView { cur: header, ..s };
            let hn_name = fresh_name(s, "$hasnext"@);
            let (s, hn_var) = intern(s, hn_name);
            let s = push_instr(
                s,
                HirInstrView::HasNext { iter: it_var, dest: hn_var, method: protocol.has_next },
            );
            let more = unchecked_expr(made_ident(hn_name));
            let s = seal_block(
                s,
                TerminatorView::Branch { cond: more, then_b: body_b, else_b: normal_exit },
            );
            let s = LowerView { cur: body_b, ..s };
            let (s, element) = intern(s, var);
            let s = push_instr(
                s,
                HirInstrView::Next { iter: it_var, dest: element, method: protocol.next },
            );
            let s = lower_loop_body(s, body, header, exit);
            let s = seal_block(s, TerminatorView::Jump(header));
            let s = lower_loop_else(s, orelse, normal_exit, exit);
            let s = LowerView { cur: exit, ..s };
            s
        },
        _ => s,
    }
}

/// A `for` loop by reference: a counter runs over the indices of a variable,
/// and the loop variable refers to the element.
pub open spec fn lower_ref_for(s: LowerView, stmt: StmtView, source: Seq<char>) -> LowerView
    decreases stmt, 1nat,
{
    match stmt.kind {
        StmtKindView::For { var, body, orelse, .. } => {
            let index_name = fresh_name(s, "$refindex"@);
            let (s, index_var) = intern(s, index_name);
            let zero = unchecked_expr(made_expr(ExprKindView::Int(0), (0, 0)));
            let s = push_instr(
                s,
                HirInstrView::Bind { dest: index_var, expr: zero, binding_ty: None },
            );
            let (s, header) = new_block(s);
            let (s, body_b) = new_block(s);
            let (s, exit) = new_block(s);
            let (s, normal_exit) = if orelse is Some {
                new_block(s)
            } else {
                (s, exit)
            };
            let s = seal_block(s, TerminatorView::Jump(header));
            let s = LowerView { cur: header, ..s };
            let below = unchecked_expr(below_length(index_name, source));
            let s = seal_block(
                s,
                TerminatorView::Branch { cond: below, then_b: body_b, else_b: normal_exit },
            );
            let s = LowerView { cur: body_b, ..s };
            let target = element_at(source, index_name);
            let unnamed = StmtView { kind: StmtKindView::Pass, span: stmt.span, module: None };
            let s = lower_ref_decl(s, unnamed, var, target);
            let s = lower_loop_body(s, body, header, exit);
            let next = unchecked_expr(successor(index_name));
            let s = push_instr(
                s,
                HirInstrView::Bind { dest: index_var, expr: next, binding_ty: None },
            );
            let s = seal_block(s, TerminatorView::Jump(header));
            let s = lower_loop_else(s, orelse, normal_exit, exit);
            let s = LowerView { cur: exit, ..s };
            s
        },
        _ => s,
    }
}

/// Lower one statement into the current block, splitting it at control flow.
pub open spec fn lower_stmt(s: LowerView, stmt: StmtView) -> LowerView
    decreases stmt, 2nat,
{
    match stmt.kind {
        StmtKindView::If { branches, orelse } => {
            let (s, join) = new_block(s);
            let s = lower_branches(s, branches, join, 0);
            let s = lower_opt_scoped(s, orelse);
            let s = seal_block(s, TerminatorView::Jump(join));
            let s = LowerView { cur: join, ..s };
            s
        },
        StmtKindView::While { .. } => {
            let s = lower_while(s, stmt);
            s
        },
        StmtKindView::For { reference, iter, .. } => if reference {
            match iter.kind {
                ExprKindView::Identifier(source) => {
                    let s = lower_ref_for(s, stmt, source);
                    s
                },
                _ => {
                    let pass = StmtView { kind: StmtKindView::Pass, span: stmt.span, module: None };
                    let s = lower_opaque(s, pass);
                    s
                },
            }
        } else {
            let s = lower_for(s, stmt);
            s
        },
        StmtKindView::Break => {
            let s = lower_jump(s, stmt, false);
            s
        },
        StmtKindView::Continue => {
            let s = lower_jump(s, stmt, true);
            s
        },
        StmtKindView::Return(value) => {
            let value = lowered_opt_expr(s, value);
            let s = seal_block(s, TerminatorView::Return(value));
            s
        },
        StmtKindView::VarDecl { name, value, .. } => {
            let value = lowered_expr(s, value);
            let (s, slot) = declare(s, name);
            let binding_ty = binding_ty_of(s.checked, value);
            let s = push_instr(s, HirInstrView::Bind { dest: slot, expr: value, binding_ty });
            s
        },
        StmtKindView::RefDecl { name, value } => {
            let s = lower_ref_decl(s, stmt, name, value);
            s
        },
        StmtKindView::Assign { name, value } => {
            let value = lowered_expr(s, value);
            let (s, captured) = take_captured(s, name);
            let s = if !visible(s, name) {
                let s = name_in_scope(s, name, name);
                s
            } else {
                s
            };
            let runtime = if captured {
                let count = s.vars.len() as usize;
                name + "$shadow"@ + decimal(count as nat)
            } else {
                runtime_name(s.scopes, name)
            };
            let s = if captured {
                let s = name_in_scope(s, name, runtime);
                s
            } else {
                s
            };
            let (s, slot) = intern(s, runtime);
            let s = push_instr(s, HirInstrView::Bind { dest: slot, expr: value, binding_ty: None });
            s
        },
        StmtKindView::Expr(value) => {
            let value = lowered_expr(s, value);
            let s = push_instr(s, HirInstrView::Eval(value));
            s
        },
        StmtKindView::Try { .. } => if s.is_function || all_loops_escape(s.loops, 0) {
            let targets = targets_of_loops(s.loops, 0, Seq::empty());
            let statement = lowered_statement(s, stmt);
            let s = push_instr(s, HirInstrView::Try { stmt: statement, loop_targets: targets });
            s
        } else {
            let s = lower_opaque(s, stmt);
            s
        },
        _ => {
            let s = lower_opaque(s, stmt);
            s
        },
    }
}

#[verifier::opaque]
pub open spec fn lowered_opt_expr(s: LowerView, value: Option<ExprView>) -> Option<HirExprView> {
    match value {
        Some(value) => Some(lowered_expr(s, value)),
        None => None,
    }
}

impl Lower {
    /// See [`lowered_expr`].
    pub fn expr(&self, e: &Expr) -> (r: HirExpr)
        ensures
            r@ == lowered_expr(self@, e@),
    {
        proof { reveal(lowered_expr); }
        hir_expr(&self.checked, &self.scopes, e)
    }

    /// See [`lowered_statement`].
    pub fn statement(&self, syntax: Stmt) -> (r: HirStmt)
        ensures
            r@ == lowered_statement(self@, syntax@),
    {
        proof { reveal(lowered_statement); }
        hir_stmt(&self.checked, &self.scopes, syntax)
    }

    /// See [`declare`].
    pub fn declare_var(self, name: &String) -> (r: (Lower, u32))
        ensures
            r.0@ == declare(self@, name@).0,
            r.1 == declare(self@, name@).1,
    {
        proof { reveal(declare); }
        let mut this = self;
        let runtime = if this.shadows(name) {
            let count: usize = this.vars.len();
            cat3(name.as_str(), "$shadow", show_usize(count).as_str())
        } else {
            name.clone()
        };
        if this.scopes.len() == 0 {
            this = this.enter_scope();
        }
        this = this.name_in_scope(name, &runtime);
        return this.var(&runtime);
    }

    /// See [`fresh_name`].
    pub fn compiler_name(&self, prefix: &str) -> (r: String)
        ensures
            r@ == fresh_name(self@, prefix@),
    {
        proof { reveal(fresh_name); }
        let count: usize = self.vars.len();
        cat2(prefix, show_usize(count).as_str())
    }

    /// See [`lower_ref_decl`].
    pub fn ref_decl(self, stmt: &Stmt, name: &String, value: &Expr) -> (r: Lower)
        ensures
            r@ == lower_ref_decl(self@, stmt@, name@, value@),
    {
        proof { reveal(lower_ref_decl); }
        let mut this = self;
        let value = this.expr(value);
        let (next, runtime) = this.declare_var(name);
        this = next;
        let kind = StmtKind::RefDecl { name: this.slot_name(runtime), value: value.syntax };
        proof { unfold_stmt_kind(kind); }
        let syntax = Stmt {
            kind,
            span: stmt.span,
            module: (match (&stmt.module) { Some(y) => Some(y.clone()), None => None }),
        };
        let statement = this.statement(syntax);
        return this.push(HirInstr::Stmt(statement));
    }

    /// See [`lower_opaque`].
    pub fn opaque(self, stmt: &Stmt) -> (r: Lower)
        ensures
            r@ == lower_opaque(self@, stmt@),
    {
        proof { reveal(lower_opaque); }
        let mut this = self;
        let statement = this.statement(clone_stmt(stmt));
        return this.push(HirInstr::Stmt(statement));
    }

    /// See [`lower_jump`].
    pub fn jump_out(self, stmt: &Stmt, to_header: bool) -> (r: Lower)
        ensures
            r@ == lower_jump(self@, stmt@, to_header),
    {
        proof { reveal(lower_jump); }
        let mut this = self;
        if this.loops.len() == 0 {
            return this.opaque(stmt);
        } else {
            let frame = this.loops[this.loops.len() - 1];
            let target: usize = if to_header {
                frame.header
            } else {
                frame.exit
            };
            let term = if frame.escape {
                Terminator::EscapeJump(target)
            } else {
                Terminator::Jump(target)
            };
            return this.seal(term);
        }
    }

    /// See [`lower_scoped`].
    pub fn scoped_block(self, body: &Vec<Stmt>) -> (r: Lower)
        ensures
            r@ == lower_scoped(self@, stmt_list_view(body@)),
        decreases body@, 1nat,
    {
        let mut this = self;
        this = this.enter_scope();
        this = this.block(body);
        return this.leave_scope();
    }

    /// See [`lower_block`].
    pub fn block(self, body: &Vec<Stmt>) -> (r: Lower)
        ensures
            r@ == lower_block(self@, stmt_list_view(body@), 0),
        decreases body@, 0nat,
    {
        let mut this = self;
        let ghost goal = lower_block(self@, stmt_list_view(body@), 0);
        let mut i: usize = 0;
        while i < body.len()
            invariant
                i <= body@.len(),
                stmt_list_view(body@).len() == body@.len(),
                lower_block(this@, stmt_list_view(body@), i as nat) == goal,
                goal == lower_block(self@, stmt_list_view(body@), 0),
            decreases body@.len() - i,
        {
            let stmt = &body[i];
            assert(stmt_list_view(body@)[i as int] == stmt@);
            this = this.stmt(stmt);
            i = i + 1;
        }
        this
    }

    /// See [`lower_branches`].
    pub fn branches(self, branches: &Vec<(Expr, Vec<Stmt>)>, join: usize) -> (r: Lower)
        ensures
            r@ == lower_branches(self@, branch_list_view(branches@), join, 0),
        decreases branches@, 0nat,
    {
        let mut this = self;
        let ghost goal = lower_branches(self@, branch_list_view(branches@), join, 0);
        let mut i: usize = 0;
        while i < branches.len()
            invariant
                i <= branches@.len(),
                branch_list_view(branches@).len() == branches@.len(),
                lower_branches(this@, branch_list_view(branches@), join, i as nat) == goal,
                goal == lower_branches(self@, branch_list_view(branches@), join, 0),
            decreases branches@.len() - i,
        {
            let branch = &branches[i];
            assert(branch_list_view(branches@)[i as int].0 =~= branch.0@);
            assert(branch_list_view(branches@)[i as int].1 =~= stmt_list_view(branch.1@));
            let (next, then_b) = this.new_block();
            this = next;
            let (next2, else_b) = this.new_block();
            this = next2;
            let cond = this.expr(&branch.0);
            this = this.seal(Terminator::Branch { cond, then_b, else_b });
            this.cur = then_b;
            this = this.scoped_block(&branch.1);
            this = this.seal(Terminator::Jump(join));
            this.cur = else_b;
            i = i + 1;
        }
        this
    }

    /// See [`lower_opt_scoped`].
    pub fn opt_scoped(self, body: &Option<Vec<Stmt>>) -> (r: Lower)
        ensures
            r@ == lower_opt_scoped(
                self@,
                (match body { Some(v) => Some(stmt_list_view(v@)), None => None }),
            ),
        decreases body, 0nat,
    {
        let mut this = self;
        match body {
            Some(body) => {
                return this.scoped_block(body);
            },
            None => {
                return this;
            },
        }
    }

    /// See [`lower_loop_else`].
    pub fn loop_else(
        self,
        orelse: &Option<Vec<Stmt>>,
        normal_exit: usize,
        exit: usize,
    ) -> (r: Lower)
        ensures
            r@ == lower_loop_else(
                self@,
                (match orelse { Some(v) => Some(stmt_list_view(v@)), None => None }),
                normal_exit,
                exit,
            ),
        decreases orelse, 0nat,
    {
        let mut this = self;
        match orelse {
            Some(body) => {
                this.cur = normal_exit;
                this = this.scoped_block(body);
                return this.seal(Terminator::Jump(exit));
            },
            None => {
                return this;
            },
        }
    }

    /// See [`lower_loop_body`].
    pub fn loop_body(self, body: &Vec<Stmt>, header: usize, exit: usize) -> (r: Lower)
        ensures
            r@ == lower_loop_body(self@, stmt_list_view(body@), header, exit),
        decreases body@, 1nat,
    {
        let mut this = self;
        this.loops.push(LoopFrame { header, exit, escape: false });
        this = this.block(body);
        return this.leave_loop();
    }

    /// See [`lower_while`].
    pub fn while_loop(self, stmt: &Stmt) -> (r: Lower)
        ensures
            r@ == lower_while(self@, stmt@),
        decreases stmt, 1nat,
    {
        let mut this = self;
        proof { unfold_stmt_kind(stmt.kind); }
        match &stmt.kind {
            StmtKind::While { cond, body, orelse } => {
                let (next, header) = this.new_block();
                this = next;
                let (next2, body_b) = this.new_block();
                this = next2;
                let (next3, exit) = this.new_block();
                this = next3;
                let normal_exit: usize = if orelse.is_some() {
                    let (next4, value) = this.new_block();
                    this = next4;
                    value
                } else {
                    exit
                };
                this = this.seal(Terminator::Jump(header));
                this.cur = header;
                let cond = this.expr(cond);
                this = this.seal(Terminator::Branch { cond, then_b: body_b, else_b: normal_exit });
                this.cur = body_b;
                this = this.loop_body(body, header, exit);
                this = this.seal(Terminator::Jump(header));
                this = this.loop_else(orelse, normal_exit, exit);
                this.cur = exit;
                return this;
            },
            _ => {
                assert(!(stmt.kind@ is While));
                return this;
            },
        }
    }

    /// See [`lower_for`].
    #[verifier::rlimit(40)]
    pub fn for_loop(self, stmt: &Stmt) -> (r: Lower)
        ensures
            r@ == lower_for(self@, stmt@),
        decreases stmt, 1nat,
    {
        let mut this = self;
        proof { unfold_stmt_kind(stmt.kind); }
        match &stmt.kind {
            StmtKind::For { var, owned, iter, body, orelse, .. } => {
                let it_name = this.compiler_name("$iter");
                let (next, it_var) = this.var(&it_name);
                this = next;
                let checked_iter = this.expr(iter);
                let protocol = loop_protocol(&checked_iter.adjustments, *owned);
                this = this.push(HirInstr::Bind { dest: it_var, expr: checked_iter, binding_ty: None });
                this = this.push(
                    HirInstr::GetIter { iter: it_var, protocol: clone_iteration_protocol(&protocol) }
                );
                let (next2, header) = this.new_block();
                this = next2;
                let (next3, body_b) = this.new_block();
                this = next3;
                let (next4, exit) = this.new_block();
                this = next4;
                let normal_exit: usize = if orelse.is_some() {
                    let (next5, value) = this.new_block();
                    this = next5;
                    value
                } else {
                    exit
                };
                this = this.seal(Terminator::Jump(header));
                this.cur = header;
                let hn_name = this.compiler_name("$hasnext");
                let (next6, hn_var) = this.var(&hn_name);
                this = next6;
                this = this.push(
                    HirInstr::HasNext {
                        iter: it_var,
                        dest: hn_var,
                        method: (
                            match (&protocol.has_next) { Some(y) => Some(y.clone()), None => None }
                        ),
                    }
                );
                let more = unchecked(ident(&hn_name));
                this = this.seal(
                    Terminator::Branch { cond: more, then_b: body_b, else_b: normal_exit }
                );
                this.cur = body_b;
                let (next7, element) = this.var(var);
                this = next7;
                this = this.push(
                    HirInstr::Next {
                        iter: it_var,
                        dest: element,
                        method: (match (&protocol.next) { Some(y) => Some(y.clone()), None => None }),
                    }
                );
                this = this.loop_body(body, header, exit);
                this = this.seal(Terminator::Jump(header));
                this = this.loop_else(orelse, normal_exit, exit);
                this.cur = exit;
                return this;
            },
            _ => {
                assert(!(stmt.kind@ is For));
                return this;
            },
        }
    }

    /// See [`lower_ref_for`].
    #[verifier::rlimit(40)]
    pub fn ref_for_loop(self, stmt: &Stmt, source: &String) -> (r: Lower)
        ensures
            r@ == lower_ref_for(self@, stmt@, source@),
        decreases stmt, 1nat,
    {
        let mut this = self;
        proof { unfold_stmt_kind(stmt.kind); }
        match &stmt.kind {
            StmtKind::For { var, body, orelse, .. } => {
                let index_name = this.compiler_name("$refindex");
                let (next2, index_var) = this.var(&index_name);
                this = next2;
                let kind = ExprKind::Int(0);
                proof { unfold_expr_kind(kind); }
                let zero = unchecked(expr_at(kind, (0, 0)));
                this = this.push(HirInstr::Bind { dest: index_var, expr: zero, binding_ty: None });
                let (next3, header) = this.new_block();
                this = next3;
                let (next4, body_b) = this.new_block();
                this = next4;
                let (next5, exit) = this.new_block();
                this = next5;
                let normal_exit: usize = if orelse.is_some() {
                    let (next6, value) = this.new_block();
                    this = next6;
                    value
                } else {
                    exit
                };
                this = this.seal(Terminator::Jump(header));
                this.cur = header;
                let below = unchecked(index_below_length(&index_name, source));
                this = this.seal(
                    Terminator::Branch { cond: below, then_b: body_b, else_b: normal_exit }
                );
                this.cur = body_b;
                let target = indexed(source, &index_name);
                let unnamed = Stmt { kind: StmtKind::Pass, span: stmt.span, module: None };
                this = this.ref_decl(&unnamed, var, &target);
                this = this.loop_body(body, header, exit);
                let next = unchecked(plus_one(&index_name));
                this = this.push(HirInstr::Bind { dest: index_var, expr: next, binding_ty: None });
                this = this.seal(Terminator::Jump(header));
                this = this.loop_else(orelse, normal_exit, exit);
                this.cur = exit;
                return this;
            },
            _ => {
                assert(!(stmt.kind@ is For));
                return this;
            },
        }
    }

    /// See [`lower_stmt`].
    #[verifier::rlimit(40)]
    pub fn stmt(self, stmt: &Stmt) -> (r: Lower)
        ensures
            r@ == lower_stmt(self@, stmt@),
        decreases stmt, 2nat,
    {
        let mut this = self;
        proof { unfold_stmt_kind(stmt.kind); }
        match &stmt.kind {
            StmtKind::If { branches, orelse } => {
                let (next, join) = this.new_block();
                this = next;
                this = this.branches(branches, join);
                this = this.opt_scoped(orelse);
                this = this.seal(Terminator::Jump(join));
                this.cur = join;
                return this;
            },
            StmtKind::While { .. } => {
                return this.while_loop(stmt);
            },
            StmtKind::For { reference, iter, .. } => {
                if *reference {
                    proof { unfold_expr_kind(iter.kind); }
                    match &iter.kind {
                        ExprKind::Identifier(source) => {
                            return this.ref_for_loop(stmt, source);
                        },
                        _ => {
                            assert(!(iter.kind@ is Identifier));
                            let pass = Stmt { kind: StmtKind::Pass, span: stmt.span, module: None };
                            return this.opaque(&pass);
                        },
                    }
                } else {
                    return this.for_loop(stmt);
                }
            },
            StmtKind::Break => {
                return this.jump_out(stmt, false);
            },
            StmtKind::Continue => {
                return this.jump_out(stmt, true);
            },
            StmtKind::Return(value) => {
                let value = this.opt_expr(value);
                return this.seal(Terminator::Return(value));
            },
            StmtKind::VarDecl { name, value, .. } => {
                let value = this.expr(value);
                let (next2, slot) = this.declare_var(name);
                this = next2;
                let binding_ty = recorded_binding_ty(&this.checked, &value);
                return this.push(HirInstr::Bind { dest: slot, expr: value, binding_ty });
            },
            StmtKind::RefDecl { name, value } => {
                return this.ref_decl(stmt, name, value);
            },
            StmtKind::Assign { name, value } => {
                let value = this.expr(value);
                let (next3, captured) = this.take_captured(name);
                this = next3;
                if !this.visible(name) {
                    this = this.name_in_scope(name, name);
                }
                let runtime = if captured {
                    let count: usize = this.vars.len();
                    cat3(name.as_str(), "$shadow", show_usize(count).as_str())
                } else {
                    resolve_name(&this.scopes, name)
                };
                if captured {
                    this = this.name_in_scope(name, &runtime);
                }
                let (next4, slot) = this.var(&runtime);
                this = next4;
                return this.push(HirInstr::Bind { dest: slot, expr: value, binding_ty: None });
            },
            StmtKind::Expr(value) => {
                let value = this.expr(value);
                return this.push(HirInstr::Eval(value));
            },
            StmtKind::Try { .. } => {
                if this.is_function || all_escape(&this.loops) {
                    let targets = loop_targets(&this.loops);
                    let statement = this.statement(clone_stmt(stmt));
                    return this.push(HirInstr::Try { stmt: statement, loop_targets: targets });
                } else {
                    return this.opaque(stmt);
                }
            },
            _ => {
                assert(!(stmt.kind@ is If));
                assert(!(stmt.kind@ is While));
                assert(!(stmt.kind@ is For));
                assert(!(stmt.kind@ is Break));
                assert(!(stmt.kind@ is Continue));
                assert(!(stmt.kind@ is Return));
                assert(!(stmt.kind@ is VarDecl));
                assert(!(stmt.kind@ is RefDecl));
                assert(!(stmt.kind@ is Assign));
                assert(!(stmt.kind@ is Expr));
                assert(!(stmt.kind@ is Try));
                return this.opaque(stmt);
            },
        }
    }

    /// See [`lowered_opt_expr`].
    pub fn opt_expr(&self, value: &Option<Expr>) -> (r: Option<HirExpr>)
        ensures
            opt_view(r) == lowered_opt_expr(self@, opt_view(*value)),
    {
        proof { reveal(lowered_opt_expr); }
        match value {
            Some(value) => Some(self.expr(value)),
            None => None,
        }
    }
}

/// The loop protocol the checker chose, or the plain one of built-in iterables.
#[verifier::opaque]
pub open spec fn protocol_of(
    adjustments: Seq<SemanticAdjustmentView>,
    owned: bool,
) -> IterationProtocolView {
    match chosen_protocol(adjustments, 0) {
        Some(protocol) => protocol,
        None => {
            IterationProtocolView { mode: if owned {
                IterationMode::Owned
            } else {
                IterationMode::Borrowed
            }, prepare: Seq::empty(), has_next: None, next: None }
        },
    }
}

/// See [`protocol_of`].
pub fn loop_protocol(
    adjustments: &Vec<SemanticAdjustment>,
    owned: bool,
) -> (r: IterationProtocol)
    ensures
        r@ == protocol_of(semantic_adjustment_list_view(adjustments@), owned),
{
    proof { reveal(protocol_of); }
    match iterate_protocol(adjustments) {
        Some(protocol) => protocol,
        None => {
            let list: Vec<String> = Vec::new();
            assert(string_list_view(list@) =~= Seq::<Seq<char>>::empty());
            let protocol2 = IterationProtocol { mode: if owned {
        IterationMode::Owned
    } else {
        IterationMode::Borrowed
    }, prepare: list, has_next: None, next: None };
            proof { unfold_iteration_protocol(protocol2); }
            protocol2
        },
    }
}

/// The recorded type of the binding that an expression initializes.
#[verifier::opaque]
pub open spec fn binding_ty_of(
    checked: Seq<CheckedExprView>,
    value: HirExprView,
) -> Option<TyView> {
    match value.checked {
        Some(id) => match node_by_id(checked, id) {
            Some(node) => node.binding_ty,
            None => None,
        },
        None => None,
    }
}

/// See [`binding_ty_of`].
pub fn recorded_binding_ty(checked: &Vec<CheckedExpr>, value: &HirExpr) -> (r: Option<Ty>)
    ensures
        opt_view(r) == binding_ty_of(checked_expr_list_view(checked@), value@),
{
    proof { reveal(binding_ty_of); }
    match value.checked {
        Some(id) => {
            match find_checked(checked, id) {
                Some(node) => (
                    match (&node.binding_ty) { Some(y) => Some(clone_ty(y)), None => None }
                ),
                None => None,
            }
        },
        None => None,
    }
}

#[verifier::opaque]
pub open spec fn below_length(index: Seq<char>, source: Seq<char>) -> ExprView {
    let no_params = Seq::<ParamArgView>::empty();
    let no_kwargs = Seq::<KwArgView>::empty();
    let args = seq![made_ident(source)];
    let length = made_expr(ExprKindView::Call { name: "len"@, param_args: no_params, args, kwargs: no_kwargs }, (0, 0));
    made_expr(
        ExprKindView::Infix(InfixOp::Lt, Box::new(made_ident(index)), Box::new(length)),
        (0, 0),
    )
}

/// See [`below_length`].
pub fn index_below_length(index: &String, source: &String) -> (r: Expr)
    ensures
        r@ == below_length(index@, source@),
{
    proof { reveal(below_length); }
    let no_params: Vec<ParamArg> = Vec::new();
    assert(param_arg_list_view(no_params@) =~= Seq::<ParamArgView>::empty());
    let no_kwargs: Vec<KwArg> = Vec::new();
    assert(kw_arg_list_view(no_kwargs@) =~= Seq::<KwArgView>::empty());
    let item = ident(source);
    let ghost seen = item@;
    let list = vec![item];
    assert(expr_list_view(list@) =~= seq![seen]);
    let args = list;
    let kind = ExprKind::Call { name: "len".to_owned(), param_args: no_params, args, kwargs: no_kwargs };
    proof { unfold_expr_kind(kind); }
    let length = expr_at(kind, (0, 0));
    let kind2 = ExprKind::Infix(InfixOp::Lt, Box::new(ident(index)), Box::new(length));
    proof { unfold_expr_kind(kind2); }
    expr_at(kind2, (0, 0))
}

#[verifier::opaque]
pub open spec fn element_at(source: Seq<char>, index: Seq<char>) -> ExprView {
    made_expr(
        ExprKindView::Index {
            object: Box::new(made_ident(source)),
            index: Box::new(made_ident(index)),
        },
        (0, 0),
    )
}

/// See [`element_at`].
pub fn indexed(source: &String, index: &String) -> (r: Expr)
    ensures
        r@ == element_at(source@, index@),
{
    proof { reveal(element_at); }
    let kind = ExprKind::Index { object: Box::new(ident(source)), index: Box::new(ident(index)) };
    proof { unfold_expr_kind(kind); }
    expr_at(kind, (0, 0))
}

#[verifier::opaque]
pub open spec fn successor(index: Seq<char>) -> ExprView {
    let one = made_expr(ExprKindView::Int(1), (0, 0));
    made_expr(ExprKindView::Infix(InfixOp::Add, Box::new(made_ident(index)), Box::new(one)), (0, 0))
}

/// See [`successor`].
pub fn plus_one(index: &String) -> (r: Expr)
    ensures
        r@ == successor(index@),
{
    proof { reveal(successor); }
    let kind = ExprKind::Int(1);
    proof { unfold_expr_kind(kind); }
    let one = expr_at(kind, (0, 0));
    let kind2 = ExprKind::Infix(InfixOp::Add, Box::new(ident(index)), Box::new(one));
    proof { unfold_expr_kind(kind2); }
    expr_at(kind2, (0, 0))
}

} // verus!
