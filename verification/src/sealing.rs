//! Every block of a control-flow graph gets its end.

use crate::ast::{ExprKindView, ExprView, StmtKindView, StmtView};
use crate::cfg::{
    escaping_loops, finished, function_cfg, region_cfg, rooted, same_names, started,
};
use crate::checked::CheckedExprView;
use crate::facts::{made_expr, made_ident, unchecked_expr};
use crate::graph::no_blocks;
use crate::hir::{BasicBlockView, HirInstrView, TerminatorView};
use crate::locals::{declared_names, implicit_names};
use crate::lower::{
    LoopFrame, LowerView, below_length, binding_ty_of, connect_targets, connect_to, declare,
    element_at, empty_block, enter_scope, fresh_name, intern, leave_loop, leave_scope, lower_block,
    lower_branches, lower_for, lower_jump, lower_loop_body, lower_loop_else, lower_opaque,
    lower_opt_scoped, lower_ref_decl, lower_ref_for, lower_scoped, lower_stmt, lower_while,
    lowered_expr, lowered_opt_expr, lowered_statement, name_in_scope, new_block, protocol_of,
    push_instr, seal_block, shadows, slot_name, successor, take_captured, targets_of_loops,
    unsealed, visible, all_loops_escape,
};
use crate::scopes::runtime_name;
use crate::text::decimal;
use vstd::prelude::*;

verus! {

/// Whether a terminator leads to blocks of its graph alone.
pub open spec fn leads_inside(term: TerminatorView, count: nat) -> bool {
    match term {
        TerminatorView::Jump(to) => to < count,
        TerminatorView::Branch { then_b, else_b, .. } => then_b < count && else_b < count,
        _ => true,
    }
}

/// Whether every block has a terminator, which leads to blocks of the graph alone.
pub open spec fn all_sealed(blocks: Seq<BasicBlockView>) -> bool {
    forall|b: int|
        0 <= b < blocks.len() ==> match (#[trigger] blocks[b]).term {
            Some(term) => leads_inside(term, blocks.len()),
            None => false,
        }
}

/// How many blocks a terminator leads to.
pub open spec fn ends_in(term: Option<TerminatorView>) -> nat {
    match term {
        Some(TerminatorView::Jump(_)) => 1,
        Some(TerminatorView::Branch { .. }) => 2,
        _ => 0,
    }
}

/// How many edges some blocks have to one another.
pub open spec fn edges_of(blocks: Seq<BasicBlockView>) -> nat
    decreases blocks.len(),
{
    if blocks.len() == 0 {
        0
    } else {
        edges_of(blocks.drop_last()) + ends_in(blocks.last().term)
    }
}

/// Whether blocks and edges stay within what can be counted.
pub open spec fn countable(blocks: Seq<BasicBlockView>) -> bool {
    blocks.len() <= u32::MAX && edges_of(blocks) <= u32::MAX
}

/// A block has at most two edges.
pub proof fn few_edges(blocks: Seq<BasicBlockView>)
    ensures
        edges_of(blocks) <= 2 * blocks.len(),
    decreases blocks.len(),
{
    if blocks.len() > 0 {
        few_edges(blocks.drop_last());
    }
}

proof fn one_more_block(blocks: Seq<BasicBlockView>, block: BasicBlockView)
    requires
        block.term is None,
    ensures
        edges_of(blocks.push(block)) == edges_of(blocks),
{
    assert(blocks.push(block).drop_last() =~= blocks);
}

proof fn other_end(blocks: Seq<BasicBlockView>, at: int, block: BasicBlockView)
    requires
        0 <= at < blocks.len(),
    ensures
        edges_of(blocks.update(at, block)) == edges_of(blocks) - ends_in(blocks[at].term) + ends_in(
            block.term,
        ),
    decreases blocks.len(),
{
    let changed = blocks.update(at, block);
    if at == blocks.len() - 1 {
        assert(changed.drop_last() =~= blocks.drop_last());
    } else {
        assert(changed.drop_last() =~= blocks.drop_last().update(at, block));
        other_end(blocks.drop_last(), at, block);
    }
}

/// Whether all blocks and edges found room, or have to.
spec fn fits(s: LowerView) -> bool {
    s.complete || countable(s.blocks)
}

/// Whether the blocks without a terminator are the current one and some that wait for their
/// turn.
spec fn waiting(left: Set<usize>, s: LowerView) -> bool {
    fits(s) ==> {
        &&& s.complete
        &&& s.g.edges.len() == edges_of(s.blocks)
        &&& s.g.nodes == s.blocks.len()
        &&& s.g.nodes <= u32::MAX
        &&& s.cur < s.blocks.len()
        &&& forall|b: usize|
            b < s.blocks.len() && (#[trigger] s.blocks[b as int]).term is None ==> b == s.cur
                || left.contains(b)
        &&& forall|b: int|
            0 <= b < s.blocks.len() ==> match (#[trigger] s.blocks[b]).term {
                Some(term) => leads_inside(term, s.blocks.len()),
                None => true,
            }
        &&& forall|k: int|
            0 <= k < s.loops.len() && !(#[trigger] s.loops[k]).escape ==> s.loops[k].header
                < s.blocks.len() && s.loops[k].exit < s.blocks.len()
    }
}

/// Whether a state of lowering comes after another.
spec fn later(s: LowerView, t: LowerView) -> bool {
    &&& s.blocks.len() <= t.blocks.len()
    &&& fits(t) ==> fits(s)
}

/// Whether the current block has its terminator.
spec fn current_sealed(s: LowerView) -> bool {
    fits(s) ==> s.cur < s.blocks.len() && s.blocks[s.cur as int].term is Some
}

/// Whether all loops stand outside the graph.
spec fn all_outside(loops: Seq<LoopFrame>) -> bool {
    forall|k: int| 0 <= k < loops.len() ==> (#[trigger] loops[k]).escape
}

proof fn new_block_waits(left: Set<usize>, s: LowerView)
    requires
        waiting(left, s),
    ensures
        waiting(left.insert(new_block(s).1), new_block(s).0),
        later(s, new_block(s).0),
        fits(new_block(s).0) ==> new_block(s).1 == s.blocks.len(),
        new_block(s).0.blocks.len() == s.blocks.len() + 1,
{
    reveal(new_block);
    let t = new_block(s).0;
    one_more_block(s.blocks, empty_block());
    if fits(t) {
        assert forall|b: usize|
            b < t.blocks.len() && (#[trigger] t.blocks[b as int]).term is None implies b == t.cur
            || left.insert(new_block(s).1).contains(b) by {
            if b < s.blocks.len() {
                assert(t.blocks[b as int] == s.blocks[b as int]);
            }
        }
        assert forall|b: int| 0 <= b < t.blocks.len() implies match (#[trigger] t.blocks[b]).term {
            Some(term) => leads_inside(term, t.blocks.len()),
            None => true,
        } by {
            if b < s.blocks.len() {
                assert(t.blocks[b] == s.blocks[b]);
            }
        }
    }
}

proof fn seal_block_waits(left: Set<usize>, s: LowerView, term: TerminatorView)
    requires
        waiting(left, s),
        fits(s) ==> leads_inside(term, s.blocks.len()),
    ensures
        waiting(left, seal_block(s, term)),
        later(s, seal_block(s, term)),
        current_sealed(seal_block(s, term)),
{
    reveal(unsealed);
    reveal(connect_to);
    reveal(connect_targets);
    reveal(seal_block);
    let t = seal_block(s, term);
    if unsealed(s) {
        let block = s.blocks[s.cur as int];
        other_end(
            s.blocks,
            s.cur as int,
            BasicBlockView { instrs: block.instrs, term: Some(term) },
        );
    }
    if fits(t) && unsealed(s) {
        assert forall|b: usize|
            b < t.blocks.len() && (#[trigger] t.blocks[b as int]).term is None implies b == t.cur
            || left.contains(b) by {
            assert(t.blocks[b as int] == s.blocks[b as int]);
        }
        assert forall|b: int| 0 <= b < t.blocks.len() implies match (#[trigger] t.blocks[b]).term {
            Some(term) => leads_inside(term, t.blocks.len()),
            None => true,
        } by {
            if b != s.cur {
                assert(t.blocks[b] == s.blocks[b]);
            }
        }
    }
}

proof fn going_on_waits(before: Set<usize>, left: Set<usize>, s: LowerView, to: usize)
    requires
        waiting(before, s),
        current_sealed(s),
        fits(s) ==> to < s.blocks.len(),
        forall|b: usize| #[trigger] before.contains(b) ==> b == to || left.contains(b),
    ensures
        waiting(left, LowerView { cur: to, ..s }),
{
}

proof fn push_instr_waits(left: Set<usize>, s: LowerView, instr: HirInstrView)
    requires
        waiting(left, s),
    ensures
        waiting(left, push_instr(s, instr)),
        later(s, push_instr(s, instr)),
        push_instr(s, instr).blocks.len() == s.blocks.len(),
{
    reveal(unsealed);
    reveal(push_instr);
    let t = push_instr(s, instr);
    if unsealed(s) {
        let block = s.blocks[s.cur as int];
        other_end(
            s.blocks,
            s.cur as int,
            BasicBlockView { instrs: block.instrs.push(instr), term: None },
        );
    }
    if fits(t) && unsealed(s) {
        assert forall|b: usize|
            b < t.blocks.len() && (#[trigger] t.blocks[b as int]).term is None implies b == t.cur
            || left.contains(b) by {
            if b != s.cur {
                assert(t.blocks[b as int] == s.blocks[b as int]);
            }
        }
        assert forall|b: int| 0 <= b < t.blocks.len() implies match (#[trigger] t.blocks[b]).term {
            Some(term) => leads_inside(term, t.blocks.len()),
            None => true,
        } by {
            if b != s.cur {
                assert(t.blocks[b] == s.blocks[b]);
            }
        }
    }
}

proof fn intern_waits(left: Set<usize>, s: LowerView, name: Seq<char>)
    requires
        waiting(left, s),
    ensures
        waiting(left, intern(s, name).0),
        later(s, intern(s, name).0),
{
    reveal(intern);
}

proof fn declare_waits(left: Set<usize>, s: LowerView, name: Seq<char>)
    requires
        waiting(left, s),
    ensures
        waiting(left, declare(s, name).0),
        later(s, declare(s, name).0),
{
    reveal(declare);
    reveal(enter_scope);
    reveal(name_in_scope);
    reveal(intern);
}

proof fn lower_ref_decl_waits(
    left: Set<usize>,
    s: LowerView,
    stmt: StmtView,
    name: Seq<char>,
    value: ExprView,
)
    requires
        waiting(left, s),
    ensures
        waiting(left, lower_ref_decl(s, stmt, name, value)),
        later(s, lower_ref_decl(s, stmt, name, value)),
{
    reveal(lower_ref_decl);
    let value = lowered_expr(s, value);
    declare_waits(left, s, name);
    let (s, runtime) = declare(s, name);
    let syntax = StmtView {
        kind: StmtKindView::RefDecl { name: slot_name(s, runtime), value: value.syntax },
        span: stmt.span,
        module: stmt.module,
    };
    push_instr_waits(left, s, HirInstrView::Stmt(lowered_statement(s, syntax)));
}

proof fn lower_opaque_waits(left: Set<usize>, s: LowerView, stmt: StmtView)
    requires
        waiting(left, s),
    ensures
        waiting(left, lower_opaque(s, stmt)),
        later(s, lower_opaque(s, stmt)),
{
    reveal(lower_opaque);
    push_instr_waits(left, s, HirInstrView::Stmt(lowered_statement(s, stmt)));
}

proof fn lower_jump_waits(left: Set<usize>, s: LowerView, stmt: StmtView, to_header: bool)
    requires
        waiting(left, s),
    ensures
        waiting(left, lower_jump(s, stmt, to_header)),
        later(s, lower_jump(s, stmt, to_header)),
{
    reveal(lower_jump);
    if s.loops.len() == 0 {
        lower_opaque_waits(left, s, stmt);
    } else {
        let frame = s.loops[(s.loops.len() - 1) as usize as int];
        let target = if to_header {
            frame.header
        } else {
            frame.exit
        };
        let term = if frame.escape {
            TerminatorView::EscapeJump(target)
        } else {
            TerminatorView::Jump(target)
        };
        seal_block_waits(left, s, term);
    }
}

proof fn lower_scoped_waits(left: Set<usize>, s: LowerView, body: Seq<StmtView>)
    requires
        waiting(left, s),
    ensures
        waiting(left, lower_scoped(s, body)),
        later(s, lower_scoped(s, body)),
    decreases body, body.len() + 1,
{
    reveal(enter_scope);
    reveal(leave_scope);
    lower_block_waits(left, enter_scope(s), body, 0);
}

proof fn lower_block_waits(left: Set<usize>, s: LowerView, body: Seq<StmtView>, i: nat)
    requires
        waiting(left, s),
    ensures
        waiting(left, lower_block(s, body, i)),
        later(s, lower_block(s, body, i)),
    decreases body, (body.len() - i) as nat,
{
    if i < body.len() {
        lower_stmt_waits(left, s, body[i as int]);
        lower_block_waits(left, lower_stmt(s, body[i as int]), body, i + 1);
    }
}

proof fn lower_branches_waits(
    left: Set<usize>,
    s: LowerView,
    branches: Seq<(ExprView, Seq<StmtView>)>,
    join: usize,
    i: nat,
)
    requires
        waiting(left, s),
        fits(s) ==> join < s.blocks.len(),
    ensures
        waiting(left, lower_branches(s, branches, join, i)),
        later(s, lower_branches(s, branches, join, i)),
    decreases branches, (branches.len() - i) as nat,
{
    if i < branches.len() {
        let branch = branches[i as int];
        new_block_waits(left, s);
        let (s, then_b) = new_block(s);
        let one = left.insert(then_b);
        new_block_waits(one, s);
        let (s, else_b) = new_block(s);
        let two = one.insert(else_b);
        let cond = lowered_expr(s, branch.0);
        seal_block_waits(two, s, TerminatorView::Branch { cond, then_b, else_b });
        let s = seal_block(s, TerminatorView::Branch { cond, then_b, else_b });
        let last = left.insert(else_b);
        going_on_waits(two, last, s, then_b);
        let s = LowerView { cur: then_b, ..s };
        lower_scoped_waits(last, s, branch.1);
        let s = lower_scoped(s, branch.1);
        seal_block_waits(last, s, TerminatorView::Jump(join));
        let s = seal_block(s, TerminatorView::Jump(join));
        going_on_waits(last, left, s, else_b);
        let s = LowerView { cur: else_b, ..s };
        lower_branches_waits(left, s, branches, join, i + 1);
    }
}

proof fn lower_opt_scoped_waits(left: Set<usize>, s: LowerView, body: Option<Seq<StmtView>>)
    requires
        waiting(left, s),
    ensures
        waiting(left, lower_opt_scoped(s, body)),
        later(s, lower_opt_scoped(s, body)),
    decreases body, 0nat,
{
    if let Some(body) = body {
        lower_scoped_waits(left, s, body);
    }
}

/// The blocks that wait behind a loop's body.
spec fn after_loop(
    left: Set<usize>,
    orelse: Option<Seq<StmtView>>,
    normal_exit: usize,
    exit: usize,
) -> Set<usize> {
    if orelse is Some {
        left.insert(exit).insert(normal_exit)
    } else {
        left.insert(exit)
    }
}

proof fn lower_loop_else_waits(
    left: Set<usize>,
    s: LowerView,
    orelse: Option<Seq<StmtView>>,
    normal_exit: usize,
    exit: usize,
)
    requires
        waiting(after_loop(left, orelse, normal_exit, exit), s),
        current_sealed(s),
        fits(s) ==> normal_exit < s.blocks.len() && exit < s.blocks.len(),
    ensures
        waiting(left.insert(exit), lower_loop_else(s, orelse, normal_exit, exit)),
        later(s, lower_loop_else(s, orelse, normal_exit, exit)),
        current_sealed(lower_loop_else(s, orelse, normal_exit, exit)),
    decreases orelse, 0nat,
{
    if let Some(body) = orelse {
        let rest = left.insert(exit);
        going_on_waits(after_loop(left, orelse, normal_exit, exit), rest, s, normal_exit);
        let s = LowerView { cur: normal_exit, ..s };
        lower_scoped_waits(rest, s, body);
        seal_block_waits(rest, lower_scoped(s, body), TerminatorView::Jump(exit));
    }
}

proof fn lower_loop_body_waits(
    left: Set<usize>,
    s: LowerView,
    body: Seq<StmtView>,
    header: usize,
    exit: usize,
)
    requires
        waiting(left, s),
        fits(s) ==> header < s.blocks.len() && exit < s.blocks.len(),
    ensures
        waiting(left, lower_loop_body(s, body, header, exit)),
        later(s, lower_loop_body(s, body, header, exit)),
    decreases body, body.len() + 1,
{
    reveal(leave_loop);
    let s = LowerView { loops: s.loops.push(LoopFrame { header, exit, escape: false }), ..s };
    lower_block_waits(left, s, body, 0);
}

/// The blocks of a loop wait: its header, its body, its exit and its `else`.
proof fn loop_blocks_wait(left: Set<usize>, s: LowerView, orelse: Option<Seq<StmtView>>)
    ensures
        waiting(left, s) ==> {
            let (s1, header) = new_block(s);
            let (s2, body_b) = new_block(s1);
            let (s3, exit) = new_block(s2);
            let (s4, normal_exit) = if orelse is Some {
                new_block(s3)
            } else {
                (s3, exit)
            };
            &&& waiting(
                after_loop(left, orelse, normal_exit, exit).insert(body_b).insert(header),
                s4,
            )
            &&& later(s, s4)
            &&& fits(s4) ==> header < s4.blocks.len() && body_b < s4.blocks.len() && exit
                < s4.blocks.len() && normal_exit < s4.blocks.len()
        },
{
    if waiting(left, s) {
        new_block_waits(left, s);
        let (s1, header) = new_block(s);
        let left1 = left.insert(header);
        new_block_waits(left1, s1);
        let (s2, body_b) = new_block(s1);
        let left2 = left1.insert(body_b);
        new_block_waits(left2, s2);
        let (s3, exit) = new_block(s2);
        let left3 = left2.insert(exit);
        if orelse is Some {
            new_block_waits(left3, s3);
            let (s4, normal_exit) = new_block(s3);
            assert(left3.insert(normal_exit) =~= after_loop(
                left,
                orelse,
                normal_exit,
                exit,
            ).insert(body_b).insert(header));
        } else {
            assert(left3 =~= after_loop(left, orelse, exit, exit).insert(body_b).insert(header));
        }
    }
}

/// A loop whose blocks wait, from its header on.
proof fn loop_end_waits(
    left: Set<usize>,
    s: LowerView,
    orelse: Option<Seq<StmtView>>,
    header: usize,
    normal_exit: usize,
    exit: usize,
)
    requires
        waiting(after_loop(left, orelse, normal_exit, exit), s),
        fits(s) ==> header < s.blocks.len() && normal_exit < s.blocks.len() && exit
            < s.blocks.len(),
    ensures
        ({
            let t = seal_block(s, TerminatorView::Jump(header));
            let t = lower_loop_else(t, orelse, normal_exit, exit);
            let t = LowerView { cur: exit, ..t };
            &&& waiting(left, t)
            &&& later(s, t)
        }),
    decreases orelse, 1nat,
{
    let rest = after_loop(left, orelse, normal_exit, exit);
    seal_block_waits(rest, s, TerminatorView::Jump(header));
    let t = seal_block(s, TerminatorView::Jump(header));
    lower_loop_else_waits(left, t, orelse, normal_exit, exit);
    let t = lower_loop_else(t, orelse, normal_exit, exit);
    going_on_waits(left.insert(exit), left, t, exit);
}

proof fn lower_while_waits(left: Set<usize>, s: LowerView, stmt: StmtView)
    requires
        waiting(left, s),
    ensures
        waiting(left, lower_while(s, stmt)),
        later(s, lower_while(s, stmt)),
    decreases stmt, 1nat,
{
    if let StmtKindView::While { cond, body, orelse } = stmt.kind {
        loop_blocks_wait(left, s, orelse);
        let (s, header) = new_block(s);
        let (s, body_b) = new_block(s);
        let (s, exit) = new_block(s);
        let (s, normal_exit) = if orelse is Some {
            new_block(s)
        } else {
            (s, exit)
        };
        let rest = after_loop(left, orelse, normal_exit, exit);
        let all = rest.insert(body_b).insert(header);
        seal_block_waits(all, s, TerminatorView::Jump(header));
        let s = seal_block(s, TerminatorView::Jump(header));
        going_on_waits(all, rest.insert(body_b), s, header);
        let s = LowerView { cur: header, ..s };
        let cond = lowered_expr(s, cond);
        let test = TerminatorView::Branch { cond, then_b: body_b, else_b: normal_exit };
        seal_block_waits(rest.insert(body_b), s, test);
        let s = seal_block(s, test);
        going_on_waits(rest.insert(body_b), rest, s, body_b);
        let s = LowerView { cur: body_b, ..s };
        lower_loop_body_waits(rest, s, body, header, exit);
        let s = lower_loop_body(s, body, header, exit);
        loop_end_waits(left, s, orelse, header, normal_exit, exit);
    }
}

proof fn lower_for_waits(left: Set<usize>, s: LowerView, stmt: StmtView)
    requires
        waiting(left, s),
    ensures
        waiting(left, lower_for(s, stmt)),
        later(s, lower_for(s, stmt)),
    decreases stmt, 1nat,
{
    if let StmtKindView::For { var, owned, iter, body, orelse, .. } = stmt.kind {
        let it_name = fresh_name(s, "$iter"@);
        intern_waits(left, s, it_name);
        let (s, it_var) = intern(s, it_name);
        let checked_iter = lowered_expr(s, iter);
        let protocol = protocol_of(checked_iter.adjustments, owned);
        let bind = HirInstrView::Bind { dest: it_var, expr: checked_iter, binding_ty: None };
        push_instr_waits(left, s, bind);
        let s = push_instr(s, bind);
        let get = HirInstrView::GetIter { iter: it_var, protocol };
        push_instr_waits(left, s, get);
        let s = push_instr(s, get);
        loop_blocks_wait(left, s, orelse);
        let (s, header) = new_block(s);
        let (s, body_b) = new_block(s);
        let (s, exit) = new_block(s);
        let (s, normal_exit) = if orelse is Some {
            new_block(s)
        } else {
            (s, exit)
        };
        let rest = after_loop(left, orelse, normal_exit, exit);
        let all = rest.insert(body_b).insert(header);
        let inner = rest.insert(body_b);
        seal_block_waits(all, s, TerminatorView::Jump(header));
        let s = seal_block(s, TerminatorView::Jump(header));
        going_on_waits(all, inner, s, header);
        let s = LowerView { cur: header, ..s };
        let hn_name = fresh_name(s, "$hasnext"@);
        intern_waits(inner, s, hn_name);
        let (s, hn_var) = intern(s, hn_name);
        let more = HirInstrView::HasNext { iter: it_var, dest: hn_var, method: protocol.has_next };
        push_instr_waits(inner, s, more);
        let s = push_instr(s, more);
        let cond = unchecked_expr(made_ident(hn_name));
        let test = TerminatorView::Branch { cond, then_b: body_b, else_b: normal_exit };
        seal_block_waits(inner, s, test);
        let s = seal_block(s, test);
        going_on_waits(inner, rest, s, body_b);
        let s = LowerView { cur: body_b, ..s };
        intern_waits(rest, s, var);
        let (s, element) = intern(s, var);
        let next = HirInstrView::Next { iter: it_var, dest: element, method: protocol.next };
        push_instr_waits(rest, s, next);
        let s = push_instr(s, next);
        lower_loop_body_waits(rest, s, body, header, exit);
        let s = lower_loop_body(s, body, header, exit);
        loop_end_waits(left, s, orelse, header, normal_exit, exit);
    }
}

proof fn lower_ref_for_waits(left: Set<usize>, s: LowerView, stmt: StmtView, source: Seq<char>)
    requires
        waiting(left, s),
    ensures
        waiting(left, lower_ref_for(s, stmt, source)),
        later(s, lower_ref_for(s, stmt, source)),
    decreases stmt, 1nat,
{
    if let StmtKindView::For { var, body, orelse, .. } = stmt.kind {
        let index_name = fresh_name(s, "$refindex"@);
        intern_waits(left, s, index_name);
        let (s, index_var) = intern(s, index_name);
        let zero = unchecked_expr(made_expr(ExprKindView::Int(0), (0, 0)));
        let bind = HirInstrView::Bind { dest: index_var, expr: zero, binding_ty: None };
        push_instr_waits(left, s, bind);
        let s = push_instr(s, bind);
        loop_blocks_wait(left, s, orelse);
        let (s, header) = new_block(s);
        let (s, body_b) = new_block(s);
        let (s, exit) = new_block(s);
        let (s, normal_exit) = if orelse is Some {
            new_block(s)
        } else {
            (s, exit)
        };
        let rest = after_loop(left, orelse, normal_exit, exit);
        let all = rest.insert(body_b).insert(header);
        let inner = rest.insert(body_b);
        seal_block_waits(all, s, TerminatorView::Jump(header));
        let s = seal_block(s, TerminatorView::Jump(header));
        going_on_waits(all, inner, s, header);
        let s = LowerView { cur: header, ..s };
        let cond = unchecked_expr(below_length(index_name, source));
        let test = TerminatorView::Branch { cond, then_b: body_b, else_b: normal_exit };
        seal_block_waits(inner, s, test);
        let s = seal_block(s, test);
        going_on_waits(inner, rest, s, body_b);
        let s = LowerView { cur: body_b, ..s };
        let target = element_at(source, index_name);
        let unnamed = StmtView { kind: StmtKindView::Pass, span: stmt.span, module: None };
        lower_ref_decl_waits(rest, s, unnamed, var, target);
        let s = lower_ref_decl(s, unnamed, var, target);
        lower_loop_body_waits(rest, s, body, header, exit);
        let s = lower_loop_body(s, body, header, exit);
        let next = unchecked_expr(successor(index_name));
        let step = HirInstrView::Bind { dest: index_var, expr: next, binding_ty: None };
        push_instr_waits(rest, s, step);
        let s = push_instr(s, step);
        loop_end_waits(left, s, orelse, header, normal_exit, exit);
    }
}

proof fn lower_stmt_waits(left: Set<usize>, s: LowerView, stmt: StmtView)
    requires
        waiting(left, s),
    ensures
        waiting(left, lower_stmt(s, stmt)),
        later(s, lower_stmt(s, stmt)),
    decreases stmt, 2nat,
{
    match stmt.kind {
        StmtKindView::If { branches, orelse } => {
            new_block_waits(left, s);
            let (s, join) = new_block(s);
            let all = left.insert(join);
            lower_branches_waits(all, s, branches, join, 0);
            let s = lower_branches(s, branches, join, 0);
            lower_opt_scoped_waits(all, s, orelse);
            let s = lower_opt_scoped(s, orelse);
            seal_block_waits(all, s, TerminatorView::Jump(join));
            let s = seal_block(s, TerminatorView::Jump(join));
            going_on_waits(all, left, s, join);
        },
        StmtKindView::While { .. } => {
            lower_while_waits(left, s, stmt);
        },
        StmtKindView::For { reference, iter, .. } => {
            if reference {
                match iter.kind {
                    ExprKindView::Identifier(source) => {
                        lower_ref_for_waits(left, s, stmt, source);
                    },
                    _ => {
                        let pass = StmtView {
                            kind: StmtKindView::Pass,
                            span: stmt.span,
                            module: None,
                        };
                        lower_opaque_waits(left, s, pass);
                    },
                }
            } else {
                lower_for_waits(left, s, stmt);
            }
        },
        StmtKindView::Break => {
            lower_jump_waits(left, s, stmt, false);
        },
        StmtKindView::Continue => {
            lower_jump_waits(left, s, stmt, true);
        },
        StmtKindView::Return(value) => {
            seal_block_waits(left, s, TerminatorView::Return(lowered_opt_expr(s, value)));
        },
        StmtKindView::VarDecl { name, value, .. } => {
            let value = lowered_expr(s, value);
            declare_waits(left, s, name);
            let (s, slot) = declare(s, name);
            let binding_ty = binding_ty_of(s.checked, value);
            push_instr_waits(left, s, HirInstrView::Bind { dest: slot, expr: value, binding_ty });
        },
        StmtKindView::RefDecl { name, value } => {
            lower_ref_decl_waits(left, s, stmt, name, value);
        },
        StmtKindView::Assign { name, value } => {
            reveal(take_captured);
            reveal(name_in_scope);
            let value = lowered_expr(s, value);
            let (s, captured) = take_captured(s, name);
            let s = if !visible(s, name) {
                name_in_scope(s, name, name)
            } else {
                s
            };
            let runtime = if captured {
                let count = s.vars.len() as usize;
                name + "$shadow"@ + decimal(count as nat)
            } else {
                runtime_name(s.scopes, name)
            };
            let s = if captured {
                name_in_scope(s, name, runtime)
            } else {
                s
            };
            intern_waits(left, s, runtime);
            let (s, slot) = intern(s, runtime);
            push_instr_waits(
                left,
                s,
                HirInstrView::Bind { dest: slot, expr: value, binding_ty: None },
            );
        },
        StmtKindView::Expr(value) => {
            push_instr_waits(left, s, HirInstrView::Eval(lowered_expr(s, value)));
        },
        StmtKindView::Try { .. } => {
            if s.is_function || all_loops_escape(s.loops, 0) {
                let targets = targets_of_loops(s.loops, 0, Seq::empty());
                let statement = lowered_statement(s, stmt);
                push_instr_waits(
                    left,
                    s,
                    HirInstrView::Try { stmt: statement, loop_targets: targets },
                );
            } else {
                lower_opaque_waits(left, s, stmt);
            }
        },
        _ => {
            lower_opaque_waits(left, s, stmt);
        },
    }
}

proof fn finished_is_sealed(
    vars: Seq<Seq<char>>,
    scope: Seq<(Seq<char>, Seq<char>)>,
    captures: Seq<Seq<char>>,
    loops: Seq<LoopFrame>,
    is_function: bool,
    checked: Seq<CheckedExprView>,
    body: Seq<StmtView>,
    end: TerminatorView,
    n_params: usize,
)
    requires
        all_outside(loops),
        forall|count: nat| leads_inside(end, count),
    ensures
        ({
            let lower = started(vars, scope, captures, loops, is_function, checked);
            let cfg = finished(lower, body, end, n_params);
            &&& cfg.complete ==> all_sealed(cfg.blocks) && cfg.blocks.len() > 0
            &&& countable(cfg.blocks) ==> cfg.complete
        }),
{
    reveal(started);
    reveal(finished);
    reveal(new_block);
    let lower = started(vars, scope, captures, loops, is_function, checked);
    let none = Set::<usize>::empty();
    one_more_block(Seq::<BasicBlockView>::empty(), empty_block());
    assert(edges_of(Seq::<BasicBlockView>::empty()) == 0);
    assert(lower.blocks =~= Seq::<BasicBlockView>::empty().push(empty_block()));
    assert(waiting(none, lower));
    lower_block_waits(none, lower, body, 0);
    let lower = lower_block(lower, body, 0);
    seal_block_waits(none, lower, end);
    let sealed = seal_block(lower, end);
    if fits(sealed) {
        assert forall|b: int| 0 <= b < sealed.blocks.len() implies match (
            #[trigger] sealed.blocks[b]).term {
            Some(term) => leads_inside(term, sealed.blocks.len()),
            None => false,
        } by {
            let k = b as usize;
            assert(sealed.blocks[k as int] == sealed.blocks[b]);
        }
    }
}

/// Every block of a function ends in a terminator, and its targets are blocks of the
/// function.
pub proof fn function_blocks_end(
    params: Seq<Seq<char>>,
    captures: Seq<Seq<char>>,
    body: Seq<StmtView>,
    checked: Seq<CheckedExprView>,
)
    ensures
        ({
            let cfg = function_cfg(params, captures, body, checked);
            cfg.complete ==> all_sealed(cfg.blocks) && cfg.blocks.len() > 0
        }),
{
    reveal(function_cfg);
    let explicit = declared_names(body, 0, Seq::empty());
    let implicit = implicit_names(body, explicit, 0, Seq::empty());
    let named = same_names(params, 0, Seq::empty());
    let (vars, scope) = rooted(implicit, 0, params, named);
    finished_is_sealed(
        vars,
        scope,
        captures,
        Seq::empty(),
        true,
        checked,
        body,
        TerminatorView::Return(None),
        params.len() as usize,
    );
}

/// The graph of a function is complete whenever its blocks and edges stay within 32 bits.
pub proof fn function_finds_room(
    params: Seq<Seq<char>>,
    captures: Seq<Seq<char>>,
    body: Seq<StmtView>,
    checked: Seq<CheckedExprView>,
)
    ensures
        ({
            let cfg = function_cfg(params, captures, body, checked);
            countable(cfg.blocks) ==> cfg.complete
        }),
{
    reveal(function_cfg);
    let explicit = declared_names(body, 0, Seq::empty());
    let implicit = implicit_names(body, explicit, 0, Seq::empty());
    let named = same_names(params, 0, Seq::empty());
    let (vars, scope) = rooted(implicit, 0, params, named);
    finished_is_sealed(
        vars,
        scope,
        captures,
        Seq::empty(),
        true,
        checked,
        body,
        TerminatorView::Return(None),
        params.len() as usize,
    );
}

/// The graph of a region is complete whenever its blocks and edges stay within 32 bits.
pub proof fn region_finds_room(
    seed_vars: Seq<Seq<char>>,
    body: Seq<StmtView>,
    external: Seq<(usize, usize)>,
    checked: Seq<CheckedExprView>,
)
    ensures
        ({
            let cfg = region_cfg(seed_vars, body, external, checked);
            countable(cfg.blocks) ==> cfg.complete
        }),
{
    reveal(region_cfg);
    let loops = escaping_loops(external, 0, Seq::empty());
    escaping_loops_escape(external, 0, Seq::empty());
    let scope = same_names(seed_vars, 0, Seq::empty());
    finished_is_sealed(
        seed_vars,
        scope,
        Seq::empty(),
        loops,
        false,
        checked,
        body,
        TerminatorView::FallOff,
        0,
    );
}

proof fn escaping_loops_escape(targets: Seq<(usize, usize)>, i: nat, out: Seq<LoopFrame>)
    requires
        all_outside(out),
    ensures
        all_outside(escaping_loops(targets, i, out)),
    decreases targets, (targets.len() - i) as nat,
{
    if i < targets.len() {
        let target = targets[i as int];
        let next = out.push(LoopFrame { header: target.0, exit: target.1, escape: true });
        escaping_loops_escape(targets, i + 1, next);
    }
}

/// Every block of a region ends in a terminator, and its jumps and branches go to blocks of
/// the region.
pub proof fn region_blocks_end(
    seed_vars: Seq<Seq<char>>,
    body: Seq<StmtView>,
    external: Seq<(usize, usize)>,
    checked: Seq<CheckedExprView>,
)
    ensures
        ({
            let cfg = region_cfg(seed_vars, body, external, checked);
            cfg.complete ==> all_sealed(cfg.blocks) && cfg.blocks.len() > 0
        }),
{
    reveal(region_cfg);
    let loops = escaping_loops(external, 0, Seq::empty());
    escaping_loops_escape(external, 0, Seq::empty());
    let scope = same_names(seed_vars, 0, Seq::empty());
    finished_is_sealed(
        seed_vars,
        scope,
        Seq::empty(),
        loops,
        false,
        checked,
        body,
        TerminatorView::FallOff,
        0,
    );
}

} // verus!
