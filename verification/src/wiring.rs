//! The edges of a control-flow graph go where its blocks end.

use crate::ast::{Expr, ExprKindView, ExprView, Stmt, StmtKindView, StmtView};
use crate::cfg::{
    escaping_loops, finished, function_cfg, region_cfg, rooted, same_names, started,
};
use crate::checked::CheckedExprView;
use crate::facts::{made_expr, made_ident, unchecked_expr};
use crate::graph::{no_blocks, targets_of, BlockGraphView};
use crate::hir::{BasicBlockView, HirInstrView, TerminatorView};
use crate::locals::{declared_names, implicit_names};
use crate::lower::{
    LoopFrame, LowerView, all_loops_escape, below_length, binding_ty_of, connect_targets,
    connect_to, declare, element_at, enter_scope, fresh_name, intern, leave_loop, leave_scope,
    lower_block, lower_branches, lower_for, lower_jump, lower_loop_body, lower_loop_else,
    lower_opaque, lower_opt_scoped, lower_ref_decl, lower_ref_for, lower_scoped, lower_stmt,
    lower_while, lowered_expr, lowered_opt_expr, lowered_statement, name_in_scope, new_block,
    protocol_of, push_instr, seal_block, shadows, slot_name, successor, take_captured,
    targets_of_loops, unsealed, visible, without_name,
};
use crate::scopes::{runtime_name, slot_of, with_entry};
use crate::text::decimal;
use vstd::prelude::*;

verus! {

/// The blocks that a terminator leads to, the last target first.
pub open spec fn ends_at(term: Option<TerminatorView>) -> Seq<usize> {
    match term {
        Some(TerminatorView::Jump(to)) => seq![to],
        Some(TerminatorView::Branch { then_b, else_b, .. }) => seq![else_b, then_b],
        _ => Seq::empty(),
    }
}

/// Whether the edges of a graph go where its blocks end, and nowhere else.
pub open spec fn edges_follow(g: BlockGraphView, blocks: Seq<BasicBlockView>) -> bool {
    &&& g.nodes == blocks.len()
    &&& forall|k: int| 0 <= k < g.edges.len() ==> #[trigger] g.edges[k].0 < g.nodes
    &&& forall|b: usize|
        b < blocks.len() ==> #[trigger] targets_of(g.edges, b) == ends_at(blocks[b as int].term)
}

/// Whether the edges follow the blocks, as long as all blocks and edges found room.
pub open spec fn wired(s: LowerView) -> bool {
    s.complete ==> edges_follow(s.g, s.blocks)
}

proof fn one_more_edge(edges: Seq<(usize, usize)>, from: usize, to: usize, b: usize)
    ensures
        targets_of(edges.push((from, to)), b) == (if from == b {
            seq![to] + targets_of(edges, b)
        } else {
            targets_of(edges, b)
        }),
{
    assert(edges.push((from, to)).drop_last() =~= edges);
}

proof fn no_edge_out(edges: Seq<(usize, usize)>, b: usize)
    requires
        forall|k: int| 0 <= k < edges.len() ==> #[trigger] edges[k].0 != b,
    ensures
        targets_of(edges, b) == Seq::<usize>::empty(),
    decreases edges.len(),
{
    if edges.len() > 0 {
        let rest = edges.drop_last();
        assert forall|k: int| 0 <= k < rest.len() implies #[trigger] rest[k].0 != b by {
            assert(rest[k] == edges[k]);
        }
        no_edge_out(rest, b);
        assert(edges.last() == edges[edges.len() - 1]);
    }
}

proof fn new_block_wired(s: LowerView)
    requires
        wired(s),
    ensures
        wired(new_block(s).0),
{
    reveal(new_block);
    let t = new_block(s).0;
    if t.complete {
        assert forall|b: usize| b < t.blocks.len() implies #[trigger] targets_of(t.g.edges, b)
            == ends_at(t.blocks[b as int].term) by {
            if b == s.blocks.len() {
                assert forall|k: int| 0 <= k < s.g.edges.len() implies #[trigger] s.g.edges[k].0
                    != b by {}
                no_edge_out(s.g.edges, b);
            }
        }
    }
}

proof fn seal_block_wired(s: LowerView, term: TerminatorView)
    requires
        wired(s),
    ensures
        wired(seal_block(s, term)),
{
    reveal(unsealed);
    reveal(connect_to);
    reveal(connect_targets);
    reveal(seal_block);
    let t = seal_block(s, term);
    if unsealed(s) && t.complete {
        let cur = s.cur;
        assert(targets_of(s.g.edges, cur) == Seq::<usize>::empty());
        assert forall|b: usize| b < t.blocks.len() implies #[trigger] targets_of(t.g.edges, b)
            == ends_at(t.blocks[b as int].term) by {
            match term {
                TerminatorView::Jump(to) => {
                    one_more_edge(s.g.edges, cur, to, b);
                },
                TerminatorView::Branch { then_b, else_b, .. } => {
                    one_more_edge(s.g.edges, cur, then_b, b);
                    one_more_edge(s.g.edges.push((cur, then_b)), cur, else_b, b);
                },
                _ => {},
            }
            assert(targets_of(s.g.edges, b) == ends_at(s.blocks[b as int].term));
            assert(targets_of(t.g.edges, b) =~= ends_at(t.blocks[b as int].term));
        }
    }
}


proof fn push_instr_wired(
    s: LowerView,
    instr: HirInstrView,
)
    requires
        wired(s),
    ensures
        wired(push_instr(s, instr)),
{
    reveal(push_instr);
    let _ = {
        if unsealed(s) {
            let block = s.blocks[s.cur as int];
            LowerView {
                blocks: s.blocks.update(
                    s.cur as int,
                    BasicBlockView { instrs: block.instrs.push(instr), term: None },
                ),
                ..s
            }
        } else {
            s
        }
    };
}


proof fn intern_wired(
    s: LowerView,
    name: Seq<char>,
)
    requires
        wired(s),
    ensures
        wired(intern(s, name).0),
{
    reveal(intern);
    let _ = {
        match slot_of(s.vars, name, 0) {
            Some(i) => (s, i as u32),
            None => (LowerView { vars: s.vars.push(name), ..s }, s.vars.len() as u32),
        }
    };
}

proof fn name_in_scope_wired(
    s: LowerView,
    name: Seq<char>,
    runtime: Seq<char>,
)
    requires
        wired(s),
    ensures
        wired(name_in_scope(s, name, runtime)),
{
    reveal(name_in_scope);
    let _ = {
        LowerView { scopes: with_entry(s.scopes, name, runtime), ..s }
    };
}

proof fn enter_scope_wired(
    s: LowerView,
)
    requires
        wired(s),
    ensures
        wired(enter_scope(s)),
{
    reveal(enter_scope);
    let _ = {
        LowerView { scopes: s.scopes.push(Seq::empty()), ..s }
    };
}

proof fn leave_scope_wired(
    s: LowerView,
)
    requires
        wired(s),
    ensures
        wired(leave_scope(s)),
{
    reveal(leave_scope);
    let _ = {
        if s.scopes.len() == 0 {
            s
        } else {
            LowerView { scopes: s.scopes.drop_last(), ..s }
        }
    };
}

proof fn leave_loop_wired(
    s: LowerView,
)
    requires
        wired(s),
    ensures
        wired(leave_loop(s)),
{
    reveal(leave_loop);
    let _ = {
        if s.loops.len() == 0 {
            s
        } else {
            LowerView { loops: s.loops.drop_last(), ..s }
        }
    };
}

proof fn take_captured_wired(
    s: LowerView,
    name: Seq<char>,
)
    requires
        wired(s),
    ensures
        wired(take_captured(s, name).0),
{
    reveal(take_captured);
    let _ = {
        (
            LowerView { captures: without_name(s.captures, name), ..s },
            s.captures.contains(name),
        )
    };
}

proof fn declare_wired(
    s: LowerView,
    name: Seq<char>,
)
    requires
        wired(s),
    ensures
        wired(declare(s, name).0),
{
    reveal(declare);
    let _ = {
        let runtime = if shadows(s, name) {
            let count = s.vars.len() as usize;
            name + "$shadow"@ + decimal(count as nat)
        } else {
            name
        };
        let s = if s.scopes.len() == 0 {
            let s = {
                enter_scope_wired(s);
                enter_scope(s)
            };
            s
        } else {
            s
        };
        let s = {
            name_in_scope_wired(s, name, runtime);
            name_in_scope(s, name, runtime)
        };
        {
            intern_wired(s, runtime);
            intern(s, runtime)
        }
    };
}

proof fn lower_ref_decl_wired(
    s: LowerView,
    stmt: StmtView,
    name: Seq<char>,
    value: ExprView,
)
    requires
        wired(s),
    ensures
        wired(lower_ref_decl(s, stmt, name, value)),
{
    reveal(lower_ref_decl);
    let _ = {
        let value = lowered_expr(s, value);
        let (s, runtime) = {
            declare_wired(s, name);
            declare(s, name)
        };
        let syntax = StmtView {
            kind: StmtKindView::RefDecl { name: slot_name(s, runtime), value: value.syntax },
            span: stmt.span,
            module: stmt.module,
        };
        let statement = lowered_statement(s, syntax);
        let s = {
            push_instr_wired(s, HirInstrView::Stmt(statement));
            push_instr(s, HirInstrView::Stmt(statement))
        };
        s
    };
}

proof fn lower_opaque_wired(
    s: LowerView,
    stmt: StmtView,
)
    requires
        wired(s),
    ensures
        wired(lower_opaque(s, stmt)),
{
    reveal(lower_opaque);
    let _ = {
        let statement = lowered_statement(s, stmt);
        let s = {
            push_instr_wired(s, HirInstrView::Stmt(statement));
            push_instr(s, HirInstrView::Stmt(statement))
        };
        s
    };
}

proof fn lower_jump_wired(
    s: LowerView,
    stmt: StmtView,
    to_header: bool,
)
    requires
        wired(s),
    ensures
        wired(lower_jump(s, stmt, to_header)),
{
    reveal(lower_jump);
    let _ = {
        if s.loops.len() == 0 {
            let s = {
                lower_opaque_wired(s, stmt);
                lower_opaque(s, stmt)
            };
            s
        } else {
            let frame = s.loops[(s.loops.len() - 1) as usize as int];
            let target = if to_header {
                frame.header
            } else {
                frame.exit
            };
            let term = if frame.escape {
                TerminatorView::EscapeJump(target)
            } else {
                TerminatorView::Jump(target)
            };
            let s = {
                seal_block_wired(s, term);
                seal_block(s, term)
            };
            s
        }
    };
}

proof fn lower_scoped_wired(
    s: LowerView,
    body: Seq<StmtView>,
)
    requires
        wired(s),
    ensures
        wired(lower_scoped(s, body)),
    decreases body, body.len() + 1,
{
    let _ = {
        let s = {
            enter_scope_wired(s);
            enter_scope(s)
        };
        let s = {
            lower_block_wired(s, body, 0);
            lower_block(s, body, 0)
        };
        let s = {
            leave_scope_wired(s);
            leave_scope(s)
        };
        s
    };
}

proof fn lower_block_wired(
    s: LowerView,
    body: Seq<StmtView>,
    i: nat,
)
    requires
        wired(s),
    ensures
        wired(lower_block(s, body, i)),
    decreases body, (body.len() - i) as nat,
{
    let _ = {
        if i >= body.len() {
            s
        } else {
            let stmt = body[i as int];
            let s = {
                lower_stmt_wired(s, stmt);
                lower_stmt(s, stmt)
            };
            {
                lower_block_wired(s, body, i + 1);
                lower_block(s, body, i + 1)
            }
        }
    };
}

proof fn lower_branches_wired(
    s: LowerView,
    branches: Seq<(ExprView, Seq<StmtView>)>,
    join: usize,
    i: nat,
)
    requires
        wired(s),
    ensures
        wired(lower_branches(s, branches, join, i)),
    decreases branches, (branches.len() - i) as nat,
{
    let _ = {
        if i >= branches.len() {
            s
        } else {
            let branch = branches[i as int];
            let (s, then_b) = {
                new_block_wired(s);
                new_block(s)
            };
            let (s, else_b) = {
                new_block_wired(s);
                new_block(s)
            };
            let cond = lowered_expr(s, branch.0);
            let s = {
                seal_block_wired(s, TerminatorView::Branch { cond, then_b, else_b });
                seal_block(s, TerminatorView::Branch { cond, then_b, else_b })
            };
            let s = LowerView { cur: then_b, ..s };
            let s = {
                lower_scoped_wired(s, branch.1);
                lower_scoped(s, branch.1)
            };
            let s = {
                seal_block_wired(s, TerminatorView::Jump(join));
                seal_block(s, TerminatorView::Jump(join))
            };
            let s = LowerView { cur: else_b, ..s };
            {
                lower_branches_wired(s, branches, join, i + 1);
                lower_branches(s, branches, join, i + 1)
            }
        }
    };
}

proof fn lower_opt_scoped_wired(
    s: LowerView,
    body: Option<Seq<StmtView>>,
)
    requires
        wired(s),
    ensures
        wired(lower_opt_scoped(s, body)),
    decreases body, 0nat,
{
    let _ = {
        match body {
            Some(body) => {
                let s = {
                    lower_scoped_wired(s, body);
                    lower_scoped(s, body)
                };
                s
            },
            None => s,
        }
    };
}

proof fn lower_loop_else_wired(
    s: LowerView,
    orelse: Option<Seq<StmtView>>,
    normal_exit: usize,
    exit: usize,
)
    requires
        wired(s),
    ensures
        wired(lower_loop_else(s, orelse, normal_exit, exit)),
    decreases orelse, 0nat,
{
    let _ = {
        match orelse {
            Some(body) => {
                let s = LowerView { cur: normal_exit, ..s };
                let s = {
                    lower_scoped_wired(s, body);
                    lower_scoped(s, body)
                };
                let s = {
                    seal_block_wired(s, TerminatorView::Jump(exit));
                    seal_block(s, TerminatorView::Jump(exit))
                };
                s
            },
            None => s,
        }
    };
}

proof fn lower_loop_body_wired(
    s: LowerView,
    body: Seq<StmtView>,
    header: usize,
    exit: usize,
)
    requires
        wired(s),
    ensures
        wired(lower_loop_body(s, body, header, exit)),
    decreases body, body.len() + 1,
{
    let _ = {
        let s = LowerView { loops: s.loops.push(LoopFrame { header, exit, escape: false }), ..s };
        let s = {
            lower_block_wired(s, body, 0);
            lower_block(s, body, 0)
        };
        let s = {
            leave_loop_wired(s);
            leave_loop(s)
        };
        s
    };
}

proof fn lower_while_wired(
    s: LowerView,
    stmt: StmtView,
)
    requires
        wired(s),
    ensures
        wired(lower_while(s, stmt)),
    decreases stmt, 1nat,
{
    let _ = {
        match stmt.kind {
            StmtKindView::While { cond, body, orelse } => {
                let (s, header) = {
                    new_block_wired(s);
                    new_block(s)
                };
                let (s, body_b) = {
                    new_block_wired(s);
                    new_block(s)
                };
                let (s, exit) = {
                    new_block_wired(s);
                    new_block(s)
                };
                let (s, normal_exit) = if orelse is Some {
                    {
                        new_block_wired(s);
                        new_block(s)
                    }
                } else {
                    (s, exit)
                };
                let s = {
                    seal_block_wired(s, TerminatorView::Jump(header));
                    seal_block(s, TerminatorView::Jump(header))
                };
                let s = LowerView { cur: header, ..s };
                let cond = lowered_expr(s, cond);
                let s = {
                    seal_block_wired(s, TerminatorView::Branch { cond, then_b: body_b, else_b: normal_exit });
                    seal_block(s, TerminatorView::Branch { cond, then_b: body_b, else_b: normal_exit })
                };
                let s = LowerView { cur: body_b, ..s };
                let s = {
                    lower_loop_body_wired(s, body, header, exit);
                    lower_loop_body(s, body, header, exit)
                };
                let s = {
                    seal_block_wired(s, TerminatorView::Jump(header));
                    seal_block(s, TerminatorView::Jump(header))
                };
                let s = {
                    lower_loop_else_wired(s, orelse, normal_exit, exit);
                    lower_loop_else(s, orelse, normal_exit, exit)
                };
                let s = LowerView { cur: exit, ..s };
                s
            },
            _ => s,
        }
    };
}

proof fn lower_for_wired(
    s: LowerView,
    stmt: StmtView,
)
    requires
        wired(s),
    ensures
        wired(lower_for(s, stmt)),
    decreases stmt, 1nat,
{
    let _ = {
        match stmt.kind {
            StmtKindView::For { var, owned, iter, body, orelse, .. } => {
                let it_name = fresh_name(s, "$iter"@);
                let (s, it_var) = {
                    intern_wired(s, it_name);
                    intern(s, it_name)
                };
                let checked_iter = lowered_expr(s, iter);
                let protocol = protocol_of(checked_iter.adjustments, owned);
                let s = {
                    push_instr_wired(s, HirInstrView::Bind { dest: it_var, expr: checked_iter, binding_ty: None });
                    push_instr(s, HirInstrView::Bind { dest: it_var, expr: checked_iter, binding_ty: None })
                };
                let s = {
                    push_instr_wired(s, HirInstrView::GetIter { iter: it_var, protocol });
                    push_instr(s, HirInstrView::GetIter { iter: it_var, protocol })
                };
                let (s, header) = {
                    new_block_wired(s);
                    new_block(s)
                };
                let (s, body_b) = {
                    new_block_wired(s);
                    new_block(s)
                };
                let (s, exit) = {
                    new_block_wired(s);
                    new_block(s)
                };
                let (s, normal_exit) = if orelse is Some {
                    {
                        new_block_wired(s);
                        new_block(s)
                    }
                } else {
                    (s, exit)
                };
                let s = {
                    seal_block_wired(s, TerminatorView::Jump(header));
                    seal_block(s, TerminatorView::Jump(header))
                };
                let s = LowerView { cur: header, ..s };
                let hn_name = fresh_name(s, "$hasnext"@);
                let (s, hn_var) = {
                    intern_wired(s, hn_name);
                    intern(s, hn_name)
                };
                let s = {
                    push_instr_wired(s, HirInstrView::HasNext { iter: it_var, dest: hn_var, method: protocol.has_next });
                    push_instr(s, HirInstrView::HasNext { iter: it_var, dest: hn_var, method: protocol.has_next })
                };
                let more = unchecked_expr(made_ident(hn_name));
                let s = {
                    seal_block_wired(s, TerminatorView::Branch { cond: more, then_b: body_b, else_b: normal_exit });
                    seal_block(s, TerminatorView::Branch { cond: more, then_b: body_b, else_b: normal_exit })
                };
                let s = LowerView { cur: body_b, ..s };
                let (s, element) = {
                    intern_wired(s, var);
                    intern(s, var)
                };
                let s = {
                    push_instr_wired(s, HirInstrView::Next { iter: it_var, dest: element, method: protocol.next });
                    push_instr(s, HirInstrView::Next { iter: it_var, dest: element, method: protocol.next })
                };
                let s = {
                    lower_loop_body_wired(s, body, header, exit);
                    lower_loop_body(s, body, header, exit)
                };
                let s = {
                    seal_block_wired(s, TerminatorView::Jump(header));
                    seal_block(s, TerminatorView::Jump(header))
                };
                let s = {
                    lower_loop_else_wired(s, orelse, normal_exit, exit);
                    lower_loop_else(s, orelse, normal_exit, exit)
                };
                let s = LowerView { cur: exit, ..s };
                s
            },
            _ => s,
        }
    };
}

proof fn lower_ref_for_wired(
    s: LowerView,
    stmt: StmtView,
    source: Seq<char>,
)
    requires
        wired(s),
    ensures
        wired(lower_ref_for(s, stmt, source)),
    decreases stmt, 1nat,
{
    let _ = {
        match stmt.kind {
            StmtKindView::For { var, body, orelse, .. } => {
                let index_name = fresh_name(s, "$refindex"@);
                let (s, index_var) = {
                    intern_wired(s, index_name);
                    intern(s, index_name)
                };
                let zero = unchecked_expr(made_expr(ExprKindView::Int(0), (0, 0)));
                let s = {
                    push_instr_wired(s, HirInstrView::Bind { dest: index_var, expr: zero, binding_ty: None });
                    push_instr(s, HirInstrView::Bind { dest: index_var, expr: zero, binding_ty: None })
                };
                let (s, header) = {
                    new_block_wired(s);
                    new_block(s)
                };
                let (s, body_b) = {
                    new_block_wired(s);
                    new_block(s)
                };
                let (s, exit) = {
                    new_block_wired(s);
                    new_block(s)
                };
                let (s, normal_exit) = if orelse is Some {
                    {
                        new_block_wired(s);
                        new_block(s)
                    }
                } else {
                    (s, exit)
                };
                let s = {
                    seal_block_wired(s, TerminatorView::Jump(header));
                    seal_block(s, TerminatorView::Jump(header))
                };
                let s = LowerView { cur: header, ..s };
                let below = unchecked_expr(below_length(index_name, source));
                let s = {
                    seal_block_wired(s, TerminatorView::Branch { cond: below, then_b: body_b, else_b: normal_exit });
                    seal_block(s, TerminatorView::Branch { cond: below, then_b: body_b, else_b: normal_exit })
                };
                let s = LowerView { cur: body_b, ..s };
                let target = element_at(source, index_name);
                let unnamed = StmtView { kind: StmtKindView::Pass, span: stmt.span, module: None };
                let s = {
                    lower_ref_decl_wired(s, unnamed, var, target);
                    lower_ref_decl(s, unnamed, var, target)
                };
                let s = {
                    lower_loop_body_wired(s, body, header, exit);
                    lower_loop_body(s, body, header, exit)
                };
                let next = unchecked_expr(successor(index_name));
                let s = {
                    push_instr_wired(s, HirInstrView::Bind { dest: index_var, expr: next, binding_ty: None });
                    push_instr(s, HirInstrView::Bind { dest: index_var, expr: next, binding_ty: None })
                };
                let s = {
                    seal_block_wired(s, TerminatorView::Jump(header));
                    seal_block(s, TerminatorView::Jump(header))
                };
                let s = {
                    lower_loop_else_wired(s, orelse, normal_exit, exit);
                    lower_loop_else(s, orelse, normal_exit, exit)
                };
                let s = LowerView { cur: exit, ..s };
                s
            },
            _ => s,
        }
    };
}

proof fn lower_stmt_wired(
    s: LowerView,
    stmt: StmtView,
)
    requires
        wired(s),
    ensures
        wired(lower_stmt(s, stmt)),
    decreases stmt, 2nat,
{
    let _ = {
        match stmt.kind {
            StmtKindView::If { branches, orelse } => {
                let (s, join) = {
                    new_block_wired(s);
                    new_block(s)
                };
                let s = {
                    lower_branches_wired(s, branches, join, 0);
                    lower_branches(s, branches, join, 0)
                };
                let s = {
                    lower_opt_scoped_wired(s, orelse);
                    lower_opt_scoped(s, orelse)
                };
                let s = {
                    seal_block_wired(s, TerminatorView::Jump(join));
                    seal_block(s, TerminatorView::Jump(join))
                };
                let s = LowerView { cur: join, ..s };
                s
            },
            StmtKindView::While { .. } => {
                let s = {
                    lower_while_wired(s, stmt);
                    lower_while(s, stmt)
                };
                s
            },
            StmtKindView::For { reference, iter, .. } => if reference {
                match iter.kind {
                    ExprKindView::Identifier(source) => {
                        let s = {
                            lower_ref_for_wired(s, stmt, source);
                            lower_ref_for(s, stmt, source)
                        };
                        s
                    },
                    _ => {
                        let pass = StmtView { kind: StmtKindView::Pass, span: stmt.span, module: None };
                        let s = {
                            lower_opaque_wired(s, pass);
                            lower_opaque(s, pass)
                        };
                        s
                    },
                }
            } else {
                let s = {
                    lower_for_wired(s, stmt);
                    lower_for(s, stmt)
                };
                s
            },
            StmtKindView::Break => {
                let s = {
                    lower_jump_wired(s, stmt, false);
                    lower_jump(s, stmt, false)
                };
                s
            },
            StmtKindView::Continue => {
                let s = {
                    lower_jump_wired(s, stmt, true);
                    lower_jump(s, stmt, true)
                };
                s
            },
            StmtKindView::Return(value) => {
                let value = lowered_opt_expr(s, value);
                let s = {
                    seal_block_wired(s, TerminatorView::Return(value));
                    seal_block(s, TerminatorView::Return(value))
                };
                s
            },
            StmtKindView::VarDecl { name, value, .. } => {
                let value = lowered_expr(s, value);
                let (s, slot) = {
                    declare_wired(s, name);
                    declare(s, name)
                };
                let binding_ty = binding_ty_of(s.checked, value);
                let s = {
                    push_instr_wired(s, HirInstrView::Bind { dest: slot, expr: value, binding_ty });
                    push_instr(s, HirInstrView::Bind { dest: slot, expr: value, binding_ty })
                };
                s
            },
            StmtKindView::RefDecl { name, value } => {
                let s = {
                    lower_ref_decl_wired(s, stmt, name, value);
                    lower_ref_decl(s, stmt, name, value)
                };
                s
            },
            StmtKindView::Assign { name, value } => {
                let value = lowered_expr(s, value);
                let (s, captured) = {
                    take_captured_wired(s, name);
                    take_captured(s, name)
                };
                let s = if !visible(s, name) {
                    let s = {
                        name_in_scope_wired(s, name, name);
                        name_in_scope(s, name, name)
                    };
                    s
                } else {
                    s
                };
                let runtime = if captured {
                    let count = s.vars.len() as usize;
                    name + "$shadow"@ + decimal(count as nat)
                } else {
                    runtime_name(s.scopes, name)
                };
                let s = if captured {
                    let s = {
                        name_in_scope_wired(s, name, runtime);
                        name_in_scope(s, name, runtime)
                    };
                    s
                } else {
                    s
                };
                let (s, slot) = {
                    intern_wired(s, runtime);
                    intern(s, runtime)
                };
                let s = {
                    push_instr_wired(s, HirInstrView::Bind { dest: slot, expr: value, binding_ty: None });
                    push_instr(s, HirInstrView::Bind { dest: slot, expr: value, binding_ty: None })
                };
                s
            },
            StmtKindView::Expr(value) => {
                let value = lowered_expr(s, value);
                let s = {
                    push_instr_wired(s, HirInstrView::Eval(value));
                    push_instr(s, HirInstrView::Eval(value))
                };
                s
            },
            StmtKindView::Try { .. } => if s.is_function || all_loops_escape(s.loops, 0) {
                let targets = targets_of_loops(s.loops, 0, Seq::empty());
                let statement = lowered_statement(s, stmt);
                let s = {
                    push_instr_wired(s, HirInstrView::Try { stmt: statement, loop_targets: targets });
                    push_instr(s, HirInstrView::Try { stmt: statement, loop_targets: targets })
                };
                s
            } else {
                let s = {
                    lower_opaque_wired(s, stmt);
                    lower_opaque(s, stmt)
                };
                s
            },
            _ => {
                let s = {
                    lower_opaque_wired(s, stmt);
                    lower_opaque(s, stmt)
                };
                s
            },
        }
    };
}

proof fn finished_wired(lower: LowerView, body: Seq<StmtView>, end: TerminatorView, n_params: usize)
    requires
        wired(lower),
    ensures
        ({
            let cfg = finished(lower, body, end, n_params);
            cfg.complete ==> edges_follow(cfg.g, cfg.blocks)
        }),
{
    reveal(finished);
    lower_block_wired(lower, body, 0);
    seal_block_wired(lower_block(lower, body, 0), end);
}

proof fn started_wired(
    vars: Seq<Seq<char>>,
    scope: Seq<(Seq<char>, Seq<char>)>,
    captures: Seq<Seq<char>>,
    loops: Seq<LoopFrame>,
    is_function: bool,
    checked: Seq<CheckedExprView>,
)
    ensures
        wired(started(vars, scope, captures, loops, is_function, checked)),
{
    reveal(started);
    let lower = LowerView {
        g: no_blocks(),
        blocks: Seq::empty(),
        cur: 0,
        loops,
        vars,
        scopes: seq![scope],
        captures,
        is_function,
        checked,
        complete: true,
    };
    new_block_wired(lower);
}

/// The edges of a function's graph go where its blocks end: the successors of a block are
/// the targets of its terminator.
pub proof fn function_edges_follow(
    params: Seq<Seq<char>>,
    captures: Seq<Seq<char>>,
    body: Seq<StmtView>,
    checked: Seq<CheckedExprView>,
)
    ensures
        ({
            let cfg = function_cfg(params, captures, body, checked);
            cfg.complete ==> edges_follow(cfg.g, cfg.blocks)
        }),
{
    reveal(function_cfg);
    let explicit = declared_names(body, 0, Seq::empty());
    let implicit = implicit_names(body, explicit, 0, Seq::empty());
    let named = same_names(params, 0, Seq::empty());
    let (vars, scope) = rooted(implicit, 0, params, named);
    started_wired(vars, scope, captures, Seq::empty(), true, checked);
    let lower = started(vars, scope, captures, Seq::empty(), true, checked);
    finished_wired(lower, body, TerminatorView::Return(None), params.len() as usize);
}

/// The edges of a region's graph go where its blocks end.
pub proof fn region_edges_follow(
    seed_vars: Seq<Seq<char>>,
    body: Seq<StmtView>,
    external: Seq<(usize, usize)>,
    checked: Seq<CheckedExprView>,
)
    ensures
        ({
            let cfg = region_cfg(seed_vars, body, external, checked);
            cfg.complete ==> edges_follow(cfg.g, cfg.blocks)
        }),
{
    reveal(region_cfg);
    let loops = escaping_loops(external, 0, Seq::empty());
    let scope = same_names(seed_vars, 0, Seq::empty());
    started_wired(seed_vars, scope, Seq::empty(), loops, false, checked);
    let lower = started(seed_vars, scope, Seq::empty(), loops, false, checked);
    finished_wired(lower, body, TerminatorView::FallOff, 0);
}

} // verus!
