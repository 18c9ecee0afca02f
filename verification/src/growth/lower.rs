//! Lowering only adds slots and blocks.

use crate::ast::{Expr, ExprKindView, ExprView, Stmt, StmtKindView, StmtView};
use crate::facts::{made_expr, made_ident, unchecked_expr};
use crate::graph::{block_fits, edge_fits, with_block, with_edge};
use crate::growth::starts_with;
use crate::hir::{BasicBlockView, HirInstrView, TerminatorView};
use crate::lower::{
    LoopFrame, LowerView, all_loops_escape, below_length, binding_ty_of, connect_targets,
    connect_to, declare, element_at, empty_block, enter_scope, fresh_name, intern, leave_loop,
    leave_scope, lower_block, lower_branches, lower_for, lower_jump, lower_loop_body,
    lower_loop_else, lower_opaque, lower_opt_scoped, lower_ref_decl, lower_ref_for, lower_scoped,
    lower_stmt, lower_while, lowered_expr, lowered_opt_expr, lowered_statement, name_in_scope,
    new_block, protocol_of, push_instr, seal_block, shadows, slot_name, successor, take_captured,
    targets_of_loops, unsealed, visible, without_name,
};
use crate::scopes::{runtime_name, slot_of, with_entry};
use crate::text::decimal;
use vstd::prelude::*;

verus! {

/// Whether a state of lowering goes on from another: the slots are still there, under
/// their numbers, and no block is gone. Blocks that have ended stay as they are, and of the
/// others only the current one is extended.
pub open spec fn grown(from: LowerView, s: LowerView) -> bool {
    &&& starts_with(s.vars, from.vars)
    &&& from.blocks.len() <= s.blocks.len()
    &&& s.blocks.len() <= usize::MAX ==> kept(from, s)
}

/// Whether two states have the same scopes around the innermost.
pub open spec fn same_outside(s: LowerView, t: LowerView) -> bool {
    s.scopes.len() == t.scopes.len() && s.scopes.drop_last() == t.scopes.drop_last()
}

/// Whether the blocks of a state are still there in another, but for what was added to the
/// current one.
pub open spec fn kept(from: LowerView, s: LowerView) -> bool {
    &&& s.cur == from.cur || from.blocks.len() <= s.cur
    &&& forall|b: int|
        0 <= b < from.blocks.len() && (b != from.cur || from.blocks[b].term is Some)
            ==> #[trigger] s.blocks[b] == from.blocks[b]
    &&& from.cur < from.blocks.len() ==> starts_with(
        s.blocks[from.cur as int].instrs,
        from.blocks[from.cur as int].instrs,
    )
}

pub(crate) proof fn new_block_grows(
    from: LowerView,
    s: LowerView,
)
    requires
        grown(from, s),
    ensures
        grown(from, new_block(s).0),
        s.blocks.len() <= new_block(s).0.blocks.len(),
        new_block(s).0.loops == s.loops,
        s.scopes.len() > 0 ==> same_outside(s, new_block(s).0),
        s.blocks.len() <= usize::MAX ==> from.blocks.len() <= new_block(s).1,
{
    reveal(new_block);
    let _ = {
        (
            LowerView {
                g: with_block(s.g),
                blocks: s.blocks.push(empty_block()),
                complete: s.complete && block_fits(s.g),
                ..s
            },
            s.blocks.len() as usize,
        )
    };
}

pub(crate) proof fn push_instr_grows(
    from: LowerView,
    s: LowerView,
    instr: HirInstrView,
)
    requires
        grown(from, s),
    ensures
        grown(from, push_instr(s, instr)),
        s.blocks.len() <= push_instr(s, instr).blocks.len(),
        push_instr(s, instr).loops == s.loops,
        s.scopes.len() > 0 ==> same_outside(s, push_instr(s, instr)),
{
    reveal(push_instr);
    let _ = {
        if unsealed(s) {
            let block = s.blocks[s.cur as int];
            LowerView {
                blocks: s.blocks.update(
                    s.cur as int,
                    BasicBlockView { instrs: block.instrs.push(instr), term: None },
                ),
                ..s
            }
        } else {
            s
        }
    };
}

pub(crate) proof fn connect_to_grows(
    from: LowerView,
    s: LowerView,
    to: usize,
)
    requires
        grown(from, s),
    ensures
        grown(from, connect_to(s, to)),
        s.blocks.len() <= connect_to(s, to).blocks.len(),
        connect_to(s, to).loops == s.loops,
        s.scopes.len() > 0 ==> same_outside(s, connect_to(s, to)),
{
    reveal(connect_to);
    let _ = {
        LowerView {
            g: with_edge(s.g, s.cur, to),
            complete: s.complete && edge_fits(s.g, s.cur, to),
            ..s
        }
    };
}

pub(crate) proof fn connect_targets_grows(
    from: LowerView,
    s: LowerView,
    term: TerminatorView,
)
    requires
        grown(from, s),
    ensures
        grown(from, connect_targets(s, term)),
        s.blocks.len() <= connect_targets(s, term).blocks.len(),
        connect_targets(s, term).loops == s.loops,
        s.scopes.len() > 0 ==> same_outside(s, connect_targets(s, term)),
{
    reveal(connect_targets);
    let _ = {
        match term {
            TerminatorView::Jump(to) => {
                connect_to_grows(from, s, to);
                connect_to(s, to)
            },
            TerminatorView::Branch { then_b, else_b, .. } => {
                connect_to_grows(from, s, then_b);
                connect_to_grows(from, connect_to(s, then_b), else_b);
                connect_to(connect_to(s, then_b), else_b)
            },
            _ => s,
        }
    };
}

pub(crate) proof fn seal_block_grows(
    from: LowerView,
    s: LowerView,
    term: TerminatorView,
)
    requires
        grown(from, s),
    ensures
        grown(from, seal_block(s, term)),
        s.blocks.len() <= seal_block(s, term).blocks.len(),
        seal_block(s, term).loops == s.loops,
        s.scopes.len() > 0 ==> same_outside(s, seal_block(s, term)),
{
    reveal(seal_block);
    reveal(unsealed);
    reveal(connect_to);
    reveal(connect_targets);
    let _ = {
        if unsealed(s) {
            let t = {
                connect_targets_grows(from, s, term);
                connect_targets(s, term)
            };
            let block = t.blocks[t.cur as int];
            LowerView {
                blocks: t.blocks.update(
                    t.cur as int,
                    BasicBlockView { instrs: block.instrs, term: Some(term) },
                ),
                ..t
            }
        } else {
            s
        }
    };
}

pub(crate) proof fn intern_grows(
    from: LowerView,
    s: LowerView,
    name: Seq<char>,
)
    requires
        grown(from, s),
    ensures
        grown(from, intern(s, name).0),
        s.blocks.len() <= intern(s, name).0.blocks.len(),
        intern(s, name).0.loops == s.loops,
        s.scopes.len() > 0 ==> same_outside(s, intern(s, name).0),
{
    reveal(intern);
    let _ = {
        match slot_of(s.vars, name, 0) {
            Some(i) => (s, i as u32),
            None => (LowerView { vars: s.vars.push(name), ..s }, s.vars.len() as u32),
        }
    };
}

pub(crate) proof fn name_in_scope_grows(
    from: LowerView,
    s: LowerView,
    name: Seq<char>,
    runtime: Seq<char>,
)
    requires
        grown(from, s),
    ensures
        grown(from, name_in_scope(s, name, runtime)),
        s.blocks.len() <= name_in_scope(s, name, runtime).blocks.len(),
        name_in_scope(s, name, runtime).loops == s.loops,
        s.scopes.len() > 0 ==> same_outside(s, name_in_scope(s, name, runtime)),
{
    reveal(name_in_scope);
    assert(s.scopes.len() > 0 ==> with_entry(s.scopes, name, runtime).drop_last()
        =~= s.scopes.drop_last());
    let _ = {
        LowerView { scopes: with_entry(s.scopes, name, runtime), ..s }
    };
}

pub(crate) proof fn enter_scope_grows(
    from: LowerView,
    s: LowerView,
)
    requires
        grown(from, s),
    ensures
        grown(from, enter_scope(s)),
        s.blocks.len() <= enter_scope(s).blocks.len(),
        enter_scope(s).loops == s.loops,
        enter_scope(s).scopes == s.scopes.push(Seq::empty()),
{
    reveal(enter_scope);
    let _ = {
        LowerView { scopes: s.scopes.push(Seq::empty()), ..s }
    };
}

pub(crate) proof fn leave_scope_grows(
    from: LowerView,
    s: LowerView,
)
    requires
        grown(from, s),
    ensures
        grown(from, leave_scope(s)),
        s.blocks.len() <= leave_scope(s).blocks.len(),
        leave_scope(s).loops == s.loops,
        s.scopes.len() > 0 ==> leave_scope(s).scopes == s.scopes.drop_last(),
{
    reveal(leave_scope);
    let _ = {
        if s.scopes.len() == 0 {
            s
        } else {
            LowerView { scopes: s.scopes.drop_last(), ..s }
        }
    };
}

pub(crate) proof fn leave_loop_grows(
    from: LowerView,
    s: LowerView,
)
    requires
        grown(from, s),
    ensures
        grown(from, leave_loop(s)),
        s.blocks.len() <= leave_loop(s).blocks.len(),
        s.scopes.len() > 0 ==> same_outside(s, leave_loop(s)),
{
    reveal(leave_loop);
    let _ = {
        if s.loops.len() == 0 {
            s
        } else {
            LowerView { loops: s.loops.drop_last(), ..s }
        }
    };
}

pub(crate) proof fn take_captured_grows(
    from: LowerView,
    s: LowerView,
    name: Seq<char>,
)
    requires
        grown(from, s),
    ensures
        grown(from, take_captured(s, name).0),
        s.blocks.len() <= take_captured(s, name).0.blocks.len(),
        take_captured(s, name).0.loops == s.loops,
        s.scopes.len() > 0 ==> same_outside(s, take_captured(s, name).0),
{
    reveal(take_captured);
    let _ = {
        (
            LowerView { captures: without_name(s.captures, name), ..s },
            s.captures.contains(name),
        )
    };
}

pub(crate) proof fn declare_grows(
    from: LowerView,
    s: LowerView,
    name: Seq<char>,
)
    requires
        grown(from, s),
    ensures
        grown(from, declare(s, name).0),
        s.blocks.len() <= declare(s, name).0.blocks.len(),
        declare(s, name).0.loops == s.loops,
        s.scopes.len() > 0 ==> same_outside(s, declare(s, name).0),
{
    reveal(declare);
    let _ = {
        let runtime = if shadows(s, name) {
            let count = s.vars.len() as usize;
            name + "$shadow"@ + decimal(count as nat)
        } else {
            name
        };
        let s = if s.scopes.len() == 0 {
            let s = {
                enter_scope_grows(from, s);
                enter_scope(s)
            };
            s
        } else {
            s
        };
        let s = {
            name_in_scope_grows(from, s, name, runtime);
            name_in_scope(s, name, runtime)
        };
        {
            intern_grows(from, s, runtime);
            intern(s, runtime)
        }
    };
}

pub(crate) proof fn lower_ref_decl_grows(
    from: LowerView,
    s: LowerView,
    stmt: StmtView,
    name: Seq<char>,
    value: ExprView,
)
    requires
        grown(from, s),
    ensures
        grown(from, lower_ref_decl(s, stmt, name, value)),
        s.blocks.len() <= lower_ref_decl(s, stmt, name, value).blocks.len(),
        lower_ref_decl(s, stmt, name, value).loops == s.loops,
        s.scopes.len() > 0 ==> same_outside(s, lower_ref_decl(s, stmt, name, value)),
{
    reveal(lower_ref_decl);
    let _ = {
        let value = lowered_expr(s, value);
        let (s, runtime) = {
            declare_grows(from, s, name);
            declare(s, name)
        };
        let syntax = StmtView {
            kind: StmtKindView::RefDecl { name: slot_name(s, runtime), value: value.syntax },
            span: stmt.span,
            module: stmt.module,
        };
        let statement = lowered_statement(s, syntax);
        let s = {
            push_instr_grows(from, s, HirInstrView::Stmt(statement));
            push_instr(s, HirInstrView::Stmt(statement))
        };
        s
    };
}

pub(crate) proof fn lower_opaque_grows(
    from: LowerView,
    s: LowerView,
    stmt: StmtView,
)
    requires
        grown(from, s),
    ensures
        grown(from, lower_opaque(s, stmt)),
        s.blocks.len() <= lower_opaque(s, stmt).blocks.len(),
        lower_opaque(s, stmt).loops == s.loops,
        s.scopes.len() > 0 ==> same_outside(s, lower_opaque(s, stmt)),
{
    reveal(lower_opaque);
    let _ = {
        let statement = lowered_statement(s, stmt);
        let s = {
            push_instr_grows(from, s, HirInstrView::Stmt(statement));
            push_instr(s, HirInstrView::Stmt(statement))
        };
        s
    };
}

pub(crate) proof fn lower_jump_grows(
    from: LowerView,
    s: LowerView,
    stmt: StmtView,
    to_header: bool,
)
    requires
        grown(from, s),
    ensures
        grown(from, lower_jump(s, stmt, to_header)),
        s.blocks.len() <= lower_jump(s, stmt, to_header).blocks.len(),
        lower_jump(s, stmt, to_header).loops == s.loops,
        s.scopes.len() > 0 ==> same_outside(s, lower_jump(s, stmt, to_header)),
{
    reveal(lower_jump);
    let _ = {
        if s.loops.len() == 0 {
            let s = {
                lower_opaque_grows(from, s, stmt);
                lower_opaque(s, stmt)
            };
            s
        } else {
            let frame = s.loops[(s.loops.len() - 1) as usize as int];
            let target = if to_header {
                frame.header
            } else {
                frame.exit
            };
            let term = if frame.escape {
                TerminatorView::EscapeJump(target)
            } else {
                TerminatorView::Jump(target)
            };
            let s = {
                seal_block_grows(from, s, term);
                seal_block(s, term)
            };
            s
        }
    };
}

pub(crate) proof fn lower_scoped_grows(
    from: LowerView,
    s: LowerView,
    body: Seq<StmtView>,
)
    requires
        grown(from, s),
    ensures
        grown(from, lower_scoped(s, body)),
        s.blocks.len() <= lower_scoped(s, body).blocks.len(),
        lower_scoped(s, body).loops == s.loops,
        lower_scoped(s, body).scopes == s.scopes,
    decreases body, body.len() + 1,
{
    assert(s.scopes.push(Seq::empty()).drop_last() =~= s.scopes);
    let _ = {
        let s = {
            enter_scope_grows(from, s);
            enter_scope(s)
        };
        let s = {
            lower_block_grows(from, s, body, 0);
            lower_block(s, body, 0)
        };
        let s = {
            leave_scope_grows(from, s);
            leave_scope(s)
        };
        s
    };
}

pub(crate) proof fn lower_block_grows(
    from: LowerView,
    s: LowerView,
    body: Seq<StmtView>,
    i: nat,
)
    requires
        grown(from, s),
    ensures
        grown(from, lower_block(s, body, i)),
        s.blocks.len() <= lower_block(s, body, i).blocks.len(),
        lower_block(s, body, i).loops == s.loops,
        s.scopes.len() > 0 ==> same_outside(s, lower_block(s, body, i)),
    decreases body, (body.len() - i) as nat,
{
    let _ = {
        if i >= body.len() {
            s
        } else {
            let stmt = body[i as int];
            let s = {
                lower_stmt_grows(from, s, stmt);
                lower_stmt(s, stmt)
            };
            {
                lower_block_grows(from, s, body, i + 1);
                lower_block(s, body, i + 1)
            }
        }
    };
}

pub(crate) proof fn lower_branches_grows(
    from: LowerView,
    s: LowerView,
    branches: Seq<(ExprView, Seq<StmtView>)>,
    join: usize,
    i: nat,
)
    requires
        grown(from, s),
    ensures
        grown(from, lower_branches(s, branches, join, i)),
        s.blocks.len() <= lower_branches(s, branches, join, i).blocks.len(),
        lower_branches(s, branches, join, i).loops == s.loops,
        s.scopes.len() > 0 ==> same_outside(s, lower_branches(s, branches, join, i)),
    decreases branches, (branches.len() - i) as nat,
{
    let _ = {
        if i >= branches.len() {
            s
        } else {
            let branch = branches[i as int];
            let (s, then_b) = {
                new_block_grows(from, s);
                new_block(s)
            };
            let (s, else_b) = {
                new_block_grows(from, s);
                new_block(s)
            };
            let cond = lowered_expr(s, branch.0);
            let s = {
                seal_block_grows(from, s, TerminatorView::Branch { cond, then_b, else_b });
                seal_block(s, TerminatorView::Branch { cond, then_b, else_b })
            };
            let s = LowerView { cur: then_b, ..s };
            let s = {
                lower_scoped_grows(from, s, branch.1);
                lower_scoped(s, branch.1)
            };
            let s = {
                seal_block_grows(from, s, TerminatorView::Jump(join));
                seal_block(s, TerminatorView::Jump(join))
            };
            let s = LowerView { cur: else_b, ..s };
            {
                lower_branches_grows(from, s, branches, join, i + 1);
                lower_branches(s, branches, join, i + 1)
            }
        }
    };
}

pub(crate) proof fn lower_opt_scoped_grows(
    from: LowerView,
    s: LowerView,
    body: Option<Seq<StmtView>>,
)
    requires
        grown(from, s),
    ensures
        grown(from, lower_opt_scoped(s, body)),
        s.blocks.len() <= lower_opt_scoped(s, body).blocks.len(),
        lower_opt_scoped(s, body).loops == s.loops,
        s.scopes.len() > 0 ==> same_outside(s, lower_opt_scoped(s, body)),
    decreases body, 0nat,
{
    let _ = {
        match body {
            Some(body) => {
                let s = {
                    lower_scoped_grows(from, s, body);
                    lower_scoped(s, body)
                };
                s
            },
            None => s,
        }
    };
}

pub(crate) proof fn lower_loop_else_grows(
    from: LowerView,
    s: LowerView,
    orelse: Option<Seq<StmtView>>,
    normal_exit: usize,
    exit: usize,
)
    requires
        grown(from, s),
        s.blocks.len() <= usize::MAX ==> from.blocks.len() <= normal_exit,
    ensures
        grown(from, lower_loop_else(s, orelse, normal_exit, exit)),
        s.blocks.len() <= lower_loop_else(s, orelse, normal_exit, exit).blocks.len(),
        lower_loop_else(s, orelse, normal_exit, exit).loops == s.loops,
        s.scopes.len() > 0 ==> same_outside(s, lower_loop_else(s, orelse, normal_exit, exit)),
    decreases orelse, 0nat,
{
    let _ = {
        match orelse {
            Some(body) => {
                let s = LowerView { cur: normal_exit, ..s };
                let s = {
                    lower_scoped_grows(from, s, body);
                    lower_scoped(s, body)
                };
                let s = {
                    seal_block_grows(from, s, TerminatorView::Jump(exit));
                    seal_block(s, TerminatorView::Jump(exit))
                };
                s
            },
            None => s,
        }
    };
}

pub(crate) proof fn lower_loop_body_grows(
    from: LowerView,
    s: LowerView,
    body: Seq<StmtView>,
    header: usize,
    exit: usize,
)
    requires
        grown(from, s),
    ensures
        grown(from, lower_loop_body(s, body, header, exit)),
        s.blocks.len() <= lower_loop_body(s, body, header, exit).blocks.len(),
        lower_loop_body(s, body, header, exit).loops == s.loops,
        s.scopes.len() > 0 ==> same_outside(s, lower_loop_body(s, body, header, exit)),
    decreases body, body.len() + 1,
{
    reveal(leave_loop);
    assert(s.loops.push(LoopFrame { header, exit, escape: false }).drop_last() =~= s.loops);
    let _ = {
        let s = LowerView { loops: s.loops.push(LoopFrame { header, exit, escape: false }), ..s };
        let s = {
            lower_block_grows(from, s, body, 0);
            lower_block(s, body, 0)
        };
        let s = {
            leave_loop_grows(from, s);
            leave_loop(s)
        };
        s
    };
}

pub(crate) proof fn lower_while_grows(
    from: LowerView,
    s: LowerView,
    stmt: StmtView,
)
    requires
        grown(from, s),
    ensures
        grown(from, lower_while(s, stmt)),
        s.blocks.len() <= lower_while(s, stmt).blocks.len(),
        lower_while(s, stmt).loops == s.loops,
        s.scopes.len() > 0 ==> same_outside(s, lower_while(s, stmt)),
    decreases stmt, 1nat,
{
    let _ = {
        match stmt.kind {
            StmtKindView::While { cond, body, orelse } => {
                let (s, header) = {
                    new_block_grows(from, s);
                    new_block(s)
                };
                let (s, body_b) = {
                    new_block_grows(from, s);
                    new_block(s)
                };
                let (s, exit) = {
                    new_block_grows(from, s);
                    new_block(s)
                };
                let (s, normal_exit) = if orelse is Some {
                    {
                        new_block_grows(from, s);
                        new_block(s)
                    }
                } else {
                    (s, exit)
                };
                let s = {
                    seal_block_grows(from, s, TerminatorView::Jump(header));
                    seal_block(s, TerminatorView::Jump(header))
                };
                let s = LowerView { cur: header, ..s };
                let cond = lowered_expr(s, cond);
                let s = {
                    seal_block_grows(from, s, TerminatorView::Branch { cond, then_b: body_b, else_b: normal_exit });
                    seal_block(s, TerminatorView::Branch { cond, then_b: body_b, else_b: normal_exit })
                };
                let s = LowerView { cur: body_b, ..s };
                let s = {
                    lower_loop_body_grows(from, s, body, header, exit);
                    lower_loop_body(s, body, header, exit)
                };
                let s = {
                    seal_block_grows(from, s, TerminatorView::Jump(header));
                    seal_block(s, TerminatorView::Jump(header))
                };
                let s = {
                    lower_loop_else_grows(from, s, orelse, normal_exit, exit);
                    lower_loop_else(s, orelse, normal_exit, exit)
                };
                let s = LowerView { cur: exit, ..s };
                s
            },
            _ => s,
        }
    };
}

pub(crate) proof fn lower_for_grows(
    from: LowerView,
    s: LowerView,
    stmt: StmtView,
)
    requires
        grown(from, s),
    ensures
        grown(from, lower_for(s, stmt)),
        s.blocks.len() <= lower_for(s, stmt).blocks.len(),
        lower_for(s, stmt).loops == s.loops,
        s.scopes.len() > 0 ==> same_outside(s, lower_for(s, stmt)),
    decreases stmt, 1nat,
{
    let _ = {
        match stmt.kind {
            StmtKindView::For { var, owned, iter, body, orelse, .. } => {
                let it_name = fresh_name(s, "$iter"@);
                let (s, it_var) = {
                    intern_grows(from, s, it_name);
                    intern(s, it_name)
                };
                let checked_iter = lowered_expr(s, iter);
                let protocol = protocol_of(checked_iter.adjustments, owned);
                let s = {
                    push_instr_grows(from, s, HirInstrView::Bind { dest: it_var, expr: checked_iter, binding_ty: None });
                    push_instr(s, HirInstrView::Bind { dest: it_var, expr: checked_iter, binding_ty: None })
                };
                let s = {
                    push_instr_grows(from, s, HirInstrView::GetIter { iter: it_var, protocol });
                    push_instr(s, HirInstrView::GetIter { iter: it_var, protocol })
                };
                let (s, header) = {
                    new_block_grows(from, s);
                    new_block(s)
                };
                let (s, body_b) = {
                    new_block_grows(from, s);
                    new_block(s)
                };
                let (s, exit) = {
                    new_block_grows(from, s);
                    new_block(s)
                };
                let (s, normal_exit) = if orelse is Some {
                    {
                        new_block_grows(from, s);
                        new_block(s)
                    }
                } else {
                    (s, exit)
                };
                let s = {
                    seal_block_grows(from, s, TerminatorView::Jump(header));
                    seal_block(s, TerminatorView::Jump(header))
                };
                let s = LowerView { cur: header, ..s };
                let hn_name = fresh_name(s, "$hasnext"@);
                let (s, hn_var) = {
                    intern_grows(from, s, hn_name);
                    intern(s, hn_name)
                };
                let s = {
                    push_instr_grows(from, s, HirInstrView::HasNext { iter: it_var, dest: hn_var, method: protocol.has_next });
                    push_instr(s, HirInstrView::HasNext { iter: it_var, dest: hn_var, method: protocol.has_next })
                };
                let more = unchecked_expr(made_ident(hn_name));
                let s = {
                    seal_block_grows(from, s, TerminatorView::Branch { cond: more, then_b: body_b, else_b: normal_exit });
                    seal_block(s, TerminatorView::Branch { cond: more, then_b: body_b, else_b: normal_exit })
                };
                let s = LowerView { cur: body_b, ..s };
                let (s, element) = {
                    intern_grows(from, s, var);
                    intern(s, var)
                };
                let s = {
                    push_instr_grows(from, s, HirInstrView::Next { iter: it_var, dest: element, method: protocol.next });
                    push_instr(s, HirInstrView::Next { iter: it_var, dest: element, method: protocol.next })
                };
                let s = {
                    lower_loop_body_grows(from, s, body, header, exit);
                    lower_loop_body(s, body, header, exit)
                };
                let s = {
                    seal_block_grows(from, s, TerminatorView::Jump(header));
                    seal_block(s, TerminatorView::Jump(header))
                };
                let s = {
                    lower_loop_else_grows(from, s, orelse, normal_exit, exit);
                    lower_loop_else(s, orelse, normal_exit, exit)
                };
                let s = LowerView { cur: exit, ..s };
                s
            },
            _ => s,
        }
    };
}

pub(crate) proof fn lower_ref_for_grows(
    from: LowerView,
    s: LowerView,
    stmt: StmtView,
    source: Seq<char>,
)
    requires
        grown(from, s),
    ensures
        grown(from, lower_ref_for(s, stmt, source)),
        s.blocks.len() <= lower_ref_for(s, stmt, source).blocks.len(),
        lower_ref_for(s, stmt, source).loops == s.loops,
        s.scopes.len() > 0 ==> same_outside(s, lower_ref_for(s, stmt, source)),
    decreases stmt, 1nat,
{
    let _ = {
        match stmt.kind {
            StmtKindView::For { var, body, orelse, .. } => {
                let index_name = fresh_name(s, "$refindex"@);
                let (s, index_var) = {
                    intern_grows(from, s, index_name);
                    intern(s, index_name)
                };
                let zero = unchecked_expr(made_expr(ExprKindView::Int(0), (0, 0)));
                let s = {
                    push_instr_grows(from, s, HirInstrView::Bind { dest: index_var, expr: zero, binding_ty: None });
                    push_instr(s, HirInstrView::Bind { dest: index_var, expr: zero, binding_ty: None })
                };
                let (s, header) = {
                    new_block_grows(from, s);
                    new_block(s)
                };
                let (s, body_b) = {
                    new_block_grows(from, s);
                    new_block(s)
                };
                let (s, exit) = {
                    new_block_grows(from, s);
                    new_block(s)
                };
                let (s, normal_exit) = if orelse is Some {
                    {
                        new_block_grows(from, s);
                        new_block(s)
                    }
                } else {
                    (s, exit)
                };
                let s = {
                    seal_block_grows(from, s, TerminatorView::Jump(header));
                    seal_block(s, TerminatorView::Jump(header))
                };
                let s = LowerView { cur: header, ..s };
                let below = unchecked_expr(below_length(index_name, source));
                let s = {
                    seal_block_grows(from, s, TerminatorView::Branch { cond: below, then_b: body_b, else_b: normal_exit });
                    seal_block(s, TerminatorView::Branch { cond: below, then_b: body_b, else_b: normal_exit })
                };
                let s = LowerView { cur: body_b, ..s };
                let target = element_at(source, index_name);
                let unnamed = StmtView { kind: StmtKindView::Pass, span: stmt.span, module: None };
                let s = {
                    lower_ref_decl_grows(from, s, unnamed, var, target);
                    lower_ref_decl(s, unnamed, var, target)
                };
                let s = {
                    lower_loop_body_grows(from, s, body, header, exit);
                    lower_loop_body(s, body, header, exit)
                };
                let next = unchecked_expr(successor(index_name));
                let s = {
                    push_instr_grows(from, s, HirInstrView::Bind { dest: index_var, expr: next, binding_ty: None });
                    push_instr(s, HirInstrView::Bind { dest: index_var, expr: next, binding_ty: None })
                };
                let s = {
                    seal_block_grows(from, s, TerminatorView::Jump(header));
                    seal_block(s, TerminatorView::Jump(header))
                };
                let s = {
                    lower_loop_else_grows(from, s, orelse, normal_exit, exit);
                    lower_loop_else(s, orelse, normal_exit, exit)
                };
                let s = LowerView { cur: exit, ..s };
                s
            },
            _ => s,
        }
    };
}

pub(crate) proof fn lower_stmt_grows(
    from: LowerView,
    s: LowerView,
    stmt: StmtView,
)
    requires
        grown(from, s),
    ensures
        grown(from, lower_stmt(s, stmt)),
        s.blocks.len() <= lower_stmt(s, stmt).blocks.len(),
        lower_stmt(s, stmt).loops == s.loops,
        s.scopes.len() > 0 ==> same_outside(s, lower_stmt(s, stmt)),
    decreases stmt, 2nat,
{
    let _ = {
        match stmt.kind {
            StmtKindView::If { branches, orelse } => {
                let (s, join) = {
                    new_block_grows(from, s);
                    new_block(s)
                };
                let s = {
                    lower_branches_grows(from, s, branches, join, 0);
                    lower_branches(s, branches, join, 0)
                };
                let s = {
                    lower_opt_scoped_grows(from, s, orelse);
                    lower_opt_scoped(s, orelse)
                };
                let s = {
                    seal_block_grows(from, s, TerminatorView::Jump(join));
                    seal_block(s, TerminatorView::Jump(join))
                };
                let s = LowerView { cur: join, ..s };
                s
            },
            StmtKindView::While { .. } => {
                let s = {
                    lower_while_grows(from, s, stmt);
                    lower_while(s, stmt)
                };
                s
            },
            StmtKindView::For { reference, iter, .. } => if reference {
                match iter.kind {
                    ExprKindView::Identifier(source) => {
                        let s = {
                            lower_ref_for_grows(from, s, stmt, source);
                            lower_ref_for(s, stmt, source)
                        };
                        s
                    },
                    _ => {
                        let pass = StmtView { kind: StmtKindView::Pass, span: stmt.span, module: None };
                        let s = {
                            lower_opaque_grows(from, s, pass);
                            lower_opaque(s, pass)
                        };
                        s
                    },
                }
            } else {
                let s = {
                    lower_for_grows(from, s, stmt);
                    lower_for(s, stmt)
                };
                s
            },
            StmtKindView::Break => {
                let s = {
                    lower_jump_grows(from, s, stmt, false);
                    lower_jump(s, stmt, false)
                };
                s
            },
            StmtKindView::Continue => {
                let s = {
                    lower_jump_grows(from, s, stmt, true);
                    lower_jump(s, stmt, true)
                };
                s
            },
            StmtKindView::Return(value) => {
                let value = lowered_opt_expr(s, value);
                let s = {
                    seal_block_grows(from, s, TerminatorView::Return(value));
                    seal_block(s, TerminatorView::Return(value))
                };
                s
            },
            StmtKindView::VarDecl { name, value, .. } => {
                let value = lowered_expr(s, value);
                let (s, slot) = {
                    declare_grows(from, s, name);
                    declare(s, name)
                };
                let binding_ty = binding_ty_of(s.checked, value);
                let s = {
                    push_instr_grows(from, s, HirInstrView::Bind { dest: slot, expr: value, binding_ty });
                    push_instr(s, HirInstrView::Bind { dest: slot, expr: value, binding_ty })
                };
                s
            },
            StmtKindView::RefDecl { name, value } => {
                let s = {
                    lower_ref_decl_grows(from, s, stmt, name, value);
                    lower_ref_decl(s, stmt, name, value)
                };
                s
            },
            StmtKindView::Assign { name, value } => {
                let value = lowered_expr(s, value);
                let (s, captured) = {
                    take_captured_grows(from, s, name);
                    take_captured(s, name)
                };
                let s = if !visible(s, name) {
                    let s = {
                        name_in_scope_grows(from, s, name, name);
                        name_in_scope(s, name, name)
                    };
                    s
                } else {
                    s
                };
                let runtime = if captured {
                    let count = s.vars.len() as usize;
                    name + "$shadow"@ + decimal(count as nat)
                } else {
                    runtime_name(s.scopes, name)
                };
                let s = if captured {
                    let s = {
                        name_in_scope_grows(from, s, name, runtime);
                        name_in_scope(s, name, runtime)
                    };
                    s
                } else {
                    s
                };
                let (s, slot) = {
                    intern_grows(from, s, runtime);
                    intern(s, runtime)
                };
                let s = {
                    push_instr_grows(from, s, HirInstrView::Bind { dest: slot, expr: value, binding_ty: None });
                    push_instr(s, HirInstrView::Bind { dest: slot, expr: value, binding_ty: None })
                };
                s
            },
            StmtKindView::Expr(value) => {
                let value = lowered_expr(s, value);
                let s = {
                    push_instr_grows(from, s, HirInstrView::Eval(value));
                    push_instr(s, HirInstrView::Eval(value))
                };
                s
            },
            StmtKindView::Try { .. } => if s.is_function || all_loops_escape(s.loops, 0) {
                let targets = targets_of_loops(s.loops, 0, Seq::empty());
                let statement = lowered_statement(s, stmt);
                let s = {
                    push_instr_grows(from, s, HirInstrView::Try { stmt: statement, loop_targets: targets });
                    push_instr(s, HirInstrView::Try { stmt: statement, loop_targets: targets })
                };
                s
            } else {
                let s = {
                    lower_opaque_grows(from, s, stmt);
                    lower_opaque(s, stmt)
                };
                s
            },
            _ => {
                let s = {
                    lower_opaque_grows(from, s, stmt);
                    lower_opaque(s, stmt)
                };
                s
            },
        }
    };
}

} // verus!
