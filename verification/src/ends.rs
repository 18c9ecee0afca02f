//! The blocks of a function stay in the function.

use crate::ast::{Expr, ExprKindView, ExprView, Stmt, StmtKindView, StmtView};
use crate::cfg::{finished, function_cfg, rooted, same_names, started};
use crate::checked::CheckedExprView;
use crate::facts::{made_expr, made_ident, unchecked_expr};
use crate::hir::{BasicBlockView, HirInstrView, TerminatorView};
use crate::graph::no_blocks;
use crate::locals::{declared_names, implicit_names};
use crate::lower::{
    LoopFrame, LowerView, all_loops_escape, below_length, binding_ty_of, connect_targets,
    connect_to, declare, element_at, enter_scope, fresh_name, intern, leave_loop, leave_scope,
    lower_block, lower_branches, lower_for, lower_jump, lower_loop_body, lower_loop_else,
    lower_opaque, lower_opt_scoped, lower_ref_decl, lower_ref_for, lower_scoped, lower_stmt,
    lower_while, lowered_expr, lowered_opt_expr, lowered_statement, name_in_scope, new_block,
    protocol_of, push_instr, seal_block, shadows, slot_name, successor, take_captured,
    targets_of_loops, unsealed, visible, without_name,
};
use crate::scopes::{runtime_name, slot_of, with_entry};
use crate::text::decimal;
use vstd::prelude::*;

verus! {

/// Whether a block, as far as its end is set, jumps, branches or returns: it neither falls
/// off the end of a region nor jumps out of one.
pub open spec fn ends_inside(term: Option<TerminatorView>) -> bool {
    match term {
        Some(TerminatorView::FallOff) => false,
        Some(TerminatorView::EscapeJump(_)) => false,
        _ => true,
    }
}

/// See [`ends_inside`].
pub open spec fn all_end_inside(blocks: Seq<BasicBlockView>) -> bool {
    forall|b: int| 0 <= b < blocks.len() ==> ends_inside((#[trigger] blocks[b]).term)
}

/// Whether no block of a state of lowering leaves a region, and none of its loops stands
/// outside one.
pub open spec fn inward(s: LowerView) -> bool {
    &&& all_end_inside(s.blocks)
    &&& forall|k: int| 0 <= k < s.loops.len() ==> !(#[trigger] s.loops[k]).escape
}

proof fn new_block_inward(s: LowerView)
    requires
        inward(s),
    ensures
        inward(new_block(s).0),
{
    reveal(new_block);
}

proof fn seal_block_inward(s: LowerView, term: TerminatorView)
    requires
        inward(s),
        ends_inside(Some(term)),
    ensures
        inward(seal_block(s, term)),
{
    reveal(unsealed);
    reveal(connect_to);
    reveal(connect_targets);
    reveal(seal_block);
}


proof fn push_instr_inward(
    s: LowerView,
    instr: HirInstrView,
)
    requires
        inward(s),
    ensures
        inward(push_instr(s, instr)),
{
    reveal(push_instr);
    let _ = {
        if unsealed(s) {
            let block = s.blocks[s.cur as int];
            LowerView {
                blocks: s.blocks.update(
                    s.cur as int,
                    BasicBlockView { instrs: block.instrs.push(instr), term: None },
                ),
                ..s
            }
        } else {
            s
        }
    };
}


proof fn intern_inward(
    s: LowerView,
    name: Seq<char>,
)
    requires
        inward(s),
    ensures
        inward(intern(s, name).0),
{
    reveal(intern);
    let _ = {
        match slot_of(s.vars, name, 0) {
            Some(i) => (s, i as u32),
            None => (LowerView { vars: s.vars.push(name), ..s }, s.vars.len() as u32),
        }
    };
}

proof fn name_in_scope_inward(
    s: LowerView,
    name: Seq<char>,
    runtime: Seq<char>,
)
    requires
        inward(s),
    ensures
        inward(name_in_scope(s, name, runtime)),
{
    reveal(name_in_scope);
    let _ = {
        LowerView { scopes: with_entry(s.scopes, name, runtime), ..s }
    };
}

proof fn enter_scope_inward(
    s: LowerView,
)
    requires
        inward(s),
    ensures
        inward(enter_scope(s)),
{
    reveal(enter_scope);
    let _ = {
        LowerView { scopes: s.scopes.push(Seq::empty()), ..s }
    };
}

proof fn leave_scope_inward(
    s: LowerView,
)
    requires
        inward(s),
    ensures
        inward(leave_scope(s)),
{
    reveal(leave_scope);
    let _ = {
        if s.scopes.len() == 0 {
            s
        } else {
            LowerView { scopes: s.scopes.drop_last(), ..s }
        }
    };
}

proof fn leave_loop_inward(
    s: LowerView,
)
    requires
        inward(s),
    ensures
        inward(leave_loop(s)),
{
    reveal(leave_loop);
    let _ = {
        if s.loops.len() == 0 {
            s
        } else {
            LowerView { loops: s.loops.drop_last(), ..s }
        }
    };
}

proof fn take_captured_inward(
    s: LowerView,
    name: Seq<char>,
)
    requires
        inward(s),
    ensures
        inward(take_captured(s, name).0),
{
    reveal(take_captured);
    let _ = {
        (
            LowerView { captures: without_name(s.captures, name), ..s },
            s.captures.contains(name),
        )
    };
}

proof fn declare_inward(
    s: LowerView,
    name: Seq<char>,
)
    requires
        inward(s),
    ensures
        inward(declare(s, name).0),
{
    reveal(declare);
    let _ = {
        let runtime = if shadows(s, name) {
            let count = s.vars.len() as usize;
            name + "$shadow"@ + decimal(count as nat)
        } else {
            name
        };
        let s = if s.scopes.len() == 0 {
            let s = {
                enter_scope_inward(s);
                enter_scope(s)
            };
            s
        } else {
            s
        };
        let s = {
            name_in_scope_inward(s, name, runtime);
            name_in_scope(s, name, runtime)
        };
        {
            intern_inward(s, runtime);
            intern(s, runtime)
        }
    };
}

proof fn lower_ref_decl_inward(
    s: LowerView,
    stmt: StmtView,
    name: Seq<char>,
    value: ExprView,
)
    requires
        inward(s),
    ensures
        inward(lower_ref_decl(s, stmt, name, value)),
{
    reveal(lower_ref_decl);
    let _ = {
        let value = lowered_expr(s, value);
        let (s, runtime) = {
            declare_inward(s, name);
            declare(s, name)
        };
        let syntax = StmtView {
            kind: StmtKindView::RefDecl { name: slot_name(s, runtime), value: value.syntax },
            span: stmt.span,
            module: stmt.module,
        };
        let statement = lowered_statement(s, syntax);
        let s = {
            push_instr_inward(s, HirInstrView::Stmt(statement));
            push_instr(s, HirInstrView::Stmt(statement))
        };
        s
    };
}

proof fn lower_opaque_inward(
    s: LowerView,
    stmt: StmtView,
)
    requires
        inward(s),
    ensures
        inward(lower_opaque(s, stmt)),
{
    reveal(lower_opaque);
    let _ = {
        let statement = lowered_statement(s, stmt);
        let s = {
            push_instr_inward(s, HirInstrView::Stmt(statement));
            push_instr(s, HirInstrView::Stmt(statement))
        };
        s
    };
}

proof fn lower_jump_inward(
    s: LowerView,
    stmt: StmtView,
    to_header: bool,
)
    requires
        inward(s),
    ensures
        inward(lower_jump(s, stmt, to_header)),
{
    reveal(lower_jump);
    let _ = {
        if s.loops.len() == 0 {
            let s = {
                lower_opaque_inward(s, stmt);
                lower_opaque(s, stmt)
            };
            s
        } else {
            let frame = s.loops[(s.loops.len() - 1) as usize as int];
            let target = if to_header {
                frame.header
            } else {
                frame.exit
            };
            let term = if frame.escape {
                TerminatorView::EscapeJump(target)
            } else {
                TerminatorView::Jump(target)
            };
            let s = {
                seal_block_inward(s, term);
                seal_block(s, term)
            };
            s
        }
    };
}

proof fn lower_scoped_inward(
    s: LowerView,
    body: Seq<StmtView>,
)
    requires
        inward(s),
    ensures
        inward(lower_scoped(s, body)),
    decreases body, body.len() + 1,
{
    let _ = {
        let s = {
            enter_scope_inward(s);
            enter_scope(s)
        };
        let s = {
            lower_block_inward(s, body, 0);
            lower_block(s, body, 0)
        };
        let s = {
            leave_scope_inward(s);
            leave_scope(s)
        };
        s
    };
}

proof fn lower_block_inward(
    s: LowerView,
    body: Seq<StmtView>,
    i: nat,
)
    requires
        inward(s),
    ensures
        inward(lower_block(s, body, i)),
    decreases body, (body.len() - i) as nat,
{
    let _ = {
        if i >= body.len() {
            s
        } else {
            let stmt = body[i as int];
            let s = {
                lower_stmt_inward(s, stmt);
                lower_stmt(s, stmt)
            };
            {
                lower_block_inward(s, body, i + 1);
                lower_block(s, body, i + 1)
            }
        }
    };
}

proof fn lower_branches_inward(
    s: LowerView,
    branches: Seq<(ExprView, Seq<StmtView>)>,
    join: usize,
    i: nat,
)
    requires
        inward(s),
    ensures
        inward(lower_branches(s, branches, join, i)),
    decreases branches, (branches.len() - i) as nat,
{
    let _ = {
        if i >= branches.len() {
            s
        } else {
            let branch = branches[i as int];
            let (s, then_b) = {
                new_block_inward(s);
                new_block(s)
            };
            let (s, else_b) = {
                new_block_inward(s);
                new_block(s)
            };
            let cond = lowered_expr(s, branch.0);
            let s = {
                seal_block_inward(s, TerminatorView::Branch { cond, then_b, else_b });
                seal_block(s, TerminatorView::Branch { cond, then_b, else_b })
            };
            let s = LowerView { cur: then_b, ..s };
            let s = {
                lower_scoped_inward(s, branch.1);
                lower_scoped(s, branch.1)
            };
            let s = {
                seal_block_inward(s, TerminatorView::Jump(join));
                seal_block(s, TerminatorView::Jump(join))
            };
            let s = LowerView { cur: else_b, ..s };
            {
                lower_branches_inward(s, branches, join, i + 1);
                lower_branches(s, branches, join, i + 1)
            }
        }
    };
}

proof fn lower_opt_scoped_inward(
    s: LowerView,
    body: Option<Seq<StmtView>>,
)
    requires
        inward(s),
    ensures
        inward(lower_opt_scoped(s, body)),
    decreases body, 0nat,
{
    let _ = {
        match body {
            Some(body) => {
                let s = {
                    lower_scoped_inward(s, body);
                    lower_scoped(s, body)
                };
                s
            },
            None => s,
        }
    };
}

proof fn lower_loop_else_inward(
    s: LowerView,
    orelse: Option<Seq<StmtView>>,
    normal_exit: usize,
    exit: usize,
)
    requires
        inward(s),
    ensures
        inward(lower_loop_else(s, orelse, normal_exit, exit)),
    decreases orelse, 0nat,
{
    let _ = {
        match orelse {
            Some(body) => {
                let s = LowerView { cur: normal_exit, ..s };
                let s = {
                    lower_scoped_inward(s, body);
                    lower_scoped(s, body)
                };
                let s = {
                    seal_block_inward(s, TerminatorView::Jump(exit));
                    seal_block(s, TerminatorView::Jump(exit))
                };
                s
            },
            None => s,
        }
    };
}

proof fn lower_loop_body_inward(
    s: LowerView,
    body: Seq<StmtView>,
    header: usize,
    exit: usize,
)
    requires
        inward(s),
    ensures
        inward(lower_loop_body(s, body, header, exit)),
    decreases body, body.len() + 1,
{
    let _ = {
        let s = LowerView { loops: s.loops.push(LoopFrame { header, exit, escape: false }), ..s };
        let s = {
            lower_block_inward(s, body, 0);
            lower_block(s, body, 0)
        };
        let s = {
            leave_loop_inward(s);
            leave_loop(s)
        };
        s
    };
}

proof fn lower_while_inward(
    s: LowerView,
    stmt: StmtView,
)
    requires
        inward(s),
    ensures
        inward(lower_while(s, stmt)),
    decreases stmt, 1nat,
{
    let _ = {
        match stmt.kind {
            StmtKindView::While { cond, body, orelse } => {
                let (s, header) = {
                    new_block_inward(s);
                    new_block(s)
                };
                let (s, body_b) = {
                    new_block_inward(s);
                    new_block(s)
                };
                let (s, exit) = {
                    new_block_inward(s);
                    new_block(s)
                };
                let (s, normal_exit) = if orelse is Some {
                    {
                        new_block_inward(s);
                        new_block(s)
                    }
                } else {
                    (s, exit)
                };
                let s = {
                    seal_block_inward(s, TerminatorView::Jump(header));
                    seal_block(s, TerminatorView::Jump(header))
                };
                let s = LowerView { cur: header, ..s };
                let cond = lowered_expr(s, cond);
                let s = {
                    seal_block_inward(s, TerminatorView::Branch { cond, then_b: body_b, else_b: normal_exit });
                    seal_block(s, TerminatorView::Branch { cond, then_b: body_b, else_b: normal_exit })
                };
                let s = LowerView { cur: body_b, ..s };
                let s = {
                    lower_loop_body_inward(s, body, header, exit);
                    lower_loop_body(s, body, header, exit)
                };
                let s = {
                    seal_block_inward(s, TerminatorView::Jump(header));
                    seal_block(s, TerminatorView::Jump(header))
                };
                let s = {
                    lower_loop_else_inward(s, orelse, normal_exit, exit);
                    lower_loop_else(s, orelse, normal_exit, exit)
                };
                let s = LowerView { cur: exit, ..s };
                s
            },
            _ => s,
        }
    };
}

proof fn lower_for_inward(
    s: LowerView,
    stmt: StmtView,
)
    requires
        inward(s),
    ensures
        inward(lower_for(s, stmt)),
    decreases stmt, 1nat,
{
    let _ = {
        match stmt.kind {
            StmtKindView::For { var, owned, iter, body, orelse, .. } => {
                let it_name = fresh_name(s, "$iter"@);
                let (s, it_var) = {
                    intern_inward(s, it_name);
                    intern(s, it_name)
                };
                let checked_iter = lowered_expr(s, iter);
                let protocol = protocol_of(checked_iter.adjustments, owned);
                let s = {
                    push_instr_inward(s, HirInstrView::Bind { dest: it_var, expr: checked_iter, binding_ty: None });
                    push_instr(s, HirInstrView::Bind { dest: it_var, expr: checked_iter, binding_ty: None })
                };
                let s = {
                    push_instr_inward(s, HirInstrView::GetIter { iter: it_var, protocol });
                    push_instr(s, HirInstrView::GetIter { iter: it_var, protocol })
                };
                let (s, header) = {
                    new_block_inward(s);
                    new_block(s)
                };
                let (s, body_b) = {
                    new_block_inward(s);
                    new_block(s)
                };
                let (s, exit) = {
                    new_block_inward(s);
                    new_block(s)
                };
                let (s, normal_exit) = if orelse is Some {
                    {
                        new_block_inward(s);
                        new_block(s)
                    }
                } else {
                    (s, exit)
                };
                let s = {
                    seal_block_inward(s, TerminatorView::Jump(header));
                    seal_block(s, TerminatorView::Jump(header))
                };
                let s = LowerView { cur: header, ..s };
                let hn_name = fresh_name(s, "$hasnext"@);
                let (s, hn_var) = {
                    intern_inward(s, hn_name);
                    intern(s, hn_name)
                };
                let s = {
                    push_instr_inward(s, HirInstrView::HasNext { iter: it_var, dest: hn_var, method: protocol.has_next });
                    push_instr(s, HirInstrView::HasNext { iter: it_var, dest: hn_var, method: protocol.has_next })
                };
                let more = unchecked_expr(made_ident(hn_name));
                let s = {
                    seal_block_inward(s, TerminatorView::Branch { cond: more, then_b: body_b, else_b: normal_exit });
                    seal_block(s, TerminatorView::Branch { cond: more, then_b: body_b, else_b: normal_exit })
                };
                let s = LowerView { cur: body_b, ..s };
                let (s, element) = {
                    intern_inward(s, var);
                    intern(s, var)
                };
                let s = {
                    push_instr_inward(s, HirInstrView::Next { iter: it_var, dest: element, method: protocol.next });
                    push_instr(s, HirInstrView::Next { iter: it_var, dest: element, method: protocol.next })
                };
                let s = {
                    lower_loop_body_inward(s, body, header, exit);
                    lower_loop_body(s, body, header, exit)
                };
                let s = {
                    seal_block_inward(s, TerminatorView::Jump(header));
                    seal_block(s, TerminatorView::Jump(header))
                };
                let s = {
                    lower_loop_else_inward(s, orelse, normal_exit, exit);
                    lower_loop_else(s, orelse, normal_exit, exit)
                };
                let s = LowerView { cur: exit, ..s };
                s
            },
            _ => s,
        }
    };
}

proof fn lower_ref_for_inward(
    s: LowerView,
    stmt: StmtView,
    source: Seq<char>,
)
    requires
        inward(s),
    ensures
        inward(lower_ref_for(s, stmt, source)),
    decreases stmt, 1nat,
{
    let _ = {
        match stmt.kind {
            StmtKindView::For { var, body, orelse, .. } => {
                let index_name = fresh_name(s, "$refindex"@);
                let (s, index_var) = {
                    intern_inward(s, index_name);
                    intern(s, index_name)
                };
                let zero = unchecked_expr(made_expr(ExprKindView::Int(0), (0, 0)));
                let s = {
                    push_instr_inward(s, HirInstrView::Bind { dest: index_var, expr: zero, binding_ty: None });
                    push_instr(s, HirInstrView::Bind { dest: index_var, expr: zero, binding_ty: None })
                };
                let (s, header) = {
                    new_block_inward(s);
                    new_block(s)
                };
                let (s, body_b) = {
                    new_block_inward(s);
                    new_block(s)
                };
                let (s, exit) = {
                    new_block_inward(s);
                    new_block(s)
                };
                let (s, normal_exit) = if orelse is Some {
                    {
                        new_block_inward(s);
                        new_block(s)
                    }
                } else {
                    (s, exit)
                };
                let s = {
                    seal_block_inward(s, TerminatorView::Jump(header));
                    seal_block(s, TerminatorView::Jump(header))
                };
                let s = LowerView { cur: header, ..s };
                let below = unchecked_expr(below_length(index_name, source));
                let s = {
                    seal_block_inward(s, TerminatorView::Branch { cond: below, then_b: body_b, else_b: normal_exit });
                    seal_block(s, TerminatorView::Branch { cond: below, then_b: body_b, else_b: normal_exit })
                };
                let s = LowerView { cur: body_b, ..s };
                let target = element_at(source, index_name);
                let unnamed = StmtView { kind: StmtKindView::Pass, span: stmt.span, module: None };
                let s = {
                    lower_ref_decl_inward(s, unnamed, var, target);
                    lower_ref_decl(s, unnamed, var, target)
                };
                let s = {
                    lower_loop_body_inward(s, body, header, exit);
                    lower_loop_body(s, body, header, exit)
                };
                let next = unchecked_expr(successor(index_name));
                let s = {
                    push_instr_inward(s, HirInstrView::Bind { dest: index_var, expr: next, binding_ty: None });
                    push_instr(s, HirInstrView::Bind { dest: index_var, expr: next, binding_ty: None })
                };
                let s = {
                    seal_block_inward(s, TerminatorView::Jump(header));
                    seal_block(s, TerminatorView::Jump(header))
                };
                let s = {
                    lower_loop_else_inward(s, orelse, normal_exit, exit);
                    lower_loop_else(s, orelse, normal_exit, exit)
                };
                let s = LowerView { cur: exit, ..s };
                s
            },
            _ => s,
        }
    };
}

proof fn lower_stmt_inward(
    s: LowerView,
    stmt: StmtView,
)
    requires
        inward(s),
    ensures
        inward(lower_stmt(s, stmt)),
    decreases stmt, 2nat,
{
    let _ = {
        match stmt.kind {
            StmtKindView::If { branches, orelse } => {
                let (s, join) = {
                    new_block_inward(s);
                    new_block(s)
                };
                let s = {
                    lower_branches_inward(s, branches, join, 0);
                    lower_branches(s, branches, join, 0)
                };
                let s = {
                    lower_opt_scoped_inward(s, orelse);
                    lower_opt_scoped(s, orelse)
                };
                let s = {
                    seal_block_inward(s, TerminatorView::Jump(join));
                    seal_block(s, TerminatorView::Jump(join))
                };
                let s = LowerView { cur: join, ..s };
                s
            },
            StmtKindView::While { .. } => {
                let s = {
                    lower_while_inward(s, stmt);
                    lower_while(s, stmt)
                };
                s
            },
            StmtKindView::For { reference, iter, .. } => if reference {
                match iter.kind {
                    ExprKindView::Identifier(source) => {
                        let s = {
                            lower_ref_for_inward(s, stmt, source);
                            lower_ref_for(s, stmt, source)
                        };
                        s
                    },
                    _ => {
                        let pass = StmtView { kind: StmtKindView::Pass, span: stmt.span, module: None };
                        let s = {
                            lower_opaque_inward(s, pass);
                            lower_opaque(s, pass)
                        };
                        s
                    },
                }
            } else {
                let s = {
                    lower_for_inward(s, stmt);
                    lower_for(s, stmt)
                };
                s
            },
            StmtKindView::Break => {
                let s = {
                    lower_jump_inward(s, stmt, false);
                    lower_jump(s, stmt, false)
                };
                s
            },
            StmtKindView::Continue => {
                let s = {
                    lower_jump_inward(s, stmt, true);
                    lower_jump(s, stmt, true)
                };
                s
            },
            StmtKindView::Return(value) => {
                let value = lowered_opt_expr(s, value);
                let s = {
                    seal_block_inward(s, TerminatorView::Return(value));
                    seal_block(s, TerminatorView::Return(value))
                };
                s
            },
            StmtKindView::VarDecl { name, value, .. } => {
                let value = lowered_expr(s, value);
                let (s, slot) = {
                    declare_inward(s, name);
                    declare(s, name)
                };
                let binding_ty = binding_ty_of(s.checked, value);
                let s = {
                    push_instr_inward(s, HirInstrView::Bind { dest: slot, expr: value, binding_ty });
                    push_instr(s, HirInstrView::Bind { dest: slot, expr: value, binding_ty })
                };
                s
            },
            StmtKindView::RefDecl { name, value } => {
                let s = {
                    lower_ref_decl_inward(s, stmt, name, value);
                    lower_ref_decl(s, stmt, name, value)
                };
                s
            },
            StmtKindView::Assign { name, value } => {
                let value = lowered_expr(s, value);
                let (s, captured) = {
                    take_captured_inward(s, name);
                    take_captured(s, name)
                };
                let s = if !visible(s, name) {
                    let s = {
                        name_in_scope_inward(s, name, name);
                        name_in_scope(s, name, name)
                    };
                    s
                } else {
                    s
                };
                let runtime = if captured {
                    let count = s.vars.len() as usize;
                    name + "$shadow"@ + decimal(count as nat)
                } else {
                    runtime_name(s.scopes, name)
                };
                let s = if captured {
                    let s = {
                        name_in_scope_inward(s, name, runtime);
                        name_in_scope(s, name, runtime)
                    };
                    s
                } else {
                    s
                };
                let (s, slot) = {
                    intern_inward(s, runtime);
                    intern(s, runtime)
                };
                let s = {
                    push_instr_inward(s, HirInstrView::Bind { dest: slot, expr: value, binding_ty: None });
                    push_instr(s, HirInstrView::Bind { dest: slot, expr: value, binding_ty: None })
                };
                s
            },
            StmtKindView::Expr(value) => {
                let value = lowered_expr(s, value);
                let s = {
                    push_instr_inward(s, HirInstrView::Eval(value));
                    push_instr(s, HirInstrView::Eval(value))
                };
                s
            },
            StmtKindView::Try { .. } => if s.is_function || all_loops_escape(s.loops, 0) {
                let targets = targets_of_loops(s.loops, 0, Seq::empty());
                let statement = lowered_statement(s, stmt);
                let s = {
                    push_instr_inward(s, HirInstrView::Try { stmt: statement, loop_targets: targets });
                    push_instr(s, HirInstrView::Try { stmt: statement, loop_targets: targets })
                };
                s
            } else {
                let s = {
                    lower_opaque_inward(s, stmt);
                    lower_opaque(s, stmt)
                };
                s
            },
            _ => {
                let s = {
                    lower_opaque_inward(s, stmt);
                    lower_opaque(s, stmt)
                };
                s
            },
        }
    };
}

/// No block of a function falls off an end or jumps out: only a region's blocks do.
pub proof fn function_ends_inside(
    params: Seq<Seq<char>>,
    captures: Seq<Seq<char>>,
    body: Seq<StmtView>,
    checked: Seq<CheckedExprView>,
)
    ensures
        all_end_inside(function_cfg(params, captures, body, checked).blocks),
{
    reveal(function_cfg);
    reveal(started);
    reveal(finished);
    let explicit = declared_names(body, 0, Seq::empty());
    let implicit = implicit_names(body, explicit, 0, Seq::empty());
    let named = same_names(params, 0, Seq::empty());
    let (vars, scope) = rooted(implicit, 0, params, named);
    let bare = LowerView {
        g: no_blocks(),
        blocks: Seq::empty(),
        cur: 0,
        loops: Seq::empty(),
        vars,
        scopes: seq![scope],
        captures,
        is_function: true,
        checked,
        complete: true,
    };
    new_block_inward(bare);
    let lower = started(vars, scope, captures, Seq::empty(), true, checked);
    lower_block_inward(lower, body, 0);
    seal_block_inward(lower_block(lower, body, 0), TerminatorView::Return(None));
}

} // verus!
