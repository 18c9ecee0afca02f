//! Which slot a name has, and which slots a loop over an iterator uses.

use crate::ast::{ExprKindView, StmtKindView, StmtView};
use crate::facts::{made_expr, made_ident, unchecked_expr};
use crate::growth::lower::{lower_scoped_grows, push_instr_grows, seal_block_grows};
use crate::growth::starts_with;
use crate::hir::{HirInstrView, TerminatorView};
use crate::lower::{
    binding_ty_of, declare, enter_scope, fresh_name, intern, lower_for, lower_scoped, lower_stmt,
    lowered_expr, name_in_scope, new_block, protocol_of, push_instr, seal_block, shadows,
    take_captured, unsealed, visible, LowerView,
};
use crate::paths::{interning_stays, loop_rest, pushing, rest_is_larger, rest_keeps, sealing};
use crate::scopes::{runtime_in_scope, runtime_name, slot_of};
use crate::text::decimal;
use vstd::prelude::*;

verus! {

proof fn slot_is_of_name(vars: Seq<Seq<char>>, name: Seq<char>, i: nat)
    requires
        vars.len() <= usize::MAX,
    ensures
        match slot_of(vars, name, i) {
            Some(k) => i <= k < vars.len() && vars[k as int] == name,
            None => forall|k: int| i <= k < vars.len() ==> #[trigger] vars[k] != name,
        },
    decreases vars.len() - i,
{
    if i < vars.len() {
        slot_is_of_name(vars, name, i + 1);
    }
}

/// A slot has the name it was asked for, asking again gives the same slot, and the slots that
/// were there keep their names.
pub proof fn slot_has_its_name(s: LowerView, name: Seq<char>)
    requires
        s.vars.len() < u32::MAX,
    ensures
        ({
            let (t, slot) = intern(s, name);
            &&& slot < t.vars.len()
            &&& t.vars[slot as int] == name
            &&& starts_with(t.vars, s.vars)
            &&& intern(t, name) == (t, slot)
        }),
{
    reveal(intern);
    slot_is_of_name(s.vars, name, 0);
    let (t, slot) = intern(s, name);
    slot_is_of_name(t.vars, name, 0);
    match slot_of(s.vars, name, 0) {
        Some(_) => {},
        None => {
            assert(t.vars[s.vars.len() as int] == name);
            match slot_of(t.vars, name, 0) {
                Some(k) => {
                    if k < s.vars.len() {
                        assert(s.vars[k as int] == t.vars[k as int]);
                    }
                },
                None => {},
            }
        },
    }
}

/// A name that is declared stands for its new slot from there on, and other names stand for
/// what they stood for. A name that is declared outside too gets a slot of its own.
pub proof fn declared_name_has_its_slot(s: LowerView, name: Seq<char>, other: Seq<char>)
    requires
        s.vars.len() < u32::MAX,
        s.scopes.len() > 0,
    ensures
        ({
            let (t, slot) = declare(s, name);
            &&& slot < t.vars.len()
            &&& t.vars[slot as int] == runtime_name(t.scopes, name)
            &&& other != name ==> runtime_name(t.scopes, other) == runtime_name(s.scopes, other)
            &&& !shadows(s, name) ==> t.vars[slot as int] == name
            &&& shadows(s, name) ==> t.vars[slot as int].len() > name.len()
        }),
{
    reveal(declare);
    reveal(name_in_scope);
    let runtime = if shadows(s, name) {
        name + "$shadow"@ + decimal(s.vars.len() as usize as nat)
    } else {
        name
    };
    let s1 = name_in_scope(s, name, runtime);
    slot_has_its_name(s1, runtime);
    reveal(intern);
    let scope = s.scopes.last().push((name, runtime));
    assert(s1.scopes.last() == scope);
    assert(s1.scopes.drop_last() =~= s.scopes.drop_last());
    assert(scope.last() == (name, runtime));
    assert(scope.drop_last() =~= s.scopes.last());
    if other != name {
        assert(runtime_in_scope(scope, other) == runtime_in_scope(s.scopes.last(), other));
    }
    reveal_strlit("$shadow");
}

/// A variable declaration binds the slot that its name stands for afterwards; its value is
/// seen with the names from before.
pub proof fn declaration_binds_its_slot(s: LowerView, stmt: StmtView)
    requires
        unsealed(s),
        s.vars.len() < u32::MAX,
        s.scopes.len() > 0,
    ensures
        stmt.kind matches StmtKindView::VarDecl { name, value, .. } ==> {
            let t = lower_stmt(s, stmt);
            &&& t.blocks[s.cur as int].instrs.len() == s.blocks[s.cur as int].instrs.len() + 1
            &&& t.blocks[s.cur as int].instrs.last() matches HirInstrView::Bind { dest, expr, .. }
            &&& dest < t.vars.len()
            &&& t.vars[dest as int] == runtime_name(t.scopes, name)
            &&& expr == lowered_expr(s, value)
        },
{
    match stmt.kind {
        StmtKindView::VarDecl { name, value, .. } => {
            let e = lowered_expr(s, value);
            let (d, slot) = declare(s, name);
            declared_name_has_its_slot(s, name, name);
            assert(d.blocks == s.blocks && d.cur == s.cur && d.scopes == declare(s, name).0.scopes)
                by {
                reveal(declare);
                reveal(name_in_scope);
                reveal(intern);
                reveal(enter_scope);
            }
            let instr = HirInstrView::Bind { dest: slot, expr: e, binding_ty: binding_ty_of(
                d.checked,
                e,
            ) };
            pushing(d, instr);
            assert(push_instr(d, instr).vars == d.vars && push_instr(d, instr).scopes == d.scopes)
                by {
                reveal(push_instr);
            }
            assert(lower_stmt(s, stmt) == push_instr(d, instr));
        },
        _ => {},
    }
}

/// An assignment to a name that is visible and not captured binds the slot that the name
/// stands for.
pub proof fn assignment_binds_its_slot(s: LowerView, stmt: StmtView)
    requires
        unsealed(s),
        s.vars.len() < u32::MAX,
    ensures
        stmt.kind matches StmtKindView::Assign { name, value } ==> (visible(s, name)
            && !s.captures.contains(name) ==> {
            let t = lower_stmt(s, stmt);
            &&& t.scopes == s.scopes
            &&& t.blocks[s.cur as int].instrs.len() == s.blocks[s.cur as int].instrs.len() + 1
            &&& t.blocks[s.cur as int].instrs.last() matches HirInstrView::Bind { dest, expr, .. }
            &&& dest < t.vars.len()
            &&& t.vars[dest as int] == runtime_name(s.scopes, name)
            &&& expr == lowered_expr(s, value)
        }),
{
    match stmt.kind {
        StmtKindView::Assign { name, value } => {
            if visible(s, name) && !s.captures.contains(name) {
                let e = lowered_expr(s, value);
                let (s1, captured) = take_captured(s, name);
                reveal(take_captured);
                assert(visible(s1, name)) by {
                    reveal(visible);
                }
                let runtime = runtime_name(s1.scopes, name);
                let (d, slot) = intern(s1, runtime);
                slot_has_its_name(s1, runtime);
                interning_stays(s1, runtime);
                let instr = HirInstrView::Bind { dest: slot, expr: e, binding_ty: None };
                pushing(d, instr);
                assert(push_instr(d, instr).vars == d.vars && push_instr(d, instr).scopes
                    == d.scopes) by {
                    reveal(push_instr);
                }
                assert(d.scopes == s1.scopes) by {
                    reveal(intern);
                }
                assert(lower_stmt(s, stmt) == push_instr(d, instr));
            }
        },
        _ => {},
    }
}

/// After a body in a scope of its own every name stands for what it stood for before.
pub proof fn scopes_end(s: LowerView, body: Seq<StmtView>, name: Seq<char>)
    ensures
        runtime_name(lower_scoped(s, body).scopes, name) == runtime_name(s.scopes, name),
{
    lower_scoped_grows(s, s, body);
}

/// Whether a loop uses one iterator: it is bound and set up before the header, the header asks
/// it and tests the answer, and the body begins by taking an element from it.
pub open spec fn asks(s: LowerView, stmt: StmtView, t: LowerView, it: u32, header: usize) -> bool {
    &&& stmt.kind matches StmtKindView::For { var, iter, orelse, .. }
    &&& {
        let n = s.blocks[s.cur as int].instrs.len() as int;
        let front = t.blocks[s.cur as int];
        let top = t.blocks[header as int];
        &&& front.instrs.len() == n + 2
        &&& front.instrs[n] matches HirInstrView::Bind { dest, expr, .. }
        &&& dest == it
        &&& expr.syntax.span == iter.span
        &&& front.instrs[n + 1] matches HirInstrView::GetIter { iter: made, .. }
        &&& made == it
        &&& front.term == Some(TerminatorView::Jump(header))
        &&& top.instrs.len() == 1
        &&& top.instrs[0] matches HirInstrView::HasNext { iter: asked, dest: told, .. }
        &&& asked == it
        &&& top.term matches Some(TerminatorView::Branch { cond, then_b, else_b })
        &&& told < t.vars.len()
        &&& cond.syntax.kind == ExprKindView::Identifier(t.vars[told as int])
        &&& t.blocks[then_b as int].instrs.len() > 0
        &&& t.blocks[then_b as int].instrs[0] matches HirInstrView::Next {
            iter: taken,
            dest: element,
            ..
        }
        &&& taken == it
        &&& element < t.vars.len()
        &&& t.vars[element as int] == var
        &&& orelse is None ==> else_b == t.cur
        &&& orelse is Some ==> else_b != t.cur
    }
}

/// A `for` loop asks the iterator that it made whether there is another element, tests what
/// it was told, and takes the element from that iterator into its variable. When the test
/// fails and there is no `else`, it goes on behind the loop.
#[verifier::spinoff_prover]
pub proof fn for_asks_its_iterator(s: LowerView, stmt: StmtView)
    requires
        unsealed(s),
        stmt.kind is For,
        lower_for(s, stmt).blocks.len() <= usize::MAX,
        lower_for(s, stmt).vars.len() < u32::MAX,
    ensures
        exists|it: u32, header: usize| #[trigger] asks(s, stmt, lower_for(s, stmt), it, header),
{
    match stmt.kind {
        StmtKindView::For { var, owned, iter, body, orelse, .. } => {
            let it_name = fresh_name(s, "$iter"@);
            let (p1, it_var) = intern(s, it_name);
            interning_stays(s, it_name);
            let checked_iter = lowered_expr(p1, iter);
            crate::paths::lowered_span(p1, iter);
            let protocol = protocol_of(checked_iter.adjustments, owned);
            let bind = HirInstrView::Bind { dest: it_var, expr: checked_iter, binding_ty: None };
            let get = HirInstrView::GetIter { iter: it_var, protocol };
            let p2 = push_instr(p1, bind);
            let p3 = push_instr(p2, get);
            let (s1, header) = new_block(p3);
            let (s2, body_b) = new_block(s1);
            let (s3, exit) = new_block(s2);
            let (s4, normal_exit) = if orelse is Some {
                new_block(s3)
            } else {
                (s3, exit)
            };
            let s5 = seal_block(s4, TerminatorView::Jump(header));
            let s6 = LowerView { cur: header, ..s5 };
            let hn_name = fresh_name(s6, "$hasnext"@);
            let (q1, hn_var) = intern(s6, hn_name);
            interning_stays(s6, hn_name);
            let has = HirInstrView::HasNext { iter: it_var, dest: hn_var, method: protocol.has_next };
            let q2 = push_instr(q1, has);
            let more = unchecked_expr(made_ident(hn_name));
            let term = TerminatorView::Branch { cond: more, then_b: body_b, else_b: normal_exit };
            let s7 = seal_block(q2, term);
            let s8 = LowerView { cur: body_b, ..s7 };
            let (r1, element) = intern(s8, var);
            interning_stays(s8, var);
            let next = HirInstrView::Next { iter: it_var, dest: element, method: protocol.next };
            let a0 = push_instr(r1, next);
            let t = loop_rest(a0, body, Seq::empty(), orelse, header, exit, normal_exit);
            assert(lower_for(s, stmt) == t);
            rest_is_larger(a0, body, Seq::empty(), orelse, header, exit, normal_exit);
            pushing(p1, bind);
            pushing(p2, get);
            reveal(new_block);
            sealing(s4, TerminatorView::Jump(header));
            push_instr_grows(r1, r1, next);
            seal_block_grows(q2, q2, term);
            push_instr_grows(q1, q1, has);
            assert(p3.blocks.len() + 3 <= t.blocks.len());
            assert(orelse is Some ==> p3.blocks.len() + 4 <= t.blocks.len());
            pushing(q1, has);
            sealing(q2, term);
            pushing(r1, next);
            rest_keeps(a0, body, orelse, header, exit, normal_exit);
            reveal(unchecked_expr);
            reveal(made_ident);
            reveal(made_expr);
            assert(starts_with(r1.vars, q1.vars) && a0.vars == r1.vars && starts_with(t.vars, a0.vars))
                by {
                reveal(intern);
                reveal(push_instr);
                reveal(seal_block);
                reveal(crate::lower::connect_targets);
                reveal(crate::lower::connect_to);
            }
            assert(s6.vars.len() <= q1.vars.len() && s8.vars.len() <= r1.vars.len()) by {
                reveal(intern);
            }
            slot_has_its_name(s6, hn_name);
            slot_has_its_name(s8, var);
            assert(t.vars[hn_var as int] == q1.vars[hn_var as int]);
            assert(t.vars[element as int] == r1.vars[element as int]);
            let h = header as int;
            let c = s.cur as int;
            assert(a0.blocks[h] == s7.blocks[h]);
            assert(t.blocks[h] == a0.blocks[h]);
            assert(a0.blocks[c] == s5.blocks[c]);
            assert(t.blocks[c] == a0.blocks[c]);
            assert(t.blocks[body_b as int].instrs[0] == a0.blocks[body_b as int].instrs[0]);
            assert(asks(s, stmt, t, it_var, header));
        },
        _ => {},
    }
}

} // verus!
