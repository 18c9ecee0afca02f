//! What walking a control-flow graph passes by is what running the statements it was made
//! of does, in the same order.

use crate::ast::{ExprKindView, ExprView, StmtKindView, StmtView};
use crate::cfg::{finished, function_cfg, rooted, same_names, started};
use crate::checked::CheckedExprView;
use crate::facts::{hir_of, hir_of_stmt, made_expr, made_ident, unchecked_expr};
use crate::growth::lower::{
    grown, kept, lower_block_grows, lower_branches_grows, lower_jump_grows, lower_loop_body_grows,
    lower_opt_scoped_grows, lower_ref_decl_grows, lower_scoped_grows, lower_stmt_grows,
    new_block_grows, push_instr_grows, seal_block_grows,
};
use crate::growth::starts_with;
use crate::hir::{BasicBlockView, HirExprView, HirInstrView, TerminatorView};
use crate::locals::{declared_names, implicit_names};
use crate::lower::{
    all_loops_escape, below_length, binding_ty_of, connect_targets, connect_to, declare,
    element_at, empty_block, enter_scope, fresh_name, intern, leave_loop, leave_scope, lower_block,
    lower_branches, lower_for, lower_jump, lower_loop_body, lower_loop_else, lower_opaque,
    lower_opt_scoped, lower_ref_decl, lower_ref_for, lower_scoped, lower_stmt, lower_while,
    lowered_expr, lowered_opt_expr, lowered_statement, name_in_scope, new_block, protocol_of,
    push_instr, seal_block, slot_name, successor, take_captured, targets_of_loops, unsealed,
    visible, LoopFrame, LowerView,
};
use crate::scopes::{renamed_expr, runtime_name};
use crate::text::decimal;
use crate::token::Span;
use vstd::prelude::*;

verus! {

/// Something that happens on the way, with the place in the source it comes from.
pub enum Event {
    Bind(Span),
    Eval(Span),
    Stmt(Span),
    Drop,
    GetIter,
    HasNext,
    Next,
    Test(Span),
}

/// How a test turns out, given what happened up to it.
pub type Oracle = spec_fn(Seq<Event>) -> bool;

/// Where a walk is: before an instruction or the end of a block, or out of the graph.
pub enum Walk {
    Here(int, int, Seq<Event>),
    Returned(Option<Span>, Seq<Event>),
    Escaped(usize, Seq<Event>),
    FellOff(Seq<Event>),
    Stuck(Seq<Event>),
}

pub open spec fn event_of(instr: HirInstrView) -> Event {
    match instr {
        HirInstrView::Bind { expr, .. } => Event::Bind(expr.syntax.span),
        HirInstrView::Eval(expr) => Event::Eval(expr.syntax.span),
        HirInstrView::Stmt(stmt) => Event::Stmt(stmt.syntax.span),
        HirInstrView::Try { stmt, .. } => Event::Stmt(stmt.syntax.span),
        HirInstrView::Drop(_) => Event::Drop,
        HirInstrView::GetIter { .. } => Event::GetIter,
        HirInstrView::HasNext { .. } => Event::HasNext,
        HirInstrView::Next { .. } => Event::Next,
    }
}

pub open spec fn events_of(instrs: Seq<HirInstrView>) -> Seq<Event> {
    Seq::new(instrs.len(), |k: int| event_of(instrs[k]))
}

/// Where the end of a block leads: a branch to its first target when the test holds, and to
/// its second when it fails.
pub open spec fn led(term: Option<TerminatorView>, o: Oracle, tr: Seq<Event>) -> Walk {
    match term {
        Some(TerminatorView::Jump(to)) => Walk::Here(to as int, 0, tr),
        Some(TerminatorView::Branch { cond, then_b, else_b }) => {
            let tr = tr.push(Event::Test(cond.syntax.span));
            if o(tr) {
                Walk::Here(then_b as int, 0, tr)
            } else {
                Walk::Here(else_b as int, 0, tr)
            }
        },
        Some(TerminatorView::Return(Some(value))) => Walk::Returned(Some(value.syntax.span), tr),
        Some(TerminatorView::Return(None)) => Walk::Returned(None, tr),
        Some(TerminatorView::EscapeJump(to)) => Walk::Escaped(to, tr),
        Some(TerminatorView::FallOff) => Walk::FellOff(tr),
        None => Walk::Stuck(tr),
    }
}

/// One step of a walk.
pub open spec fn step(g: Seq<BasicBlockView>, o: Oracle, w: Walk) -> Walk {
    match w {
        Walk::Here(b, i, tr) => if 0 <= b < g.len() {
            if 0 <= i < g[b].instrs.len() {
                Walk::Here(b, i + 1, tr.push(event_of(g[b].instrs[i])))
            } else {
                led(g[b].term, o, tr)
            }
        } else {
            Walk::Stuck(tr)
        },
        _ => w,
    }
}

/// Some steps of a walk.
pub open spec fn walk(g: Seq<BasicBlockView>, o: Oracle, w: Walk, n: nat) -> Walk
    decreases n,
{
    if n == 0 {
        w
    } else {
        walk(g, o, step(g, o, w), (n - 1) as nat)
    }
}

/// Whether a walk comes from one point to another.
pub open spec fn reaches(g: Seq<BasicBlockView>, o: Oracle, w: Walk, v: Walk) -> bool {
    exists|n: nat| #[trigger] walk(g, o, w, n) == v
}

/// How statements end.
pub enum Way {
    Next,
    Break,
    Continue,
    Return(Option<Span>),
}

/// What running a statement does, as far as `fuel` rounds of each loop suffice. Outside a
/// loop `break` and `continue` are kept as they are.
pub open spec fn stmt_traced(
    stmt: StmtView,
    looped: bool,
    o: Oracle,
    tr: Seq<Event>,
    fuel: nat,
) -> Option<(Way, Seq<Event>)>
    decreases fuel, stmt, 9nat, 0nat,
{
    match stmt.kind {
        StmtKindView::If { branches, orelse } => match branches_traced(
            branches,
            0,
            looped,
            o,
            tr,
            fuel,
        ) {
            Some((Some(way), tr)) => Some((way, tr)),
            Some((None, tr)) => opt_traced(orelse, looped, o, tr, fuel),
            None => None,
        },
        StmtKindView::While { cond, body, orelse } => match rounds_traced(
            Seq::empty(),
            cond.span,
            Seq::empty(),
            body,
            Seq::empty(),
            o,
            tr,
            fuel,
        ) {
            Some((Way::Next, tr)) => opt_traced(orelse, looped, o, tr, fuel),
            Some((Way::Return(value), tr)) => Some((Way::Return(value), tr)),
            Some((_, tr)) => Some((Way::Next, tr)),
            None => None,
        },
        StmtKindView::For { reference, iter, body, orelse, .. } => if !reference {
            match rounds_traced(
                seq![Event::HasNext],
                (0, 0),
                seq![Event::Next],
                body,
                Seq::empty(),
                o,
                tr.push(Event::Bind(iter.span)).push(Event::GetIter),
                fuel,
            ) {
                Some((Way::Next, tr)) => opt_traced(orelse, looped, o, tr, fuel),
                Some((Way::Return(value), tr)) => Some((Way::Return(value), tr)),
                Some((_, tr)) => Some((Way::Next, tr)),
                None => None,
            }
        } else if iter.kind is Identifier {
            match rounds_traced(
                Seq::empty(),
                (0, 0),
                seq![Event::Stmt(stmt.span)],
                body,
                seq![Event::Bind((0, 0))],
                o,
                tr.push(Event::Bind((0, 0))),
                fuel,
            ) {
                Some((Way::Next, tr)) => opt_traced(orelse, looped, o, tr, fuel),
                Some((Way::Return(value), tr)) => Some((Way::Return(value), tr)),
                Some((_, tr)) => Some((Way::Next, tr)),
                None => None,
            }
        } else {
            Some((Way::Next, tr.push(Event::Stmt(stmt.span))))
        },
        StmtKindView::Break => if looped {
            Some((Way::Break, tr))
        } else {
            Some((Way::Next, tr.push(Event::Stmt(stmt.span))))
        },
        StmtKindView::Continue => if looped {
            Some((Way::Continue, tr))
        } else {
            Some((Way::Next, tr.push(Event::Stmt(stmt.span))))
        },
        StmtKindView::Return(Some(value)) => Some((Way::Return(Some(value.span)), tr)),
        StmtKindView::Return(None) => Some((Way::Return(None), tr)),
        StmtKindView::VarDecl { value, .. } => Some((Way::Next, tr.push(Event::Bind(value.span)))),
        StmtKindView::Assign { value, .. } => Some((Way::Next, tr.push(Event::Bind(value.span)))),
        StmtKindView::Expr(value) => Some((Way::Next, tr.push(Event::Eval(value.span)))),
        _ => Some((Way::Next, tr.push(Event::Stmt(stmt.span)))),
    }
}

/// What running statements one after the other does, from one of them on.
pub open spec fn block_traced(
    body: Seq<StmtView>,
    i: nat,
    looped: bool,
    o: Oracle,
    tr: Seq<Event>,
    fuel: nat,
) -> Option<(Way, Seq<Event>)>
    decreases fuel, body, 0nat, (body.len() - i) as nat,
{
    if i >= body.len() {
        Some((Way::Next, tr))
    } else {
        match stmt_traced(body[i as int], looped, o, tr, fuel) {
            Some((Way::Next, tr)) => block_traced(body, i + 1, looped, o, tr, fuel),
            other => other,
        }
    }
}

pub open spec fn opt_traced(
    body: Option<Seq<StmtView>>,
    looped: bool,
    o: Oracle,
    tr: Seq<Event>,
    fuel: nat,
) -> Option<(Way, Seq<Event>)>
    decreases fuel, body, 2nat, 0nat,
{
    match body {
        Some(body) => block_traced(body, 0, looped, o, tr, fuel),
        None => Some((Way::Next, tr)),
    }
}

/// The conditions of an `if` are tested in order up to the first that holds; its body runs.
pub open spec fn branches_traced(
    branches: Seq<(ExprView, Seq<StmtView>)>,
    i: nat,
    looped: bool,
    o: Oracle,
    tr: Seq<Event>,
    fuel: nat,
) -> Option<(Option<Way>, Seq<Event>)>
    decreases fuel, branches, 0nat, (branches.len() - i) as nat,
{
    if i >= branches.len() {
        Some((None, tr))
    } else {
        let branch = branches[i as int];
        let tr = tr.push(Event::Test(branch.0.span));
        if o(tr) {
            match block_traced(branch.1, 0, looped, o, tr, fuel) {
                Some((way, tr)) => Some((Some(way), tr)),
                None => None,
            }
        } else {
            branches_traced(branches, i + 1, looped, o, tr, fuel)
        }
    }
}

/// The rounds of a loop. Each begins with a test; what precedes the test, the body and the
/// next round is given. The rounds end `Next` when a test fails.
pub open spec fn rounds_traced(
    test: Seq<Event>,
    span: Span,
    pre: Seq<Event>,
    body: Seq<StmtView>,
    post: Seq<Event>,
    o: Oracle,
    tr: Seq<Event>,
    fuel: nat,
) -> Option<(Way, Seq<Event>)>
    decreases fuel, body, 3nat, 0nat,
{
    let tr = (tr + test).push(Event::Test(span));
    if !o(tr) {
        Some((Way::Next, tr))
    } else if fuel == 0 {
        None
    } else {
        match block_traced(body, 0, true, o, tr + pre, fuel) {
            Some((Way::Next, tr)) => rounds_traced(
                test,
                span,
                pre,
                body,
                post,
                o,
                tr + post,
                (fuel - 1) as nat,
            ),
            Some((Way::Continue, tr)) => rounds_traced(
                test,
                span,
                pre,
                body,
                post,
                o,
                tr,
                (fuel - 1) as nat,
            ),
            other => other,
        }
    }
}

// ---- steps

proof fn walk_on(g: Seq<BasicBlockView>, o: Oracle, w: Walk, n: nat, m: nat)
    ensures
        walk(g, o, w, n + m) == walk(g, o, walk(g, o, w, n), m),
    decreases n,
{
    if n > 0 {
        walk_on(g, o, step(g, o, w), (n - 1) as nat, m);
    }
}

proof fn reaches_on(g: Seq<BasicBlockView>, o: Oracle, u: Walk, v: Walk, w: Walk)
    requires
        reaches(g, o, u, v),
        reaches(g, o, v, w),
    ensures
        reaches(g, o, u, w),
{
    let n = choose|n: nat| #[trigger] walk(g, o, u, n) == v;
    let m = choose|m: nat| #[trigger] walk(g, o, v, m) == w;
    walk_on(g, o, u, n, m);
}

proof fn reaches_itself(g: Seq<BasicBlockView>, o: Oracle, w: Walk)
    ensures
        reaches(g, o, w, w),
{
    assert(walk(g, o, w, 0) == w);
}

proof fn reaches_next(g: Seq<BasicBlockView>, o: Oracle, w: Walk)
    ensures
        reaches(g, o, w, step(g, o, w)),
{
    assert(walk(g, o, step(g, o, w), 0) == step(g, o, w));
    assert(walk(g, o, w, 1) == step(g, o, w));
}

/// The instructions of a block are passed in order.
proof fn passes(g: Seq<BasicBlockView>, o: Oracle, b: int, i: int, j: int, tr: Seq<Event>)
    requires
        0 <= b < g.len(),
        0 <= i <= j <= g[b].instrs.len(),
    ensures
        reaches(
            g,
            o,
            Walk::Here(b, i, tr),
            Walk::Here(b, j, tr + events_of(g[b].instrs.subrange(i, j))),
        ),
    decreases j - i,
{
    let there = Walk::Here(b, j, tr + events_of(g[b].instrs.subrange(i, j)));
    if i == j {
        assert(tr + events_of(g[b].instrs.subrange(i, j)) =~= tr);
        reaches_itself(g, o, there);
    } else {
        let next = tr.push(event_of(g[b].instrs[i]));
        reaches_next(g, o, Walk::Here(b, i, tr));
        passes(g, o, b, i + 1, j, next);
        assert(next + events_of(g[b].instrs.subrange(i + 1, j)) =~= tr + events_of(
            g[b].instrs.subrange(i, j),
        ));
        reaches_on(g, o, Walk::Here(b, i, tr), Walk::Here(b, i + 1, next), there);
    }
}

// ---- the graph that is made in the end

/// Whether blocks are still there in the end: those that have ended as they are, the others
/// perhaps extended.
pub open spec fn extends(t: Seq<BasicBlockView>, g: Seq<BasicBlockView>) -> bool {
    &&& t.len() <= g.len() <= usize::MAX
    &&& forall|b: int|
        0 <= b < t.len() ==> starts_with(g[b].instrs, (#[trigger] t[b]).instrs) && (t[b].term is Some
            ==> g[b] == t[b])
}

/// The point a state of lowering has come to.
spec fn at(s: LowerView, tr: Seq<Event>) -> Walk {
    Walk::Here(s.cur as int, s.blocks[s.cur as int].instrs.len() as int, tr)
}

/// Whether the loops around can be counted together with the blocks still to be made.
spec fn roomy(s: LowerView, g: Seq<BasicBlockView>) -> bool {
    s.loops.len() + g.len() <= usize::MAX + s.blocks.len()
}

/// Where statements lead that end in a way.
spec fn arrival(loops: Seq<LoopFrame>, t: LowerView, way: Way, tr: Seq<Event>) -> Walk {
    match way {
        Way::Next => at(t, tr),
        Way::Return(value) => Walk::Returned(value, tr),
        Way::Break => if loops.last().escape {
            Walk::Escaped(loops.last().exit, tr)
        } else {
            Walk::Here(loops.last().exit as int, 0, tr)
        },
        Way::Continue => if loops.last().escape {
            Walk::Escaped(loops.last().header, tr)
        } else {
            Walk::Here(loops.last().header as int, 0, tr)
        },
    }
}

/// Whether the graph does from one state of lowering to another what was traced.
spec fn follows(
    g: Seq<BasicBlockView>,
    o: Oracle,
    s: LowerView,
    t: LowerView,
    tr: Seq<Event>,
    traced: Option<(Way, Seq<Event>)>,
) -> bool {
    traced matches Some((way, end)) ==> {
        &&& way is Next ==> unsealed(t)
        &&& way is Break || way is Continue ==> s.loops.len() > 0
        &&& reaches(g, o, at(s, tr), arrival(s.loops, t, way, end))
    }
}

proof fn extends_back(s: LowerView, t: LowerView, g: Seq<BasicBlockView>)
    requires
        grown(s, t),
        extends(t.blocks, g),
    ensures
        extends(s.blocks, g),
        kept(s, t),
{
    assert forall|b: int| 0 <= b < s.blocks.len() implies starts_with(
        g[b].instrs,
        (#[trigger] s.blocks[b]).instrs,
    ) && (s.blocks[b].term is Some ==> g[b] == s.blocks[b]) by {
        assert(starts_with(g[b].instrs, t.blocks[b].instrs));
        if b != s.cur || s.blocks[b].term is Some {
            assert(t.blocks[b] == s.blocks[b]);
        }
    }
}

proof fn pushed_follows(
    s: LowerView,
    instr: HirInstrView,
    g: Seq<BasicBlockView>,
    o: Oracle,
    tr: Seq<Event>,
)
    requires
        unsealed(s),
        extends(push_instr(s, instr).blocks, g),
    ensures
        unsealed(push_instr(s, instr)),
        push_instr(s, instr).cur == s.cur,
        push_instr(s, instr).loops == s.loops,
        push_instr(s, instr).blocks.len() == s.blocks.len(),
        push_instr(s, instr).blocks[s.cur as int].instrs == s.blocks[s.cur as int].instrs.push(instr),
        reaches(g, o, at(s, tr), at(push_instr(s, instr), tr.push(event_of(instr)))),
{
    reveal(push_instr);
    let t = push_instr(s, instr);
    let (b, n) = (s.cur as int, s.blocks[s.cur as int].instrs.len() as int);
    assert(starts_with(g[b].instrs, t.blocks[b].instrs));
    assert(t.blocks[b].instrs[n] == instr);
    assert(g[b].instrs[n] == t.blocks[b].instrs[n]);
    reaches_next(g, o, at(s, tr));
}

proof fn sealed_follows(
    s: LowerView,
    term: TerminatorView,
    g: Seq<BasicBlockView>,
    o: Oracle,
    tr: Seq<Event>,
)
    requires
        unsealed(s),
        extends(seal_block(s, term).blocks, g),
    ensures
        g[s.cur as int].instrs == s.blocks[s.cur as int].instrs,
        g[s.cur as int].term == Some(term),
        seal_block(s, term).blocks.len() == s.blocks.len(),
        seal_block(s, term).blocks[s.cur as int].term == Some(term),
        seal_block(s, term).blocks[s.cur as int].instrs == s.blocks[s.cur as int].instrs,
        reaches(g, o, at(s, tr), led(Some(term), o, tr)),
{
    reveal(seal_block);
    reveal(connect_targets);
    reveal(connect_to);
    let t = seal_block(s, term);
    assert(t.blocks[s.cur as int].term == Some(term));
    reaches_next(g, o, at(s, tr));
}

pub(crate) proof fn lowered_span(s: LowerView, e: ExprView)
    ensures
        lowered_expr(s, e).syntax.span == e.span,
{
    reveal(lowered_expr);
    reveal(hir_of);
    reveal(unchecked_expr);
    assert(renamed_expr(e, s.scopes).span == e.span);
}

proof fn kept_span(s: LowerView, stmt: StmtView)
    ensures
        lowered_statement(s, stmt).syntax == stmt,
{
    reveal(lowered_statement);
    reveal(hir_of_stmt);
}

/// A new block is empty, and nothing else changes.
proof fn fresh_block(s: LowerView)
    requires
        s.blocks.len() < usize::MAX,
    ensures
        new_block(s).1 == s.blocks.len(),
        new_block(s).0.blocks == s.blocks.push(empty_block()),
        new_block(s).0.cur == s.cur,
        new_block(s).0.loops == s.loops,
{
    reveal(new_block);
}

/// Naming a slot changes no block.
pub(crate) proof fn interning_stays(s: LowerView, name: Seq<char>)
    ensures
        intern(s, name).0.blocks == s.blocks,
        intern(s, name).0.cur == s.cur,
        intern(s, name).0.loops == s.loops,
{
    reveal(intern);
}

proof fn declaring_stays(s: LowerView, name: Seq<char>)
    ensures
        declare(s, name).0.blocks == s.blocks,
        declare(s, name).0.cur == s.cur,
        declare(s, name).0.loops == s.loops,
{
    reveal(declare);
    reveal(intern);
    reveal(name_in_scope);
    reveal(enter_scope);
}

// ---- statements

proof fn ref_decl_follows(
    s: LowerView,
    stmt: StmtView,
    name: Seq<char>,
    value: ExprView,
    g: Seq<BasicBlockView>,
    o: Oracle,
    tr: Seq<Event>,
)
    requires
        unsealed(s),
        extends(lower_ref_decl(s, stmt, name, value).blocks, g),
    ensures
        ({
            let t = lower_ref_decl(s, stmt, name, value);
            &&& unsealed(t)
            &&& t.cur == s.cur
            &&& t.loops == s.loops
            &&& t.blocks.len() == s.blocks.len()
            &&& t.blocks[s.cur as int].instrs.len() == s.blocks[s.cur as int].instrs.len() + 1
            &&& starts_with(t.blocks[s.cur as int].instrs, s.blocks[s.cur as int].instrs)
            &&& event_of(t.blocks[s.cur as int].instrs.last()) == Event::Stmt(stmt.span)
            &&& reaches(g, o, at(s, tr), at(t, tr.push(Event::Stmt(stmt.span))))
        }),
{
    reveal(lower_ref_decl);
    let (d, runtime) = declare(s, name);
    declaring_stays(s, name);
    let syntax = StmtView {
        kind: StmtKindView::RefDecl {
            name: slot_name(d, runtime),
            value: lowered_expr(s, value).syntax,
        },
        span: stmt.span,
        module: stmt.module,
    };
    kept_span(d, syntax);
    pushed_follows(d, HirInstrView::Stmt(lowered_statement(d, syntax)), g, o, tr);
}

proof fn opaque_follows(
    s: LowerView,
    stmt: StmtView,
    g: Seq<BasicBlockView>,
    o: Oracle,
    tr: Seq<Event>,
)
    requires
        unsealed(s),
        extends(lower_opaque(s, stmt).blocks, g),
    ensures
        unsealed(lower_opaque(s, stmt)),
        reaches(g, o, at(s, tr), at(lower_opaque(s, stmt), tr.push(Event::Stmt(stmt.span)))),
{
    reveal(lower_opaque);
    kept_span(s, stmt);
    pushed_follows(s, HirInstrView::Stmt(lowered_statement(s, stmt)), g, o, tr);
}

proof fn block_follows(
    s: LowerView,
    body: Seq<StmtView>,
    i: nat,
    g: Seq<BasicBlockView>,
    o: Oracle,
    tr: Seq<Event>,
    fuel: nat,
)
    requires
        unsealed(s),
        roomy(s, g),
        extends(lower_block(s, body, i).blocks, g),
    ensures
        follows(
            g,
            o,
            s,
            lower_block(s, body, i),
            tr,
            block_traced(body, i, s.loops.len() > 0, o, tr, fuel),
        ),
    decreases fuel, body, 0nat, (body.len() - i) as nat,
{
    if i >= body.len() {
        reaches_itself(g, o, at(s, tr));
    } else {
        let stmt = body[i as int];
        let next = lower_stmt(s, stmt);
        lower_stmt_grows(s, s, stmt);
        lower_block_grows(next, next, body, i + 1);
        extends_back(next, lower_block(next, body, i + 1), g);
        stmt_follows(s, stmt, g, o, tr, fuel);
        match stmt_traced(stmt, s.loops.len() > 0, o, tr, fuel) {
            Some((Way::Next, end)) => {
                block_follows(next, body, i + 1, g, o, end, fuel);
                match block_traced(body, i + 1, s.loops.len() > 0, o, end, fuel) {
                    Some((way, last)) => {
                        reaches_on(
                            g,
                            o,
                            at(s, tr),
                            at(next, end),
                            arrival(s.loops, lower_block(next, body, i + 1), way, last),
                        );
                    },
                    None => {},
                }
            },
            _ => {},
        }
    }
}

proof fn scoped_follows(
    s: LowerView,
    body: Seq<StmtView>,
    g: Seq<BasicBlockView>,
    o: Oracle,
    tr: Seq<Event>,
    fuel: nat,
)
    requires
        unsealed(s),
        roomy(s, g),
        extends(lower_scoped(s, body).blocks, g),
    ensures
        follows(
            g,
            o,
            s,
            lower_scoped(s, body),
            tr,
            block_traced(body, 0, s.loops.len() > 0, o, tr, fuel),
        ),
    decreases fuel, body, 1nat, 0nat,
{
    reveal(enter_scope);
    reveal(leave_scope);
    block_follows(enter_scope(s), body, 0, g, o, tr, fuel);
}

proof fn opt_follows(
    s: LowerView,
    body: Option<Seq<StmtView>>,
    g: Seq<BasicBlockView>,
    o: Oracle,
    tr: Seq<Event>,
    fuel: nat,
)
    requires
        unsealed(s),
        roomy(s, g),
        extends(lower_opt_scoped(s, body).blocks, g),
    ensures
        follows(
            g,
            o,
            s,
            lower_opt_scoped(s, body),
            tr,
            opt_traced(body, s.loops.len() > 0, o, tr, fuel),
        ),
    decreases fuel, body, 2nat, 0nat,
{
    match body {
        Some(body) => {
            scoped_follows(s, body, g, o, tr, fuel);
        },
        None => {
            reaches_itself(g, o, at(s, tr));
        },
    }
}

/// The branches of an `if` from one of them on: a branch that runs goes on at `join`.
proof fn branches_follow(
    s: LowerView,
    branches: Seq<(ExprView, Seq<StmtView>)>,
    join: usize,
    i: nat,
    g: Seq<BasicBlockView>,
    o: Oracle,
    tr: Seq<Event>,
    fuel: nat,
)
    requires
        unsealed(s),
        roomy(s, g),
        extends(lower_branches(s, branches, join, i).blocks, g),
    ensures
        unsealed(lower_branches(s, branches, join, i)),
        match branches_traced(branches, i, s.loops.len() > 0, o, tr, fuel) {
            Some((Some(Way::Next), end)) => reaches(
                g,
                o,
                at(s, tr),
                Walk::Here(join as int, 0, end),
            ),
            Some((Some(way), end)) => {
                &&& way is Break || way is Continue ==> s.loops.len() > 0
                &&& reaches(g, o, at(s, tr), arrival(s.loops, s, way, end))
            },
            Some((None, end)) => reaches(
                g,
                o,
                at(s, tr),
                at(lower_branches(s, branches, join, i), end),
            ),
            None => true,
        },
    decreases fuel, branches, 0nat, (branches.len() - i) as nat,
{
    if i >= branches.len() {
        reaches_itself(g, o, at(s, tr));
    } else {
        let branch = branches[i as int];
        let (s1, then_b) = new_block(s);
        let (s2, else_b) = new_block(s1);
        let cond = lowered_expr(s2, branch.0);
        let term = TerminatorView::Branch { cond, then_b, else_b };
        let s3 = seal_block(s2, term);
        let s4 = LowerView { cur: then_b, ..s3 };
        let s5 = lower_scoped(s4, branch.1);
        let s6 = seal_block(s5, TerminatorView::Jump(join));
        let s7 = LowerView { cur: else_b, ..s6 };
        let t = lower_branches(s7, branches, join, i + 1);
        lower_branches_grows(s7, s7, branches, join, i + 1);
        extends_back(s7, t, g);
        seal_block_grows(s5, s5, TerminatorView::Jump(join));
        extends_back(s5, s6, g);
        lower_scoped_grows(s4, s4, branch.1);
        extends_back(s4, s5, g);
        seal_block_grows(s2, s2, term);
        extends_back(s2, s3, g);
        new_block_grows(s1, s1);
        extends_back(s1, s2, g);
        new_block_grows(s, s);
        reveal(new_block);
        fresh_block(s);
        fresh_block(s1);
        lowered_span(s2, branch.0);
        sealed_follows(s2, term, g, o, tr);
        assert(s3.blocks[then_b as int] == empty_block()) by {
            assert(kept(s2, s3));
        }
        assert(s3.blocks[else_b as int] == empty_block()) by {
            assert(kept(s2, s3));
        }
        // the `else` block is untouched by the body
        seal_block_grows(s4, s5, TerminatorView::Jump(join));
        assert(s6.blocks[else_b as int] == empty_block()) by {
            assert(kept(s4, s6));
        }
        let tested = tr.push(Event::Test(branch.0.span));
        if o(tested) {
            scoped_follows(s4, branch.1, g, o, tested, fuel);
            match block_traced(branch.1, 0, s.loops.len() > 0, o, tested, fuel) {
                Some((way, end)) => {
                    reaches_on(g, o, at(s, tr), at(s4, tested), arrival(s.loops, s5, way, end));
                    if way is Next {
                        sealed_follows(s5, TerminatorView::Jump(join), g, o, end);
                        reaches_on(g, o, at(s, tr), at(s5, end), Walk::Here(join as int, 0, end));
                    }
                },
                None => {},
            }
            branches_follow(s7, branches, join, i + 1, g, o, tested, fuel);
        } else {
            branches_follow(s7, branches, join, i + 1, g, o, tested, fuel);
            match branches_traced(branches, i + 1, s.loops.len() > 0, o, tested, fuel) {
                Some((Some(Way::Next), end)) => {
                    reaches_on(g, o, at(s, tr), at(s7, tested), Walk::Here(join as int, 0, end));
                },
                Some((Some(way), end)) => {
                    reaches_on(g, o, at(s, tr), at(s7, tested), arrival(s.loops, s7, way, end));
                },
                Some((None, end)) => {
                    reaches_on(g, o, at(s, tr), at(s7, tested), at(t, end));
                },
                None => {},
            }
        }
    }
}

/// The rounds of a loop, from the start of its header on.
proof fn rounds_follow(
    a: LowerView,
    header: usize,
    exit: usize,
    normal_exit: usize,
    cond: HirExprView,
    test: Seq<Event>,
    pre: Seq<Event>,
    body: Seq<StmtView>,
    post: Seq<HirInstrView>,
    g: Seq<BasicBlockView>,
    o: Oracle,
    tr: Seq<Event>,
    fuel: nat,
)
    requires
        unsealed(a),
        roomy(a, g),
        a.loops.len() > 0,
        a.loops.last() == (LoopFrame { header, exit, escape: false }),
        events_of(a.blocks[a.cur as int].instrs) == pre,
        extends(lower_block(a, body, 0).blocks, g),
        header < g.len(),
        events_of(g[header as int].instrs) == test,
        g[header as int].term == Some(
            TerminatorView::Branch { cond, then_b: a.cur, else_b: normal_exit },
        ),
        ({
            let z = lower_block(a, body, 0);
            unsealed(z) ==> {
                &&& g[z.cur as int].instrs == z.blocks[z.cur as int].instrs + post
                &&& g[z.cur as int].term == Some(TerminatorView::Jump(header))
            }
        }),
    ensures
        match rounds_traced(
            test,
            cond.syntax.span,
            pre,
            body,
            events_of(post),
            o,
            tr,
            fuel,
        ) {
            Some((Way::Next, end)) => reaches(
                g,
                o,
                Walk::Here(header as int, 0, tr),
                Walk::Here(normal_exit as int, 0, end),
            ),
            Some((Way::Return(value), end)) => reaches(
                g,
                o,
                Walk::Here(header as int, 0, tr),
                Walk::Returned(value, end),
            ),
            Some((_, end)) => reaches(
                g,
                o,
                Walk::Here(header as int, 0, tr),
                Walk::Here(exit as int, 0, end),
            ),
            None => true,
        },
    decreases fuel, body, 3nat, 0nat,
{
    let h = header as int;
    let start = Walk::Here(h, 0, tr);
    let n = g[h].instrs.len() as int;
    passes(g, o, h, 0, n, tr);
    assert(g[h].instrs.subrange(0, n) =~= g[h].instrs);
    let asked = Walk::Here(h, n, tr + test);
    reaches_next(g, o, asked);
    reaches_on(g, o, start, asked, step(g, o, asked));
    let tested = (tr + test).push(Event::Test(cond.syntax.span));
    if o(tested) && fuel > 0 {
        let inside = Walk::Here(a.cur as int, 0, tested);
        assert(step(g, o, asked) == inside);
        let p = a.blocks[a.cur as int].instrs.len() as int;
        lower_block_grows(a, a, body, 0);
        extends_back(a, lower_block(a, body, 0), g);
        assert(starts_with(g[a.cur as int].instrs, a.blocks[a.cur as int].instrs));
        passes(g, o, a.cur as int, 0, p, tested);
        assert(events_of(g[a.cur as int].instrs.subrange(0, p)) =~= pre);
        reaches_on(g, o, start, inside, at(a, tested + pre));
        block_follows(a, body, 0, g, o, tested + pre, fuel);
        let z = lower_block(a, body, 0);
        match block_traced(body, 0, true, o, tested + pre, fuel) {
            Some((way, end)) => {
                reaches_on(g, o, start, at(a, tested + pre), arrival(a.loops, z, way, end));
                if way is Next {
                    let c = z.cur as int;
                    let (i, j) = (z.blocks[c].instrs.len() as int, g[c].instrs.len() as int);
                    passes(g, o, c, i, j, end);
                    assert(g[c].instrs.subrange(i, j) =~= post);
                    let done = Walk::Here(c, j, end + events_of(post));
                    reaches_on(g, o, start, at(z, end), done);
                    reaches_next(g, o, done);
                    let again = Walk::Here(h, 0, end + events_of(post));
                    reaches_on(g, o, start, done, again);
                    rounds_follow(
                        a,
                        header,
                        exit,
                        normal_exit,
                        cond,
                        test,
                        pre,
                        body,
                        post,
                        g,
                        o,
                        end + events_of(post),
                        (fuel - 1) as nat,
                    );
                    rounds_on(
                        g,
                        o,
                        start,
                        again,
                        header,
                        exit,
                        normal_exit,
                        rounds_traced(
                            test,
                            cond.syntax.span,
                            pre,
                            body,
                            events_of(post),
                            o,
                            end + events_of(post),
                            (fuel - 1) as nat,
                        ),
                    );
                } else if way is Continue {
                    let again = Walk::Here(h, 0, end);
                    rounds_follow(
                        a,
                        header,
                        exit,
                        normal_exit,
                        cond,
                        test,
                        pre,
                        body,
                        post,
                        g,
                        o,
                        end,
                        (fuel - 1) as nat,
                    );
                    rounds_on(
                        g,
                        o,
                        start,
                        again,
                        header,
                        exit,
                        normal_exit,
                        rounds_traced(
                            test,
                            cond.syntax.span,
                            pre,
                            body,
                            events_of(post),
                            o,
                            end,
                            (fuel - 1) as nat,
                        ),
                    );
                }
            },
            None => {},
        }
    }
}

/// What holds of rounds from one point on holds of them from an earlier one.
proof fn rounds_on(
    g: Seq<BasicBlockView>,
    o: Oracle,
    start: Walk,
    again: Walk,
    header: usize,
    exit: usize,
    normal_exit: usize,
    traced: Option<(Way, Seq<Event>)>,
)
    requires
        reaches(g, o, start, again),
        match traced {
            Some((Way::Next, end)) => reaches(
                g,
                o,
                again,
                Walk::Here(normal_exit as int, 0, end),
            ),
            Some((Way::Return(value), end)) => reaches(g, o, again, Walk::Returned(value, end)),
            Some((_, end)) => reaches(g, o, again, Walk::Here(exit as int, 0, end)),
            None => true,
        },
    ensures
        match traced {
            Some((Way::Next, end)) => reaches(
                g,
                o,
                start,
                Walk::Here(normal_exit as int, 0, end),
            ),
            Some((Way::Return(value), end)) => reaches(g, o, start, Walk::Returned(value, end)),
            Some((_, end)) => reaches(g, o, start, Walk::Here(exit as int, 0, end)),
            None => true,
        },
{
    match traced {
        Some((Way::Next, end)) => {
            reaches_on(g, o, start, again, Walk::Here(normal_exit as int, 0, end));
        },
        Some((Way::Return(value), end)) => {
            reaches_on(g, o, start, again, Walk::Returned(value, end));
        },
        Some((_, end)) => {
            reaches_on(g, o, start, again, Walk::Here(exit as int, 0, end));
        },
        None => {},
    }
}

pub(crate) proof fn sealing(s: LowerView, term: TerminatorView)
    requires
        unsealed(s),
    ensures
        seal_block(s, term).blocks == s.blocks.update(
            s.cur as int,
            BasicBlockView { instrs: s.blocks[s.cur as int].instrs, term: Some(term) },
        ),
        seal_block(s, term).cur == s.cur,
        seal_block(s, term).loops == s.loops,
{
    reveal(seal_block);
    reveal(connect_targets);
    reveal(connect_to);
}

pub(crate) proof fn pushing(s: LowerView, instr: HirInstrView)
    requires
        unsealed(s),
    ensures
        push_instr(s, instr).blocks == s.blocks.update(
            s.cur as int,
            BasicBlockView { instrs: s.blocks[s.cur as int].instrs.push(instr), term: None },
        ),
        push_instr(s, instr).cur == s.cur,
        push_instr(s, instr).loops == s.loops,
{
    reveal(push_instr);
}

/// How a loop ends, given its rounds.
spec fn loop_traced(
    rounds: Option<(Way, Seq<Event>)>,
    orelse: Option<Seq<StmtView>>,
    looped: bool,
    o: Oracle,
    fuel: nat,
) -> Option<(Way, Seq<Event>)> {
    match rounds {
        Some((Way::Next, tr)) => opt_traced(orelse, looped, o, tr, fuel),
        Some((Way::Return(value), tr)) => Some((Way::Return(value), tr)),
        Some((_, tr)) => Some((Way::Next, tr)),
        None => None,
    }
}

/// What comes after the body of a loop has begun.
pub(crate) open spec fn loop_rest(
    a0: LowerView,
    body: Seq<StmtView>,
    post: Seq<HirInstrView>,
    orelse: Option<Seq<StmtView>>,
    header: usize,
    exit: usize,
    normal_exit: usize,
) -> LowerView {
    let b1 = lower_loop_body(a0, body, header, exit);
    let b2 = if post.len() == 0 {
        b1
    } else {
        push_instr(b1, post[0])
    };
    let b3 = seal_block(b2, TerminatorView::Jump(header));
    let b4 = lower_loop_else(b3, orelse, normal_exit, exit);
    LowerView { cur: exit, ..b4 }
}

/// A loop whose header and exits are there and whose body begins.
#[verifier::spinoff_prover]
proof fn loop_follows(
    stmt: StmtView,
    a0: LowerView,
    header: usize,
    exit: usize,
    normal_exit: usize,
    cond: HirExprView,
    test: Seq<Event>,
    pre: Seq<Event>,
    body: Seq<StmtView>,
    post: Seq<HirInstrView>,
    orelse: Option<Seq<StmtView>>,
    g: Seq<BasicBlockView>,
    o: Oracle,
    tr: Seq<Event>,
    fuel: nat,
)
    requires
        decreases_to!(stmt => body),
        orelse matches Some(e) ==> decreases_to!(stmt => e),
        unsealed(a0),
        a0.loops.len() + 1 + g.len() <= usize::MAX + a0.blocks.len(),
        events_of(a0.blocks[a0.cur as int].instrs) == pre,
        post.len() <= 1,
        header < a0.blocks.len(),
        exit < a0.blocks.len(),
        normal_exit < a0.blocks.len(),
        exit != a0.cur,
        normal_exit != a0.cur,
        a0.blocks[exit as int] == empty_block(),
        a0.blocks[normal_exit as int] == empty_block(),
        orelse is None ==> normal_exit == exit,
        orelse is Some ==> normal_exit != exit,
        events_of(a0.blocks[header as int].instrs) == test,
        a0.blocks[header as int].term == Some(
            TerminatorView::Branch { cond, then_b: a0.cur, else_b: normal_exit },
        ),
        extends(loop_rest(a0, body, post, orelse, header, exit, normal_exit).blocks, g),
    ensures
        extends(a0.blocks, g),
        ({
            let t = loop_rest(a0, body, post, orelse, header, exit, normal_exit);
            let rounds = rounds_traced(
                test,
                cond.syntax.span,
                pre,
                body,
                events_of(post),
                o,
                tr,
                fuel,
            );
            &&& unsealed(t)
            &&& loop_traced(rounds, orelse, a0.loops.len() > 0, o, fuel) matches Some((way, end))
                ==> {
                &&& way is Break || way is Continue ==> a0.loops.len() > 0
                &&& reaches(
                    g,
                    o,
                    Walk::Here(header as int, 0, tr),
                    arrival(a0.loops, t, way, end),
                )
            }
        }),
    decreases fuel, stmt, 5nat, 0nat,
{
    let frame = LoopFrame { header, exit, escape: false };
    let a = LowerView { loops: a0.loops.push(frame), ..a0 };
    let z = lower_block(a, body, 0);
    let back = TerminatorView::Jump(header);
    let b1 = lower_loop_body(a0, body, header, exit);
    let b2 = if post.len() == 0 {
        b1
    } else {
        push_instr(b1, post[0])
    };
    let b3 = seal_block(b2, back);
    let b4 = lower_loop_else(b3, orelse, normal_exit, exit);
    let t = LowerView { cur: exit, ..b4 };
    reveal(leave_loop);
    assert(z.blocks == b1.blocks && z.cur == b1.cur);
    let c0 = LowerView { cur: normal_exit, ..b3 };
    match orelse {
        Some(e) => {
            let c1 = lower_scoped(c0, e);
            assert(b4 == seal_block(c1, TerminatorView::Jump(exit)));
            seal_block_grows(c1, c1, TerminatorView::Jump(exit));
            extends_back(c1, b4, g);
            lower_scoped_grows(c0, c0, e);
            extends_back(c0, c1, g);
            seal_block_grows(c0, c1, TerminatorView::Jump(exit));
            assert(kept(c0, b4));
        },
        None => {
            assert(b4 == b3);
        },
    }
    assert(extends(b3.blocks, g));
    seal_block_grows(b2, b2, back);
    extends_back(b2, b3, g);
    if post.len() > 0 {
        push_instr_grows(b1, b1, post[0]);
        extends_back(b1, b2, g);
    }
    lower_loop_body_grows(a0, a0, body, header, exit);
    extends_back(a0, b1, g);
    if post.len() > 0 {
        push_instr_grows(a0, b1, post[0]);
    }
    seal_block_grows(a0, b2, back);
    assert(kept(a0, b3));
    assert(b3.blocks[exit as int] == empty_block());
    assert(b3.blocks[normal_exit as int] == empty_block());
    assert(t.blocks[exit as int] == empty_block());
    if unsealed(z) {
        let ghost_tr = Seq::<Event>::empty();
        if post.len() > 0 {
            pushed_follows(b1, post[0], g, o, ghost_tr);
            assert(b2.blocks[b2.cur as int].instrs =~= z.blocks[z.cur as int].instrs + post);
        } else {
            assert(b2.blocks[b2.cur as int].instrs =~= z.blocks[z.cur as int].instrs + post);
        }
        sealed_follows(b2, back, g, o, ghost_tr);
    }
    assert(g[header as int] == a0.blocks[header as int]);
    assert(a.loops.last() == frame);
    rounds_follow(
        a,
        header,
        exit,
        normal_exit,
        cond,
        test,
        pre,
        body,
        post,
        g,
        o,
        tr,
        fuel,
    );
    let start = Walk::Here(header as int, 0, tr);
    match rounds_traced(test, cond.syntax.span, pre, body, events_of(post), o, tr, fuel) {
        Some((Way::Next, end)) => {
            match orelse {
                Some(e) => {
                    let c1 = lower_scoped(c0, e);
                    scoped_follows(c0, e, g, o, end, fuel);
                    match block_traced(e, 0, a0.loops.len() > 0, o, end, fuel) {
                        Some((way, last)) => {
                            reaches_on(g, o, start, at(c0, end), arrival(a0.loops, c1, way, last));
                            if way is Next {
                                sealed_follows(c1, TerminatorView::Jump(exit), g, o, last);
                                reaches_on(g, o, start, at(c1, last), at(t, last));
                            }
                        },
                        None => {},
                    }
                },
                None => {},
            }
        },
        _ => {},
    }
}

#[verifier::spinoff_prover]
proof fn while_follows(
    s: LowerView,
    stmt: StmtView,
    g: Seq<BasicBlockView>,
    o: Oracle,
    tr: Seq<Event>,
    fuel: nat,
)
    requires
        unsealed(s),
        roomy(s, g),
        stmt.kind is While,
        extends(lower_while(s, stmt).blocks, g),
    ensures
        follows(
            g,
            o,
            s,
            lower_while(s, stmt),
            tr,
            stmt_traced(stmt, s.loops.len() > 0, o, tr, fuel),
        ),
    decreases fuel, stmt, 6nat, 0nat,
{
    match stmt.kind {
        StmtKindView::While { cond, body, orelse } => {
            let (s1, header) = new_block(s);
            let (s2, body_b) = new_block(s1);
            let (s3, exit) = new_block(s2);
            let (s4, normal_exit) = if orelse is Some {
                new_block(s3)
            } else {
                (s3, exit)
            };
            let s5 = seal_block(s4, TerminatorView::Jump(header));
            let s6 = LowerView { cur: header, ..s5 };
            let c = lowered_expr(s6, cond);
            let term = TerminatorView::Branch { cond: c, then_b: body_b, else_b: normal_exit };
            let s7 = seal_block(s6, term);
            let a0 = LowerView { cur: body_b, ..s7 };
            let t = loop_rest(a0, body, Seq::empty(), orelse, header, exit, normal_exit);
            assert(lower_while(s, stmt) == t);
            rest_is_larger(a0, body, Seq::empty(), orelse, header, exit, normal_exit);
            seal_block_grows(s4, s4, TerminatorView::Jump(header));
            seal_block_grows(s6, s6, term);
            reveal(new_block);
            assert(s.blocks.len() + 3 <= g.len());
            assert(orelse is Some ==> s.blocks.len() + 4 <= g.len());
            sealing(s4, TerminatorView::Jump(header));
            sealing(s6, term);
            lowered_span(s6, cond);
            assert(events_of(a0.blocks[header as int].instrs) =~= Seq::<Event>::empty());
            assert(events_of(a0.blocks[body_b as int].instrs) =~= Seq::<Event>::empty());
            assert(events_of(Seq::<HirInstrView>::empty()) =~= Seq::<Event>::empty());
            loop_follows(
                stmt,
                a0,
                header,
                exit,
                normal_exit,
                c,
                Seq::empty(),
                Seq::empty(),
                body,
                Seq::empty(),
                orelse,
                g,
                o,
                tr,
                fuel,
            );
            extends_back(s6, s7, g);
            sealed_follows(s4, TerminatorView::Jump(header), g, o, tr);
            assert(at(s4, tr) == at(s, tr));
            match stmt_traced(stmt, s.loops.len() > 0, o, tr, fuel) {
                Some((way, end)) => {
                    reaches_on(
                        g,
                        o,
                        at(s, tr),
                        Walk::Here(header as int, 0, tr),
                        arrival(s.loops, t, way, end),
                    );
                },
                None => {},
            }
        },
        _ => {},
    }
}

pub(crate) proof fn rest_is_larger(
    a0: LowerView,
    body: Seq<StmtView>,
    post: Seq<HirInstrView>,
    orelse: Option<Seq<StmtView>>,
    header: usize,
    exit: usize,
    normal_exit: usize,
)
    ensures
        a0.blocks.len() <= loop_rest(
            a0,
            body,
            post,
            orelse,
            header,
            exit,
            normal_exit,
        ).blocks.len(),
{
    let b1 = lower_loop_body(a0, body, header, exit);
    lower_loop_body_grows(a0, a0, body, header, exit);
    let b2 = if post.len() == 0 {
        b1
    } else {
        push_instr(b1, post[0])
    };
    if post.len() > 0 {
        push_instr_grows(b1, b1, post[0]);
    }
    let b3 = seal_block(b2, TerminatorView::Jump(header));
    seal_block_grows(b2, b2, TerminatorView::Jump(header));
    match orelse {
        Some(e) => {
            let c0 = LowerView { cur: normal_exit, ..b3 };
            lower_scoped_grows(c0, c0, e);
            let c1 = lower_scoped(c0, e);
            seal_block_grows(c1, c1, TerminatorView::Jump(exit));
        },
        None => {},
    }
}

/// What comes after the body of a loop has begun leaves the blocks before it alone.
pub(crate) proof fn rest_keeps(
    a0: LowerView,
    body: Seq<StmtView>,
    orelse: Option<Seq<StmtView>>,
    header: usize,
    exit: usize,
    normal_exit: usize,
)
    requires
        unsealed(a0),
        normal_exit < a0.blocks.len(),
        loop_rest(a0, body, Seq::empty(), orelse, header, exit, normal_exit).blocks.len()
            <= usize::MAX,
    ensures
        ({
            let t = loop_rest(a0, body, Seq::empty(), orelse, header, exit, normal_exit);
            &&& t.cur == exit
            &&& a0.blocks.len() <= t.blocks.len()
            &&& starts_with(t.vars, a0.vars)
            &&& starts_with(
                t.blocks[a0.cur as int].instrs,
                a0.blocks[a0.cur as int].instrs,
            ) || a0.cur == normal_exit
            &&& forall|b: int|
                0 <= b < a0.blocks.len() && b != a0.cur && b != normal_exit
                    ==> #[trigger] t.blocks[b] == a0.blocks[b]
        }),
{
    let b1 = lower_loop_body(a0, body, header, exit);
    lower_loop_body_grows(a0, a0, body, header, exit);
    let back = TerminatorView::Jump(header);
    let b3 = seal_block(b1, back);
    seal_block_grows(b1, b1, back);
    seal_block_grows(a0, b1, back);
    match orelse {
        Some(e) => {
            let c0 = LowerView { cur: normal_exit, ..b3 };
            lower_scoped_grows(c0, c0, e);
            let c1 = lower_scoped(c0, e);
            seal_block_grows(c1, c1, TerminatorView::Jump(exit));
            seal_block_grows(c0, c1, TerminatorView::Jump(exit));
            assert(kept(c0, seal_block(c1, TerminatorView::Jump(exit))));
        },
        None => {},
    }
    assert(kept(a0, b3));
}

#[verifier::spinoff_prover]
proof fn for_follows(
    s: LowerView,
    stmt: StmtView,
    g: Seq<BasicBlockView>,
    o: Oracle,
    tr: Seq<Event>,
    fuel: nat,
)
    requires
        unsealed(s),
        roomy(s, g),
        stmt.kind is For,
        !stmt.kind->For_reference,
        extends(lower_for(s, stmt).blocks, g),
    ensures
        follows(
            g,
            o,
            s,
            lower_for(s, stmt),
            tr,
            stmt_traced(stmt, s.loops.len() > 0, o, tr, fuel),
        ),
    decreases fuel, stmt, 6nat, 0nat,
{
    match stmt.kind {
        StmtKindView::For { var, owned, iter, body, orelse, .. } => {
            let (p1, it_var) = intern(s, fresh_name(s, "$iter"@));
            interning_stays(s, fresh_name(s, "$iter"@));
            let checked_iter = lowered_expr(p1, iter);
            let protocol = protocol_of(checked_iter.adjustments, owned);
            let bind = HirInstrView::Bind { dest: it_var, expr: checked_iter, binding_ty: None };
            let get = HirInstrView::GetIter { iter: it_var, protocol };
            let p2 = push_instr(p1, bind);
            let p3 = push_instr(p2, get);
            let (s1, header) = new_block(p3);
            let (s2, body_b) = new_block(s1);
            let (s3, exit) = new_block(s2);
            let (s4, normal_exit) = if orelse is Some {
                new_block(s3)
            } else {
                (s3, exit)
            };
            let s5 = seal_block(s4, TerminatorView::Jump(header));
            let s6 = LowerView { cur: header, ..s5 };
            let hn_name = fresh_name(s6, "$hasnext"@);
            let (q1, hn_var) = intern(s6, hn_name);
            interning_stays(s6, hn_name);
            let has = HirInstrView::HasNext { iter: it_var, dest: hn_var, method: protocol.has_next };
            let q2 = push_instr(q1, has);
            let more = unchecked_expr(made_ident(hn_name));
            let term = TerminatorView::Branch { cond: more, then_b: body_b, else_b: normal_exit };
            let s7 = seal_block(q2, term);
            let s8 = LowerView { cur: body_b, ..s7 };
            let (r1, element) = intern(s8, var);
            interning_stays(s8, var);
            let next = HirInstrView::Next { iter: it_var, dest: element, method: protocol.next };
            let a0 = push_instr(r1, next);
            let t = loop_rest(a0, body, Seq::empty(), orelse, header, exit, normal_exit);
            assert(lower_for(s, stmt) == t);
            rest_is_larger(a0, body, Seq::empty(), orelse, header, exit, normal_exit);
            pushing(p1, bind);
            pushing(p2, get);
            reveal(new_block);
            sealing(s4, TerminatorView::Jump(header));
            push_instr_grows(r1, r1, next);
            seal_block_grows(q2, q2, term);
            push_instr_grows(q1, q1, has);
            assert(s.blocks.len() + 3 <= g.len());
            assert(orelse is Some ==> s.blocks.len() + 4 <= g.len());
            pushing(q1, has);
            sealing(q2, term);
            pushing(r1, next);
            reveal(unchecked_expr);
            reveal(made_ident);
            reveal(made_expr);
            assert(events_of(a0.blocks[header as int].instrs) =~= seq![Event::HasNext]);
            assert(events_of(a0.blocks[body_b as int].instrs) =~= seq![Event::Next]);
            assert(events_of(Seq::<HirInstrView>::empty()) =~= Seq::<Event>::empty());
            let begun = tr.push(Event::Bind(iter.span)).push(Event::GetIter);
            loop_follows(
                stmt,
                a0,
                header,
                exit,
                normal_exit,
                more,
                seq![Event::HasNext],
                seq![Event::Next],
                body,
                Seq::empty(),
                orelse,
                g,
                o,
                begun,
                fuel,
            );
            extends_back(r1, a0, g);
            extends_back(q2, s7, g);
            extends_back(q1, q2, g);
            assert(s6.blocks == s5.blocks);
            seal_block_grows(s4, s4, TerminatorView::Jump(header));
            extends_back(s4, s5, g);
            sealed_follows(s4, TerminatorView::Jump(header), g, o, begun);
            new_block_grows(p3, p3);
            new_block_grows(p3, s1);
            new_block_grows(p3, s2);
            new_block_grows(p3, s3);
            extends_back(p3, s4, g);
            push_instr_grows(p2, p2, get);
            extends_back(p2, p3, g);
            lowered_span(p1, iter);
            pushed_follows(p1, bind, g, o, tr);
            pushed_follows(p2, get, g, o, tr.push(Event::Bind(iter.span)));
            reaches_on(g, o, at(s, tr), at(p2, tr.push(Event::Bind(iter.span))), at(p3, begun));
            assert(at(s4, begun) == at(p3, begun));
            let top = Walk::Here(header as int, 0, begun);
            reaches_on(g, o, at(s, tr), at(p3, begun), top);
            match stmt_traced(stmt, s.loops.len() > 0, o, tr, fuel) {
                Some((way, end)) => {
                    reaches_on(g, o, at(s, tr), top, arrival(s.loops, t, way, end));
                },
                None => {},
            }
        },
        _ => {},
    }
}

#[verifier::spinoff_prover]
proof fn ref_for_follows(
    s: LowerView,
    stmt: StmtView,
    source: Seq<char>,
    g: Seq<BasicBlockView>,
    o: Oracle,
    tr: Seq<Event>,
    fuel: nat,
)
    requires
        unsealed(s),
        roomy(s, g),
        stmt.kind is For,
        stmt.kind->For_reference,
        stmt.kind->For_iter.kind == ExprKindView::Identifier(source),
        extends(lower_ref_for(s, stmt, source).blocks, g),
    ensures
        follows(
            g,
            o,
            s,
            lower_ref_for(s, stmt, source),
            tr,
            stmt_traced(stmt, s.loops.len() > 0, o, tr, fuel),
        ),
    decreases fuel, stmt, 6nat, 0nat,
{
    match stmt.kind {
        StmtKindView::For { var, body, orelse, .. } => {
            let index_name = fresh_name(s, "$refindex"@);
            let (p1, index_var) = intern(s, index_name);
            interning_stays(s, index_name);
            let zero = unchecked_expr(made_expr(ExprKindView::Int(0), (0, 0)));
            let bind = HirInstrView::Bind { dest: index_var, expr: zero, binding_ty: None };
            let p2 = push_instr(p1, bind);
            let (s1, header) = new_block(p2);
            let (s2, body_b) = new_block(s1);
            let (s3, exit) = new_block(s2);
            let (s4, normal_exit) = if orelse is Some {
                new_block(s3)
            } else {
                (s3, exit)
            };
            let s5 = seal_block(s4, TerminatorView::Jump(header));
            let s6 = LowerView { cur: header, ..s5 };
            let below = unchecked_expr(below_length(index_name, source));
            let term = TerminatorView::Branch { cond: below, then_b: body_b, else_b: normal_exit };
            let s7 = seal_block(s6, term);
            let s8 = LowerView { cur: body_b, ..s7 };
            let target = element_at(source, index_name);
            let unnamed = StmtView { kind: StmtKindView::Pass, span: stmt.span, module: None };
            let a0 = lower_ref_decl(s8, unnamed, var, target);
            let more = unchecked_expr(successor(index_name));
            let post = HirInstrView::Bind { dest: index_var, expr: more, binding_ty: None };
            let posts = seq![post];
            let t = loop_rest(a0, body, posts, orelse, header, exit, normal_exit);
            assert(lower_ref_for(s, stmt, source) == t);
            rest_is_larger(a0, body, posts, orelse, header, exit, normal_exit);
            pushing(p1, bind);
            reveal(new_block);
            sealing(s4, TerminatorView::Jump(header));
            lower_ref_decl_grows(s8, s8, unnamed, var, target);
            seal_block_grows(s6, s6, term);
            assert(s.blocks.len() + 3 <= g.len());
            assert(orelse is Some ==> s.blocks.len() + 4 <= g.len());
            sealing(s6, term);
            reveal(unchecked_expr);
            reveal(made_expr);
            reveal(below_length);
            reveal(successor);
            let begun = tr.push(Event::Bind((0, 0)));
            ref_decl_stays(s8, unnamed, var, target);
            assert(events_of(a0.blocks[header as int].instrs) =~= Seq::<Event>::empty());
            assert(events_of(a0.blocks[body_b as int].instrs) =~= seq![Event::Stmt(stmt.span)]);
            assert(events_of(posts) =~= seq![Event::Bind((0, 0))]);
            loop_follows(
                stmt,
                a0,
                header,
                exit,
                normal_exit,
                below,
                Seq::empty(),
                seq![Event::Stmt(stmt.span)],
                body,
                posts,
                orelse,
                g,
                o,
                begun,
                fuel,
            );
            extends_back(s8, a0, g);
            extends_back(s6, s7, g);
            seal_block_grows(s4, s4, TerminatorView::Jump(header));
            extends_back(s4, s5, g);
            sealed_follows(s4, TerminatorView::Jump(header), g, o, begun);
            new_block_grows(p2, p2);
            new_block_grows(p2, s1);
            new_block_grows(p2, s2);
            new_block_grows(p2, s3);
            extends_back(p2, s4, g);
            pushed_follows(p1, bind, g, o, tr);
            assert(at(s4, begun) == at(p2, begun));
            let top = Walk::Here(header as int, 0, begun);
            reaches_on(g, o, at(s, tr), at(p2, begun), top);
            match stmt_traced(stmt, s.loops.len() > 0, o, tr, fuel) {
                Some((way, end)) => {
                    reaches_on(g, o, at(s, tr), top, arrival(s.loops, t, way, end));
                },
                None => {},
            }
        },
        _ => {},
    }
}

proof fn ref_decl_stays(s: LowerView, stmt: StmtView, name: Seq<char>, value: ExprView)
    requires
        unsealed(s),
    ensures
        ({
            let t = lower_ref_decl(s, stmt, name, value);
            &&& t.cur == s.cur
            &&& t.loops == s.loops
            &&& exists|instr: HirInstrView|
                event_of(instr) == Event::Stmt(stmt.span) && t.blocks == #[trigger] s.blocks.update(
                    s.cur as int,
                    BasicBlockView { instrs: s.blocks[s.cur as int].instrs.push(instr), term: None },
                )
        }),
{
    reveal(lower_ref_decl);
    let (d, runtime) = declare(s, name);
    declaring_stays(s, name);
    let syntax = StmtView {
        kind: StmtKindView::RefDecl {
            name: slot_name(d, runtime),
            value: lowered_expr(s, value).syntax,
        },
        span: stmt.span,
        module: stmt.module,
    };
    kept_span(d, syntax);
    pushing(d, HirInstrView::Stmt(lowered_statement(d, syntax)));
}

proof fn if_follows(
    s: LowerView,
    stmt: StmtView,
    g: Seq<BasicBlockView>,
    o: Oracle,
    tr: Seq<Event>,
    fuel: nat,
)
    requires
        unsealed(s),
        roomy(s, g),
        stmt.kind is If,
        extends(lower_stmt(s, stmt).blocks, g),
    ensures
        follows(
            g,
            o,
            s,
            lower_stmt(s, stmt),
            tr,
            stmt_traced(stmt, s.loops.len() > 0, o, tr, fuel),
        ),
    decreases fuel, stmt, 6nat, 0nat,
{
    match stmt.kind {
        StmtKindView::If { branches, orelse } => {
            let (s1, join) = new_block(s);
            let s2 = lower_branches(s1, branches, join, 0);
            let s3 = lower_opt_scoped(s2, orelse);
            let s4 = seal_block(s3, TerminatorView::Jump(join));
            let t = LowerView { cur: join, ..s4 };
            assert(lower_stmt(s, stmt) == t);
            seal_block_grows(s3, s3, TerminatorView::Jump(join));
            extends_back(s3, s4, g);
            lower_opt_scoped_grows(s2, s2, orelse);
            extends_back(s2, s3, g);
            lower_branches_grows(s1, s1, branches, join, 0);
            extends_back(s1, s2, g);
            new_block_grows(s, s);
            reveal(new_block);
            fresh_block(s);
            // the block where all meet is untouched
            lower_opt_scoped_grows(s1, s2, orelse);
            seal_block_grows(s1, s3, TerminatorView::Jump(join));
            assert(kept(s1, s4));
            assert(t.blocks[join as int] == empty_block());
            branches_follow(s1, branches, join, 0, g, o, tr, fuel);
            assert(at(s1, tr) == at(s, tr));
            match branches_traced(branches, 0, s.loops.len() > 0, o, tr, fuel) {
                Some((None, end)) => {
                    opt_follows(s2, orelse, g, o, end, fuel);
                    match opt_traced(orelse, s.loops.len() > 0, o, end, fuel) {
                        Some((way, last)) => {
                            reaches_on(
                                g,
                                o,
                                at(s, tr),
                                at(s2, end),
                                arrival(s.loops, s3, way, last),
                            );
                            if way is Next {
                                sealed_follows(s3, TerminatorView::Jump(join), g, o, last);
                                reaches_on(g, o, at(s, tr), at(s3, last), at(t, last));
                            }
                        },
                        None => {},
                    }
                },
                _ => {},
            }
        },
        _ => {},
    }
}

#[verifier::spinoff_prover]
proof fn stmt_follows(
    s: LowerView,
    stmt: StmtView,
    g: Seq<BasicBlockView>,
    o: Oracle,
    tr: Seq<Event>,
    fuel: nat,
)
    requires
        unsealed(s),
        roomy(s, g),
        extends(lower_stmt(s, stmt).blocks, g),
    ensures
        follows(
            g,
            o,
            s,
            lower_stmt(s, stmt),
            tr,
            stmt_traced(stmt, s.loops.len() > 0, o, tr, fuel),
        ),
    decreases fuel, stmt, 9nat, 0nat,
{
    match stmt.kind {
        StmtKindView::If { .. } => {
            if_follows(s, stmt, g, o, tr, fuel);
        },
        StmtKindView::While { .. } => {
            while_follows(s, stmt, g, o, tr, fuel);
        },
        StmtKindView::For { reference, iter, .. } => {
            if reference {
                match iter.kind {
                    ExprKindView::Identifier(source) => {
                        ref_for_follows(s, stmt, source, g, o, tr, fuel);
                    },
                    _ => {
                        let pass = StmtView {
                            kind: StmtKindView::Pass,
                            span: stmt.span,
                            module: None,
                        };
                        opaque_follows(s, pass, g, o, tr);
                    },
                }
            } else {
                for_follows(s, stmt, g, o, tr, fuel);
            }
        },
        StmtKindView::Break => {
            jump_follows(s, stmt, false, g, o, tr);
        },
        StmtKindView::Continue => {
            jump_follows(s, stmt, true, g, o, tr);
        },
        StmtKindView::Return(value) => {
            reveal(lowered_opt_expr);
            match value {
                Some(e) => {
                    lowered_span(s, e);
                },
                None => {},
            }
            sealed_follows(s, TerminatorView::Return(lowered_opt_expr(s, value)), g, o, tr);
        },
        StmtKindView::VarDecl { name, value, .. } => {
            let e = lowered_expr(s, value);
            lowered_span(s, value);
            let (d, slot) = declare(s, name);
            declaring_stays(s, name);
            let binding_ty = binding_ty_of(d.checked, e);
            pushed_follows(d, HirInstrView::Bind { dest: slot, expr: e, binding_ty }, g, o, tr);
        },
        StmtKindView::RefDecl { name, value } => {
            ref_decl_follows(s, stmt, name, value, g, o, tr);
        },
        StmtKindView::Assign { name, value } => {
            let e = lowered_expr(s, value);
            lowered_span(s, value);
            let (s1, captured) = take_captured(s, name);
            let s2 = if !visible(s1, name) {
                name_in_scope(s1, name, name)
            } else {
                s1
            };
            let runtime = if captured {
                let count = s2.vars.len() as usize;
                name + "$shadow"@ + decimal(count as nat)
            } else {
                runtime_name(s2.scopes, name)
            };
            let s3 = if captured {
                name_in_scope(s2, name, runtime)
            } else {
                s2
            };
            let (d, slot) = intern(s3, runtime);
            reveal(take_captured);
            reveal(name_in_scope);
            interning_stays(s3, runtime);
            pushed_follows(
                d,
                HirInstrView::Bind { dest: slot, expr: e, binding_ty: None },
                g,
                o,
                tr,
            );
        },
        StmtKindView::Expr(value) => {
            lowered_span(s, value);
            pushed_follows(s, HirInstrView::Eval(lowered_expr(s, value)), g, o, tr);
        },
        StmtKindView::Try { .. } => {
            if s.is_function || all_loops_escape(s.loops, 0) {
                kept_span(s, stmt);
                let targets = targets_of_loops(s.loops, 0, Seq::empty());
                pushed_follows(
                    s,
                    HirInstrView::Try { stmt: lowered_statement(s, stmt), loop_targets: targets },
                    g,
                    o,
                    tr,
                );
            } else {
                opaque_follows(s, stmt, g, o, tr);
            }
        },
        _ => {
            opaque_follows(s, stmt, g, o, tr);
        },
    }
}

proof fn jump_follows(
    s: LowerView,
    stmt: StmtView,
    to_header: bool,
    g: Seq<BasicBlockView>,
    o: Oracle,
    tr: Seq<Event>,
)
    requires
        unsealed(s),
        roomy(s, g),
        extends(lower_jump(s, stmt, to_header).blocks, g),
    ensures
        s.loops.len() == 0 ==> unsealed(lower_jump(s, stmt, to_header)) && reaches(
            g,
            o,
            at(s, tr),
            at(lower_jump(s, stmt, to_header), tr.push(Event::Stmt(stmt.span))),
        ),
        s.loops.len() > 0 ==> reaches(
            g,
            o,
            at(s, tr),
            arrival(
                s.loops,
                s,
                if to_header {
                    Way::Continue
                } else {
                    Way::Break
                },
                tr,
            ),
        ),
{
    reveal(lower_jump);
    if s.loops.len() == 0 {
        opaque_follows(s, stmt, g, o, tr);
    } else {
        let frame = s.loops.last();
        let target = if to_header {
            frame.header
        } else {
            frame.exit
        };
        let term = if frame.escape {
            TerminatorView::EscapeJump(target)
        } else {
            TerminatorView::Jump(target)
        };
        lower_jump_grows(s, s, stmt, to_header);
        assert(s.loops.len() <= usize::MAX);
        assert(lower_jump(s, stmt, to_header) == seal_block(s, term));
        sealed_follows(s, term, g, o, tr);
    }
}

/// Walking the graph of a function from its entry passes by what running its statements
/// does, in the same order, and returns when they return, or at their end.
pub proof fn graph_runs_like_statements(
    params: Seq<Seq<char>>,
    captures: Seq<Seq<char>>,
    body: Seq<StmtView>,
    checked: Seq<CheckedExprView>,
    o: Oracle,
    fuel: nat,
)
    requires
        function_cfg(params, captures, body, checked).blocks.len() <= usize::MAX,
    ensures
        ({
            let cfg = function_cfg(params, captures, body, checked);
            let start = Walk::Here(cfg.entry as int, 0, Seq::empty());
            match block_traced(body, 0, false, o, Seq::empty(), fuel) {
                Some((Way::Return(value), end)) => reaches(
                    cfg.blocks,
                    o,
                    start,
                    Walk::Returned(value, end),
                ),
                Some((way, end)) => way is Next && reaches(
                    cfg.blocks,
                    o,
                    start,
                    Walk::Returned(None, end),
                ),
                None => true,
            }
        }),
{
    reveal(function_cfg);
    let explicit = declared_names(body, 0, Seq::empty());
    let implicit = implicit_names(body, explicit, 0, Seq::empty());
    let named = same_names(params, 0, Seq::empty());
    let (vars, scope) = rooted(implicit, 0, params, named);
    reveal(started);
    reveal(new_block);
    reveal(finished);
    let s = started(vars, scope, captures, Seq::empty(), true, checked);
    let t = lower_block(s, body, 0);
    let last = TerminatorView::Return(None);
    let g = seal_block(t, last).blocks;
    let tr = Seq::<Event>::empty();
    assert(extends(g, g));
    lower_block_grows(s, s, body, 0);
    seal_block_grows(t, t, last);
    extends_back(t, seal_block(t, last), g);
    extends_back(s, t, g);
    block_follows(s, body, 0, g, o, tr, fuel);
    match block_traced(body, 0, false, o, tr, fuel) {
        Some((Way::Next, end)) => {
            sealed_follows(t, last, g, o, end);
            reaches_on(g, o, at(s, tr), at(t, end), Walk::Returned(None, end));
        },
        _ => {},
    }
}

} // verus!
