//! What executing the flat form of an expression leaves in its register.

use crate::ast::{ExprKindView, ExprView, InfixOp};
use crate::calls::{
    emitted_binary, emitted_unary, lowered_adjusted, lowered_choice, lowered_operation,
    lowered_unconverted, lowered_value,
};
use crate::evaluator::{
    flag_held, prefix_applied, truth_of, truth_of_expr, value_held, value_of_expr, value_of_infix,
    EvaluatorView, FailureView,
};
use crate::exprs::{lowered_merge, lowered_short_circuit, lowered_ternary};
use crate::flatten::{
    at_block, borrow_among, child_facts, conversion_among, defined, emitted, ended, fresh_reg,
    fresh_slot, known_adjustments, known_ty, lowered_constant, open_block, opened, with_reg_type,
    FlattenView,
};
use crate::growth::calls::lowered_value_grows;
use crate::growth::flatten::{grown, kept, larger};
use crate::growth::starts_with;
use crate::hir::HirExprView;
use crate::mir::{ConstView, MirBlockView, MirInstrView, MirTermView, Reg, UseMode};
use crate::values::{operator_on, KnownView, ValueView};
use vstd::prelude::*;

verus! {

/// What registers and variables hold.
pub struct Memory {
    pub regs: Map<u32, ValueView>,
    pub vars: Map<u32, ValueView>,
}

/// What an instruction does, as far as it computes without effects.
pub open spec fn executed(instr: MirInstrView, m: Memory, known: Seq<KnownView>) -> Option<Memory> {
    match instr {
        MirInstrView::Const { dest, k } => {
            let value = match k {
                ConstView::Int(n) => Some(ValueView::Int(n)),
                ConstView::Float(bits) => Some(ValueView::Float64(bits)),
                ConstView::Bool(b) => Some(ValueView::Bool(b)),
                ConstView::Str(text) => Some(ValueView::Str(text)),
                ConstView::NoneValue => Some(ValueView::NoneValue),
                ConstView::Function(_) => None,
            };
            match value {
                Some(value) => Some(Memory { regs: m.regs.insert(dest.0, value), ..m }),
                None => None,
            }
        },
        MirInstrView::UnOp { op, dest, a } => match prefix_applied(op, m.regs[a.0], known) {
            Ok(value) => Some(Memory { regs: m.regs.insert(dest.0, value), ..m }),
            Err(_) => None,
        },
        MirInstrView::BinOp { op, dest, a, b } => match operator_on(
            op,
            m.regs[a.0],
            m.regs[b.0],
            known,
        ) {
            Ok(value) => Some(Memory { regs: m.regs.insert(dest.0, value), ..m }),
            Err(_) => None,
        },
        MirInstrView::DefVar { var, src, .. } => Some(
            Memory { vars: m.vars.insert(var, m.regs[src.0]), ..m },
        ),
        MirInstrView::UseVar { dest, var, .. } => Some(
            Memory { regs: m.regs.insert(dest.0, m.vars[var]), ..m },
        ),
        _ => None,
    }
}

/// A point of an execution: before an instruction or the end of a block, or none.
pub enum Point {
    At(int, int, Memory),
    Out,
}

/// One step. A branch goes to its first target when its register is true, and to its second
/// when it is false.
pub open spec fn stepped(g: Seq<MirBlockView>, known: Seq<KnownView>, p: Point) -> Point {
    match p {
        Point::At(b, i, m) => if !(0 <= b < g.len()) {
            Point::Out
        } else if 0 <= i < g[b].instrs.len() {
            match executed(g[b].instrs[i], m, known) {
                Some(next) => Point::At(b, i + 1, next),
                None => Point::Out,
            }
        } else {
            match g[b].term {
                MirTermView::Jump(to) => Point::At(to as int, 0, m),
                MirTermView::Branch { cond, then_b, else_b } => match m.regs[cond.0] {
                    ValueView::Bool(true) => Point::At(then_b as int, 0, m),
                    ValueView::Bool(false) => Point::At(else_b as int, 0, m),
                    _ => Point::Out,
                },
                _ => Point::Out,
            }
        },
        Point::Out => Point::Out,
    }
}

pub open spec fn steps(g: Seq<MirBlockView>, known: Seq<KnownView>, p: Point, n: nat) -> Point
    decreases n,
{
    if n == 0 {
        p
    } else {
        steps(g, known, stepped(g, known, p), (n - 1) as nat)
    }
}

/// Whether executing blocks leads from one point to another.
pub open spec fn leads(g: Seq<MirBlockView>, known: Seq<KnownView>, p: Point, q: Point) -> bool {
    exists|n: nat| #[trigger] steps(g, known, p, n) == q
}

/// A value, if it is a truth value.
pub open spec fn truth(value: Option<ValueView>) -> Option<ValueView> {
    match value {
        Some(ValueView::Bool(b)) => Some(ValueView::Bool(b)),
        _ => None,
    }
}

/// What an expression of literals, operators and choices means. `and` and `or` have the value
/// of their right operand when the left one does not decide; a choice has that of the arm its
/// condition picks.
pub open spec fn meaning(e: ExprView, known: Seq<KnownView>) -> Option<ValueView>
    decreases e,
{
    match e.kind {
        ExprKindView::Int(n) => Some(ValueView::Int(n)),
        ExprKindView::Float(bits) => Some(ValueView::Float64(bits)),
        ExprKindView::Bool(b) => Some(ValueView::Bool(b)),
        ExprKindView::Str(text) => Some(ValueView::Str(text)),
        ExprKindView::NoneLit => Some(ValueView::NoneValue),
        ExprKindView::Prefix(op, a) => match meaning(*a, known) {
            Some(a) => match prefix_applied(op, a, known) {
                Ok(value) => Some(value),
                Err(_) => None,
            },
            None => None,
        },
        ExprKindView::Infix(InfixOp::And, a, b) => match meaning(*a, known) {
            Some(ValueView::Bool(true)) => truth(meaning(*b, known)),
            Some(ValueView::Bool(false)) => Some(ValueView::Bool(false)),
            _ => None,
        },
        ExprKindView::Infix(InfixOp::Or, a, b) => match meaning(*a, known) {
            Some(ValueView::Bool(true)) => Some(ValueView::Bool(true)),
            Some(ValueView::Bool(false)) => truth(meaning(*b, known)),
            _ => None,
        },
        ExprKindView::Infix(op, a, b) => match (meaning(*a, known), meaning(*b, known)) {
            (Some(a), Some(b)) => match operator_on(op, a, b, known) {
                Ok(value) => Some(value),
                Err(_) => None,
            },
            _ => None,
        },
        ExprKindView::IfExpr { cond, then_branch, else_branch } => match meaning(*cond, known) {
            Some(ValueView::Bool(true)) => meaning(*then_branch, known),
            Some(ValueView::Bool(false)) => meaning(*else_branch, known),
            _ => None,
        },
        _ => None,
    }
}

/// Whether the checker borrows and converts nothing in an expression.
pub open spec fn unadjusted(e: ExprView, h: Option<HirExprView>) -> bool
    decreases e,
{
    &&& borrow_among(known_adjustments(h), 0) is None
    &&& conversion_among(known_adjustments(h), 0) is None
    &&& match e.kind {
        ExprKindView::Prefix(_, a) => unadjusted(*a, child_facts(h, 0)),
        ExprKindView::Infix(_, a, b) => unadjusted(*a, child_facts(h, 0)) && unadjusted(
            *b,
            child_facts(h, 1),
        ),
        ExprKindView::IfExpr { cond, then_branch, else_branch } => {
            &&& unadjusted(*cond, child_facts(h, 0))
            &&& unadjusted(*then_branch, child_facts(h, 1))
            &&& unadjusted(*else_branch, child_facts(h, 2))
        },
        _ => true,
    }
}

/// The point a state of flattening has come to.
pub open spec fn here(s: FlattenView, m: Memory) -> Point {
    Point::At(s.cur as int, s.blocks[s.cur as int].instrs.len() as int, m)
}

/// Whether the blocks that flattening filled from one state to another are there in the end;
/// the current one perhaps extended.
pub open spec fn filled(s: FlattenView, t: FlattenView, g: Seq<MirBlockView>) -> bool {
    &&& t.blocks.len() <= g.len() <= usize::MAX
    &&& forall|b: int|
        0 <= b < t.blocks.len() && (b == s.cur || s.blocks.len() <= b) && b != t.cur
            ==> #[trigger] g[b] == t.blocks[b]
    &&& starts_with(g[t.cur as int].instrs, t.blocks[t.cur as int].instrs)
}

/// Whether a memory has what another has in the registers and variables of a state.
pub open spec fn agrees(s: FlattenView, m: Memory, n: Memory) -> bool {
    &&& forall|r: u32| r < s.spans.len() ==> #[trigger] n.regs[r] == m.regs[r]
    &&& forall|v: u32| v < s.vars.len() ==> #[trigger] n.vars[v] == m.vars[v]
}

proof fn steps_on(g: Seq<MirBlockView>, known: Seq<KnownView>, p: Point, n: nat, m: nat)
    ensures
        steps(g, known, p, n + m) == steps(g, known, steps(g, known, p, n), m),
    decreases n,
{
    if n > 0 {
        steps_on(g, known, stepped(g, known, p), (n - 1) as nat, m);
    }
}

pub(crate) proof fn leads_on(g: Seq<MirBlockView>, known: Seq<KnownView>, p: Point, q: Point, r: Point)
    requires
        leads(g, known, p, q),
        leads(g, known, q, r),
    ensures
        leads(g, known, p, r),
{
    let n = choose|n: nat| #[trigger] steps(g, known, p, n) == q;
    let m = choose|m: nat| #[trigger] steps(g, known, q, m) == r;
    steps_on(g, known, p, n, m);
}

pub(crate) proof fn leads_next(g: Seq<MirBlockView>, known: Seq<KnownView>, p: Point)
    ensures
        leads(g, known, p, stepped(g, known, p)),
{
    assert(steps(g, known, stepped(g, known, p), 0) == stepped(g, known, p));
    assert(steps(g, known, p, 1) == stepped(g, known, p));
}

/// Blocks that a part filled are there in the end when nothing else touched them.
proof fn part_is_filled(s: FlattenView, u: FlattenView, t: FlattenView, g: Seq<MirBlockView>)
    requires
        s.cur < s.blocks.len(),
        filled(s, t, g),
        grown(s, u),
        grown(u, t),
        t.cur != u.cur || starts_with(t.blocks[u.cur as int].instrs, u.blocks[u.cur as int].instrs),
    ensures
        filled(s, u, g),
        u.cur < u.blocks.len(),
{
    assert(kept(u, t));
    assert(kept(s, u));
    assert(u.cur == s.cur || s.blocks.len() <= u.cur);
    assert forall|b: int|
        0 <= b < u.blocks.len() && (b == s.cur || s.blocks.len() <= b) && b != u.cur implies
        #[trigger] g[b] == u.blocks[b] by {
        assert(t.blocks[b] == u.blocks[b]);
    }
    if t.cur != u.cur {
        assert(g[u.cur as int] == t.blocks[u.cur as int]);
    }
}

proof fn constant_computes(
    s: FlattenView,
    e: ExprView,
    k: ConstView,
    value: ValueView,
    g: Seq<MirBlockView>,
    known: Seq<KnownView>,
    m: Memory,
) -> (after: Memory)
    requires
        s.cur < s.blocks.len(),
        s.spans.len() < u32::MAX,
        filled(s, lowered_constant(s, e, k).0, g),
        executed(MirInstrView::Const { dest: lowered_constant(s, e, k).1, k }, m, known) == Some(
            Memory { regs: m.regs.insert(lowered_constant(s, e, k).1.0, value), ..m },
        ),
    ensures
        leads(g, known, here(s, m), here(lowered_constant(s, e, k).0, after)),
        after.regs[lowered_constant(s, e, k).1.0] == value,
        agrees(s, m, after),
        lowered_constant(s, e, k).1.0 < lowered_constant(s, e, k).0.spans.len(),
{
    reveal(lowered_constant);
    reveal(fresh_reg);
    reveal(emitted);
    let (t, dest) = lowered_constant(s, e, k);
    let (b, n) = (s.cur as int, s.blocks[s.cur as int].instrs.len() as int);
    assert(t.blocks[b].instrs[n] == MirInstrView::Const { dest, k });
    assert(g[b].instrs[n] == t.blocks[b].instrs[n]);
    leads_next(g, known, here(s, m));
    Memory { regs: m.regs.insert(dest.0, value), ..m }
}

/// Executing the flat form of an expression that means something comes to its end with that
/// in its register; registers and variables from before stay as they are.
#[verifier::spinoff_prover]
pub proof fn flat_form_computes(
    s: FlattenView,
    e: ExprView,
    h: Option<HirExprView>,
    g: Seq<MirBlockView>,
    known: Seq<KnownView>,
    m: Memory,
) -> (after: Memory)
    requires
        unadjusted(e, h),
        meaning(e, known) is Some,
        s.cur < s.blocks.len(),
        lowered_value(s, e, h).0.spans.len() < u32::MAX,
        lowered_value(s, e, h).0.vars.len() <= u32::MAX,
        filled(s, lowered_value(s, e, h).0, g),
    ensures
        leads(g, known, here(s, m), here(lowered_value(s, e, h).0, after)),
        Some(after.regs[lowered_value(s, e, h).1.0]) == meaning(e, known),
        agrees(s, m, after),
        lowered_value(s, e, h).1.0 < lowered_value(s, e, h).0.spans.len(),
    decreases e, 9nat,
{
    reveal(with_reg_type);
    let (t, dest) = lowered_value(s, e, h);
    let (u, reg) = lowered_unconverted(s, e, h);
    assert(lowered_adjusted(s, e, h) == lowered_unconverted(s, e, h));
    assert(u.blocks == t.blocks && u.cur == t.cur && u.spans == t.spans && u.vars == t.vars && reg
        == dest);
    lowered_value_grows(s, s, e, h);
    match e.kind {
        ExprKindView::Int(n) => constant_computes(
            s,
            e,
            ConstView::Int(n),
            ValueView::Int(n),
            g,
            known,
            m,
        ),
        ExprKindView::Float(bits) => constant_computes(
            s,
            e,
            ConstView::Float(bits),
            ValueView::Float64(bits),
            g,
            known,
            m,
        ),
        ExprKindView::Bool(b) => constant_computes(
            s,
            e,
            ConstView::Bool(b),
            ValueView::Bool(b),
            g,
            known,
            m,
        ),
        ExprKindView::Str(text) => constant_computes(
            s,
            e,
            ConstView::Str(text),
            ValueView::Str(text),
            g,
            known,
            m,
        ),
        ExprKindView::NoneLit => constant_computes(
            s,
            e,
            ConstView::NoneValue,
            ValueView::NoneValue,
            g,
            known,
            m,
        ),
        ExprKindView::Prefix(_, _) => prefix_computes(s, e, h, g, known, m),
        ExprKindView::Infix(op, _, _) => if op == InfixOp::And || op == InfixOp::Or {
            decision_computes(s, e, h, g, known, m)
        } else {
            infix_computes(s, e, h, g, known, m)
        },
        ExprKindView::IfExpr { .. } => choice_computes(s, e, h, g, known, m),
        _ => m,
    }
}

#[verifier::spinoff_prover]
proof fn prefix_computes(
    s: FlattenView,
    e: ExprView,
    h: Option<HirExprView>,
    g: Seq<MirBlockView>,
    known: Seq<KnownView>,
    m: Memory,
) -> (after: Memory)
    requires
        e.kind is Prefix,
        unadjusted(e, h),
        meaning(e, known) is Some,
        s.cur < s.blocks.len(),
        lowered_operation(s, e, h).0.spans.len() < u32::MAX,
        lowered_operation(s, e, h).0.vars.len() <= u32::MAX,
        filled(s, lowered_operation(s, e, h).0, g),
    ensures
        leads(g, known, here(s, m), here(lowered_operation(s, e, h).0, after)),
        Some(after.regs[lowered_operation(s, e, h).1.0]) == meaning(e, known),
        agrees(s, m, after),
        lowered_operation(s, e, h).1.0 < lowered_operation(s, e, h).0.spans.len(),
    decreases e, 5nat,
{
    match e.kind {
        ExprKindView::Prefix(op, a) => {
            let (s1, r1) = lowered_value(s, *a, child_facts(h, 0));
            let (t, dest) = emitted_unary(s1, e, op, r1);
            lowered_value_grows(s, s, *a, child_facts(h, 0));
            reveal(emitted_unary);
            reveal(fresh_reg);
            reveal(emitted);
            part_is_filled(s, s1, t, g);
            let m1 = flat_form_computes(s, *a, child_facts(h, 0), g, known, m);
            let (b, n) = (s1.cur as int, s1.blocks[s1.cur as int].instrs.len() as int);
            let instr = MirInstrView::UnOp { op, dest, a: r1 };
            assert(t.blocks[b].instrs[n] == instr);
            assert(g[b].instrs[n] == t.blocks[b].instrs[n]);
            leads_next(g, known, here(s1, m1));
            let after = executed(instr, m1, known)->Some_0;
            leads_on(g, known, here(s, m), here(s1, m1), here(t, after));
            after
        },
        _ => m,
    }
}

#[verifier::spinoff_prover]
proof fn infix_computes(
    s: FlattenView,
    e: ExprView,
    h: Option<HirExprView>,
    g: Seq<MirBlockView>,
    known: Seq<KnownView>,
    m: Memory,
) -> (after: Memory)
    requires
        e.kind matches ExprKindView::Infix(op, _, _) && op != InfixOp::And && op != InfixOp::Or,
        unadjusted(e, h),
        meaning(e, known) is Some,
        s.cur < s.blocks.len(),
        lowered_operation(s, e, h).0.spans.len() < u32::MAX,
        lowered_operation(s, e, h).0.vars.len() <= u32::MAX,
        filled(s, lowered_operation(s, e, h).0, g),
    ensures
        leads(g, known, here(s, m), here(lowered_operation(s, e, h).0, after)),
        Some(after.regs[lowered_operation(s, e, h).1.0]) == meaning(e, known),
        agrees(s, m, after),
        lowered_operation(s, e, h).1.0 < lowered_operation(s, e, h).0.spans.len(),
    decreases e, 5nat,
{
    match e.kind {
        ExprKindView::Infix(op, left, right) => {
            let (s1, r1) = lowered_value(s, *left, child_facts(h, 0));
            let (s2, r2) = lowered_value(s1, *right, child_facts(h, 1));
            let (t, dest) = emitted_binary(s2, e, op, r1, r2);
            lowered_value_grows(s, s, *left, child_facts(h, 0));
            lowered_value_grows(s1, s1, *right, child_facts(h, 1));
            lowered_value_grows(s, s1, *right, child_facts(h, 1));
            reveal(emitted_binary);
            reveal(fresh_reg);
            reveal(emitted);
            part_is_filled(s, s2, t, g);
            assert(t.cur == s2.cur);
            assert(kept(s1, t)) by {
                assert(kept(s1, s2));
            }
            part_is_filled(s, s1, t, g);
            assert(filled(s1, s2, g));
            let m1 = flat_form_computes(s, *left, child_facts(h, 0), g, known, m);
            let m2 = flat_form_computes(s1, *right, child_facts(h, 1), g, known, m1);
            leads_on(g, known, here(s, m), here(s1, m1), here(s2, m2));
            assert(m2.regs[r1.0] == m1.regs[r1.0]);
            let (b, n) = (s2.cur as int, s2.blocks[s2.cur as int].instrs.len() as int);
            let instr = MirInstrView::BinOp { op, dest, a: r1, b: r2 };
            assert(t.blocks[b].instrs[n] == instr);
            assert(g[b].instrs[n] == t.blocks[b].instrs[n]);
            leads_next(g, known, here(s2, m2));
            let after = executed(instr, m2, known)->Some_0;
            leads_on(g, known, here(s, m), here(s2, m2), here(t, after));
            after
        },
        _ => m,
    }
}

/// An operand whose value goes into a variable and on to a block where all meet.
proof fn arm_computes(
    s: FlattenView,
    e: ExprView,
    h: Option<HirExprView>,
    result: u32,
    merge: usize,
    g: Seq<MirBlockView>,
    known: Seq<KnownView>,
    m: Memory,
) -> (after: Memory)
    requires
        unadjusted(e, h),
        meaning(e, known) is Some,
        s.cur < s.blocks.len(),
        result < s.vars.len(),
        lowered_value(s, e, h).0.spans.len() < u32::MAX,
        lowered_value(s, e, h).0.vars.len() <= u32::MAX,
        filled(s, lowered_value(s, e, h).0, g),
        ({
            let (u, reg) = lowered_value(s, e, h);
            let at = g[u.cur as int];
            &&& at.instrs == u.blocks[u.cur as int].instrs.push(
                MirInstrView::DefVar { var: result, src: reg, binding_ty: None },
            )
            &&& at.term == MirTermView::Jump(merge)
        }),
    ensures
        leads(g, known, here(s, m), Point::At(merge as int, 0, after)),
        Some(after.vars[result]) == meaning(e, known),
        forall|r: u32| r < s.spans.len() ==> #[trigger] after.regs[r] == m.regs[r],
        forall|v: u32| v < s.vars.len() && v != result ==> #[trigger] after.vars[v] == m.vars[v],
    decreases e, 10nat,
{
    let (u, reg) = lowered_value(s, e, h);
    lowered_value_grows(s, s, e, h);
    assert(kept(s, u));
    let m1 = flat_form_computes(s, e, h, g, known, m);
    leads_next(g, known, here(u, m1));
    let after = Memory { vars: m1.vars.insert(result, m1.regs[reg.0]), ..m1 };
    let (b, n) = (u.cur as int, u.blocks[u.cur as int].instrs.len() as int);
    assert(stepped(g, known, here(u, m1)) == Point::At(b, n + 1, after));
    leads_on(g, known, here(s, m), here(u, m1), Point::At(b, n + 1, after));
    leads_next(g, known, Point::At(b, n + 1, after));
    leads_on(
        g,
        known,
        here(s, m),
        Point::At(b, n + 1, after),
        Point::At(merge as int, 0, after),
    );
    after
}

#[verifier::spinoff_prover]
#[verifier::rlimit(40)]
proof fn decision_computes(
    s: FlattenView,
    e: ExprView,
    h: Option<HirExprView>,
    g: Seq<MirBlockView>,
    known: Seq<KnownView>,
    m: Memory,
) -> (after: Memory)
    requires
        e.kind matches ExprKindView::Infix(op, _, _) && (op == InfixOp::And || op == InfixOp::Or),
        unadjusted(e, h),
        meaning(e, known) is Some,
        s.cur < s.blocks.len(),
        lowered_short_circuit(s, e, h).0.spans.len() < u32::MAX,
        lowered_short_circuit(s, e, h).0.vars.len() <= u32::MAX,
        filled(s, lowered_short_circuit(s, e, h).0, g),
    ensures
        leads(g, known, here(s, m), here(lowered_short_circuit(s, e, h).0, after)),
        Some(after.regs[lowered_short_circuit(s, e, h).1.0]) == meaning(e, known),
        agrees(s, m, after),
        lowered_short_circuit(s, e, h).1.0 < lowered_short_circuit(s, e, h).0.spans.len(),
    decreases e, 5nat,
{
    match e.kind {
        ExprKindView::Infix(op, left, right) => {
            let (s1, first) = lowered_value(s, *left, child_facts(h, 0));
            let (s2, result) = fresh_slot(s1);
            let s3 = defined(s2, result, first, None);
            let (s4, rhs) = opened(s3);
            let (s5, merge) = opened(s4);
            let s6 = lowered_decision(s5, op, first, rhs, merge);
            let s7 = at_block(s6, rhs);
            let (s8, second) = lowered_value(s7, *right, child_facts(h, 1));
            let s9 = defined(s8, result, second, None);
            let s10 = ended(s9, MirTermView::Jump(merge));
            let s11 = at_block(s10, merge);
            let (t, dest) = lowered_merge(s11, e, result);
            assert(lowered_short_circuit(s, e, h) == (t, dest));
            lowered_value_grows(s, s, *left, child_facts(h, 0));
            lowered_value_grows(s7, s7, *right, child_facts(h, 1));
            reveal(fresh_slot);
            reveal(defined);
            reveal(emitted);
            reveal(opened);
            reveal(ended);
            reveal(at_block);
            reveal(lowered_merge);
            reveal(fresh_reg);
            assert(s.cur < s.blocks.len() && kept(s, s1));
            let c = s1.cur as int;
            assert(rhs == s1.blocks.len() && merge == s1.blocks.len() + 1);
            assert(kept(s7, s8));
            assert(s8.blocks[merge as int] == open_block());
            assert(s8.blocks[c] == s6.blocks[c]);
            assert(t.blocks[c] == s6.blocks[c]);
            assert(g[c] == t.blocks[c]);
            assert(filled(s, s1, g)) by {
                assert forall|b: int|
                    0 <= b < s1.blocks.len() && (b == s.cur || s.blocks.len() <= b) && b
                        != s1.cur implies #[trigger] g[b] == s1.blocks[b] by {
                    assert(s7.blocks[b] == s1.blocks[b]);
                    assert(s8.blocks[b] == s7.blocks[b]);
                    assert(t.blocks[b] == s8.blocks[b]);
                }
            }
            let m1 = flat_form_computes(s, *left, child_facts(h, 0), g, known, m);
            // the value of the left operand goes into the variable
            let m2 = Memory { vars: m1.vars.insert(result, m1.regs[first.0]), ..m1 };
            let n = s1.blocks[c].instrs.len() as int;
            assert(g[c].instrs[n] == MirInstrView::DefVar {
                var: result,
                src: first,
                binding_ty: None,
            });
            leads_next(g, known, here(s1, m1));
            leads_on(g, known, here(s, m), here(s1, m1), Point::At(c, n + 1, m2));
            leads_next(g, known, Point::At(c, n + 1, m2));
            let chosen = stepped(g, known, Point::At(c, n + 1, m2));
            leads_on(g, known, here(s, m), Point::At(c, n + 1, m2), chosen);
            // the block where all meet reads the variable
            let q = merge as int;
            assert(t.blocks[q].instrs[0] == MirInstrView::UseVar {
                dest,
                var: result,
                mode: UseMode::Copy,
            });
            assert(g[q].instrs[0] == t.blocks[q].instrs[0]);
            let a = m1.regs[first.0];
            let decided = if op == InfixOp::And {
                a == ValueView::Bool(false)
            } else {
                a == ValueView::Bool(true)
            };
            let last = if decided {
                m2
            } else {
                assert(filled(s7, s8, g)) by {
                    assert forall|b: int|
                        0 <= b < s8.blocks.len() && (b == s7.cur || s7.blocks.len() <= b) && b
                            != s8.cur implies #[trigger] g[b] == s8.blocks[b] by {
                        assert(t.blocks[b] == s8.blocks[b]);
                    }
                    assert(g[s8.cur as int] == t.blocks[s8.cur as int]);
                }
                let m3 = arm_computes(
                    s7,
                    *right,
                    child_facts(h, 1),
                    result,
                    merge,
                    g,
                    known,
                    m2,
                );
                leads_on(g, known, here(s, m), here(s7, m2), Point::At(q, 0, m3));
                m3
            };
            leads_next(g, known, Point::At(q, 0, last));
            let after = Memory { regs: last.regs.insert(dest.0, last.vars[result]), ..last };
            leads_on(g, known, here(s, m), Point::At(q, 0, last), here(t, after));
            after
        },
        _ => m,
    }
}

/// The state after the left operand has been tested.
spec fn lowered_decision(
    s: FlattenView,
    op: InfixOp,
    first: Reg,
    rhs: usize,
    merge: usize,
) -> FlattenView {
    if op == InfixOp::And {
        ended(s, MirTermView::Branch { cond: first, then_b: rhs, else_b: merge })
    } else {
        ended(s, MirTermView::Branch { cond: first, then_b: merge, else_b: rhs })
    }
}

#[verifier::spinoff_prover]
#[verifier::rlimit(40)]
proof fn choice_computes(
    s: FlattenView,
    e: ExprView,
    h: Option<HirExprView>,
    g: Seq<MirBlockView>,
    known: Seq<KnownView>,
    m: Memory,
) -> (after: Memory)
    requires
        e.kind is IfExpr,
        unadjusted(e, h),
        meaning(e, known) is Some,
        s.cur < s.blocks.len(),
        lowered_choice(s, e, h).0.spans.len() < u32::MAX,
        lowered_choice(s, e, h).0.vars.len() <= u32::MAX,
        filled(s, lowered_choice(s, e, h).0, g),
    ensures
        leads(g, known, here(s, m), here(lowered_choice(s, e, h).0, after)),
        Some(after.regs[lowered_choice(s, e, h).1.0]) == meaning(e, known),
        agrees(s, m, after),
        lowered_choice(s, e, h).1.0 < lowered_choice(s, e, h).0.spans.len(),
    decreases e, 5nat,
{
    match e.kind {
        ExprKindView::IfExpr { cond, then_branch, else_branch } => {
            let (s1, test) = lowered_value(s, *cond, child_facts(h, 0));
            let (s2, result) = fresh_slot(s1);
            let (s3, then_b) = opened(s2);
            let (s4, else_b) = opened(s3);
            let (s5, merge) = opened(s4);
            let s6 = ended(s5, MirTermView::Branch { cond: test, then_b, else_b });
            let s7 = at_block(s6, then_b);
            let (s8, first) = lowered_value(s7, *then_branch, child_facts(h, 1));
            let s9 = defined(s8, result, first, None);
            let s10 = ended(s9, MirTermView::Jump(merge));
            let s11 = at_block(s10, else_b);
            let (s12, second) = lowered_value(s11, *else_branch, child_facts(h, 2));
            let s13 = defined(s12, result, second, None);
            let s14 = ended(s13, MirTermView::Jump(merge));
            let s15 = at_block(s14, merge);
            let (t, dest) = lowered_merge(s15, e, result);
            assert(lowered_ternary(s, e, h) == (t, dest));
            assert(lowered_choice(s, e, h) == (t, dest));
            lowered_value_grows(s, s, *cond, child_facts(h, 0));
            lowered_value_grows(s7, s7, *then_branch, child_facts(h, 1));
            lowered_value_grows(s11, s11, *else_branch, child_facts(h, 2));
            reveal(fresh_slot);
            reveal(defined);
            reveal(emitted);
            reveal(opened);
            reveal(ended);
            reveal(at_block);
            reveal(lowered_merge);
            reveal(fresh_reg);
            assert(kept(s, s1));
            let c = s1.cur as int;
            assert(then_b == s1.blocks.len() && else_b == s1.blocks.len() + 1 && merge
                == s1.blocks.len() + 2);
            assert(kept(s7, s8));
            assert(kept(s11, s12));
            assert(s8.blocks[merge as int] == open_block());
            assert(s8.blocks[else_b as int] == open_block());
            assert(s12.blocks[merge as int] == open_block());
            assert(s8.blocks[c] == s6.blocks[c]);
            assert(s12.blocks[c] == s6.blocks[c]);
            assert(g[c] == t.blocks[c]);
            assert(s12.blocks[s8.cur as int] == s10.blocks[s8.cur as int]);
            assert(filled(s, s1, g)) by {
                assert forall|b: int|
                    0 <= b < s1.blocks.len() && (b == s.cur || s.blocks.len() <= b) && b
                        != s1.cur implies #[trigger] g[b] == s1.blocks[b] by {
                    assert(s7.blocks[b] == s1.blocks[b]);
                    assert(s8.blocks[b] == s7.blocks[b]);
                    assert(s12.blocks[b] == s11.blocks[b]);
                    assert(t.blocks[b] == s12.blocks[b]);
                }
            }
            let m1 = flat_form_computes(s, *cond, child_facts(h, 0), g, known, m);
            leads_next(g, known, here(s1, m1));
            let chosen = stepped(g, known, here(s1, m1));
            leads_on(g, known, here(s, m), here(s1, m1), chosen);
            let q = merge as int;
            assert(t.blocks[q].instrs[0] == MirInstrView::UseVar {
                dest,
                var: result,
                mode: UseMode::Copy,
            });
            assert(g[q].instrs[0] == t.blocks[q].instrs[0]);
            let last = if m1.regs[test.0] == ValueView::Bool(true) {
                assert(filled(s7, s8, g)) by {
                    assert forall|b: int|
                        0 <= b < s8.blocks.len() && (b == s7.cur || s7.blocks.len() <= b) && b
                            != s8.cur implies #[trigger] g[b] == s8.blocks[b] by {
                        assert(s12.blocks[b] == s11.blocks[b]);
                        assert(t.blocks[b] == s8.blocks[b]);
                    }
                    assert(g[s8.cur as int] == t.blocks[s8.cur as int]);
                }
                assert(g[s8.cur as int] == s10.blocks[s8.cur as int]);
                let m3 = arm_computes(
                    s7,
                    *then_branch,
                    child_facts(h, 1),
                    result,
                    merge,
                    g,
                    known,
                    m1,
                );
                leads_on(g, known, here(s, m), here(s7, m1), Point::At(q, 0, m3));
                m3
            } else {
                assert(filled(s11, s12, g)) by {
                    assert forall|b: int|
                        0 <= b < s12.blocks.len() && (b == s11.cur || s11.blocks.len() <= b) && b
                            != s12.cur implies #[trigger] g[b] == s12.blocks[b] by {
                        assert(t.blocks[b] == s12.blocks[b]);
                    }
                    assert(g[s12.cur as int] == t.blocks[s12.cur as int]);
                }
                let m3 = arm_computes(
                    s11,
                    *else_branch,
                    child_facts(h, 2),
                    result,
                    merge,
                    g,
                    known,
                    m1,
                );
                leads_on(g, known, here(s, m), here(s11, m1), Point::At(q, 0, m3));
                m3
            };
            leads_next(g, known, Point::At(q, 0, last));
            let after = Memory { regs: last.regs.insert(dest.0, last.vars[result]), ..last };
            leads_on(g, known, here(s, m), Point::At(q, 0, last), here(t, after));
            after
        },
        _ => m,
    }
}

/// Whether an expression has no choice in it.
pub open spec fn without_choice(e: ExprView) -> bool
    decreases e,
{
    match e.kind {
        ExprKindView::Prefix(_, a) => without_choice(*a),
        ExprKindView::Infix(_, a, b) => without_choice(*a) && without_choice(*b),
        ExprKindView::IfExpr { .. } => false,
        _ => true,
    }
}

/// Running an expression without choices gives what it means, and changes nothing: the flat
/// form and a run of the source compute the same.
pub proof fn running_means_the_same(
    e: ExprView,
    env: usize,
    machine: EvaluatorView,
    known: Seq<KnownView>,
    fuel: u64,
)
    requires
        meaning(e, known) is Some,
        without_choice(e),
    ensures
        value_of_expr(e, env, machine, known, fuel) == Ok::<_, FailureView>(
            (machine, meaning(e, known)->Some_0),
        ),
    decreases e,
{
    reveal(value_held);
    reveal(flag_held);
    reveal(truth_of);
    match e.kind {
        ExprKindView::Prefix(_, a) => {
            running_means_the_same(*a, env, machine, known, fuel);
        },
        ExprKindView::Infix(op, a, b) => {
            running_means_the_same(*a, env, machine, known, fuel);
            if meaning(*b, known) is Some {
                running_means_the_same(*b, env, machine, known, fuel);
            }
            assert(value_of_expr(e, env, machine, known, fuel) == value_of_infix(
                e,
                env,
                machine,
                known,
                fuel,
            ));
            if op == InfixOp::And || op == InfixOp::Or {
                assert(truth_of_expr(*a, env, machine, known, fuel) == flag_held(
                    machine,
                    truth_of(meaning(*a, known)->Some_0),
                ));
                if meaning(*b, known) is Some {
                    assert(truth_of_expr(*b, env, machine, known, fuel) == flag_held(
                        machine,
                        truth_of(meaning(*b, known)->Some_0),
                    ));
                }
            }
        },
        _ => {},
    }
}

} // verus!
