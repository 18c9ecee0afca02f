//! What compile-time constants, branches and loops leave of themselves.

use crate::ast::{ExprKindView, ExprView, InfixOp, StmtKindView, StmtView};
use crate::ct::literal_of;
use crate::elab::{boolean_of, burnt, ComptimeErrorView, CtContextView, HaltView};
use crate::elaborate::{
    and_value, block_elaborated, branch_chosen, choice_elaborated, constant_elaborated,
    for_elaborated, fuel_set, if_elaborated, opt_block_elaborated, single, stamped_by,
    stmt_elaborated, subs_of_loop, unplaced, unrolled, ElabStateView,
};
use crate::evaluate::{evaluated, evaluated_iter, op_result};
use crate::operators::{
    computed, constant_literals, constant_operands_come_in_order, constants_are_computed,
};
use crate::rewrite::{
    replaced_by, rewritten, rewritten_expr_kind, rewritten_expr_kind_further,
    rewritten_expr_kind_more, rewritten_stmt_list, value_bound,
};
use crate::types::CtValueView;
use vstd::prelude::*;

verus! {

/// A constant has the value of its expression from there on, and stays as the definition of a
/// literal when the value has one. Outside functions the module has it too.
pub proof fn constant_is_known(
    stmt: StmtView,
    name: Seq<char>,
    value: ExprView,
    in_fn: bool,
    cx: CtContextView,
    st: ElabStateView,
    depth: u32,
    found: CtValueView,
    rest: usize,
)
    requires
        stmt.kind == (StmtKindView::Comptime { name, value }),
        evaluated(value, st.env, cx, st.fuel, u32::MAX) == Ok::<_, HaltView>((found, rest)),
    ensures
        stmt_elaborated(stmt, in_fn, cx, st, depth) matches Ok((made, next)) && {
            &&& value_bound(next.env, name) == Some(found)
            &&& forall|other: Seq<char>|
                other != name ==> #[trigger] value_bound(next.env, other) == value_bound(
                    st.env,
                    other,
                )
            &&& if in_fn {
                next.top == st.top
            } else {
                value_bound(next.top, name) == Some(found)
            }
            &&& next.fuel == rest
            &&& match literal_of(found, stmt.span) {
                Some(literal) => made.len() == 1 && made[0].kind == (StmtKindView::Comptime {
                    name,
                    value: literal,
                }),
                None => made.len() == 0,
            }
        },
{
    reveal(constant_elaborated);
    reveal(and_value);
    reveal(fuel_set);
    reveal(single);
    reveal(unplaced);
    let env = st.env.push((name, found));
    assert(env.drop_last() =~= st.env);
    assert(env.last() == (name, found));
    let top = st.top.push((name, found));
    assert(top.last() == (name, found));
    assert forall|other: Seq<char>| other != name implies #[trigger] value_bound(env, other)
        == value_bound(st.env, other) by {
        assert(env.last().0 != other);
    }
}

/// A constant that is an operator on two integer literals becomes the integer that the
/// operator computes, as long as it fits in 64 bits.
pub proof fn constant_is_folded(
    stmt: StmtView,
    name: Seq<char>,
    value: ExprView,
    op: InfixOp,
    left: ExprView,
    right: ExprView,
    a: i64,
    b: i64,
    r: i64,
    in_fn: bool,
    cx: CtContextView,
    st: ElabStateView,
    depth: u32,
)
    requires
        stmt.kind == (StmtKindView::Comptime { name, value }),
        value.kind == ExprKindView::Infix(op, Box::new(left), Box::new(right)),
        op == InfixOp::Add || op == InfixOp::Sub || op == InfixOp::Mul,
        left.kind == ExprKindView::Int(a),
        right.kind == ExprKindView::Int(b),
        computed(op, a as int, b as int, r as int),
    ensures
        stmt_elaborated(stmt, in_fn, cx, st, depth) matches Ok((made, next)) && {
            &&& value_bound(next.env, name) == Some(CtValueView::Int(r))
            &&& made.len() == 1
            &&& made[0].kind matches StmtKindView::Comptime { name: kept, value: folded }
            &&& kept == name
            &&& folded.kind == ExprKindView::Int(r)
        },
{
    constant_literals(left, st.env, cx, st.fuel, u32::MAX);
    constant_literals(right, st.env, cx, st.fuel, u32::MAX);
    constant_operands_come_in_order(
        value,
        op,
        left,
        right,
        st.env,
        cx,
        st.fuel,
        u32::MAX,
        a,
        b,
    );
    constants_are_computed(op, a, b);
    match op_result(op, CtValueView::Int(a), CtValueView::Int(b)) {
        Ok(CtValueView::Int(found)) => {
            assert(computed(op, a as int, b as int, found as int));
            assert(found == r);
            constant_is_known(
                stmt,
                name,
                value,
                in_fn,
                cx,
                st,
                depth,
                CtValueView::Int(r),
                st.fuel,
            );
        },
        Ok(_) => {},
        Err(_) => {
            assert(computed(op, a as int, b as int, r as int));
        },
    }
}

/// The state of elaboration with so many steps left.
pub open spec fn left_with(st: ElabStateView, fuel: usize) -> ElabStateView {
    ElabStateView { fuel, ..st }
}

/// Whether the first conditions of a `comptime if` are evaluated one after the other and all
/// fail.
pub open spec fn conditions_fail(
    branches: Seq<(ExprView, Seq<StmtView>)>,
    cx: CtContextView,
    st: ElabStateView,
    fuels: Seq<usize>,
    n: int,
) -> bool {
    forall|k: int|
        0 <= k < n ==> evaluated(branches[k].0, st.env, cx, #[trigger] fuels[k], u32::MAX) == Ok::<
            _,
            HaltView,
        >((CtValueView::Bool(false), fuels[k + 1]))
}

proof fn branches_pass(
    branches: Seq<(ExprView, Seq<StmtView>)>,
    in_fn: bool,
    cx: CtContextView,
    depth: u32,
    st: ElabStateView,
    fuels: Seq<usize>,
    n: int,
    i: nat,
)
    requires
        0 <= i <= n <= branches.len(),
        conditions_fail(branches, cx, st, fuels, n),
    ensures
        choice_elaborated(branches, in_fn, cx, depth, i, left_with(st, fuels[i as int]))
            == choice_elaborated(branches, in_fn, cx, depth, n as nat, left_with(st, fuels[n])),
    decreases n - i,
{
    reveal(boolean_of);
    reveal(fuel_set);
    if i < n {
        assert(evaluated(branches[i as int].0, st.env, cx, fuels[i as int], u32::MAX) == Ok::<
            _,
            HaltView,
        >((CtValueView::Bool(false), fuels[i as int + 1])));
        branches_pass(branches, in_fn, cx, depth, st, fuels, n, i + 1);
    }
}

/// A `comptime if` becomes the body of the first condition that holds, and nothing of the
/// others is left. When none holds it becomes its `else`, or nothing.
pub proof fn first_true_branch_stays(
    stmt: StmtView,
    branches: Seq<(ExprView, Seq<StmtView>)>,
    orelse: Option<Seq<StmtView>>,
    in_fn: bool,
    cx: CtContextView,
    depth: u32,
    st: ElabStateView,
    fuels: Seq<usize>,
    n: int,
)
    requires
        stmt.kind == (StmtKindView::ComptimeIf { branches, orelse }),
        0 <= n <= branches.len(),
        fuels[0] == st.fuel,
        conditions_fail(branches, cx, st, fuels, n),
    ensures
        ({
            let made = stmt_elaborated(stmt, in_fn, cx, st, depth);
            let rest = left_with(st, fuels[n]);
            if n == branches.len() {
                match orelse {
                    Some(body) => made == block_elaborated(
                        body,
                        in_fn,
                        cx,
                        depth,
                        0,
                        Seq::empty(),
                        rest,
                    ),
                    None => made == Ok::<_, ComptimeErrorView>((Seq::<StmtView>::empty(), rest)),
                }
            } else {
                evaluated(branches[n].0, st.env, cx, fuels[n], u32::MAX) matches Ok((
                    CtValueView::Bool(true),
                    left,
                )) ==> made == block_elaborated(
                    branches[n].1,
                    in_fn,
                    cx,
                    depth,
                    0,
                    Seq::empty(),
                    left_with(st, left),
                )
            }
        }),
{
    reveal(boolean_of);
    reveal(fuel_set);
    assert(left_with(st, fuels[0]) == st);
    branches_pass(branches, in_fn, cx, depth, st, fuels, n, 0);
    assert(stmt_elaborated(stmt, in_fn, cx, st, depth) == if_elaborated(
        stmt.kind,
        in_fn,
        cx,
        st,
        depth,
    ));
    let rest = left_with(st, fuels[n]);
    if n < branches.len() {
        match evaluated(branches[n].0, st.env, cx, fuels[n], u32::MAX) {
            Ok((CtValueView::Bool(true), left)) => {
                let body = branches[n].1;
                assert(branch_chosen(body, in_fn, cx, left_with(st, left), depth)
                    == match block_elaborated(
                    body,
                    in_fn,
                    cx,
                    depth,
                    0,
                    Seq::empty(),
                    left_with(st, left),
                ) {
                    Ok(out) => Ok((Some(out.0), out.1)),
                    Err(error) => Err(error),
                });
            },
            _ => {},
        }
    } else {
        assert(opt_block_elaborated(orelse, in_fn, cx, rest, depth) == match orelse {
            Some(body) => match block_elaborated(body, in_fn, cx, depth, 0, Seq::empty(), rest) {
                Ok(out) => Ok((Some(out.0), out.1)),
                Err(error) => Err(error),
            },
            None => Ok((None, rest)),
        });
    }
}

/// Lists one after the other.
pub open spec fn in_a_row(parts: Seq<Seq<StmtView>>, n: nat) -> Seq<StmtView>
    decreases n,
{
    if n == 0 {
        Seq::empty()
    } else {
        in_a_row(parts, (n - 1) as nat) + parts[n - 1]
    }
}

/// Whether the body of a `comptime for` can be elaborated for one value after the other: each
/// time the name of the variable stands for the value, and a step is taken.
pub open spec fn copies_made(
    values: Seq<CtValueView>,
    var: Seq<char>,
    body: Seq<StmtView>,
    in_fn: bool,
    cx: CtContextView,
    depth: u32,
    parts: Seq<Seq<StmtView>>,
    sts: Seq<ElabStateView>,
) -> bool {
    forall|k: int|
        0 <= k < values.len() ==> {
            let copy = rewritten_stmt_list(body, seq![(var, values[k])], false, 0, Seq::empty());
            &&& (#[trigger] sts[k]).fuel > 0
            &&& block_elaborated(
                copy,
                in_fn,
                cx,
                (depth - 1) as u32,
                0,
                Seq::empty(),
                left_with(sts[k], (sts[k].fuel - 1) as usize),
            ) == Ok::<_, ComptimeErrorView>((parts[k], sts[k + 1]))
        }
}

proof fn unrolled_from(
    values: Seq<CtValueView>,
    var: Seq<char>,
    body: Seq<StmtView>,
    in_fn: bool,
    cx: CtContextView,
    depth: u32,
    parts: Seq<Seq<StmtView>>,
    sts: Seq<ElabStateView>,
    i: nat,
)
    requires
        depth > 0,
        i <= values.len(),
        copies_made(values, var, body, in_fn, cx, depth, parts, sts),
    ensures
        unrolled(values, var, body, in_fn, cx, depth, i, in_a_row(parts, i), sts[i as int]) == Ok::<
            _,
            ComptimeErrorView,
        >((in_a_row(parts, values.len()), sts[values.len() as int])),
    decreases values.len() - i,
{
    reveal(burnt);
    reveal(fuel_set);
    reveal(subs_of_loop);
    if i < values.len() {
        let st = sts[i as int];
        assert(st.fuel > 0);
        assert(subs_of_loop(var, values[i as int]) =~= seq![(var, values[i as int])]);
        assert(fuel_set(st, (st.fuel - 1) as usize) == left_with(st, (st.fuel - 1) as usize));
        unrolled_from(values, var, body, in_fn, cx, depth, parts, sts, i + 1);
    }
}

/// A `comptime for` becomes the copies of its body, one for each value, in order.
pub proof fn loop_is_unrolled(
    stmt: StmtView,
    var: Seq<char>,
    iter: ExprView,
    body: Seq<StmtView>,
    in_fn: bool,
    cx: CtContextView,
    depth: u32,
    st: ElabStateView,
    values: Seq<CtValueView>,
    fuel: usize,
    parts: Seq<Seq<StmtView>>,
    sts: Seq<ElabStateView>,
)
    requires
        stmt.kind == (StmtKindView::ComptimeFor { var, iter, body }),
        depth > 2,
        evaluated_iter(iter, st.env, cx, st.fuel, u32::MAX) == Ok::<_, HaltView>((values, fuel)),
        sts[0] == left_with(st, fuel),
        copies_made(values, var, body, in_fn, cx, (depth - 2) as u32, parts, sts),
    ensures
        stmt_elaborated(stmt, in_fn, cx, st, depth) == Ok::<_, ComptimeErrorView>(
            (in_a_row(parts, values.len()), sts[values.len() as int]),
        ),
{
    reveal(fuel_set);
    unrolled_from(values, var, body, in_fn, cx, (depth - 2) as u32, parts, sts, 0);
    assert(stmt_elaborated(stmt, in_fn, cx, st, depth) == for_elaborated(
        var,
        iter,
        body,
        in_fn,
        cx,
        st,
        (depth - 1) as u32,
    ));
}

/// A name that stands for a value becomes the literal of it; any other name stays, and the
/// parts of an operator keep their places.
pub proof fn names_are_replaced(e: ExprView, subs: Seq<(Seq<char>, CtValueView)>)
    ensures
        match e.kind {
            ExprKindView::Identifier(name) => match value_bound(subs, name) {
                Some(CtValueView::Int(n)) => rewritten(e, subs).kind == ExprKindView::Int(n),
                Some(CtValueView::Bool(b)) => rewritten(e, subs).kind == ExprKindView::Bool(b),
                Some(CtValueView::Str(s)) => rewritten(e, subs).kind == ExprKindView::Str(s),
                None => rewritten(e, subs) == e,
                _ => true,
            },
            ExprKindView::Infix(op, left, right) => rewritten(e, subs).kind == ExprKindView::Infix(
                op,
                Box::new(rewritten(*left, subs)),
                Box::new(rewritten(*right, subs)),
            ),
            ExprKindView::Int(_) | ExprKindView::Bool(_) | ExprKindView::Str(_) => rewritten(e, subs)
                == e,
            _ => true,
        },
{
    reveal(replaced_by);
    match e.kind {
        ExprKindView::Infix(op, left, right) => {
            assert(rewritten_expr_kind(e.kind, subs) == ExprKindView::Infix(
                op,
                Box::new(rewritten(*left, subs)),
                Box::new(rewritten(*right, subs)),
            ));
        },
        ExprKindView::Int(_) | ExprKindView::Bool(_) | ExprKindView::Str(_) => {
            assert(rewritten_expr_kind_further(e.kind, subs) == e.kind);
            assert(rewritten_expr_kind_more(e.kind, subs) == e.kind);
            assert(rewritten_expr_kind(e.kind, subs) == e.kind);
        },
        _ => {},
    }
}

proof fn elaborated_on(
    body: Seq<StmtView>,
    in_fn: bool,
    cx: CtContextView,
    depth: u32,
    i: nat,
    out: Seq<StmtView>,
    st: ElabStateView,
)
    requires
        i <= body.len(),
    ensures
        match block_elaborated(body, in_fn, cx, depth, i, Seq::empty(), st) {
            Ok((made, end)) => block_elaborated(body, in_fn, cx, depth, i, out, st) == Ok::<
                _,
                ComptimeErrorView,
            >((out + made, end)),
            Err(error) => block_elaborated(body, in_fn, cx, depth, i, out, st) == Err::<
                (Seq<StmtView>, ElabStateView),
                _,
            >(error),
        },
    decreases body.len() - i,
{
    if i < body.len() {
        let stmt = body[i as int];
        match stmt_elaborated(stmt, in_fn, cx, st, depth) {
            Ok((made, rest)) => {
                let added = stamped_by(made, stmt.module);
                let none = Seq::<StmtView>::empty();
                elaborated_on(body, in_fn, cx, depth, i + 1, out + added, rest);
                elaborated_on(body, in_fn, cx, depth, i + 1, none + added, rest);
                match block_elaborated(body, in_fn, cx, depth, i + 1, none, rest) {
                    Ok((more, _)) => {
                        assert(out + added + more =~= out + (none + added + more));
                    },
                    Err(_) => {},
                }
            },
            Err(_) => {},
        }
    } else {
        assert(out + Seq::<StmtView>::empty() =~= out);
    }
}

/// A block becomes what its statements become, in their order; each statement knows what the
/// ones before it left.
pub proof fn blocks_are_elaborated_in_order(
    body: Seq<StmtView>,
    in_fn: bool,
    cx: CtContextView,
    depth: u32,
    st: ElabStateView,
)
    requires
        body.len() > 0,
        body[0].module is None,
    ensures
        match stmt_elaborated(body[0], in_fn, cx, st, depth) {
            Ok((first, next)) => match block_elaborated(
                body,
                in_fn,
                cx,
                depth,
                1,
                Seq::empty(),
                next,
            ) {
                Ok((others, end)) => block_elaborated(body, in_fn, cx, depth, 0, Seq::empty(), st)
                    == Ok::<_, ComptimeErrorView>((first + others, end)),
                Err(error) => block_elaborated(body, in_fn, cx, depth, 0, Seq::empty(), st) == Err::<
                    (Seq<StmtView>, ElabStateView),
                    _,
                >(error),
            },
            Err(error) => block_elaborated(body, in_fn, cx, depth, 0, Seq::empty(), st) == Err::<
                (Seq<StmtView>, ElabStateView),
                _,
            >(error),
        },
{
    reveal(stamped_by);
    match stmt_elaborated(body[0], in_fn, cx, st, depth) {
        Ok((first, next)) => {
            let out = Seq::<StmtView>::empty() + first;
            assert(out =~= first);
            elaborated_on(body, in_fn, cx, depth, 1, out, next);
        },
        Err(_) => {},
    }
}

} // verus!
