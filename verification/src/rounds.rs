//! What running a statement comes to, in terms of running its parts.

use crate::ast::{ExprKindView, ExprView, InfixOp, StmtKindView, StmtView};
use crate::evaluator::{
    block_run, block_run_inside, branch_run, branches_run, compound_run, ends_loop, failed_with,
    flag_held, flow_after_loop, item_run, items_run, name_defined, opt_block_run, return_run,
    scope_inside, stmt_run, truth_of, truth_of_expr, value_held, value_is_closure, value_of_expr,
    value_of_infix, values_held, values_in_range, values_of_loop, while_run, EvaluatorView,
    FailureView, FlowView,
};
use crate::values::{list_and, operator_on, EvalErrorView, KnownView, ValueView};
use vstd::prelude::*;

verus! {

/// Whether a round of a loop is followed by the next.
pub open spec fn goes_on(flow: FlowView) -> bool {
    flow is Normal || flow is Continue
}

/// How a loop ends that a round leaves.
pub open spec fn left_by(
    round: Result<(EvaluatorView, FlowView), FailureView>,
) -> Result<(EvaluatorView, FlowView), FailureView> {
    match round {
        Ok((m, FlowView::Return(value))) => Ok((m, FlowView::Return(value))),
        Ok((m, _)) => Ok((m, FlowView::Normal)),
        Err(failed) => Err(failed),
    }
}

/// One round of a `for`: the body, in a scope of its own in which the variable is the value.
pub open spec fn round(
    value: ValueView,
    var: Seq<char>,
    body: Seq<StmtView>,
    env: usize,
    m: EvaluatorView,
    known: Seq<KnownView>,
    fuel: u64,
) -> Result<(EvaluatorView, FlowView), FailureView> {
    let (inside, inner) = scope_inside(m, env);
    block_run(body, inner, known, fuel, 0, name_defined(inside, inner, var, value))
}

/// Whether rounds of a `for` follow one another from machine to machine and all go on.
pub open spec fn rounds_go_on(
    items: Seq<ValueView>,
    var: Seq<char>,
    body: Seq<StmtView>,
    env: usize,
    ms: Seq<EvaluatorView>,
    known: Seq<KnownView>,
    fuel: u64,
    n: int,
) -> bool {
    forall|k: int|
        0 <= k < n ==> {
            &&& round(items[k], var, body, env, #[trigger] ms[k], known, fuel) matches Ok(done)
            &&& goes_on(done.1)
            &&& done.0 == ms[k + 1]
        }
}

proof fn items_go_on(
    items: Seq<ValueView>,
    var: Seq<char>,
    body: Seq<StmtView>,
    env: usize,
    ms: Seq<EvaluatorView>,
    known: Seq<KnownView>,
    fuel: u64,
    n: int,
    i: nat,
)
    requires
        0 <= i <= n <= items.len(),
        rounds_go_on(items, var, body, env, ms, known, fuel, n),
    ensures
        items_run(items, var, body, env, known, fuel, i, ms[i as int]) == items_run(
            items,
            var,
            body,
            env,
            known,
            fuel,
            n as nat,
            ms[n],
        ),
    decreases n - i,
{
    reveal(ends_loop);
    if i < n {
        let step = round(items[i as int], var, body, env, ms[i as int], known, fuel);
        assert(item_run(items[i as int], var, body, env, ms[i as int], known, fuel) == step);
        items_go_on(items, var, body, env, ms, known, fuel, n, i + 1);
    }
}

/// A `for` over a list runs its body once for each element, in order, as long as the rounds
/// end normally or by `continue`. When all have, the loop ends normally; a round that ends
/// otherwise ends the loop: by `break` normally, by `return` with its value, in a failure
/// with that failure.
pub proof fn for_takes_each_element(
    stmt: StmtView,
    items: Seq<ValueView>,
    ms: Seq<EvaluatorView>,
    n: int,
    env: usize,
    m: EvaluatorView,
    known: Seq<KnownView>,
    fuel: u64,
)
    requires
        stmt.kind matches StmtKindView::For { var, iter, body, orelse, .. } && orelse is None
            && value_of_expr(iter, env, m, known, fuel) == Ok::<_, FailureView>(
            (ms[0], ValueView::List(items)),
        ) && rounds_go_on(items, var, body, env, ms, known, fuel, n),
        0 <= n <= items.len(),
    ensures
        stmt.kind matches StmtKindView::For { var, body, .. } && if n == items.len() {
            stmt_run(stmt, env, m, known, fuel) == Ok::<_, FailureView>((ms[n], FlowView::Normal))
        } else {
            let last = round(items[n], var, body, env, ms[n], known, fuel);
            (last matches Ok(done) && goes_on(done.1)) || stmt_run(stmt, env, m, known, fuel)
                == left_by(last)
        },
{
    reveal(values_held);
    reveal(values_of_loop);
    reveal(ends_loop);
    reveal(flow_after_loop);
    match stmt.kind {
        StmtKindView::For { var, body, .. } => {
            items_go_on(items, var, body, env, ms, known, fuel, n, 0);
            assert(stmt_run(stmt, env, m, known, fuel) == compound_run(stmt, env, m, known, fuel));
            if n < items.len() {
                let last = round(items[n], var, body, env, ms[n], known, fuel);
                assert(item_run(items[n], var, body, env, ms[n], known, fuel) == last);
            }
        },
        _ => {},
    }
}

/// The integers from one on by a step.
pub open spec fn steps_from(start: int, step: int, n: nat) -> Seq<ValueView> {
    Seq::new(n, |k: int| ValueView::Int((start + k * step) as i64))
}

proof fn range_steps(at: i64, stop: i64, step: i64, found: Seq<ValueView>, fuel: u64, n: nat)
    requires
        step != 0,
        n <= fuel,
        i64::MIN <= at + n * step <= i64::MAX,
        n > 0 ==> if step > 0 {
            at + (n - 1) * step < stop
        } else {
            at + (n - 1) * step > stop
        },
        if step > 0 {
            at + n * step >= stop
        } else {
            at + n * step <= stop
        },
    ensures
        values_in_range(at, stop, step, found, fuel) == Ok::<_, EvalErrorView>(
            found + steps_from(at as int, step as int, n),
        ),
    decreases n,
{
    if n == 0 {
        assert(found + steps_from(at as int, step as int, 0) =~= found);
    } else {
        let m = (n - 1) as nat;
        assert(at + n * step == at + step + m * step) by (nonlinear_arith)
            requires
                m == n - 1,
        ;
        assert(if step > 0 {
            m * step >= 0
        } else {
            m * step <= 0
        }) by (nonlinear_arith);
        assert(m > 0 ==> (m - 1) * step == m * step - step) by (nonlinear_arith);
        reveal(list_and);
        range_steps((at + step) as i64, stop, step, found.push(ValueView::Int(at)), (fuel - 1) as u64, m);
        let rest = steps_from(at + step, step as int, m);
        let all = steps_from(at as int, step as int, n);
        assert forall|k: int| 0 <= k < m implies #[trigger] rest[k] == all[k + 1] by {
            assert((at + step) + k * step == at + (k + 1) * step) by (nonlinear_arith);
        }
        assert(0int * step == 0) by (nonlinear_arith);
        assert(found.push(ValueView::Int(at)) + rest =~= found + steps_from(
            at as int,
            step as int,
            n,
        ));
    }
}

/// A `for` over a range goes from its start by its step, as far as the stop is not reached.
pub proof fn ranges_go_by_steps(start: i64, stop: i64, step: i64, n: nat, fuel: u64)
    requires
        step != 0,
        n <= fuel,
        i64::MIN <= start + n * step <= i64::MAX,
        n > 0 ==> if step > 0 {
            start + (n - 1) * step < stop
        } else {
            start + (n - 1) * step > stop
        },
        if step > 0 {
            start + n * step >= stop
        } else {
            start + n * step <= stop
        },
    ensures
        values_of_loop(ValueView::Range { start, stop, step }, fuel) == Ok::<_, EvalErrorView>(
            steps_from(start as int, step as int, n),
        ),
{
    reveal(values_of_loop);
    range_steps(start, stop, step, Seq::empty(), fuel, n);
    assert(Seq::<ValueView>::empty() + steps_from(start as int, step as int, n) =~= steps_from(
        start as int,
        step as int,
        n,
    ));
}

/// Whether rounds of a `while` follow one another: the condition holds, and the body, in a
/// scope of its own, ends normally or by `continue`. Each round takes one unit of fuel.
pub open spec fn tests_go_on(
    cond: ExprView,
    body: Seq<StmtView>,
    env: usize,
    ms: Seq<EvaluatorView>,
    known: Seq<KnownView>,
    fuel: u64,
    n: int,
) -> bool {
    forall|k: int|
        0 <= k < n ==> {
            &&& value_of_expr(cond, env, #[trigger] ms[k], known, (fuel - k) as u64) matches Ok(
                tested,
            )
            &&& tested.1 == ValueView::Bool(true)
            &&& block_run_inside(body, env, tested.0, known, (fuel - k) as u64) matches Ok(done)
            &&& goes_on(done.1)
            &&& done.0 == ms[k + 1]
        }
}

proof fn while_goes_on(
    cond: ExprView,
    body: Seq<StmtView>,
    env: usize,
    ms: Seq<EvaluatorView>,
    known: Seq<KnownView>,
    fuel: u64,
    n: int,
    i: int,
)
    requires
        0 <= i <= n <= fuel,
        tests_go_on(cond, body, env, ms, known, fuel, n),
    ensures
        while_run(cond, body, env, ms[i], known, (fuel - i) as u64) == while_run(
            cond,
            body,
            env,
            ms[n],
            known,
            (fuel - n) as u64,
        ),
    decreases n - i,
{
    reveal(ends_loop);
    reveal(flag_held);
    reveal(truth_of);
    if i < n {
        let left = (fuel - i) as u64;
        let tested = value_of_expr(cond, env, ms[i], known, left);
        assert(truth_of_expr(cond, env, ms[i], known, left) == Ok::<_, FailureView>(
            (tested->Ok_0.0, true),
        ));
        while_goes_on(cond, body, env, ms, known, fuel, n, i + 1);
    }
}

/// A `while` tests its condition before each round, also after a `continue`. It ends
/// normally when the condition fails; a round that ends by `break`, by `return` or in a
/// failure ends it as it ends a `for`.
pub proof fn while_tests_each_round(
    stmt: StmtView,
    ms: Seq<EvaluatorView>,
    n: int,
    env: usize,
    known: Seq<KnownView>,
    fuel: u64,
)
    requires
        stmt.kind matches StmtKindView::While { cond, body, orelse } && orelse is None
            && tests_go_on(cond, body, env, ms, known, fuel, n),
        0 <= n < fuel,
    ensures
        stmt.kind matches StmtKindView::While { cond, body, .. } && {
            let left = (fuel - n) as u64;
            let ended = stmt_run(stmt, env, ms[0], known, fuel);
            match value_of_expr(cond, env, ms[n], known, left) {
                Ok((m, ValueView::Bool(false))) => ended == Ok::<_, FailureView>(
                    (m, FlowView::Normal),
                ),
                Ok((m, ValueView::Bool(true))) => {
                    let last = block_run_inside(body, env, m, known, left);
                    (last matches Ok(done) && goes_on(done.1)) || ended == left_by(last)
                },
                Ok((m, _)) => ended matches Err(failed) && failed.machine == m,
                Err(failed) => ended == Err::<(EvaluatorView, FlowView), _>(failed),
            }
        },
{
    reveal(ends_loop);
    reveal(flow_after_loop);
    reveal(flag_held);
    reveal(truth_of);
    reveal(failed_with);
    match stmt.kind {
        StmtKindView::While { cond, body, .. } => {
            while_goes_on(cond, body, env, ms, known, fuel, n, 0);
            assert(stmt_run(stmt, env, ms[0], known, fuel) == compound_run(
                stmt,
                env,
                ms[0],
                known,
                fuel,
            ));
            assert(truth_of_expr(cond, env, ms[n], known, (fuel - n) as u64) == match value_of_expr(
                cond,
                env,
                ms[n],
                known,
                (fuel - n) as u64,
            ) {
                Ok(out) => flag_held(out.0, truth_of(out.1)),
                Err(error) => Err(error),
            });
        },
        _ => {},
    }
}

/// Whether the first conditions of an `if` are tested one after the other and all fail.
pub open spec fn conditions_fail(
    branches: Seq<(ExprView, Seq<StmtView>)>,
    env: usize,
    ms: Seq<EvaluatorView>,
    known: Seq<KnownView>,
    fuel: u64,
    n: int,
) -> bool {
    forall|k: int|
        0 <= k < n ==> value_of_expr(branches[k].0, env, #[trigger] ms[k], known, fuel)
            == Ok::<_, FailureView>((ms[k + 1], ValueView::Bool(false)))
}

proof fn branches_pass(
    branches: Seq<(ExprView, Seq<StmtView>)>,
    env: usize,
    ms: Seq<EvaluatorView>,
    known: Seq<KnownView>,
    fuel: u64,
    n: int,
    i: nat,
)
    requires
        0 <= i <= n <= branches.len(),
        conditions_fail(branches, env, ms, known, fuel, n),
    ensures
        branches_run(branches, env, known, fuel, i, ms[i as int]) == branches_run(
            branches,
            env,
            known,
            fuel,
            n as nat,
            ms[n],
        ),
    decreases n - i,
{
    reveal(flag_held);
    reveal(truth_of);
    if i < n {
        assert(truth_of_expr(branches[i as int].0, env, ms[i as int], known, fuel) == Ok::<
            _,
            FailureView,
        >((ms[i as int + 1], false)));
        branches_pass(branches, env, ms, known, fuel, n, i + 1);
    }
}

/// An `if` runs the body of the first condition that holds, in a scope of its own, and no
/// other. When none holds it runs its `else`, or nothing.
pub proof fn first_true_branch_runs(
    stmt: StmtView,
    ms: Seq<EvaluatorView>,
    n: int,
    env: usize,
    known: Seq<KnownView>,
    fuel: u64,
)
    requires
        stmt.kind matches StmtKindView::If { branches, .. } && 0 <= n <= branches.len()
            && conditions_fail(branches, env, ms, known, fuel, n),
    ensures
        stmt.kind matches StmtKindView::If { branches, orelse } && {
            let ended = stmt_run(stmt, env, ms[0], known, fuel);
            if n == branches.len() {
                match orelse {
                    Some(body) => ended == block_run_inside(body, env, ms[n], known, fuel),
                    None => ended == Ok::<_, FailureView>((ms[n], FlowView::Normal)),
                }
            } else {
                value_of_expr(branches[n].0, env, ms[n], known, fuel) matches Ok((
                    m,
                    ValueView::Bool(true),
                )) ==> ended == block_run_inside(branches[n].1, env, m, known, fuel)
            }
        },
{
    reveal(flag_held);
    reveal(truth_of);
    match stmt.kind {
        StmtKindView::If { branches, orelse } => {
            branches_pass(branches, env, ms, known, fuel, n, 0);
            assert(stmt_run(stmt, env, ms[0], known, fuel) == compound_run(
                stmt,
                env,
                ms[0],
                known,
                fuel,
            ));
            if n < branches.len() {
                match value_of_expr(branches[n].0, env, ms[n], known, fuel) {
                    Ok((m, ValueView::Bool(true))) => {
                        assert(truth_of_expr(branches[n].0, env, ms[n], known, fuel) == Ok::<
                            _,
                            FailureView,
                        >((m, true)));
                        assert(branch_run(branches[n].1, env, m, known, fuel) == match block_run_inside(
                            branches[n].1,
                            env,
                            m,
                            known,
                            fuel,
                        ) {
                            Ok(out) => Ok((out.0, Some(out.1))),
                            Err(error) => Err(error),
                        });
                    },
                    _ => {},
                }
            } else {
                assert(opt_block_run(orelse, env, ms[n], known, fuel) == match orelse {
                    Some(body) => block_run_inside(body, env, ms[n], known, fuel),
                    None => Ok((ms[n], FlowView::Normal)),
                });
            }
        },
        _ => {},
    }
}

proof fn block_runs_on(
    front: Seq<StmtView>,
    back: Seq<StmtView>,
    env: usize,
    m: EvaluatorView,
    known: Seq<KnownView>,
    fuel: u64,
    i: nat,
)
    requires
        i <= front.len(),
    ensures
        block_run(front + back, env, known, fuel, i, m) == match block_run(
            front,
            env,
            known,
            fuel,
            i,
            m,
        ) {
            Ok((next, FlowView::Normal)) => block_run(
                front + back,
                env,
                known,
                fuel,
                front.len(),
                next,
            ),
            other => other,
        },
    decreases front.len() - i,
{
    if i < front.len() {
        assert((front + back)[i as int] == front[i as int]);
        match stmt_run(front[i as int], env, m, known, fuel) {
            Ok((next, FlowView::Normal)) => {
                block_runs_on(front, back, env, next, known, fuel, i + 1);
            },
            _ => {},
        }
    }
}

proof fn block_runs_shifted(
    front: Seq<StmtView>,
    back: Seq<StmtView>,
    env: usize,
    m: EvaluatorView,
    known: Seq<KnownView>,
    fuel: u64,
    i: nat,
)
    requires
        i <= back.len(),
    ensures
        block_run(front + back, env, known, fuel, front.len() + i, m) == block_run(
            back,
            env,
            known,
            fuel,
            i,
            m,
        ),
    decreases back.len() - i,
{
    if i < back.len() {
        assert((front + back)[(front.len() + i) as int] == back[i as int]);
        match stmt_run(back[i as int], env, m, known, fuel) {
            Ok((next, FlowView::Normal)) => {
                block_runs_shifted(front, back, env, next, known, fuel, i + 1);
            },
            _ => {},
        }
    }
}

/// Statements run one after the other, until one of them leaves the block.
pub proof fn statements_run_in_order(
    front: Seq<StmtView>,
    back: Seq<StmtView>,
    env: usize,
    m: EvaluatorView,
    known: Seq<KnownView>,
    fuel: u64,
)
    ensures
        block_run(front + back, env, known, fuel, 0, m) == match block_run(
            front,
            env,
            known,
            fuel,
            0,
            m,
        ) {
            Ok((next, FlowView::Normal)) => block_run(back, env, known, fuel, 0, next),
            other => other,
        },
{
    block_runs_on(front, back, env, m, known, fuel, 0);
    match block_run(front, env, known, fuel, 0, m) {
        Ok((next, FlowView::Normal)) => {
            block_runs_shifted(front, back, env, next, known, fuel, 0);
        },
        _ => {},
    }
}

/// What a statement without blocks does to the flow: `pass` and an expression go on,
/// `break`, `continue` and `return` leave, and `return` leaves with its value.
pub proof fn statements_leave(
    stmt: StmtView,
    env: usize,
    m: EvaluatorView,
    known: Seq<KnownView>,
    fuel: u64,
)
    ensures
        match stmt.kind {
            StmtKindView::Pass => stmt_run(stmt, env, m, known, fuel) == Ok::<_, FailureView>(
                (m, FlowView::Normal),
            ),
            StmtKindView::Break => stmt_run(stmt, env, m, known, fuel) == Ok::<_, FailureView>(
                (m, FlowView::Break),
            ),
            StmtKindView::Continue => stmt_run(stmt, env, m, known, fuel) == Ok::<_, FailureView>(
                (m, FlowView::Continue),
            ),
            StmtKindView::Expr(value) => match value_of_expr(value, env, m, known, fuel) {
                Ok((next, _)) => stmt_run(stmt, env, m, known, fuel) == Ok::<_, FailureView>(
                    (next, FlowView::Normal),
                ),
                Err(failed) => stmt_run(stmt, env, m, known, fuel) == Err::<
                    (EvaluatorView, FlowView),
                    _,
                >(failed),
            },
            StmtKindView::Return(Some(value)) => match value_of_expr(value, env, m, known, fuel) {
                Ok((next, found)) => if found is Closure {
                    stmt_run(stmt, env, m, known, fuel) matches Err(failed) && failed.machine == next
                        && failed.error is ClosureEscape
                } else {
                    stmt_run(stmt, env, m, known, fuel) == Ok::<_, FailureView>(
                        (next, FlowView::Return(found)),
                    )
                },
                Err(failed) => stmt_run(stmt, env, m, known, fuel) == Err::<
                    (EvaluatorView, FlowView),
                    _,
                >(failed),
            },
            StmtKindView::Return(None) => stmt_run(stmt, env, m, known, fuel) == Ok::<
                _,
                FailureView,
            >((m, FlowView::Return(ValueView::NoneValue))),
            _ => true,
        },
{
    match stmt.kind {
        StmtKindView::Return(value) => {
            reveal(value_is_closure);
            reveal(failed_with);
            assert(stmt_run(stmt, env, m, known, fuel) == return_run(value, env, m, known, fuel));
        },
        _ => {},
    }
}

/// `and` and `or` evaluate their right operand only when the left one does not decide, and
/// then have its value.
pub proof fn operands_decide(
    e: ExprView,
    left: ExprView,
    right: ExprView,
    env: usize,
    m: EvaluatorView,
    known: Seq<KnownView>,
    fuel: u64,
    a: bool,
    next: EvaluatorView,
)
    requires
        value_of_expr(left, env, m, known, fuel) == Ok::<_, FailureView>((next, ValueView::Bool(a))),
    ensures
        ({
            let second = value_of_expr(right, env, next, known, fuel);
            &&& e.kind == ExprKindView::Infix(InfixOp::And, Box::new(left), Box::new(right)) ==> if a {
                (second is Err || (second matches Ok((_, ValueView::Bool(_))))) ==> value_of_expr(
                    e,
                    env,
                    m,
                    known,
                    fuel,
                ) == second
            } else {
                value_of_expr(e, env, m, known, fuel) == Ok::<_, FailureView>(
                    (next, ValueView::Bool(false)),
                )
            }
            &&& e.kind == ExprKindView::Infix(InfixOp::Or, Box::new(left), Box::new(right)) ==> if a {
                value_of_expr(e, env, m, known, fuel) == Ok::<_, FailureView>(
                    (next, ValueView::Bool(true)),
                )
            } else {
                (second is Err || (second matches Ok((_, ValueView::Bool(_))))) ==> value_of_expr(
                    e,
                    env,
                    m,
                    known,
                    fuel,
                ) == second
            }
        }),
{
    reveal(flag_held);
    reveal(truth_of);
    assert(truth_of_expr(left, env, m, known, fuel) == Ok::<_, FailureView>((next, a)));
    let second = value_of_expr(right, env, next, known, fuel);
    assert(truth_of_expr(right, env, next, known, fuel) == match second {
        Ok(out) => flag_held(out.0, truth_of(out.1)),
        Err(error) => Err(error),
    });
    match e.kind {
        ExprKindView::Infix(_, _, _) => {
            assert(value_of_expr(e, env, m, known, fuel) == value_of_infix(e, env, m, known, fuel));
        },
        _ => {},
    }
}

/// An operator other than `and` and `or` has its left operand evaluated first, then its
/// right one, and gives what the operator gives of their values.
pub proof fn operands_come_in_order(
    e: ExprView,
    op: InfixOp,
    left: ExprView,
    right: ExprView,
    env: usize,
    m: EvaluatorView,
    known: Seq<KnownView>,
    fuel: u64,
    a: ValueView,
    b: ValueView,
    between: EvaluatorView,
    after: EvaluatorView,
)
    requires
        e.kind == ExprKindView::Infix(op, Box::new(left), Box::new(right)),
        op != InfixOp::And,
        op != InfixOp::Or,
        value_of_expr(left, env, m, known, fuel) == Ok::<_, FailureView>((between, a)),
        value_of_expr(right, env, between, known, fuel) == Ok::<_, FailureView>((after, b)),
    ensures
        match operator_on(op, a, b, known) {
            Ok(value) => value_of_expr(e, env, m, known, fuel) == Ok::<_, FailureView>(
                (after, value),
            ),
            Err(error) => value_of_expr(e, env, m, known, fuel) matches Err(failed)
                && failed.machine == after && failed.error == error,
        },
{
    reveal(value_held);
    reveal(failed_with);
    assert(value_of_expr(e, env, m, known, fuel) == value_of_infix(e, env, m, known, fuel));
}

} // verus!
