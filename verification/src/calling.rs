//! What assignments, calls and `print` come to.

use crate::ast::{ExprView, FnParamView, KwArgView, StmtKindView, StmtView, TypeView};
use crate::evaluator::{
    all_defined, argument_of, arity_list, assign_run, block_run, closure_run, name_assigned,
    name_defined, params_bound, printed_line, regular_params, rest_bound, scope_and, scope_inside,
    scope_of_name, scopes_with, slot_named, stmt_run, text_held, value_held, value_in_scope,
    value_is_closure, value_of_expr, value_returned, values_printed, var_run, ClosureView,
    EvaluatorView, FailureView, FlowView,
};
use crate::flatten::following_index;
use crate::running::defined_name_is_found;
use crate::simd::value_shown;
use crate::values::{
    coerced, like_before, EvalErrorView, KnownView, ValueView,
};
use vstd::prelude::*;

verus! {

/// A variable that is declared without a type has the value it was declared with.
pub proof fn declared_variable_is_read(
    stmt: StmtView,
    name: Seq<char>,
    value: ExprView,
    env: usize,
    m: EvaluatorView,
    known: Seq<KnownView>,
    fuel: u64,
    next: EvaluatorView,
    found: ValueView,
)
    requires
        stmt.kind == (StmtKindView::VarDecl { name, ty: None, value }),
        value_of_expr(value, env, m, known, fuel) == Ok::<_, FailureView>((next, found)),
        env < next.scopes.len(),
    ensures
        stmt_run(stmt, env, m, known, fuel) matches Ok((end, FlowView::Normal)) && value_in_scope(
            end.scopes,
            env,
            name,
        ) == Some(found) && end.output == next.output,
{
    assert(stmt_run(stmt, env, m, known, fuel) == var_run(name, None, value, env, m, known, fuel));
    defined_name_is_found(next, env, name, found);
    reveal(name_defined);
}

pub(crate) proof fn scope_has_name(m: EvaluatorView, env: usize, name: Seq<char>)
    ensures
        match scope_of_name(m.scopes, env, name) {
            Some(at) => at <= env && at < m.scopes.len() && value_in_scope(m.scopes, at, name) is Some
                && value_in_scope(m.scopes, env, name) == value_in_scope(m.scopes, at, name)
                && slot_named(m.scopes[at as int].vars, name) is Some,
            None => value_in_scope(m.scopes, env, name) is None,
        },
    decreases env,
{
    if env < m.scopes.len() {
        match m.scopes[env as int].parent {
            Some(parent) => if parent < env {
                scope_has_name(m, parent, name);
            },
            None => {},
        }
    }
}

/// Redefining a name where it is found changes what is found from further inside.
pub(crate) proof fn redefined_is_found(
    m: EvaluatorView,
    env: usize,
    at: usize,
    name: Seq<char>,
    value: ValueView,
)
    requires
        scope_of_name(m.scopes, env, name) == Some(at),
    ensures
        value_in_scope(name_defined(m, at, name, value).scopes, env, name) == Some(value),
    decreases env,
{
    scope_has_name(m, env, name);
    defined_name_is_found(m, at, name, value);
    reveal(name_defined);
    reveal(scopes_with);
    reveal(scope_and);
    if env != at {
        match m.scopes[env as int].parent {
            Some(parent) => if parent < env {
                redefined_is_found(m, parent, at, name, value);
            },
            None => {},
        }
    }
}

/// A variable that is assigned has the new value from then on, with the kind of number it had.
pub proof fn assigned_variable_is_read(
    stmt: StmtView,
    name: Seq<char>,
    value: ExprView,
    env: usize,
    m: EvaluatorView,
    known: Seq<KnownView>,
    fuel: u64,
    next: EvaluatorView,
    found: ValueView,
    before: ValueView,
)
    requires
        stmt.kind == (StmtKindView::Assign { name, value }),
        value_of_expr(value, env, m, known, fuel) == Ok::<_, FailureView>((next, found)),
        value_in_scope(next.scopes, env, name) == Some(before),
        !(found is Closure),
        !(before is UInt || before is Float64),
    ensures
        stmt_run(stmt, env, m, known, fuel) matches Ok((end, FlowView::Normal)) && value_in_scope(
            end.scopes,
            env,
            name,
        ) == Some(found) && end.scopes.len() == next.scopes.len() && end.output == next.output,
{
    assert(stmt_run(stmt, env, m, known, fuel) == assign_run(name, value, env, m, known, fuel));
    reveal(value_is_closure);
    reveal(name_assigned);
    reveal(like_before);
    reveal(value_held);
    scope_has_name(next, env, name);
    let at = scope_of_name(next.scopes, env, name)->Some_0;
    redefined_is_found(next, env, at, name, found);
    reveal(name_defined);
    reveal(scopes_with);
}

/// Arguments bound to parameters one after the other.
pub open spec fn with_arguments(
    m: EvaluatorView,
    env: usize,
    params: Seq<FnParamView>,
    args: Seq<ValueView>,
    i: nat,
) -> EvaluatorView
    decreases params.len() - i,
{
    if i >= params.len() {
        m
    } else {
        with_arguments(
            name_defined(m, env, params[i as int].name, args[i as int]),
            env,
            params,
            args,
            i + 1,
        )
    }
}

/// Whether parameters take one argument each, as it is.
pub open spec fn takes_plainly(params: Seq<FnParamView>) -> bool {
    forall|k: int|
        0 <= k < params.len() ==> !((#[trigger] params[k]).kind is Variadic) && params[k].ty
            == TypeView::Int
}

proof fn all_regular(params: Seq<FnParamView>, i: nat, k: usize)
    requires
        takes_plainly(params),
        i <= params.len() <= usize::MAX,
        k == i,
    ensures
        regular_params(params, i, k) == params.len(),
    decreases params.len() - i,
{
    reveal(following_index);
    if i < params.len() {
        assert(!(params[i as int].kind is Variadic));
        all_regular(params, i + 1, (k + 1) as usize);
    }
}

proof fn arguments_are_bound(
    params: Seq<FnParamView>,
    name: Seq<char>,
    args: Seq<ValueView>,
    kwargs: Seq<KwArgView>,
    kw_values: Seq<ValueView>,
    home: usize,
    env: usize,
    known: Seq<KnownView>,
    fuel: u64,
    i: nat,
    m: EvaluatorView,
    k: usize,
)
    requires
        takes_plainly(params),
        i <= params.len() <= usize::MAX,
        args.len() == params.len(),
        k == i,
    ensures
        params_bound(
            params,
            params.len() as usize,
            name,
            args,
            kwargs,
            kw_values,
            home,
            env,
            known,
            fuel,
            i,
            m,
            k,
        ) == Ok::<_, FailureView>(with_arguments(m, env, params, args, i)),
    decreases params.len() - i,
{
    reveal(following_index);
    reveal(value_held);
    if i < params.len() {
        let param = params[i as int];
        assert(param.ty == TypeView::Int);
        assert(coerced(args[i as int], param.ty, known) == Ok::<_, EvalErrorView>(args[i as int]));
        assert(argument_of(
            param,
            k,
            params.len() as usize,
            name,
            args,
            kwargs,
            kw_values,
            home,
            m,
            known,
            fuel,
        ) == Ok::<_, FailureView>((m, args[i as int])));
        arguments_are_bound(
            params,
            name,
            args,
            kwargs,
            kw_values,
            home,
            env,
            known,
            fuel,
            i + 1,
            name_defined(m, env, param.name, args[i as int]),
            (k + 1) as usize,
        );
    }
}

/// A call binds its arguments to the parameters in order, in a scope inside the one the
/// function was defined in, and runs the body there. It gives what the body returns, and
/// nothing when the body ends otherwise.
pub proof fn calls_bind_and_return(
    closure: ClosureView,
    name: Seq<char>,
    args: Seq<ValueView>,
    m: EvaluatorView,
    known: Seq<KnownView>,
    fuel: u64,
)
    requires
        takes_plainly(closure.params),
        closure.params.len() <= usize::MAX,
        args.len() == closure.params.len(),
    ensures
        ({
            let (inside, inner) = scope_inside(m, closure.env);
            let bound = with_arguments(inside, inner, closure.params, args, 0);
            let called = closure_run(
                closure,
                name,
                args,
                Seq::empty(),
                Seq::empty(),
                Seq::empty(),
                m,
                known,
                fuel,
            );
            match block_run(closure.body, inner, known, fuel, 0, bound) {
                Ok((end, FlowView::Return(value))) => called == Ok::<_, FailureView>((end, value)),
                Ok((end, _)) => called == Ok::<_, FailureView>((end, ValueView::NoneValue)),
                Err(failed) => called == Err::<(EvaluatorView, ValueView), _>(failed),
            }
        }),
{
    reveal(value_returned);
    reveal(rest_bound);
    let (inside, inner) = scope_inside(m, closure.env);
    all_regular(closure.params, 0, 0);
    arguments_are_bound(
        closure.params,
        name,
        args,
        Seq::empty(),
        Seq::empty(),
        closure.env,
        inner,
        known,
        fuel,
        0,
        inside,
        0,
    );
    assert(all_defined(Seq::empty(), inner, 0, inside) == inside);
}

/// The texts of values with a blank between two.
pub open spec fn with_blanks(texts: Seq<Seq<char>>) -> Seq<char>
    decreases texts.len(),
{
    if texts.len() == 0 {
        Seq::empty()
    } else if texts.len() == 1 {
        texts[0]
    } else {
        with_blanks(texts.drop_last()).push(' ') + texts.last()
    }
}

proof fn line_so_far(
    values: Seq<ValueView>,
    texts: Seq<Seq<char>>,
    arity: Seq<usize>,
    known: Seq<KnownView>,
    i: nat,
    out: Seq<char>,
    first: bool,
)
    requires
        i <= values.len(),
        texts.len() == values.len(),
        forall|k: int|
            0 <= k < values.len() ==> value_shown(#[trigger] values[k], arity, known) == Ok::<
                _,
                EvalErrorView,
            >(texts[k]),
        out == with_blanks(texts.take(i as int)),
        first == (i == 0),
    ensures
        printed_line(values, arity, known, i, out, first) == Ok::<_, EvalErrorView>(
            with_blanks(texts),
        ),
    decreases values.len() - i,
{
    if i < values.len() {
        reveal_strlit(" ");
        assert(value_shown(values[i as int], arity, known) == Ok::<_, EvalErrorView>(
            texts[i as int],
        ));
        let next = texts.take(i as int + 1);
        assert(next.drop_last() =~= texts.take(i as int));
        assert(next.last() == texts[i as int]);
        assert(out + " "@ =~= out.push(' '));
        let more = if first {
            texts[i as int]
        } else {
            out + " "@ + texts[i as int]
        };
        assert(more == with_blanks(next));
        line_so_far(values, texts, arity, known, i + 1, more, false);
    } else {
        assert(texts.take(i as int) =~= texts);
    }
}

/// `print` adds one line to what was printed: the texts of its arguments in order, with a
/// blank between two.
pub proof fn print_adds_a_line(
    m: EvaluatorView,
    values: Seq<ValueView>,
    texts: Seq<Seq<char>>,
    known: Seq<KnownView>,
)
    requires
        texts.len() == values.len(),
        forall|k: int|
            0 <= k < values.len() ==> value_shown(
                #[trigger] values[k],
                arity_list(m.closures, 0, Seq::empty()),
                known,
            ) == Ok::<_, EvalErrorView>(texts[k]),
    ensures
        values_printed(m, values, known) matches Ok((end, ValueView::NoneValue)) && end.output
            == m.output + with_blanks(texts).push('\n') && end.scopes == m.scopes,
{
    reveal(values_printed);
    reveal(text_held);
    reveal_strlit("");
    reveal_strlit("\n");
    assert(texts.take(0) =~= Seq::<Seq<char>>::empty());
    assert(""@ =~= Seq::<char>::empty());
    line_so_far(values, texts, arity_list(m.closures, 0, Seq::empty()), known, 0, ""@, true);
    assert(m.output + with_blanks(texts) + "\n"@ =~= m.output + with_blanks(texts).push('\n'));
}

} // verus!
