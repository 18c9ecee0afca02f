//! Compile-time calls as runs: values go over and come back.

use crate::ast::{KwArg, KwArgView, Stmt, StmtView, kw_arg_list_view, stmt_list_view};
use crate::elab::{ComptimeError, ComptimeErrorView, CtCall, CtCallView, CtOutcome, CtOutcomeView};
use crate::evaluate::{not_runnable, unrunnable};
use crate::evaluator::{
    Closure, Evaluator, EvaluatorView, Failure, FailureView, arguments_fit, arities, arity_list,
    block_run, call_fits, clone_closure, closure_run, exec_block, failed_with, failure,
    fresh_evaluator, fresh_machine, lookup, regular_count, regular_params, run_closure,
    value_in_scope,
};
use crate::simd::{show_value, value_shown};
use crate::types::{CtValue, CtValueView, binding_list_view, ct_value_list_view, unfold_ct_value};
use crate::values::{
    EvalError, EvalErrorView, Known, KnownView, Value, ValueView, clone_value,
    field_value_list_view, known_list_view, unfold_value, value_list_view,
};
use vstd::prelude::*;

verus! {

/// A compile-time value as a value of a run. Types and symbols have none.
pub open spec fn value_crossed(value: CtValueView) -> Result<ValueView, ComptimeErrorView>
    decreases value, 0nat,
{
    match value {
        CtValueView::Int(n) => Ok(ValueView::Int(n)),
        CtValueView::UInt(n) => Ok(ValueView::UInt(n)),
        CtValueView::Float(bits) => Ok(ValueView::Float64(bits)),
        CtValueView::Bool(b) => Ok(ValueView::Bool(b)),
        CtValueView::Str(s) => Ok(ValueView::Str(s)),
        CtValueView::Tuple(items) => match values_crossed(items, 0, Seq::empty()) {
            Ok(out) => {
                let made = out;
                Ok(ValueView::Tuple(made))
            },
            Err(error) => Err(error),
        },
        CtValueView::List(items) => match values_crossed(items, 0, Seq::empty()) {
            Ok(out) => {
                let made = out;
                Ok(ValueView::List(made))
            },
            Err(error) => Err(error),
        },
        _ => Err(unrunnable()),
    }
}

/// See [`value_crossed`].
pub fn ct_to_vm(value: &CtValue) -> (r: Result<Value, ComptimeError>)
    ensures
        (match r { Ok(v) => Ok(v@), Err(v) => Err(v@) }) == value_crossed(value@),
    decreases value, 0nat,
{
    proof { unfold_ct_value(*value); }
    match value {
        CtValue::Int(n) => {
            let value2 = Value::Int(*n);
            proof { unfold_value(value2); }
            Ok(value2)
        },
        CtValue::UInt(n) => {
            let value3 = Value::UInt(*n);
            proof { unfold_value(value3); }
            Ok(value3)
        },
        CtValue::Float(bits) => {
            let value4 = Value::Float64(*bits);
            proof { unfold_value(value4); }
            Ok(value4)
        },
        CtValue::Bool(b) => {
            let value5 = Value::Bool(*b);
            proof { unfold_value(value5); }
            Ok(value5)
        },
        CtValue::Str(s) => {
            let value6 = Value::Str(s.clone());
            proof { unfold_value(value6); }
            Ok(value6)
        },
        CtValue::Tuple(items) => {
            let made = match cts_to_vm(items) {
                Ok(done) => done,
                Err(error) => {
                    return Err(error);
                },
            };
            let value7 = Value::Tuple(made);
            proof { unfold_value(value7); }
            Ok(value7)
        },
        CtValue::List(items) => {
            let made = match cts_to_vm(items) {
                Ok(done) => done,
                Err(error) => {
                    return Err(error);
                },
            };
            let value8 = Value::List(made);
            proof { unfold_value(value8); }
            Ok(value8)
        },
        _ => {
            assert(!(value@ is Int));
            assert(!(value@ is UInt));
            assert(!(value@ is Float));
            assert(!(value@ is Bool));
            assert(!(value@ is Str));
            assert(!(value@ is Tuple));
            assert(!(value@ is List));
            Err(not_runnable())
        },
    }
}

pub open spec fn values_crossed(
    values: Seq<CtValueView>,
    i: nat,
    out: Seq<ValueView>,
) -> Result<Seq<ValueView>, ComptimeErrorView>
    decreases values, (values.len() - i) as nat,
{
    if i >= values.len() {
        Ok(out)
    } else {
        let value = values[i as int];
        match value_crossed(value) {
            Ok(taken) => {
                let made = taken;
                let out = out.push(made);
                values_crossed(values, i + 1, out)
            },
            Err(error) => Err(error),
        }
    }
}

/// See [`values_crossed`].
pub fn cts_to_vm(values: &Vec<CtValue>) -> (r: Result<Vec<Value>, ComptimeError>)
    ensures
        (
            match r { Ok(v) => Ok(value_list_view(v@)), Err(v) => Err(v@) }
        ) == values_crossed(ct_value_list_view(values@), 0, Seq::<ValueView>::empty()),
    decreases values@, 0nat,
{
    let mut out: Vec<Value> = Vec::new();
    assert(value_list_view(out@) =~= Seq::<ValueView>::empty());
    let ghost goal = values_crossed(ct_value_list_view(values@), 0, Seq::<ValueView>::empty());
    let mut i: usize = 0;
    while i < values.len()
        invariant
            i <= values@.len(),
            ct_value_list_view(values@).len() == values@.len(),
            values_crossed(ct_value_list_view(values@), i as nat, value_list_view(out@)) == goal,
            goal == values_crossed(ct_value_list_view(values@), 0, Seq::<ValueView>::empty()),
        decreases values@.len() - i,
    {
        let value = &values[i];
        assert(ct_value_list_view(values@)[i as int] == value@);
        let made = match ct_to_vm(value) {
            Ok(done) => done,
            Err(error) => {
                return Err(error);
            },
        };
        let ghost before = value_list_view(out@);
        let ghost added = made@;
        out.push(made);
        assert(value_list_view(out@) =~= before.push(added));
        i = i + 1;
    }
    Ok(out)
}

/// A value of a run as a compile-time value, or the part of it that has none.
pub open spec fn value_back(value: ValueView) -> Result<CtValueView, ValueView>
    decreases value, 0nat,
{
    match value {
        ValueView::Int(n) => Ok(CtValueView::Int(n)),
        ValueView::UInt(n) => Ok(CtValueView::UInt(n)),
        ValueView::Float64(bits) => Ok(CtValueView::Float(bits)),
        ValueView::Bool(b) => Ok(CtValueView::Bool(b)),
        ValueView::Str(s) => Ok(CtValueView::Str(s)),
        ValueView::Tuple(items) => match values_back(items, 0, Seq::empty()) {
            Ok(out) => {
                let made = out;
                Ok(CtValueView::Tuple(made))
            },
            Err(error) => Err(error),
        },
        ValueView::List(items) => match values_back(items, 0, Seq::empty()) {
            Ok(out) => {
                let made = out;
                Ok(CtValueView::List(made))
            },
            Err(error) => Err(error),
        },
        _ => Err(value),
    }
}

/// See [`value_back`].
pub fn vm_to_ct(value: &Value) -> (r: Result<CtValue, Value>)
    ensures
        (match r { Ok(v) => Ok(v@), Err(v) => Err(v@) }) == value_back(value@),
    decreases value, 0nat,
{
    proof { unfold_value(*value); }
    match value {
        Value::Int(n) => {
            let value2 = CtValue::Int(*n);
            proof { unfold_ct_value(value2); }
            Ok(value2)
        },
        Value::UInt(n) => {
            let value3 = CtValue::UInt(*n);
            proof { unfold_ct_value(value3); }
            Ok(value3)
        },
        Value::Float64(bits) => {
            let value4 = CtValue::Float(*bits);
            proof { unfold_ct_value(value4); }
            Ok(value4)
        },
        Value::Bool(b) => {
            let value5 = CtValue::Bool(*b);
            proof { unfold_ct_value(value5); }
            Ok(value5)
        },
        Value::Str(s) => {
            let value6 = CtValue::Str(s.clone());
            proof { unfold_ct_value(value6); }
            Ok(value6)
        },
        Value::Tuple(items) => {
            let made = match vms_to_ct(items) {
                Ok(done) => done,
                Err(error) => {
                    return Err(error);
                },
            };
            let value7 = CtValue::Tuple(made);
            proof { unfold_ct_value(value7); }
            Ok(value7)
        },
        Value::List(items) => {
            let made = match vms_to_ct(items) {
                Ok(done) => done,
                Err(error) => {
                    return Err(error);
                },
            };
            let value8 = CtValue::List(made);
            proof { unfold_ct_value(value8); }
            Ok(value8)
        },
        _ => {
            assert(!(value@ is Int));
            assert(!(value@ is UInt));
            assert(!(value@ is Float64));
            assert(!(value@ is Bool));
            assert(!(value@ is Str));
            assert(!(value@ is Tuple));
            assert(!(value@ is List));
            Err(clone_value(value))
        },
    }
}

pub open spec fn values_back(
    values: Seq<ValueView>,
    i: nat,
    out: Seq<CtValueView>,
) -> Result<Seq<CtValueView>, ValueView>
    decreases values, (values.len() - i) as nat,
{
    if i >= values.len() {
        Ok(out)
    } else {
        let value = values[i as int];
        match value_back(value) {
            Ok(taken) => {
                let made = taken;
                let out = out.push(made);
                values_back(values, i + 1, out)
            },
            Err(error) => Err(error),
        }
    }
}

/// See [`values_back`].
pub fn vms_to_ct(values: &Vec<Value>) -> (r: Result<Vec<CtValue>, Value>)
    ensures
        (
            match r { Ok(v) => Ok(ct_value_list_view(v@)), Err(v) => Err(v@) }
        ) == values_back(value_list_view(values@), 0, Seq::<CtValueView>::empty()),
    decreases values@, 0nat,
{
    let mut out: Vec<CtValue> = Vec::new();
    assert(ct_value_list_view(out@) =~= Seq::<CtValueView>::empty());
    let ghost goal = values_back(value_list_view(values@), 0, Seq::<CtValueView>::empty());
    let mut i: usize = 0;
    while i < values.len()
        invariant
            i <= values@.len(),
            value_list_view(values@).len() == values@.len(),
            values_back(value_list_view(values@), i as nat, ct_value_list_view(out@)) == goal,
            goal == values_back(value_list_view(values@), 0, Seq::<CtValueView>::empty()),
        decreases values@.len() - i,
    {
        let value = &values[i];
        assert(value_list_view(values@)[i as int] == value@);
        let made = match vm_to_ct(value) {
            Ok(done) => done,
            Err(error) => {
                return Err(error);
            },
        };
        let ghost before = ct_value_list_view(out@);
        let ghost added = made@;
        out.push(made);
        assert(ct_value_list_view(out@) =~= before.push(added));
        i = i + 1;
    }
    Ok(out)
}

/// What a compile-time call gives when its run gives a value.
#[verifier::opaque]
pub open spec fn outcome_of_value(
    value: ValueView,
    arity: Seq<usize>,
    known: Seq<KnownView>,
) -> Result<CtOutcomeView, EvalErrorView> {
    match value_back(value) {
        Ok(found) => Ok(CtOutcomeView::Value(found)),
        Err(other) => if (other matches ValueView::NoneValue) {
            Ok(CtOutcomeView::Nothing)
        } else {
            match value_shown(other, arity, known) {
                Ok(out) => {
                    let shown = out;
                    Ok(CtOutcomeView::Other(shown))
                },
                Err(error) => Err(error),
            }
        },
    }
}

/// See [`outcome_of_value`].
pub fn outcome_of(
    value: &Value,
    arity: &Vec<usize>,
    known: &Vec<Known>,
) -> (r: Result<CtOutcome, EvalError>)
    ensures
        (
            match r { Ok(v) => Ok(v@), Err(v) => Err(v@) }
        ) == outcome_of_value(value@, arity@, known_list_view(known@)),
{
    proof { reveal(outcome_of_value); }
    match vm_to_ct(value) {
        Ok(found) => Ok(CtOutcome::Value(found)),
        Err(other) => {
            if matches!(other, Value::NoneValue) {
                Ok(CtOutcome::Nothing)
            } else {
                let shown = match show_value(&other, arity, known) {
                    Ok(done) => done,
                    Err(error) => {
                        return Err(error);
                    },
                };
                Ok(CtOutcome::Other(shown))
            }
        },
    }
}

/// Run one function of a program on values.
#[verifier::opaque]
pub open spec fn function_called(
    program: Seq<StmtView>,
    name: Seq<char>,
    args: Seq<ValueView>,
    value_params: Seq<(Seq<char>, ValueView)>,
    known: Seq<KnownView>,
    fuel: u64,
) -> Result<(EvaluatorView, ValueView), FailureView> {
    match block_run(program, 0, known, fuel, 0, fresh_evaluator()) {
        Ok(out) => {
            let (m, _) = out;
            match value_in_scope(m.scopes, 0, name) {
                Some(value) => match value {
                    ValueView::Closure(id) => numbered_called(
                        id,
                        name,
                        args,
                        value_params,
                        m,
                        known,
                        fuel,
                    ),
                    _ => Err(failed_with(m, EvalErrorView::NotCallable(name))),
                },
                None => Err(failed_with(m, EvalErrorView::UndefinedVariable(name))),
            }
        },
        Err(error) => Err(error),
    }
}

/// See [`function_called`].
pub fn run_function(
    program: &Vec<Stmt>,
    name: &String,
    args: &Vec<Value>,
    value_params: &Vec<(String, Value)>,
    known: &Vec<Known>,
    fuel: u64,
) -> (r: Result<(Evaluator, Value), Failure>)
    ensures
        (match r { Ok(v) => Ok((v.0@, v.1@)), Err(v) => Err(v@) }) == function_called(
            stmt_list_view(program@),
            name@,
            value_list_view(args@),
            field_value_list_view(value_params@),
            known_list_view(known@),
            fuel,
        ),
{
    proof { reveal(function_called); }
    let (m, _) = match exec_block(program, 0, fresh_machine(), known, fuel) {
        Ok(done) => done,
        Err(error) => {
            return Err(error);
        },
    };
    match lookup(&m.scopes, 0, name) {
        Some(value) => {
            proof { unfold_value(value); }
            match value {
                Value::Closure(id) => run_numbered(id, name, args, value_params, m, known, fuel),
                _ => {
                    assert(!(value@ is Closure));
                    Err(failure(m, EvalError::NotCallable(name.clone())))
                },
            }
        },
        None => Err(failure(m, EvalError::UndefinedVariable(name.clone()))),
    }
}

#[verifier::opaque]
pub open spec fn numbered_called(
    id: usize,
    name: Seq<char>,
    args: Seq<ValueView>,
    value_params: Seq<(Seq<char>, ValueView)>,
    m: EvaluatorView,
    known: Seq<KnownView>,
    fuel: u64,
) -> Result<(EvaluatorView, ValueView), FailureView> {
    if id >= m.closures.len() {
        Err(failed_with(m, EvalErrorView::OutOfBounds))
    } else if fuel == 0 {
        Err(failed_with(m, EvalErrorView::Exhausted))
    } else {
        let closure = m.closures[id as int];
        let no_kwargs = Seq::<KwArgView>::empty();
        let no_values = Seq::<ValueView>::empty();
        if !arguments_fit(closure, args.len() as usize, no_kwargs) {
            Err(
                failed_with(
                    m,
                    EvalErrorView::ArityMismatch {
                        name,
                        expected: regular_params(closure.params, 0, 0),
                        got: args.len() as usize,
                    },
                )
            )
        } else {
            closure_run(
                closure,
                name,
                args,
                no_kwargs,
                no_values,
                value_params,
                m,
                known,
                (fuel - 1) as u64,
            )
        }
    }
}

/// See [`numbered_called`].
pub fn run_numbered(
    id: usize,
    name: &String,
    args: &Vec<Value>,
    value_params: &Vec<(String, Value)>,
    m: Evaluator,
    known: &Vec<Known>,
    fuel: u64,
) -> (r: Result<(Evaluator, Value), Failure>)
    ensures
        (match r { Ok(v) => Ok((v.0@, v.1@)), Err(v) => Err(v@) }) == numbered_called(
            id,
            name@,
            value_list_view(args@),
            field_value_list_view(value_params@),
            m@,
            known_list_view(known@),
            fuel,
        ),
{
    proof { reveal(numbered_called); }
    if id >= m.closures.len() {
        Err(failure(m, EvalError::OutOfBounds))
    } else if fuel == 0 {
        Err(failure(m, EvalError::Exhausted))
    } else {
        let closure = clone_closure((&m.closures[id]));
        let no_kwargs: Vec<KwArg> = Vec::new();
        assert(kw_arg_list_view(no_kwargs@) =~= Seq::<KwArgView>::empty());
        let no_values: Vec<Value> = Vec::new();
        assert(value_list_view(no_values@) =~= Seq::<ValueView>::empty());
        if !call_fits(&closure, args.len(), &no_kwargs) {
            Err(
                failure(
                    m,
                    EvalError::ArityMismatch {
                        name: name.clone(),
                        expected: regular_count(&closure.params),
                        got: args.len(),
                    },
                )
            )
        } else {
            run_closure(
                &closure,
                name,
                args,
                &no_kwargs,
                &no_values,
                value_params,
                m,
                known,
                fuel - 1,
            )
        }
    }
}

/// A compile-time call run: what it gives, as far as its questions are answered.
#[verifier::opaque]
pub open spec fn ct_call_run(
    program: Seq<StmtView>,
    call: CtCallView,
    known: Seq<KnownView>,
    fuel: u64,
) -> Result<CtOutcomeView, EvalErrorView> {
    match values_crossed(call.args, 0, Seq::empty()) {
        Ok(args) => match params_crossed(call.value_params, 0, Seq::empty()) {
            Ok(params) => match function_called(program, call.name, args, params, known, fuel) {
                Ok(done) => outcome_of_value(
                    done.1,
                    arity_list(done.0.closures, 0, Seq::empty()),
                    known,
                ),
                Err(failed) => Err(failed.error),
            },
            Err(_) => Ok(CtOutcomeView::Failed("type-valued or symbolic values cannot cross into VM CTFE"@)),
        },
        Err(_) => Ok(CtOutcomeView::Failed("type-valued or symbolic values cannot cross into VM CTFE"@)),
    }
}

/// See [`ct_call_run`].
pub fn run_ct_call(
    program: &Vec<Stmt>,
    call: &CtCall,
    known: &Vec<Known>,
    fuel: u64,
) -> (r: Result<CtOutcome, EvalError>)
    ensures
        (match r { Ok(v) => Ok(v@), Err(v) => Err(v@) }) == ct_call_run(
            stmt_list_view(program@),
            call@,
            known_list_view(known@),
            fuel,
        ),
{
    proof { reveal(ct_call_run); }
    match cts_to_vm(&call.args) {
        Ok(args) => {
            match params_to_vm(&call.value_params) {
                Ok(params) => {
                    match run_function(program, &call.name, &args, &params, known, fuel) {
                        Ok(done) => outcome_of(&done.1, &arities(&done.0.closures), known),
                        Err(failed) => Err(failed.error),
                    }
                },
                Err(_) => Ok(CtOutcome::Failed("type-valued or symbolic values cannot cross into VM CTFE".to_owned())),
            }
        },
        Err(_) => Ok(CtOutcome::Failed("type-valued or symbolic values cannot cross into VM CTFE".to_owned())),
    }
}

pub open spec fn params_crossed(
    params: Seq<(Seq<char>, CtValueView)>,
    i: nat,
    out: Seq<(Seq<char>, ValueView)>,
) -> Result<Seq<(Seq<char>, ValueView)>, ComptimeErrorView>
    decreases params, (params.len() - i) as nat,
{
    if i >= params.len() {
        Ok(out)
    } else {
        let param = params[i as int];
        match value_crossed(param.1) {
            Ok(taken) => {
                let made = taken;
                let out = out.push((param.0, made));
                params_crossed(params, i + 1, out)
            },
            Err(error) => Err(error),
        }
    }
}

/// See [`params_crossed`].
pub fn params_to_vm(
    params: &Vec<(String, CtValue)>,
) -> (r: Result<Vec<(String, Value)>, ComptimeError>)
    ensures
        (match r { Ok(v) => Ok(field_value_list_view(v@)), Err(v) => Err(v@) }) == params_crossed(
            binding_list_view(params@),
            0,
            Seq::<(Seq<char>, ValueView)>::empty(),
        ),
    decreases params@, 0nat,
{
    let mut out: Vec<(String, Value)> = Vec::new();
    assert(field_value_list_view(out@) =~= Seq::<(Seq<char>, ValueView)>::empty());
    let ghost goal = params_crossed(
        binding_list_view(params@),
        0,
        Seq::<(Seq<char>, ValueView)>::empty(),
    );
    let mut i: usize = 0;
    while i < params.len()
        invariant
            i <= params@.len(),
            binding_list_view(params@).len() == params@.len(),
            params_crossed(
                binding_list_view(params@),
                i as nat,
                field_value_list_view(out@),
            ) == goal,
            goal == params_crossed(
                binding_list_view(params@),
                0,
                Seq::<(Seq<char>, ValueView)>::empty(),
            ),
        decreases params@.len() - i,
    {
        let param = &params[i];
        assert(binding_list_view(params@)[i as int].0 =~= param.0@);
        assert(binding_list_view(params@)[i as int].1 =~= param.1@);
        let made = match ct_to_vm(&param.1) {
            Ok(done) => done,
            Err(error) => {
                return Err(error);
            },
        };
        let item = ((&param.0).clone(), made);
        let ghost before = field_value_list_view(out@);
        let ghost added = (item.0@, item.1@);
        out.push(item);
        assert(field_value_list_view(out@) =~= before.push(added));
        i = i + 1;
    }
    Ok(out)
}

/// A value that can be handed to a run comes back as it was.
pub proof fn crossing_back_restores(value: CtValueView)
    requires
        value_crossed(value) is Ok,
    ensures
        value_back(value_crossed(value)->Ok_0) == Ok::<CtValueView, ValueView>(value),
    decreases value, 0nat, 0nat,
{
    match value {
        CtValueView::Tuple(items) => {
            crossing_back_restores_all(items, 0, Seq::empty(), Seq::empty());
        },
        CtValueView::List(items) => {
            crossing_back_restores_all(items, 0, Seq::empty(), Seq::empty());
        },
        _ => {},
    }
}

proof fn crossing_back_restores_all(
    values: Seq<CtValueView>,
    i: nat,
    out: Seq<ValueView>,
    back: Seq<CtValueView>,
)
    requires
        i <= values.len(),
        out.len() == i,
        back =~= values.take(i as int),
        values_crossed(values, i, out) is Ok,
    ensures
        ({
            let made = values_crossed(values, i, out)->Ok_0;
            &&& made.len() == values.len()
            &&& made.take(i as int) == out
            &&& values_back(made, i, back) == Ok::<Seq<CtValueView>, ValueView>(values)
        }),
    decreases values, 1nat, values.len() - i,
{
    if i < values.len() {
        let value = values[i as int];
        let one = value_crossed(value)->Ok_0;
        crossing_back_restores(value);
        let next = out.push(one);
        assert(back.push(value) =~= values.take(i + 1int));
        crossing_back_restores_all(values, i + 1, next, back.push(value));
        let made = values_crossed(values, i, out)->Ok_0;
        assert(made.take(i + 1int) == next);
        assert(made[i as int] == next[i as int]) by {
            assert(made.take(i + 1int)[i as int] == next[i as int]);
        }
        assert(made.take(i as int) =~= out) by {
            assert forall|k: int| 0 <= k < i implies made.take(i as int)[k] == out[k] by {
                assert(made.take(i + 1int)[k] == next[k]);
            }
        }
    } else {
        assert(values.take(i as int) =~= values);
        assert(out.take(i as int) =~= out);
    }
}

} // verus!
