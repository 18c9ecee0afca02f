//! The values of running programs, and the operators on them.

use crate::arith::{
    checked_difference, checked_power, checked_product, checked_sum, fit, fit_power,
};
use crate::ast::{
    Dtype, InfixOp, ParamArg, ParamArgView, Type, TypeView, param_arg_list_view, unfold_type,
};
use crate::evaluator::Closure;
use crate::flatten::{following_index, next_index};
use crate::numbers::{
    comparison, fit_unsigned, floor_div, floor_mod, floor_quotient, floor_remainder,
    int_comparison, unsigned_difference, unsigned_power, unsigned_product, unsigned_sum,
};
use crate::simd::{lane_operator, simd_binop};
use crate::text::{
    cat2, cat3, cat4, cat5, cat6, chars_of, copy_vec, decimal, opt_view, pattern_at, same_string,
    same_text, show_i64, show_u64, show_usize, signed_decimal, stands_at,
};
use vstd::arithmetic::power::pow;
use vstd::prelude::*;

verus! {

/// A question about floats that a run asks. A float is given by its
/// IEEE-754 bits.
#[derive(Debug, PartialEq, Eq)]
#[allow(inconsistent_fields)]
pub enum Question {
    /// An operator on two floats.
    Binary(InfixOp, u64, u64),
    /// The float next to an integer.
    FromInt(i64),
    FromUInt(u64),
    /// A float cut to an integer.
    ToInt(u64),
    ToUInt(u64),
    Negated(u64),
    Magnitude(u64),
    /// A float rounded to a whole number.
    Round(u64),
    /// A float rounded to single precision.
    Single(u64),
    /// A float as it is printed.
    Show(u64),
}

/// What a [`Question`] holds.
#[allow(inconsistent_fields)]
pub enum QuestionView {
    Binary(InfixOp, u64, u64),
    FromInt(i64),
    FromUInt(u64),
    ToInt(u64),
    ToUInt(u64),
    Negated(u64),
    Magnitude(u64),
    Round(u64),
    Single(u64),
    Show(u64),
}

/// The answer to a question.
#[derive(Debug, PartialEq, Eq)]
#[allow(inconsistent_fields)]
pub enum Answer {
    Bits(u64),
    Flag(bool),
    Int(i64),
    UInt(u64),
    Text(String),
}

/// What a [`Answer`] holds.
#[allow(inconsistent_fields)]
pub enum AnswerView {
    Bits(u64),
    Flag(bool),
    Int(i64),
    UInt(u64),
    Text(Seq<char>),
}

/// A question with its answer.
#[derive(Debug, PartialEq, Eq)]
pub struct Known {
    pub question: Question,
    pub answer: Answer,
}

/// What a [`Known`] holds.
pub struct KnownView {
    pub question: QuestionView,
    pub answer: AnswerView,
}

/// The lanes of a vector.
#[derive(Debug, PartialEq, Eq)]
#[allow(inconsistent_fields)]
pub enum SimdLanes {
    /// Integers, each the value that the element type has.
    Int(Vec<i128>),
    /// The IEEE-754 bits of floats.
    Float(Vec<u64>),
    Bool(Vec<bool>),
}

/// What a [`SimdLanes`] holds.
#[allow(inconsistent_fields)]
pub enum SimdLanesView {
    Int(Seq<i128>),
    Float(Seq<u64>),
    Bool(Seq<bool>),
}

/// A value of a running program.
#[derive(Debug, PartialEq, Eq)]
#[allow(inconsistent_fields)]
pub enum Value {
    Int(i64),
    UInt(u64),
    /// The IEEE-754 bits of a float.
    Float64(u64),
    Bool(bool),
    Str(String),
    NoneValue,
    /// A function, by its number.
    Closure(usize),
    /// The integers from `start` up to `stop`, by steps.
    Range { start: i64, stop: i64, step: i64 },
    Struct { name: String, fields: Vec<(String, Value)>, value_params: Vec<(String, Value)> },
    Simd { dtype: Dtype, lanes: SimdLanes },
    /// What `raise` raises.
    Error(String),
    List(Vec<Value>),
    Tuple(Vec<Value>),
}

/// What a [`Value`] holds.
#[allow(inconsistent_fields)]
pub enum ValueView {
    Int(i64),
    UInt(u64),
    Float64(u64),
    Bool(bool),
    Str(Seq<char>),
    NoneValue,
    Closure(usize),
    Range { start: i64, stop: i64, step: i64 },
    Struct { name: Seq<char>, fields: Seq<(Seq<char>, ValueView)>, value_params: Seq<(Seq<char>, ValueView)> },
    Simd { dtype: Dtype, lanes: SimdLanesView },
    Error(Seq<char>),
    List(Seq<ValueView>),
    Tuple(Seq<ValueView>),
}

/// Why a run stops.
#[derive(Debug, PartialEq, Eq)]
#[allow(inconsistent_fields)]
pub enum EvalError {
    UndefinedVariable(String),
    NotCallable(String),
    ArityMismatch { name: String, expected: usize, got: usize },
    TypeError(String),
    ClosureEscape,
    Raised(String),
    Unsupported(String),
    /// A question that has to be answered before the run can go on.
    Asked(Question),
    /// Arithmetic that leaves 64 bits.
    Overflow,
    /// An element that is not there.
    OutOfBounds,
    /// More nested calls or rounds of a loop than allowed.
    Exhausted,
}

/// What a [`EvalError`] holds.
#[allow(inconsistent_fields)]
pub enum EvalErrorView {
    UndefinedVariable(Seq<char>),
    NotCallable(Seq<char>),
    ArityMismatch { name: Seq<char>, expected: usize, got: usize },
    TypeError(Seq<char>),
    ClosureEscape,
    Raised(Seq<char>),
    Unsupported(Seq<char>),
    Asked(QuestionView),
    Overflow,
    OutOfBounds,
    Exhausted,
}

/// A number, apart from the value it comes from.
#[derive(Debug, Clone, Copy, PartialEq, Eq, Structural)]
pub enum Num {
    I(i64),
    U(u64),
    F(u64),
}

pub open spec fn question_view(x: Question) -> QuestionView
    decreases x,
{
    match x {
        Question::Binary(a0, a1, a2) => QuestionView::Binary(a0, a1, a2),
        Question::FromInt(a0) => QuestionView::FromInt(a0),
        Question::FromUInt(a0) => QuestionView::FromUInt(a0),
        Question::ToInt(a0) => QuestionView::ToInt(a0),
        Question::ToUInt(a0) => QuestionView::ToUInt(a0),
        Question::Negated(a0) => QuestionView::Negated(a0),
        Question::Magnitude(a0) => QuestionView::Magnitude(a0),
        Question::Round(a0) => QuestionView::Round(a0),
        Question::Single(a0) => QuestionView::Single(a0),
        Question::Show(a0) => QuestionView::Show(a0),
    }
}

impl View for Question {
    type V = QuestionView;

    open spec fn view(&self) -> QuestionView {
        question_view(*self)
    }
}

pub fn clone_question(x: &Question) -> (r: Question)
    ensures
        question_view(r) == question_view(*x),
    decreases x,
{
    match x {
        Question::Binary(a0, a1, a2) => Question::Binary(*a0, *a1, *a2),
        Question::FromInt(a0) => Question::FromInt(*a0),
        Question::FromUInt(a0) => Question::FromUInt(*a0),
        Question::ToInt(a0) => Question::ToInt(*a0),
        Question::ToUInt(a0) => Question::ToUInt(*a0),
        Question::Negated(a0) => Question::Negated(*a0),
        Question::Magnitude(a0) => Question::Magnitude(*a0),
        Question::Round(a0) => Question::Round(*a0),
        Question::Single(a0) => Question::Single(*a0),
        Question::Show(a0) => Question::Show(*a0),
    }
}

impl Clone for Question {
    fn clone(&self) -> (r: Self)
        ensures
            r@ == self@,
    {
        clone_question(self)
    }
}

pub open spec fn answer_view(x: Answer) -> AnswerView
    decreases x,
{
    match x {
        Answer::Bits(a0) => AnswerView::Bits(a0),
        Answer::Flag(a0) => AnswerView::Flag(a0),
        Answer::Int(a0) => AnswerView::Int(a0),
        Answer::UInt(a0) => AnswerView::UInt(a0),
        Answer::Text(a0) => AnswerView::Text(a0@),
    }
}

impl View for Answer {
    type V = AnswerView;

    open spec fn view(&self) -> AnswerView {
        answer_view(*self)
    }
}

pub fn clone_answer(x: &Answer) -> (r: Answer)
    ensures
        answer_view(r) == answer_view(*x),
    decreases x,
{
    match x {
        Answer::Bits(a0) => Answer::Bits(*a0),
        Answer::Flag(a0) => Answer::Flag(*a0),
        Answer::Int(a0) => Answer::Int(*a0),
        Answer::UInt(a0) => Answer::UInt(*a0),
        Answer::Text(a0) => Answer::Text(a0.clone()),
    }
}

impl Clone for Answer {
    fn clone(&self) -> (r: Self)
        ensures
            r@ == self@,
    {
        clone_answer(self)
    }
}

pub open spec fn known_view(x: Known) -> KnownView
    decreases x,
{
    KnownView {
        question: question_view(x.question),
        answer: answer_view(x.answer),
    }
}

impl View for Known {
    type V = KnownView;

    open spec fn view(&self) -> KnownView {
        known_view(*self)
    }
}

pub fn clone_known(x: &Known) -> (r: Known)
    ensures
        known_view(r) == known_view(*x),
    decreases x,
{
    Known {
        question: clone_question((&x.question)),
        answer: clone_answer((&x.answer)),
    }
}

impl Clone for Known {
    fn clone(&self) -> (r: Self)
        ensures
            r@ == self@,
    {
        clone_known(self)
    }
}

pub open spec fn simd_lanes_view(x: SimdLanes) -> SimdLanesView
    decreases x,
{
    match x {
        SimdLanes::Int(a0) => SimdLanesView::Int(a0@),
        SimdLanes::Float(a0) => SimdLanesView::Float(a0@),
        SimdLanes::Bool(a0) => SimdLanesView::Bool(a0@),
    }
}

impl View for SimdLanes {
    type V = SimdLanesView;

    open spec fn view(&self) -> SimdLanesView {
        simd_lanes_view(*self)
    }
}

pub fn clone_simd_lanes(x: &SimdLanes) -> (r: SimdLanes)
    ensures
        simd_lanes_view(r) == simd_lanes_view(*x),
    decreases x,
{
    match x {
        SimdLanes::Int(a0) => SimdLanes::Int(copy_vec(a0)),
        SimdLanes::Float(a0) => SimdLanes::Float(copy_vec(a0)),
        SimdLanes::Bool(a0) => SimdLanes::Bool(copy_vec(a0)),
    }
}

impl Clone for SimdLanes {
    fn clone(&self) -> (r: Self)
        ensures
            r@ == self@,
    {
        clone_simd_lanes(self)
    }
}

pub open spec fn value_view(x: Value) -> ValueView
    decreases x,
{
    match x {
        Value::Int(a0) => ValueView::Int(a0),
        Value::UInt(a0) => ValueView::UInt(a0),
        Value::Float64(a0) => ValueView::Float64(a0),
        Value::Bool(a0) => ValueView::Bool(a0),
        Value::Str(a0) => ValueView::Str(a0@),
        Value::NoneValue => ValueView::NoneValue,
        Value::Closure(a0) => ValueView::Closure(a0),
        Value::Range { start, stop, step } => ValueView::Range { start, stop, step },
        Value::Struct { name, fields, value_params } => ValueView::Struct { name: name@, fields: field_value_list_view(fields@), value_params: field_value_list_view(value_params@) },
        Value::Simd { dtype, lanes } => ValueView::Simd { dtype, lanes: simd_lanes_view(lanes) },
        Value::Error(a0) => ValueView::Error(a0@),
        Value::List(a0) => ValueView::List(value_list_view(a0@)),
        Value::Tuple(a0) => ValueView::Tuple(value_list_view(a0@)),
    }
}

impl View for Value {
    type V = ValueView;

    open spec fn view(&self) -> ValueView {
        value_view(*self)
    }
}

pub fn clone_value(x: &Value) -> (r: Value)
    ensures
        value_view(r) == value_view(*x),
    decreases x,
{
    let r = match x {
        Value::Int(a0) => Value::Int(*a0),
        Value::UInt(a0) => Value::UInt(*a0),
        Value::Float64(a0) => Value::Float64(*a0),
        Value::Bool(a0) => Value::Bool(*a0),
        Value::Str(a0) => Value::Str(a0.clone()),
        Value::NoneValue => Value::NoneValue,
        Value::Closure(a0) => Value::Closure(*a0),
        Value::Range { start, stop, step } => Value::Range { start: *start, stop: *stop, step: *step },
        Value::Struct { name, fields, value_params } => Value::Struct { name: name.clone(), fields: clone_field_value_list(fields), value_params: clone_field_value_list(value_params) },
        Value::Simd { dtype, lanes } => Value::Simd { dtype: *dtype, lanes: clone_simd_lanes(lanes) },
        Value::Error(a0) => Value::Error(a0.clone()),
        Value::List(a0) => Value::List(clone_value_list(a0)),
        Value::Tuple(a0) => Value::Tuple(clone_value_list(a0)),
    };
    proof {
        unfold_value(*x);
        unfold_value(r);
    }
    r
}

impl Clone for Value {
    fn clone(&self) -> (r: Self)
        ensures
            r@ == self@,
    {
        clone_value(self)
    }
}

pub open spec fn eval_error_view(x: EvalError) -> EvalErrorView
    decreases x,
{
    match x {
        EvalError::UndefinedVariable(a0) => EvalErrorView::UndefinedVariable(a0@),
        EvalError::NotCallable(a0) => EvalErrorView::NotCallable(a0@),
        EvalError::ArityMismatch { name, expected, got } => EvalErrorView::ArityMismatch { name: name@, expected, got },
        EvalError::TypeError(a0) => EvalErrorView::TypeError(a0@),
        EvalError::ClosureEscape => EvalErrorView::ClosureEscape,
        EvalError::Raised(a0) => EvalErrorView::Raised(a0@),
        EvalError::Unsupported(a0) => EvalErrorView::Unsupported(a0@),
        EvalError::Asked(a0) => EvalErrorView::Asked(question_view(a0)),
        EvalError::Overflow => EvalErrorView::Overflow,
        EvalError::OutOfBounds => EvalErrorView::OutOfBounds,
        EvalError::Exhausted => EvalErrorView::Exhausted,
    }
}

impl View for EvalError {
    type V = EvalErrorView;

    open spec fn view(&self) -> EvalErrorView {
        eval_error_view(*self)
    }
}

pub fn clone_eval_error(x: &EvalError) -> (r: EvalError)
    ensures
        eval_error_view(r) == eval_error_view(*x),
    decreases x,
{
    match x {
        EvalError::UndefinedVariable(a0) => EvalError::UndefinedVariable(a0.clone()),
        EvalError::NotCallable(a0) => EvalError::NotCallable(a0.clone()),
        EvalError::ArityMismatch { name, expected, got } => EvalError::ArityMismatch { name: name.clone(), expected: *expected, got: *got },
        EvalError::TypeError(a0) => EvalError::TypeError(a0.clone()),
        EvalError::ClosureEscape => EvalError::ClosureEscape,
        EvalError::Raised(a0) => EvalError::Raised(a0.clone()),
        EvalError::Unsupported(a0) => EvalError::Unsupported(a0.clone()),
        EvalError::Asked(a0) => EvalError::Asked(clone_question(a0)),
        EvalError::Overflow => EvalError::Overflow,
        EvalError::OutOfBounds => EvalError::OutOfBounds,
        EvalError::Exhausted => EvalError::Exhausted,
    }
}

impl Clone for EvalError {
    fn clone(&self) -> (r: Self)
        ensures
            r@ == self@,
    {
        clone_eval_error(self)
    }
}

pub open spec fn value_list_view(s: Seq<Value>) -> Seq<ValueView>
    decreases s,
{
    Seq::new(s.len(), |i: int| if 0 <= i < s.len() { value_view(s[i]) } else { arbitrary() })
}

pub fn clone_value_list(v: &Vec<Value>) -> (r: Vec<Value>)
    ensures
        value_list_view(r@) == value_list_view(v@),
        r@.len() == v@.len(),
    decreases v@,
{
    let mut r: Vec<Value> = Vec::new();
    for i in 0..v.len()
        invariant
            r@.len() == i,
            forall|j: int| 0 <= j < i ==> value_view((#[trigger] r@[j])) == value_view(v@[j]),
    {
        r.push(clone_value((&v[i])));
    }
    assert(value_list_view(r@) =~= value_list_view(v@));
    r
}

pub open spec fn field_value_list_view(s: Seq<(String, Value)>) -> Seq<(Seq<char>, ValueView)>
    decreases s,
{
    Seq::new(s.len(), |i: int| if 0 <= i < s.len() { (s[i].0@, value_view(s[i].1)) } else { arbitrary() })
}

pub fn clone_field_value_list(v: &Vec<(String, Value)>) -> (r: Vec<(String, Value)>)
    ensures
        field_value_list_view(r@) == field_value_list_view(v@),
        r@.len() == v@.len(),
    decreases v@,
{
    let mut r: Vec<(String, Value)> = Vec::new();
    for i in 0..v.len()
        invariant
            r@.len() == i,
            forall|j: int| 0 <= j < i ==> ((#[trigger] r@[j]).0@, value_view((#[trigger] r@[j]).1)) == (v@[j].0@, value_view(v@[j].1)),
    {
        r.push(((&(&v[i]).0).clone(), clone_value((&(&v[i]).1))));
    }
    assert(field_value_list_view(r@) =~= field_value_list_view(v@));
    r
}

pub open spec fn known_list_view(s: Seq<Known>) -> Seq<KnownView>
    decreases s,
{
    Seq::new(s.len(), |i: int| if 0 <= i < s.len() { known_view(s[i]) } else { arbitrary() })
}

pub fn clone_known_list(v: &Vec<Known>) -> (r: Vec<Known>)
    ensures
        known_list_view(r@) == known_list_view(v@),
        r@.len() == v@.len(),
    decreases v@,
{
    let mut r: Vec<Known> = Vec::new();
    for i in 0..v.len()
        invariant
            r@.len() == i,
            forall|j: int| 0 <= j < i ==> known_view((#[trigger] r@[j])) == known_view(v@[j]),
    {
        r.push(clone_known((&v[i])));
    }
    assert(known_list_view(r@) =~= known_list_view(v@));
    r
}

pub proof fn unfold_value(x: Value)
    ensures
        match x {
            Value::Struct { name, fields, value_params } => value_view(x) == (ValueView::Struct { name: name@, fields: field_value_list_view(fields@), value_params: field_value_list_view(value_params@) }),
            Value::List(a0) => value_view(x) == ValueView::List(value_list_view(a0@)),
            Value::Tuple(a0) => value_view(x) == ValueView::Tuple(value_list_view(a0@)),
            _ => true,
        },
{
    match x {
        Value::Struct { name, fields, value_params } => {
            assert(value_view(x)->Struct_fields =~= field_value_list_view(fields@));
            assert(value_view(x)->Struct_value_params =~= field_value_list_view(value_params@));
        },
        Value::List(a0) => {
            assert(value_view(x)->List_0 =~= value_list_view(a0@));
        },
        Value::Tuple(a0) => {
            assert(value_view(x)->Tuple_0 =~= value_list_view(a0@));
        },
        _ => {},
    }
}

/// Whether two values hold the same.
pub fn same_question(a: &Question, b: &Question) -> (r: bool)
    ensures
        r == (question_view(*a) == question_view(*b)),
    decreases a,
{
    match (a, b) {
        (Question::Binary(p0, p1, p2), Question::Binary(q0, q1, q2)) => *p0 == *q0 && *p1 == *q1 && *p2 == *q2,
        (Question::FromInt(p0), Question::FromInt(q0)) => *p0 == *q0,
        (Question::FromUInt(p0), Question::FromUInt(q0)) => *p0 == *q0,
        (Question::ToInt(p0), Question::ToInt(q0)) => *p0 == *q0,
        (Question::ToUInt(p0), Question::ToUInt(q0)) => *p0 == *q0,
        (Question::Negated(p0), Question::Negated(q0)) => *p0 == *q0,
        (Question::Magnitude(p0), Question::Magnitude(q0)) => *p0 == *q0,
        (Question::Round(p0), Question::Round(q0)) => *p0 == *q0,
        (Question::Single(p0), Question::Single(q0)) => *p0 == *q0,
        (Question::Show(p0), Question::Show(q0)) => *p0 == *q0,
        _ => false,
    }
}

/// The number without sign that has the same bits.
pub open spec fn unsigned_of(n: i64) -> u64 {
    if n >= 0 {
        n as u64
    } else {
        (n + 0x1_0000_0000_0000_0000) as u64
    }
}

/// See [`unsigned_of`].
pub fn as_unsigned(n: i64) -> (r: u64)
    ensures
        r == unsigned_of(n),
{
    if n >= 0 {
        n as u64
    } else {
        (n as i128 + 0x1_0000_0000_0000_0000) as u64
    }
}

/// The number with sign that has the same bits.
pub open spec fn signed_of(n: u64) -> i64 {
    if n < 0x8000_0000_0000_0000 {
        n as i64
    } else {
        (n - 0x1_0000_0000_0000_0000) as i64
    }
}

/// See [`signed_of`].
pub fn as_signed(n: u64) -> (r: i64)
    ensures
        r == signed_of(n),
{
    if n < 0x8000_0000_0000_0000 {
        n as i64
    } else {
        (n as i128 - 0x1_0000_0000_0000_0000) as i64
    }
}

/// The number without its sign; the least number stays as it is.
pub open spec fn absolute(n: i64) -> i64 {
    if n >= 0 || n == i64::MIN {
        n
    } else {
        (-n) as i64
    }
}

/// See [`absolute`].
pub fn magnitude(n: i64) -> (r: i64)
    ensures
        r == absolute(n),
{
    if n >= 0 || n == i64::MIN {
        n
    } else {
        0 - n
    }
}

/// Whether a text has another as a part.
pub open spec fn occurs(text: Seq<char>, part: Seq<char>) -> bool {
    exists|i: nat| i <= text.len() && #[trigger] stands_at(text, part, i)
}

/// See [`occurs`].
pub fn contains_text(text: &String, part: &String) -> (r: bool)
    ensures
        r == occurs(text@, part@),
{
    let chars = chars_of(text.as_str());
    let mark = chars_of(part.as_str());
    let mut i: usize = 0;
    loop
        invariant
            i <= chars@.len(),
            chars@ == text@,
            mark@ == part@,
            forall|k: nat| k < i ==> !#[trigger] stands_at(text@, part@, k),
        decreases chars@.len() - i,
    {
        if pattern_at(&chars, &mark, i) {
            return true;
        }
        if i == chars.len() {
            return false;
        }
        i = i + 1;
    }
}

/// A lane as it is shown.
pub fn show_lane(n: i128) -> (r: String)
    ensures
        r@ == signed_decimal(n as int),
{
    if n < 0 {
        let below: u128 = (0 - (n + 1)) as u128 + 1;
        let digits = show_wide(below);
        cat2("-", digits.as_str())
    } else {
        show_wide(n as u128)
    }
}

fn show_wide(n: u128) -> (r: String)
    ensures
        r@ == decimal(n as nat),
    decreases n,
{
    if n < 10 {
        show_u64(n as u64)
    } else {
        let rest = show_wide(n / 10);
        let digit = show_u64((n % 10) as u64);
        proof {
            let last = seq![crate::text::digit_char((n % 10) as nat)];
            assert(decimal((n % 10) as nat) =~= last);
            assert(decimal(n as nat) =~= decimal((n / 10) as nat) + last);
        }
        cat2(rest.as_str(), digit.as_str())
    }
}


#[verifier::opaque]
pub open spec fn type_failure(message: Seq<char>) -> EvalErrorView {
    EvalErrorView::TypeError(message)
}

/// See [`type_failure`].
pub fn failed_type(message: String) -> (r: EvalError)
    ensures
        r@ == type_failure(message@),
{
    proof { reveal(type_failure); }
    EvalError::TypeError(message)
}

/// What is known about a question.
pub open spec fn answer_known(
    known: Seq<KnownView>,
    question: QuestionView,
    i: nat,
) -> Option<AnswerView>
    decreases known, (known.len() - i) as nat,
{
    if i >= known.len() {
        None
    } else {
        let entry = known[i as int];
        if entry.question == question {
            Some(entry.answer)
        } else {
            answer_known(known, question, i + 1)
        }
    }
}

/// See [`answer_known`].
pub fn answer(known: &Vec<Known>, question: &Question) -> (r: Option<Answer>)
    ensures
        opt_view(r) == answer_known(known_list_view(known@), question@, 0),
    decreases known@, 0nat,
{
    let ghost goal = answer_known(known_list_view(known@), question@, 0);
    let mut i: usize = 0;
    while i < known.len()
        invariant
            i <= known@.len(),
            known_list_view(known@).len() == known@.len(),
            answer_known(known_list_view(known@), question@, i as nat) == goal,
            goal == answer_known(known_list_view(known@), question@, 0),
        decreases known@.len() - i,
    {
        let entry = &known[i];
        assert(known_list_view(known@)[i as int] == entry@);
        if same_question(&entry.question, question) {
            return Some(clone_answer(&entry.answer));
        }
        i = i + 1;
    }
    None
}

/// The float that answers a question.
#[verifier::opaque]
pub open spec fn bits_asked(
    known: Seq<KnownView>,
    question: QuestionView,
) -> Result<u64, EvalErrorView> {
    match answer_known(known, question, 0) {
        Some(found) => match found {
            AnswerView::Bits(bits) => Ok(bits),
            _ => Err(EvalErrorView::Asked(question)),
        },
        None => Err(EvalErrorView::Asked(question)),
    }
}

/// See [`bits_asked`].
pub fn asked_bits(known: &Vec<Known>, question: Question) -> (r: Result<u64, EvalError>)
    ensures
        (
            match r { Ok(v) => Ok(v), Err(v) => Err(v@) }
        ) == bits_asked(known_list_view(known@), question@),
{
    proof { reveal(bits_asked); }
    match answer(known, &question) {
        Some(found) => {
            match found {
                Answer::Bits(bits) => Ok(bits),
                _ => {
                    assert(!(found@ is Bits));
                    Err(EvalError::Asked(question))
                },
            }
        },
        None => Err(EvalError::Asked(question)),
    }
}

#[verifier::opaque]
pub open spec fn flag_asked(
    known: Seq<KnownView>,
    question: QuestionView,
) -> Result<bool, EvalErrorView> {
    match answer_known(known, question, 0) {
        Some(found) => match found {
            AnswerView::Flag(flag) => Ok(flag),
            _ => Err(EvalErrorView::Asked(question)),
        },
        None => Err(EvalErrorView::Asked(question)),
    }
}

/// See [`flag_asked`].
pub fn asked_flag(known: &Vec<Known>, question: Question) -> (r: Result<bool, EvalError>)
    ensures
        (
            match r { Ok(v) => Ok(v), Err(v) => Err(v@) }
        ) == flag_asked(known_list_view(known@), question@),
{
    proof { reveal(flag_asked); }
    match answer(known, &question) {
        Some(found) => {
            match found {
                Answer::Flag(flag) => Ok(flag),
                _ => {
                    assert(!(found@ is Flag));
                    Err(EvalError::Asked(question))
                },
            }
        },
        None => Err(EvalError::Asked(question)),
    }
}

#[verifier::opaque]
pub open spec fn int_asked(
    known: Seq<KnownView>,
    question: QuestionView,
) -> Result<i64, EvalErrorView> {
    match answer_known(known, question, 0) {
        Some(found) => match found {
            AnswerView::Int(n) => Ok(n),
            _ => Err(EvalErrorView::Asked(question)),
        },
        None => Err(EvalErrorView::Asked(question)),
    }
}

/// See [`int_asked`].
pub fn asked_int(known: &Vec<Known>, question: Question) -> (r: Result<i64, EvalError>)
    ensures
        (
            match r { Ok(v) => Ok(v), Err(v) => Err(v@) }
        ) == int_asked(known_list_view(known@), question@),
{
    proof { reveal(int_asked); }
    match answer(known, &question) {
        Some(found) => {
            match found {
                Answer::Int(n) => Ok(n),
                _ => {
                    assert(!(found@ is Int));
                    Err(EvalError::Asked(question))
                },
            }
        },
        None => Err(EvalError::Asked(question)),
    }
}

#[verifier::opaque]
pub open spec fn uint_asked(
    known: Seq<KnownView>,
    question: QuestionView,
) -> Result<u64, EvalErrorView> {
    match answer_known(known, question, 0) {
        Some(found) => match found {
            AnswerView::UInt(n) => Ok(n),
            _ => Err(EvalErrorView::Asked(question)),
        },
        None => Err(EvalErrorView::Asked(question)),
    }
}

/// See [`uint_asked`].
pub fn asked_uint(known: &Vec<Known>, question: Question) -> (r: Result<u64, EvalError>)
    ensures
        (
            match r { Ok(v) => Ok(v), Err(v) => Err(v@) }
        ) == uint_asked(known_list_view(known@), question@),
{
    proof { reveal(uint_asked); }
    match answer(known, &question) {
        Some(found) => {
            match found {
                Answer::UInt(n) => Ok(n),
                _ => {
                    assert(!(found@ is UInt));
                    Err(EvalError::Asked(question))
                },
            }
        },
        None => Err(EvalError::Asked(question)),
    }
}

#[verifier::opaque]
pub open spec fn text_asked(
    known: Seq<KnownView>,
    question: QuestionView,
) -> Result<Seq<char>, EvalErrorView> {
    match answer_known(known, question, 0) {
        Some(found) => match found {
            AnswerView::Text(text) => Ok(text),
            _ => Err(EvalErrorView::Asked(question)),
        },
        None => Err(EvalErrorView::Asked(question)),
    }
}

/// See [`text_asked`].
pub fn asked_text(known: &Vec<Known>, question: Question) -> (r: Result<String, EvalError>)
    ensures
        (
            match r { Ok(v) => Ok(v@), Err(v) => Err(v@) }
        ) == text_asked(known_list_view(known@), question@),
{
    proof { reveal(text_asked); }
    match answer(known, &question) {
        Some(found) => {
            match found {
                Answer::Text(text) => Ok(text),
                _ => {
                    assert(!(found@ is Text));
                    Err(EvalError::Asked(question))
                },
            }
        },
        None => Err(EvalError::Asked(question)),
    }
}

/// The name of an element type.
#[verifier::opaque]
pub open spec fn name_of_dtype(dtype: Dtype) -> Seq<char> {
    match dtype {
        Dtype::Int8 => "int8"@,
        Dtype::Int16 => "int16"@,
        Dtype::Int32 => "int32"@,
        Dtype::Int64 => "int64"@,
        Dtype::UInt8 => "uint8"@,
        Dtype::UInt16 => "uint16"@,
        Dtype::UInt32 => "uint32"@,
        Dtype::UInt64 => "uint64"@,
        Dtype::Float32 => "float32"@,
        Dtype::Float64 => "float64"@,
        Dtype::Bool => "bool"@,
    }
}

/// See [`name_of_dtype`].
pub fn dtype_name(dtype: Dtype) -> (r: String)
    ensures
        r@ == name_of_dtype(dtype),
{
    proof { reveal(name_of_dtype); }
    match dtype {
        Dtype::Int8 => "int8".to_owned(),
        Dtype::Int16 => "int16".to_owned(),
        Dtype::Int32 => "int32".to_owned(),
        Dtype::Int64 => "int64".to_owned(),
        Dtype::UInt8 => "uint8".to_owned(),
        Dtype::UInt16 => "uint16".to_owned(),
        Dtype::UInt32 => "uint32".to_owned(),
        Dtype::UInt64 => "uint64".to_owned(),
        Dtype::Float32 => "float32".to_owned(),
        Dtype::Float64 => "float64".to_owned(),
        Dtype::Bool => "bool".to_owned(),
    }
}

/// The name of the scalar type that a vector of one such element is.
#[verifier::opaque]
pub open spec fn alias_of_dtype(dtype: Dtype) -> Seq<char> {
    match dtype {
        Dtype::Int8 => "Int8"@,
        Dtype::Int16 => "Int16"@,
        Dtype::Int32 => "Int32"@,
        Dtype::Int64 => "Int64"@,
        Dtype::UInt8 => "UInt8"@,
        Dtype::UInt16 => "UInt16"@,
        Dtype::UInt32 => "UInt32"@,
        Dtype::UInt64 => "UInt64"@,
        Dtype::Float32 => "Float32"@,
        _ => "SIMD"@,
    }
}

/// See [`alias_of_dtype`].
pub fn scalar_alias(dtype: Dtype) -> (r: String)
    ensures
        r@ == alias_of_dtype(dtype),
{
    proof { reveal(alias_of_dtype); }
    match dtype {
        Dtype::Int8 => "Int8".to_owned(),
        Dtype::Int16 => "Int16".to_owned(),
        Dtype::Int32 => "Int32".to_owned(),
        Dtype::Int64 => "Int64".to_owned(),
        Dtype::UInt8 => "UInt8".to_owned(),
        Dtype::UInt16 => "UInt16".to_owned(),
        Dtype::UInt32 => "UInt32".to_owned(),
        Dtype::UInt64 => "UInt64".to_owned(),
        Dtype::Float32 => "Float32".to_owned(),
        _ => "SIMD".to_owned(),
    }
}

/// The element type of a scalar type.
#[verifier::opaque]
pub open spec fn dtype_of_alias(name: Seq<char>) -> Option<Dtype> {
    if name == "Int8"@ {
        Some(Dtype::Int8)
    } else if name == "Int16"@ {
        Some(Dtype::Int16)
    } else if name == "Int32"@ {
        Some(Dtype::Int32)
    } else if name == "Int64"@ {
        Some(Dtype::Int64)
    } else if name == "UInt8"@ {
        Some(Dtype::UInt8)
    } else if name == "UInt16"@ {
        Some(Dtype::UInt16)
    } else if name == "UInt32"@ {
        Some(Dtype::UInt32)
    } else if name == "UInt64"@ {
        Some(Dtype::UInt64)
    } else if name == "Float32"@ {
        Some(Dtype::Float32)
    } else {
        None
    }
}

/// See [`dtype_of_alias`].
pub fn from_scalar_alias(name: &String) -> (r: Option<Dtype>)
    ensures
        r == dtype_of_alias(name@),
{
    proof { reveal(dtype_of_alias); }
    if same_text(name.as_str(), "Int8") {
        Some(Dtype::Int8)
    } else if same_text(name.as_str(), "Int16") {
        Some(Dtype::Int16)
    } else if same_text(name.as_str(), "Int32") {
        Some(Dtype::Int32)
    } else if same_text(name.as_str(), "Int64") {
        Some(Dtype::Int64)
    } else if same_text(name.as_str(), "UInt8") {
        Some(Dtype::UInt8)
    } else if same_text(name.as_str(), "UInt16") {
        Some(Dtype::UInt16)
    } else if same_text(name.as_str(), "UInt32") {
        Some(Dtype::UInt32)
    } else if same_text(name.as_str(), "UInt64") {
        Some(Dtype::UInt64)
    } else if same_text(name.as_str(), "Float32") {
        Some(Dtype::Float32)
    } else {
        None
    }
}

/// The element type of a name.
#[verifier::opaque]
pub open spec fn dtype_named(name: Seq<char>) -> Option<Dtype> {
    if name == "int8"@ {
        Some(Dtype::Int8)
    } else if name == "int16"@ {
        Some(Dtype::Int16)
    } else if name == "int32"@ {
        Some(Dtype::Int32)
    } else if name == "int64"@ {
        Some(Dtype::Int64)
    } else if name == "uint8"@ {
        Some(Dtype::UInt8)
    } else if name == "uint16"@ {
        Some(Dtype::UInt16)
    } else if name == "uint32"@ {
        Some(Dtype::UInt32)
    } else if name == "uint64"@ {
        Some(Dtype::UInt64)
    } else if name == "float32"@ {
        Some(Dtype::Float32)
    } else if name == "float64"@ {
        Some(Dtype::Float64)
    } else if name == "bool"@ {
        Some(Dtype::Bool)
    } else {
        None
    }
}

/// See [`dtype_named`].
pub fn dtype_from_name(name: &String) -> (r: Option<Dtype>)
    ensures
        r == dtype_named(name@),
{
    proof { reveal(dtype_named); }
    if same_text(name.as_str(), "int8") {
        Some(Dtype::Int8)
    } else if same_text(name.as_str(), "int16") {
        Some(Dtype::Int16)
    } else if same_text(name.as_str(), "int32") {
        Some(Dtype::Int32)
    } else if same_text(name.as_str(), "int64") {
        Some(Dtype::Int64)
    } else if same_text(name.as_str(), "uint8") {
        Some(Dtype::UInt8)
    } else if same_text(name.as_str(), "uint16") {
        Some(Dtype::UInt16)
    } else if same_text(name.as_str(), "uint32") {
        Some(Dtype::UInt32)
    } else if same_text(name.as_str(), "uint64") {
        Some(Dtype::UInt64)
    } else if same_text(name.as_str(), "float32") {
        Some(Dtype::Float32)
    } else if same_text(name.as_str(), "float64") {
        Some(Dtype::Float64)
    } else if same_text(name.as_str(), "bool") {
        Some(Dtype::Bool)
    } else {
        None
    }
}

#[verifier::opaque]
pub open spec fn dtype_is_float(dtype: Dtype) -> bool {
    (dtype matches Dtype::Float32) || (dtype matches Dtype::Float64)
}

/// See [`dtype_is_float`].
pub fn is_float_dtype(dtype: Dtype) -> (r: bool)
    ensures
        r == dtype_is_float(dtype),
{
    proof { reveal(dtype_is_float); }
    matches!(dtype, Dtype::Float32) || matches!(dtype, Dtype::Float64)
}

/// How many lanes there are.
#[verifier::opaque]
pub open spec fn lanes_counted(lanes: SimdLanesView) -> usize {
    match lanes {
        SimdLanesView::Int(v) => v.len() as usize,
        SimdLanesView::Float(v) => v.len() as usize,
        SimdLanesView::Bool(v) => v.len() as usize,
    }
}

/// See [`lanes_counted`].
pub fn simd_width(lanes: &SimdLanes) -> (r: usize)
    ensures
        r == lanes_counted(lanes@),
{
    proof { reveal(lanes_counted); }
    match lanes {
        SimdLanes::Int(v) => v.len(),
        SimdLanes::Float(v) => v.len(),
        SimdLanes::Bool(v) => v.len(),
    }
}

/// The name of the type of a value, for messages.
pub open spec fn type_shown(value: ValueView) -> Seq<char>
    decreases value, 0nat,
{
    match value {
        ValueView::Int(_) => "Int"@,
        ValueView::UInt(_) => "UInt"@,
        ValueView::Float64(_) => "Float64"@,
        ValueView::Bool(_) => "Bool"@,
        ValueView::Str(_) => "String"@,
        ValueView::NoneValue => "None"@,
        ValueView::Closure(_) => "closure"@,
        ValueView::Range { .. } => "range"@,
        ValueView::Struct { name, .. } => name,
        ValueView::Simd { dtype, lanes } => simd_type_shown(dtype, lanes),
        ValueView::Error(_) => "Error"@,
        ValueView::List(_) => "List"@,
        ValueView::Tuple(items) => "Tuple["@ + types_shown(items, 0, ""@, true) + "]"@,
    }
}

/// See [`type_shown`].
pub fn value_type_name(value: &Value) -> (r: String)
    ensures
        r@ == type_shown(value@),
    decreases value, 0nat,
{
    proof { unfold_value(*value); }
    match value {
        Value::Int(_) => "Int".to_owned(),
        Value::UInt(_) => "UInt".to_owned(),
        Value::Float64(_) => "Float64".to_owned(),
        Value::Bool(_) => "Bool".to_owned(),
        Value::Str(_) => "String".to_owned(),
        Value::NoneValue => "None".to_owned(),
        Value::Closure(_) => "closure".to_owned(),
        Value::Range { .. } => "range".to_owned(),
        Value::Struct { name, .. } => name.clone(),
        Value::Simd { dtype, lanes } => simd_type_name(*dtype, lanes),
        Value::Error(_) => "Error".to_owned(),
        Value::List(_) => "List".to_owned(),
        Value::Tuple(items) => cat3("Tuple[", type_names(items).as_str(), "]"),
    }
}

pub open spec fn types_shown(
    items: Seq<ValueView>,
    i: nat,
    out: Seq<char>,
    first: bool,
) -> Seq<char>
    decreases items, (items.len() - i) as nat,
{
    if i >= items.len() {
        out
    } else {
        let item = items[i as int];
        let out = if first {
            type_shown(item)
        } else {
            out + ", "@ + type_shown(item)
        };
        let first = false;
        types_shown(items, i + 1, out, first)
    }
}

/// See [`types_shown`].
pub fn type_names(items: &Vec<Value>) -> (r: String)
    ensures
        r@ == types_shown(value_list_view(items@), 0, ""@, true),
    decreases items@, 0nat,
{
    let mut out: String = "".to_owned();
    let mut first: bool = true;
    let ghost goal = types_shown(value_list_view(items@), 0, ""@, true);
    let mut i: usize = 0;
    while i < items.len()
        invariant
            i <= items@.len(),
            value_list_view(items@).len() == items@.len(),
            types_shown(value_list_view(items@), i as nat, out@, first) == goal,
            goal == types_shown(value_list_view(items@), 0, ""@, true),
        decreases items@.len() - i,
    {
        let item = &items[i];
        assert(value_list_view(items@)[i as int] == item@);
        out = if first {
            value_type_name(item)
        } else {
            cat3(out.as_str(), ", ", value_type_name(item).as_str())
        };
        first = false;
        i = i + 1;
    }
    out
}

#[verifier::opaque]
pub open spec fn simd_type_shown(dtype: Dtype, lanes: SimdLanesView) -> Seq<char> {
    let width = lanes_counted(lanes);
    if width == 1 {
        alias_of_dtype(dtype)
    } else {
        "SIMD[DType."@ + name_of_dtype(dtype) + ", "@ + decimal(width as nat) + "]"@
    }
}

/// See [`simd_type_shown`].
pub fn simd_type_name(dtype: Dtype, lanes: &SimdLanes) -> (r: String)
    ensures
        r@ == simd_type_shown(dtype, lanes@),
{
    proof { reveal(simd_type_shown); }
    let width: usize = simd_width(lanes);
    if width == 1 {
        scalar_alias(dtype)
    } else {
        cat5("SIMD[DType.", dtype_name(dtype).as_str(), ", ", show_usize(width).as_str(), "]")
    }
}

/// Whether two scalars of one type are equal. Others cannot be compared.
#[verifier::opaque]
pub open spec fn scalars_equal(
    a: ValueView,
    b: ValueView,
    known: Seq<KnownView>,
) -> Result<bool, EvalErrorView> {
    match a {
        ValueView::Int(x) => match b {
            ValueView::Int(y) => Ok(x == y),
            _ => Err(not_comparable(a, b)),
        },
        ValueView::UInt(x) => match b {
            ValueView::UInt(y) => Ok(x == y),
            _ => Err(not_comparable(a, b)),
        },
        ValueView::Float64(x) => match b {
            ValueView::Float64(y) => flag_asked(known, QuestionView::Binary(InfixOp::Eq, x, y)),
            _ => Err(not_comparable(a, b)),
        },
        ValueView::Bool(x) => match b {
            ValueView::Bool(y) => Ok(x == y),
            _ => Err(not_comparable(a, b)),
        },
        ValueView::Str(x) => match b {
            ValueView::Str(y) => Ok(x == y),
            _ => Err(not_comparable(a, b)),
        },
        ValueView::NoneValue => match b {
            ValueView::NoneValue => Ok(true),
            _ => Err(not_comparable(a, b)),
        },
        _ => Err(not_comparable(a, b)),
    }
}

/// See [`scalars_equal`].
pub fn values_equal(a: &Value, b: &Value, known: &Vec<Known>) -> (r: Result<bool, EvalError>)
    ensures
        (
            match r { Ok(v) => Ok(v), Err(v) => Err(v@) }
        ) == scalars_equal(a@, b@, known_list_view(known@)),
{
    proof { reveal(scalars_equal); }
    proof { unfold_value(*a); }
    match a {
        Value::Int(x) => {
            proof { unfold_value(*b); }
            match b {
                Value::Int(y) => Ok(*x == *y),
                _ => {
                    assert(!(b@ is Int));
                    Err(incomparable(a, b))
                },
            }
        },
        Value::UInt(x) => {
            proof { unfold_value(*b); }
            match b {
                Value::UInt(y) => Ok(*x == *y),
                _ => {
                    assert(!(b@ is UInt));
                    Err(incomparable(a, b))
                },
            }
        },
        Value::Float64(x) => {
            proof { unfold_value(*b); }
            match b {
                Value::Float64(y) => asked_flag(known, Question::Binary(InfixOp::Eq, *x, *y)),
                _ => {
                    assert(!(b@ is Float64));
                    Err(incomparable(a, b))
                },
            }
        },
        Value::Bool(x) => {
            proof { unfold_value(*b); }
            match b {
                Value::Bool(y) => Ok(*x == *y),
                _ => {
                    assert(!(b@ is Bool));
                    Err(incomparable(a, b))
                },
            }
        },
        Value::Str(x) => {
            proof { unfold_value(*b); }
            match b {
                Value::Str(y) => Ok(same_string(x, y)),
                _ => {
                    assert(!(b@ is Str));
                    Err(incomparable(a, b))
                },
            }
        },
        Value::NoneValue => {
            proof { unfold_value(*b); }
            match b {
                Value::NoneValue => Ok(true),
                _ => {
                    assert(!(b@ is NoneValue));
                    Err(incomparable(a, b))
                },
            }
        },
        _ => {
            assert(!(a@ is Int));
            assert(!(a@ is UInt));
            assert(!(a@ is Float64));
            assert(!(a@ is Bool));
            assert(!(a@ is Str));
            assert(!(a@ is NoneValue));
            Err(incomparable(a, b))
        },
    }
}

#[verifier::opaque]
pub open spec fn not_comparable(a: ValueView, b: ValueView) -> EvalErrorView {
    type_failure("cannot compare "@ + type_shown(a) + " and "@ + type_shown(b))
}

/// See [`not_comparable`].
pub fn incomparable(a: &Value, b: &Value) -> (r: EvalError)
    ensures
        r@ == not_comparable(a@, b@),
{
    proof { reveal(not_comparable); }
    failed_type(cat4("cannot compare ", value_type_name(a).as_str(), " and ", value_type_name(b).as_str()))
}

/// A value as a number, if it is one.
#[verifier::opaque]
pub open spec fn number_of(value: ValueView) -> Option<Num> {
    match value {
        ValueView::Int(n) => Some(Num::I(n)),
        ValueView::UInt(n) => Some(Num::U(n)),
        ValueView::Float64(bits) => Some(Num::F(bits)),
        _ => None,
    }
}

/// See [`number_of`].
pub fn as_num(value: &Value) -> (r: Option<Num>)
    ensures
        r == number_of(value@),
{
    proof { reveal(number_of); }
    proof { unfold_value(*value); }
    match value {
        Value::Int(n) => Some(Num::I(*n)),
        Value::UInt(n) => Some(Num::U(*n)),
        Value::Float64(bits) => Some(Num::F(*bits)),
        _ => {
            assert(!(value@ is Int));
            assert(!(value@ is UInt));
            assert(!(value@ is Float64));
            None
        },
    }
}

/// The kind of a number: operands of different kinds are taken to the higher one.
#[verifier::opaque]
pub open spec fn rank_of(n: Num) -> u8 {
    match n {
        Num::I(_) => 0u8,
        Num::U(_) => 1u8,
        Num::F(_) => 2u8,
    }
}

/// See [`rank_of`].
pub fn rank(n: Num) -> (r: u8)
    ensures
        r == rank_of(n),
{
    proof { reveal(rank_of); }
    match n {
        Num::I(_) => 0u8,
        Num::U(_) => 1u8,
        Num::F(_) => 2u8,
    }
}

#[verifier::opaque]
pub open spec fn higher_rank(a: Num, b: Num) -> u8 {
    if rank_of(a) >= rank_of(b) {
        rank_of(a)
    } else {
        rank_of(b)
    }
}

/// See [`higher_rank`].
pub fn common_rank(a: Num, b: Num) -> (r: u8)
    ensures
        r == higher_rank(a, b),
{
    proof { reveal(higher_rank); }
    if rank(a) >= rank(b) {
        rank(a)
    } else {
        rank(b)
    }
}

/// A number as one with sign.
#[verifier::opaque]
pub open spec fn number_as_int(n: Num, known: Seq<KnownView>) -> Result<i64, EvalErrorView> {
    match n {
        Num::I(n) => Ok(n),
        Num::U(n) => Ok(signed_of(n)),
        Num::F(bits) => int_asked(known, QuestionView::ToInt(bits)),
    }
}

/// See [`number_as_int`].
pub fn num_to_int(n: Num, known: &Vec<Known>) -> (r: Result<i64, EvalError>)
    ensures
        (
            match r { Ok(v) => Ok(v), Err(v) => Err(v@) }
        ) == number_as_int(n, known_list_view(known@)),
{
    proof { reveal(number_as_int); }
    match n {
        Num::I(n) => Ok(n),
        Num::U(n) => Ok(as_signed(n)),
        Num::F(bits) => asked_int(known, Question::ToInt(bits)),
    }
}

/// A number as one without sign.
#[verifier::opaque]
pub open spec fn number_as_uint(n: Num, known: Seq<KnownView>) -> Result<u64, EvalErrorView> {
    match n {
        Num::I(n) => Ok(unsigned_of(n)),
        Num::U(n) => Ok(n),
        Num::F(bits) => uint_asked(known, QuestionView::ToUInt(bits)),
    }
}

/// See [`number_as_uint`].
pub fn num_to_uint(n: Num, known: &Vec<Known>) -> (r: Result<u64, EvalError>)
    ensures
        (
            match r { Ok(v) => Ok(v), Err(v) => Err(v@) }
        ) == number_as_uint(n, known_list_view(known@)),
{
    proof { reveal(number_as_uint); }
    match n {
        Num::I(n) => Ok(as_unsigned(n)),
        Num::U(n) => Ok(n),
        Num::F(bits) => asked_uint(known, Question::ToUInt(bits)),
    }
}

/// A number as a float.
#[verifier::opaque]
pub open spec fn number_as_float(n: Num, known: Seq<KnownView>) -> Result<u64, EvalErrorView> {
    match n {
        Num::I(n) => bits_asked(known, QuestionView::FromInt(n)),
        Num::U(n) => bits_asked(known, QuestionView::FromUInt(n)),
        Num::F(bits) => Ok(bits),
    }
}

/// See [`number_as_float`].
pub fn num_to_float(n: Num, known: &Vec<Known>) -> (r: Result<u64, EvalError>)
    ensures
        (
            match r { Ok(v) => Ok(v), Err(v) => Err(v@) }
        ) == number_as_float(n, known_list_view(known@)),
{
    proof { reveal(number_as_float); }
    match n {
        Num::I(n) => asked_bits(known, Question::FromInt(n)),
        Num::U(n) => asked_bits(known, Question::FromUInt(n)),
        Num::F(bits) => Ok(bits),
    }
}

#[verifier::opaque]
pub open spec fn name_of_op(op: InfixOp) -> Seq<char> {
    match op {
        InfixOp::Add => "Add"@,
        InfixOp::Sub => "Sub"@,
        InfixOp::Mul => "Mul"@,
        InfixOp::Div => "Div"@,
        InfixOp::FloorDiv => "FloorDiv"@,
        InfixOp::Mod => "Mod"@,
        InfixOp::Pow => "Pow"@,
        InfixOp::Eq => "Eq"@,
        InfixOp::Ne => "Ne"@,
        InfixOp::Lt => "Lt"@,
        InfixOp::Gt => "Gt"@,
        InfixOp::Le => "Le"@,
        InfixOp::Ge => "Ge"@,
        InfixOp::And => "And"@,
        InfixOp::Or => "Or"@,
        InfixOp::In => "In"@,
        InfixOp::NotIn => "NotIn"@,
    }
}

/// See [`name_of_op`].
pub fn op_name(op: InfixOp) -> (r: String)
    ensures
        r@ == name_of_op(op),
{
    proof { reveal(name_of_op); }
    match op {
        InfixOp::Add => "Add".to_owned(),
        InfixOp::Sub => "Sub".to_owned(),
        InfixOp::Mul => "Mul".to_owned(),
        InfixOp::Div => "Div".to_owned(),
        InfixOp::FloorDiv => "FloorDiv".to_owned(),
        InfixOp::Mod => "Mod".to_owned(),
        InfixOp::Pow => "Pow".to_owned(),
        InfixOp::Eq => "Eq".to_owned(),
        InfixOp::Ne => "Ne".to_owned(),
        InfixOp::Lt => "Lt".to_owned(),
        InfixOp::Gt => "Gt".to_owned(),
        InfixOp::Le => "Le".to_owned(),
        InfixOp::Ge => "Ge".to_owned(),
        InfixOp::And => "And".to_owned(),
        InfixOp::Or => "Or".to_owned(),
        InfixOp::In => "In".to_owned(),
        InfixOp::NotIn => "NotIn".to_owned(),
    }
}

#[verifier::opaque]
pub open spec fn orders(op: InfixOp) -> bool {
    match op {
        InfixOp::Eq => true,
        InfixOp::Ne => true,
        InfixOp::Lt => true,
        InfixOp::Gt => true,
        InfixOp::Le => true,
        InfixOp::Ge => true,
        _ => false,
    }
}

/// See [`orders`].
pub fn is_ordering(op: InfixOp) -> (r: bool)
    ensures
        r == orders(op),
{
    proof { reveal(orders); }
    match op {
        InfixOp::Eq => true,
        InfixOp::Ne => true,
        InfixOp::Lt => true,
        InfixOp::Gt => true,
        InfixOp::Le => true,
        InfixOp::Ge => true,
        _ => false,
    }
}

#[verifier::opaque]
pub open spec fn overflowed() -> EvalErrorView {
    EvalErrorView::Overflow
}

/// See [`overflowed`].
pub fn overflow() -> (r: EvalError)
    ensures
        r@ == overflowed(),
{
    proof { reveal(overflowed); }
    EvalError::Overflow
}

#[verifier::opaque]
pub open spec fn zero_divisor() -> EvalErrorView {
    type_failure("integer division or modulo by zero"@)
}

/// See [`zero_divisor`].
pub fn divided_by_zero() -> (r: EvalError)
    ensures
        r@ == zero_divisor(),
{
    proof { reveal(zero_divisor); }
    failed_type("integer division or modulo by zero".to_owned())
}

#[verifier::opaque]
pub open spec fn int_if_fits(n: Option<i64>) -> Result<ValueView, EvalErrorView> {
    match n {
        Some(n) => Ok(ValueView::Int(n)),
        None => Err(overflowed()),
    }
}

/// See [`int_if_fits`].
pub fn in_int(n: Option<i64>) -> (r: Result<Value, EvalError>)
    ensures
        (match r { Ok(v) => Ok(v@), Err(v) => Err(v@) }) == int_if_fits(n),
{
    proof { reveal(int_if_fits); }
    match n {
        Some(n) => {
            let value = Value::Int(n);
            proof { unfold_value(value); }
            Ok(value)
        },
        None => Err(overflow()),
    }
}

#[verifier::opaque]
pub open spec fn uint_if_fits(n: Option<u64>) -> Result<ValueView, EvalErrorView> {
    match n {
        Some(n) => Ok(ValueView::UInt(n)),
        None => Err(overflowed()),
    }
}

/// See [`uint_if_fits`].
pub fn in_uint(n: Option<u64>) -> (r: Result<Value, EvalError>)
    ensures
        (match r { Ok(v) => Ok(v@), Err(v) => Err(v@) }) == uint_if_fits(n),
{
    proof { reveal(uint_if_fits); }
    match n {
        Some(n) => {
            let value = Value::UInt(n);
            proof { unfold_value(value); }
            Ok(value)
        },
        None => Err(overflow()),
    }
}

/// An exponent of `**`, which is not negative and has 32 bits.
#[verifier::opaque]
pub open spec fn exponent_of(y: i64) -> Result<u32, EvalErrorView> {
    if y >= 0 && y <= 4294967295 {
        Ok(y as u32)
    } else {
        Err(type_failure("'**' exponent must be a non-negative Int that fits in 32 bits"@))
    }
}

/// See [`exponent_of`].
pub fn pow_exp(y: i64) -> (r: Result<u32, EvalError>)
    ensures
        (match r { Ok(v) => Ok(v), Err(v) => Err(v@) }) == exponent_of(y),
{
    proof { reveal(exponent_of); }
    if y >= 0 && y <= 4294967295 {
        Ok(y as u32)
    } else {
        Err(failed_type("'**' exponent must be a non-negative Int that fits in 32 bits".to_owned()))
    }
}

/// An operator on two numbers with sign.
#[verifier::opaque]
pub open spec fn int_operator(op: InfixOp, x: i64, y: i64) -> Result<ValueView, EvalErrorView> {
    match op {
        InfixOp::Add => int_if_fits(fit(x + y)),
        InfixOp::Sub => int_if_fits(fit(x - y)),
        InfixOp::Mul => int_if_fits(fit(x * y)),
        InfixOp::FloorDiv => if y == 0 {
            Err(zero_divisor())
        } else {
            int_if_fits(fit(floor_quotient(x as int, y as int)))
        },
        InfixOp::Mod => if y == 0 {
            Err(zero_divisor())
        } else {
            Ok(ValueView::Int((floor_remainder(x as int, y as int) as i64)))
        },
        InfixOp::Pow => int_powered(x, y),
        _ => Ok(ValueView::Bool(comparison(op, x as i128 as int, y as i128 as int))),
    }
}

/// See [`int_operator`].
pub fn int_op(op: InfixOp, x: i64, y: i64) -> (r: Result<Value, EvalError>)
    ensures
        (match r { Ok(v) => Ok(v@), Err(v) => Err(v@) }) == int_operator(op, x, y),
{
    proof { reveal(int_operator); }
    match op {
        InfixOp::Add => in_int(checked_sum(x, y)),
        InfixOp::Sub => in_int(checked_difference(x, y)),
        InfixOp::Mul => in_int(checked_product(x, y)),
        InfixOp::FloorDiv => {
            if y == 0 {
                Err(divided_by_zero())
            } else {
                in_int(floor_div(x, y))
            }
        },
        InfixOp::Mod => {
            if y == 0 {
                Err(divided_by_zero())
            } else {
                let value = Value::Int(floor_mod(x, y));
                proof { unfold_value(value); }
                Ok(value)
            }
        },
        InfixOp::Pow => int_power(x, y),
        _ => {
            let value2 = Value::Bool(int_comparison(op, x as i128, y as i128));
            proof { unfold_value(value2); }
            Ok(value2)
        },
    }
}

#[verifier::opaque]
pub open spec fn int_powered(x: i64, y: i64) -> Result<ValueView, EvalErrorView> {
    match exponent_of(y) {
        Ok(out) => {
            let _ = out;
            int_if_fits(fit_power(x, y))
        },
        Err(error) => Err(error),
    }
}

/// See [`int_powered`].
pub fn int_power(x: i64, y: i64) -> (r: Result<Value, EvalError>)
    ensures
        (match r { Ok(v) => Ok(v@), Err(v) => Err(v@) }) == int_powered(x, y),
{
    proof { reveal(int_powered); }
    let _ = match pow_exp(y) {
        Ok(done) => done,
        Err(error) => {
            return Err(error);
        },
    };
    in_int(checked_power(x, y))
}

/// An operator on two numbers without sign.
#[verifier::opaque]
pub open spec fn uint_operator(op: InfixOp, x: u64, y: u64) -> Result<ValueView, EvalErrorView> {
    match op {
        InfixOp::Add => uint_if_fits(fit_unsigned(x + y)),
        InfixOp::Sub => uint_if_fits(fit_unsigned(x - y)),
        InfixOp::Mul => uint_if_fits(fit_unsigned(x * y)),
        InfixOp::FloorDiv => if y == 0 {
            Err(zero_divisor())
        } else {
            Ok(ValueView::UInt((x / y) as u64))
        },
        InfixOp::Mod => if y == 0 {
            Err(zero_divisor())
        } else {
            Ok(ValueView::UInt((x % y) as u64))
        },
        InfixOp::Pow => uint_powered(x, y),
        _ => Ok(ValueView::Bool(comparison(op, x as i128 as int, y as i128 as int))),
    }
}

/// See [`uint_operator`].
pub fn uint_op(op: InfixOp, x: u64, y: u64) -> (r: Result<Value, EvalError>)
    ensures
        (match r { Ok(v) => Ok(v@), Err(v) => Err(v@) }) == uint_operator(op, x, y),
{
    proof { reveal(uint_operator); }
    match op {
        InfixOp::Add => in_uint(unsigned_sum(x, y)),
        InfixOp::Sub => in_uint(unsigned_difference(x, y)),
        InfixOp::Mul => in_uint(unsigned_product(x, y)),
        InfixOp::FloorDiv => {
            if y == 0 {
                Err(divided_by_zero())
            } else {
                let value = Value::UInt(x / y);
                proof { unfold_value(value); }
                Ok(value)
            }
        },
        InfixOp::Mod => {
            if y == 0 {
                Err(divided_by_zero())
            } else {
                let value2 = Value::UInt(x % y);
                proof { unfold_value(value2); }
                Ok(value2)
            }
        },
        InfixOp::Pow => uint_power(x, y),
        _ => {
            let value3 = Value::Bool(int_comparison(op, x as i128, y as i128));
            proof { unfold_value(value3); }
            Ok(value3)
        },
    }
}

#[verifier::opaque]
pub open spec fn uint_powered(x: u64, y: u64) -> Result<ValueView, EvalErrorView> {
    match exponent_of(signed_of(y)) {
        Ok(out) => {
            let exponent = out;
            uint_if_fits(fit_unsigned(pow(x as int, exponent as nat)))
        },
        Err(error) => Err(error),
    }
}

/// See [`uint_powered`].
pub fn uint_power(x: u64, y: u64) -> (r: Result<Value, EvalError>)
    ensures
        (match r { Ok(v) => Ok(v@), Err(v) => Err(v@) }) == uint_powered(x, y),
{
    proof { reveal(uint_powered); }
    let exponent: u32 = match pow_exp(as_signed(y)) {
        Ok(done) => done,
        Err(error) => {
            return Err(error);
        },
    };
    in_uint(unsigned_power(x, exponent))
}

/// An operator on two floats.
#[verifier::opaque]
pub open spec fn float_operator(
    op: InfixOp,
    x: u64,
    y: u64,
    known: Seq<KnownView>,
) -> Result<ValueView, EvalErrorView> {
    if orders(op) {
        match flag_asked(known, QuestionView::Binary(op, x, y)) {
            Ok(out) => {
                let flag = out;
                Ok(ValueView::Bool(flag))
            },
            Err(error) => Err(error),
        }
    } else {
        match bits_asked(known, QuestionView::Binary(op, x, y)) {
            Ok(out) => {
                let bits = out;
                Ok(ValueView::Float64(bits))
            },
            Err(error) => Err(error),
        }
    }
}

/// See [`float_operator`].
pub fn float_op(
    op: InfixOp,
    x: u64,
    y: u64,
    known: &Vec<Known>,
) -> (r: Result<Value, EvalError>)
    ensures
        (
            match r { Ok(v) => Ok(v@), Err(v) => Err(v@) }
        ) == float_operator(op, x, y, known_list_view(known@)),
{
    proof { reveal(float_operator); }
    if is_ordering(op) {
        let flag = match asked_flag(known, Question::Binary(op, x, y)) {
            Ok(done) => done,
            Err(error) => {
                return Err(error);
            },
        };
        let value = Value::Bool(flag);
        proof { unfold_value(value); }
        Ok(value)
    } else {
        let bits: u64 = match asked_bits(known, Question::Binary(op, x, y)) {
            Ok(done) => done,
            Err(error) => {
                return Err(error);
            },
        };
        let value2 = Value::Float64(bits);
        proof { unfold_value(value2); }
        Ok(value2)
    }
}

/// An operator on two numbers, which are taken to a common kind first. True division is
/// one of floats.
#[verifier::opaque]
pub open spec fn number_operator(
    op: InfixOp,
    a: Num,
    b: Num,
    known: Seq<KnownView>,
) -> Result<ValueView, EvalErrorView> {
    if (op matches InfixOp::Div) || higher_rank(a, b) == 2 {
        match number_as_float(a, known) {
            Ok(out) => {
                let x = out;
                match number_as_float(b, known) {
                    Ok(out) => {
                        let y = out;
                        float_operator(op, x, y, known)
                    },
                    Err(error) => Err(error),
                }
            },
            Err(error) => Err(error),
        }
    } else if higher_rank(a, b) == 1 {
        match number_as_uint(a, known) {
            Ok(out) => {
                let x = out;
                match number_as_uint(b, known) {
                    Ok(out) => {
                        let y = out;
                        uint_operator(op, x, y)
                    },
                    Err(error) => Err(error),
                }
            },
            Err(error) => Err(error),
        }
    } else {
        match number_as_int(a, known) {
            Ok(out) => {
                let x = out;
                match number_as_int(b, known) {
                    Ok(out) => {
                        let y = out;
                        int_operator(op, x, y)
                    },
                    Err(error) => Err(error),
                }
            },
            Err(error) => Err(error),
        }
    }
}

/// See [`number_operator`].
pub fn numeric_op(
    op: InfixOp,
    a: Num,
    b: Num,
    known: &Vec<Known>,
) -> (r: Result<Value, EvalError>)
    ensures
        (
            match r { Ok(v) => Ok(v@), Err(v) => Err(v@) }
        ) == number_operator(op, a, b, known_list_view(known@)),
{
    proof { reveal(number_operator); }
    if matches!(op, InfixOp::Div) || common_rank(a, b) == 2 {
        let x: u64 = match num_to_float(a, known) {
            Ok(done) => done,
            Err(error) => {
                return Err(error);
            },
        };
        let y: u64 = match num_to_float(b, known) {
            Ok(done) => done,
            Err(error) => {
                return Err(error);
            },
        };
        float_op(op, x, y, known)
    } else if common_rank(a, b) == 1 {
        let x: u64 = match num_to_uint(a, known) {
            Ok(done) => done,
            Err(error) => {
                return Err(error);
            },
        };
        let y: u64 = match num_to_uint(b, known) {
            Ok(done) => done,
            Err(error) => {
                return Err(error);
            },
        };
        uint_op(op, x, y)
    } else {
        let x: i64 = match num_to_int(a, known) {
            Ok(done) => done,
            Err(error) => {
                return Err(error);
            },
        };
        let y: i64 = match num_to_int(b, known) {
            Ok(done) => done,
            Err(error) => {
                return Err(error);
            },
        };
        int_op(op, x, y)
    }
}

/// A strict operator on two values. `and` and `or` are none.
#[verifier::opaque]
pub open spec fn operator_on(
    op: InfixOp,
    left: ValueView,
    right: ValueView,
    known: Seq<KnownView>,
) -> Result<ValueView, EvalErrorView> {
    if (op matches InfixOp::In) || (op matches InfixOp::NotIn) {
        membership(op, left, right, known)
    } else if (left matches ValueView::Simd { .. }) || (right matches ValueView::Simd { .. }) {
        lane_operator(op, left, right, known)
    } else {
        operator_on_scalars(op, left, right, known)
    }
}

/// See [`operator_on`].
pub fn apply_infix(
    op: InfixOp,
    left: &Value,
    right: &Value,
    known: &Vec<Known>,
) -> (r: Result<Value, EvalError>)
    ensures
        (
            match r { Ok(v) => Ok(v@), Err(v) => Err(v@) }
        ) == operator_on(op, left@, right@, known_list_view(known@)),
{
    proof { reveal(operator_on); }
    if matches!(op, InfixOp::In) || matches!(op, InfixOp::NotIn) {
        eval_membership(op, left, right, known)
    } else if matches!(left, Value::Simd { .. }) || matches!(right, Value::Simd { .. }) {
        simd_binop(op, left, right, known)
    } else {
        scalar_infix(op, left, right, known)
    }
}

#[verifier::opaque]
pub open spec fn operator_on_scalars(
    op: InfixOp,
    left: ValueView,
    right: ValueView,
    known: Seq<KnownView>,
) -> Result<ValueView, EvalErrorView> {
    match left {
        ValueView::Str(a) => match right {
            ValueView::Str(b) => if (op matches InfixOp::Add) {
                Ok(ValueView::Str(a + b))
            } else {
                operator_on_plain(op, left, right, known)
            },
            _ => operator_on_plain(op, left, right, known),
        },
        _ => operator_on_plain(op, left, right, known),
    }
}

/// See [`operator_on_scalars`].
pub fn scalar_infix(
    op: InfixOp,
    left: &Value,
    right: &Value,
    known: &Vec<Known>,
) -> (r: Result<Value, EvalError>)
    ensures
        (
            match r { Ok(v) => Ok(v@), Err(v) => Err(v@) }
        ) == operator_on_scalars(op, left@, right@, known_list_view(known@)),
{
    proof { reveal(operator_on_scalars); }
    proof { unfold_value(*left); }
    match left {
        Value::Str(a) => {
            proof { unfold_value(*right); }
            match right {
                Value::Str(b) => {
                    if matches!(op, InfixOp::Add) {
                        let value = Value::Str(cat2(a.as_str(), b.as_str()));
                        proof { unfold_value(value); }
                        Ok(value)
                    } else {
                        plain_infix(op, left, right, known)
                    }
                },
                _ => {
                    assert(!(right@ is Str));
                    plain_infix(op, left, right, known)
                },
            }
        },
        _ => {
            assert(!(left@ is Str));
            plain_infix(op, left, right, known)
        },
    }
}

#[verifier::opaque]
pub open spec fn operator_on_plain(
    op: InfixOp,
    left: ValueView,
    right: ValueView,
    known: Seq<KnownView>,
) -> Result<ValueView, EvalErrorView> {
    match number_of(left) {
        Some(a) => match number_of(right) {
            Some(b) => number_operator(op, a, b, known),
            None => equality_of(op, left, right, known),
        },
        None => equality_of(op, left, right, known),
    }
}

/// See [`operator_on_plain`].
pub fn plain_infix(
    op: InfixOp,
    left: &Value,
    right: &Value,
    known: &Vec<Known>,
) -> (r: Result<Value, EvalError>)
    ensures
        (
            match r { Ok(v) => Ok(v@), Err(v) => Err(v@) }
        ) == operator_on_plain(op, left@, right@, known_list_view(known@)),
{
    proof { reveal(operator_on_plain); }
    match as_num(left) {
        Some(a) => {
            match as_num(right) {
                Some(b) => numeric_op(op, a, b, known),
                None => equality(op, left, right, known),
            }
        },
        None => equality(op, left, right, known),
    }
}

/// Equality of values that are not both numbers.
#[verifier::opaque]
pub open spec fn equality_of(
    op: InfixOp,
    left: ValueView,
    right: ValueView,
    known: Seq<KnownView>,
) -> Result<ValueView, EvalErrorView> {
    match op {
        InfixOp::Eq => match scalars_equal(left, right, known) {
            Ok(out) => {
                let found = out;
                Ok(ValueView::Bool(found))
            },
            Err(error) => Err(error),
        },
        InfixOp::Ne => match scalars_equal(left, right, known) {
            Ok(out) => {
                let found = out;
                Ok(ValueView::Bool(!found))
            },
            Err(error) => Err(error),
        },
        _ => Err(
            type_failure(
                "operator "@ + name_of_op(op) + " is not defined for "@ + type_shown(left) + " and "@ + type_shown(right)
            )
        ),
    }
}

/// See [`equality_of`].
pub fn equality(
    op: InfixOp,
    left: &Value,
    right: &Value,
    known: &Vec<Known>,
) -> (r: Result<Value, EvalError>)
    ensures
        (
            match r { Ok(v) => Ok(v@), Err(v) => Err(v@) }
        ) == equality_of(op, left@, right@, known_list_view(known@)),
{
    proof { reveal(equality_of); }
    match op {
        InfixOp::Eq => {
            let found = match values_equal(left, right, known) {
                Ok(done) => done,
                Err(error) => {
                    return Err(error);
                },
            };
            let value = Value::Bool(found);
            proof { unfold_value(value); }
            Ok(value)
        },
        InfixOp::Ne => {
            let found = match values_equal(left, right, known) {
                Ok(done) => done,
                Err(error) => {
                    return Err(error);
                },
            };
            let value2 = Value::Bool(!found);
            proof { unfold_value(value2); }
            Ok(value2)
        },
        _ => Err(
            failed_type(
                cat6(
                    "operator ",
                    op_name(op).as_str(),
                    " is not defined for ",
                    value_type_name(left).as_str(),
                    " and ",
                    value_type_name(right).as_str(),
                )
            )
        ),
    }
}

/// A value as a number without sign, where a number can be one by its bits.
#[verifier::opaque]
pub open spec fn uint_coerced(value: ValueView) -> ValueView {
    match value {
        ValueView::Int(n) => ValueView::UInt(unsigned_of(n)),
        other => other,
    }
}

/// See [`uint_coerced`].
pub fn to_uint(value: Value) -> (r: Value)
    ensures
        r@ == uint_coerced(value@),
{
    proof { reveal(uint_coerced); }
    proof { unfold_value(value); }
    match value {
        Value::Int(n) => {
            let value2 = Value::UInt(as_unsigned(n));
            proof { unfold_value(value2); }
            value2
        },
        other => other,
    }
}

#[verifier::opaque]
pub open spec fn float_coerced(
    value: ValueView,
    known: Seq<KnownView>,
) -> Result<ValueView, EvalErrorView> {
    match value {
        ValueView::Int(n) => match bits_asked(known, QuestionView::FromInt(n)) {
            Ok(out) => {
                let bits = out;
                Ok(ValueView::Float64(bits))
            },
            Err(error) => Err(error),
        },
        ValueView::UInt(n) => match bits_asked(known, QuestionView::FromUInt(n)) {
            Ok(out) => {
                let bits = out;
                Ok(ValueView::Float64(bits))
            },
            Err(error) => Err(error),
        },
        other => Ok(other),
    }
}

/// See [`float_coerced`].
pub fn to_float(value: Value, known: &Vec<Known>) -> (r: Result<Value, EvalError>)
    ensures
        (
            match r { Ok(v) => Ok(v@), Err(v) => Err(v@) }
        ) == float_coerced(value@, known_list_view(known@)),
{
    proof { reveal(float_coerced); }
    proof { unfold_value(value); }
    match value {
        Value::Int(n) => {
            let bits: u64 = match asked_bits(known, Question::FromInt(n)) {
                Ok(done) => done,
                Err(error) => {
                    return Err(error);
                },
            };
            let value2 = Value::Float64(bits);
            proof { unfold_value(value2); }
            Ok(value2)
        },
        Value::UInt(n) => {
            let bits: u64 = match asked_bits(known, Question::FromUInt(n)) {
                Ok(done) => done,
                Err(error) => {
                    return Err(error);
                },
            };
            let value3 = Value::Float64(bits);
            proof { unfold_value(value3); }
            Ok(value3)
        },
        other => Ok(other),
    }
}

/// A value at a place of a declared type: a number takes the type's kind, and so do the
/// elements of a tuple. Other values stay as they are.
pub open spec fn coerced(
    value: ValueView,
    ty: TypeView,
    known: Seq<KnownView>,
) -> Result<ValueView, EvalErrorView>
    decreases ty, 0nat,
{
    match ty {
        TypeView::UInt => Ok(uint_coerced(value)),
        TypeView::Float64 => float_coerced(value, known),
        TypeView::Named(name, args) => if name == "Tuple"@ {
            match value {
                ValueView::Tuple(items) => match front_coerced(
                    args,
                    items,
                    known,
                    0,
                    Seq::empty(),
                    0,
                ) {
                    Ok(out) => {
                        let made = out;
                        Ok(ValueView::Tuple(rest_kept(items, args.len() as usize, 0, made, 0)))
                    },
                    Err(error) => Err(error),
                },
                other => Ok(other),
            }
        } else {
            Ok(value)
        },
        _ => Ok(value),
    }
}

/// See [`coerced`].
pub fn coerce(value: Value, ty: &Type, known: &Vec<Known>) -> (r: Result<Value, EvalError>)
    ensures
        (
            match r { Ok(v) => Ok(v@), Err(v) => Err(v@) }
        ) == coerced(value@, ty@, known_list_view(known@)),
    decreases ty, 0nat,
{
    proof { unfold_type(*ty); }
    match ty {
        Type::UInt => Ok(to_uint(value)),
        Type::Float64 => to_float(value, known),
        Type::Named(name, args) => {
            if same_text(name.as_str(), "Tuple") {
                proof { unfold_value(value); }
                match value {
                    Value::Tuple(items) => {
                        let made = match coerce_front(args, &items, known) {
                            Ok(done) => done,
                            Err(error) => {
                                return Err(error);
                            },
                        };
                        let value2 = Value::Tuple(rest_after(&items, made, args.len()));
                        proof { unfold_value(value2); }
                        Ok(value2)
                    },
                    other => Ok(other),
                }
            } else {
                Ok(value)
            }
        },
        _ => {
            assert(!(ty@ is UInt));
            assert(!(ty@ is Float64));
            assert(!(ty@ is Named));
            Ok(value)
        },
    }
}

/// The elements of a tuple, each at its own type as far as there are types.
pub open spec fn front_coerced(
    args: Seq<ParamArgView>,
    items: Seq<ValueView>,
    known: Seq<KnownView>,
    i: nat,
    out: Seq<ValueView>,
    k: usize,
) -> Result<Seq<ValueView>, EvalErrorView>
    decreases args, (args.len() - i) as nat,
{
    if i >= args.len() {
        Ok(out)
    } else {
        let arg = args[i as int];
        if k >= items.len() {
            Ok(out)
        } else {
            let item = items[k as int];
            match arg_coerced(item, arg, known) {
                Ok(taken) => {
                    let made = taken;
                    let out = out.push(made);
                    let k = following_index(k);
                    front_coerced(args, items, known, i + 1, out, k)
                },
                Err(error) => Err(error),
            }
        }
    }
}

/// See [`front_coerced`].
pub fn coerce_front(
    args: &Vec<ParamArg>,
    items: &Vec<Value>,
    known: &Vec<Known>,
) -> (r: Result<Vec<Value>, EvalError>)
    ensures
        (match r { Ok(v) => Ok(value_list_view(v@)), Err(v) => Err(v@) }) == front_coerced(
            param_arg_list_view(args@),
            value_list_view(items@),
            known_list_view(known@),
            0,
            Seq::<ValueView>::empty(),
            0,
        ),
    decreases args@, 0nat,
{
    let mut out: Vec<Value> = Vec::new();
    assert(value_list_view(out@) =~= Seq::<ValueView>::empty());
    let mut k: usize = 0;
    let ghost goal = front_coerced(
        param_arg_list_view(args@),
        value_list_view(items@),
        known_list_view(known@),
        0,
        Seq::<ValueView>::empty(),
        0,
    );
    let mut i: usize = 0;
    while i < args.len()
        invariant
            i <= args@.len(),
            param_arg_list_view(args@).len() == args@.len(),
            front_coerced(
                param_arg_list_view(args@),
                value_list_view(items@),
                known_list_view(known@),
                i as nat,
                value_list_view(out@),
                k,
            ) == goal,
            goal == front_coerced(
                param_arg_list_view(args@),
                value_list_view(items@),
                known_list_view(known@),
                0,
                Seq::<ValueView>::empty(),
                0,
            ),
        decreases args@.len() - i,
    {
        let arg = &args[i];
        assert(param_arg_list_view(args@)[i as int] == arg@);
        if k >= items.len() {
            return Ok(out);
        }
        let item = clone_value((&items[k]));
        let made = match coerce_arg(item, arg, known) {
            Ok(done) => done,
            Err(error) => {
                return Err(error);
            },
        };
        let ghost before = value_list_view(out@);
        let ghost added = made@;
        out.push(made);
        assert(value_list_view(out@) =~= before.push(added));
        k = next_index(k);
        i = i + 1;
    }
    Ok(out)
}

pub open spec fn arg_coerced(
    value: ValueView,
    arg: ParamArgView,
    known: Seq<KnownView>,
) -> Result<ValueView, EvalErrorView>
    decreases arg, 0nat,
{
    match arg {
        ParamArgView::Type(ty) => coerced(value, ty, known),
        _ => Ok(value),
    }
}

/// See [`arg_coerced`].
pub fn coerce_arg(
    value: Value,
    arg: &ParamArg,
    known: &Vec<Known>,
) -> (r: Result<Value, EvalError>)
    ensures
        (
            match r { Ok(v) => Ok(v@), Err(v) => Err(v@) }
        ) == arg_coerced(value@, arg@, known_list_view(known@)),
    decreases arg, 0nat,
{
    match arg {
        ParamArg::Type(ty) => coerce(value, ty, known),
        _ => {
            assert(!(arg@ is Type));
            Ok(value)
        },
    }
}

pub open spec fn rest_kept(
    items: Seq<ValueView>,
    from: usize,
    i: nat,
    out: Seq<ValueView>,
    k: usize,
) -> Seq<ValueView>
    decreases items, (items.len() - i) as nat,
{
    if i >= items.len() {
        out
    } else {
        let item = items[i as int];
        let out = if k >= from {
            let out = out.push(item);
            out
        } else {
            out
        };
        let k = following_index(k);
        rest_kept(items, from, i + 1, out, k)
    }
}

/// See [`rest_kept`].
pub fn rest_after(items: &Vec<Value>, made: Vec<Value>, from: usize) -> (r: Vec<Value>)
    ensures
        value_list_view(r@) == rest_kept(
            value_list_view(items@),
            from,
            0,
            value_list_view(made@),
            0,
        ),
    decreases items@, 0nat,
{
    let mut out: Vec<Value> = made;
    let mut k: usize = 0;
    let ghost goal = rest_kept(value_list_view(items@), from, 0, value_list_view(made@), 0);
    let mut i: usize = 0;
    while i < items.len()
        invariant
            i <= items@.len(),
            value_list_view(items@).len() == items@.len(),
            rest_kept(value_list_view(items@), from, i as nat, value_list_view(out@), k) == goal,
            goal == rest_kept(value_list_view(items@), from, 0, value_list_view(made@), 0),
        decreases items@.len() - i,
    {
        let item = &items[i];
        assert(value_list_view(items@)[i as int] == item@);
        if k >= from {
            let item2 = clone_value(item);
            let ghost before = value_list_view(out@);
            let ghost added = item2@;
            out.push(item2);
            assert(value_list_view(out@) =~= before.push(added));
        }
        k = next_index(k);
        i = i + 1;
    }
    out
}

/// A value with the kind of number of one that was there before.
#[verifier::opaque]
pub open spec fn like_before(
    value: ValueView,
    existing: ValueView,
    known: Seq<KnownView>,
) -> Result<ValueView, EvalErrorView> {
    match existing {
        ValueView::UInt(_) => Ok(uint_coerced(value)),
        ValueView::Float64(_) => float_coerced(value, known),
        _ => Ok(value),
    }
}

/// See [`like_before`].
pub fn coerce_like(
    value: Value,
    existing: &Value,
    known: &Vec<Known>,
) -> (r: Result<Value, EvalError>)
    ensures
        (
            match r { Ok(v) => Ok(v@), Err(v) => Err(v@) }
        ) == like_before(value@, existing@, known_list_view(known@)),
{
    proof { reveal(like_before); }
    proof { unfold_value(*existing); }
    match existing {
        Value::UInt(_) => Ok(to_uint(value)),
        Value::Float64(_) => to_float(value, known),
        _ => {
            assert(!(existing@ is UInt));
            assert(!(existing@ is Float64));
            Ok(value)
        },
    }
}

/// A value with the kind of number of the first element of a list.
#[verifier::opaque]
pub open spec fn like_first(
    value: ValueView,
    items: Seq<ValueView>,
    known: Seq<KnownView>,
) -> Result<ValueView, EvalErrorView> {
    if items.len() > 0 {
        like_before(value, items[0], known)
    } else {
        Ok(value)
    }
}

/// See [`like_first`].
pub fn coerce_elem(
    value: &Value,
    items: &Vec<Value>,
    known: &Vec<Known>,
) -> (r: Result<Value, EvalError>)
    ensures
        (match r { Ok(v) => Ok(v@), Err(v) => Err(v@) }) == like_first(
            value@,
            value_list_view(items@),
            known_list_view(known@),
        ),
{
    proof { reveal(like_first); }
    if items.len() > 0 {
        coerce_like(clone_value(value), &items[0], known)
    } else {
        Ok(clone_value(value))
    }
}

/// An index that lies within a length.
#[verifier::opaque]
pub open spec fn index_within(
    idx: i64,
    len: usize,
    what: Seq<char>,
) -> Result<usize, EvalErrorView> {
    if idx >= 0 && (idx as u64) < len as u64 {
        Ok(idx as usize)
    } else {
        Err(type_failure(what + " index "@ + signed_decimal(idx as int) + " out of range 0.."@ + decimal(len as nat)))
    }
}

/// See [`index_within`].
pub fn bounds_check(idx: i64, len: usize, what: &str) -> (r: Result<usize, EvalError>)
    ensures
        (match r { Ok(v) => Ok(v), Err(v) => Err(v@) }) == index_within(idx, len, what@),
{
    proof { reveal(index_within); }
    if idx >= 0 && (idx as u64) < len as u64 {
        Ok(idx as usize)
    } else {
        Err(failed_type(cat5(what, " index ", show_i64(idx).as_str(), " out of range 0..", show_usize(len).as_str())))
    }
}

/// A value as an index.
#[verifier::opaque]
pub open spec fn index_of_value(value: ValueView) -> Result<i64, EvalErrorView> {
    match value {
        ValueView::Int(n) => Ok(n),
        _ => Err(type_failure("index must be Int, got "@ + type_shown(value))),
    }
}

/// See [`index_of_value`].
pub fn value_as_index(value: &Value) -> (r: Result<i64, EvalError>)
    ensures
        (match r { Ok(v) => Ok(v), Err(v) => Err(v@) }) == index_of_value(value@),
{
    proof { reveal(index_of_value); }
    proof { unfold_value(*value); }
    match value {
        Value::Int(n) => Ok(*n),
        _ => {
            assert(!(value@ is Int));
            Err(failed_type(cat2("index must be Int, got ", value_type_name(value).as_str())))
        },
    }
}

/// Whether a method changes a list.
#[verifier::opaque]
pub open spec fn changes_list(method: Seq<char>) -> bool {
    method == "append"@ || method == "insert"@ || method == "remove"@ || method == "pop"@ || method == "clear"@ || method == "reverse"@ || method == "extend"@
}

/// See [`changes_list`].
pub fn is_list_mutator(method: &String) -> (r: bool)
    ensures
        r == changes_list(method@),
{
    proof { reveal(changes_list); }
    same_text(method.as_str(), "append") || same_text(method.as_str(), "insert") || same_text(method.as_str(), "remove") || same_text(method.as_str(), "pop") || same_text(method.as_str(), "clear") || same_text(
        method.as_str(),
        "reverse",
    ) || same_text(method.as_str(), "extend")
}

/// Whether an element equals a value; one that cannot be compared does not.
#[verifier::opaque]
pub open spec fn elem_equal(
    item: ValueView,
    target: ValueView,
    known: Seq<KnownView>,
) -> Result<bool, EvalErrorView> {
    match scalars_equal(item, target, known) {
        Ok(found) => Ok(found),
        Err(error) => match error {
            EvalErrorView::Asked(question) => Err(EvalErrorView::Asked(question)),
            _ => Ok(false),
        },
    }
}

/// See [`elem_equal`].
pub fn equal_elem(
    item: &Value,
    target: &Value,
    known: &Vec<Known>,
) -> (r: Result<bool, EvalError>)
    ensures
        (
            match r { Ok(v) => Ok(v), Err(v) => Err(v@) }
        ) == elem_equal(item@, target@, known_list_view(known@)),
{
    proof { reveal(elem_equal); }
    match values_equal(item, target, known) {
        Ok(found) => Ok(found),
        Err(error) => {
            match error {
                EvalError::Asked(question) => Err(EvalError::Asked(question)),
                _ => {
                    assert(!(error@ is Asked));
                    Ok(false)
                },
            }
        },
    }
}

/// Where an element first stands in a list.
pub open spec fn first_position(
    items: Seq<ValueView>,
    target: ValueView,
    known: Seq<KnownView>,
    i: nat,
    k: usize,
) -> Result<Option<usize>, EvalErrorView>
    decreases items, (items.len() - i) as nat,
{
    if i >= items.len() {
        Ok(None)
    } else {
        let item = items[i as int];
        match elem_equal(item, target, known) {
            Ok(out) => {
                let found = out;
                if found {
                    Ok(Some(k))
                } else {
                    let k = following_index(k);
                    first_position(items, target, known, i + 1, k)
                }
            },
            Err(error) => Err(error),
        }
    }
}

/// See [`first_position`].
pub fn position_of(
    items: &Vec<Value>,
    target: &Value,
    known: &Vec<Known>,
) -> (r: Result<Option<usize>, EvalError>)
    ensures
        (match r { Ok(v) => Ok(v), Err(v) => Err(v@) }) == first_position(
            value_list_view(items@),
            target@,
            known_list_view(known@),
            0,
            0,
        ),
    decreases items@, 0nat,
{
    let mut k: usize = 0;
    let ghost goal = first_position(
        value_list_view(items@),
        target@,
        known_list_view(known@),
        0,
        0,
    );
    let mut i: usize = 0;
    while i < items.len()
        invariant
            i <= items@.len(),
            value_list_view(items@).len() == items@.len(),
            first_position(
                value_list_view(items@),
                target@,
                known_list_view(known@),
                i as nat,
                k,
            ) == goal,
            goal == first_position(value_list_view(items@), target@, known_list_view(known@), 0, 0),
        decreases items@.len() - i,
    {
        let item = &items[i];
        assert(value_list_view(items@)[i as int] == item@);
        let found = match equal_elem(item, target, known) {
            Ok(done) => done,
            Err(error) => {
                return Err(error);
            },
        };
        if found {
            return Ok(Some(k));
        }
        k = next_index(k);
        i = i + 1;
    }
    Ok(None)
}

/// How often an element stands in a list.
pub open spec fn times_found(
    items: Seq<ValueView>,
    target: ValueView,
    known: Seq<KnownView>,
    i: nat,
    n: usize,
) -> Result<usize, EvalErrorView>
    decreases items, (items.len() - i) as nat,
{
    if i >= items.len() {
        Ok(n)
    } else {
        let item = items[i as int];
        match elem_equal(item, target, known) {
            Ok(out) => {
                let found = out;
                if found {
                    let n = following_index(n);
                    times_found(items, target, known, i + 1, n)
                } else {
                    times_found(items, target, known, i + 1, n)
                }
            },
            Err(error) => Err(error),
        }
    }
}

/// See [`times_found`].
pub fn occurrences(
    items: &Vec<Value>,
    target: &Value,
    known: &Vec<Known>,
) -> (r: Result<usize, EvalError>)
    ensures
        (match r { Ok(v) => Ok(v), Err(v) => Err(v@) }) == times_found(
            value_list_view(items@),
            target@,
            known_list_view(known@),
            0,
            0,
        ),
    decreases items@, 0nat,
{
    let mut n: usize = 0;
    let ghost goal = times_found(value_list_view(items@), target@, known_list_view(known@), 0, 0);
    let mut i: usize = 0;
    while i < items.len()
        invariant
            i <= items@.len(),
            value_list_view(items@).len() == items@.len(),
            times_found(
                value_list_view(items@),
                target@,
                known_list_view(known@),
                i as nat,
                n,
            ) == goal,
            goal == times_found(value_list_view(items@), target@, known_list_view(known@), 0, 0),
        decreases items@.len() - i,
    {
        let item = &items[i];
        assert(value_list_view(items@)[i as int] == item@);
        let found = match equal_elem(item, target, known) {
            Ok(done) => done,
            Err(error) => {
                return Err(error);
            },
        };
        if found {
            n = next_index(n);
        }
        i = i + 1;
    }
    Ok(n)
}

/// A list without one of its elements.
pub open spec fn list_without(items: Seq<ValueView>, at: usize) -> Seq<ValueView> {
    if at < items.len() {
        items.remove(at as int)
    } else {
        items
    }
}

/// See [`list_without`].
pub fn without_at(items: &Vec<Value>, at: usize) -> (r: Vec<Value>)
    ensures
        value_list_view(r@) == list_without(value_list_view(items@), at),
{
    let mut r = clone_value_list(items);
    if at < r.len() {
        let ghost all = r@;
        r.remove(at);
        assert(value_list_view(r@) =~= value_list_view(all).remove(at as int));
    }
    r
}

/// A list with an element put before another, or at its end.
pub open spec fn list_with(items: Seq<ValueView>, at: usize, value: ValueView) -> Seq<ValueView> {
    if at < items.len() {
        items.insert(at as int, value)
    } else {
        items.push(value)
    }
}

/// See [`list_with`].
pub fn with_at(items: &Vec<Value>, at: usize, value: &Value) -> (r: Vec<Value>)
    ensures
        value_list_view(r@) == list_with(value_list_view(items@), at, value@),
{
    let mut r = clone_value_list(items);
    let ghost all = r@;
    if at < r.len() {
        r.insert(at, clone_value(value));
        assert(value_list_view(r@) =~= value_list_view(all).insert(at as int, value@));
    } else {
        r.push(clone_value(value));
        assert(value_list_view(r@) =~= value_list_view(all).push(value@));
    }
    r
}

#[verifier::opaque]
pub open spec fn list_and(items: Seq<ValueView>, value: ValueView) -> Seq<ValueView> {
    let out = items;
    let out = out.push(value);
    out
}

/// See [`list_and`].
pub fn with_last(items: Vec<Value>, value: &Value) -> (r: Vec<Value>)
    ensures
        value_list_view(r@) == list_and(value_list_view(items@), value@),
{
    proof { reveal(list_and); }
    let mut out = items;
    let item = clone_value(value);
    let ghost before = value_list_view(out@);
    let ghost added = item@;
    out.push(item);
    assert(value_list_view(out@) =~= before.push(added));
    out
}

/// A list with the elements of another behind its own, each with the kind of number of its
/// first.
pub open spec fn list_joined(
    more: Seq<ValueView>,
    items: Seq<ValueView>,
    known: Seq<KnownView>,
    i: nat,
    out: Seq<ValueView>,
) -> Result<Seq<ValueView>, EvalErrorView>
    decreases more, (more.len() - i) as nat,
{
    if i >= more.len() {
        Ok(out)
    } else {
        let item = more[i as int];
        match like_first(item, items, known) {
            Ok(taken) => {
                let value = taken;
                let out = out.push(value);
                list_joined(more, items, known, i + 1, out)
            },
            Err(error) => Err(error),
        }
    }
}

/// See [`list_joined`].
pub fn joined_values(
    more: &Vec<Value>,
    items: &Vec<Value>,
    known: &Vec<Known>,
) -> (r: Result<Vec<Value>, EvalError>)
    ensures
        (match r { Ok(v) => Ok(value_list_view(v@)), Err(v) => Err(v@) }) == list_joined(
            value_list_view(more@),
            value_list_view(items@),
            known_list_view(known@),
            0,
            value_list_view(items@),
        ),
    decreases more@, 0nat,
{
    let mut out: Vec<Value> = clone_value_list(items);
    let ghost goal = list_joined(
        value_list_view(more@),
        value_list_view(items@),
        known_list_view(known@),
        0,
        value_list_view(items@),
    );
    let mut i: usize = 0;
    while i < more.len()
        invariant
            i <= more@.len(),
            value_list_view(more@).len() == more@.len(),
            list_joined(
                value_list_view(more@),
                value_list_view(items@),
                known_list_view(known@),
                i as nat,
                value_list_view(out@),
            ) == goal,
            goal == list_joined(
                value_list_view(more@),
                value_list_view(items@),
                known_list_view(known@),
                0,
                value_list_view(items@),
            ),
        decreases more@.len() - i,
    {
        let item = &more[i];
        assert(value_list_view(more@)[i as int] == item@);
        let value = match coerce_elem(item, items, known) {
            Ok(done) => done,
            Err(error) => {
                return Err(error);
            },
        };
        let ghost before = value_list_view(out@);
        let ghost added = value@;
        out.push(value);
        assert(value_list_view(out@) =~= before.push(added));
        i = i + 1;
    }
    Ok(out)
}

/// A list backwards.
#[verifier::opaque]
pub open spec fn list_reversed(items: Seq<ValueView>) -> Seq<ValueView> {
    reversed_below(items, Seq::empty(), items.len() as usize)
}

/// See [`list_reversed`].
pub fn reversed(items: &Vec<Value>) -> (r: Vec<Value>)
    ensures
        value_list_view(r@) == list_reversed(value_list_view(items@)),
{
    proof { reveal(list_reversed); }
    let list: Vec<Value> = Vec::new();
    assert(value_list_view(list@) =~= Seq::<ValueView>::empty());
    reversed_from(items, list, items.len())
}

pub open spec fn reversed_below(
    items: Seq<ValueView>,
    found: Seq<ValueView>,
    n: usize,
) -> Seq<ValueView>
    decreases n as nat,
{
    if n > 0 && n <= items.len() {
        let made = list_and(found, items[(n - 1) as usize as int]);
        reversed_below(items, made, (n - 1) as usize)
    } else {
        found
    }
}

/// See [`reversed_below`].
pub fn reversed_from(items: &Vec<Value>, found: Vec<Value>, n: usize) -> (r: Vec<Value>)
    ensures
        value_list_view(r@) == reversed_below(value_list_view(items@), value_list_view(found@), n),
    decreases n as nat,
{
    if n > 0 && n <= items.len() {
        let made = with_last(found, &items[n - 1]);
        reversed_from(items, made, n - 1)
    } else {
        found
    }
}

#[verifier::opaque]
pub open spec fn argument_missing(method: Seq<char>) -> EvalErrorView {
    type_failure("List method '"@ + method + "' lacks an argument"@)
}

/// See [`argument_missing`].
pub fn no_argument(method: &String) -> (r: EvalError)
    ensures
        r@ == argument_missing(method@),
{
    proof { reveal(argument_missing); }
    failed_type(cat3("List method '", method.as_str(), "' lacks an argument"))
}

/// What a method that changes a list makes of it, with what it gives back.
#[verifier::opaque]
pub open spec fn list_method(
    items: Seq<ValueView>,
    method: Seq<char>,
    args: Seq<ValueView>,
    known: Seq<KnownView>,
) -> Result<(Seq<ValueView>, ValueView), EvalErrorView> {
    if method == "append"@ {
        list_appended(items, method, args, known)
    } else if method == "insert"@ {
        list_inserted(items, method, args, known)
    } else if method == "remove"@ {
        list_removed(items, method, args, known)
    } else if method == "pop"@ {
        list_popped(items, args)
    } else if method == "clear"@ {
        Ok((Seq::empty(), ValueView::NoneValue))
    } else if method == "reverse"@ {
        Ok((list_reversed(items), ValueView::NoneValue))
    } else if method == "extend"@ {
        list_extended(items, method, args, known)
    } else {
        match list_answer(items, method, args, known) {
            Ok(out) => {
                let found = out;
                Ok((items, found))
            },
            Err(error) => Err(error),
        }
    }
}

/// See [`list_method`].
pub fn apply_list_method(
    items: &Vec<Value>,
    method: &String,
    args: &Vec<Value>,
    known: &Vec<Known>,
) -> (r: Result<(Vec<Value>, Value), EvalError>)
    ensures
        (match r { Ok(v) => Ok((value_list_view(v.0@), v.1@)), Err(v) => Err(v@) }) == list_method(
            value_list_view(items@),
            method@,
            value_list_view(args@),
            known_list_view(known@),
        ),
{
    proof { reveal(list_method); }
    if same_text(method.as_str(), "append") {
        list_append(items, method, args, known)
    } else if same_text(method.as_str(), "insert") {
        list_insert(items, method, args, known)
    } else if same_text(method.as_str(), "remove") {
        list_remove(items, method, args, known)
    } else if same_text(method.as_str(), "pop") {
        list_pop(items, args)
    } else if same_text(method.as_str(), "clear") {
        let list: Vec<Value> = Vec::new();
        assert(value_list_view(list@) =~= Seq::<ValueView>::empty());
        Ok((list, Value::NoneValue))
    } else if same_text(method.as_str(), "reverse") {
        Ok((reversed(items), Value::NoneValue))
    } else if same_text(method.as_str(), "extend") {
        list_extend(items, method, args, known)
    } else {
        let found = match list_query(items, method, args, known) {
            Ok(done) => done,
            Err(error) => {
                return Err(error);
            },
        };
        Ok((clone_value_list(items), found))
    }
}

#[verifier::opaque]
pub open spec fn list_appended(
    items: Seq<ValueView>,
    method: Seq<char>,
    args: Seq<ValueView>,
    known: Seq<KnownView>,
) -> Result<(Seq<ValueView>, ValueView), EvalErrorView> {
    if args.len() < 1 {
        Err(argument_missing(method))
    } else {
        match like_first(args[0], items, known) {
            Ok(out) => {
                let value = out;
                Ok((list_and(items, value), ValueView::NoneValue))
            },
            Err(error) => Err(error),
        }
    }
}

/// See [`list_appended`].
pub fn list_append(
    items: &Vec<Value>,
    method: &String,
    args: &Vec<Value>,
    known: &Vec<Known>,
) -> (r: Result<(Vec<Value>, Value), EvalError>)
    ensures
        (
            match r { Ok(v) => Ok((value_list_view(v.0@), v.1@)), Err(v) => Err(v@) }
        ) == list_appended(
            value_list_view(items@),
            method@,
            value_list_view(args@),
            known_list_view(known@),
        ),
{
    proof { reveal(list_appended); }
    if args.len() < 1 {
        Err(no_argument(method))
    } else {
        let value = match coerce_elem(&args[0], items, known) {
            Ok(done) => done,
            Err(error) => {
                return Err(error);
            },
        };
        Ok((with_last(clone_value_list(items), &value), Value::NoneValue))
    }
}

#[verifier::opaque]
pub open spec fn list_inserted(
    items: Seq<ValueView>,
    method: Seq<char>,
    args: Seq<ValueView>,
    known: Seq<KnownView>,
) -> Result<(Seq<ValueView>, ValueView), EvalErrorView> {
    if args.len() < 2 {
        Err(argument_missing(method))
    } else {
        match index_of_value(args[0]) {
            Ok(out) => {
                let i = out;
                if i < 0 || (i as u64) > items.len() as u64 {
                    Err(
                        type_failure(
                            "insert index "@ + signed_decimal(i as int) + " out of range 0..="@ + decimal(
                                items.len() as usize as nat
                            )
                        )
                    )
                } else {
                    match like_first(args[1], items, known) {
                        Ok(out) => {
                            let value = out;
                            Ok((list_with(items, i as usize, value), ValueView::NoneValue))
                        },
                        Err(error) => Err(error),
                    }
                }
            },
            Err(error) => Err(error),
        }
    }
}

/// See [`list_inserted`].
pub fn list_insert(
    items: &Vec<Value>,
    method: &String,
    args: &Vec<Value>,
    known: &Vec<Known>,
) -> (r: Result<(Vec<Value>, Value), EvalError>)
    ensures
        (
            match r { Ok(v) => Ok((value_list_view(v.0@), v.1@)), Err(v) => Err(v@) }
        ) == list_inserted(
            value_list_view(items@),
            method@,
            value_list_view(args@),
            known_list_view(known@),
        ),
{
    proof { reveal(list_inserted); }
    if args.len() < 2 {
        Err(no_argument(method))
    } else {
        let i: i64 = match value_as_index(&args[0]) {
            Ok(done) => done,
            Err(error) => {
                return Err(error);
            },
        };
        if i < 0 || (i as u64) > items.len() as u64 {
            Err(
                failed_type(
                    cat4("insert index ", show_i64(i).as_str(), " out of range 0..=", show_usize(items.len()).as_str())
                )
            )
        } else {
            let value = match coerce_elem(&args[1], items, known) {
                Ok(done) => done,
                Err(error) => {
                    return Err(error);
                },
            };
            Ok((with_at(items, i as usize, &value), Value::NoneValue))
        }
    }
}

#[verifier::opaque]
pub open spec fn list_removed(
    items: Seq<ValueView>,
    method: Seq<char>,
    args: Seq<ValueView>,
    known: Seq<KnownView>,
) -> Result<(Seq<ValueView>, ValueView), EvalErrorView> {
    if args.len() < 1 {
        Err(argument_missing(method))
    } else {
        match like_first(args[0], items, known) {
            Ok(out) => {
                let target = out;
                match first_position(items, target, known, 0, 0) {
                    Ok(out) => {
                        let found = out;
                        match found {
                            Some(at) => Ok((list_without(items, at), ValueView::NoneValue)),
                            None => Err(type_failure("remove(x): x is not in the list"@)),
                        }
                    },
                    Err(error) => Err(error),
                }
            },
            Err(error) => Err(error),
        }
    }
}

/// See [`list_removed`].
pub fn list_remove(
    items: &Vec<Value>,
    method: &String,
    args: &Vec<Value>,
    known: &Vec<Known>,
) -> (r: Result<(Vec<Value>, Value), EvalError>)
    ensures
        (match r { Ok(v) => Ok((value_list_view(v.0@), v.1@)), Err(v) => Err(v@) }) == list_removed(
            value_list_view(items@),
            method@,
            value_list_view(args@),
            known_list_view(known@),
        ),
{
    proof { reveal(list_removed); }
    if args.len() < 1 {
        Err(no_argument(method))
    } else {
        let target = match coerce_elem(&args[0], items, known) {
            Ok(done) => done,
            Err(error) => {
                return Err(error);
            },
        };
        let found = match position_of(items, &target, known) {
            Ok(done) => done,
            Err(error) => {
                return Err(error);
            },
        };
        match found {
            Some(at) => Ok((without_at(items, at), Value::NoneValue)),
            None => Err(failed_type("remove(x): x is not in the list".to_owned())),
        }
    }
}

#[verifier::opaque]
pub open spec fn list_popped(
    items: Seq<ValueView>,
    args: Seq<ValueView>,
) -> Result<(Seq<ValueView>, ValueView), EvalErrorView> {
    if args.len() > 0 {
        match index_of_value(args[0]) {
            Ok(out) => {
                let idx = out;
                match index_within(idx, items.len() as usize, "list"@) {
                    Ok(out) => {
                        let at = out;
                        list_popped_at(items, at)
                    },
                    Err(error) => Err(error),
                }
            },
            Err(error) => Err(error),
        }
    } else if items.len() == 0 {
        Err(type_failure("pop() from an empty list"@))
    } else {
        list_popped_at(items, (items.len() - 1) as usize)
    }
}

/// See [`list_popped`].
pub fn list_pop(
    items: &Vec<Value>,
    args: &Vec<Value>,
) -> (r: Result<(Vec<Value>, Value), EvalError>)
    ensures
        (
            match r { Ok(v) => Ok((value_list_view(v.0@), v.1@)), Err(v) => Err(v@) }
        ) == list_popped(value_list_view(items@), value_list_view(args@)),
{
    proof { reveal(list_popped); }
    if args.len() > 0 {
        let idx: i64 = match value_as_index(&args[0]) {
            Ok(done) => done,
            Err(error) => {
                return Err(error);
            },
        };
        let at: usize = match bounds_check(idx, items.len(), "list") {
            Ok(done) => done,
            Err(error) => {
                return Err(error);
            },
        };
        popped_at(items, at)
    } else if items.len() == 0 {
        Err(failed_type("pop() from an empty list".to_owned()))
    } else {
        popped_at(items, items.len() - 1)
    }
}

#[verifier::opaque]
pub open spec fn list_popped_at(
    items: Seq<ValueView>,
    at: usize,
) -> Result<(Seq<ValueView>, ValueView), EvalErrorView> {
    if at < items.len() {
        let value = items[at as int];
        Ok((list_without(items, at), value))
    } else {
        Err(type_failure("pop() from an empty list"@))
    }
}

/// See [`list_popped_at`].
pub fn popped_at(items: &Vec<Value>, at: usize) -> (r: Result<(Vec<Value>, Value), EvalError>)
    ensures
        (
            match r { Ok(v) => Ok((value_list_view(v.0@), v.1@)), Err(v) => Err(v@) }
        ) == list_popped_at(value_list_view(items@), at),
{
    proof { reveal(list_popped_at); }
    if at < items.len() {
        let value = clone_value((&items[at]));
        Ok((without_at(items, at), value))
    } else {
        Err(failed_type("pop() from an empty list".to_owned()))
    }
}

#[verifier::opaque]
pub open spec fn list_extended(
    items: Seq<ValueView>,
    method: Seq<char>,
    args: Seq<ValueView>,
    known: Seq<KnownView>,
) -> Result<(Seq<ValueView>, ValueView), EvalErrorView> {
    if args.len() < 1 {
        Err(argument_missing(method))
    } else {
        match args[0] {
            ValueView::List(more) => match list_joined(more, items, known, 0, items) {
                Ok(out) => {
                    let joined = out;
                    Ok((joined, ValueView::NoneValue))
                },
                Err(error) => Err(error),
            },
            _ => Err(type_failure("extend() expects a List, got "@ + type_shown(args[0]))),
        }
    }
}

/// See [`list_extended`].
pub fn list_extend(
    items: &Vec<Value>,
    method: &String,
    args: &Vec<Value>,
    known: &Vec<Known>,
) -> (r: Result<(Vec<Value>, Value), EvalError>)
    ensures
        (
            match r { Ok(v) => Ok((value_list_view(v.0@), v.1@)), Err(v) => Err(v@) }
        ) == list_extended(
            value_list_view(items@),
            method@,
            value_list_view(args@),
            known_list_view(known@),
        ),
{
    proof { reveal(list_extended); }
    if args.len() < 1 {
        Err(no_argument(method))
    } else {
        proof { unfold_value(args[0]); }
        match &args[0] {
            Value::List(more) => {
                let joined = match joined_values(more, items, known) {
                    Ok(done) => done,
                    Err(error) => {
                        return Err(error);
                    },
                };
                Ok((joined, Value::NoneValue))
            },
            _ => {
                assert(!(args[0]@ is List));
                Err(failed_type(cat2("extend() expects a List, got ", value_type_name(&args[0]).as_str())))
            },
        }
    }
}

/// What a method that only looks at a list gives back.
#[verifier::opaque]
pub open spec fn list_answer(
    items: Seq<ValueView>,
    method: Seq<char>,
    args: Seq<ValueView>,
    known: Seq<KnownView>,
) -> Result<ValueView, EvalErrorView> {
    if method == "count"@ || method == "index"@ {
        if args.len() < 1 {
            Err(argument_missing(method))
        } else {
            match like_first(args[0], items, known) {
                Ok(out) => {
                    let target = out;
                    list_searched(items, method, target, known)
                },
                Err(error) => Err(error),
            }
        }
    } else {
        Err(type_failure("List has no method '"@ + method + "'"@))
    }
}

/// See [`list_answer`].
pub fn list_query(
    items: &Vec<Value>,
    method: &String,
    args: &Vec<Value>,
    known: &Vec<Known>,
) -> (r: Result<Value, EvalError>)
    ensures
        (match r { Ok(v) => Ok(v@), Err(v) => Err(v@) }) == list_answer(
            value_list_view(items@),
            method@,
            value_list_view(args@),
            known_list_view(known@),
        ),
{
    proof { reveal(list_answer); }
    if same_text(method.as_str(), "count") || same_text(method.as_str(), "index") {
        if args.len() < 1 {
            Err(no_argument(method))
        } else {
            let target = match coerce_elem(&args[0], items, known) {
                Ok(done) => done,
                Err(error) => {
                    return Err(error);
                },
            };
            list_search(items, method, &target, known)
        }
    } else {
        Err(failed_type(cat3("List has no method '", method.as_str(), "'")))
    }
}

#[verifier::opaque]
pub open spec fn list_searched(
    items: Seq<ValueView>,
    method: Seq<char>,
    target: ValueView,
    known: Seq<KnownView>,
) -> Result<ValueView, EvalErrorView> {
    if method == "count"@ {
        match times_found(items, target, known, 0, 0) {
            Ok(out) => {
                let n = out;
                Ok(value_of_size(n))
            },
            Err(error) => Err(error),
        }
    } else {
        match first_position(items, target, known, 0, 0) {
            Ok(out) => {
                let found = out;
                match found {
                    Some(at) => Ok(value_of_size(at)),
                    None => Err(type_failure("index(x): x is not in the list"@)),
                }
            },
            Err(error) => Err(error),
        }
    }
}

/// See [`list_searched`].
pub fn list_search(
    items: &Vec<Value>,
    method: &String,
    target: &Value,
    known: &Vec<Known>,
) -> (r: Result<Value, EvalError>)
    ensures
        (match r { Ok(v) => Ok(v@), Err(v) => Err(v@) }) == list_searched(
            value_list_view(items@),
            method@,
            target@,
            known_list_view(known@),
        ),
{
    proof { reveal(list_searched); }
    if same_text(method.as_str(), "count") {
        let n: usize = match occurrences(items, target, known) {
            Ok(done) => done,
            Err(error) => {
                return Err(error);
            },
        };
        Ok(size_value(n))
    } else {
        let found = match position_of(items, target, known) {
            Ok(done) => done,
            Err(error) => {
                return Err(error);
            },
        };
        match found {
            Some(at) => Ok(size_value(at)),
            None => Err(failed_type("index(x): x is not in the list".to_owned())),
        }
    }
}

/// A size as a value.
#[verifier::opaque]
pub open spec fn value_of_size(n: usize) -> ValueView {
    ValueView::Int(signed_of(n as u64))
}

/// See [`value_of_size`].
pub fn size_value(n: usize) -> (r: Value)
    ensures
        r@ == value_of_size(n),
{
    proof { reveal(value_of_size); }
    let value = Value::Int(as_signed(n as u64));
    proof { unfold_value(value); }
    value
}

/// Whether a value is in a list or a text in another.
#[verifier::opaque]
pub open spec fn membership(
    op: InfixOp,
    left: ValueView,
    right: ValueView,
    known: Seq<KnownView>,
) -> Result<ValueView, EvalErrorView> {
    match member_of(left, right, known) {
        Ok(out) => {
            let found = out;
            if (op matches InfixOp::NotIn) {
                Ok(ValueView::Bool(!found))
            } else {
                Ok(ValueView::Bool(found))
            }
        },
        Err(error) => Err(error),
    }
}

/// See [`membership`].
pub fn eval_membership(
    op: InfixOp,
    left: &Value,
    right: &Value,
    known: &Vec<Known>,
) -> (r: Result<Value, EvalError>)
    ensures
        (
            match r { Ok(v) => Ok(v@), Err(v) => Err(v@) }
        ) == membership(op, left@, right@, known_list_view(known@)),
{
    proof { reveal(membership); }
    let found = match is_member_of(left, right, known) {
        Ok(done) => done,
        Err(error) => {
            return Err(error);
        },
    };
    if matches!(op, InfixOp::NotIn) {
        let value = Value::Bool(!found);
        proof { unfold_value(value); }
        Ok(value)
    } else {
        let value2 = Value::Bool(found);
        proof { unfold_value(value2); }
        Ok(value2)
    }
}

#[verifier::opaque]
pub open spec fn member_of(
    left: ValueView,
    right: ValueView,
    known: Seq<KnownView>,
) -> Result<bool, EvalErrorView> {
    match right {
        ValueView::List(items) => match like_first(left, items, known) {
            Ok(out) => {
                let target = out;
                match first_position(items, target, known, 0, 0) {
                    Ok(out) => {
                        let at = out;
                        Ok(at is Some)
                    },
                    Err(error) => Err(error),
                }
            },
            Err(error) => Err(error),
        },
        ValueView::Str(text) => match left {
            ValueView::Str(part) => Ok(occurs(text, part)),
            _ => Err(type_failure("left operand of 'in' on a String must be a String, got "@ + type_shown(left))),
        },
        _ => Err(type_failure("'in' requires a List or String, got "@ + type_shown(right))),
    }
}

/// See [`member_of`].
pub fn is_member_of(
    left: &Value,
    right: &Value,
    known: &Vec<Known>,
) -> (r: Result<bool, EvalError>)
    ensures
        (
            match r { Ok(v) => Ok(v), Err(v) => Err(v@) }
        ) == member_of(left@, right@, known_list_view(known@)),
{
    proof { reveal(member_of); }
    proof { unfold_value(*right); }
    match right {
        Value::List(items) => {
            let target = match coerce_elem(left, items, known) {
                Ok(done) => done,
                Err(error) => {
                    return Err(error);
                },
            };
            let at = match position_of(items, &target, known) {
                Ok(done) => done,
                Err(error) => {
                    return Err(error);
                },
            };
            Ok(at.is_some())
        },
        Value::Str(text) => {
            proof { unfold_value(*left); }
            match left {
                Value::Str(part) => Ok(contains_text(text, part)),
                _ => {
                    assert(!(left@ is Str));
                    Err(
                        failed_type(
                            cat2(
                                "left operand of 'in' on a String must be a String, got ",
                                value_type_name(left).as_str(),
                            )
                        )
                    )
                },
            }
        },
        _ => {
            assert(!(right@ is List));
            assert(!(right@ is Str));
            Err(failed_type(cat2("'in' requires a List or String, got ", value_type_name(right).as_str())))
        },
    }
}

/// The highest kind of the numbers of a list, if it has only numbers.
pub open spec fn rank_of_all(items: Seq<ValueView>, i: nat, out: u8) -> Option<u8>
    decreases items, (items.len() - i) as nat,
{
    if i >= items.len() {
        if items.len() > 0 {
            Some(out)
        } else {
            None
        }
    } else {
        let item = items[i as int];
        match number_of(item) {
            Some(n) => if rank_of(n) > out {
                let out = rank_of(n);
                rank_of_all(items, i + 1, out)
            } else {
                rank_of_all(items, i + 1, out)
            },
            None => None,
        }
    }
}

/// See [`rank_of_all`].
pub fn highest_rank(items: &Vec<Value>) -> (r: Option<u8>)
    ensures
        r == rank_of_all(value_list_view(items@), 0, 0u8),
    decreases items@, 0nat,
{
    let mut out: u8 = 0u8;
    let ghost goal = rank_of_all(value_list_view(items@), 0, 0u8);
    let mut i: usize = 0;
    while i < items.len()
        invariant
            i <= items@.len(),
            value_list_view(items@).len() == items@.len(),
            rank_of_all(value_list_view(items@), i as nat, out) == goal,
            goal == rank_of_all(value_list_view(items@), 0, 0u8),
        decreases items@.len() - i,
    {
        let item = &items[i];
        assert(value_list_view(items@)[i as int] == item@);
        match as_num(item) {
            Some(n) => {
                if rank(n) > out {
                    out = rank(n);
                }
            },
            None => {
                return None;
            },
        }
        i = i + 1;
    }
    if items.len() > 0 {
        Some(out)
    } else {
        None
    }
}

#[verifier::opaque]
pub open spec fn promoted_value(
    item: ValueView,
    rank: u8,
    known: Seq<KnownView>,
) -> Result<ValueView, EvalErrorView> {
    match number_of(item) {
        Some(n) => if rank == 2 {
            match number_as_float(n, known) {
                Ok(out) => {
                    let bits = out;
                    Ok(ValueView::Float64(bits))
                },
                Err(error) => Err(error),
            }
        } else if rank == 1 {
            match number_as_uint(n, known) {
                Ok(out) => {
                    let n = out;
                    Ok(ValueView::UInt(n))
                },
                Err(error) => Err(error),
            }
        } else {
            Ok(item)
        },
        None => Ok(item),
    }
}

/// See [`promoted_value`].
pub fn promoted(item: &Value, rank: u8, known: &Vec<Known>) -> (r: Result<Value, EvalError>)
    ensures
        (
            match r { Ok(v) => Ok(v@), Err(v) => Err(v@) }
        ) == promoted_value(item@, rank, known_list_view(known@)),
{
    proof { reveal(promoted_value); }
    match as_num(item) {
        Some(n) => {
            if rank == 2 {
                let bits: u64 = match num_to_float(n, known) {
                    Ok(done) => done,
                    Err(error) => {
                        return Err(error);
                    },
                };
                let value = Value::Float64(bits);
                proof { unfold_value(value); }
                Ok(value)
            } else if rank == 1 {
                let n: u64 = match num_to_uint(n, known) {
                    Ok(done) => done,
                    Err(error) => {
                        return Err(error);
                    },
                };
                let value2 = Value::UInt(n);
                proof { unfold_value(value2); }
                Ok(value2)
            } else {
                Ok(clone_value(item))
            }
        },
        None => Ok(clone_value(item)),
    }
}

pub open spec fn promoted_values(
    items: Seq<ValueView>,
    rank: u8,
    known: Seq<KnownView>,
    i: nat,
    out: Seq<ValueView>,
) -> Result<Seq<ValueView>, EvalErrorView>
    decreases items, (items.len() - i) as nat,
{
    if i >= items.len() {
        Ok(out)
    } else {
        let item = items[i as int];
        match promoted_value(item, rank, known) {
            Ok(taken) => {
                let made = taken;
                let out = out.push(made);
                promoted_values(items, rank, known, i + 1, out)
            },
            Err(error) => Err(error),
        }
    }
}

/// See [`promoted_values`].
pub fn promote_all(
    items: &Vec<Value>,
    rank: u8,
    known: &Vec<Known>,
) -> (r: Result<Vec<Value>, EvalError>)
    ensures
        (match r { Ok(v) => Ok(value_list_view(v@)), Err(v) => Err(v@) }) == promoted_values(
            value_list_view(items@),
            rank,
            known_list_view(known@),
            0,
            Seq::<ValueView>::empty(),
        ),
    decreases items@, 0nat,
{
    let mut out: Vec<Value> = Vec::new();
    assert(value_list_view(out@) =~= Seq::<ValueView>::empty());
    let ghost goal = promoted_values(
        value_list_view(items@),
        rank,
        known_list_view(known@),
        0,
        Seq::<ValueView>::empty(),
    );
    let mut i: usize = 0;
    while i < items.len()
        invariant
            i <= items@.len(),
            value_list_view(items@).len() == items@.len(),
            promoted_values(
                value_list_view(items@),
                rank,
                known_list_view(known@),
                i as nat,
                value_list_view(out@),
            ) == goal,
            goal == promoted_values(
                value_list_view(items@),
                rank,
                known_list_view(known@),
                0,
                Seq::<ValueView>::empty(),
            ),
        decreases items@.len() - i,
    {
        let item = &items[i];
        assert(value_list_view(items@)[i as int] == item@);
        let made = match promoted(item, rank, known) {
            Ok(done) => done,
            Err(error) => {
                return Err(error);
            },
        };
        let ghost before = value_list_view(out@);
        let ghost added = made@;
        out.push(made);
        assert(value_list_view(out@) =~= before.push(added));
        i = i + 1;
    }
    Ok(out)
}

/// Numbers of a list taken to a common kind. A list with anything else stays as it is.
#[verifier::opaque]
pub open spec fn promoted_numbers(
    items: Seq<ValueView>,
    known: Seq<KnownView>,
) -> Result<Seq<ValueView>, EvalErrorView> {
    match rank_of_all(items, 0, 0u8) {
        Some(rank) => promoted_values(items, rank, known, 0, Seq::empty()),
        None => Ok(items),
    }
}

/// See [`promoted_numbers`].
pub fn promote_numeric_elems(
    items: &Vec<Value>,
    known: &Vec<Known>,
) -> (r: Result<Vec<Value>, EvalError>)
    ensures
        (
            match r { Ok(v) => Ok(value_list_view(v@)), Err(v) => Err(v@) }
        ) == promoted_numbers(value_list_view(items@), known_list_view(known@)),
{
    proof { reveal(promoted_numbers); }
    match highest_rank(items) {
        Some(rank) => promote_all(items, rank, known),
        None => Ok(clone_value_list(items)),
    }
}

} // verus!
