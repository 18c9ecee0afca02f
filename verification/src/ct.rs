//! Compile-time values: evaluation of dependent expressions, and literal forms.

use crate::ast::{expr_list_view, Expr, ExprKind, ExprKindView, ExprView};
use crate::text::same_string;
use crate::token::Span;
pub use crate::types::{CtExpr, CtValue};
use crate::types::{
    binding_list_view, ct_value_list_view, CtExprView, CtValueView,
};
use vstd::arithmetic::power::pow;
use vstd::prelude::*;

verus! {

/// `i64::checked_pow` gives the power when it fits in 64 bits, and nothing
/// otherwise.
pub assume_specification[ i64::checked_pow ](base: i64, exp: u32) -> (r: std::option::Option<i64>)
    ensures
        r == (if i64::MIN <= pow(base as int, exp as nat) <= i64::MAX {
            std::option::Option::Some(pow(base as int, exp as nat) as i64)
        } else {
            std::option::Option::None
        }),
;

/// A table of named compile-time values. A later entry hides an earlier one of
/// the same name.
#[derive(Debug)]
pub struct Bindings {
    pub entries: Vec<(String, CtValue)>,
}

pub type BindingsView = Seq<(Seq<char>, CtValueView)>;

/// The value a name is bound to.
pub open spec fn bound(entries: BindingsView, name: Seq<char>) -> Option<CtValueView>
    decreases entries.len(),
{
    if entries.len() == 0 {
        None
    } else if entries.last().0 == name {
        Some(entries.last().1)
    } else {
        bound(entries.drop_last(), name)
    }
}

/// The entries without those of a name.
pub open spec fn unbound(entries: BindingsView, name: Seq<char>) -> BindingsView
    decreases entries.len(),
{
    if entries.len() == 0 {
        Seq::empty()
    } else if entries.last().0 == name {
        unbound(entries.drop_last(), name)
    } else {
        unbound(entries.drop_last(), name).push(entries.last())
    }
}

/// Removing a name leaves every other name as it was.
pub proof fn unbound_hides_one_name(entries: BindingsView, name: Seq<char>, other: Seq<char>)
    ensures
        bound(unbound(entries, name), other) == (if other == name {
            None
        } else {
            bound(entries, other)
        }),
    decreases entries.len(),
{
    if entries.len() > 0 {
        unbound_hides_one_name(entries.drop_last(), name, other);
        let rest = unbound(entries.drop_last(), name);
        assert(rest.push(entries.last()).drop_last() =~= rest);
    }
}

impl View for Bindings {
    type V = BindingsView;

    open spec fn view(&self) -> BindingsView {
        binding_list_view(self.entries@)
    }
}

impl Clone for Bindings {
    fn clone(&self) -> (r: Self)
        ensures
            r@ == self@,
    {
        Bindings { entries: crate::types::clone_binding_list(&self.entries) }
    }
}

impl Bindings {
    pub fn new() -> (r: Bindings)
        ensures
            r@ == Seq::<(Seq<char>, CtValueView)>::empty(),
    {
        let r = Bindings { entries: Vec::new() };
        assert(r@ =~= Seq::<(Seq<char>, CtValueView)>::empty());
        r
    }

    /// Bind `name`, hiding what it was bound to before.
    pub fn insert(&mut self, name: String, value: CtValue)
        ensures
            final(self)@ == old(self)@.push((name@, value@)),
    {
        self.entries.push((name, value));
        assert(self@ =~= old(self)@.push((name@, value@)));
    }

    /// The value `name` is bound to.
    pub fn get(&self, name: &String) -> (r: Option<&CtValue>)
        ensures
            match r {
                Some(v) => bound(self@, name@) == Some(v@),
                None => bound(self@, name@) is None,
            },
    {
        let mut i: usize = self.entries.len();
        assert(self@.take(i as int) =~= self@);
        while i > 0
            invariant
                i <= self.entries@.len(),
                bound(self@, name@) == bound(self@.take(i as int), name@),
            decreases i,
        {
            assert(self@.take(i as int).last() == self@[i - 1]);
            assert(self@.take(i as int).drop_last() =~= self@.take(i - 1));
            i = i - 1;
            if same_string(&self.entries[i].0, name) {
                return Some(&self.entries[i].1);
            }
        }
        None
    }

    /// Drop every entry of `name`.
    pub fn remove(&mut self, name: &String)
        ensures
            final(self)@ == unbound(old(self)@, name@),
    {
        let mut kept: Vec<(String, CtValue)> = Vec::new();
        assert(binding_list_view(kept@) =~= Seq::<(Seq<char>, CtValueView)>::empty());
        for i in 0..self.entries.len()
            invariant
                binding_list_view(kept@) == unbound(self@.take(i as int), name@),
        {
            assert(self@.take(i + 1).last() == self@[i as int]);
            assert(self@.take(i + 1).drop_last() =~= self@.take(i as int));
            if !same_string(&self.entries[i].0, name) {
                let ghost before = binding_list_view(kept@);
                kept.push((self.entries[i].0.clone(), self.entries[i].1.clone()));
                assert(binding_list_view(kept@) =~= before.push(self@[i as int]));
            }
        }
        assert(self@.take(self@.len() as int) =~= self@);
        self.entries = kept;
    }
}

/// The integer a binary operation of a dependent expression gives.
pub open spec fn int_result(v: int) -> Option<CtValueView> {
    if i64::MIN <= v <= i64::MAX {
        Some(CtValueView::Int(v as i64))
    } else {
        None
    }
}

/// The value of a dependent expression. Addition joins strings; division and
/// remainder are Euclidean.
pub open spec fn ct_eval(e: CtExprView, params: BindingsView) -> Option<CtValueView>
    decreases e,
{
    match e {
        CtExprView::Value(v) => Some(v),
        CtExprView::Param(name) => bound(params, name),
        CtExprView::Neg(inner) => match ct_eval(*inner, params) {
            Some(CtValueView::Int(n)) => int_result(-n),
            _ => None,
        },
        CtExprView::Add(l, r) => match (ct_eval(*l, params), ct_eval(*r, params)) {
            (Some(CtValueView::Int(a)), Some(CtValueView::Int(b))) => int_result(a + b),
            (Some(CtValueView::Str(a)), Some(CtValueView::Str(b))) => Some(CtValueView::Str(a + b)),
            _ => None,
        },
        CtExprView::Sub(l, r) => match (ct_eval(*l, params), ct_eval(*r, params)) {
            (Some(CtValueView::Int(a)), Some(CtValueView::Int(b))) => int_result(a - b),
            _ => None,
        },
        CtExprView::Mul(l, r) => match (ct_eval(*l, params), ct_eval(*r, params)) {
            (Some(CtValueView::Int(a)), Some(CtValueView::Int(b))) => int_result(a * b),
            _ => None,
        },
        CtExprView::FloorDiv(l, r) => match (ct_eval(*l, params), ct_eval(*r, params)) {
            (Some(CtValueView::Int(a)), Some(CtValueView::Int(b))) => if b == 0 {
                None
            } else {
                int_result(a as int / b as int)
            },
            _ => None,
        },
        CtExprView::Mod(l, r) => match (ct_eval(*l, params), ct_eval(*r, params)) {
            (Some(CtValueView::Int(a)), Some(CtValueView::Int(b))) => if b == 0 || (a == i64::MIN
                && b == -1) {
                None
            } else {
                int_result(a as int % b as int)
            },
            _ => None,
        },
        CtExprView::Pow(l, r) => match (ct_eval(*l, params), ct_eval(*r, params)) {
            (Some(CtValueView::Int(a)), Some(CtValueView::Int(b))) => if 0 <= b <= u32::MAX {
                int_result(pow(a as int, b as nat))
            } else {
                None
            },
            _ => None,
        },
    }
}

/// Whether no negation and no integer addition in an expression leaves 64 bits.
pub open spec fn ct_in_range(e: CtExprView, params: BindingsView) -> bool
    decreases e,
{
    match e {
        CtExprView::Value(_) => true,
        CtExprView::Param(_) => true,
        CtExprView::Neg(inner) => {
            &&& ct_in_range(*inner, params)
            &&& ct_eval(*inner, params) != Some(CtValueView::Int(i64::MIN))
        },
        CtExprView::Add(l, r) => {
            &&& ct_in_range(*l, params)
            &&& ct_eval(*l, params) is Some ==> ct_in_range(*r, params)
            &&& match (ct_eval(*l, params), ct_eval(*r, params)) {
                (Some(CtValueView::Int(a)), Some(CtValueView::Int(b))) => i64::MIN <= a + b
                    <= i64::MAX,
                _ => true,
            }
        },
        CtExprView::Sub(l, r) => ct_in_range(*l, params) && (ct_eval(*l, params) is Some
            ==> ct_in_range(*r, params)),
        CtExprView::Mul(l, r) => ct_in_range(*l, params) && (ct_eval(*l, params) is Some
            ==> ct_in_range(*r, params)),
        CtExprView::FloorDiv(l, r) => ct_in_range(*l, params) && (ct_eval(*l, params) is Some
            ==> ct_in_range(*r, params)),
        CtExprView::Mod(l, r) => ct_in_range(*l, params) && (ct_eval(*l, params) is Some
            ==> ct_in_range(*r, params)),
        CtExprView::Pow(l, r) => ct_in_range(*l, params) && (ct_eval(*l, params) is Some
            ==> ct_in_range(*r, params)),
    }
}

impl CtExpr {
    /// Evaluate the expression with its parameters bound.
    pub fn evaluate(&self, parameters: &Bindings) -> (r: Option<CtValue>)
        requires
            ct_in_range(self@, parameters@),
        ensures
            (match r {
                Some(v) => Some(v@),
                None => None,
            }) == ct_eval(self@, parameters@),
    {
        self.value_in(parameters)
    }

    /// The value of the expression with its parameters bound. Where a negation or an
    /// addition leaves 64 bits there is none.
    pub fn value_in(&self, parameters: &Bindings) -> (r: Option<CtValue>)
        ensures
            (match r {
                Some(v) => Some(v@),
                None => None,
            }) == ct_eval(self@, parameters@),
        decreases self,
    {
        match self {
            CtExpr::Value(value) => Some(value.clone()),
            CtExpr::Param(name) => match parameters.get(name) {
                Some(value) => Some(value.clone()),
                None => None,
            },
            CtExpr::Neg(inner) => match inner.value_in(parameters) {
                Some(CtValue::Int(n)) => int_value(0i64.checked_sub(n)),
                _ => None,
            },
            CtExpr::Add(left, right) => {
                let l = match left.value_in(parameters) {
                    Some(l) => l,
                    None => {
                        return None;
                    },
                };
                match (l, right.value_in(parameters)) {
                    (CtValue::Int(a), Some(CtValue::Int(b))) => int_value(a.checked_add(b)),
                    (CtValue::Str(a), Some(CtValue::Str(b))) => {
                        let mut joined = a;
                        joined.append(b.as_str());
                        Some(CtValue::Str(joined))
                    },
                    _ => None,
                }
            },
            CtExpr::Sub(left, right) => {
                let l = match left.value_in(parameters) {
                    Some(l) => l,
                    None => {
                        return None;
                    },
                };
                match int_pair(l, right.value_in(parameters)) {
                    Some((a, b)) => int_value(a.checked_sub(b)),
                    None => None,
                }
            },
            CtExpr::Mul(left, right) => {
                let l = match left.value_in(parameters) {
                    Some(l) => l,
                    None => {
                        return None;
                    },
                };
                match int_pair(l, right.value_in(parameters)) {
                    Some((a, b)) => int_value(a.checked_mul(b)),
                    None => None,
                }
            },
            CtExpr::FloorDiv(left, right) => {
                let l = match left.value_in(parameters) {
                    Some(l) => l,
                    None => {
                        return None;
                    },
                };
                match int_pair(l, right.value_in(parameters)) {
                    Some((a, b)) => int_value(a.checked_div_euclid(b)),
                    None => None,
                }
            },
            CtExpr::Mod(left, right) => {
                let l = match left.value_in(parameters) {
                    Some(l) => l,
                    None => {
                        return None;
                    },
                };
                match int_pair(l, right.value_in(parameters)) {
                    Some((a, b)) => {
                        proof {
                            remainder_fits(a, b);
                        }
                        int_value(a.checked_rem_euclid(b))
                    },
                    None => None,
                }
            },
            CtExpr::Pow(left, right) => {
                let l = match left.value_in(parameters) {
                    Some(l) => l,
                    None => {
                        return None;
                    },
                };
                match int_pair(l, right.value_in(parameters)) {
                    Some((a, b)) => if 0 <= b && b <= 0xFFFF_FFFF {
                        int_value(a.checked_pow(b as u32))
                    } else {
                        None
                    },
                    None => None,
                }
            },
        }
    }
}

pub proof fn remainder_fits(a: i64, b: i64)
    ensures
        b != 0 ==> i64::MIN <= (a as int % b as int) <= i64::MAX,
{
    if b != 0 {
        assert(0 <= (a as int % b as int) && (a as int % b as int) < (if b < 0 {
            -(b as int)
        } else {
            b as int
        })) by (nonlinear_arith)
            requires
                b != 0,
        ;
    }
}

fn int_value(n: Option<i64>) -> (r: Option<CtValue>)
    ensures
        (match r {
            Some(v) => Some(v@),
            None => None,
        }) == (match n {
            Some(v) => Some(CtValueView::Int(v)),
            None => None,
        }),
{
    match n {
        Some(v) => Some(CtValue::Int(v)),
        None => None,
    }
}

/// Both operands as integers, when both are.
fn int_pair(left: CtValue, right: Option<CtValue>) -> (r: Option<(i64, i64)>)
    ensures
        match r {
            Some((a, b)) => left@ == CtValueView::Int(a) && (right matches Some(v) && v@
                == CtValueView::Int(b)),
            None => !(left@ is Int) || !(right matches Some(v) && v@ is Int),
        },
{
    match (left, right) {
        (CtValue::Int(a), Some(CtValue::Int(b))) => Some((a, b)),
        _ => None,
    }
}

/// The literal expression a compile-time value has at run time, if it has one.
/// Types, reflection handles and symbolic parameters have none.
pub open spec fn literal_of(v: CtValueView, span: Span) -> Option<ExprView>
    decreases v, 0nat,
{
    match v {
        CtValueView::Int(n) => Some(literal(ExprKindView::Int(n), span)),
        CtValueView::UInt(n) => if n <= i64::MAX {
            Some(literal(ExprKindView::Int(n as i64), span))
        } else {
            None
        },
        CtValueView::Float(bits) => Some(literal(ExprKindView::Float(bits), span)),
        CtValueView::Bool(b) => Some(literal(ExprKindView::Bool(b), span)),
        CtValueView::Str(s) => Some(literal(ExprKindView::Str(s), span)),
        CtValueView::Tuple(vs) => match literals_of(vs, vs.len(), span) {
            Some(es) => Some(literal(ExprKindView::TupleLit(es), span)),
            None => None,
        },
        CtValueView::List(vs) => match literals_of(vs, vs.len(), span) {
            Some(es) => Some(literal(ExprKindView::ListLit(es), span)),
            None => None,
        },
        CtValueView::Type(_) => None,
        CtValueView::Reflected(_) => None,
        CtValueView::Param(_) => None,
    }
}

pub open spec fn literal(kind: ExprKindView, span: Span) -> ExprView {
    ExprView { kind, span, source: None }
}

/// The literals of the first `n` values, when all of them have one.
pub open spec fn literals_of(vs: Seq<CtValueView>, n: nat, span: Span) -> Option<Seq<ExprView>>
    decreases vs, n,
{
    if n == 0 || n > vs.len() {
        Some(Seq::empty())
    } else {
        match literals_of(vs, (n - 1) as nat, span) {
            Some(es) => match literal_of(vs[n - 1], span) {
                Some(e) => Some(es.push(e)),
                None => None,
            },
            None => None,
        }
    }
}

impl CtValue {
    /// Materialize this value as a literal expression, or `None` when it has no
    /// form at run time.
    pub fn materialize(&self, span: Span) -> (r: Option<Expr>)
        ensures
            (match r {
                Some(e) => Some(e@),
                None => None,
            }) == literal_of(self@, span),
        decreases self, 0nat,
    {
        let kind = match self {
            CtValue::Int(n) => ExprKind::Int(*n),
            CtValue::UInt(n) => if *n <= 0x7FFF_FFFF_FFFF_FFFF {
                ExprKind::Int(*n as i64)
            } else {
                return None;
            },
            CtValue::Float(bits) => ExprKind::Float(*bits),
            CtValue::Bool(b) => ExprKind::Bool(*b),
            CtValue::Str(s) => ExprKind::Str(s.clone()),
            CtValue::Tuple(vs) => match materialize_all(vs, span) {
                Some(es) => ExprKind::TupleLit(es),
                None => {
                    return None;
                },
            },
            CtValue::List(vs) => match materialize_all(vs, span) {
                Some(es) => ExprKind::ListLit(es),
                None => {
                    return None;
                },
            },
            CtValue::Type(_) | CtValue::Reflected(_) | CtValue::Param(_) => {
                return None;
            },
        };
        Some(Expr { kind, span, source: None })
    }
}

proof fn literals_of_stops(vs: Seq<CtValueView>, n: nat, m: nat, span: Span)
    requires
        n <= m <= vs.len(),
        literals_of(vs, n, span) is None,
    ensures
        literals_of(vs, m, span) is None,
    decreases m,
{
    if n < m {
        literals_of_stops(vs, n, (m - 1) as nat, span);
    }
}

fn materialize_all(vs: &Vec<CtValue>, span: Span) -> (r: Option<Vec<Expr>>)
    ensures
        (match r {
            Some(es) => Some(expr_list_view(es@)),
            None => None,
        }) == literals_of(ct_value_list_view(vs@), vs@.len(), span),
    decreases vs@, 1nat,
{
    let ghost all = ct_value_list_view(vs@);
    let mut es: Vec<Expr> = Vec::new();
    assert(expr_list_view(es@) =~= Seq::<ExprView>::empty());
    for i in 0..vs.len()
        invariant
            all == ct_value_list_view(vs@),
            literals_of(all, i as nat, span) == Some(expr_list_view(es@)),
    {
        assert(all[i as int] == vs@[i as int]@);
        match vs[i].materialize(span) {
            Some(e) => {
                let ghost before = expr_list_view(es@);
                es.push(e);
                assert(expr_list_view(es@) =~= before.push(e@));
            },
            None => {
                proof {
                    literals_of_stops(all, (i + 1) as nat, vs@.len(), span);
                }
                return None;
            },
        }
    }
    Some(es)
}

/// Whether a value has a literal form that reads back as itself.
pub open spec fn literal_kind(v: CtValueView) -> bool
    decreases v,
{
    match v {
        CtValueView::Int(_) => true,
        CtValueView::Float(_) => true,
        CtValueView::Bool(_) => true,
        CtValueView::Str(_) => true,
        CtValueView::Tuple(vs) => forall|i: int| 0 <= i < vs.len() ==> literal_kind(#[trigger] vs[i]),
        CtValueView::List(vs) => forall|i: int| 0 <= i < vs.len() ==> literal_kind(#[trigger] vs[i]),
        _ => false,
    }
}

/// The compile-time value a literal expression denotes.
pub open spec fn literal_value(e: ExprView) -> Option<CtValueView>
    decreases e, 0nat,
{
    match e.kind {
        ExprKindView::Int(n) => Some(CtValueView::Int(n)),
        ExprKindView::Float(bits) => Some(CtValueView::Float(bits)),
        ExprKindView::Bool(b) => Some(CtValueView::Bool(b)),
        ExprKindView::Str(s) => Some(CtValueView::Str(s)),
        ExprKindView::TupleLit(es) => match literal_values(es, es.len()) {
            Some(vs) => Some(CtValueView::Tuple(vs)),
            None => None,
        },
        ExprKindView::ListLit(es) => match literal_values(es, es.len()) {
            Some(vs) => Some(CtValueView::List(vs)),
            None => None,
        },
        _ => None,
    }
}

pub open spec fn literal_values(es: Seq<ExprView>, n: nat) -> Option<Seq<CtValueView>>
    decreases es, n,
{
    if n == 0 || n > es.len() {
        Some(Seq::empty())
    } else {
        match literal_values(es, (n - 1) as nat) {
            Some(vs) => match literal_value(es[n - 1]) {
                Some(v) => Some(vs.push(v)),
                None => None,
            },
            None => None,
        }
    }
}

proof fn literal_values_stops(es: Seq<ExprView>, n: nat, m: nat)
    requires
        n <= m <= es.len(),
        literal_values(es, n) is None,
    ensures
        literal_values(es, m) is None,
    decreases m,
{
    if n < m {
        literal_values_stops(es, n, (m - 1) as nat);
    }
}

/// Read a literal expression as a compile-time value.
pub fn literal_ct_value(expr: &Expr) -> (r: Option<CtValue>)
    ensures
        (match r {
            Some(v) => Some(v@),
            None => None,
        }) == literal_value(expr@),
    decreases expr, 1nat,
{
    match &expr.kind {
        ExprKind::Int(n) => Some(CtValue::Int(*n)),
        ExprKind::Float(bits) => Some(CtValue::Float(*bits)),
        ExprKind::Bool(b) => Some(CtValue::Bool(*b)),
        ExprKind::Str(s) => Some(CtValue::Str(s.clone())),
        ExprKind::TupleLit(es) => match literal_ct_values(es) {
            Some(vs) => Some(CtValue::Tuple(vs)),
            None => None,
        },
        ExprKind::ListLit(es) => match literal_ct_values(es) {
            Some(vs) => Some(CtValue::List(vs)),
            None => None,
        },
        _ => None,
    }
}

fn literal_ct_values(es: &Vec<Expr>) -> (r: Option<Vec<CtValue>>)
    ensures
        (match r {
            Some(vs) => Some(ct_value_list_view(vs@)),
            None => None,
        }) == literal_values(expr_list_view(es@), es@.len()),
    decreases es@, 0nat,
{
    let ghost all = expr_list_view(es@);
    let mut vs: Vec<CtValue> = Vec::new();
    assert(ct_value_list_view(vs@) =~= Seq::<CtValueView>::empty());
    for i in 0..es.len()
        invariant
            all == expr_list_view(es@),
            literal_values(all, i as nat) == Some(ct_value_list_view(vs@)),
    {
        assert(all[i as int] == es@[i as int]@);
        match literal_ct_value(&es[i]) {
            Some(v) => {
                let ghost before = ct_value_list_view(vs@);
                vs.push(v);
                assert(ct_value_list_view(vs@) =~= before.push(v@));
            },
            None => {
                proof {
                    literal_values_stops(all, (i + 1) as nat, es@.len());
                }
                return None;
            },
        }
    }
    Some(vs)
}

proof fn literals_read_back(vs: Seq<CtValueView>, n: nat, span: Span)
    requires
        n <= vs.len(),
        forall|i: int| 0 <= i < vs.len() ==> literal_kind(#[trigger] vs[i]),
    ensures
        literals_of(vs, n, span) matches Some(es) && es.len() == n && forall|i: int|
            0 <= i < n ==> literal_value(#[trigger] es[i]) == Some(vs[i]),
    decreases vs, n,
{
    if n > 0 {
        literals_read_back(vs, (n - 1) as nat, span);
        literal_reads_back(vs[n - 1], span);
    }
}

proof fn literal_values_of_all(es: Seq<ExprView>, vs: Seq<CtValueView>, n: nat)
    requires
        n <= es.len(),
        es.len() == vs.len(),
        forall|i: int| 0 <= i < es.len() ==> literal_value(#[trigger] es[i]) == Some(vs[i]),
    ensures
        literal_values(es, n) == Some(vs.take(n as int)),
    decreases n,
{
    if n > 0 {
        literal_values_of_all(es, vs, (n - 1) as nat);
        assert(vs.take(n as int) =~= vs.take(n - 1).push(vs[n - 1]));
    } else {
        assert(vs.take(0) =~= Seq::<CtValueView>::empty());
    }
}

/// A value with a literal form reads back from that literal as itself. (An
/// unsigned value becomes a signed literal, so it is left out.)
pub proof fn literal_reads_back(v: CtValueView, span: Span)
    requires
        literal_kind(v),
    ensures
        literal_of(v, span) matches Some(e) && literal_value(e) == Some(v),
    decreases v, 0nat,
{
    match v {
        CtValueView::Tuple(vs) => {
            literals_read_back(vs, vs.len(), span);
            let es = literals_of(vs, vs.len(), span)->0;
            literal_values_of_all(es, vs, es.len());
            assert(vs.take(vs.len() as int) =~= vs);
        },
        CtValueView::List(vs) => {
            literals_read_back(vs, vs.len(), span);
            let es = literals_of(vs, vs.len(), span)->0;
            literal_values_of_all(es, vs, es.len());
            assert(vs.take(vs.len() as int) =~= vs);
        },
        _ => {},
    }
}

} // verus!
