use mojito::arith::checked_power;
use mojito::ast::{Expr, ExprKind};
use mojito::ct::{literal_ct_value, Bindings};
use mojito::mangle::mangle;
use mojito::types::{CtExpr, CtValue, Ty};

fn num(n: i64) -> Box<CtExpr> {
    Box::new(CtExpr::Value(CtValue::Int(n)))
}

fn param(n: &str) -> Box<CtExpr> {
    Box::new(CtExpr::Param(n.to_string()))
}

#[test]
fn parameters_are_looked_up() {
    let mut bindings = Bindings::new();
    bindings.insert("n".to_string(), CtValue::Int(5));
    bindings.insert("n".to_string(), CtValue::Int(6));
    let sum = CtExpr::Add(param("n"), num(1));
    assert_eq!(sum.evaluate(&bindings), Some(CtValue::Int(7)));
    bindings.remove(&"n".to_string());
    assert_eq!(sum.evaluate(&bindings), None);
}

#[test]
fn constant_arithmetic_is_exact() {
    let none = Bindings::new();
    let value = |e: CtExpr| e.evaluate(&none);
    assert_eq!(value(CtExpr::Sub(num(2), num(5))), Some(CtValue::Int(-3)));
    assert_eq!(value(CtExpr::Mul(num(-4), num(5))), Some(CtValue::Int(-20)));
    assert_eq!(value(CtExpr::Neg(num(4))), Some(CtValue::Int(-4)));
    assert_eq!(value(CtExpr::FloorDiv(num(7), num(0))), None);
}

#[test]
fn arithmetic_on_other_values_has_no_value() {
    let none = Bindings::new();
    let truth = Box::new(CtExpr::Value(CtValue::Bool(true)));
    assert_eq!(CtExpr::Add(truth, num(1)).evaluate(&none), None);
}

#[test]
fn constants_become_literals() {
    let literal = CtValue::Int(-3).materialize((2, 5)).unwrap();
    assert_eq!(literal.span, (2, 5));
    assert_eq!(literal.kind, ExprKind::Int(-3));
    let pair = CtValue::Tuple(vec![CtValue::Bool(true), CtValue::Str("a".to_string())]);
    match pair.materialize((0, 0)).unwrap().kind {
        ExprKind::TupleLit(elems) => {
            assert_eq!(elems[0].kind, ExprKind::Bool(true));
            assert_eq!(elems[1].kind, ExprKind::Str("a".to_string()));
        }
        other => panic!("{:?}", other),
    }
    assert_eq!(CtValue::Type(Box::new(Ty::Int)).materialize((0, 0)), None);
    assert_eq!(CtValue::UInt(9).materialize((0, 0)).unwrap().kind, ExprKind::Int(9));
    assert_eq!(CtValue::UInt(u64::MAX).materialize((0, 0)), None);
}

#[test]
fn literals_are_constants() {
    let expr = |kind| Expr { kind, span: (0, 0), source: None };
    assert_eq!(literal_ct_value(&expr(ExprKind::Int(4))), Some(CtValue::Int(4)));
    assert_eq!(literal_ct_value(&expr(ExprKind::Bool(true))), Some(CtValue::Bool(true)));
    assert_eq!(literal_ct_value(&expr(ExprKind::Identifier("x".to_string()))), None);
}

#[test]
fn powers_stay_in_range() {
    assert_eq!(checked_power(3, 4), Some(81));
    assert_eq!(checked_power(-2, 63), Some(i64::MIN));
    assert_eq!(checked_power(2, 63), None);
    assert_eq!(checked_power(7, 0), Some(1));
    assert_eq!(checked_power(0, 0), Some(1));
}

#[test]
fn specialization_names_encode_their_values() {
    let m = |values: Vec<CtValue>| mangle(&values, "f".to_string());
    assert_eq!(m(vec![]), "f");
    assert_eq!(m(vec![CtValue::Int(0)]), "f$0");
    assert_eq!(m(vec![CtValue::Int(-12), CtValue::Bool(true)]), "f$-12$b1;");
    assert_eq!(m(vec![CtValue::UInt(7)]), "f$u7;");
    assert_eq!(m(vec![CtValue::Float(255)]), "f$f00000000000000ff;");
    assert_eq!(m(vec![CtValue::Str("\u{e9}x".to_string())]), "f$s3:\u{e9}x");
    assert_eq!(
        m(vec![CtValue::Tuple(vec![CtValue::Int(1), CtValue::Bool(false)])]),
        "f$t2[i1;b0;]"
    );
    assert_eq!(m(vec![CtValue::List(vec![])]), "f$l0[]");
    assert_eq!(m(vec![CtValue::Type(Box::new(Ty::Int))]), "f$y3:Int");
    assert_eq!(m(vec![CtValue::Param("n".to_string())]), "f$p1:n");
}

#[test]
fn different_values_have_different_names() {
    let m = |values: Vec<CtValue>| mangle(&values, "f".to_string());
    let one = m(vec![CtValue::Str("a$s1:b".to_string())]);
    let two = m(vec![CtValue::Str("a".to_string()), CtValue::Str("b".to_string())]);
    assert_ne!(one, two);
}

#[test]
fn quotient_and_remainder_belong_together() {
    let none = Bindings::new();
    let value = |e: CtExpr| e.evaluate(&none);
    for (a, b) in [(7, 2), (-7, 2), (7, -2), (-7, -2), (i64::MIN, 3), (i64::MIN, -1), (5, 0)] {
        let q = value(CtExpr::FloorDiv(num(a), num(b)));
        let r = value(CtExpr::Mod(num(a), num(b)));
        if b == 0 || (a == i64::MIN && b == -1) {
            assert_eq!((q, r), (None, None));
        } else {
            match (q, r) {
                (Some(CtValue::Int(q)), Some(CtValue::Int(r))) => {
                    assert_eq!(a as i128, q as i128 * b as i128 + r as i128);
                    assert!(0 <= r && (r as i128) < (b as i128).abs());
                }
                other => panic!("{:?}", other),
            }
        }
    }
}
