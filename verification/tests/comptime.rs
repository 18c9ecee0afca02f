use mojito::ast::{
    Expr, ExprKind, FnParam, InfixOp, ParamArg, ParamKind, Stmt, StmtKind, Type, TypeParam,
    WithItem,
};
use mojito::crossing::{ct_to_vm, outcome_of, run_ct_call, vm_to_ct};
use mojito::elab::{error_message, ComptimeError, CtCall, CtOutcome, CtReply, Halt};
use mojito::evaluate::range_sequence;
use mojito::specialize::{call_program, elaborate};
use mojito::types::{CtValue, Ty};
use mojito::values::Value;

fn text(s: &str) -> String {
    s.to_string()
}

fn expr(kind: ExprKind) -> Expr {
    Expr { kind, span: (0, 0), source: None }
}

fn num(n: i64) -> Expr {
    expr(ExprKind::Int(n))
}

fn name(n: &str) -> Expr {
    expr(ExprKind::Identifier(text(n)))
}

fn infix(op: InfixOp, a: Expr, b: Expr) -> Expr {
    expr(ExprKind::Infix(op, Box::new(a), Box::new(b)))
}

fn call(n: &str, param_args: Vec<ParamArg>, args: Vec<Expr>) -> Expr {
    expr(ExprKind::Call { name: text(n), param_args, args, kwargs: vec![] })
}

fn stmt(kind: StmtKind) -> Stmt {
    Stmt { kind, span: (0, 0), module: None }
}

fn assign(n: &str, value: Expr) -> Stmt {
    stmt(StmtKind::Assign { name: text(n), value })
}

fn constant(n: &str, value: Expr) -> Stmt {
    stmt(StmtKind::Comptime { name: text(n), value })
}

fn int_list(values: &Vec<CtValue>) -> Vec<CtValue> {
    values
        .iter()
        .map(|value| match value {
            CtValue::Int(n) => CtValue::Int(*n),
            other => panic!("{:?}", other),
        })
        .collect()
}

fn answer(call: &CtCall, outcome: CtOutcome, folding: usize, steps: usize) -> CtReply {
    CtReply {
        name: call.name.clone(),
        values: int_list(&call.values),
        args: int_list(&call.args),
        outcome,
        folding,
        steps,
    }
}

fn def(n: &str, type_params: Vec<TypeParam>, params: Vec<FnParam>, body: Vec<Stmt>) -> Stmt {
    stmt(StmtKind::Def {
        name: text(n),
        decorators: vec![],
        type_params,
        params,
        positional_only: None,
        keyword_only: None,
        captures: None,
        raises: false,
        raises_type: None,
        ret: Some(Type::Int),
        where_clause: None,
        body,
    })
}

fn param(n: &str) -> FnParam {
    FnParam {
        name: text(n),
        ty: Type::Int,
        default: None,
        convention: None,
        kind: ParamKind::Regular,
    }
}

fn value_param(n: &str) -> TypeParam {
    TypeParam {
        name: text(n),
        bounds: vec![text("Int")],
        value_type: Some(Type::Int),
        default: None,
        infer_only: false,
    }
}

fn failure(program: Vec<Stmt>) -> String {
    match elaborate(&program, &vec![]) {
        Ok(made) => panic!("{:?}", made),
        Err(error) => error_message(&error),
    }
}

#[test]
fn constants_are_folded_and_replaced() {
    let program = vec![
        constant("N", infix(InfixOp::Add, num(2), num(3))),
        assign("x", infix(InfixOp::Mul, name("N"), num(2))),
    ];
    let made = elaborate(&program, &vec![]).unwrap();
    assert_eq!(
        made,
        vec![constant("N", num(5)), assign("x", infix(InfixOp::Mul, num(5), num(2)))]
    );
}

#[test]
fn only_the_taken_branch_is_kept() {
    let program = vec![stmt(StmtKind::ComptimeIf {
        branches: vec![
            (infix(InfixOp::Gt, num(1), num(2)), vec![assign("x", num(1))]),
            (expr(ExprKind::Bool(true)), vec![assign("x", num(2))]),
        ],
        orelse: Some(vec![assign("x", num(3))]),
    })];
    assert_eq!(elaborate(&program, &vec![]).unwrap(), vec![assign("x", num(2))]);
}

#[test]
fn loops_are_unrolled() {
    let program = vec![stmt(StmtKind::ComptimeFor {
        var: text("i"),
        iter: call("range", vec![], vec![num(1), num(7), num(2)]),
        body: vec![assign("x", name("i"))],
    })];
    assert_eq!(
        elaborate(&program, &vec![]).unwrap(),
        vec![assign("x", num(1)), assign("x", num(3)), assign("x", num(5))]
    );
}

#[test]
fn with_becomes_try() {
    let program = vec![stmt(StmtKind::With {
        items: vec![WithItem { context: name("c"), var: Some(text("v")) }],
        body: vec![stmt(StmtKind::Pass)],
    })];
    let made = elaborate(&program, &vec![]).unwrap();
    assert_eq!(made.len(), 3);
    assert!(matches!(&made[0].kind, StmtKind::VarDecl { name, .. } if name == "$with0_0"));
    assert!(matches!(&made[1].kind, StmtKind::VarDecl { name, .. } if name == "v"));
    match &made[2].kind {
        StmtKind::Try { body, finalbody: Some(last), .. } => {
            assert_eq!(body, &vec![stmt(StmtKind::Pass)]);
            assert!(matches!(&last[0].kind, StmtKind::Expr(e)
                if matches!(&e.kind, ExprKind::MethodCall { method, .. } if method == "__exit__")));
        }
        other => panic!("{:?}", other),
    }
}

#[test]
fn a_template_is_specialized_once_for_each_value() {
    let template = def(
        "f",
        vec![value_param("n")],
        vec![],
        vec![
            stmt(StmtKind::ComptimeIf {
                branches: vec![(
                    infix(InfixOp::Gt, name("n"), num(1)),
                    vec![stmt(StmtKind::Return(Some(name("n"))))],
                )],
                orelse: None,
            }),
            stmt(StmtKind::Return(Some(num(0)))),
        ],
    );
    let at = |n| assign("x", call("f", vec![ParamArg::Value(num(n))], vec![]));
    let made = elaborate(&vec![template, at(1), at(2), at(1)], &vec![]).unwrap();
    let defs: Vec<&str> = made
        .iter()
        .filter_map(|s| match &s.kind {
            StmtKind::Def { name, .. } => Some(name.as_str()),
            _ => None,
        })
        .collect();
    assert_eq!(defs, ["f$2", "f$1"]);
    assert_eq!(made[2], assign("x", call("f$1", vec![], vec![])));
    match &made[0].kind {
        StmtKind::Def { body, type_params, .. } => {
            assert!(type_params.is_empty());
            assert_eq!(body[0], stmt(StmtKind::Return(Some(num(2)))));
        }
        other => panic!("{:?}", other),
    }
}

#[test]
fn each_compile_time_error_is_reported() {
    assert_eq!(
        failure(vec![stmt(StmtKind::ComptimeIf {
            branches: vec![(num(1), vec![])],
            orelse: None
        })]),
        "expected a compile-time Bool (comptime if condition)"
    );
    let bad = |value| failure(vec![constant("N", value)]);
    assert_eq!(
        bad(infix(InfixOp::FloorDiv, num(1), num(0))),
        "compile-time arithmetic error: division by zero"
    );
    assert_eq!(
        bad(infix(InfixOp::Add, num(i64::MAX), num(1))),
        "compile-time arithmetic error: compile-time integer overflow"
    );
    assert_eq!(
        bad(name("unknown")),
        "not a compile-time value: 'unknown' is not a compile-time type"
    );
    assert_eq!(
        bad(infix(InfixOp::Add, expr(ExprKind::Bool(true)), num(1))),
        "expected a compile-time Int (integer operator)"
    );
    let endless = stmt(StmtKind::ComptimeFor {
        var: text("i"),
        iter: call("range", vec![], vec![num(1_000_000)]),
        body: vec![],
    });
    assert_eq!(
        failure(vec![endless]),
        "compile-time execution exceeded the step quota (100000)"
    );
    let none = stmt(StmtKind::ComptimeFor { var: text("i"), iter: num(3), body: vec![] });
    assert!(matches!(
        elaborate(&vec![none], &vec![]),
        Err(ComptimeError::BadRange(_))
    ));
}

#[test]
fn a_call_is_asked_for_and_answered() {
    let double = def(
        "double",
        vec![],
        vec![param("a")],
        vec![stmt(StmtKind::Return(Some(infix(InfixOp::Mul, name("a"), num(2)))))],
    );
    let program = vec![double, constant("N", call("double", vec![], vec![num(21)]))];
    let asked = match elaborate(&program, &vec![]) {
        Err(ComptimeError::Pending(asked)) => asked,
        other => panic!("{:?}", other),
    };
    assert_eq!(asked.name, "double");
    assert_eq!(asked.args, vec![CtValue::Int(21)]);
    assert_eq!(asked.needed, vec![text("double")]);
    let (run, left) = call_program(&program, &asked, &vec![]).unwrap();
    assert_eq!(left, asked.fuel);
    assert!(matches!(&run[0].kind, StmtKind::Def { name, .. } if name == "double"));
    let reply = |outcome| vec![answer(&asked, outcome, 0, 3)];
    let made = elaborate(&program, &reply(CtOutcome::Value(CtValue::Int(42)))).unwrap();
    assert_eq!(made[1], constant("N", num(42)));
    assert!(matches!(
        elaborate(&program, &reply(CtOutcome::Nothing)),
        Err(ComptimeError::NotComptime(_))
    ));
    assert!(matches!(
        elaborate(&program, &reply(CtOutcome::Failed(text("boom")))),
        Err(ComptimeError::NotComptime(_))
    ));
}

#[test]
fn a_call_needs_the_right_number_of_arguments() {
    let f = def("f", vec![], vec![param("a")], vec![stmt(StmtKind::Return(Some(num(1))))]);
    let program = vec![f, constant("N", call("f", vec![], vec![]))];
    assert!(matches!(elaborate(&program, &vec![]), Err(ComptimeError::Arity(_))));
}

#[test]
fn a_compile_time_call_is_run() {
    let double = def(
        "double",
        vec![],
        vec![param("a")],
        vec![stmt(StmtKind::Return(Some(infix(InfixOp::Mul, name("a"), num(2)))))],
    );
    let program = vec![double, constant("N", call("double", vec![], vec![num(21)]))];
    let asked = match elaborate(&program, &vec![]) {
        Err(ComptimeError::Pending(asked)) => asked,
        other => panic!("{:?}", other),
    };
    let (needed, _) = call_program(&program, &asked, &vec![]).unwrap();
    let outcome = run_ct_call(&needed, &asked, &vec![], 100).unwrap();
    assert_eq!(outcome, CtOutcome::Value(CtValue::Int(42)));
    let replies = vec![answer(&asked, outcome, 0, 1)];
    assert_eq!(elaborate(&program, &replies).unwrap()[1], constant("N", num(42)));
}

#[test]
fn a_member_without_a_value_keeps_its_steps_spent() {
    let one = def("one", vec![], vec![param("b")], vec![stmt(StmtKind::Return(Some(name("b"))))]);
    let member = expr(ExprKind::Member {
        object: Box::new(call("one", vec![], vec![num(3)])),
        field: text("x"),
    });
    let f = def(
        "f",
        vec![],
        vec![param("a")],
        vec![stmt(StmtKind::Return(Some(infix(InfixOp::Add, member, name("a")))))],
    );
    let program = vec![one, f, constant("N", call("f", vec![], vec![num(1)]))];
    let asked = match elaborate(&program, &vec![]) {
        Err(ComptimeError::Pending(asked)) => asked,
        other => panic!("{:?}", other),
    };
    assert_eq!(asked.name, "f");
    let inner = match call_program(&program, &asked, &vec![]) {
        Err(Halt { error: ComptimeError::Pending(inner), fuel }) => {
            assert_eq!(fuel, asked.fuel - 1);
            inner
        }
        other => panic!("{:?}", other),
    };
    assert_eq!(inner.name, "one");
    let answered = answer(&inner, CtOutcome::Value(CtValue::Int(3)), 1, 2);
    let (run, left) = call_program(&program, &asked, &vec![answered]).unwrap();
    assert_eq!(left, asked.fuel - 4);
    assert_eq!(&run[..], &program[..2]);
}

#[test]
fn what_a_call_costs_is_paid() {
    let f = def("f", vec![], vec![], vec![stmt(StmtKind::Return(Some(num(1))))]);
    let program = vec![f, constant("N", call("f", vec![], vec![]))];
    let asked = match elaborate(&program, &vec![]) {
        Err(ComptimeError::Pending(asked)) => asked,
        other => panic!("{:?}", other),
    };
    let told = |outcome, folding, steps| {
        elaborate(&program, &vec![answer(&asked, outcome, folding, steps)])
    };
    let one = || CtOutcome::Value(CtValue::Int(1));
    assert!(told(one(), 10, asked.fuel - 10).is_ok());
    match told(one(), 10, asked.fuel - 9) {
        Err(error) => assert!(error_message(&error).contains("VM CTFE failed for 'f': out of fuel")),
        Ok(_) => panic!(),
    }
    assert_eq!(
        told(CtOutcome::Stopped(ComptimeError::QuotaExceeded), 0, 0),
        Err(ComptimeError::QuotaExceeded)
    );
    let missing = call_program(&vec![], &asked, &vec![]);
    match missing {
        Err(halt) => {
            assert_eq!(halt.fuel, asked.fuel);
            assert!(matches!(halt.error, ComptimeError::NotComptime(_)));
        }
        Ok(_) => panic!(),
    }
}

#[test]
fn an_answer_is_for_one_call_alone() {
    let double = def(
        "double",
        vec![],
        vec![param("a")],
        vec![stmt(StmtKind::Return(Some(infix(InfixOp::Mul, name("a"), num(2)))))],
    );
    let program = vec![
        double,
        constant("N", call("double", vec![], vec![num(1)])),
        constant("M", call("double", vec![], vec![num(2)])),
    ];
    let asked = |replies: &Vec<CtReply>| match elaborate(&program, replies) {
        Err(ComptimeError::Pending(asked)) => asked,
        other => panic!("{:?}", other),
    };
    let first = asked(&vec![]);
    assert_eq!(first.args, vec![CtValue::Int(1)]);
    let mut replies = vec![answer(&first, CtOutcome::Value(CtValue::Int(2)), 0, 1)];
    let second = asked(&replies);
    assert_eq!(second.args, vec![CtValue::Int(2)]);
    replies.push(answer(&second, CtOutcome::Value(CtValue::Int(4)), 0, 1));
    let made = elaborate(&program, &replies).unwrap();
    assert_eq!(made[1], constant("N", num(2)));
    assert_eq!(made[2], constant("M", num(4)));
}

#[test]
fn values_cross_and_come_back() {
    let value = CtValue::Tuple(vec![
        CtValue::Int(-1),
        CtValue::List(vec![CtValue::Str(text("a")), CtValue::Bool(true)]),
        CtValue::Float(7),
    ]);
    let crossed = ct_to_vm(&value).unwrap();
    assert_eq!(vm_to_ct(&crossed), Ok(value));
    assert!(ct_to_vm(&CtValue::Type(Box::new(Ty::Int))).is_err());
    assert_eq!(outcome_of(&Value::NoneValue, &vec![], &vec![]), Ok(CtOutcome::Nothing));
    let range = Value::Range { start: 0, stop: 3, step: 1 };
    assert_eq!(
        outcome_of(&range, &vec![], &vec![]),
        Ok(CtOutcome::Other(text("range(0, 3, 1)")))
    );
}

#[test]
fn nested_constructs_are_resolved() {
    let choice = stmt(StmtKind::ComptimeIf {
        branches: vec![(infix(InfixOp::Eq, name("i"), num(1)), vec![assign("x", name("i"))])],
        orelse: None,
    });
    let rounds = stmt(StmtKind::ComptimeFor {
        var: text("i"),
        iter: call("range", vec![], vec![num(3)]),
        body: vec![choice],
    });
    let f = def(
        "f",
        vec![],
        vec![],
        vec![stmt(StmtKind::While {
            cond: expr(ExprKind::Bool(true)),
            body: vec![rounds],
            orelse: None,
        })],
    );
    let made = elaborate(&vec![f], &vec![]).unwrap();
    let expected = def(
        "f",
        vec![],
        vec![],
        vec![stmt(StmtKind::While {
            cond: expr(ExprKind::Bool(true)),
            body: vec![assign("x", num(1))],
            orelse: None,
        })],
    );
    assert_eq!(made, vec![expected]);
}

#[test]
fn a_long_range_is_whole() {
    let bounds = vec![CtValue::Int(200_000)];
    let values = range_sequence(&bounds).unwrap();
    assert_eq!(values.len(), 200_000);
    assert_eq!(values[199_999], CtValue::Int(199_999));
    let down = range_sequence(&vec![CtValue::Int(5), CtValue::Int(0), CtValue::Int(-2)]);
    assert_eq!(
        down.unwrap(),
        vec![CtValue::Int(5), CtValue::Int(3), CtValue::Int(1)]
    );
    let edge = range_sequence(&vec![
        CtValue::Int(i64::MAX - 1),
        CtValue::Int(i64::MAX),
        CtValue::Int(5),
    ]);
    assert_eq!(edge.unwrap(), vec![CtValue::Int(i64::MAX - 1)]);
    assert!(range_sequence(&vec![]).is_err());
}

#[test]
fn an_ordinary_program_stays_as_it_is() {
    let program = vec![
        def("f", vec![], vec![param("a")], vec![stmt(StmtKind::Return(Some(name("a"))))]),
        assign("x", call("f", vec![], vec![num(1)])),
    ];
    assert_eq!(elaborate(&program, &vec![]).unwrap(), program);
}
