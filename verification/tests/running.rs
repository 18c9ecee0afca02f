use mojito::ast::{
    ArgConvention, Dtype, Expr, ExprKind, FnParam, InfixOp, KwArg, Method, Param, ParamArg,
    ParamKind, PrefixOp, Stmt, StmtKind, Type,
};
use mojito::evaluator::{runtime_error, Evaluator, Failure};
use mojito::numbers::{floor_div, floor_mod, int_lane, wrap};
use mojito::values::{apply_infix, apply_list_method, Answer, EvalError, Known, Question, Value};

fn text(s: &str) -> String {
    s.to_string()
}

fn expr(kind: ExprKind) -> Expr {
    Expr { kind, span: (0, 0), source: None }
}

fn num(n: i64) -> Expr {
    expr(ExprKind::Int(n))
}

fn float(x: f64) -> Expr {
    expr(ExprKind::Float(x.to_bits()))
}

fn quoted(s: &str) -> Expr {
    expr(ExprKind::Str(text(s)))
}

fn name(n: &str) -> Expr {
    expr(ExprKind::Identifier(text(n)))
}

fn infix(op: InfixOp, a: Expr, b: Expr) -> Expr {
    expr(ExprKind::Infix(op, Box::new(a), Box::new(b)))
}

fn call(n: &str, args: Vec<Expr>) -> Expr {
    expr(ExprKind::Call { name: text(n), param_args: vec![], args, kwargs: vec![] })
}

fn method(object: Expr, n: &str, args: Vec<Expr>) -> Expr {
    expr(ExprKind::MethodCall {
        object: Box::new(object),
        method: text(n),
        args,
        kwargs: vec![],
    })
}

fn member(object: Expr, field: &str) -> Expr {
    expr(ExprKind::Member { object: Box::new(object), field: text(field) })
}

fn index(object: Expr, at: Expr) -> Expr {
    expr(ExprKind::Index { object: Box::new(object), index: Box::new(at) })
}

fn stmt(kind: StmtKind) -> Stmt {
    Stmt { kind, span: (0, 0), module: None }
}

fn var(n: &str, value: Expr) -> Stmt {
    stmt(StmtKind::VarDecl { name: text(n), ty: None, value })
}

fn typed(n: &str, ty: Type, value: Expr) -> Stmt {
    stmt(StmtKind::VarDecl { name: text(n), ty: Some(ty), value })
}

fn assign(n: &str, value: Expr) -> Stmt {
    stmt(StmtKind::Assign { name: text(n), value })
}

fn aug(place: Expr, op: InfixOp, value: Expr) -> Stmt {
    stmt(StmtKind::AugAssign { place, op, value })
}

fn run_expr(e: Expr) -> Stmt {
    stmt(StmtKind::Expr(e))
}

fn print(args: Vec<Expr>) -> Stmt {
    run_expr(call("print", args))
}

fn ret(e: Expr) -> Stmt {
    stmt(StmtKind::Return(Some(e)))
}

fn param(n: &str, default: Option<Expr>) -> FnParam {
    FnParam { name: text(n), ty: Type::Int, default, convention: None, kind: ParamKind::Regular }
}

fn def(n: &str, params: Vec<FnParam>, body: Vec<Stmt>) -> Stmt {
    stmt(StmtKind::Def {
        name: text(n),
        decorators: vec![],
        type_params: vec![],
        params,
        positional_only: None,
        keyword_only: None,
        captures: None,
        raises: false,
        raises_type: None,
        ret: None,
        where_clause: None,
        body,
    })
}

fn answered(question: &Question) -> Answer {
    let f = f64::from_bits;
    match question {
        Question::Binary(op, a, b) => {
            let (x, y) = (f(*a), f(*b));
            match op {
                InfixOp::Add => Answer::Bits((x + y).to_bits()),
                InfixOp::Sub => Answer::Bits((x - y).to_bits()),
                InfixOp::Mul => Answer::Bits((x * y).to_bits()),
                InfixOp::Div => Answer::Bits((x / y).to_bits()),
                InfixOp::Eq => Answer::Flag(x == y),
                InfixOp::Lt => Answer::Flag(x < y),
                InfixOp::Le => Answer::Flag(x <= y),
                other => panic!("{:?}", other),
            }
        }
        Question::FromInt(n) => Answer::Bits((*n as f64).to_bits()),
        Question::FromUInt(n) => Answer::Bits((*n as f64).to_bits()),
        Question::ToInt(a) => Answer::Int(f(*a) as i64),
        Question::ToUInt(a) => Answer::UInt(f(*a) as u64),
        Question::Negated(a) => Answer::Bits((-f(*a)).to_bits()),
        Question::Magnitude(a) => Answer::Bits(f(*a).abs().to_bits()),
        Question::Round(a) => Answer::Bits(f(*a).round().to_bits()),
        Question::Single(a) => Answer::Bits(((f(*a) as f32) as f64).to_bits()),
        Question::Show(a) => Answer::Text(format!("{:?}", f(*a))),
    }
}

fn run(program: Vec<Stmt>) -> Result<Evaluator, Failure> {
    let mut known = vec![];
    loop {
        match Evaluator::new().eval_program(&program, &known, 1000) {
            Err(Failure { error: EvalError::Asked(question), .. }) => {
                let answer = answered(&question);
                known.push(Known { question, answer });
            }
            done => return done,
        }
    }
}

fn output(program: Vec<Stmt>) -> String {
    match run(program) {
        Ok(machine) => machine.output(),
        Err(failed) => panic!("{:?}", failed.error),
    }
}

fn error(program: Vec<Stmt>) -> String {
    match run(program) {
        Ok(machine) => panic!("{}", machine.output()),
        Err(failed) => match runtime_error(&failed.error) {
            Some(error) => error.message(),
            None => panic!("{:?}", failed.error),
        },
    }
}

#[test]
fn values_are_printed() {
    let program = vec![
        print(vec![num(-3), expr(ExprKind::Bool(true)), quoted("a"), expr(ExprKind::NoneLit)]),
        print(vec![expr(ExprKind::ListLit(vec![num(1), num(2)]))]),
        print(vec![expr(ExprKind::TupleLit(vec![num(1)]))]),
        print(vec![float(3.0), call("range", vec![num(4)])]),
    ];
    assert_eq!(output(program), "-3 true a None\n[1, 2]\n(1,)\n3.0 range(0, 4, 1)\n");
}

#[test]
fn integers_divide_toward_negative_infinity() {
    assert_eq!(floor_div(7, 2), Some(3));
    assert_eq!(floor_div(-7, 2), Some(-4));
    assert_eq!(floor_div(7, -2), Some(-4));
    assert_eq!(floor_div(i64::MIN, -1), None);
    assert_eq!(floor_mod(-7, 2), 1);
    assert_eq!(floor_mod(7, -2), -1);
    for (x, y) in [(7, 2), (-7, 2), (7, -2), (-7, -2), (6, 3)] {
        assert_eq!(floor_div(x, y).unwrap() * y + floor_mod(x, y), x);
    }
}

#[test]
fn numbers_take_a_common_kind() {
    let program = vec![
        typed("u", Type::UInt, num(7)),
        print(vec![infix(InfixOp::Add, name("u"), num(1))]),
        print(vec![infix(InfixOp::Mul, num(2), float(1.5))]),
        print(vec![infix(InfixOp::Div, num(1), num(4))]),
        print(vec![expr(ExprKind::ListLit(vec![num(1), float(2.5)]))]),
        print(vec![call("max", vec![num(2), float(1.5)]), call("min", vec![num(2), num(5)])]),
    ];
    assert_eq!(output(program), "8\n3.0\n0.25\n[1.0, 2.5]\n2.0 2\n");
}

#[test]
fn operators_need_fitting_values() {
    let known = vec![];
    let bad = |op, l: Value, r: Value| match apply_infix(op, &l, &r, &known) {
        Err(EvalError::TypeError(message)) => message,
        other => panic!("{:?}", other),
    };
    assert_eq!(
        bad(InfixOp::Add, Value::Bool(true), Value::Int(1)),
        "operator Add is not defined for Bool and Int"
    );
    assert_eq!(
        bad(InfixOp::Eq, Value::Str(text("a")), Value::Int(1)),
        "cannot compare String and Int"
    );
    assert_eq!(
        bad(InfixOp::FloorDiv, Value::Int(1), Value::Int(0)),
        "integer division or modulo by zero"
    );
    assert_eq!(
        bad(InfixOp::Pow, Value::Int(2), Value::Int(-1)),
        "'**' exponent must be a non-negative Int that fits in 32 bits"
    );
    assert_eq!(
        apply_infix(InfixOp::Add, &Value::Int(i64::MAX), &Value::Int(1), &known),
        Err(EvalError::Overflow)
    );
    assert_eq!(
        apply_infix(InfixOp::Pow, &Value::UInt(3), &Value::UInt(4), &known),
        Ok(Value::UInt(81))
    );
    assert_eq!(
        apply_infix(InfixOp::Pow, &Value::UInt(2), &Value::UInt(64), &known),
        Err(EvalError::Overflow)
    );
}

#[test]
fn functions_close_over_their_scope() {
    let program = vec![
        var("n", num(1)),
        def("bump", vec![param("by", Some(num(5)))], vec![
            assign("n", infix(InfixOp::Add, name("n"), name("by"))),
            ret(name("n")),
        ]),
        print(vec![call("bump", vec![num(2)]), call("bump", vec![])]),
        print(vec![expr(ExprKind::Call {
            name: text("bump"),
            param_args: vec![],
            args: vec![],
            kwargs: vec![KwArg { name: text("by"), value: num(100) }],
        })]),
    ];
    assert_eq!(output(program), "3 8\n108\n");
}

#[test]
fn variadic_parameters_collect_the_rest() {
    let rest = FnParam { kind: ParamKind::Variadic, ..param("rest", None) };
    let program = vec![
        def("f", vec![param("a", None), rest], vec![ret(name("rest"))]),
        print(vec![call("f", vec![num(1), num(2), num(3)])]),
    ];
    assert_eq!(output(program), "[2, 3]\n");
}

#[test]
fn recursion_and_loops_run() {
    let fact = def("fact", vec![param("n", None)], vec![
        stmt(StmtKind::If {
            branches: vec![(infix(InfixOp::Le, name("n"), num(1)), vec![ret(num(1))])],
            orelse: None,
        }),
        ret(infix(
            InfixOp::Mul,
            name("n"),
            call("fact", vec![infix(InfixOp::Sub, name("n"), num(1))]),
        )),
    ]);
    let count = stmt(StmtKind::While {
        cond: infix(InfixOp::Lt, name("i"), num(10)),
        body: vec![
            aug(name("i"), InfixOp::Add, num(1)),
            stmt(StmtKind::If {
                branches: vec![(
                    infix(InfixOp::Eq, name("i"), num(4)),
                    vec![stmt(StmtKind::Break)],
                )],
                orelse: None,
            }),
        ],
        orelse: None,
    });
    let sum = stmt(StmtKind::For {
        var: text("k"),
        reference: false,
        owned: false,
        iter: call("range", vec![num(6), num(0), num(-2)]),
        body: vec![aug(name("s"), InfixOp::Add, name("k"))],
        orelse: None,
    });
    let program = vec![
        fact,
        var("i", num(0)),
        var("s", num(0)),
        count,
        sum,
        print(vec![call("fact", vec![num(10)]), name("i"), name("s")]),
    ];
    assert_eq!(output(program), "3628800 4 12\n");
}

#[test]
fn lists_have_their_methods() {
    let program = vec![
        var("xs", expr(ExprKind::ListLit(vec![num(3), num(1)]))),
        run_expr(method(name("xs"), "append", vec![num(4)])),
        run_expr(method(name("xs"), "insert", vec![num(0), num(9)])),
        run_expr(method(name("xs"), "remove", vec![num(1)])),
        print(vec![name("xs"), method(name("xs"), "index", vec![num(4)])]),
        run_expr(method(name("xs"), "reverse", vec![])),
        print(vec![method(name("xs"), "pop", vec![]), name("xs"), call("len", vec![name("xs")])]),
        run_expr(method(name("xs"), "extend", vec![name("xs")])),
        print(vec![method(name("xs"), "count", vec![num(4)])]),
        print(vec![infix(InfixOp::In, num(4), name("xs"))]),
        print(vec![infix(InfixOp::NotIn, quoted("bc"), quoted("abcd"))]),
        stmt(StmtKind::SetPlace { place: index(name("xs"), num(0)), value: num(7) }),
        print(vec![index(name("xs"), num(0))]),
    ];
    assert_eq!(output(program), "[9, 3, 4] 2\n9 [4, 3] 2\n2\ntrue\nfalse\n7\n");
}

#[test]
fn structs_are_values_with_methods() {
    let bump = Method {
        name: text("bump"),
        has_self: true,
        self_convention: Some(ArgConvention::Mut),
        params: vec![param("by", None)],
        positional_only: None,
        keyword_only: None,
        raises_type: None,
        ret: None,
        body: vec![
            aug(member(name("self"), "x"), InfixOp::Add, name("by")),
            ret(member(name("self"), "x")),
        ],
    };
    let point = stmt(StmtKind::Struct {
        name: text("Point"),
        decorators: vec![],
        type_params: vec![],
        conforms: vec![],
        callable_conformance: None,
        conformance_conditions: vec![],
        fields: vec![
            Param { name: text("x"), ty: Type::Int },
            Param { name: text("y"), ty: Type::Float64 },
        ],
        associated: vec![],
        methods: vec![bump],
        fieldwise_init: true,
    });
    let program = vec![
        point,
        var("p", call("Point", vec![num(1), num(2)])),
        var("q", name("p")),
        print(vec![method(name("p"), "bump", vec![num(4)])]),
        print(vec![name("p"), name("q")]),
    ];
    assert_eq!(output(program), "5\nPoint(x=5, y=2.0) Point(x=1, y=2.0)\n");
}

#[test]
fn vectors_wrap_their_lanes() {
    assert_eq!(wrap(Dtype::Int8, 200), -56);
    assert_eq!(wrap(Dtype::UInt8, -1), 255);
    assert_eq!(wrap(Dtype::Int64, i64::MAX as i128 + 1), i64::MIN as i128);
    assert_eq!(
        int_lane(InfixOp::Mul, Dtype::UInt64, u64::MAX as i128, u64::MAX as i128),
        1
    );
    let dtype = ParamArg::Value(member(name("DType"), "int8"));
    let made = expr(ExprKind::Call {
        name: text("SIMD"),
        param_args: vec![dtype, ParamArg::Value(num(2))],
        args: vec![num(100), num(-100)],
        kwargs: vec![],
    });
    let program = vec![
        var("v", made),
        print(vec![infix(InfixOp::Add, name("v"), num(100))]),
        stmt(StmtKind::SetPlace { place: index(name("v"), num(1)), value: num(300) }),
        print(vec![index(name("v"), num(1)), infix(InfixOp::Lt, name("v"), num(50))]),
    ];
    assert_eq!(output(program), "[-56, 0]\n44 [false, true]\n");
}

#[test]
fn raised_errors_are_caught() {
    let risky = stmt(StmtKind::Try {
        body: vec![print(vec![num(1)]), stmt(StmtKind::Raise(quoted("no"))), print(vec![num(2)])],
        except: Some((Some(text("e")), vec![print(vec![name("e")])])),
        orelse: Some(vec![print(vec![num(3)])]),
        finalbody: Some(vec![print(vec![num(4)])]),
    });
    assert_eq!(output(vec![risky]), "1\nError(\"no\")\n4\n");
    let calm = stmt(StmtKind::Try {
        body: vec![],
        except: None,
        orelse: Some(vec![print(vec![num(3)])]),
        finalbody: None,
    });
    assert_eq!(output(vec![calm]), "3\n");
    assert_eq!(error(vec![stmt(StmtKind::Raise(quoted("no")))]), "unhandled error: no");
}

#[test]
fn main_runs_last() {
    let program = vec![def("main", vec![], vec![print(vec![quoted("b")])]), print(vec![quoted("a")])];
    assert_eq!(output(program), "a\nb\n");
}

#[test]
fn each_runtime_error_is_reported() {
    assert_eq!(error(vec![print(vec![name("x")])]), "Undefined variable 'x'");
    assert_eq!(
        error(vec![var("x", num(1)), run_expr(call("x", vec![]))]),
        "'x' is not callable"
    );
    assert_eq!(
        error(vec![def("f", vec![param("a", None)], vec![]), run_expr(call("f", vec![]))]),
        "'f' expects 1 argument(s), got 0"
    );
    assert_eq!(
        error(vec![print(vec![expr(ExprKind::Prefix(PrefixOp::Neg, Box::new(quoted("a"))))])]),
        "Type error: cannot negate String"
    );
    assert_eq!(
        error(vec![def("f", vec![], vec![]), var("g", num(1)), assign("g", name("f"))]),
        "closures cannot escape their defining scope (downward funargs only)"
    );
    assert_eq!(
        error(vec![assign("x", num(1))]),
        "unsupported feature: introducing a variable without 'var' ('x = \u{2026}'); write 'var x: T = \u{2026}'"
    );
    assert_eq!(
        error(vec![print(vec![index(expr(ExprKind::ListLit(vec![num(1)])), num(3))])]),
        "Type error: list index 3 out of range 0..1"
    );
}

#[test]
fn a_run_without_end_is_cut() {
    let forever = stmt(StmtKind::While {
        cond: expr(ExprKind::Bool(true)),
        body: vec![],
        orelse: None,
    });
    let failed = Evaluator::new().eval_program(&vec![forever], &vec![], 50).unwrap_err();
    assert_eq!(failed.error, EvalError::Exhausted);
}

#[test]
fn more_fuel_changes_nothing() {
    let counted = || {
        vec![
            var("i", num(0)),
            stmt(StmtKind::While {
                cond: infix(InfixOp::Lt, name("i"), num(5)),
                body: vec![assign("i", infix(InfixOp::Add, name("i"), num(1)))],
                orelse: None,
            }),
            print(vec![name("i")]),
        ]
    };
    let with = |fuel| Evaluator::new().eval_program(&counted(), &vec![], fuel);
    assert_eq!(with(4).unwrap_err().error, EvalError::Exhausted);
    let ended = with(5).unwrap();
    assert_eq!(ended.output(), "5\n");
    assert_eq!(with(6).unwrap(), ended);
    assert_eq!(with(u64::MAX).unwrap(), ended);
}

#[test]
fn global_names_are_listed_in_order() {
    let program = vec![var("b", num(1)), var("a", num(2)), assign("b", num(3))];
    let machine = run(program).unwrap();
    assert_eq!(
        machine.global_bindings(),
        vec![(text("a"), Value::Int(2)), (text("b"), Value::Int(3))]
    );
}

#[test]
fn conversions_change_the_kind() {
    let program = vec![
        print(vec![call("Int", vec![float(2.9)]), call("Float64", vec![num(2)])]),
        print(vec![call("UInt", vec![num(-1)]), call("abs", vec![num(-4)])]),
        print(vec![call("round", vec![float(2.5)]), call("String", vec![num(7)])]),
    ];
    assert_eq!(output(program), "2 2.0\n18446744073709551615 4\n3.0 7\n");
}

#[test]
fn what_a_list_is_extended_by_gets_its_kind_of_number() {
    let items = vec![Value::UInt(1)];
    let args = vec![Value::List(vec![Value::Int(2)])];
    let (made, given) =
        apply_list_method(&items, &"extend".to_string(), &args, &vec![]).unwrap();
    assert_eq!(made, vec![Value::UInt(1), Value::UInt(2)]);
    assert_eq!(given, Value::NoneValue);
    let inserted = apply_list_method(
        &items,
        &"insert".to_string(),
        &vec![Value::Int(0), Value::Int(5)],
        &vec![],
    );
    assert_eq!(inserted.unwrap().0, vec![Value::UInt(5), Value::UInt(1)]);
}
