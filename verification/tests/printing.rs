use mojito::ast::{
    CollectionKind, ComprehensionClause, Expr, ExprKind, FnParam, InfixOp, KwArg, ParamArg,
    ParamKind, PrefixOp, Stmt, StmtKind, SubscriptArg, Type,
};
use mojito::debug::{print_expr, print_expr_kind, print_stmt_kind};
use mojito::show::show_ct;
use mojito::types::{CtValue, Ty};

fn text(s: &str) -> String {
    s.to_string()
}

fn expr(kind: ExprKind) -> Expr {
    Expr { kind, span: (3, 4), source: Some(text("a\tb")) }
}

fn num(n: i64) -> Expr {
    expr(ExprKind::Int(n))
}

fn stmt(kind: StmtKind) -> Stmt {
    Stmt { kind, span: (0, 1), module: None }
}

#[test]
fn expressions_are_printed_whole() {
    let call = ExprKind::Call {
        name: text("f"),
        param_args: vec![],
        args: vec![Expr { kind: ExprKind::Int(-1), span: (0, 2), source: None }],
        kwargs: vec![],
    };
    assert_eq!(
        print_expr_kind(&call),
        "Call { name: \"f\", param_args: [], \
         args: [Expr { kind: Int(-1), span: (0, 2), source: None }], kwargs: [] }"
    );
    let slice = ExprKind::Slice {
        object: Box::new(Expr { kind: ExprKind::Identifier(text("xs")), span: (0, 2), source: None }),
        lower: None,
        upper: Some(Box::new(Expr { kind: ExprKind::Bool(true), span: (3, 7), source: None })),
        step: None,
    };
    assert_eq!(
        print_expr_kind(&slice),
        "Slice { object: Expr { kind: Identifier(\"xs\"), span: (0, 2), source: None }, \
         lower: None, upper: Some(Expr { kind: Bool(true), span: (3, 7), source: None }), \
         step: None }"
    );
    assert_eq!(print_expr_kind(&ExprKind::NoneLit), "None");
    assert_eq!(
        print_expr(&expr(ExprKind::Str(text("say \"hi\"\n")))),
        "Expr { kind: Str(\"say \\\"hi\\\"\\n\"), span: (3, 4), source: Some(\"a\\tb\") }"
    );
}

#[test]
fn all_forms_print_as_they_derive_it() {
    let kinds = vec![
        ExprKind::Uninitialized,
        ExprKind::TypeValue(Type::Int),
        ExprKind::TypeApply { name: text("T"), args: vec![ParamArg::Value(num(1))] },
        ExprKind::Prefix(PrefixOp::Neg, Box::new(num(1))),
        ExprKind::Transfer(Box::new(num(1))),
        ExprKind::Spread(Box::new(num(1))),
        ExprKind::Infix(InfixOp::Add, Box::new(num(1)), Box::new(num(2))),
        ExprKind::Compare { first: Box::new(num(1)), rest: vec![(InfixOp::Lt, num(2)), (InfixOp::Le, num(3))] },
        ExprKind::Invoke {
            callee: Box::new(num(1)),
            param_args: vec![],
            args: vec![],
            kwargs: vec![KwArg { name: text("k"), value: num(2) }],
        },
        ExprKind::Member { object: Box::new(num(1)), field: text("f") },
        ExprKind::MethodCall { object: Box::new(num(1)), method: text("m"), args: vec![], kwargs: vec![] },
        ExprKind::Index { object: Box::new(num(1)), index: Box::new(num(2)) },
        ExprKind::MultiIndex { object: Box::new(num(1)), args: vec![SubscriptArg::Index(num(2))] },
        ExprKind::ListLit(vec![num(1), num(2)]),
        ExprKind::TupleLit(vec![]),
        ExprKind::BraceLit(vec![(num(1), None), (num(2), Some(num(3)))]),
        ExprKind::Comprehension {
            kind: CollectionKind::List,
            key: None,
            value: Box::new(num(1)),
            clauses: vec![
                ComprehensionClause::For { var: text("x"), owned: false, iter: Box::new(num(2)) },
                ComprehensionClause::If(Box::new(num(3))),
            ],
        },
        ExprKind::Named { name: text("n"), value: Box::new(num(1)) },
        ExprKind::IfExpr {
            cond: Box::new(num(1)),
            then_branch: Box::new(num(2)),
            else_branch: Box::new(num(3)),
        },
    ];
    for kind in kinds {
        assert_eq!(print_expr_kind(&kind), format!("{:?}", kind));
    }
    let stmts = vec![
        StmtKind::Pass,
        StmtKind::Break,
        StmtKind::Continue,
        StmtKind::Return(None),
        StmtKind::Return(Some(num(1))),
        StmtKind::Assign { name: text("x"), value: num(1) },
        StmtKind::While { cond: num(1), body: vec![stmt(StmtKind::Pass)], orelse: Some(vec![]) },
        StmtKind::Try {
            body: vec![],
            except: Some((Some(text("e")), vec![stmt(StmtKind::Pass)])),
            orelse: None,
            finalbody: None,
        },
        StmtKind::Def {
            name: text("f"),
            decorators: vec![text("d")],
            type_params: vec![],
            params: vec![FnParam {
                name: text("a"),
                ty: Type::Bool,
                default: Some(num(1)),
                convention: None,
                kind: ParamKind::Regular,
            }],
            positional_only: Some(1),
            keyword_only: None,
            captures: None,
            raises: true,
            raises_type: None,
            ret: Some(Type::Int),
            where_clause: None,
            body: vec![],
        },
    ];
    for kind in stmts {
        assert_eq!(print_stmt_kind(&kind), format!("{:?}", kind));
    }
}

#[test]
fn compile_time_values_are_shown() {
    let shown = |value: CtValue| show_ct(&value);
    assert_eq!(shown(CtValue::Int(-3)), "-3");
    assert_eq!(shown(CtValue::UInt(3)), "3u");
    assert_eq!(shown(CtValue::Bool(true)), "true");
    assert_eq!(shown(CtValue::Bool(false)), "false");
    assert_eq!(shown(CtValue::Str(text("a\"b\\"))), "\"a\\\"b\\\\\"");
    assert_eq!(shown(CtValue::Type(Box::new(Ty::Int))), "Int");
    assert_eq!(shown(CtValue::Reflected(Box::new(Ty::Bool))), "reflect[Bool]");
    assert_eq!(shown(CtValue::Param(text("n"))), "n");
    assert_eq!(
        shown(CtValue::Tuple(vec![
            CtValue::Int(1),
            CtValue::List(vec![CtValue::Str(text("x")), CtValue::UInt(2)]),
        ])),
        "(1, [\"x\", 2u])"
    );
}
