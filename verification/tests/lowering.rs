use mojito::ast::{
    Expr, ExprKind, FnParam, InfixOp, ParamArg, ParamKind, Stmt, StmtKind, Type,
};
use mojito::checked::{AnnotationSite, AnnotationType, CheckedProgram, OverloadSets};
use mojito::facts::unchecked;
use mojito::flatten::is_origin_bearing_pointer;
use mojito::functions::lower_cfg;
use mojito::hir::Cfg;
use mojito::mir::{Const, FuncRef, MirInstr, MirTerm, Reg};
use mojito::nested::analyze_captures;
use mojito::origin::{OriginPlace, OwnerId, PointerOrigin};
use mojito::program::lower_checked_program;
use mojito::types::Ty;
use mojito::verify::{instruction_operand_regs, instruction_result_regs, verify};

fn text(s: &str) -> String {
    s.to_string()
}

fn expr(kind: ExprKind) -> Expr {
    Expr { kind, span: (0, 0), source: None }
}

fn num(n: i64) -> Expr {
    expr(ExprKind::Int(n))
}

fn name(n: &str) -> Expr {
    expr(ExprKind::Identifier(text(n)))
}

fn infix(op: InfixOp, a: Expr, b: Expr) -> Expr {
    expr(ExprKind::Infix(op, Box::new(a), Box::new(b)))
}

fn stmt(kind: StmtKind) -> Stmt {
    Stmt { kind, span: (0, 0), module: None }
}

fn assign(n: &str, value: Expr) -> Stmt {
    stmt(StmtKind::Assign { name: text(n), value })
}

fn def(n: &str, params: Vec<FnParam>, body: Vec<Stmt>) -> Stmt {
    let kind = StmtKind::Def {
        name: text(n),
        decorators: vec![],
        type_params: vec![],
        params,
        positional_only: None,
        keyword_only: None,
        captures: None,
        raises: false,
        raises_type: None,
        ret: Some(Type::Int),
        where_clause: None,
        body,
    };
    Stmt { kind, span: (5, 9), module: None }
}

fn param(n: &str) -> FnParam {
    FnParam {
        name: text(n),
        ty: Type::Int,
        default: None,
        convention: None,
        kind: ParamKind::Regular,
    }
}

fn checked(statements: Vec<Stmt>) -> CheckedProgram {
    CheckedProgram {
        statements,
        expressions: vec![],
        annotations: vec![],
        explicit_destroy: vec![],
        overloads: OverloadSets { functions: vec![] },
        lowered_names: vec![],
        coercions: vec![],
    }
}

#[test]
fn operands_are_evaluated_left_to_right() {
    let body = vec![assign("x", infix(InfixOp::Sub, num(1), num(2)))];
    let function = lower_cfg(&Cfg::build(&body));
    assert_eq!(
        function.blocks[0].instrs,
        vec![
            MirInstr::Const { dest: Reg(0), k: Const::Int(1) },
            MirInstr::Const { dest: Reg(1), k: Const::Int(2) },
            MirInstr::BinOp { op: InfixOp::Sub, dest: Reg(2), a: Reg(0), b: Reg(1) },
            MirInstr::DefVar { var: 0, src: Reg(2), binding_ty: None },
        ]
    );
    assert_eq!(function.blocks[0].term, MirTerm::Return(None));
    assert_eq!(function.n_regs, 3);
    assert_eq!(function.var_names, vec![text("x")]);
    assert!(function.complete);
}

#[test]
fn blocks_keep_their_numbers() {
    let body = vec![stmt(StmtKind::While {
        cond: name("c"),
        body: vec![assign("x", num(1))],
        orelse: None,
    })];
    let cfg = Cfg::build_fn(&vec![text("c")], &body);
    let function = lower_cfg(&cfg);
    assert_eq!(function.n_params, 1);
    assert_eq!(function.var_names[0], "c");
    assert_eq!(function.blocks.len(), cfg.node_count());
    assert_eq!(function.blocks[0].term, MirTerm::Jump(1));
    assert!(matches!(function.blocks[1].term, MirTerm::Branch { then_b: 2, else_b: 3, .. }));
    assert_eq!(function.blocks[2].term, MirTerm::Jump(1));
}

#[test]
fn short_circuits_add_blocks() {
    let body = vec![stmt(StmtKind::Return(Some(infix(InfixOp::And, name("a"), name("b")))))];
    let cfg = Cfg::build_fn(&vec![text("a"), text("b")], &body);
    let function = lower_cfg(&cfg);
    assert!(function.blocks.len() > cfg.node_count());
    assert!(matches!(function.blocks[0].term, MirTerm::Branch { .. }));
}

#[test]
fn a_try_becomes_regions() {
    let body = vec![stmt(StmtKind::Try {
        body: vec![stmt(StmtKind::Raise(expr(ExprKind::Str(text("no")))))],
        except: Some((Some(text("e")), vec![assign("x", num(1))])),
        orelse: None,
        finalbody: None,
    })];
    let function = lower_cfg(&Cfg::build(&body));
    let tried = function.blocks[0].instrs.iter().find_map(|i| match i {
        MirInstr::Try { body, handler, .. } => Some((body, handler)),
        _ => None,
    });
    let (region, handler) = tried.unwrap();
    assert!(region[0].instrs.iter().any(|i| matches!(i, MirInstr::Raise { .. })));
    let (slot, handled) = handler.as_ref().unwrap();
    assert!(slot.is_some());
    assert!(matches!(handled.last().unwrap().term, MirTerm::FallOff));
}

#[test]
fn a_program_has_its_functions_and_its_top_level() {
    let f = def("f", vec![param("a")], vec![stmt(StmtKind::Return(Some(name("a"))))]);
    let mut program = checked(vec![f, assign("x", num(1))]);
    program.annotations = vec![AnnotationType {
        site: AnnotationSite::FunctionParam { module: None, declaration: (5, 9), param: 0 },
        ty: Ty::Int,
    }];
    let lowered = lower_checked_program(&program);
    assert_eq!(lowered.invariant_errors, verify(&lowered));
    let names: Vec<&str> = lowered.functions.iter().map(|(n, _)| n.as_str()).collect();
    assert_eq!(names.len(), 2);
    assert!(names.contains(&"__toplevel__"));
    let (_, f) = &lowered.functions[0];
    assert_eq!(f.n_params, 1);
    assert_eq!(f.param_types, vec![Ty::Int]);
    assert_eq!(
        verify(&lowered),
        vec![
            text("MIR function 'f' block 0: untyped register r0"),
            text("MIR function '__toplevel__' block 0: untyped register r0"),
            text("MIR function '__toplevel__' block 0: untyped register r0"),
        ]
    );
    let bare = lower_checked_program(&checked(vec![stmt(StmtKind::Pass)]));
    assert_eq!(verify(&bare), Vec::<String>::new());
}

#[test]
fn a_missing_annotation_is_recorded() {
    let f = def("f", vec![param("a")], vec![stmt(StmtKind::Pass)]);
    let lowered = lower_checked_program(&checked(vec![f]));
    assert_eq!(lowered.invariant_errors.len(), 2);
    for error in &lowered.invariant_errors {
        assert!(error.contains("parameter 'a' of function 'f'"));
    }
}

#[test]
fn jumps_to_nowhere_are_found() {
    let mut lowered = lower_checked_program(&checked(vec![stmt(StmtKind::Pass)]));
    lowered.functions[0].1.blocks[0].term = MirTerm::Jump(9);
    assert_eq!(
        verify(&lowered),
        vec![text("MIR function '__toplevel__' block 0: jump to invalid block 9")]
    );
    lowered.functions[0].1.blocks[0].term = MirTerm::FallOff;
    assert_eq!(
        verify(&lowered),
        vec![text("MIR function '__toplevel__' block 0: FallOff terminator outside a try region")]
    );
}

#[test]
fn missing_slot_names_are_found() {
    let mut lowered = lower_checked_program(&checked(vec![stmt(StmtKind::Pass)]));
    lowered.functions[0].1.n_vars = 4;
    assert_eq!(
        verify(&lowered),
        vec![text("MIR function '__toplevel__' has 0 variable names for 4 slots")]
    );
}

#[test]
fn instructions_know_their_registers() {
    let sum = MirInstr::BinOp { op: InfixOp::Add, dest: Reg(3), a: Reg(1), b: Reg(2) };
    assert_eq!(instruction_result_regs(&sum, vec![]), vec![Reg(3)]);
    assert_eq!(instruction_operand_regs(&sum, vec![]), vec![Reg(1), Reg(2)]);
    let define = MirInstr::DefVar { var: 0, src: Reg(5), binding_ty: None };
    assert_eq!(instruction_result_regs(&define, vec![]), vec![]);
    assert_eq!(instruction_operand_regs(&define, vec![]), vec![Reg(5)]);
}

#[test]
fn no_register_is_written_twice() {
    let body = vec![
        assign("x", infix(InfixOp::And, name("a"), infix(InfixOp::Lt, num(1), num(2)))),
        stmt(StmtKind::Return(Some(infix(InfixOp::Add, name("x"), infix(InfixOp::Mul, num(3), num(4)))))),
    ];
    let function = lower_cfg(&Cfg::build_fn(&vec![text("a")], &body));
    let mut written: Vec<u32> = vec![];
    for block in &function.blocks {
        for instr in &block.instrs {
            match instr {
                MirInstr::Const { dest, .. }
                | MirInstr::UseVar { dest, .. }
                | MirInstr::BinOp { dest, .. } => written.push(dest.0),
                MirInstr::DefVar { .. } => {}
                other => panic!("{:?}", other),
            }
        }
    }
    let count = written.len();
    assert!(written.iter().all(|r| *r < function.n_regs));
    written.sort();
    written.dedup();
    assert_eq!(written.len(), count);
}

#[test]
fn a_pointer_is_followed_to_a_place_or_a_parameter() {
    let pointer = |origin: PointerOrigin| {
        let mut read = unchecked(name("p"));
        read.ty = Some(Ty::Pointer { element: Box::new(Ty::Int), origin });
        is_origin_bearing_pointer(Some(&read))
    };
    let place = OriginPlace { root: OwnerId(0), path: vec![] };
    assert!(pointer(PointerOrigin::Place { place, mutable: true }));
    assert!(!pointer(PointerOrigin::Static));
    assert!(!pointer(PointerOrigin::Untracked { mutable: true }));
    assert!(!pointer(PointerOrigin::UnsafeAny { mutable: false }));
    assert!(!pointer(PointerOrigin::Legacy));
    assert!(!is_origin_bearing_pointer(None));
}

#[test]
fn what_cannot_be_lowered_is_printed_whole() {
    let body = vec![
        stmt(StmtKind::Expr(expr(ExprKind::TypeApply {
            name: text("T"),
            args: vec![ParamArg::Value(num(7)), ParamArg::Type(Type::Bool)],
        }))),
        stmt(StmtKind::SetPlace { place: expr(ExprKind::Str(text("q"))), value: num(1) }),
    ];
    let function = lower_cfg(&Cfg::build(&body));
    let marked: Vec<&str> = function.blocks[0]
        .instrs
        .iter()
        .filter_map(|i| match i {
            MirInstr::Unsupported(text) => Some(text.as_str()),
            _ => None,
        })
        .collect();
    assert_eq!(
        marked,
        vec![
            "unchecked expression reached MIR lowering: \
             TypeApply { name: \"T\", args: [\
             Value(Expr { kind: Int(7), span: (0, 0), source: None }), Type(Bool)] }",
            "invalid assignment place reached MIR lowering: Str(\"q\")",
        ]
    );
}

#[test]
fn a_nested_function_captures_what_it_uses() {
    let outer = vec![text("x"), text("y"), text("g"), text("h")];
    let nested = vec![text("g"), text("h")];
    let captured = |value: Expr| {
        let body = vec![assign("z", num(1)), stmt(StmtKind::Return(Some(value)))];
        analyze_captures(&vec![param("a")], &body, &outer, &nested, &text("g"))
    };
    assert_eq!(
        captured(infix(InfixOp::Add, infix(InfixOp::Add, name("y"), name("x")), name("y"))),
        Some(vec![text("x"), text("y")])
    );
    assert_eq!(captured(infix(InfixOp::Add, name("a"), name("z"))), Some(vec![]));
    assert_eq!(captured(infix(InfixOp::Add, name("g"), name("x"))), Some(vec![text("x")]));
    assert_eq!(captured(infix(InfixOp::Add, name("h"), name("x"))), None);
}

#[test]
fn a_callee_has_a_name() {
    assert_eq!(FuncRef::named("f"), FuncRef { name: text("f") });
}

#[test]
fn flat_blocks_lead_to_blocks_of_their_function() {
    let inner = stmt(StmtKind::Try {
        body: vec![assign("x", infix(InfixOp::Or, name("a"), name("b")))],
        except: None,
        orelse: None,
        finalbody: Some(vec![assign("y", num(1))]),
    });
    let body = vec![
        stmt(StmtKind::While { cond: infix(InfixOp::And, name("a"), name("b")), body: vec![inner], orelse: None }),
        stmt(StmtKind::Return(None)),
    ];
    let function = lower_cfg(&Cfg::build_fn(&vec![text("a"), text("b")], &body));
    let mut lists = vec![&function.blocks];
    for block in &function.blocks {
        for instr in &block.instrs {
            if let MirInstr::Try { body, finalbody, .. } = instr {
                lists.push(body);
                lists.extend(finalbody.as_ref());
            }
        }
    }
    assert_eq!(lists.len(), 3);
    for blocks in lists {
        for block in blocks {
            match &block.term {
                MirTerm::Jump(to) => assert!(*to < blocks.len()),
                MirTerm::Branch { then_b, else_b, .. } => {
                    assert!(*then_b < blocks.len() && *else_b < blocks.len());
                }
                _ => {}
            }
        }
    }
}
