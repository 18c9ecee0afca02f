use mojito::ast::{Expr, ExprKind, Stmt, StmtKind};
use mojito::graph::BlockGraph;
use mojito::hir::{Cfg, HirInstr, Terminator};

fn expr(kind: ExprKind) -> Expr {
    Expr { kind, span: (0, 0), source: None }
}

fn name(n: &str) -> Expr {
    expr(ExprKind::Identifier(n.to_string()))
}

fn stmt(kind: StmtKind) -> Stmt {
    Stmt { kind, span: (0, 0), module: None }
}

fn assign(n: &str, value: i64) -> Stmt {
    stmt(StmtKind::Assign { name: n.to_string(), value: expr(ExprKind::Int(value)) })
}

fn names(list: &[&str]) -> Vec<String> {
    list.iter().map(|n| n.to_string()).collect()
}

#[test]
fn a_graph_counts_its_blocks_and_edges() {
    let mut g = BlockGraph::new();
    assert_eq!((g.node_count(), g.edge_count()), (0, 0));
    assert!(g.add_block());
    assert!(g.add_block());
    assert!(g.add_block());
    assert!(g.connect(0, 2));
    assert!(g.connect(0, 1));
    assert_eq!((g.node_count(), g.edge_count()), (3, 2));
}

#[test]
fn successors_come_last_edge_first() {
    let mut g = BlockGraph::new();
    g.add_block();
    g.add_block();
    g.add_block();
    g.connect(0, 2);
    g.connect(0, 1);
    g.connect(1, 0);
    assert_eq!(g.successors(0), vec![1, 2]);
    assert_eq!(g.successors(1), vec![0]);
    assert_eq!(g.successors(2), Vec::<usize>::new());
    assert_eq!(g.successors(7), Vec::<usize>::new());
}

#[test]
fn an_edge_needs_both_its_ends() {
    let mut g = BlockGraph::new();
    g.add_block();
    assert!(!g.connect(0, 1));
    assert_eq!(g.edge_count(), 0);
}

#[test]
fn straight_code_is_one_block() {
    let cfg = Cfg::build(&vec![assign("x", 1), assign("y", 2)]);
    assert_eq!((cfg.node_count(), cfg.edge_count()), (1, 0));
    assert_eq!(cfg.block(0).instrs.len(), 2);
    assert_eq!(cfg.term(0), Some(&Terminator::Return(None)));
    assert_eq!(cfg.vars, names(&["x", "y"]));
    assert!(cfg.complete);
}

#[test]
fn parameters_have_the_first_slots() {
    let cfg = Cfg::build_fn(&names(&["b", "a"]), &vec![assign("c", 1), assign("a", 2)]);
    assert_eq!(cfg.vars, names(&["b", "a", "c"]));
    assert_eq!(cfg.n_params, 2);
    assert!(matches!(&cfg.block(0).instrs[0], HirInstr::Bind { dest: 2, .. }));
    assert!(matches!(&cfg.block(0).instrs[1], HirInstr::Bind { dest: 1, .. }));
}

#[test]
fn an_if_joins_its_branches() {
    let body = vec![stmt(StmtKind::If {
        branches: vec![(name("c"), vec![assign("x", 1)])],
        orelse: Some(vec![assign("x", 2)]),
    })];
    let cfg = Cfg::build_fn(&names(&["c"]), &body);
    assert_eq!((cfg.node_count(), cfg.edge_count()), (4, 4));
    assert_eq!(cfg.successors(0), vec![3, 2]);
    assert_eq!(cfg.successors(2), vec![1]);
    assert_eq!(cfg.successors(3), vec![1]);
    assert_eq!(cfg.term(1), Some(&Terminator::Return(None)));
}

#[test]
fn a_while_loop_goes_back_to_its_header() {
    let body = vec![stmt(StmtKind::While {
        cond: name("c"),
        body: vec![assign("x", 1)],
        orelse: None,
    })];
    let cfg = Cfg::build_fn(&names(&["c"]), &body);
    assert_eq!(cfg.node_count(), 4);
    assert!(cfg.has_edge(0, 1));
    assert!(cfg.has_edge(1, 2));
    assert!(cfg.has_edge(1, 3));
    assert!(cfg.has_edge(2, 1));
    assert!(!cfg.has_edge(2, 3));
    assert_eq!(cfg.edge_count(), 4);
}

#[test]
fn break_and_continue_leave_the_body() {
    let body = vec![stmt(StmtKind::While {
        cond: name("c"),
        body: vec![stmt(StmtKind::Break), assign("x", 1)],
        orelse: Some(vec![stmt(StmtKind::Pass)]),
    })];
    let cfg = Cfg::build_fn(&names(&["c"]), &body);
    assert_eq!(cfg.node_count(), 5);
    assert_eq!(cfg.term(2), Some(&Terminator::Jump(3)));
    assert!(cfg.block(2).instrs.is_empty());
    assert_eq!(cfg.term(4), Some(&Terminator::Jump(3)));
    assert!(cfg.has_edge(1, 4));
}

#[test]
fn a_for_loop_drives_an_iterator() {
    let body = vec![stmt(StmtKind::For {
        var: "x".to_string(),
        reference: false,
        owned: false,
        iter: name("xs"),
        body: vec![stmt(StmtKind::Continue)],
        orelse: None,
    })];
    let cfg = Cfg::build_fn(&names(&["xs"]), &body);
    assert_eq!(cfg.vars, names(&["xs", "$iter1", "$hasnext2", "x"]));
    assert!(matches!(&cfg.block(0).instrs[1], HirInstr::GetIter { iter: 1, .. }));
    assert!(matches!(&cfg.block(1).instrs[0], HirInstr::HasNext { iter: 1, dest: 2, .. }));
    assert!(matches!(&cfg.block(2).instrs[0], HirInstr::Next { iter: 1, dest: 3, .. }));
    assert_eq!(cfg.term(2), Some(&Terminator::Jump(1)));
}

#[test]
fn a_region_keeps_the_slots_and_escapes_outer_loops() {
    let cfg = Cfg::build_seeded_with_loops(
        names(&["a", "b"]),
        &vec![assign("b", 1), assign("n", 2), stmt(StmtKind::Break)],
        &vec![(4, 9)],
    );
    assert_eq!(cfg.vars, names(&["a", "b", "n"]));
    assert_eq!(cfg.term(0), Some(&Terminator::EscapeJump(9)));
    assert_eq!(cfg.edge_count(), 0);
    let plain = Cfg::build_seeded(names(&["a"]), &vec![assign("a", 1)]);
    assert_eq!(plain.term(0), Some(&Terminator::FallOff));
    assert_eq!(plain.n_params, 0);
}

#[test]
fn edges_go_where_blocks_end() {
    let inner = stmt(StmtKind::If {
        branches: vec![(name("c"), vec![stmt(StmtKind::Break)])],
        orelse: None,
    });
    let body = vec![stmt(StmtKind::While { cond: name("c"), body: vec![inner], orelse: None })];
    let cfg = Cfg::build_fn(&names(&["c"]), &body);
    let mut edges = 0;
    for b in 0..cfg.node_count() {
        let expected = match cfg.term(b) {
            Some(Terminator::Jump(to)) => vec![*to],
            Some(Terminator::Branch { then_b, else_b, .. }) => vec![*else_b, *then_b],
            _ => vec![],
        };
        assert_eq!(cfg.successors(b), expected);
        edges += expected.len();
    }
    assert_eq!(cfg.edge_count(), edges);
}

#[test]
fn every_block_ends() {
    let body = vec![stmt(StmtKind::For {
        var: "x".to_string(),
        reference: true,
        owned: false,
        iter: name("xs"),
        body: vec![
            stmt(StmtKind::If {
                branches: vec![
                    (name("a"), vec![stmt(StmtKind::Continue)]),
                    (name("b"), vec![stmt(StmtKind::Return(None)), assign("y", 1)]),
                ],
                orelse: None,
            }),
            stmt(StmtKind::While {
                cond: name("a"),
                body: vec![stmt(StmtKind::Break)],
                orelse: Some(vec![stmt(StmtKind::Break)]),
            }),
        ],
        orelse: Some(vec![assign("z", 2)]),
    })];
    let cfg = Cfg::build_fn(&names(&["xs", "a", "b"]), &body);
    assert!(cfg.node_count() > 10);
    for b in 0..cfg.node_count() {
        match cfg.term(b).unwrap() {
            Terminator::Jump(to) => assert!(*to < cfg.node_count()),
            Terminator::Branch { then_b, else_b, .. } => {
                assert!(*then_b < cfg.node_count() && *else_b < cfg.node_count());
            }
            other => assert_eq!(other, &Terminator::Return(None)),
        }
    }
}
