use mojito::ast::{Expr, ExprKind, ImportName, ImportNames, Stmt, StmtKind};
use mojito::error::ParseError;
use mojito::linking::{
    chosen_candidate, declared_name, display_name, link, module_candidates, module_error_message,
    LoadedModule, ModuleError, ModuleImport,
};
use mojito::token::Token;

fn text(s: &str) -> String {
    s.to_string()
}

fn words(list: &[&str]) -> Vec<String> {
    list.iter().map(|w| text(w)).collect()
}

fn stmt(kind: StmtKind) -> Stmt {
    Stmt { kind, span: (0, 0), module: None }
}

fn constant(n: &str, value: i64) -> Stmt {
    let value = Expr { kind: ExprKind::Int(value), span: (0, 0), source: None };
    stmt(StmtKind::Comptime { name: text(n), value })
}

fn import(path: &str, names: &[&str]) -> Stmt {
    let list = names.iter().map(|n| ImportName { name: text(n), alias: None }).collect();
    stmt(StmtKind::FromImport {
        level: 0,
        path: vec![text(path)],
        names: ImportNames::Names(list),
    })
}

fn to(key: &str) -> ModuleImport {
    ModuleImport { key: text(key), module: text(key) }
}

fn module(key: &str, program: Vec<Stmt>, imports: Vec<ModuleImport>) -> LoadedModule {
    LoadedModule { key: text(key), program, imports }
}

#[test]
fn imported_declarations_come_first() {
    let modules = vec![
        module("a", vec![import("b", &["B"]), constant("A", 1)], vec![to("b")]),
        module("b", vec![constant("B", 2), stmt(StmtKind::Pass)], vec![]),
    ];
    let program = vec![import("a", &["A"]), constant("X", 3)];
    assert_eq!(
        link(&program, &vec![to("a")], &modules).unwrap(),
        vec![constant("B", 2), constant("A", 1), constant("X", 3)]
    );
}

#[test]
fn a_module_is_linked_once_and_cycles_end() {
    let modules = vec![
        module("a", vec![import("b", &["B"]), constant("A", 1)], vec![to("b")]),
        module("b", vec![import("a", &["A"]), constant("B", 2)], vec![to("a")]),
    ];
    let program = vec![import("a", &["A"]), import("b", &["B"]), import("a", &["A"])];
    assert_eq!(
        link(&program, &vec![to("a"), to("b"), to("a")], &modules).unwrap(),
        vec![constant("B", 2), constant("A", 1)]
    );
}

#[test]
fn a_program_without_imports_stays_as_it_is() {
    let program = vec![constant("X", 1), stmt(StmtKind::Pass)];
    assert_eq!(link(&program, &vec![], &vec![]).unwrap(), program);
}

#[test]
fn an_imported_name_must_be_declared() {
    let modules = vec![module("a", vec![constant("A", 1)], vec![])];
    let program = vec![import("a", &["A", "B"])];
    let error = link(&program, &vec![to("a")], &modules).unwrap_err();
    assert_eq!(error, ModuleError::NameNotFound { module: text("a"), name: text("B") });
    assert_eq!(module_error_message(&error, ""), "module 'a' has no declaration named 'B'");
}

#[test]
fn a_module_must_have_been_read() {
    let error = link(&vec![import("a", &[])], &vec![to("a")], &vec![]).unwrap_err();
    assert_eq!(error, ModuleError::NotRead { module: text("a") });
}

#[test]
fn module_errors_are_described() {
    let io = ModuleError::Io { module: text("m"), message: text("gone") };
    assert_eq!(module_error_message(&io, ""), "cannot load module 'm': gone");
    let err = ParseError::UnexpectedToken(Token::Comma, text("expected a name"));
    let parse = ModuleError::Parse { module: text("m"), err };
    assert_eq!(
        module_error_message(&parse, "Comma"),
        "in module 'm': Unexpected token Comma: expected a name"
    );
    assert_eq!(
        module_error_message(&ModuleError::EmptyModulePath, ""),
        "'from . import \u{2026}' (empty module path) is not supported yet"
    );
}

#[test]
fn modules_are_looked_for_in_order() {
    let dir = words(&["src", "app"]);
    let roots = vec![words(&["lib"]), words(&["std"])];
    let path = words(&["pkg", "m"]);
    assert_eq!(
        module_candidates(&dir, 0, &path, &roots).unwrap(),
        vec![
            words(&["src", "app", "pkg", "m.mojo"]),
            words(&["lib", "pkg", "m.mojo"]),
            words(&["std", "pkg", "m.mojo"])
        ]
    );
    assert_eq!(
        module_candidates(&dir, 2, &path, &roots).unwrap(),
        vec![words(&["src", "pkg", "m.mojo"])]
    );
    assert_eq!(
        module_candidates(&words(&["/", "a"]), 4, &path, &roots).unwrap(),
        vec![words(&["/", "pkg", "m.mojo"])]
    );
    assert_eq!(
        module_candidates(&dir, 1, &vec![], &roots),
        Err(ModuleError::EmptyModulePath)
    );
}

#[test]
fn the_first_file_that_exists_is_taken() {
    assert_eq!(chosen_candidate(&vec![false, true, true]), 1);
    assert_eq!(chosen_candidate(&vec![false, false]), 0);
    assert_eq!(display_name(&words(&["a", "b", "c"])), "a.b.c");
}

#[test]
fn declarations_have_names() {
    assert_eq!(declared_name(&constant("A", 1)), Some(text("A")));
    assert_eq!(declared_name(&stmt(StmtKind::Pass)), None);
}
