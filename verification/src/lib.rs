//! A verified front end and middle end for a strict subset of the Mojo language.

pub mod aims;
pub mod arguments;
pub mod arith;
pub mod ast;
pub mod balance;
pub mod binding;
pub mod blank;
pub mod blocks;
pub mod calling;
pub mod calls;
pub mod cfg;
pub mod checked;
pub mod cli;
pub mod collections;
pub mod comprehensions;
pub mod computing;
pub mod crossing;
pub mod ct;
pub mod ctfe;
pub mod debug;
pub mod elab;
pub mod elaborate;
pub mod ends;
pub mod error;
pub mod evaluate;
pub mod evaluator;
pub mod evidence;
pub mod exprs;
pub mod facts;
pub mod findings;
pub mod flatten;
pub mod following;
pub mod functions;
pub mod graph;
pub mod growth;
pub mod hir;
pub mod importing;
pub mod instances;
pub mod lanes;
pub mod lasting;
pub mod laws;
pub mod lexer;
pub mod lifting;
pub mod linking;
pub mod locals;
pub mod lower;
pub mod managing;
pub mod mangle;
pub mod mir;
pub mod mono;
pub mod naming;
pub mod nested;
pub mod numbers;
pub mod operators;
pub mod ordinary;
pub mod origin;
pub mod packs;
pub mod paths;
pub mod places;
pub mod program;
pub mod progress;
pub mod receivers;
pub mod referring;
pub mod regions;
pub mod report;
pub mod resolved;
pub mod rewrite;
pub mod rounds;
pub mod running;
pub mod scan;
pub mod scopes;
pub mod sealing;
pub mod show;
pub mod showing;
pub mod simd;
pub mod soundness;
pub mod specialize;
pub mod spelling;
pub mod spending;
pub mod stamp;
pub mod stmts;
pub mod templates;
pub mod text;
pub mod token;
pub mod types;
pub mod unrolling;
pub mod untouched;
pub mod updating;
pub mod values;
pub mod verify;
pub mod wiring;
