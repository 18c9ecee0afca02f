# mojito

A compiler for a subset of Mojo, written in Rust and verified with Verus. `src/` is the
library; every function in it states what it returns, and Verus proves it.

* `lexer`, `scan`, `token`: tokens of a source text.
* `ast`, `types`, `origin`, `ct`: syntax, types, origins of references and compile-time
  values.
* `linking`: a program and the modules it imports become one program.
* `elab`, `evaluate`, `ctfe`, `elaborate`, `rewrite`, `packs`, `stamp`, `mono`,
  `specialize`, `mangle`: compile-time constants, branches, loops and templates.
* `hir`, `scopes`, `locals`, `facts`, `lower`, `cfg`, `blocks`, `graph`: control-flow graphs.
* `mir`, `flatten`, `places`, `exprs`, `calls`, `receivers`, `comprehensions`, `stmts`,
  `regions`, `functions`, `nested`, `lifting`, `program`: the flat form of programs.
* `verify`, `show`, `debug`: checks of the flat form, and what messages show of types,
  values and syntax.
* `values`, `numbers`, `simd`, `evaluator`, `crossing`: running of programs, also of calls
  at compile time.
* `cli`, `error`, `report`: the command line and what is reported.
* `laws`, `naming`, `balance`, `blank`, `growth`, `wiring`, `sealing`, `ends`, `aims`,
  `running`, `progress`, `lasting`, `untouched`, `ordinary`, `resolved`, `instances`, `spending`,
  `findings`: what holds of the passes as a whole.

A call that has to be run at compile time, and a question about floats, is
handed back to the caller, who tries again with the answer.

`app/` is the command line around the library: it reads files and computes with floats.
`tests/` runs the library.
