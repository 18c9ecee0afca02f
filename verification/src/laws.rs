//! What holds of the passes as a whole.

use crate::ast::{FnParamView, StmtKindView, StmtView};
use crate::checked::CheckedProgramView;
use crate::cli::{and_roots, command_line, CliArgsView};
use crate::ct::{ct_eval, BindingsView};
use crate::evaluate::{range_holds, values_of_range};
use crate::functions::{flattened, function_ended};
use crate::hir::CfgView;
use crate::lifting::{lifted, lowered_lifted, with_function, with_lifted};
use crate::linking::{
    candidate_files, declarations_hoisted, decls_exported, entry_resolved, file_taken_up, linked,
    module_loaded, module_of_key, modules_limit, modules_loaded, names_checked, next_import,
    path_under, paths_below, stmt_exported, stmt_of_entry, stmts_kept, LinkerView,
    LoadedModuleView, ModuleErrorView, ModuleImportView,
};
use crate::mir::MirFunctionView;
use crate::mono::{asked, MonoView};
use crate::nested::{
    bound_names, captures_of, names_of_params, referred_by_stmts, selected_captures,
};
use crate::text::{insert_name, insert_name_keeps_order, sorted_names};
use crate::types::{CtExprView, CtValueView, TyView};
use vstd::arithmetic::div_mod::lemma_fundamental_div_mod;
use vstd::prelude::*;

verus! {

/// Whether a statement imports names from a module.
pub open spec fn is_import(stmt: StmtView) -> bool {
    stmt.kind is FromImport
}

proof fn entry_without_imports(
    program: Seq<StmtView>,
    imports: Seq<ModuleImportView>,
    modules: Seq<LoadedModuleView>,
    i: nat,
    body: Seq<StmtView>,
    linker: LinkerView,
    k: usize,
)
    requires
        i <= program.len(),
        forall|j: int| 0 <= j < program.len() ==> !is_import(#[trigger] program[j]),
    ensures
        entry_resolved(program, imports, modules, i, body, linker, k) == Ok::<
            (Seq<StmtView>, LinkerView),
            ModuleErrorView,
        >((body + program.skip(i as int), linker)),
    decreases program.len() - i,
{
    if i < program.len() {
        reveal(stmt_of_entry);
        reveal(stmts_kept);
        reveal(next_import);
        let stmt = program[i as int];
        assert(!is_import(stmt));
        entry_without_imports(program, imports, modules, i + 1, body.push(stmt), linker, k);
        assert(body.push(stmt) + program.skip(i + 1int) =~= body + program.skip(i as int));
    } else {
        assert(body + program.skip(i as int) =~= body);
    }
}

/// A file that imports nothing is linked to itself.
pub proof fn linking_nothing_changes_nothing(
    program: Seq<StmtView>,
    imports: Seq<ModuleImportView>,
    modules: Seq<LoadedModuleView>,
)
    requires
        forall|j: int| 0 <= j < program.len() ==> !is_import(#[trigger] program[j]),
    ensures
        linked(program, imports, modules) == Ok::<Seq<StmtView>, ModuleErrorView>(program),
{
    reveal(linked);
    let start = LinkerView { loaded: Seq::empty(), exports: Seq::empty(), decls: Seq::empty() };
    entry_without_imports(program, imports, modules, 0, Seq::empty(), start, 0);
    assert(Seq::<StmtView>::empty() + program.skip(0) =~= program);
    assert(Seq::<StmtView>::empty() + program =~= program);
}

/// Whether no file is taken up twice.
pub open spec fn taken_up_once(linker: LinkerView) -> bool {
    forall|a: int, b: int|
        0 <= a < b < linker.loaded.len() ==> #[trigger] linker.loaded[a] != #[trigger] linker.loaded[b]
}

/// Whether one state of linking goes on from another: what was there is still there,
/// before what has been added.
pub open spec fn goes_on(before: LinkerView, later: LinkerView) -> bool {
    &&& before.loaded.is_prefix_of(later.loaded)
    &&& before.decls.is_prefix_of(later.decls)
}

proof fn exporting_appends(program: Seq<StmtView>, i: nat, out: Seq<StmtView>)
    ensures
        out.is_prefix_of(decls_exported(program, i, out)),
    decreases program.len() - i,
{
    if i < program.len() {
        let stmt = program[i as int];
        if stmt_exported(stmt) {
            exporting_appends(program, i + 1, out.push(stmt));
        } else {
            exporting_appends(program, i + 1, out);
        }
    }
}

/// Taking up a module keeps what has been taken up, in its place, and takes up no
/// file twice, whatever cycles the imports have. The module is taken up afterwards.
pub proof fn loading_goes_on(
    import: ModuleImportView,
    modules: Seq<LoadedModuleView>,
    linker: LinkerView,
    depth: u32,
)
    requires
        taken_up_once(linker),
    ensures
        module_loaded(import, modules, linker, depth) matches Ok(later) ==> {
            &&& goes_on(linker, later)
            &&& taken_up_once(later)
            &&& later.loaded.contains(import.key)
        },
    decreases depth, import, 1nat,
{
    if !linker.loaded.contains(import.key) {
        match module_of_key(modules, import.key, 0, None) {
            Some(entry) => {
                if depth > 0 {
                    reveal(file_taken_up);
                    reveal(declarations_hoisted);
                    let inside = file_taken_up(linker, import.key);
                    assert(inside.loaded[linker.loaded.len() as int] == import.key);
                    assert(taken_up_once(inside));
                    loading_all_goes_on(entry.imports, modules, (depth - 1) as u32, 0, inside);
                    match modules_loaded(entry.imports, modules, (depth - 1) as u32, 0, inside) {
                        Ok(rest) => {
                            exporting_appends(entry.program, 0, rest.decls);
                            assert(rest.loaded[linker.loaded.len() as int] == import.key);
                        },
                        Err(_) => {},
                    }
                }
            },
            None => {},
        }
    }
}

proof fn loading_all_goes_on(
    imports: Seq<ModuleImportView>,
    modules: Seq<LoadedModuleView>,
    depth: u32,
    i: nat,
    linker: LinkerView,
)
    requires
        taken_up_once(linker),
    ensures
        modules_loaded(imports, modules, depth, i, linker) matches Ok(later) ==> {
            &&& goes_on(linker, later)
            &&& taken_up_once(later)
        },
    decreases depth, imports, (imports.len() - i) as nat,
{
    if i < imports.len() {
        let import = imports[i as int];
        loading_goes_on(import, modules, linker, depth);
        match module_loaded(import, modules, linker, depth) {
            Ok(rest) => {
                loading_all_goes_on(imports, modules, depth, i + 1, rest);
            },
            Err(_) => {},
        }
    }
}

/// A module is loaded once: to load it again changes nothing.
pub proof fn loading_again_changes_nothing(
    import: ModuleImportView,
    modules: Seq<LoadedModuleView>,
    linker: LinkerView,
    depth: u32,
    again: u32,
)
    requires
        taken_up_once(linker),
    ensures
        module_loaded(import, modules, linker, depth) matches Ok(later) ==> module_loaded(
            import,
            modules,
            later,
            again,
        ) == Ok::<LinkerView, ModuleErrorView>(later),
{
    loading_goes_on(import, modules, linker, depth);
}

proof fn paths_below_append(
    roots: Seq<Seq<Seq<char>>>,
    path: Seq<Seq<char>>,
    i: nat,
    out: Seq<Seq<Seq<char>>>,
)
    requires
        i <= roots.len(),
    ensures
        paths_below(roots, path, i, out).len() == out.len() + (roots.len() - i),
        forall|j: int|
            0 <= j < out.len() ==> #[trigger] paths_below(roots, path, i, out)[j] == out[j],
        forall|j: int|
            out.len() <= j < out.len() + (roots.len() - i) ==> #[trigger] paths_below(
                roots,
                path,
                i,
                out,
            )[j] == path_under(path, 0, roots[j - out.len() + i], 0),
    decreases roots.len() - i,
{
    if i < roots.len() {
        paths_below_append(roots, path, i + 1, out.push(path_under(path, 0, roots[i as int], 0)));
    }
}

/// An import without dots is looked for in the directory of the importing file first,
/// and then in the search roots in their order.
pub proof fn local_directory_comes_first(
    from_dir: Seq<Seq<char>>,
    path: Seq<Seq<char>>,
    roots: Seq<Seq<Seq<char>>>,
)
    requires
        path.len() > 0,
    ensures
        candidate_files(from_dir, 0, path, roots) matches Ok(files) && {
            &&& files.len() == roots.len() + 1
            &&& files[0] == path_under(path, 0, from_dir, 0)
            &&& forall|j: int|
                0 <= j < roots.len() ==> #[trigger] files[j + 1] == path_under(
                    path,
                    0,
                    roots[j],
                    0,
                )
        },
{
    reveal(candidate_files);
    let local = seq![path_under(path, 0, from_dir, 0)];
    paths_below_append(roots, path, 0, local);
    let files = paths_below(roots, path, 0, local);
    assert forall|j: int| 0 <= j < roots.len() implies #[trigger] files[j + 1] == path_under(
        path,
        0,
        roots[j],
        0,
    ) by {
        assert(files[j + 1] == path_under(path, 0, roots[j + 1 - 1 + 0], 0));
    }
}

proof fn roots_append(more: Seq<Seq<char>>, i: nat, out: Seq<Seq<char>>)
    requires
        i <= more.len(),
    ensures
        and_roots(more, i, out) == out + more.skip(i as int),
    decreases more.len() - i,
{
    if i < more.len() {
        roots_append(more, i + 1, out.push(more[i as int]));
        assert(out.push(more[i as int]) + more.skip(i + 1int) =~= out + more.skip(i as int));
    } else {
        assert(out + more.skip(i as int) =~= out);
    }
}

/// The bundled search roots come behind all others, in their order.
pub proof fn bundled_roots_come_last(raw: Seq<Seq<char>>, bundled: Seq<Seq<char>>)
    ensures
        command_line(raw, bundled) matches Ok(cli) ==> {
            let roots = cli.link_options.search_roots;
            &&& roots.len() >= bundled.len()
            &&& roots.skip(roots.len() - bundled.len()) == bundled
        },
        (command_line(raw, bundled) is Ok) == (command_line(raw, Seq::empty()) is Ok),
{
    reveal(command_line);
    match command_line(raw, bundled) {
        Ok(cli) => {
            match command_line(raw, Seq::empty()) {
                Ok(alone) => {
                    let own = alone.link_options.search_roots;
                    roots_append(Seq::empty(), 0, own);
                    roots_append(bundled, 0, own);
                    assert(bundled.skip(0) =~= bundled);
                    let roots = cli.link_options.search_roots;
                    assert(roots.skip(roots.len() - bundled.len()) =~= bundled);
                },
                Err(_) => {},
            }
        },
        Err(_) => {},
    }
}

/// Whether a name is captured: the nested function uses it, does not bind it, it belongs to
/// the enclosing frame, and it is no nested function.
pub open spec fn is_captured(
    used: Seq<Seq<char>>,
    inner: Seq<Seq<char>>,
    outer: Seq<Seq<char>>,
    nested: Seq<Seq<char>>,
    name: Seq<char>,
) -> bool {
    used.contains(name) && !inner.contains(name) && outer.contains(name) && !nested.contains(name)
}

/// Whether a nested function beside `self_name` is among the used names.
pub open spec fn refers_to_sibling(
    used: Seq<Seq<char>>,
    inner: Seq<Seq<char>>,
    outer: Seq<Seq<char>>,
    nested: Seq<Seq<char>>,
    self_name: Seq<char>,
) -> bool {
    exists|name: Seq<char>| #[trigger]
        used.contains(name) && !inner.contains(name) && outer.contains(name) && nested.contains(
            name,
        ) && name != self_name
}

proof fn selected_are_captures(
    used: Seq<Seq<char>>,
    inner: Seq<Seq<char>>,
    outer: Seq<Seq<char>>,
    nested: Seq<Seq<char>>,
    self_name: Seq<char>,
    i: nat,
    out: Seq<Seq<char>>,
)
    requires
        i <= used.len(),
        sorted_names(out),
        forall|n: Seq<char>| #[trigger]
            out.contains(n) <==> is_captured(used.take(i as int), inner, outer, nested, n),
        !refers_to_sibling(used.take(i as int), inner, outer, nested, self_name),
    ensures
        match selected_captures(used, inner, outer, nested, self_name, i, out) {
            Some(found) => {
                &&& sorted_names(found)
                &&& forall|n: Seq<char>| #[trigger]
                    found.contains(n) <==> is_captured(used, inner, outer, nested, n)
                &&& !refers_to_sibling(used, inner, outer, nested, self_name)
            },
            None => refers_to_sibling(used, inner, outer, nested, self_name),
        },
    decreases used.len() - i,
{
    if i < used.len() {
        let name = used[i as int];
        let before = used.take(i as int);
        let now = used.take(i + 1int);
        assert(now =~= before.push(name));
        assert forall|n: Seq<char>| #[trigger]
            now.contains(n) <==> before.contains(n) || n == name by {
            if before.contains(n) {
                let k = choose|k: int| 0 <= k < before.len() && before[k] == n;
                assert(now[k] == n);
            }
            if n == name {
                assert(now[i as int] == n);
            }
        }
        if !inner.contains(name) && outer.contains(name) {
            if nested.contains(name) {
                if name != self_name {
                    assert(used.contains(name));
                } else {
                    selected_are_captures(used, inner, outer, nested, self_name, i + 1, out);
                }
            } else {
                insert_name_keeps_order(out, name);
                selected_are_captures(
                    used,
                    inner,
                    outer,
                    nested,
                    self_name,
                    i + 1,
                    insert_name(out, name),
                );
            }
        } else {
            selected_are_captures(used, inner, outer, nested, self_name, i + 1, out);
        }
    } else {
        assert(used.take(i as int) =~= used);
    }
}

/// A nested function captures exactly the names of the enclosing frame that it uses, does
/// not bind itself and that are no nested functions, in increasing order and each one once.
/// It has no captures, since it cannot be lifted, if and only if it declares a function,
/// struct or trait of its own or refers to a nested function beside it.
pub proof fn captures_are_ordered(
    params: Seq<FnParamView>,
    body: Seq<StmtView>,
    outer: Seq<Seq<char>>,
    nested: Seq<Seq<char>>,
    self_name: Seq<char>,
)
    ensures
        ({
            let inner = bound_names(body, 0, names_of_params(params, 0, Seq::empty()));
            let (used, flat) = referred_by_stmts(body, 0, Seq::empty(), true);
            match captures_of(params, body, outer, nested, self_name) {
                Some(found) => {
                    &&& flat
                    &&& !refers_to_sibling(used, inner, outer, nested, self_name)
                    &&& sorted_names(found)
                    &&& forall|n: Seq<char>| #[trigger]
                        found.contains(n) <==> is_captured(used, inner, outer, nested, n)
                },
                None => !flat || refers_to_sibling(used, inner, outer, nested, self_name),
            }
        }),
{
    reveal(captures_of);
    let inner = bound_names(body, 0, names_of_params(params, 0, Seq::empty()));
    let (used, flat) = referred_by_stmts(body, 0, Seq::empty(), true);
    if flat {
        assert(used.take(0) =~= Seq::<Seq<char>>::empty());
        assert(forall|n: Seq<char>| !(#[trigger] Seq::<Seq<char>>::empty().contains(n)));
        selected_are_captures(used, inner, outer, nested, self_name, 0, Seq::empty());
    }
}

/// A specialization that is asked for again is not made again.
pub proof fn asked_for_once(
    mono: MonoView,
    special: Seq<char>,
    name: Seq<char>,
    vals: Seq<CtValueView>,
    first: Seq<char>,
    second: Seq<char>,
    fuel: usize,
    rest: usize,
)
    ensures
        asked(asked(mono, special, name, vals, first, fuel), special, name, vals, second, rest).queue
            == asked(mono, special, name, vals, first, fuel).queue,
        asked(mono, special, name, vals, first, fuel).done.contains(special),
{
    reveal(asked);
    let once = asked(mono, special, name, vals, first, fuel);
    if !mono.done.contains(special) {
        assert(once.done[mono.done.len() as int] == special);
    }
}

/// The integers of a range go from its start by its step, all of them come before its stop,
/// and none is left out.
pub proof fn range_goes_by_steps(start: i64, stop: i64, step: i64)
    requires
        step != 0,
    ensures
        ({
            let values = values_of_range(start, stop, step);
            let past = start + values.len() * step;
            &&& forall|k: int|
                0 <= k < values.len() ==> {
                    let n = start + k * step;
                    &&& #[trigger] values[k] == CtValueView::Int(n as i64)
                    &&& i64::MIN <= n <= i64::MAX
                    &&& if step > 0 {
                        n < stop
                    } else {
                        n > stop
                    }
                }
            &&& if step > 0 {
                past >= stop
            } else {
                past <= stop
            }
        }),
{
    let values = values_of_range(start, stop, step);
    assert forall|k: int| 0 <= k < values.len() implies {
        let n = start + k * step;
        &&& #[trigger] values[k] == CtValueView::Int(n as i64)
        &&& i64::MIN <= n <= i64::MAX
        &&& if step > 0 {
            n < stop
        } else {
            n > stop
        }
    } by {
        range_holds(start as int, stop as int, step as int, k);
        assert(step > 0 ==> k * step >= 0) by (nonlinear_arith)
            requires
                k >= 0,
        ;
        assert(step < 0 ==> k * step <= 0) by (nonlinear_arith)
            requires
                k >= 0,
        ;
    }
    range_holds(start as int, stop as int, step as int, values.len() as int);
}

pub(crate) proof fn quotient_fits(a: int, b: int, q: int, r: int)
    requires
        i64::MIN <= a <= i64::MAX,
        i64::MIN <= b <= i64::MAX,
        b != 0,
        !(a == i64::MIN && b == -1),
        a == q * b + r,
        0 <= r,
        b > 0 ==> r < b,
        b < 0 ==> r < -b,
    ensures
        i64::MIN <= q <= i64::MAX,
{
    if q > i64::MAX {
        if b > 0 {
            assert(q * b >= q) by (nonlinear_arith)
                requires
                    b >= 1,
                    q >= 0,
            ;
        } else if b < -1 {
            assert(q * b == (q - 1) * b + b) by (nonlinear_arith);
            assert((q - 1) * b <= -2 * (q - 1)) by (nonlinear_arith)
                requires
                    b <= -2,
                    q >= 1,
            ;
        } else {
            assert(q * b == -q) by (nonlinear_arith)
                requires
                    b == -1,
            ;
        }
    } else if q < i64::MIN {
        if b > 0 {
            assert(q * b + b <= q + 1) by (nonlinear_arith)
                requires
                    b >= 1,
                    q <= -1,
            ;
        } else {
            assert(q * b >= -q) by (nonlinear_arith)
                requires
                    b <= -1,
                    q <= 0,
            ;
        }
    }
}

/// Quotient and remainder of two integers belong together: the remainder is never negative
/// and smaller than the divisor, and both are there unless the divisor is zero or the
/// quotient leaves 64 bits.
pub proof fn quotient_and_remainder(
    left: CtExprView,
    right: CtExprView,
    params: BindingsView,
    a: i64,
    b: i64,
)
    requires
        ct_eval(left, params) == Some(CtValueView::Int(a)),
        ct_eval(right, params) == Some(CtValueView::Int(b)),
    ensures
        ({
            let quotient = ct_eval(CtExprView::FloorDiv(Box::new(left), Box::new(right)), params);
            let remainder = ct_eval(CtExprView::Mod(Box::new(left), Box::new(right)), params);
            if b == 0 || (a == i64::MIN && b == -1) {
                quotient is None && remainder is None
            } else {
                &&& quotient matches Some(CtValueView::Int(q))
                &&& remainder matches Some(CtValueView::Int(r))
                &&& a == q * b + r
                &&& 0 <= r
                &&& b > 0 ==> r < b
                &&& b < 0 ==> r < -b
            }
        }),
{
    if b != 0 && !(a == i64::MIN && b == -1) {
        let q = a as int / b as int;
        let r = a as int % b as int;
        lemma_fundamental_div_mod(a as int, b as int);
        assert(a == q * b + r) by (nonlinear_arith)
            requires
                a == b * q + r,
        ;
        assert(0 <= r && (b > 0 ==> r < b) && (b < 0 ==> r < -b)) by (nonlinear_arith)
            requires
                r == a as int % b as int,
                b != 0,
        ;
        quotient_fits(a as int, b as int, q, r);
    }
}

/// A flattened function has a name for each of its slots, as far as slots can be
/// counted, and keeps the number of its parameters.
pub proof fn slots_have_names(
    cfg: CfgView,
    nested: Seq<crate::flatten::NestedInfoView>,
    overloads: crate::checked::OverloadSetsView,
    returns_reference: bool,
    reference_parameters: Seq<bool>,
)
    ensures
        ({
            let f = flattened(cfg, nested, overloads, returns_reference, reference_parameters);
            &&& f.var_names.len() <= usize::MAX ==> f.n_vars == f.var_names.len()
            &&& f.n_params == cfg.n_params
        }),
{
    reveal(flattened);
    reveal(function_ended);
}

proof fn lifting_appends(
    defs: Seq<StmtView>,
    outer: Seq<char>,
    bound: Seq<Seq<char>>,
    names: Seq<Seq<char>>,
    outer_body: Seq<StmtView>,
    registry: Seq<crate::flatten::NestedInfoView>,
    checked: CheckedProgramView,
    i: nat,
    out: Seq<(Seq<char>, MirFunctionView)>,
)
    ensures
        out.is_prefix_of(
            with_lifted(defs, outer, bound, names, outer_body, registry, checked, i, out),
        ),
    decreases defs.len() - i,
{
    if i < defs.len() {
        let def = defs[i as int];
        match lifted(def, outer, bound, names) {
            Some(info) => match lowered_lifted(def, info, outer_body, registry, checked) {
                Some(function) => {
                    lifting_appends(
                        defs,
                        outer,
                        bound,
                        names,
                        outer_body,
                        registry,
                        checked,
                        i + 1,
                        out.push((info.mangled, function)),
                    );
                },
                None => {
                    lifting_appends(defs, outer, bound, names, outer_body, registry, checked, i + 1, out);
                },
            },
            None => {
                lifting_appends(defs, outer, bound, names, outer_body, registry, checked, i + 1, out);
            },
        }
    }
}

/// Lowering a function keeps the functions before it and puts the function behind
/// them under its name; what is lifted out of it follows.
pub proof fn functions_are_appended(
    checked: CheckedProgramView,
    name: Seq<char>,
    parameter_names: Seq<Seq<char>>,
    parameter_types: Seq<TyView>,
    owned_parameters: Seq<bool>,
    reference_parameters: Seq<bool>,
    returns_reference: bool,
    raises: bool,
    body: Seq<StmtView>,
    functions: Seq<(Seq<char>, MirFunctionView)>,
)
    ensures
        ({
            let all = with_function(
                checked,
                name,
                parameter_names,
                parameter_types,
                owned_parameters,
                reference_parameters,
                returns_reference,
                raises,
                body,
                functions,
            );
            &&& functions.is_prefix_of(all)
            &&& all.len() > functions.len()
            &&& all[functions.len() as int].0 == name
        }),
{
    reveal(with_function);
    let bound = bound_names(body, 0, parameter_names);
    let defs = crate::nested::nested_defs(body, 0, Seq::empty());
    let names = crate::lifting::names_of_defs(defs, 0, Seq::empty());
    let registry = crate::lifting::lifted_all(defs, name, bound, names, 0, Seq::empty());
    let cfg = crate::cfg::function_cfg(parameter_names, Seq::empty(), body, checked.expressions);
    let function = crate::lifting::signed(
        flattened(cfg, registry, checked.overloads, returns_reference, reference_parameters),
        parameter_types,
        owned_parameters,
        reference_parameters,
        raises,
    );
    let out = functions.push((name, function));
    lifting_appends(defs, name, bound, names, body, registry, checked, 0, out);
    let all = with_lifted(defs, name, bound, names, body, registry, checked, 0, out);
    assert(all[functions.len() as int] == out[functions.len() as int]);
}

} // verus!
