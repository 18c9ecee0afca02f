//! Linking: the modules a file imports become one program with it.

use crate::ast::{
    ImportName, ImportNameView, ImportNames, ImportNamesView, Stmt, StmtKind, StmtKindView,
    StmtView, clone_stmt, clone_stmt_list, import_name_list_view, stmt_list_view,
    unfold_import_names, unfold_stmt_kind,
};
use crate::elaborate::joined_stmts;
use crate::error::ParseError;
use crate::flatten::{following_index, next_index};
use crate::text::{
    cat2, cat3, cat4, cat5, clone_string_list, contains_name, opt_view, same_string, same_text,
    string_list_view,
};
use vstd::prelude::*;

verus! {

/// Where modules are looked for.
#[derive(Debug, PartialEq, Eq)]
pub struct LinkOptions {
    /// Directories searched for modules behind the directory of the importing file.
    pub search_roots: Vec<String>,
}

/// What a [`LinkOptions`] holds.
pub struct LinkOptionsView {
    pub search_roots: Seq<Seq<char>>,
}

/// Why modules cannot be linked.
#[derive(Debug, PartialEq, Eq)]
#[allow(inconsistent_fields)]
pub enum ModuleError {
    /// A file that cannot be read, and why.
    Io { module: String, message: String },
    /// A file that cannot be parsed, and why.
    Parse { module: String, err: ParseError },
    /// A name that the module does not declare.
    NameNotFound { module: String, name: String },
    /// An import without a module.
    EmptyModulePath,
    /// A module that has not been read.
    NotRead { module: String },
}

/// What a [`ModuleError`] holds.
#[allow(inconsistent_fields)]
pub enum ModuleErrorView {
    Io { module: Seq<char>, message: Seq<char> },
    Parse { module: Seq<char>, err: ParseError },
    NameNotFound { module: Seq<char>, name: Seq<char> },
    EmptyModulePath,
    NotRead { module: Seq<char> },
}

/// The module that an import goes to.
#[derive(Debug, PartialEq, Eq)]
pub struct ModuleImport {
    /// Names the file of the module.
    pub key: String,
    /// The name of the module in messages.
    pub module: String,
}

/// What a [`ModuleImport`] holds.
pub struct ModuleImportView {
    pub key: Seq<char>,
    pub module: Seq<char>,
}

/// A module that has been read.
#[derive(Debug, PartialEq, Eq)]
pub struct LoadedModule {
    /// Names the file: the same for every path to it.
    pub key: String,
    pub program: Vec<Stmt>,
    /// Where its imports go, in their order.
    pub imports: Vec<ModuleImport>,
}

/// What a [`LoadedModule`] holds.
pub struct LoadedModuleView {
    pub key: Seq<char>,
    pub program: Seq<StmtView>,
    pub imports: Seq<ModuleImportView>,
}

/// The names a module declares.
#[derive(Debug, PartialEq, Eq)]
pub struct Exports {
    pub key: String,
    pub names: Vec<String>,
}

/// What a [`Exports`] holds.
pub struct ExportsView {
    pub key: Seq<char>,
    pub names: Seq<Seq<char>>,
}

/// The modules taken up so far.
#[derive(Debug, PartialEq, Eq)]
pub struct Linker {
    /// The files that have been taken up.
    pub loaded: Vec<String>,
    /// What they declare.
    pub exports: Vec<Exports>,
    /// Their declarations, those of dependencies first.
    pub decls: Vec<Stmt>,
}

/// What a [`Linker`] holds.
pub struct LinkerView {
    pub loaded: Seq<Seq<char>>,
    pub exports: Seq<ExportsView>,
    pub decls: Seq<StmtView>,
}

pub open spec fn link_options_view(x: LinkOptions) -> LinkOptionsView
    decreases x,
{
    LinkOptionsView {
        search_roots: string_list_view(x.search_roots@),
    }
}

impl View for LinkOptions {
    type V = LinkOptionsView;

    open spec fn view(&self) -> LinkOptionsView {
        link_options_view(*self)
    }
}

pub fn clone_link_options(x: &LinkOptions) -> (r: LinkOptions)
    ensures
        link_options_view(r) == link_options_view(*x),
    decreases x,
{
    let r = LinkOptions {
        search_roots: clone_string_list((&x.search_roots)),
    };
    proof {
        unfold_link_options(*x);
        unfold_link_options(r);
    }
    r
}

impl Clone for LinkOptions {
    fn clone(&self) -> (r: Self)
        ensures
            r@ == self@,
    {
        clone_link_options(self)
    }
}

pub open spec fn module_error_view(x: ModuleError) -> ModuleErrorView
    decreases x,
{
    match x {
        ModuleError::Io { module, message } => ModuleErrorView::Io { module: module@, message: message@ },
        ModuleError::Parse { module, err } => ModuleErrorView::Parse { module: module@, err },
        ModuleError::NameNotFound { module, name } => ModuleErrorView::NameNotFound { module: module@, name: name@ },
        ModuleError::EmptyModulePath => ModuleErrorView::EmptyModulePath,
        ModuleError::NotRead { module } => ModuleErrorView::NotRead { module: module@ },
    }
}

impl View for ModuleError {
    type V = ModuleErrorView;

    open spec fn view(&self) -> ModuleErrorView {
        module_error_view(*self)
    }
}

pub open spec fn module_import_view(x: ModuleImport) -> ModuleImportView
    decreases x,
{
    ModuleImportView {
        key: x.key@,
        module: x.module@,
    }
}

impl View for ModuleImport {
    type V = ModuleImportView;

    open spec fn view(&self) -> ModuleImportView {
        module_import_view(*self)
    }
}

pub fn clone_module_import(x: &ModuleImport) -> (r: ModuleImport)
    ensures
        module_import_view(r) == module_import_view(*x),
    decreases x,
{
    ModuleImport {
        key: (&x.key).clone(),
        module: (&x.module).clone(),
    }
}

impl Clone for ModuleImport {
    fn clone(&self) -> (r: Self)
        ensures
            r@ == self@,
    {
        clone_module_import(self)
    }
}

pub open spec fn loaded_module_view(x: LoadedModule) -> LoadedModuleView
    decreases x,
{
    LoadedModuleView {
        key: x.key@,
        program: stmt_list_view(x.program@),
        imports: module_import_list_view(x.imports@),
    }
}

impl View for LoadedModule {
    type V = LoadedModuleView;

    open spec fn view(&self) -> LoadedModuleView {
        loaded_module_view(*self)
    }
}

pub fn clone_loaded_module(x: &LoadedModule) -> (r: LoadedModule)
    ensures
        loaded_module_view(r) == loaded_module_view(*x),
    decreases x,
{
    let r = LoadedModule {
        key: (&x.key).clone(),
        program: clone_stmt_list((&x.program)),
        imports: clone_module_import_list((&x.imports)),
    };
    proof {
        unfold_loaded_module(*x);
        unfold_loaded_module(r);
    }
    r
}

impl Clone for LoadedModule {
    fn clone(&self) -> (r: Self)
        ensures
            r@ == self@,
    {
        clone_loaded_module(self)
    }
}

pub open spec fn exports_view(x: Exports) -> ExportsView
    decreases x,
{
    ExportsView {
        key: x.key@,
        names: string_list_view(x.names@),
    }
}

impl View for Exports {
    type V = ExportsView;

    open spec fn view(&self) -> ExportsView {
        exports_view(*self)
    }
}

pub fn clone_exports(x: &Exports) -> (r: Exports)
    ensures
        exports_view(r) == exports_view(*x),
    decreases x,
{
    let r = Exports {
        key: (&x.key).clone(),
        names: clone_string_list((&x.names)),
    };
    proof {
        unfold_exports(*x);
        unfold_exports(r);
    }
    r
}

impl Clone for Exports {
    fn clone(&self) -> (r: Self)
        ensures
            r@ == self@,
    {
        clone_exports(self)
    }
}

pub open spec fn linker_view(x: Linker) -> LinkerView
    decreases x,
{
    LinkerView {
        loaded: string_list_view(x.loaded@),
        exports: exports_list_view(x.exports@),
        decls: stmt_list_view(x.decls@),
    }
}

impl View for Linker {
    type V = LinkerView;

    open spec fn view(&self) -> LinkerView {
        linker_view(*self)
    }
}

pub fn clone_linker(x: &Linker) -> (r: Linker)
    ensures
        linker_view(r) == linker_view(*x),
    decreases x,
{
    let r = Linker {
        loaded: clone_string_list((&x.loaded)),
        exports: clone_exports_list((&x.exports)),
        decls: clone_stmt_list((&x.decls)),
    };
    proof {
        unfold_linker(*x);
        unfold_linker(r);
    }
    r
}

impl Clone for Linker {
    fn clone(&self) -> (r: Self)
        ensures
            r@ == self@,
    {
        clone_linker(self)
    }
}

pub open spec fn module_import_list_view(s: Seq<ModuleImport>) -> Seq<ModuleImportView>
    decreases s,
{
    Seq::new(s.len(), |i: int| if 0 <= i < s.len() { module_import_view(s[i]) } else { arbitrary() })
}

pub fn clone_module_import_list(v: &Vec<ModuleImport>) -> (r: Vec<ModuleImport>)
    ensures
        module_import_list_view(r@) == module_import_list_view(v@),
        r@.len() == v@.len(),
    decreases v@,
{
    let mut r: Vec<ModuleImport> = Vec::new();
    for i in 0..v.len()
        invariant
            r@.len() == i,
            forall|j: int| 0 <= j < i ==> module_import_view((#[trigger] r@[j])) == module_import_view(v@[j]),
    {
        r.push(clone_module_import((&v[i])));
    }
    assert(module_import_list_view(r@) =~= module_import_list_view(v@));
    r
}

pub open spec fn loaded_module_list_view(s: Seq<LoadedModule>) -> Seq<LoadedModuleView>
    decreases s,
{
    Seq::new(s.len(), |i: int| if 0 <= i < s.len() { loaded_module_view(s[i]) } else { arbitrary() })
}

pub fn clone_loaded_module_list(v: &Vec<LoadedModule>) -> (r: Vec<LoadedModule>)
    ensures
        loaded_module_list_view(r@) == loaded_module_list_view(v@),
        r@.len() == v@.len(),
    decreases v@,
{
    let mut r: Vec<LoadedModule> = Vec::new();
    for i in 0..v.len()
        invariant
            r@.len() == i,
            forall|j: int| 0 <= j < i ==> loaded_module_view((#[trigger] r@[j])) == loaded_module_view(v@[j]),
    {
        r.push(clone_loaded_module((&v[i])));
    }
    assert(loaded_module_list_view(r@) =~= loaded_module_list_view(v@));
    r
}

pub open spec fn exports_list_view(s: Seq<Exports>) -> Seq<ExportsView>
    decreases s,
{
    Seq::new(s.len(), |i: int| if 0 <= i < s.len() { exports_view(s[i]) } else { arbitrary() })
}

pub fn clone_exports_list(v: &Vec<Exports>) -> (r: Vec<Exports>)
    ensures
        exports_list_view(r@) == exports_list_view(v@),
        r@.len() == v@.len(),
    decreases v@,
{
    let mut r: Vec<Exports> = Vec::new();
    for i in 0..v.len()
        invariant
            r@.len() == i,
            forall|j: int| 0 <= j < i ==> exports_view((#[trigger] r@[j])) == exports_view(v@[j]),
    {
        r.push(clone_exports((&v[i])));
    }
    assert(exports_list_view(r@) =~= exports_list_view(v@));
    r
}

pub open spec fn path_list_view(s: Seq<Vec<String>>) -> Seq<Seq<Seq<char>>>
    decreases s,
{
    Seq::new(s.len(), |i: int| if 0 <= i < s.len() { string_list_view(s[i]@) } else { arbitrary() })
}

pub fn clone_path_list(v: &Vec<Vec<String>>) -> (r: Vec<Vec<String>>)
    ensures
        path_list_view(r@) == path_list_view(v@),
        r@.len() == v@.len(),
    decreases v@,
{
    let mut r: Vec<Vec<String>> = Vec::new();
    for i in 0..v.len()
        invariant
            r@.len() == i,
            forall|j: int| 0 <= j < i ==> string_list_view((#[trigger] r@[j])@) == string_list_view(v@[j]@),
    {
        r.push(clone_string_list((&v[i])));
    }
    assert(path_list_view(r@) =~= path_list_view(v@));
    r
}

pub proof fn unfold_link_options(x: LinkOptions)
    ensures
        link_options_view(x) == (LinkOptionsView { search_roots: string_list_view(x.search_roots@) }),
{
        assert(link_options_view(x).search_roots =~= string_list_view(x.search_roots@));
}

pub proof fn unfold_loaded_module(x: LoadedModule)
    ensures
        loaded_module_view(x) == (LoadedModuleView { key: x.key@, program: stmt_list_view(x.program@), imports: module_import_list_view(x.imports@) }),
{
        assert(loaded_module_view(x).program =~= stmt_list_view(x.program@));
        assert(loaded_module_view(x).imports =~= module_import_list_view(x.imports@));
}

pub proof fn unfold_exports(x: Exports)
    ensures
        exports_view(x) == (ExportsView { key: x.key@, names: string_list_view(x.names@) }),
{
        assert(exports_view(x).names =~= string_list_view(x.names@));
}

pub proof fn unfold_linker(x: Linker)
    ensures
        linker_view(x) == (LinkerView { loaded: string_list_view(x.loaded@), exports: exports_list_view(x.exports@), decls: stmt_list_view(x.decls@) }),
{
        assert(linker_view(x).loaded =~= string_list_view(x.loaded@));
        assert(linker_view(x).exports =~= exports_list_view(x.exports@));
        assert(linker_view(x).decls =~= stmt_list_view(x.decls@));
}

/// What an error says. `shown` is the token that a parse error names, if it names one.
pub open spec fn module_error_text(error: ModuleErrorView, shown: Seq<char>) -> Seq<char> {
    match error {
        ModuleErrorView::Io { module, message } => "cannot load module '"@ + module + "': "@ + message,
        ModuleErrorView::Parse { module, err } => "in module '"@ + module + "': "@ + err.spec_message(
            shown,
        ),
        ModuleErrorView::NameNotFound { module, name } => "module '"@ + module
            + "' has no declaration named '"@ + name + "'"@,
        ModuleErrorView::EmptyModulePath =>
            "'from . import \u{2026}' (empty module path) is not supported yet"@,
        ModuleErrorView::NotRead { module } => "module '"@ + module + "' has not been read"@,
    }
}

/// See [`module_error_text`].
pub fn module_error_message(error: &ModuleError, shown: &str) -> (r: String)
    ensures
        r@ == module_error_text(error@, shown@),
{
    match error {
        ModuleError::Io { module, message } => cat4(
            "cannot load module '",
            module.as_str(),
            "': ",
            message.as_str(),
        ),
        ModuleError::Parse { module, err } => cat4(
            "in module '",
            module.as_str(),
            "': ",
            err.message(shown).as_str(),
        ),
        ModuleError::NameNotFound { module, name } => cat5(
            "module '",
            module.as_str(),
            "' has no declaration named '",
            name.as_str(),
            "'",
        ),
        ModuleError::EmptyModulePath =>
            "'from . import \u{2026}' (empty module path) is not supported yet".to_owned(),
        ModuleError::NotRead { module } => cat3("module '", module.as_str(), "' has not been read"),
    }
}

/// The name that a top-level declaration declares.
#[verifier::opaque]
pub open spec fn name_declared(stmt: StmtView) -> Option<Seq<char>> {
    match stmt.kind {
        StmtKindView::Def { name, .. } => Some(name),
        StmtKindView::Struct { name, .. } => Some(name),
        StmtKindView::Trait { name } => Some(name),
        StmtKindView::Comptime { name, .. } => Some(name),
        _ => None,
    }
}

/// See [`name_declared`].
pub fn declared_name(stmt: &Stmt) -> (r: Option<String>)
    ensures
        opt_view(r) == name_declared(stmt@),
{
    proof { reveal(name_declared); }
    proof { unfold_stmt_kind(stmt.kind); }
    match &stmt.kind {
        StmtKind::Def { name, .. } => Some(name.clone()),
        StmtKind::Struct { name, .. } => Some(name.clone()),
        StmtKind::Trait { name } => Some(name.clone()),
        StmtKind::Comptime { name, .. } => Some(name.clone()),
        _ => {
            assert(!(stmt.kind@ is Def));
            assert(!(stmt.kind@ is Struct));
            assert(!(stmt.kind@ is Trait));
            assert(!(stmt.kind@ is Comptime));
            None
        },
    }
}

/// The parts of a path below a directory, given by its parts. The last one gets the
/// ending of a module file.
pub open spec fn path_under(
    path: Seq<Seq<char>>,
    i: nat,
    out: Seq<Seq<char>>,
    k: usize,
) -> Seq<Seq<char>>
    decreases path, (path.len() - i) as nat,
{
    if i >= path.len() {
        out
    } else {
        let part = path[i as int];
        let k = following_index(k);
        if k < path.len() {
            let out = out.push(part);
            path_under(path, i + 1, out, k)
        } else {
            let out = out.push(part + ".mojo"@);
            path_under(path, i + 1, out, k)
        }
    }
}

/// See [`path_under`].
pub fn module_path_under(path: &Vec<String>, base: Vec<String>) -> (r: Vec<String>)
    ensures
        string_list_view(r@) == path_under(string_list_view(path@), 0, string_list_view(base@), 0),
    decreases path@, 0nat,
{
    let mut out: Vec<String> = base;
    let mut k: usize = 0;
    let ghost goal = path_under(string_list_view(path@), 0, string_list_view(base@), 0);
    let mut i: usize = 0;
    while i < path.len()
        invariant
            i <= path@.len(),
            string_list_view(path@).len() == path@.len(),
            path_under(string_list_view(path@), i as nat, string_list_view(out@), k) == goal,
            goal == path_under(string_list_view(path@), 0, string_list_view(base@), 0),
        decreases path@.len() - i,
    {
        let part = &path[i];
        assert(string_list_view(path@)[i as int] == part@);
        k = next_index(k);
        if k < path.len() {
            let item = part.clone();
            let ghost before = string_list_view(out@);
            let ghost added = item@;
            out.push(item);
            assert(string_list_view(out@) =~= before.push(added));
        } else {
            let item2 = cat2(part.as_str(), ".mojo");
            let ghost before2 = string_list_view(out@);
            let ghost added2 = item2@;
            out.push(item2);
            assert(string_list_view(out@) =~= before2.push(added2));
        }
        i = i + 1;
    }
    out
}

/// A directory some levels up.
pub open spec fn directory_up(base: Seq<Seq<char>>, levels: usize) -> Seq<Seq<char>>
    decreases levels as nat,
{
    if levels > 0 {
        directory_up(parent_directory(base), (levels - 1) as usize)
    } else {
        base
    }
}

/// See [`directory_up`].
pub fn climbed(base: Vec<String>, levels: usize) -> (r: Vec<String>)
    ensures
        string_list_view(r@) == directory_up(string_list_view(base@), levels),
    decreases levels as nat,
{
    if levels > 0 {
        climbed(parent_of(&base), levels - 1)
    } else {
        base
    }
}

/// The directory above one, given by its parts. Above the root, and above nothing, there is
/// none: they stay.
pub open spec fn parent_directory(base: Seq<Seq<char>>) -> Seq<Seq<char>> {
    if base.len() == 0 || base.last() == "/"@ {
        base
    } else {
        base.drop_last()
    }
}

/// See [`parent_directory`].
pub fn parent_of(base: &Vec<String>) -> (r: Vec<String>)
    ensures
        string_list_view(r@) == parent_directory(string_list_view(base@)),
{
    let mut r = clone_string_list(base);
    if r.len() > 0 {
        let n: usize = r.len();
        assert(string_list_view(base@).last() == base@[n - 1]@);
        if !same_text(r[n - 1].as_str(), "/") {
            r.pop();
            assert(string_list_view(r@) =~= string_list_view(base@).drop_last());
        }
    }
    r
}

pub open spec fn paths_below(
    roots: Seq<Seq<Seq<char>>>,
    path: Seq<Seq<char>>,
    i: nat,
    out: Seq<Seq<Seq<char>>>,
) -> Seq<Seq<Seq<char>>>
    decreases roots, (roots.len() - i) as nat,
{
    if i >= roots.len() {
        out
    } else {
        let root = roots[i as int];
        let out = out.push(path_under(path, 0, root, 0));
        paths_below(roots, path, i + 1, out)
    }
}

/// See [`paths_below`].
pub fn below_roots(
    roots: &Vec<Vec<String>>,
    path: &Vec<String>,
    found: Vec<Vec<String>>,
) -> (r: Vec<Vec<String>>)
    ensures
        path_list_view(r@) == paths_below(
            path_list_view(roots@),
            string_list_view(path@),
            0,
            path_list_view(found@),
        ),
    decreases roots@, 0nat,
{
    let mut out: Vec<Vec<String>> = found;
    let ghost goal = paths_below(
        path_list_view(roots@),
        string_list_view(path@),
        0,
        path_list_view(found@),
    );
    let mut i: usize = 0;
    while i < roots.len()
        invariant
            i <= roots@.len(),
            path_list_view(roots@).len() == roots@.len(),
            paths_below(
                path_list_view(roots@),
                string_list_view(path@),
                i as nat,
                path_list_view(out@),
            ) == goal,
            goal == paths_below(
                path_list_view(roots@),
                string_list_view(path@),
                0,
                path_list_view(found@),
            ),
        decreases roots@.len() - i,
    {
        let root = &roots[i];
        assert(path_list_view(roots@)[i as int] == string_list_view(root@));
        let item = module_path_under(path, clone_string_list(root));
        let ghost before = path_list_view(out@);
        let ghost added = string_list_view(item@);
        out.push(item);
        assert(path_list_view(out@) =~= before.push(added));
        i = i + 1;
    }
    out
}

/// The files that a module can be in, in the order they are tried. `level` is the
/// number of dots before the path: without one, the directory of the importing file
/// comes first and then the search roots; with one or more only the directory that
/// the dots lead to.
#[verifier::opaque]
pub open spec fn candidate_files(
    from_dir: Seq<Seq<char>>,
    level: usize,
    path: Seq<Seq<char>>,
    roots: Seq<Seq<Seq<char>>>,
) -> Result<Seq<Seq<Seq<char>>>, ModuleErrorView> {
    if path.len() == 0 {
        Err(ModuleErrorView::EmptyModulePath)
    } else if level > 0 {
        let base = directory_up(from_dir, (level - 1) as usize);
        Ok(seq![path_under(path, 0, base, 0)])
    } else {
        let local = seq![path_under(path, 0, from_dir, 0)];
        Ok(paths_below(roots, path, 0, local))
    }
}

/// See [`candidate_files`].
pub fn module_candidates(
    from_dir: &Vec<String>,
    level: usize,
    path: &Vec<String>,
    roots: &Vec<Vec<String>>,
) -> (r: Result<Vec<Vec<String>>, ModuleError>)
    ensures
        (match r { Ok(v) => Ok(path_list_view(v@)), Err(v) => Err(v@) }) == candidate_files(
            string_list_view(from_dir@),
            level,
            string_list_view(path@),
            path_list_view(roots@),
        ),
{
    proof { reveal(candidate_files); }
    if path.len() == 0 {
        Err(ModuleError::EmptyModulePath)
    } else if level > 0 {
        let base = climbed(clone_string_list(from_dir), level - 1);
        let item = module_path_under(path, base);
        let ghost seen = string_list_view(item@);
        let list = vec![item];
        assert(path_list_view(list@) =~= seq![seen]);
        Ok(list)
    } else {
        let item2 = module_path_under(path, clone_string_list(from_dir));
        let ghost seen2 = string_list_view(item2@);
        let list2 = vec![item2];
        assert(path_list_view(list2@) =~= seq![seen2]);
        let local = list2;
        Ok(below_roots(roots, path, local))
    }
}

/// The candidate that is taken: the first one that exists, or else the first one.
pub open spec fn candidate_chosen(exists: Seq<bool>, i: nat, k: usize) -> usize
    decreases exists, (exists.len() - i) as nat,
{
    if i >= exists.len() {
        0
    } else {
        let found = exists[i as int];
        if found {
            k
        } else {
            let k = following_index(k);
            candidate_chosen(exists, i + 1, k)
        }
    }
}

/// See [`candidate_chosen`].
pub fn chosen_candidate(exists: &Vec<bool>) -> (r: usize)
    ensures
        r == candidate_chosen(exists@, 0, 0),
    decreases exists@, 0nat,
{
    let mut k: usize = 0;
    let ghost goal = candidate_chosen(exists@, 0, 0);
    let mut i: usize = 0;
    while i < exists.len()
        invariant
            i <= exists@.len(),
            candidate_chosen(exists@, i as nat, k) == goal,
            goal == candidate_chosen(exists@, 0, 0),
        decreases exists@.len() - i,
    {
        let found = &exists[i];
        if *found {
            return k;
        }
        k = next_index(k);
        i = i + 1;
    }
    0
}

/// The name of a module in messages: its path with dots.
pub open spec fn path_with_dots(
    path: Seq<Seq<char>>,
    i: nat,
    out: Seq<char>,
    first: bool,
) -> Seq<char>
    decreases path, (path.len() - i) as nat,
{
    if i >= path.len() {
        out
    } else {
        let part = path[i as int];
        let out = if first {
            part
        } else {
            out + "."@ + part
        };
        let first = false;
        path_with_dots(path, i + 1, out, first)
    }
}

/// See [`path_with_dots`].
pub fn display_name(path: &Vec<String>) -> (r: String)
    ensures
        r@ == path_with_dots(string_list_view(path@), 0, ""@, true),
    decreases path@, 0nat,
{
    let mut out: String = "".to_owned();
    let mut first: bool = true;
    let ghost goal = path_with_dots(string_list_view(path@), 0, ""@, true);
    let mut i: usize = 0;
    while i < path.len()
        invariant
            i <= path@.len(),
            string_list_view(path@).len() == path@.len(),
            path_with_dots(string_list_view(path@), i as nat, out@, first) == goal,
            goal == path_with_dots(string_list_view(path@), 0, ""@, true),
        decreases path@.len() - i,
    {
        let part = &path[i];
        assert(string_list_view(path@)[i as int] == part@);
        out = if first {
            part.clone()
        } else {
            cat3(out.as_str(), ".", part.as_str())
        };
        first = false;
        i = i + 1;
    }
    out
}

pub open spec fn module_of_key(
    modules: Seq<LoadedModuleView>,
    key: Seq<char>,
    i: nat,
    out: Option<LoadedModuleView>,
) -> Option<LoadedModuleView>
    decreases modules, (modules.len() - i) as nat,
{
    if i >= modules.len() {
        out
    } else {
        let entry = modules[i as int];
        if entry.key == key {
            let out = Some(entry);
            module_of_key(modules, key, i + 1, out)
        } else {
            module_of_key(modules, key, i + 1, out)
        }
    }
}

/// See [`module_of_key`].
pub fn find_module(modules: &Vec<LoadedModule>, key: &String) -> (r: Option<LoadedModule>)
    ensures
        opt_view(r) == module_of_key(loaded_module_list_view(modules@), key@, 0, None),
    decreases modules@, 0nat,
{
    let mut out: Option<LoadedModule> = None;
    let ghost goal = module_of_key(loaded_module_list_view(modules@), key@, 0, None);
    let mut i: usize = 0;
    while i < modules.len()
        invariant
            i <= modules@.len(),
            loaded_module_list_view(modules@).len() == modules@.len(),
            module_of_key(loaded_module_list_view(modules@), key@, i as nat, opt_view(out)) == goal,
            goal == module_of_key(loaded_module_list_view(modules@), key@, 0, None),
        decreases modules@.len() - i,
    {
        let entry = &modules[i];
        assert(loaded_module_list_view(modules@)[i as int] == entry@);
        if same_string(&entry.key, key) {
            out = Some(clone_loaded_module(entry));
        }
        i = i + 1;
    }
    out
}

pub open spec fn exports_of_key(
    exports: Seq<ExportsView>,
    key: Seq<char>,
    i: nat,
    out: Seq<Seq<char>>,
) -> Seq<Seq<char>>
    decreases exports, (exports.len() - i) as nat,
{
    if i >= exports.len() {
        out
    } else {
        let entry = exports[i as int];
        if entry.key == key {
            let out = entry.names;
            exports_of_key(exports, key, i + 1, out)
        } else {
            exports_of_key(exports, key, i + 1, out)
        }
    }
}

/// See [`exports_of_key`].
pub fn find_exports(exports: &Vec<Exports>, key: &String) -> (r: Vec<String>)
    ensures
        string_list_view(r@) == exports_of_key(
            exports_list_view(exports@),
            key@,
            0,
            Seq::<Seq<char>>::empty(),
        ),
    decreases exports@, 0nat,
{
    let mut out: Vec<String> = Vec::new();
    assert(string_list_view(out@) =~= Seq::<Seq<char>>::empty());
    let ghost goal = exports_of_key(
        exports_list_view(exports@),
        key@,
        0,
        Seq::<Seq<char>>::empty(),
    );
    let mut i: usize = 0;
    while i < exports.len()
        invariant
            i <= exports@.len(),
            exports_list_view(exports@).len() == exports@.len(),
            exports_of_key(
                exports_list_view(exports@),
                key@,
                i as nat,
                string_list_view(out@),
            ) == goal,
            goal == exports_of_key(exports_list_view(exports@), key@, 0, Seq::<Seq<char>>::empty()),
        decreases exports@.len() - i,
    {
        let entry = &exports[i];
        assert(exports_list_view(exports@)[i as int] == entry@);
        if same_string(&entry.key, key) {
            out = clone_string_list(&entry.names);
        }
        i = i + 1;
    }
    out
}

/// The declarations of a module that others can see: all but its `main`.
pub open spec fn decls_exported(
    program: Seq<StmtView>,
    i: nat,
    out: Seq<StmtView>,
) -> Seq<StmtView>
    decreases program, (program.len() - i) as nat,
{
    if i >= program.len() {
        out
    } else {
        let stmt = program[i as int];
        if stmt_exported(stmt) {
            let out = out.push(stmt);
            decls_exported(program, i + 1, out)
        } else {
            decls_exported(program, i + 1, out)
        }
    }
}

/// See [`decls_exported`].
pub fn exported_decls(program: &Vec<Stmt>, found: Vec<Stmt>) -> (r: Vec<Stmt>)
    ensures
        stmt_list_view(r@) == decls_exported(stmt_list_view(program@), 0, stmt_list_view(found@)),
    decreases program@, 0nat,
{
    let mut out: Vec<Stmt> = found;
    let ghost goal = decls_exported(stmt_list_view(program@), 0, stmt_list_view(found@));
    let mut i: usize = 0;
    while i < program.len()
        invariant
            i <= program@.len(),
            stmt_list_view(program@).len() == program@.len(),
            decls_exported(stmt_list_view(program@), i as nat, stmt_list_view(out@)) == goal,
            goal == decls_exported(stmt_list_view(program@), 0, stmt_list_view(found@)),
        decreases program@.len() - i,
    {
        let stmt = &program[i];
        assert(stmt_list_view(program@)[i as int] == stmt@);
        if is_exported(stmt) {
            let item = clone_stmt(stmt);
            let ghost before = stmt_list_view(out@);
            let ghost added = item@;
            out.push(item);
            assert(stmt_list_view(out@) =~= before.push(added));
        }
        i = i + 1;
    }
    out
}

#[verifier::opaque]
pub open spec fn stmt_exported(stmt: StmtView) -> bool {
    match name_declared(stmt) {
        Some(name) => !(name == "main"@),
        None => false,
    }
}

/// See [`stmt_exported`].
pub fn is_exported(stmt: &Stmt) -> (r: bool)
    ensures
        r == stmt_exported(stmt@),
{
    proof { reveal(stmt_exported); }
    match declared_name(stmt) {
        Some(name) => !same_text(&name.as_str(), "main"),
        None => false,
    }
}

pub open spec fn names_exported(
    program: Seq<StmtView>,
    i: nat,
    out: Seq<Seq<char>>,
) -> Seq<Seq<char>>
    decreases program, (program.len() - i) as nat,
{
    if i >= program.len() {
        out
    } else {
        let stmt = program[i as int];
        match name_declared(stmt) {
            Some(name) => if !(name == "main"@) {
                let out = out.push(name);
                names_exported(program, i + 1, out)
            } else {
                names_exported(program, i + 1, out)
            },
            None => names_exported(program, i + 1, out),
        }
    }
}

/// See [`names_exported`].
pub fn exported_names(program: &Vec<Stmt>) -> (r: Vec<String>)
    ensures
        string_list_view(r@) == names_exported(
            stmt_list_view(program@),
            0,
            Seq::<Seq<char>>::empty(),
        ),
    decreases program@, 0nat,
{
    let mut out: Vec<String> = Vec::new();
    assert(string_list_view(out@) =~= Seq::<Seq<char>>::empty());
    let ghost goal = names_exported(stmt_list_view(program@), 0, Seq::<Seq<char>>::empty());
    let mut i: usize = 0;
    while i < program.len()
        invariant
            i <= program@.len(),
            stmt_list_view(program@).len() == program@.len(),
            names_exported(stmt_list_view(program@), i as nat, string_list_view(out@)) == goal,
            goal == names_exported(stmt_list_view(program@), 0, Seq::<Seq<char>>::empty()),
        decreases program@.len() - i,
    {
        let stmt = &program[i];
        assert(stmt_list_view(program@)[i as int] == stmt@);
        match declared_name(stmt) {
            Some(name) => {
                if !same_text(&name.as_str(), "main") {
                    let ghost before = string_list_view(out@);
                    let ghost added = name@;
                    out.push(name);
                    assert(string_list_view(out@) =~= before.push(added));
                }
            },
            None => {},
        }
        i = i + 1;
    }
    out
}

#[verifier::opaque]
pub open spec fn file_taken_up(linker: LinkerView, key: Seq<char>) -> LinkerView {
    let loaded = linker.loaded;
    let loaded = loaded.push(key);
    LinkerView { loaded, exports: linker.exports, decls: linker.decls }
}

/// See [`file_taken_up`].
pub fn taken_up(linker: Linker, key: &String) -> (r: Linker)
    ensures
        r@ == file_taken_up(linker@, key@),
{
    proof { reveal(file_taken_up); }
    let mut loaded = linker.loaded;
    let item = key.clone();
    let ghost before = string_list_view(loaded@);
    let ghost added = item@;
    loaded.push(item);
    assert(string_list_view(loaded@) =~= before.push(added));
    let linker2 = Linker { loaded, exports: linker.exports, decls: linker.decls };
    proof { unfold_linker(linker2); }
    linker2
}

#[verifier::opaque]
pub open spec fn declarations_hoisted(linker: LinkerView, entry: LoadedModuleView) -> LinkerView {
    let exports = linker.exports;
    let exports = exports.push(
        ExportsView { key: entry.key, names: names_exported(entry.program, 0, Seq::empty()) }
    );
    LinkerView {
        loaded: linker.loaded,
        exports,
        decls: decls_exported(entry.program, 0, linker.decls),
    }
}

/// See [`declarations_hoisted`].
pub fn hoisted(linker: Linker, entry: &LoadedModule) -> (r: Linker)
    ensures
        r@ == declarations_hoisted(linker@, entry@),
{
    proof { reveal(declarations_hoisted); }
    let mut exports = linker.exports;
    let exports2 = Exports { key: (&entry.key).clone(), names: exported_names(&entry.program) };
    proof { unfold_exports(exports2); }
    let ghost before = exports_list_view(exports@);
    let ghost added = exports2@;
    exports.push(exports2);
    assert(exports_list_view(exports@) =~= before.push(added));
    let linker2 = Linker {
        loaded: linker.loaded,
        exports,
        decls: exported_decls(&entry.program, linker.decls),
    };
    proof { unfold_linker(linker2); }
    linker2
}

/// Take up a module once: its dependencies first, then its own declarations. A
/// module that is being taken up counts as taken up, so cycles end.
pub open spec fn module_loaded(
    import: ModuleImportView,
    modules: Seq<LoadedModuleView>,
    linker: LinkerView,
    depth: u32,
) -> Result<LinkerView, ModuleErrorView>
    decreases depth, import, 1nat,
{
    if linker.loaded.contains(import.key) {
        Ok(linker)
    } else {
        match module_of_key(modules, import.key, 0, None) {
            Some(entry) => if depth > 0 {
                match modules_loaded(
                    entry.imports,
                    modules,
                    (depth - 1) as u32,
                    0,
                    file_taken_up(linker, import.key),
                ) {
                    Ok(out) => {
                        let linker = out;
                        Ok(declarations_hoisted(linker, entry))
                    },
                    Err(error) => Err(error),
                }
            } else {
                Err(ModuleErrorView::NotRead { module: import.module })
            },
            None => Err(ModuleErrorView::NotRead { module: import.module }),
        }
    }
}

/// See [`module_loaded`].
pub fn load_module(
    import: &ModuleImport,
    modules: &Vec<LoadedModule>,
    linker: Linker,
    depth: u32,
) -> (r: Result<Linker, ModuleError>)
    ensures
        (match r { Ok(v) => Ok(v@), Err(v) => Err(v@) }) == module_loaded(
            import@,
            loaded_module_list_view(modules@),
            linker@,
            depth,
        ),
    decreases depth, import, 1nat,
{
    if contains_name(&linker.loaded, &import.key) {
        Ok(linker)
    } else {
        match find_module(modules, &import.key) {
            Some(entry) => {
                if depth > 0 {
                    let linker = match load_modules(
                        &entry.imports,
                        modules,
                        taken_up(linker, &import.key),
                        depth - 1,
                    ) {
                        Ok(done) => done,
                        Err(error) => {
                            return Err(error);
                        },
                    };
                    Ok(hoisted(linker, &entry))
                } else {
                    Err(ModuleError::NotRead { module: (&import.module).clone() })
                }
            },
            None => Err(ModuleError::NotRead { module: (&import.module).clone() }),
        }
    }
}

pub open spec fn modules_loaded(
    imports: Seq<ModuleImportView>,
    modules: Seq<LoadedModuleView>,
    depth: u32,
    i: nat,
    linker: LinkerView,
) -> Result<LinkerView, ModuleErrorView>
    decreases depth, imports, (imports.len() - i) as nat,
{
    if i >= imports.len() {
        Ok(linker)
    } else {
        let import = imports[i as int];
        match module_loaded(import, modules, linker, depth) {
            Ok(out) => {
                let rest = out;
                let linker = rest;
                modules_loaded(imports, modules, depth, i + 1, linker)
            },
            Err(error) => Err(error),
        }
    }
}

/// See [`modules_loaded`].
pub fn load_modules(
    imports: &Vec<ModuleImport>,
    modules: &Vec<LoadedModule>,
    start: Linker,
    depth: u32,
) -> (r: Result<Linker, ModuleError>)
    ensures
        (match r { Ok(v) => Ok(v@), Err(v) => Err(v@) }) == modules_loaded(
            module_import_list_view(imports@),
            loaded_module_list_view(modules@),
            depth,
            0,
            start@,
        ),
    decreases depth, imports@, 0nat,
{
    let mut linker: Linker = start;
    let ghost goal = modules_loaded(
        module_import_list_view(imports@),
        loaded_module_list_view(modules@),
        depth,
        0,
        start@,
    );
    let mut i: usize = 0;
    while i < imports.len()
        invariant
            i <= imports@.len(),
            module_import_list_view(imports@).len() == imports@.len(),
            modules_loaded(
                module_import_list_view(imports@),
                loaded_module_list_view(modules@),
                depth,
                i as nat,
                linker@,
            ) == goal,
            goal == modules_loaded(
                module_import_list_view(imports@),
                loaded_module_list_view(modules@),
                depth,
                0,
                start@,
            ),
        decreases imports@.len() - i,
    {
        let import = &imports[i];
        assert(module_import_list_view(imports@)[i as int] == import@);
        let rest = match load_module(import, modules, linker, depth) {
            Ok(done) => done,
            Err(error) => {
                return Err(error);
            },
        };
        linker = rest;
        i = i + 1;
    }
    Ok(linker)
}

/// The first imported name that a module does not declare.
pub open spec fn first_missing(
    items: Seq<ImportNameView>,
    exports: Seq<Seq<char>>,
    i: nat,
) -> Option<Seq<char>>
    decreases items, (items.len() - i) as nat,
{
    if i >= items.len() {
        None
    } else {
        let item = items[i as int];
        if !exports.contains(item.name) {
            Some(item.name)
        } else {
            first_missing(items, exports, i + 1)
        }
    }
}

/// See [`first_missing`].
pub fn check_listed(items: &Vec<ImportName>, exports: &Vec<String>) -> (r: Option<String>)
    ensures
        opt_view(r) == first_missing(import_name_list_view(items@), string_list_view(exports@), 0),
    decreases items@, 0nat,
{
    let ghost goal = first_missing(import_name_list_view(items@), string_list_view(exports@), 0);
    let mut i: usize = 0;
    while i < items.len()
        invariant
            i <= items@.len(),
            import_name_list_view(items@).len() == items@.len(),
            first_missing(
                import_name_list_view(items@),
                string_list_view(exports@),
                i as nat,
            ) == goal,
            goal == first_missing(import_name_list_view(items@), string_list_view(exports@), 0),
        decreases items@.len() - i,
    {
        let item = &items[i];
        assert(import_name_list_view(items@)[i as int] == item@);
        if !contains_name(exports, &item.name) {
            return Some((&item.name).clone());
        }
        i = i + 1;
    }
    None
}

/// Whether a module declares what is imported from it. Everything at once always can
/// be.
#[verifier::opaque]
pub open spec fn names_checked(
    import: ModuleImportView,
    names: ImportNamesView,
    linker: LinkerView,
) -> Result<bool, ModuleErrorView> {
    match names {
        ImportNamesView::Names(items) => match first_missing(
            items,
            exports_of_key(linker.exports, import.key, 0, Seq::empty()),
            0,
        ) {
            Some(name) => Err(ModuleErrorView::NameNotFound { module: import.module, name }),
            None => Ok(true),
        },
        _ => Ok(true),
    }
}

/// See [`names_checked`].
pub fn check_names(
    import: &ModuleImport,
    names: &ImportNames,
    linker: &Linker,
) -> (r: Result<bool, ModuleError>)
    ensures
        (match r { Ok(v) => Ok(v), Err(v) => Err(v@) }) == names_checked(import@, names@, linker@),
{
    proof { reveal(names_checked); }
    proof { unfold_import_names(*names); }
    match names {
        ImportNames::Names(items) => {
            match check_listed(items, &find_exports(&linker.exports, &import.key)) {
                Some(name) => Err(
                    ModuleError::NameNotFound { module: (&import.module).clone(), name }
                ),
                None => Ok(true),
            }
        },
        _ => {
            assert(!(names@ is Names));
            Ok(true)
        },
    }
}

/// The statements of the entry file but for its imports, whose modules are taken up
/// one after another.
pub open spec fn entry_resolved(
    program: Seq<StmtView>,
    imports: Seq<ModuleImportView>,
    modules: Seq<LoadedModuleView>,
    i: nat,
    body: Seq<StmtView>,
    linker: LinkerView,
    k: usize,
) -> Result<(Seq<StmtView>, LinkerView), ModuleErrorView>
    decreases program, (program.len() - i) as nat,
{
    if i >= program.len() {
        Ok((body, linker))
    } else {
        let stmt = program[i as int];
        match stmt_of_entry(stmt, imports, k, modules, linker) {
            Ok(out) => {
                let (kept, rest) = out;
                let body = stmts_kept(body, kept);
                let linker = rest;
                let k = next_import(stmt, k);
                entry_resolved(program, imports, modules, i + 1, body, linker, k)
            },
            Err(error) => Err(error),
        }
    }
}

/// See [`entry_resolved`].
pub fn resolve_entry(
    program: &Vec<Stmt>,
    imports: &Vec<ModuleImport>,
    modules: &Vec<LoadedModule>,
    start: Linker,
) -> (r: Result<(Vec<Stmt>, Linker), ModuleError>)
    ensures
        (
            match r { Ok(v) => Ok((stmt_list_view(v.0@), v.1@)), Err(v) => Err(v@) }
        ) == entry_resolved(
            stmt_list_view(program@),
            module_import_list_view(imports@),
            loaded_module_list_view(modules@),
            0,
            Seq::<StmtView>::empty(),
            start@,
            0,
        ),
    decreases program@, 0nat,
{
    let mut body: Vec<Stmt> = Vec::new();
    assert(stmt_list_view(body@) =~= Seq::<StmtView>::empty());
    let mut linker: Linker = start;
    let mut k: usize = 0;
    let ghost goal = entry_resolved(
        stmt_list_view(program@),
        module_import_list_view(imports@),
        loaded_module_list_view(modules@),
        0,
        Seq::<StmtView>::empty(),
        start@,
        0,
    );
    let mut i: usize = 0;
    while i < program.len()
        invariant
            i <= program@.len(),
            stmt_list_view(program@).len() == program@.len(),
            entry_resolved(
                stmt_list_view(program@),
                module_import_list_view(imports@),
                loaded_module_list_view(modules@),
                i as nat,
                stmt_list_view(body@),
                linker@,
                k,
            ) == goal,
            goal == entry_resolved(
                stmt_list_view(program@),
                module_import_list_view(imports@),
                loaded_module_list_view(modules@),
                0,
                Seq::<StmtView>::empty(),
                start@,
                0,
            ),
        decreases program@.len() - i,
    {
        let stmt = &program[i];
        assert(stmt_list_view(program@)[i as int] == stmt@);
        let (kept, rest) = match entry_stmt(stmt, imports, k, modules, linker) {
            Ok(done) => done,
            Err(error) => {
                return Err(error);
            },
        };
        body = kept_stmts(body, kept);
        linker = rest;
        k = following_import(stmt, k);
        i = i + 1;
    }
    Ok((body, linker))
}

#[verifier::opaque]
pub open spec fn stmts_kept(body: Seq<StmtView>, kept: Option<StmtView>) -> Seq<StmtView> {
    match kept {
        Some(stmt) => {
            let out = body;
            let out = out.push(stmt);
            out
        },
        None => body,
    }
}

/// See [`stmts_kept`].
pub fn kept_stmts(body: Vec<Stmt>, kept: Option<Stmt>) -> (r: Vec<Stmt>)
    ensures
        stmt_list_view(r@) == stmts_kept(stmt_list_view(body@), opt_view(kept)),
{
    proof { reveal(stmts_kept); }
    match kept {
        Some(stmt) => {
            let mut out = body;
            let ghost before = stmt_list_view(out@);
            let ghost added = stmt@;
            out.push(stmt);
            assert(stmt_list_view(out@) =~= before.push(added));
            out
        },
        None => body,
    }
}

#[verifier::opaque]
pub open spec fn next_import(stmt: StmtView, k: usize) -> usize {
    if (stmt.kind matches StmtKindView::FromImport { .. }) {
        following_index(k)
    } else {
        k
    }
}

/// See [`next_import`].
pub fn following_import(stmt: &Stmt, k: usize) -> (r: usize)
    ensures
        r == next_import(stmt@, k),
{
    proof { reveal(next_import); }
    if matches!(&stmt.kind, StmtKind::FromImport { .. }) {
        next_index(k)
    } else {
        k
    }
}

#[verifier::opaque]
pub open spec fn modules_limit(modules: Seq<LoadedModuleView>) -> u32 {
    if modules.len() < 4294967290 {
        ((modules.len() as u32) + 1) as u32
    } else {
        4294967295
    }
}

/// See [`modules_limit`].
pub fn search_limit(modules: &Vec<LoadedModule>) -> (r: u32)
    ensures
        r == modules_limit(loaded_module_list_view(modules@)),
{
    proof { reveal(modules_limit); }
    if modules.len() < 4294967290 {
        (modules.len() as u32) + 1
    } else {
        4294967295
    }
}

#[verifier::opaque]
pub open spec fn stmt_of_entry(
    stmt: StmtView,
    imports: Seq<ModuleImportView>,
    k: usize,
    modules: Seq<LoadedModuleView>,
    linker: LinkerView,
) -> Result<(Option<StmtView>, LinkerView), ModuleErrorView> {
    match stmt.kind {
        StmtKindView::FromImport { names, path, .. } => if k < imports.len() {
            match module_loaded(imports[k as int], modules, linker, modules_limit(modules)) {
                Ok(out) => {
                    let linker = out;
                    match names_checked(imports[k as int], names, linker) {
                        Ok(out) => {
                            let _ = out;
                            Ok((None, linker))
                        },
                        Err(error) => Err(error),
                    }
                },
                Err(error) => Err(error),
            }
        } else {
            Err(ModuleErrorView::NotRead { module: path_with_dots(path, 0, ""@, true) })
        },
        _ => Ok((Some(stmt), linker)),
    }
}

/// See [`stmt_of_entry`].
pub fn entry_stmt(
    stmt: &Stmt,
    imports: &Vec<ModuleImport>,
    k: usize,
    modules: &Vec<LoadedModule>,
    linker: Linker,
) -> (r: Result<(Option<Stmt>, Linker), ModuleError>)
    ensures
        (match r { Ok(v) => Ok((opt_view(v.0), v.1@)), Err(v) => Err(v@) }) == stmt_of_entry(
            stmt@,
            module_import_list_view(imports@),
            k,
            loaded_module_list_view(modules@),
            linker@,
        ),
{
    proof { reveal(stmt_of_entry); }
    proof { unfold_stmt_kind(stmt.kind); }
    match &stmt.kind {
        StmtKind::FromImport { names, path, .. } => {
            if k < imports.len() {
                let linker = match load_module(
                    &imports[k],
                    modules,
                    linker,
                    search_limit(modules),
                ) {
                    Ok(done) => done,
                    Err(error) => {
                        return Err(error);
                    },
                };
                let _ = match check_names(&imports[k], names, &linker) {
                    Ok(done) => done,
                    Err(error) => {
                        return Err(error);
                    },
                };
                Ok((None, linker))
            } else {
                Err(ModuleError::NotRead { module: display_name(path) })
            }
        },
        _ => {
            assert(!(stmt.kind@ is FromImport));
            Ok((Some(clone_stmt(stmt)), linker))
        },
    }
}

/// One program of an entry file and the modules it imports: the declarations of the
/// modules, those of dependencies first, then the statements of the file. `imports`
/// says where the imports of the file go, in their order.
#[verifier::opaque]
pub open spec fn linked(
    program: Seq<StmtView>,
    imports: Seq<ModuleImportView>,
    modules: Seq<LoadedModuleView>,
) -> Result<Seq<StmtView>, ModuleErrorView> {
    let start = LinkerView { loaded: Seq::empty(), exports: Seq::empty(), decls: Seq::empty() };
    match entry_resolved(program, imports, modules, 0, Seq::empty(), start, 0) {
        Ok(out) => {
            let (body, linker) = out;
            Ok((linker.decls + body))
        },
        Err(error) => Err(error),
    }
}

/// See [`linked`].
pub fn link(
    program: &Vec<Stmt>,
    imports: &Vec<ModuleImport>,
    modules: &Vec<LoadedModule>,
) -> (r: Result<Vec<Stmt>, ModuleError>)
    ensures
        (match r { Ok(v) => Ok(stmt_list_view(v@)), Err(v) => Err(v@) }) == linked(
            stmt_list_view(program@),
            module_import_list_view(imports@),
            loaded_module_list_view(modules@),
        ),
{
    proof { reveal(linked); }
    let list: Vec<String> = Vec::new();
    assert(string_list_view(list@) =~= Seq::<Seq<char>>::empty());
    let list2: Vec<Exports> = Vec::new();
    assert(exports_list_view(list2@) =~= Seq::<ExportsView>::empty());
    let list3: Vec<Stmt> = Vec::new();
    assert(stmt_list_view(list3@) =~= Seq::<StmtView>::empty());
    let linker2 = Linker { loaded: list, exports: list2, decls: list3 };
    proof { unfold_linker(linker2); }
    let start = linker2;
    let (body, linker) = match resolve_entry(program, imports, modules, start) {
        Ok(done) => done,
        Err(error) => {
            return Err(error);
        },
    };
    Ok(joined_stmts(&body, linker.decls))
}

} // verus!
