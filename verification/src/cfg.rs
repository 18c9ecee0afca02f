//! Building the control-flow graph of a function body or region.

use crate::ast::{ExprKind, ExprKindView, Stmt, StmtView, stmt_list_view, unfold_expr_kind};
use crate::checked::{
    CheckedExpr, CheckedExprView, checked_expr_list_view, clone_checked_expr_list,
};
use crate::graph::{BlockGraph, no_blocks};
use crate::hir::{
    BasicBlock, BasicBlockView, Cfg, CfgView, Terminator, TerminatorView, basic_block_list_view,
    unfold_cfg,
};
use crate::locals::{
    collect_function_implicit_names, declared_names, explicit_local_names, implicit_names,
};
use crate::lower::{LoopFrame, Lower, LowerView, lower_block, new_block, seal_block, unfold_lower};
use crate::scopes::{find_runtime, renaming_list_view, runtime_in_scope, scope_list_view};
use crate::text::{
    before_text, clone_string_list, opt_view, same_string, string_list_view, text_before,
};
use crate::types::{Ty, TyView, clone_ty, slot_ty_list_view};
use vstd::prelude::*;

verus! {

/// The name a variable has in the source: its runtime name up to the mark of a
/// shadowing variable.
#[verifier::opaque]
pub open spec fn named_in_source(runtime: Seq<char>) -> Seq<char> {
    text_before(runtime, "$shadow"@, 0)
}

/// See [`named_in_source`].
pub fn source_name(runtime: &String) -> (r: String)
    ensures
        r@ == named_in_source(runtime@),
{
    proof {
        reveal(named_in_source);
    }
    before_text(runtime.as_str(), "$shadow")
}


pub open spec fn same_names(
    names: Seq<Seq<char>>,
    i: nat,
    out: Seq<(Seq<char>, Seq<char>)>,
) -> Seq<(Seq<char>, Seq<char>)>
    decreases names, (names.len() - i) as nat,
{
    if i >= names.len() {
        out
    } else {
        let name = names[i as int];
        let out = out.push((name, name));
        same_names(names, i + 1, out)
    }
}

/// See [`same_names`].
pub fn identity_scope(names: &Vec<String>) -> (r: Vec<(String, String)>)
    ensures
        renaming_list_view(r@) == same_names(
            string_list_view(names@),
            0,
            Seq::<(Seq<char>, Seq<char>)>::empty(),
        ),
    decreases names@, 0nat,
{
    let mut out: Vec<(String, String)> = Vec::new();
    assert(renaming_list_view(out@) =~= Seq::<(Seq<char>, Seq<char>)>::empty());
    let ghost goal = same_names(
        string_list_view(names@),
        0,
        Seq::<(Seq<char>, Seq<char>)>::empty(),
    );
    let mut i: usize = 0;
    while i < names.len()
        invariant
            i <= names@.len(),
            string_list_view(names@).len() == names@.len(),
            same_names(string_list_view(names@), i as nat, renaming_list_view(out@)) == goal,
            goal == same_names(string_list_view(names@), 0, Seq::<(Seq<char>, Seq<char>)>::empty()),
        decreases names@.len() - i,
    {
        let name = &names[i];
        assert(string_list_view(names@)[i as int] == name@);
        let item = (name.clone(), name.clone());
        let ghost before = renaming_list_view(out@);
        let ghost added = (item.0@, item.1@);
        out.push(item);
        assert(renaming_list_view(out@) =~= before.push(added));
        i = i + 1;
    }
    out
}

/// The slots and the scope of a function: its parameters, then the names it binds
/// without declaring them.
pub open spec fn rooted(
    implicit: Seq<Seq<char>>,
    i: nat,
    vars: Seq<Seq<char>>,
    scope: Seq<(Seq<char>, Seq<char>)>,
) -> (Seq<Seq<char>>, Seq<(Seq<char>, Seq<char>)>)
    decreases implicit, (implicit.len() - i) as nat,
{
    if i >= implicit.len() {
        (vars, scope)
    } else {
        let name = implicit[i as int];
        if runtime_in_scope(scope, name) is None {
            let vars = vars.push(name);
            let scope = scope.push((name, name));
            rooted(implicit, i + 1, vars, scope)
        } else {
            rooted(implicit, i + 1, vars, scope)
        }
    }
}

/// See [`rooted`].
pub fn root_names(
    implicit: &Vec<String>,
    params: Vec<String>,
    named: Vec<(String, String)>,
) -> (r: (Vec<String>, Vec<(String, String)>))
    ensures
        (string_list_view(r.0@), renaming_list_view(r.1@)) == rooted(
            string_list_view(implicit@),
            0,
            string_list_view(params@),
            renaming_list_view(named@),
        ),
    decreases implicit@, 0nat,
{
    let mut vars: Vec<String> = params;
    let mut scope: Vec<(String, String)> = named;
    let ghost goal = rooted(
        string_list_view(implicit@),
        0,
        string_list_view(params@),
        renaming_list_view(named@),
    );
    let mut i: usize = 0;
    while i < implicit.len()
        invariant
            i <= implicit@.len(),
            string_list_view(implicit@).len() == implicit@.len(),
            rooted(
                string_list_view(implicit@),
                i as nat,
                string_list_view(vars@),
                renaming_list_view(scope@),
            ) == goal,
            goal == rooted(
                string_list_view(implicit@),
                0,
                string_list_view(params@),
                renaming_list_view(named@),
            ),
        decreases implicit@.len() - i,
    {
        let name = &implicit[i];
        assert(string_list_view(implicit@)[i as int] == name@);
        if find_runtime(&scope, name).is_none() {
            let item = name.clone();
            let ghost before = string_list_view(vars@);
            let ghost added = item@;
            vars.push(item);
            assert(string_list_view(vars@) =~= before.push(added));
            let item2 = (name.clone(), name.clone());
            let ghost before2 = renaming_list_view(scope@);
            let ghost added2 = (item2.0@, item2.1@);
            scope.push(item2);
            assert(renaming_list_view(scope@) =~= before2.push(added2));
        }
        i = i + 1;
    }
    (vars, scope)
}

pub open spec fn escaping_loops(
    targets: Seq<(usize, usize)>,
    i: nat,
    out: Seq<LoopFrame>,
) -> Seq<LoopFrame>
    decreases targets, (targets.len() - i) as nat,
{
    if i >= targets.len() {
        out
    } else {
        let target = targets[i as int];
        let out = out.push(LoopFrame { header: target.0, exit: target.1, escape: true });
        escaping_loops(targets, i + 1, out)
    }
}

/// See [`escaping_loops`].
pub fn external_loops(targets: &Vec<(usize, usize)>) -> (r: Vec<LoopFrame>)
    ensures
        r@ == escaping_loops(targets@, 0, Seq::<LoopFrame>::empty()),
    decreases targets@, 0nat,
{
    let mut out: Vec<LoopFrame> = Vec::new();
    let ghost goal = escaping_loops(targets@, 0, Seq::<LoopFrame>::empty());
    let mut i: usize = 0;
    while i < targets.len()
        invariant
            i <= targets@.len(),
            escaping_loops(targets@, i as nat, out@) == goal,
            goal == escaping_loops(targets@, 0, Seq::<LoopFrame>::empty()),
        decreases targets@.len() - i,
    {
        let target = &targets[i];
        out.push(LoopFrame { header: target.0, exit: target.1, escape: true });
        i = i + 1;
    }
    out
}

/// The type recorded for a name: that of the first checked identifier of that
/// name that has one, the type of its place first.
pub open spec fn recorded_type(
    nodes: Seq<CheckedExprView>,
    name: Seq<char>,
    i: nat,
) -> Option<TyView>
    decreases nodes, (nodes.len() - i) as nat,
{
    if i >= nodes.len() {
        None
    } else {
        let node = nodes[i as int];
        match node.syntax.kind {
            ExprKindView::Identifier(found) => if found == name {
                if node.place_ty is Some {
                    node.place_ty
                } else if node.ty is Some {
                    node.ty
                } else {
                    recorded_type(nodes, name, i + 1)
                }
            } else {
                recorded_type(nodes, name, i + 1)
            },
            _ => recorded_type(nodes, name, i + 1),
        }
    }
}

/// See [`recorded_type`].
pub fn type_of_name(nodes: &Vec<CheckedExpr>, name: &String) -> (r: Option<Ty>)
    ensures
        opt_view(r) == recorded_type(checked_expr_list_view(nodes@), name@, 0),
    decreases nodes@, 0nat,
{
    let ghost goal = recorded_type(checked_expr_list_view(nodes@), name@, 0);
    let mut i: usize = 0;
    while i < nodes.len()
        invariant
            i <= nodes@.len(),
            checked_expr_list_view(nodes@).len() == nodes@.len(),
            recorded_type(checked_expr_list_view(nodes@), name@, i as nat) == goal,
            goal == recorded_type(checked_expr_list_view(nodes@), name@, 0),
        decreases nodes@.len() - i,
    {
        let node = &nodes[i];
        assert(checked_expr_list_view(nodes@)[i as int] == node@);
        proof { unfold_expr_kind(node.syntax.kind); }
        match &node.syntax.kind {
            ExprKind::Identifier(found) => {
                if same_string(found, name) {
                    if node.place_ty.is_some() {
                        return (
                            match (&node.place_ty) { Some(y) => Some(clone_ty(y)), None => None }
                        );
                    }
                    if node.ty.is_some() {
                        return (match (&node.ty) { Some(y) => Some(clone_ty(y)), None => None });
                    }
                }
            },
            _ => {
                assert(!(node.syntax.kind@ is Identifier));
            },
        }
        i = i + 1;
    }
    None
}

/// The checked types of variable slots. A shadowing variable has the type of its
/// source name.
pub open spec fn slot_types(
    vars: Seq<Seq<char>>,
    nodes: Seq<CheckedExprView>,
    i: nat,
    out: Seq<(u32, TyView)>,
    slot: u32,
) -> Seq<(u32, TyView)>
    decreases vars, (vars.len() - i) as nat,
{
    if i >= vars.len() {
        out
    } else {
        let runtime = vars[i as int];
        let name = named_in_source(runtime);
        let out = match recorded_type(nodes, name, 0) {
            Some(ty) => {
                let out = out.push((slot, ty));
                out
            },
            None => out,
        };
        let slot = following_slot(slot);
        slot_types(vars, nodes, i + 1, out, slot)
    }
}

/// See [`slot_types`].
pub fn checked_var_types(vars: &Vec<String>, nodes: &Vec<CheckedExpr>) -> (r: Vec<(u32, Ty)>)
    ensures
        slot_ty_list_view(r@) == slot_types(
            string_list_view(vars@),
            checked_expr_list_view(nodes@),
            0,
            Seq::<(u32, TyView)>::empty(),
            0,
        ),
    decreases vars@, 0nat,
{
    let mut out: Vec<(u32, Ty)> = Vec::new();
    assert(slot_ty_list_view(out@) =~= Seq::<(u32, TyView)>::empty());
    let mut slot: u32 = 0;
    let ghost goal = slot_types(
        string_list_view(vars@),
        checked_expr_list_view(nodes@),
        0,
        Seq::<(u32, TyView)>::empty(),
        0,
    );
    let mut i: usize = 0;
    while i < vars.len()
        invariant
            i <= vars@.len(),
            string_list_view(vars@).len() == vars@.len(),
            slot_types(
                string_list_view(vars@),
                checked_expr_list_view(nodes@),
                i as nat,
                slot_ty_list_view(out@),
                slot,
            ) == goal,
            goal == slot_types(
                string_list_view(vars@),
                checked_expr_list_view(nodes@),
                0,
                Seq::<(u32, TyView)>::empty(),
                0,
            ),
        decreases vars@.len() - i,
    {
        let runtime = &vars[i];
        assert(string_list_view(vars@)[i as int] == runtime@);
        let name = source_name(runtime);
        match type_of_name(nodes, &name) {
            Some(ty) => {
                let item = (slot, ty);
                let ghost before = slot_ty_list_view(out@);
                let ghost added = (item.0, item.1@);
                out.push(item);
                assert(slot_ty_list_view(out@) =~= before.push(added));
            },
            None => {},
        }
        slot = next_slot(slot);
        i = i + 1;
    }
    out
}

#[verifier::opaque]
pub open spec fn following_slot(slot: u32) -> u32 {
    if slot < 4294967295 {
        (slot + 1) as u32
    } else {
        slot
    }
}

/// See [`following_slot`].
pub fn next_slot(slot: u32) -> (r: u32)
    ensures
        r == following_slot(slot),
{
    proof { reveal(following_slot); }
    if slot < 4294967295 {
        slot + 1
    } else {
        slot
    }
}

/// Where the lowering of a body starts: an empty entry block.
#[verifier::opaque]
pub open spec fn started(
    vars: Seq<Seq<char>>,
    scope: Seq<(Seq<char>, Seq<char>)>,
    captures: Seq<Seq<char>>,
    loops: Seq<LoopFrame>,
    is_function: bool,
    checked: Seq<CheckedExprView>,
) -> LowerView {
    let scopes = seq![scope];
    let lower = LowerView {
        g: no_blocks(),
        blocks: Seq::empty(),
        cur: 0,
        loops,
        vars,
        scopes,
        captures,
        is_function,
        checked,
        complete: true,
    };
    let (lower, _) = new_block(lower);
    lower
}

/// See [`started`].
pub fn start(
    vars: Vec<String>,
    scope: Vec<(String, String)>,
    captures: Vec<String>,
    loops: Vec<LoopFrame>,
    is_function: bool,
    checked: &Vec<CheckedExpr>,
) -> (r: Lower)
    ensures
        r@ == started(
            string_list_view(vars@),
            renaming_list_view(scope@),
            string_list_view(captures@),
            loops@,
            is_function,
            checked_expr_list_view(checked@),
        ),
{
    proof { reveal(started); }
    let ghost seen = renaming_list_view(scope@);
    let list = vec![scope];
    assert(scope_list_view(list@) =~= seq![seen]);
    let scopes = list;
    let list2: Vec<BasicBlock> = Vec::new();
    assert(basic_block_list_view(list2@) =~= Seq::<BasicBlockView>::empty());
    let lower2 = Lower {
        g: BlockGraph::new(),
        blocks: list2,
        cur: 0,
        loops,
        vars,
        scopes,
        captures,
        is_function,
        checked: clone_checked_expr_list(checked),
        complete: true,
    };
    proof { unfold_lower(lower2); }
    let lower = lower2;
    let (lower, _) = lower.new_block();
    lower
}

/// The graph of a body, once its last block has got its terminator.
#[verifier::opaque]
pub open spec fn finished(
    lower: LowerView,
    body: Seq<StmtView>,
    end: TerminatorView,
    n_params: usize,
) -> CfgView {
    let lower = lower_block(lower, body, 0);
    let lower = seal_block(lower, end);
    let var_types = slot_types(lower.vars, lower.checked, 0, Seq::empty(), 0);
    CfgView {
        g: lower.g,
        blocks: lower.blocks,
        entry: 0,
        vars: lower.vars,
        n_params,
        checked_expressions: lower.checked,
        var_types,
        complete: lower.complete,
    }
}

/// See [`finished`].
pub fn finish(lower: Lower, body: &Vec<Stmt>, end: Terminator, n_params: usize) -> (r: Cfg)
    ensures
        r@ == finished(lower@, stmt_list_view(body@), end@, n_params),
{
    proof { reveal(finished); }
    let lower = lower.block(body);
    let lower = lower.seal(end);
    let var_types = checked_var_types(&lower.vars, &lower.checked);
    let cfg = Cfg {
        g: lower.g,
        blocks: lower.blocks,
        entry: 0,
        vars: lower.vars,
        n_params,
        checked_expressions: lower.checked,
        var_types,
        complete: lower.complete,
    };
    proof { unfold_cfg(cfg); }
    cfg
}

/// The graph of a function body. Its parameters have the first slots.
#[verifier::opaque]
pub open spec fn function_cfg(
    params: Seq<Seq<char>>,
    captures: Seq<Seq<char>>,
    body: Seq<StmtView>,
    checked: Seq<CheckedExprView>,
) -> CfgView {
    let explicit = declared_names(body, 0, Seq::empty());
    let implicit = implicit_names(body, explicit, 0, Seq::empty());
    let named = same_names(params, 0, Seq::empty());
    let (vars, scope) = rooted(implicit, 0, params, named);
    let lower = started(vars, scope, captures, Seq::empty(), true, checked);
    finished(lower, body, TerminatorView::Return(None), params.len() as usize)
}

/// See [`function_cfg`].
pub fn build_fn_with_context(
    params: &Vec<String>,
    captures: Vec<String>,
    body: &Vec<Stmt>,
    checked: &Vec<CheckedExpr>,
) -> (r: Cfg)
    ensures
        r@ == function_cfg(
            string_list_view(params@),
            string_list_view(captures@),
            stmt_list_view(body@),
            checked_expr_list_view(checked@),
        ),
{
    proof { reveal(function_cfg); }
    let list: Vec<String> = Vec::new();
    assert(string_list_view(list@) =~= Seq::<Seq<char>>::empty());
    let explicit = explicit_local_names(body, list);
    let list2: Vec<String> = Vec::new();
    assert(string_list_view(list2@) =~= Seq::<Seq<char>>::empty());
    let implicit = collect_function_implicit_names(body, &explicit, list2);
    let named = identity_scope(params);
    let (vars, scope) = root_names(&implicit, clone_string_list(params), named);
    let list3: Vec<LoopFrame> = Vec::new();
    assert(list3@ =~= Seq::<LoopFrame>::empty());
    let lower = start(vars, scope, captures, list3, true, checked);
    finish(lower, body, Terminator::Return(None), params.len())
}

/// The graph of a region of a function, which shares the slots of the function
/// and can leave the loops around it.
#[verifier::opaque]
pub open spec fn region_cfg(
    seed_vars: Seq<Seq<char>>,
    body: Seq<StmtView>,
    external: Seq<(usize, usize)>,
    checked: Seq<CheckedExprView>,
) -> CfgView {
    let loops = escaping_loops(external, 0, Seq::empty());
    let scope = same_names(seed_vars, 0, Seq::empty());
    let lower = started(seed_vars, scope, Seq::empty(), loops, false, checked);
    finished(lower, body, TerminatorView::FallOff, 0)
}

/// See [`region_cfg`].
pub fn build_seeded_checked_with_loops(
    seed_vars: Vec<String>,
    body: &Vec<Stmt>,
    external: &Vec<(usize, usize)>,
    checked: &Vec<CheckedExpr>,
) -> (r: Cfg)
    ensures
        r@ == region_cfg(
            string_list_view(seed_vars@),
            stmt_list_view(body@),
            external@,
            checked_expr_list_view(checked@),
        ),
{
    proof { reveal(region_cfg); }
    let loops = external_loops(external);
    let scope = identity_scope(&seed_vars);
    let list: Vec<String> = Vec::new();
    assert(string_list_view(list@) =~= Seq::<Seq<char>>::empty());
    let lower = start(seed_vars, scope, list, loops, false, checked);
    finish(lower, body, Terminator::FallOff, 0)
}

} // verus!
