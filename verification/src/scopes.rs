//! Lexical scopes: runtime names of variables.

use crate::ast::{
    ComprehensionClause, ComprehensionClauseView, Expr, ExprKind, ExprKindView, ExprView, InfixOp,
    KwArg, KwArgView, SubscriptArg, SubscriptArgView, clone_expr_kind, clone_param_arg_list,
    comparison_list_view, comprehension_clause_list_view, entry_list_view, expr_list_view,
    kw_arg_list_view, subscript_arg_list_view, unfold_expr_kind,
};
use crate::text::{opt_view, same_string, string_list_view};
use vstd::prelude::*;

verus! {

pub open spec fn renaming_list_view(s: Seq<(String, String)>) -> Seq<(Seq<char>, Seq<char>)>
    decreases s,
{
    Seq::new(s.len(), |i: int| if 0 <= i < s.len() { (s[i].0@, s[i].1@) } else { arbitrary() })
}

pub fn clone_renaming_list(v: &Vec<(String, String)>) -> (r: Vec<(String, String)>)
    ensures
        renaming_list_view(r@) == renaming_list_view(v@),
        r@.len() == v@.len(),
    decreases v@,
{
    let mut r: Vec<(String, String)> = Vec::new();
    for i in 0..v.len()
        invariant
            r@.len() == i,
            forall|j: int| 0 <= j < i ==> ((#[trigger] r@[j]).0@, (#[trigger] r@[j]).1@) == (v@[j].0@, v@[j].1@),
    {
        r.push(((&(&v[i]).0).clone(), (&(&v[i]).1).clone()));
    }
    assert(renaming_list_view(r@) =~= renaming_list_view(v@));
    r
}

pub open spec fn scope_list_view(s: Seq<Vec<(String, String)>>) -> Seq<Seq<(Seq<char>, Seq<char>)>>
    decreases s,
{
    Seq::new(s.len(), |i: int| if 0 <= i < s.len() { renaming_list_view(s[i]@) } else { arbitrary() })
}

pub fn clone_scope_list(v: &Vec<Vec<(String, String)>>) -> (r: Vec<Vec<(String, String)>>)
    ensures
        scope_list_view(r@) == scope_list_view(v@),
        r@.len() == v@.len(),
    decreases v@,
{
    let mut r: Vec<Vec<(String, String)>> = Vec::new();
    for i in 0..v.len()
        invariant
            r@.len() == i,
            forall|j: int| 0 <= j < i ==> renaming_list_view((#[trigger] r@[j])@) == renaming_list_view(v@[j]@),
    {
        r.push(clone_renaming_list((&v[i])));
    }
    assert(scope_list_view(r@) =~= scope_list_view(v@));
    r
}

/// The value of the last entry of a key.
pub open spec fn runtime_in_scope(entries: Seq<(Seq<char>, Seq<char>)>, key: Seq<char>) -> Option<Seq<char>>
    decreases entries.len(),
{
    if entries.len() == 0 {
        None
    } else if entries.last().0 == key {
        Some(entries.last().1)
    } else {
        runtime_in_scope(entries.drop_last(), key)
    }
}

/// See [`runtime_in_scope`].
pub fn find_runtime(entries: &Vec<(String, String)>, key: &String) -> (r: Option<String>)
    ensures
        opt_view(r) == runtime_in_scope(renaming_list_view(entries@), key@),
{
    let ghost all = renaming_list_view(entries@);
    let mut i: usize = entries.len();
    assert(all.take(i as int) =~= all);
    while i > 0
        invariant
            i <= entries@.len(),
            all == renaming_list_view(entries@),
            all.len() == entries@.len(),
            runtime_in_scope(all, key@) == runtime_in_scope(all.take(i as int), key@),
        decreases i,
    {
        assert(all.take(i as int).last() == all[i - 1]);
        assert(all.take(i as int).drop_last() =~= all.take(i - 1));
        i = i - 1;
        if same_string(&entries[i].0, key) {
            return Some(entries[i].1.clone());
        }
    }
    None
}

/// The runtime name of a variable: that of the innermost scope that has one,
/// else the name itself.
pub open spec fn runtime_name(scopes: Seq<Seq<(Seq<char>, Seq<char>)>>, name: Seq<char>) -> Seq<char>
    decreases scopes.len(),
{
    if scopes.len() == 0 {
        name
    } else {
        match runtime_in_scope(scopes.last(), name) {
            Some(runtime) => runtime,
            None => runtime_name(scopes.drop_last(), name),
        }
    }
}

/// See [`runtime_name`].
pub fn resolve_name(scopes: &Vec<Vec<(String, String)>>, name: &String) -> (r: String)
    ensures
        r@ == runtime_name(scope_list_view(scopes@), name@),
{
    let ghost all = scope_list_view(scopes@);
    let mut i: usize = scopes.len();
    assert(all.take(i as int) =~= all);
    while i > 0
        invariant
            i <= scopes@.len(),
            all == scope_list_view(scopes@),
            all.len() == scopes@.len(),
            runtime_name(all, name@) == runtime_name(all.take(i as int), name@),
        decreases i,
    {
        assert(all.take(i as int).last() == all[i - 1]);
        assert(all.take(i as int).drop_last() =~= all.take(i - 1));
        i = i - 1;
        assert(all[i as int] == renaming_list_view(scopes@[i as int]@));
        match find_runtime(&scopes[i], name) {
            Some(runtime) => {
                return runtime;
            },
            None => {},
        }
    }
    name.clone()
}

/// Whether one of the first `n` scopes declares a name.
pub open spec fn declared_in(scopes: Seq<Seq<(Seq<char>, Seq<char>)>>, name: Seq<char>, n: nat) -> bool
    decreases n,
{
    n > 0 && n <= scopes.len() && (runtime_in_scope(scopes[n - 1], name) is Some || declared_in(
        scopes,
        name,
        (n - 1) as nat,
    ))
}

/// See [`declared_in`].
pub fn is_declared(scopes: &Vec<Vec<(String, String)>>, name: &String, n: usize) -> (r: bool)
    requires
        n <= scopes@.len(),
    ensures
        r == declared_in(scope_list_view(scopes@), name@, n as nat),
{
    let ghost all = scope_list_view(scopes@);
    let mut i: usize = n;
    while i > 0
        invariant
            i <= n <= scopes@.len(),
            all == scope_list_view(scopes@),
            all.len() == scopes@.len(),
            declared_in(all, name@, n as nat) == declared_in(all, name@, i as nat),
        decreases i,
    {
        i = i - 1;
        assert(all[i as int] == renaming_list_view(scopes@[i as int]@));
        if find_runtime(&scopes[i], name).is_some() {
            return true;
        }
    }
    false
}

/// The scopes with one more entry in the innermost.
pub open spec fn with_entry(
    scopes: Seq<Seq<(Seq<char>, Seq<char>)>>,
    name: Seq<char>,
    runtime: Seq<char>,
) -> Seq<Seq<(Seq<char>, Seq<char>)>> {
    if scopes.len() == 0 {
        scopes
    } else {
        scopes.drop_last().push(scopes.last().push((name, runtime)))
    }
}

/// The first position of a name.
pub open spec fn slot_of(vars: Seq<Seq<char>>, name: Seq<char>, i: nat) -> Option<usize>
    decreases vars.len() - i,
{
    if i >= vars.len() {
        None
    } else if vars[i as int] == name {
        Some(i as usize)
    } else {
        slot_of(vars, name, i + 1)
    }
}

/// See [`slot_of`].
pub fn find_slot(vars: &Vec<String>, name: &String) -> (r: Option<usize>)
    ensures
        r == slot_of(string_list_view(vars@), name@, 0),
        r matches Some(i) ==> i < vars@.len(),
{
    let ghost all = string_list_view(vars@);
    let mut i: usize = 0;
    while i < vars.len()
        invariant
            i <= vars@.len(),
            all == string_list_view(vars@),
            all.len() == vars@.len(),
            slot_of(all, name@, i as nat) == slot_of(all, name@, 0),
        decreases vars@.len() - i,
    {
        assert(all[i as int] == vars@[i as int]@);
        if same_string(&vars[i], name) {
            return Some(i);
        }
        i = i + 1;
    }
    None
}


pub open spec fn renamed_comparison_list(
    items: Seq<(InfixOp, ExprView)>,
    scopes: Seq<Seq<(Seq<char>, Seq<char>)>>,
    i: nat,
    out: Seq<(InfixOp, ExprView)>,
) -> Seq<(InfixOp, ExprView)>
    decreases items, (items.len() - i) as nat,
{
    if i >= items.len() {
        out
    } else {
        let item = items[i as int];
        let out = out.push((item.0, renamed_expr(item.1, scopes)));
        renamed_comparison_list(items, scopes, i + 1, out)
    }
}

/// See [`renamed_comparison_list`].
pub fn rename_comparison_list(
    items: &Vec<(InfixOp, Expr)>,
    scopes: &Vec<Vec<(String, String)>>,
) -> (r: Vec<(InfixOp, Expr)>)
    ensures
        comparison_list_view(r@) == renamed_comparison_list(
            comparison_list_view(items@),
            scope_list_view(scopes@),
            0,
            Seq::<(InfixOp, ExprView)>::empty(),
        ),
    decreases items@, 0nat,
{
    let mut out: Vec<(InfixOp, Expr)> = Vec::new();
    assert(comparison_list_view(out@) =~= Seq::<(InfixOp, ExprView)>::empty());
    let ghost goal = renamed_comparison_list(
        comparison_list_view(items@),
        scope_list_view(scopes@),
        0,
        Seq::<(InfixOp, ExprView)>::empty(),
    );
    let mut i: usize = 0;
    while i < items.len()
        invariant
            i <= items@.len(),
            comparison_list_view(items@).len() == items@.len(),
            renamed_comparison_list(
                comparison_list_view(items@),
                scope_list_view(scopes@),
                i as nat,
                comparison_list_view(out@),
            ) == goal,
            goal == renamed_comparison_list(
                comparison_list_view(items@),
                scope_list_view(scopes@),
                0,
                Seq::<(InfixOp, ExprView)>::empty(),
            ),
        decreases items@.len() - i,
    {
        let item = &items[i];
        assert(comparison_list_view(items@)[i as int].1 =~= item.1@);
        let item2 = (item.0, rename_expr(&item.1, scopes));
        let ghost before = comparison_list_view(out@);
        let ghost added = (item2.0, item2.1@);
        out.push(item2);
        assert(comparison_list_view(out@) =~= before.push(added));
        i = i + 1;
    }
    out
}

pub open spec fn renamed_expr_list(
    items: Seq<ExprView>,
    scopes: Seq<Seq<(Seq<char>, Seq<char>)>>,
    i: nat,
    out: Seq<ExprView>,
) -> Seq<ExprView>
    decreases items, (items.len() - i) as nat,
{
    if i >= items.len() {
        out
    } else {
        let item = items[i as int];
        let out = out.push(renamed_expr(item, scopes));
        renamed_expr_list(items, scopes, i + 1, out)
    }
}

/// See [`renamed_expr_list`].
pub fn rename_expr_list(
    items: &Vec<Expr>,
    scopes: &Vec<Vec<(String, String)>>,
) -> (r: Vec<Expr>)
    ensures
        expr_list_view(r@) == renamed_expr_list(
            expr_list_view(items@),
            scope_list_view(scopes@),
            0,
            Seq::<ExprView>::empty(),
        ),
    decreases items@, 0nat,
{
    let mut out: Vec<Expr> = Vec::new();
    assert(expr_list_view(out@) =~= Seq::<ExprView>::empty());
    let ghost goal = renamed_expr_list(
        expr_list_view(items@),
        scope_list_view(scopes@),
        0,
        Seq::<ExprView>::empty(),
    );
    let mut i: usize = 0;
    while i < items.len()
        invariant
            i <= items@.len(),
            expr_list_view(items@).len() == items@.len(),
            renamed_expr_list(
                expr_list_view(items@),
                scope_list_view(scopes@),
                i as nat,
                expr_list_view(out@),
            ) == goal,
            goal == renamed_expr_list(
                expr_list_view(items@),
                scope_list_view(scopes@),
                0,
                Seq::<ExprView>::empty(),
            ),
        decreases items@.len() - i,
    {
        let item = &items[i];
        assert(expr_list_view(items@)[i as int] == item@);
        let item2 = rename_expr(item, scopes);
        let ghost before = expr_list_view(out@);
        let ghost added = item2@;
        out.push(item2);
        assert(expr_list_view(out@) =~= before.push(added));
        i = i + 1;
    }
    out
}

pub open spec fn renamed_kw_arg(
    kw_arg: KwArgView,
    scopes: Seq<Seq<(Seq<char>, Seq<char>)>>,
) -> KwArgView
    decreases kw_arg, 0nat,
{
    KwArgView { name: kw_arg.name, value: renamed_expr(kw_arg.value, scopes) }
}

/// See [`renamed_kw_arg`].
pub fn rename_kw_arg(kw_arg: &KwArg, scopes: &Vec<Vec<(String, String)>>) -> (r: KwArg)
    ensures
        r@ == renamed_kw_arg(kw_arg@, scope_list_view(scopes@)),
    decreases kw_arg, 0nat,
{
    KwArg { name: (&kw_arg.name).clone(), value: rename_expr(&kw_arg.value, scopes) }
}

pub open spec fn renamed_kw_arg_list(
    items: Seq<KwArgView>,
    scopes: Seq<Seq<(Seq<char>, Seq<char>)>>,
    i: nat,
    out: Seq<KwArgView>,
) -> Seq<KwArgView>
    decreases items, (items.len() - i) as nat,
{
    if i >= items.len() {
        out
    } else {
        let item = items[i as int];
        let out = out.push(renamed_kw_arg(item, scopes));
        renamed_kw_arg_list(items, scopes, i + 1, out)
    }
}

/// See [`renamed_kw_arg_list`].
pub fn rename_kw_arg_list(
    items: &Vec<KwArg>,
    scopes: &Vec<Vec<(String, String)>>,
) -> (r: Vec<KwArg>)
    ensures
        kw_arg_list_view(r@) == renamed_kw_arg_list(
            kw_arg_list_view(items@),
            scope_list_view(scopes@),
            0,
            Seq::<KwArgView>::empty(),
        ),
    decreases items@, 0nat,
{
    let mut out: Vec<KwArg> = Vec::new();
    assert(kw_arg_list_view(out@) =~= Seq::<KwArgView>::empty());
    let ghost goal = renamed_kw_arg_list(
        kw_arg_list_view(items@),
        scope_list_view(scopes@),
        0,
        Seq::<KwArgView>::empty(),
    );
    let mut i: usize = 0;
    while i < items.len()
        invariant
            i <= items@.len(),
            kw_arg_list_view(items@).len() == items@.len(),
            renamed_kw_arg_list(
                kw_arg_list_view(items@),
                scope_list_view(scopes@),
                i as nat,
                kw_arg_list_view(out@),
            ) == goal,
            goal == renamed_kw_arg_list(
                kw_arg_list_view(items@),
                scope_list_view(scopes@),
                0,
                Seq::<KwArgView>::empty(),
            ),
        decreases items@.len() - i,
    {
        let item = &items[i];
        assert(kw_arg_list_view(items@)[i as int] == item@);
        let item2 = rename_kw_arg(item, scopes);
        let ghost before = kw_arg_list_view(out@);
        let ghost added = item2@;
        out.push(item2);
        assert(kw_arg_list_view(out@) =~= before.push(added));
        i = i + 1;
    }
    out
}

pub open spec fn renamed_opt_boxed_expr(
    value: Option<Box<ExprView>>,
    scopes: Seq<Seq<(Seq<char>, Seq<char>)>>,
) -> Option<Box<ExprView>>
    decreases value, 0nat,
{
    match value {
        Some(value) => Some(Box::new(renamed_expr(*value, scopes))),
        None => None,
    }
}

/// See [`renamed_opt_boxed_expr`].
pub fn rename_opt_boxed_expr(
    value: &Option<Box<Expr>>,
    scopes: &Vec<Vec<(String, String)>>,
) -> (r: Option<Box<Expr>>)
    ensures
        (match r { Some(v) => Some(Box::new(v@)), None => None }) == renamed_opt_boxed_expr(
            (match value { Some(v) => Some(Box::new(v@)), None => None }),
            scope_list_view(scopes@),
        ),
    decreases value, 0nat,
{
    match value {
        Some(value) => Some(Box::new(rename_expr(&**value, scopes))),
        None => None,
    }
}

pub open spec fn renamed_subscript_arg(
    subscript_arg: SubscriptArgView,
    scopes: Seq<Seq<(Seq<char>, Seq<char>)>>,
) -> SubscriptArgView
    decreases subscript_arg, 0nat,
{
    match subscript_arg {
        SubscriptArgView::Index(a0) => SubscriptArgView::Index(renamed_expr(a0, scopes)),
        SubscriptArgView::Slice { lower, upper, step } => SubscriptArgView::Slice {
            lower: renamed_opt_boxed_expr(lower, scopes),
            upper: renamed_opt_boxed_expr(upper, scopes),
            step: renamed_opt_boxed_expr(step, scopes),
        },
    }
}

/// See [`renamed_subscript_arg`].
pub fn rename_subscript_arg(
    subscript_arg: &SubscriptArg,
    scopes: &Vec<Vec<(String, String)>>,
) -> (r: SubscriptArg)
    ensures
        r@ == renamed_subscript_arg(subscript_arg@, scope_list_view(scopes@)),
    decreases subscript_arg, 0nat,
{
    match subscript_arg {
        SubscriptArg::Index(a0) => SubscriptArg::Index(rename_expr(a0, scopes)),
        SubscriptArg::Slice { lower, upper, step } => SubscriptArg::Slice {
            lower: rename_opt_boxed_expr(lower, scopes),
            upper: rename_opt_boxed_expr(upper, scopes),
            step: rename_opt_boxed_expr(step, scopes),
        },
    }
}

pub open spec fn renamed_subscript_arg_list(
    items: Seq<SubscriptArgView>,
    scopes: Seq<Seq<(Seq<char>, Seq<char>)>>,
    i: nat,
    out: Seq<SubscriptArgView>,
) -> Seq<SubscriptArgView>
    decreases items, (items.len() - i) as nat,
{
    if i >= items.len() {
        out
    } else {
        let item = items[i as int];
        let out = out.push(renamed_subscript_arg(item, scopes));
        renamed_subscript_arg_list(items, scopes, i + 1, out)
    }
}

/// See [`renamed_subscript_arg_list`].
pub fn rename_subscript_arg_list(
    items: &Vec<SubscriptArg>,
    scopes: &Vec<Vec<(String, String)>>,
) -> (r: Vec<SubscriptArg>)
    ensures
        subscript_arg_list_view(r@) == renamed_subscript_arg_list(
            subscript_arg_list_view(items@),
            scope_list_view(scopes@),
            0,
            Seq::<SubscriptArgView>::empty(),
        ),
    decreases items@, 0nat,
{
    let mut out: Vec<SubscriptArg> = Vec::new();
    assert(subscript_arg_list_view(out@) =~= Seq::<SubscriptArgView>::empty());
    let ghost goal = renamed_subscript_arg_list(
        subscript_arg_list_view(items@),
        scope_list_view(scopes@),
        0,
        Seq::<SubscriptArgView>::empty(),
    );
    let mut i: usize = 0;
    while i < items.len()
        invariant
            i <= items@.len(),
            subscript_arg_list_view(items@).len() == items@.len(),
            renamed_subscript_arg_list(
                subscript_arg_list_view(items@),
                scope_list_view(scopes@),
                i as nat,
                subscript_arg_list_view(out@),
            ) == goal,
            goal == renamed_subscript_arg_list(
                subscript_arg_list_view(items@),
                scope_list_view(scopes@),
                0,
                Seq::<SubscriptArgView>::empty(),
            ),
        decreases items@.len() - i,
    {
        let item = &items[i];
        assert(subscript_arg_list_view(items@)[i as int] == item@);
        let item2 = rename_subscript_arg(item, scopes);
        let ghost before = subscript_arg_list_view(out@);
        let ghost added = item2@;
        out.push(item2);
        assert(subscript_arg_list_view(out@) =~= before.push(added));
        i = i + 1;
    }
    out
}

pub open spec fn renamed_opt_expr(
    value: Option<ExprView>,
    scopes: Seq<Seq<(Seq<char>, Seq<char>)>>,
) -> Option<ExprView>
    decreases value, 0nat,
{
    match value {
        Some(value) => Some(renamed_expr(value, scopes)),
        None => None,
    }
}

/// See [`renamed_opt_expr`].
pub fn rename_opt_expr(
    value: &Option<Expr>,
    scopes: &Vec<Vec<(String, String)>>,
) -> (r: Option<Expr>)
    ensures
        opt_view(r) == renamed_opt_expr(opt_view(*value), scope_list_view(scopes@)),
    decreases value, 0nat,
{
    match value {
        Some(value) => Some(rename_expr(value, scopes)),
        None => None,
    }
}

pub open spec fn renamed_entry_list(
    items: Seq<(ExprView, Option<ExprView>)>,
    scopes: Seq<Seq<(Seq<char>, Seq<char>)>>,
    i: nat,
    out: Seq<(ExprView, Option<ExprView>)>,
) -> Seq<(ExprView, Option<ExprView>)>
    decreases items, (items.len() - i) as nat,
{
    if i >= items.len() {
        out
    } else {
        let item = items[i as int];
        let out = out.push((renamed_expr(item.0, scopes), renamed_opt_expr(item.1, scopes)));
        renamed_entry_list(items, scopes, i + 1, out)
    }
}

/// See [`renamed_entry_list`].
pub fn rename_entry_list(
    items: &Vec<(Expr, Option<Expr>)>,
    scopes: &Vec<Vec<(String, String)>>,
) -> (r: Vec<(Expr, Option<Expr>)>)
    ensures
        entry_list_view(r@) == renamed_entry_list(
            entry_list_view(items@),
            scope_list_view(scopes@),
            0,
            Seq::<(ExprView, Option<ExprView>)>::empty(),
        ),
    decreases items@, 0nat,
{
    let mut out: Vec<(Expr, Option<Expr>)> = Vec::new();
    assert(entry_list_view(out@) =~= Seq::<(ExprView, Option<ExprView>)>::empty());
    let ghost goal = renamed_entry_list(
        entry_list_view(items@),
        scope_list_view(scopes@),
        0,
        Seq::<(ExprView, Option<ExprView>)>::empty(),
    );
    let mut i: usize = 0;
    while i < items.len()
        invariant
            i <= items@.len(),
            entry_list_view(items@).len() == items@.len(),
            renamed_entry_list(
                entry_list_view(items@),
                scope_list_view(scopes@),
                i as nat,
                entry_list_view(out@),
            ) == goal,
            goal == renamed_entry_list(
                entry_list_view(items@),
                scope_list_view(scopes@),
                0,
                Seq::<(ExprView, Option<ExprView>)>::empty(),
            ),
        decreases items@.len() - i,
    {
        let item = &items[i];
        assert(entry_list_view(items@)[i as int].0 =~= item.0@);
        assert(entry_list_view(items@)[i as int].1 =~= opt_view(item.1));
        let item2 = (rename_expr(&item.0, scopes), rename_opt_expr(&item.1, scopes));
        let ghost before = entry_list_view(out@);
        let ghost added = (item2.0@, opt_view(item2.1));
        out.push(item2);
        assert(entry_list_view(out@) =~= before.push(added));
        i = i + 1;
    }
    out
}

pub open spec fn renamed_comprehension_clause(
    comprehension_clause: ComprehensionClauseView,
    scopes: Seq<Seq<(Seq<char>, Seq<char>)>>,
) -> ComprehensionClauseView
    decreases comprehension_clause, 0nat,
{
    match comprehension_clause {
        ComprehensionClauseView::For { var, owned, iter } => ComprehensionClauseView::For {
            var,
            owned,
            iter: Box::new(renamed_expr(*iter, scopes)),
        },
        ComprehensionClauseView::If(a0) => ComprehensionClauseView::If(
            Box::new(renamed_expr(*a0, scopes))
        ),
    }
}

/// See [`renamed_comprehension_clause`].
pub fn rename_comprehension_clause(
    comprehension_clause: &ComprehensionClause,
    scopes: &Vec<Vec<(String, String)>>,
) -> (r: ComprehensionClause)
    ensures
        r@ == renamed_comprehension_clause(comprehension_clause@, scope_list_view(scopes@)),
    decreases comprehension_clause, 0nat,
{
    match comprehension_clause {
        ComprehensionClause::For { var, owned, iter } => ComprehensionClause::For {
            var: var.clone(),
            owned: *owned,
            iter: Box::new(rename_expr(&**iter, scopes)),
        },
        ComprehensionClause::If(a0) => ComprehensionClause::If(
            Box::new(rename_expr(&**a0, scopes))
        ),
    }
}

pub open spec fn renamed_comprehension_clause_list(
    items: Seq<ComprehensionClauseView>,
    scopes: Seq<Seq<(Seq<char>, Seq<char>)>>,
    i: nat,
    out: Seq<ComprehensionClauseView>,
) -> Seq<ComprehensionClauseView>
    decreases items, (items.len() - i) as nat,
{
    if i >= items.len() {
        out
    } else {
        let item = items[i as int];
        let out = out.push(renamed_comprehension_clause(item, scopes));
        renamed_comprehension_clause_list(items, scopes, i + 1, out)
    }
}

/// See [`renamed_comprehension_clause_list`].
pub fn rename_comprehension_clause_list(
    items: &Vec<ComprehensionClause>,
    scopes: &Vec<Vec<(String, String)>>,
) -> (r: Vec<ComprehensionClause>)
    ensures
        comprehension_clause_list_view(r@) == renamed_comprehension_clause_list(
            comprehension_clause_list_view(items@),
            scope_list_view(scopes@),
            0,
            Seq::<ComprehensionClauseView>::empty(),
        ),
    decreases items@, 0nat,
{
    let mut out: Vec<ComprehensionClause> = Vec::new();
    assert(comprehension_clause_list_view(out@) =~= Seq::<ComprehensionClauseView>::empty());
    let ghost goal = renamed_comprehension_clause_list(
        comprehension_clause_list_view(items@),
        scope_list_view(scopes@),
        0,
        Seq::<ComprehensionClauseView>::empty(),
    );
    let mut i: usize = 0;
    while i < items.len()
        invariant
            i <= items@.len(),
            comprehension_clause_list_view(items@).len() == items@.len(),
            renamed_comprehension_clause_list(
                comprehension_clause_list_view(items@),
                scope_list_view(scopes@),
                i as nat,
                comprehension_clause_list_view(out@),
            ) == goal,
            goal == renamed_comprehension_clause_list(
                comprehension_clause_list_view(items@),
                scope_list_view(scopes@),
                0,
                Seq::<ComprehensionClauseView>::empty(),
            ),
        decreases items@.len() - i,
    {
        let item = &items[i];
        assert(comprehension_clause_list_view(items@)[i as int] == item@);
        let item2 = rename_comprehension_clause(item, scopes);
        let ghost before = comprehension_clause_list_view(out@);
        let ghost added = item2@;
        out.push(item2);
        assert(comprehension_clause_list_view(out@) =~= before.push(added));
        i = i + 1;
    }
    out
}

pub open spec fn renamed_expr_kind(
    expr_kind: ExprKindView,
    scopes: Seq<Seq<(Seq<char>, Seq<char>)>>,
) -> ExprKindView
    decreases expr_kind, 3nat,
{
    match expr_kind {
        ExprKindView::Identifier(name) => ExprKindView::Identifier(runtime_name(scopes, name)),
        ExprKindView::Prefix(a0, a1) => ExprKindView::Prefix(
            a0,
            Box::new(renamed_expr(*a1, scopes)),
        ),
        ExprKindView::Transfer(a0) => ExprKindView::Transfer(Box::new(renamed_expr(*a0, scopes))),
        ExprKindView::Spread(a0) => ExprKindView::Spread(Box::new(renamed_expr(*a0, scopes))),
        ExprKindView::Infix(a0, a1, a2) => ExprKindView::Infix(
            a0,
            Box::new(renamed_expr(*a1, scopes)),
            Box::new(renamed_expr(*a2, scopes)),
        ),
        ExprKindView::Compare { first, rest } => ExprKindView::Compare {
            first: Box::new(renamed_expr(*first, scopes)),
            rest: renamed_comparison_list(rest, scopes, 0, Seq::empty()),
        },
        _ => renamed_expr_kind_more(expr_kind, scopes),
    }
}

/// See [`renamed_expr_kind`].
pub fn rename_expr_kind(
    expr_kind: &ExprKind,
    scopes: &Vec<Vec<(String, String)>>,
) -> (r: ExprKind)
    ensures
        r@ == renamed_expr_kind(expr_kind@, scope_list_view(scopes@)),
    decreases expr_kind, 3nat,
{
    proof { unfold_expr_kind(*expr_kind); }
    match expr_kind {
        ExprKind::Identifier(name) => {
            let kind = ExprKind::Identifier(resolve_name(scopes, name));
            proof { unfold_expr_kind(kind); }
            kind
        },
        ExprKind::Prefix(a0, a1) => {
            let kind2 = ExprKind::Prefix(*a0, Box::new(rename_expr(&**a1, scopes)));
            proof { unfold_expr_kind(kind2); }
            kind2
        },
        ExprKind::Transfer(a0) => {
            let kind3 = ExprKind::Transfer(Box::new(rename_expr(&**a0, scopes)));
            proof { unfold_expr_kind(kind3); }
            kind3
        },
        ExprKind::Spread(a0) => {
            let kind4 = ExprKind::Spread(Box::new(rename_expr(&**a0, scopes)));
            proof { unfold_expr_kind(kind4); }
            kind4
        },
        ExprKind::Infix(a0, a1, a2) => {
            let kind5 = ExprKind::Infix(
                *a0,
                Box::new(rename_expr(&**a1, scopes)),
                Box::new(rename_expr(&**a2, scopes)),
            );
            proof { unfold_expr_kind(kind5); }
            kind5
        },
        ExprKind::Compare { first, rest } => {
            let kind6 = ExprKind::Compare {
                first: Box::new(rename_expr(&**first, scopes)),
                rest: rename_comparison_list(rest, scopes),
            };
            proof { unfold_expr_kind(kind6); }
            kind6
        },
        _ => {
            assert(!(expr_kind@ is Identifier));
            assert(!(expr_kind@ is Prefix));
            assert(!(expr_kind@ is Transfer));
            assert(!(expr_kind@ is Spread));
            assert(!(expr_kind@ is Infix));
            assert(!(expr_kind@ is Compare));
            rename_expr_kind_more(expr_kind, scopes)
        },
    }
}

pub open spec fn renamed_expr_kind_more(
    expr_kind: ExprKindView,
    scopes: Seq<Seq<(Seq<char>, Seq<char>)>>,
) -> ExprKindView
    decreases expr_kind, 2nat,
{
    match expr_kind {
        ExprKindView::Call { name, param_args, args, kwargs } => ExprKindView::Call {
            name,
            param_args,
            args: renamed_expr_list(args, scopes, 0, Seq::empty()),
            kwargs: renamed_kw_arg_list(kwargs, scopes, 0, Seq::empty()),
        },
        ExprKindView::Invoke { callee, param_args, args, kwargs } => ExprKindView::Invoke {
            callee: Box::new(renamed_expr(*callee, scopes)),
            param_args,
            args: renamed_expr_list(args, scopes, 0, Seq::empty()),
            kwargs: renamed_kw_arg_list(kwargs, scopes, 0, Seq::empty()),
        },
        ExprKindView::Member { object, field } => ExprKindView::Member {
            object: Box::new(renamed_expr(*object, scopes)),
            field,
        },
        ExprKindView::MethodCall { object, method, args, kwargs } => ExprKindView::MethodCall {
            object: Box::new(renamed_expr(*object, scopes)),
            method,
            args: renamed_expr_list(args, scopes, 0, Seq::empty()),
            kwargs: renamed_kw_arg_list(kwargs, scopes, 0, Seq::empty()),
        },
        ExprKindView::Index { object, index } => ExprKindView::Index {
            object: Box::new(renamed_expr(*object, scopes)),
            index: Box::new(renamed_expr(*index, scopes)),
        },
        ExprKindView::Slice { object, lower, upper, step } => ExprKindView::Slice {
            object: Box::new(renamed_expr(*object, scopes)),
            lower: renamed_opt_boxed_expr(lower, scopes),
            upper: renamed_opt_boxed_expr(upper, scopes),
            step: renamed_opt_boxed_expr(step, scopes),
        },
        _ => renamed_expr_kind_further(expr_kind, scopes),
    }
}

/// See [`renamed_expr_kind_more`].
pub fn rename_expr_kind_more(
    expr_kind: &ExprKind,
    scopes: &Vec<Vec<(String, String)>>,
) -> (r: ExprKind)
    ensures
        r@ == renamed_expr_kind_more(expr_kind@, scope_list_view(scopes@)),
    decreases expr_kind, 2nat,
{
    proof { unfold_expr_kind(*expr_kind); }
    match expr_kind {
        ExprKind::Call { name, param_args, args, kwargs } => {
            let kind = ExprKind::Call {
                name: name.clone(),
                param_args: clone_param_arg_list(param_args),
                args: rename_expr_list(args, scopes),
                kwargs: rename_kw_arg_list(kwargs, scopes),
            };
            proof { unfold_expr_kind(kind); }
            kind
        },
        ExprKind::Invoke { callee, param_args, args, kwargs } => {
            let kind2 = ExprKind::Invoke {
                callee: Box::new(rename_expr(&**callee, scopes)),
                param_args: clone_param_arg_list(param_args),
                args: rename_expr_list(args, scopes),
                kwargs: rename_kw_arg_list(kwargs, scopes),
            };
            proof { unfold_expr_kind(kind2); }
            kind2
        },
        ExprKind::Member { object, field } => {
            let kind3 = ExprKind::Member {
                object: Box::new(rename_expr(&**object, scopes)),
                field: field.clone(),
            };
            proof { unfold_expr_kind(kind3); }
            kind3
        },
        ExprKind::MethodCall { object, method, args, kwargs } => {
            let kind4 = ExprKind::MethodCall {
                object: Box::new(rename_expr(&**object, scopes)),
                method: method.clone(),
                args: rename_expr_list(args, scopes),
                kwargs: rename_kw_arg_list(kwargs, scopes),
            };
            proof { unfold_expr_kind(kind4); }
            kind4
        },
        ExprKind::Index { object, index } => {
            let kind5 = ExprKind::Index {
                object: Box::new(rename_expr(&**object, scopes)),
                index: Box::new(rename_expr(&**index, scopes)),
            };
            proof { unfold_expr_kind(kind5); }
            kind5
        },
        ExprKind::Slice { object, lower, upper, step } => {
            let kind6 = ExprKind::Slice {
                object: Box::new(rename_expr(&**object, scopes)),
                lower: rename_opt_boxed_expr(lower, scopes),
                upper: rename_opt_boxed_expr(upper, scopes),
                step: rename_opt_boxed_expr(step, scopes),
            };
            proof { unfold_expr_kind(kind6); }
            kind6
        },
        _ => {
            assert(!(expr_kind@ is Call));
            assert(!(expr_kind@ is Invoke));
            assert(!(expr_kind@ is Member));
            assert(!(expr_kind@ is MethodCall));
            assert(!(expr_kind@ is Index));
            assert(!(expr_kind@ is Slice));
            rename_expr_kind_further(expr_kind, scopes)
        },
    }
}

pub open spec fn renamed_expr_kind_further(
    expr_kind: ExprKindView,
    scopes: Seq<Seq<(Seq<char>, Seq<char>)>>,
) -> ExprKindView
    decreases expr_kind, 1nat,
{
    match expr_kind {
        ExprKindView::MultiIndex { object, args } => ExprKindView::MultiIndex {
            object: Box::new(renamed_expr(*object, scopes)),
            args: renamed_subscript_arg_list(args, scopes, 0, Seq::empty()),
        },
        ExprKindView::ListLit(a0) => ExprKindView::ListLit(
            renamed_expr_list(a0, scopes, 0, Seq::empty())
        ),
        ExprKindView::TupleLit(a0) => ExprKindView::TupleLit(
            renamed_expr_list(a0, scopes, 0, Seq::empty())
        ),
        ExprKindView::BraceLit(a0) => ExprKindView::BraceLit(
            renamed_entry_list(a0, scopes, 0, Seq::empty())
        ),
        ExprKindView::Comprehension { kind, key, value, clauses } => ExprKindView::Comprehension {
            kind,
            key: renamed_opt_boxed_expr(key, scopes),
            value: Box::new(renamed_expr(*value, scopes)),
            clauses: renamed_comprehension_clause_list(clauses, scopes, 0, Seq::empty()),
        },
        ExprKindView::Named { name, value } => ExprKindView::Named {
            name: runtime_name(scopes, name),
            value: Box::new(renamed_expr(*value, scopes)),
        },
        _ => renamed_expr_kind_rest(expr_kind, scopes),
    }
}

/// See [`renamed_expr_kind_further`].
pub fn rename_expr_kind_further(
    expr_kind: &ExprKind,
    scopes: &Vec<Vec<(String, String)>>,
) -> (r: ExprKind)
    ensures
        r@ == renamed_expr_kind_further(expr_kind@, scope_list_view(scopes@)),
    decreases expr_kind, 1nat,
{
    proof { unfold_expr_kind(*expr_kind); }
    match expr_kind {
        ExprKind::MultiIndex { object, args } => {
            let kind2 = ExprKind::MultiIndex {
                object: Box::new(rename_expr(&**object, scopes)),
                args: rename_subscript_arg_list(args, scopes),
            };
            proof { unfold_expr_kind(kind2); }
            kind2
        },
        ExprKind::ListLit(a0) => {
            let kind3 = ExprKind::ListLit(rename_expr_list(a0, scopes));
            proof { unfold_expr_kind(kind3); }
            kind3
        },
        ExprKind::TupleLit(a0) => {
            let kind4 = ExprKind::TupleLit(rename_expr_list(a0, scopes));
            proof { unfold_expr_kind(kind4); }
            kind4
        },
        ExprKind::BraceLit(a0) => {
            let kind5 = ExprKind::BraceLit(rename_entry_list(a0, scopes));
            proof { unfold_expr_kind(kind5); }
            kind5
        },
        ExprKind::Comprehension { kind, key, value, clauses } => {
            let kind6 = ExprKind::Comprehension {
                kind: *kind,
                key: rename_opt_boxed_expr(key, scopes),
                value: Box::new(rename_expr(&**value, scopes)),
                clauses: rename_comprehension_clause_list(clauses, scopes),
            };
            proof { unfold_expr_kind(kind6); }
            kind6
        },
        ExprKind::Named { name, value } => {
            let kind7 = ExprKind::Named {
                name: resolve_name(scopes, name),
                value: Box::new(rename_expr(&**value, scopes)),
            };
            proof { unfold_expr_kind(kind7); }
            kind7
        },
        _ => {
            assert(!(expr_kind@ is MultiIndex));
            assert(!(expr_kind@ is ListLit));
            assert(!(expr_kind@ is TupleLit));
            assert(!(expr_kind@ is BraceLit));
            assert(!(expr_kind@ is Comprehension));
            assert(!(expr_kind@ is Named));
            rename_expr_kind_rest(expr_kind, scopes)
        },
    }
}

pub open spec fn renamed_expr_kind_rest(
    expr_kind: ExprKindView,
    scopes: Seq<Seq<(Seq<char>, Seq<char>)>>,
) -> ExprKindView
    decreases expr_kind, 0nat,
{
    match expr_kind {
        ExprKindView::IfExpr { cond, then_branch, else_branch } => ExprKindView::IfExpr {
            cond: Box::new(renamed_expr(*cond, scopes)),
            then_branch: Box::new(renamed_expr(*then_branch, scopes)),
            else_branch: Box::new(renamed_expr(*else_branch, scopes)),
        },
        _ => expr_kind,
    }
}

/// See [`renamed_expr_kind_rest`].
pub fn rename_expr_kind_rest(
    expr_kind: &ExprKind,
    scopes: &Vec<Vec<(String, String)>>,
) -> (r: ExprKind)
    ensures
        r@ == renamed_expr_kind_rest(expr_kind@, scope_list_view(scopes@)),
    decreases expr_kind, 0nat,
{
    proof { unfold_expr_kind(*expr_kind); }
    match expr_kind {
        ExprKind::IfExpr { cond, then_branch, else_branch } => {
            let kind = ExprKind::IfExpr {
                cond: Box::new(rename_expr(&**cond, scopes)),
                then_branch: Box::new(rename_expr(&**then_branch, scopes)),
                else_branch: Box::new(rename_expr(&**else_branch, scopes)),
            };
            proof { unfold_expr_kind(kind); }
            kind
        },
        _ => {
            assert(!(expr_kind@ is IfExpr));
            clone_expr_kind(expr_kind)
        },
    }
}

/// An expression with its variables under their runtime names. Template strings,
/// type arguments and callee names stay as they are.
pub open spec fn renamed_expr(
    expr: ExprView,
    scopes: Seq<Seq<(Seq<char>, Seq<char>)>>,
) -> ExprView
    decreases expr, 0nat,
{
    ExprView { kind: renamed_expr_kind(expr.kind, scopes), span: expr.span, source: expr.source }
}

/// See [`renamed_expr`].
pub fn rename_expr(expr: &Expr, scopes: &Vec<Vec<(String, String)>>) -> (r: Expr)
    ensures
        r@ == renamed_expr(expr@, scope_list_view(scopes@)),
    decreases expr, 0nat,
{
    Expr {
        kind: rename_expr_kind(&expr.kind, scopes),
        span: expr.span,
        source: (match (&expr.source) { Some(y) => Some(y.clone()), None => None }),
    }
}

} // verus!
