//! A program without compile-time constructs comes out of elaboration as it is.

use crate::ast::{ExprView, MethodView, ParamArgView, StmtKindView, StmtView, TypeView};
use crate::elab::{
    step_quota, template_named, templates_of, ComptimeErrorView, CtContextView, CtReplyView,
};
use crate::elaborate::{
    annotation_resolved, block_elaborated, branches_elaborated, compound_elaborated, def_elaborated,
    handle_in, handler_elaborated, method_elaborated, methods_elaborated, opt_block_elaborated,
    resolved_inner, resolved_param_arg, resolved_param_args, resolved_type, resolved_types, single,
    stamped_by, stmt_elaborated, try_elaborated, unplaced, ElabStateView,
};
use crate::evaluate::type_of_handle;
use crate::specialize::{elaborated, known_of, monomorphized, program_stamped, stamped_by_own};
use crate::stamp::{source_stamped, stamped_stmt, stamped_stmt_list};
use crate::token::Span;
use crate::untouched::nothing_to_replace;
use vstd::prelude::*;

verus! {

/// Whether what stands in a statement already has the source that the statement comes from.
pub open spec fn settled(stmt: StmtView) -> bool {
    match stmt.module {
        Some(source) => stamped_stmt(stmt, source) == stmt,
        None => true,
    }
}

/// Whether a statement is settled and neither it nor a statement in it is a compile-time
/// construct or a `with`.
pub open spec fn stmt_ordinary(stmt: StmtView) -> bool
    decreases stmt, 0nat,
{
    settled(stmt) && kind_ordinary(stmt.kind)
}

/// See [`stmt_ordinary`].
pub open spec fn kind_ordinary(kind: StmtKindView) -> bool
    decreases kind, 0nat,
{
    match kind {
        StmtKindView::Comptime { .. } => false,
        StmtKindView::ComptimeIf { .. } => false,
        StmtKindView::ComptimeFor { .. } => false,
        StmtKindView::With { .. } => false,
        StmtKindView::If { branches, orelse } => {
            &&& forall|k: int|
                0 <= k < branches.len() ==> block_ordinary((#[trigger] branches[k]).1)
            &&& opt_block_ordinary(orelse)
        },
        StmtKindView::While { body, orelse, .. } => block_ordinary(body) && opt_block_ordinary(
            orelse,
        ),
        StmtKindView::For { body, orelse, .. } => block_ordinary(body) && opt_block_ordinary(
            orelse,
        ),
        StmtKindView::Try { body, except, orelse, finalbody } => {
            &&& block_ordinary(body)
            &&& match except {
                Some(handler) => block_ordinary(handler.1),
                None => true,
            }
            &&& opt_block_ordinary(orelse)
            &&& opt_block_ordinary(finalbody)
        },
        StmtKindView::Def { body, .. } => block_ordinary(body),
        StmtKindView::Struct { methods, .. } => forall|k: int|
            0 <= k < methods.len() ==> block_ordinary((#[trigger] methods[k]).body),
        _ => true,
    }
}

/// See [`stmt_ordinary`].
pub open spec fn block_ordinary(body: Seq<StmtView>) -> bool
    decreases body, 0nat,
{
    forall|k: int| 0 <= k < body.len() ==> stmt_ordinary(#[trigger] body[k])
}

/// See [`stmt_ordinary`].
pub open spec fn opt_block_ordinary(body: Option<Seq<StmtView>>) -> bool
    decreases body, 0nat,
{
    match body {
        Some(body) => block_ordinary(body),
        None => true,
    }
}

proof fn type_stays(ty: TypeView)
    ensures
        resolved_type(ty, Seq::empty()) == Ok::<TypeView, ComptimeErrorView>(ty),
    decreases ty, 1nat,
{
    reveal(handle_in);
    reveal(type_of_handle);
    inner_stays(ty);
}

proof fn inner_stays(ty: TypeView)
    ensures
        resolved_inner(ty, Seq::empty()) == Ok::<TypeView, ComptimeErrorView>(ty),
    decreases ty, 0nat,
{
    match ty {
        TypeView::Named(_, args) => {
            args_stay(args, 0, Seq::empty());
        },
        TypeView::Assoc { base, .. } => {
            type_stays(*base);
        },
        TypeView::Func { params, ret, raises_type, .. } => {
            types_stay(params, 0, Seq::empty());
            type_stays(*ret);
            if let Some(raised) = raises_type {
                type_stays(*raised);
            }
        },
        TypeView::Ref { referent, .. } => {
            type_stays(*referent);
        },
        _ => {},
    }
}

proof fn types_stay(types: Seq<TypeView>, i: nat, out: Seq<TypeView>)
    requires
        i <= types.len(),
        out =~= types.take(i as int),
    ensures
        resolved_types(types, Seq::empty(), i, out) == Ok::<Seq<TypeView>, ComptimeErrorView>(
            types,
        ),
    decreases types, (types.len() - i) as nat,
{
    if i < types.len() {
        type_stays(types[i as int]);
        types_stay(types, i + 1, out.push(types[i as int]));
    } else {
        assert(out =~= types);
    }
}

proof fn args_stay(args: Seq<ParamArgView>, i: nat, out: Seq<ParamArgView>)
    requires
        i <= args.len(),
        out =~= args.take(i as int),
    ensures
        resolved_param_args(args, Seq::empty(), i, out) == Ok::<
            Seq<ParamArgView>,
            ComptimeErrorView,
        >(args),
    decreases args, (args.len() - i) as nat,
{
    if i < args.len() {
        arg_stays(args[i as int]);
        args_stay(args, i + 1, out.push(args[i as int]));
    } else {
        assert(out =~= args);
    }
}

proof fn arg_stays(arg: ParamArgView)
    ensures
        resolved_param_arg(arg, Seq::empty()) == Ok::<ParamArgView, ComptimeErrorView>(arg),
    decreases arg, 0nat,
{
    match arg {
        ParamArgView::Type(ty) => {
            type_stays(ty);
        },
        ParamArgView::Named { value, .. } => {
            arg_stays(*value);
        },
        _ => {},
    }
}

/// Where nothing is known yet and there are no templates.
spec fn at_rest(cx: CtContextView, st: ElabStateView) -> bool {
    cx.templates.len() == 0 && st.env =~= Seq::empty()
}

proof fn one_stamped(stmt: StmtView, source: Seq<char>)
    ensures
        stamped_stmt_list(seq![stmt], source, 0, Seq::empty()) == seq![stamped_stmt(stmt, source)],
{
    reveal_with_fuel(stamped_stmt_list, 2);
    assert(Seq::<StmtView>::empty().push(stamped_stmt(stmt, source)) =~= seq![
        stamped_stmt(stmt, source),
    ]);
}

/// A statement that was kept, or made anew without its source, gets its source back.
proof fn settled_again(stmt: StmtView, made: Seq<StmtView>)
    requires
        settled(stmt),
        made == seq![stmt] || made == single(stmt.kind, stmt.span),
    ensures
        stamped_by(made, stmt.module) == seq![stmt],
{
    reveal(stamped_by);
    reveal(single);
    reveal(unplaced);
    reveal(source_stamped);
    let bare = StmtView { kind: stmt.kind, span: stmt.span, module: None };
    assert(single(stmt.kind, stmt.span) =~= seq![bare]);
    if let Some(source) = stmt.module {
        one_stamped(stmt, source);
        one_stamped(bare, source);
        assert(stamped_stmt(bare, source) == stmt);
    } else {
        assert(bare == stmt);
    }
}

proof fn annotation_stays(ty: Option<TypeView>)
    ensures
        annotation_resolved(ty, Seq::empty()) == Ok::<Option<TypeView>, ComptimeErrorView>(ty),
{
    reveal(annotation_resolved);
    if let Some(ty) = ty {
        type_stays(ty);
    }
}

proof fn compound_stays(
    kind: StmtKindView,
    span: Span,
    in_fn: bool,
    cx: CtContextView,
    st: ElabStateView,
    depth: u32,
)
    requires
        at_rest(cx, st),
        kind_ordinary(kind),
        kind is If || kind is While || kind is For,
    ensures
        compound_elaborated(kind, span, in_fn, cx, st, depth) == Ok::<
            (Seq<StmtView>, ElabStateView),
            ComptimeErrorView,
        >((single(kind, span), st)),
    decreases kind, 0nat,
{
    match kind {
        StmtKindView::If { branches, orelse } => {
            branches_stay(branches, in_fn, cx, depth, 0, Seq::empty(), st);
            opt_block_stays(orelse, in_fn, cx, st, depth);
        },
        StmtKindView::While { body, orelse, .. } => {
            block_stays(body, in_fn, cx, depth, 0, Seq::empty(), st);
            opt_block_stays(orelse, in_fn, cx, st, depth);
        },
        StmtKindView::For { body, orelse, .. } => {
            block_stays(body, in_fn, cx, depth, 0, Seq::empty(), st);
            opt_block_stays(orelse, in_fn, cx, st, depth);
        },
        _ => {},
    }
}

proof fn try_stays(
    kind: StmtKindView,
    span: Span,
    in_fn: bool,
    cx: CtContextView,
    st: ElabStateView,
    depth: u32,
)
    requires
        at_rest(cx, st),
        kind_ordinary(kind),
        kind is Try,
    ensures
        try_elaborated(kind, span, in_fn, cx, st, depth) == Ok::<
            (Seq<StmtView>, ElabStateView),
            ComptimeErrorView,
        >((single(kind, span), st)),
    decreases kind, 0nat,
{
    if let StmtKindView::Try { body, except, orelse, finalbody } = kind {
        block_stays(body, in_fn, cx, depth, 0, Seq::empty(), st);
        if let Some(handler) = except {
            block_stays(handler.1, in_fn, cx, depth, 0, Seq::empty(), st);
        }
        assert(handler_elaborated(except, in_fn, cx, st, depth) == Ok::<
            (Option<(Option<Seq<char>>, Seq<StmtView>)>, ElabStateView),
            ComptimeErrorView,
        >((except, st)));
        opt_block_stays(orelse, in_fn, cx, st, depth);
        opt_block_stays(finalbody, in_fn, cx, st, depth);
    }
}

proof fn def_stays(
    kind: StmtKindView,
    span: Span,
    cx: CtContextView,
    st: ElabStateView,
    depth: u32,
)
    requires
        at_rest(cx, st),
        kind_ordinary(kind),
        kind is Def || kind is Struct,
    ensures
        def_elaborated(kind, span, cx, st, depth) == Ok::<
            (Seq<StmtView>, ElabStateView),
            ComptimeErrorView,
        >((single(kind, span), st)),
    decreases kind, 0nat,
{
    match kind {
        StmtKindView::Def { body, .. } => {
            block_stays(body, true, cx, depth, 0, Seq::empty(), st);
        },
        StmtKindView::Struct { methods, .. } => {
            methods_stay(methods, cx, depth, 0, Seq::empty(), st);
        },
        _ => {},
    }
}

proof fn stmt_stays(
    stmt: StmtView,
    in_fn: bool,
    cx: CtContextView,
    st: ElabStateView,
    depth: u32,
)
    requires
        at_rest(cx, st),
        stmt_ordinary(stmt),
    ensures
        stmt_elaborated(stmt, in_fn, cx, st, depth) is Ok,
        stmt_elaborated(stmt, in_fn, cx, st, depth)->Ok_0.1 == st,
        stamped_by(stmt_elaborated(stmt, in_fn, cx, st, depth)->Ok_0.0, stmt.module) == seq![stmt],
    decreases stmt, 0nat,
{
    settled_again(stmt, seq![stmt]);
    settled_again(stmt, single(stmt.kind, stmt.span));
    let kind = stmt.kind;
    match kind {
        StmtKindView::VarDecl { name, ty, value } => {
            assert(st.env =~= Seq::empty());
            annotation_stays(ty);
            assert(kind == StmtKindView::VarDecl { name, ty, value });
        },
        StmtKindView::If { .. } => {
            compound_stays(kind, stmt.span, in_fn, cx, st, depth);
        },
        StmtKindView::While { .. } => {
            compound_stays(kind, stmt.span, in_fn, cx, st, depth);
        },
        StmtKindView::For { .. } => {
            compound_stays(kind, stmt.span, in_fn, cx, st, depth);
        },
        StmtKindView::Try { .. } => {
            try_stays(kind, stmt.span, in_fn, cx, st, depth);
        },
        StmtKindView::Def { name, .. } => {
            assert(template_named(cx.templates, name, 0, None) is None);
            def_stays(kind, stmt.span, cx, st, depth);
        },
        StmtKindView::Struct { .. } => {
            def_stays(kind, stmt.span, cx, st, depth);
        },
        _ => {},
    }
}

proof fn block_stays(
    body: Seq<StmtView>,
    in_fn: bool,
    cx: CtContextView,
    depth: u32,
    i: nat,
    out: Seq<StmtView>,
    st: ElabStateView,
)
    requires
        at_rest(cx, st),
        block_ordinary(body),
        i <= body.len(),
        out =~= body.take(i as int),
    ensures
        block_elaborated(body, in_fn, cx, depth, i, out, st) == Ok::<
            (Seq<StmtView>, ElabStateView),
            ComptimeErrorView,
        >((body, st)),
    decreases body, (body.len() - i) as nat,
{
    if i < body.len() {
        let stmt = body[i as int];
        stmt_stays(stmt, in_fn, cx, st, depth);
        assert(out + seq![stmt] =~= body.take(i + 1int));
        block_stays(body, in_fn, cx, depth, i + 1, out + seq![stmt], st);
    } else {
        assert(out =~= body);
    }
}

proof fn opt_block_stays(
    block: Option<Seq<StmtView>>,
    in_fn: bool,
    cx: CtContextView,
    st: ElabStateView,
    depth: u32,
)
    requires
        at_rest(cx, st),
        opt_block_ordinary(block),
    ensures
        opt_block_elaborated(block, in_fn, cx, st, depth) == Ok::<
            (Option<Seq<StmtView>>, ElabStateView),
            ComptimeErrorView,
        >((block, st)),
    decreases block, 0nat,
{
    if let Some(body) = block {
        block_stays(body, in_fn, cx, depth, 0, Seq::empty(), st);
    }
}

proof fn branches_stay(
    branches: Seq<(ExprView, Seq<StmtView>)>,
    in_fn: bool,
    cx: CtContextView,
    depth: u32,
    i: nat,
    out: Seq<(ExprView, Seq<StmtView>)>,
    st: ElabStateView,
)
    requires
        at_rest(cx, st),
        forall|k: int| 0 <= k < branches.len() ==> block_ordinary((#[trigger] branches[k]).1),
        i <= branches.len(),
        out =~= branches.take(i as int),
    ensures
        branches_elaborated(branches, in_fn, cx, depth, i, out, st) == Ok::<
            (Seq<(ExprView, Seq<StmtView>)>, ElabStateView),
            ComptimeErrorView,
        >((branches, st)),
    decreases branches, (branches.len() - i) as nat,
{
    if i < branches.len() {
        let branch = branches[i as int];
        block_stays(branch.1, in_fn, cx, depth, 0, Seq::empty(), st);
        branches_stay(branches, in_fn, cx, depth, i + 1, out.push(branch), st);
    } else {
        assert(out =~= branches);
    }
}

proof fn methods_stay(
    methods: Seq<MethodView>,
    cx: CtContextView,
    depth: u32,
    i: nat,
    out: Seq<MethodView>,
    st: ElabStateView,
)
    requires
        at_rest(cx, st),
        forall|k: int| 0 <= k < methods.len() ==> block_ordinary((#[trigger] methods[k]).body),
        i <= methods.len(),
        out =~= methods.take(i as int),
    ensures
        methods_elaborated(methods, cx, depth, i, out, st) == Ok::<
            (Seq<MethodView>, ElabStateView),
            ComptimeErrorView,
        >((methods, st)),
    decreases methods, (methods.len() - i) as nat,
{
    if i < methods.len() {
        let method = methods[i as int];
        block_stays(method.body, true, cx, depth, 0, Seq::empty(), st);
        assert(method_elaborated(method, cx, st, depth) == Ok::<
            (MethodView, ElabStateView),
            ComptimeErrorView,
        >((method, st)));
        methods_stay(methods, cx, depth, i + 1, out.push(method), st);
    } else {
        assert(out =~= methods);
    }
}

proof fn stamping_stays(program: Seq<StmtView>, i: nat, out: Seq<StmtView>)
    requires
        block_ordinary(program),
        i <= program.len(),
        out =~= program.take(i as int),
    ensures
        program_stamped(program, i, out) == program,
    decreases program, (program.len() - i) as nat,
{
    if i < program.len() {
        let stmt = program[i as int];
        reveal(stamped_by_own);
        assert(stmt_ordinary(stmt));
        stamping_stays(program, i + 1, out.push(stmt));
    } else {
        assert(out =~= program);
    }
}

/// A program without compile-time constructs, `with` and templates, and whose statements
/// have their sources already, comes out of elaboration as it is.
pub proof fn ordinary_program_stays(program: Seq<StmtView>, replies: Seq<CtReplyView>)
    requires
        block_ordinary(program),
        templates_of(program, 0, Seq::empty()).len() == 0,
    ensures
        elaborated(program, replies) == Ok::<Seq<StmtView>, ComptimeErrorView>(program),
{
    reveal(elaborated);
    reveal(known_of);
    reveal(monomorphized);
    let cx = known_of(program, replies);
    let start = ElabStateView {
        fuel: step_quota(),
        env: Seq::empty(),
        top: Seq::empty(),
    };
    block_stays(program, false, cx, 4294967295, 0, Seq::empty(), start);
    nothing_to_replace(program, Seq::empty());
    stamping_stays(program, 0, Seq::empty());
}

} // verus!
