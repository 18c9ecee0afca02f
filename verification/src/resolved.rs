//! What is resolved at compile time is gone from a program.

use crate::ast::{Expr, ExprView, MethodView, StmtKindView, StmtView, TypeView, WithItemView};
use crate::ct::literal_of;
use crate::elab::{
    CtContextView, CtReplyView, TemplateView, boolean_of, burnt, ct_params, past_quota, step_quota,
    template_named,
};
use crate::elaborate::{
    ElabStateView, and_value, annotation_resolved, block_elaborated, branch_chosen,
    branches_elaborated, called_plainly, choice_elaborated, compound_elaborated,
    constant_elaborated, def_elaborated, entering, for_elaborated, fuel_set, handler_elaborated,
    if_elaborated, inside_manager, inside_managers, method_elaborated, methods_elaborated,
    opt_block_elaborated, single, stamped_by, stmt_elaborated, subs_of_loop, try_elaborated,
    unplaced, unrolled,
};
use crate::evaluate::{evaluated, evaluated_iter, nested_too_deep};
use crate::flatten::following_index;
use crate::mono::{
    JobView, MadeView, MonoView, specialized_branch_list, specialized_expr, specialized_expr_list,
    specialized_method, specialized_method_list, specialized_opt_expr,
    specialized_opt_opt_string_stmt_list, specialized_opt_stmt_list, specialized_stmt,
    specialized_stmt_kind, specialized_stmt_kind_further, specialized_stmt_kind_more,
    specialized_stmt_kind_rest, specialized_stmt_list, specialized_with_item_list,
};
use crate::nested::names_of_params;
use crate::packs::{
    expanded_branch_list, expanded_expr, expanded_expr_list, expanded_fn_param_list,
    expanded_method, expanded_method_list, expanded_opt_expr, expanded_opt_opt_string_stmt_list,
    expanded_opt_stmt_list, expanded_opt_type, expanded_param_list, expanded_stmt,
    expanded_stmt_kind, expanded_stmt_kind_further, expanded_stmt_kind_more,
    expanded_stmt_kind_rest, expanded_stmt_list, expanded_struct_comptime_list,
    expanded_with_item_list,
};
use crate::rewrite::{
    materialized, rewritten, rewritten_branch_list, rewritten_expr_list, rewritten_method,
    rewritten_methods, rewritten_opt_expr, rewritten_opt_opt_string_stmt_list,
    rewritten_opt_stmt_list, rewritten_stmt, rewritten_stmt_kind, rewritten_stmt_kind_further,
    rewritten_stmt_kind_more, rewritten_stmt_kind_rest, rewritten_stmt_list,
    rewritten_with_item_list, values_visible,
};
use crate::specialize::{
    and_made, and_pack_param, and_spec, body_of_spec, drained, elaborated, env_of_spec, known_of,
    lengths_of_spec, monomorphized, name_of_def, packs_of_spec, program_specialized,
    program_stamped, spec_generated, spec_made, specialized_unless_template, specs_reversed,
    stamped_by_own, subs_of_spec, template_stmt, templates_replaced,
};
use crate::stamp::{
    source_stamped, stamped_branch_list, stamped_expr, stamped_expr_list, stamped_fn_param_list,
    stamped_method, stamped_method_list, stamped_opt_expr, stamped_opt_opt_string_stmt_list,
    stamped_opt_stmt_list, stamped_opt_type, stamped_param_list, stamped_stmt, stamped_stmt_kind,
    stamped_stmt_kind_further, stamped_stmt_kind_more, stamped_stmt_kind_rest, stamped_stmt_list,
    stamped_struct_comptime_list, stamped_type_param_list, stamped_with_item_list,
};
use crate::text::decimal;
use crate::token::Span;
use crate::types::CtValueView;
use vstd::prelude::*;

verus! {

/// Whether a statement is resolved: neither it nor a statement in it is a `comptime if`, a
/// `comptime for` or a `with`. A def with the name of a template is not looked into.
pub open spec fn stmt_resolved(templates: Seq<TemplateView>, stmt: StmtView) -> bool
    decreases stmt, 0nat,
{
    kind_resolved(templates, stmt.kind)
}

/// See [`stmt_resolved`].
pub open spec fn kind_resolved(templates: Seq<TemplateView>, kind: StmtKindView) -> bool
    decreases kind, 1nat,
{
    match kind {
        StmtKindView::Def { name, .. } => template_named(templates, name, 0, None) is Some
            || bodies_resolved(templates, kind),
        _ => bodies_resolved(templates, kind),
    }
}

/// Whether what stands in a statement is resolved, under whatever name.
pub open spec fn bodies_resolved(templates: Seq<TemplateView>, kind: StmtKindView) -> bool
    decreases kind, 0nat,
{
    match kind {
        StmtKindView::ComptimeIf { .. } => false,
        StmtKindView::ComptimeFor { .. } => false,
        StmtKindView::With { .. } => false,
        StmtKindView::If { branches, orelse } => {
            &&& branches_resolved(templates, branches)
            &&& opt_block_resolved(templates, orelse)
        },
        StmtKindView::While { body, orelse, .. } => {
            &&& block_resolved(templates, body)
            &&& opt_block_resolved(templates, orelse)
        },
        StmtKindView::For { body, orelse, .. } => {
            &&& block_resolved(templates, body)
            &&& opt_block_resolved(templates, orelse)
        },
        StmtKindView::Try { body, except, orelse, finalbody } => {
            &&& block_resolved(templates, body)
            &&& handler_resolved(templates, except)
            &&& opt_block_resolved(templates, orelse)
            &&& opt_block_resolved(templates, finalbody)
        },
        StmtKindView::Def { body, .. } => block_resolved(templates, body),
        StmtKindView::Struct { methods, .. } => methods_resolved(templates, methods),
        _ => true,
    }
}

/// See [`stmt_resolved`].
pub open spec fn block_resolved(templates: Seq<TemplateView>, body: Seq<StmtView>) -> bool
    decreases body, 0nat,
{
    forall|k: int| 0 <= k < body.len() ==> stmt_resolved(templates, #[trigger] body[k])
}

/// See [`stmt_resolved`].
pub open spec fn opt_block_resolved(
    templates: Seq<TemplateView>,
    body: Option<Seq<StmtView>>,
) -> bool
    decreases body, 0nat,
{
    match body {
        Some(body) => block_resolved(templates, body),
        None => true,
    }
}

/// See [`stmt_resolved`].
pub open spec fn branches_resolved(
    templates: Seq<TemplateView>,
    branches: Seq<(ExprView, Seq<StmtView>)>,
) -> bool
    decreases branches, 0nat,
{
    forall|k: int|
        0 <= k < branches.len() ==> block_resolved(templates, (#[trigger] branches[k]).1)
}

/// See [`stmt_resolved`].
pub open spec fn handler_resolved(
    templates: Seq<TemplateView>,
    except: Option<(Option<Seq<char>>, Seq<StmtView>)>,
) -> bool
    decreases except, 0nat,
{
    match except {
        Some(handler) => block_resolved(templates, handler.1),
        None => true,
    }
}

/// See [`stmt_resolved`].
pub open spec fn method_resolved(templates: Seq<TemplateView>, method: MethodView) -> bool
    decreases method, 0nat,
{
    block_resolved(templates, method.body)
}

/// See [`stmt_resolved`].
pub open spec fn methods_resolved(
    templates: Seq<TemplateView>,
    methods: Seq<MethodView>,
) -> bool
    decreases methods, 0nat,
{
    forall|k: int| 0 <= k < methods.len() ==> method_resolved(templates, #[trigger] methods[k])
}

/// Whether every statement of a program is resolved, its defs under whatever name.
pub open spec fn program_resolved(
    templates: Seq<TemplateView>,
    program: Seq<StmtView>,
) -> bool {
    forall|k: int|
        0 <= k < program.len() ==> bodies_resolved(templates, (#[trigger] program[k]).kind)
}

/// Whether every specialization is resolved.
spec fn specs_resolved(templates: Seq<TemplateView>, made: Seq<MadeView>) -> bool {
    forall|k: int|
        0 <= k < made.len() ==> bodies_resolved(templates, (#[trigger] made[k]).def.kind)
}

proof fn stamped_stmt_list_resolved(
    templates: Seq<TemplateView>,
    items: Seq<StmtView>,
    source: Seq<char>,
    i: nat,
    out: Seq<StmtView>,
)
    ensures
        block_resolved(templates, items) && block_resolved(templates, out) ==> block_resolved(templates, stamped_stmt_list(items, source, i, out)),
    decreases items, (items.len() - i) as nat,
{
    let _ = {
        if i >= items.len() {
            out
        } else {
            let item = items[i as int];
            stamped_stmt_resolved(templates, item, source);
            let out = out.push(stamped_stmt(item, source));
            {
                stamped_stmt_list_resolved(templates, items, source, i + 1, out);
                stamped_stmt_list(items, source, i + 1, out)
            }
        }
    };
}

proof fn stamped_branch_list_resolved(
    templates: Seq<TemplateView>,
    items: Seq<(ExprView, Seq<StmtView>)>,
    source: Seq<char>,
    i: nat,
    out: Seq<(ExprView, Seq<StmtView>)>,
)
    ensures
        branches_resolved(templates, items) && branches_resolved(templates, out) ==> branches_resolved(templates, stamped_branch_list(items, source, i, out)),
    decreases items, (items.len() - i) as nat,
{
    let _ = {
        if i >= items.len() {
            out
        } else {
            let item = items[i as int];
            stamped_stmt_list_resolved(templates, item.1, source, 0, Seq::empty());
            let out = out.push(
                (stamped_expr(item.0, source), stamped_stmt_list(item.1, source, 0, Seq::empty()))
            );
            {
                stamped_branch_list_resolved(templates, items, source, i + 1, out);
                stamped_branch_list(items, source, i + 1, out)
            }
        }
    };
}

proof fn stamped_opt_stmt_list_resolved(
    templates: Seq<TemplateView>,
    value: Option<Seq<StmtView>>,
    source: Seq<char>,
)
    ensures
        opt_block_resolved(templates, value) ==> opt_block_resolved(templates, stamped_opt_stmt_list(value, source)),
    decreases value, 0nat,
{
    let _ = {
        match value {
            Some(value) => Some({
                stamped_stmt_list_resolved(templates, value, source, 0, Seq::empty());
                stamped_stmt_list(value, source, 0, Seq::empty())
            }),
            None => None,
        }
    };
}

proof fn stamped_opt_opt_string_stmt_list_resolved(
    templates: Seq<TemplateView>,
    value: Option<(Option<Seq<char>>, Seq<StmtView>)>,
    source: Seq<char>,
)
    ensures
        handler_resolved(templates, value) ==> handler_resolved(templates, stamped_opt_opt_string_stmt_list(value, source)),
    decreases value, 0nat,
{
    let _ = {
        match value {
            Some(value) => Some((value.0, {
                stamped_stmt_list_resolved(templates, value.1, source, 0, Seq::empty());
                stamped_stmt_list(value.1, source, 0, Seq::empty())
            })),
            None => None,
        }
    };
}

proof fn stamped_method_resolved(
    templates: Seq<TemplateView>,
    method: MethodView,
    source: Seq<char>,
)
    ensures
        method_resolved(templates, method) ==> method_resolved(templates, stamped_method(method, source)),
    decreases method, 0nat,
{
    let _ = {
        MethodView {
            name: method.name,
            has_self: method.has_self,
            self_convention: method.self_convention,
            params: stamped_fn_param_list(method.params, source, 0, Seq::empty()),
            positional_only: method.positional_only,
            keyword_only: method.keyword_only,
            raises_type: stamped_opt_type(method.raises_type, source),
            ret: stamped_opt_type(method.ret, source),
            body: {
                stamped_stmt_list_resolved(templates, method.body, source, 0, Seq::empty());
                stamped_stmt_list(method.body, source, 0, Seq::empty())
            },
        }
    };
}

proof fn stamped_method_list_resolved(
    templates: Seq<TemplateView>,
    items: Seq<MethodView>,
    source: Seq<char>,
    i: nat,
    out: Seq<MethodView>,
)
    ensures
        methods_resolved(templates, items) && methods_resolved(templates, out) ==> methods_resolved(templates, stamped_method_list(items, source, i, out)),
    decreases items, (items.len() - i) as nat,
{
    let _ = {
        if i >= items.len() {
            out
        } else {
            let item = items[i as int];
            stamped_method_resolved(templates, item, source);
            let out = out.push(stamped_method(item, source));
            {
                stamped_method_list_resolved(templates, items, source, i + 1, out);
                stamped_method_list(items, source, i + 1, out)
            }
        }
    };
}

#[verifier::rlimit(60)]
proof fn stamped_stmt_kind_resolved(
    templates: Seq<TemplateView>,
    stmt_kind: StmtKindView,
    source: Seq<char>,
)
    ensures
        kind_resolved(templates, stmt_kind) ==> kind_resolved(templates, stamped_stmt_kind(stmt_kind, source)),
        bodies_resolved(templates, stmt_kind) ==> bodies_resolved(templates, stamped_stmt_kind(stmt_kind, source)),
    decreases stmt_kind, 3nat,
{
    let _ = {
        match stmt_kind {
            StmtKindView::VarDecl { name, ty, value } => StmtKindView::VarDecl {
                name,
                ty: stamped_opt_type(ty, source),
                value: stamped_expr(value, source),
            },
            StmtKindView::RefDecl { name, value } => StmtKindView::RefDecl {
                name,
                value: stamped_expr(value, source),
            },
            StmtKindView::Assign { name, value } => StmtKindView::Assign {
                name,
                value: stamped_expr(value, source),
            },
            StmtKindView::Comptime { name, value } => StmtKindView::Comptime {
                name,
                value: stamped_expr(value, source),
            },
            StmtKindView::Raise(a0) => StmtKindView::Raise(stamped_expr(a0, source)),
            StmtKindView::Return(a0) => StmtKindView::Return(stamped_opt_expr(a0, source)),
            _ => {
                stamped_stmt_kind_more_resolved(templates, stmt_kind, source);
                stamped_stmt_kind_more(stmt_kind, source)
            },
        }
    };
}

proof fn stamped_stmt_kind_more_resolved(
    templates: Seq<TemplateView>,
    stmt_kind: StmtKindView,
    source: Seq<char>,
)
    ensures
        kind_resolved(templates, stmt_kind) ==> kind_resolved(templates, stamped_stmt_kind_more(stmt_kind, source)),
        bodies_resolved(templates, stmt_kind) ==> bodies_resolved(templates, stamped_stmt_kind_more(stmt_kind, source)),
    decreases stmt_kind, 2nat,
{
    let _ = {
        match stmt_kind {
            StmtKindView::SetPlace { place, value } => StmtKindView::SetPlace {
                place: stamped_expr(place, source),
                value: stamped_expr(value, source),
            },
            StmtKindView::AugAssign { place, op, value } => StmtKindView::AugAssign {
                place: stamped_expr(place, source),
                op,
                value: stamped_expr(value, source),
            },
            StmtKindView::Unpack { targets, value } => StmtKindView::Unpack {
                targets: stamped_expr_list(targets, source, 0, Seq::empty()),
                value: stamped_expr(value, source),
            },
            StmtKindView::Expr(a0) => StmtKindView::Expr(stamped_expr(a0, source)),
            StmtKindView::If { branches, orelse } => StmtKindView::If {
                branches: {
                    stamped_branch_list_resolved(templates, branches, source, 0, Seq::empty());
                    stamped_branch_list(branches, source, 0, Seq::empty())
                },
                orelse: {
                    stamped_opt_stmt_list_resolved(templates, orelse, source);
                    stamped_opt_stmt_list(orelse, source)
                },
            },
            StmtKindView::ComptimeIf { branches, orelse } => StmtKindView::ComptimeIf {
                branches: {
                    stamped_branch_list_resolved(templates, branches, source, 0, Seq::empty());
                    stamped_branch_list(branches, source, 0, Seq::empty())
                },
                orelse: {
                    stamped_opt_stmt_list_resolved(templates, orelse, source);
                    stamped_opt_stmt_list(orelse, source)
                },
            },
            _ => {
                stamped_stmt_kind_further_resolved(templates, stmt_kind, source);
                stamped_stmt_kind_further(stmt_kind, source)
            },
        }
    };
}

proof fn stamped_stmt_kind_further_resolved(
    templates: Seq<TemplateView>,
    stmt_kind: StmtKindView,
    source: Seq<char>,
)
    ensures
        kind_resolved(templates, stmt_kind) ==> kind_resolved(templates, stamped_stmt_kind_further(stmt_kind, source)),
        bodies_resolved(templates, stmt_kind) ==> bodies_resolved(templates, stamped_stmt_kind_further(stmt_kind, source)),
    decreases stmt_kind, 1nat,
{
    let _ = {
        match stmt_kind {
            StmtKindView::While { cond, body, orelse } => StmtKindView::While {
                cond: stamped_expr(cond, source),
                body: {
                    stamped_stmt_list_resolved(templates, body, source, 0, Seq::empty());
                    stamped_stmt_list(body, source, 0, Seq::empty())
                },
                orelse: {
                    stamped_opt_stmt_list_resolved(templates, orelse, source);
                    stamped_opt_stmt_list(orelse, source)
                },
            },
            StmtKindView::For { var, reference, owned, iter, body, orelse } => StmtKindView::For {
                var,
                reference,
                owned,
                iter: stamped_expr(iter, source),
                body: {
                    stamped_stmt_list_resolved(templates, body, source, 0, Seq::empty());
                    stamped_stmt_list(body, source, 0, Seq::empty())
                },
                orelse: {
                    stamped_opt_stmt_list_resolved(templates, orelse, source);
                    stamped_opt_stmt_list(orelse, source)
                },
            },
            StmtKindView::ComptimeFor { var, iter, body } => StmtKindView::ComptimeFor {
                var,
                iter: stamped_expr(iter, source),
                body: {
                    stamped_stmt_list_resolved(templates, body, source, 0, Seq::empty());
                    stamped_stmt_list(body, source, 0, Seq::empty())
                },
            },
            StmtKindView::Try { body, except, orelse, finalbody } => StmtKindView::Try {
                body: {
                    stamped_stmt_list_resolved(templates, body, source, 0, Seq::empty());
                    stamped_stmt_list(body, source, 0, Seq::empty())
                },
                except: {
                    stamped_opt_opt_string_stmt_list_resolved(templates, except, source);
                    stamped_opt_opt_string_stmt_list(except, source)
                },
                orelse: {
                    stamped_opt_stmt_list_resolved(templates, orelse, source);
                    stamped_opt_stmt_list(orelse, source)
                },
                finalbody: {
                    stamped_opt_stmt_list_resolved(templates, finalbody, source);
                    stamped_opt_stmt_list(finalbody, source)
                },
            },
            StmtKindView::With { items, body } => StmtKindView::With {
                items: stamped_with_item_list(items, source, 0, Seq::empty()),
                body: {
                    stamped_stmt_list_resolved(templates, body, source, 0, Seq::empty());
                    stamped_stmt_list(body, source, 0, Seq::empty())
                },
            },
            StmtKindView::Def { name, decorators, type_params, params, positional_only, keyword_only, captures, raises, raises_type, ret, where_clause, body } => StmtKindView::Def {
                name,
                decorators,
                type_params: stamped_type_param_list(type_params, source, 0, Seq::empty()),
                params: stamped_fn_param_list(params, source, 0, Seq::empty()),
                positional_only,
                keyword_only,
                captures,
                raises,
                raises_type: stamped_opt_type(raises_type, source),
                ret: stamped_opt_type(ret, source),
                where_clause: stamped_opt_expr(where_clause, source),
                body: {
                    stamped_stmt_list_resolved(templates, body, source, 0, Seq::empty());
                    stamped_stmt_list(body, source, 0, Seq::empty())
                },
            },
            _ => {
                stamped_stmt_kind_rest_resolved(templates, stmt_kind, source);
                stamped_stmt_kind_rest(stmt_kind, source)
            },
        }
    };
}

proof fn stamped_stmt_kind_rest_resolved(
    templates: Seq<TemplateView>,
    stmt_kind: StmtKindView,
    source: Seq<char>,
)
    ensures
        kind_resolved(templates, stmt_kind) ==> kind_resolved(templates, stamped_stmt_kind_rest(stmt_kind, source)),
        bodies_resolved(templates, stmt_kind) ==> bodies_resolved(templates, stamped_stmt_kind_rest(stmt_kind, source)),
    decreases stmt_kind, 0nat,
{
    let _ = {
        match stmt_kind {
            StmtKindView::Struct { name, decorators, type_params, conforms, callable_conformance, conformance_conditions, fields, associated, methods, fieldwise_init } => StmtKindView::Struct {
                name,
                decorators,
                type_params: stamped_type_param_list(type_params, source, 0, Seq::empty()),
                conforms,
                callable_conformance: stamped_opt_type(callable_conformance, source),
                conformance_conditions: stamped_expr_list(
                    conformance_conditions,
                    source,
                    0,
                    Seq::empty(),
                ),
                fields: stamped_param_list(fields, source, 0, Seq::empty()),
                associated: stamped_struct_comptime_list(associated, source, 0, Seq::empty()),
                methods: {
                    stamped_method_list_resolved(templates, methods, source, 0, Seq::empty());
                    stamped_method_list(methods, source, 0, Seq::empty())
                },
                fieldwise_init,
            },
            _ => stmt_kind,
        }
    };
}

proof fn stamped_stmt_resolved(
    templates: Seq<TemplateView>,
    stmt: StmtView,
    source: Seq<char>,
)
    ensures
        stmt_resolved(templates, stmt) ==> stmt_resolved(templates, stamped_stmt(stmt, source)),
        bodies_resolved(templates, stmt.kind) ==> bodies_resolved(templates, stamped_stmt(stmt, source).kind),
    decreases stmt, 0nat,
{
    let _ = {
        StmtView {
            kind: {
                stamped_stmt_kind_resolved(templates, stmt.kind, source);
                stamped_stmt_kind(stmt.kind, source)
            },
            span: stmt.span,
            module: source_stamped(stmt.module, source),
        }
    };
}

proof fn rewritten_stmt_list_resolved(
    templates: Seq<TemplateView>,
    items: Seq<StmtView>,
    subs: Seq<(Seq<char>, CtValueView)>,
    into_defs: bool,
    i: nat,
    out: Seq<StmtView>,
)
    ensures
        block_resolved(templates, items) && block_resolved(templates, out) ==> block_resolved(templates, rewritten_stmt_list(items, subs, into_defs, i, out)),
    decreases items, (items.len() - i) as nat,
{
    let _ = {
        if i >= items.len() {
            out
        } else {
            let item = items[i as int];
            rewritten_stmt_resolved(templates, item, subs, into_defs);
            let out = out.push(rewritten_stmt(item, subs, into_defs));
            {
                rewritten_stmt_list_resolved(templates, items, subs, into_defs, i + 1, out);
                rewritten_stmt_list(items, subs, into_defs, i + 1, out)
            }
        }
    };
}

proof fn rewritten_branch_list_resolved(
    templates: Seq<TemplateView>,
    items: Seq<(ExprView, Seq<StmtView>)>,
    subs: Seq<(Seq<char>, CtValueView)>,
    into_defs: bool,
    i: nat,
    out: Seq<(ExprView, Seq<StmtView>)>,
)
    ensures
        branches_resolved(templates, items) && branches_resolved(templates, out) ==> branches_resolved(templates, rewritten_branch_list(items, subs, into_defs, i, out)),
    decreases items, (items.len() - i) as nat,
{
    let _ = {
        if i >= items.len() {
            out
        } else {
            let item = items[i as int];
            rewritten_stmt_list_resolved(templates, item.1, subs, into_defs, 0, Seq::empty());
            let out = out.push(
                (rewritten(item.0, subs), rewritten_stmt_list(item.1, subs, into_defs, 0, Seq::empty()))
            );
            {
                rewritten_branch_list_resolved(templates, items, subs, into_defs, i + 1, out);
                rewritten_branch_list(items, subs, into_defs, i + 1, out)
            }
        }
    };
}

proof fn rewritten_opt_stmt_list_resolved(
    templates: Seq<TemplateView>,
    value: Option<Seq<StmtView>>,
    subs: Seq<(Seq<char>, CtValueView)>,
    into_defs: bool,
)
    ensures
        opt_block_resolved(templates, value) ==> opt_block_resolved(templates, rewritten_opt_stmt_list(value, subs, into_defs)),
    decreases value, 0nat,
{
    let _ = {
        match value {
            Some(value) => Some({
                rewritten_stmt_list_resolved(templates, value, subs, into_defs, 0, Seq::empty());
                rewritten_stmt_list(value, subs, into_defs, 0, Seq::empty())
            }),
            None => None,
        }
    };
}

proof fn rewritten_opt_opt_string_stmt_list_resolved(
    templates: Seq<TemplateView>,
    value: Option<(Option<Seq<char>>, Seq<StmtView>)>,
    subs: Seq<(Seq<char>, CtValueView)>,
    into_defs: bool,
)
    ensures
        handler_resolved(templates, value) ==> handler_resolved(templates, rewritten_opt_opt_string_stmt_list(value, subs, into_defs)),
    decreases value, 0nat,
{
    let _ = {
        match value {
            Some(value) => Some(
                (value.0, {
                    rewritten_stmt_list_resolved(templates, value.1, subs, into_defs, 0, Seq::empty());
                    rewritten_stmt_list(value.1, subs, into_defs, 0, Seq::empty())
                })
            ),
            None => None,
        }
    };
}

#[verifier::rlimit(60)]
proof fn rewritten_stmt_kind_resolved(
    templates: Seq<TemplateView>,
    stmt_kind: StmtKindView,
    subs: Seq<(Seq<char>, CtValueView)>,
    into_defs: bool,
)
    ensures
        kind_resolved(templates, stmt_kind) ==> kind_resolved(templates, rewritten_stmt_kind(stmt_kind, subs, into_defs)),
        bodies_resolved(templates, stmt_kind) ==> bodies_resolved(templates, rewritten_stmt_kind(stmt_kind, subs, into_defs)),
    decreases stmt_kind, 3nat,
{
    let _ = {
        match stmt_kind {
            StmtKindView::VarDecl { name, ty, value } => StmtKindView::VarDecl {
                name,
                ty,
                value: rewritten(value, subs),
            },
            StmtKindView::RefDecl { name, value } => StmtKindView::RefDecl {
                name,
                value: rewritten(value, subs),
            },
            StmtKindView::Assign { name, value } => StmtKindView::Assign {
                name,
                value: rewritten(value, subs),
            },
            StmtKindView::Comptime { name, value } => StmtKindView::Comptime {
                name,
                value: rewritten(value, subs),
            },
            StmtKindView::Raise(a0) => StmtKindView::Raise(rewritten(a0, subs)),
            StmtKindView::Return(a0) => StmtKindView::Return(rewritten_opt_expr(a0, subs)),
            _ => {
                rewritten_stmt_kind_more_resolved(templates, stmt_kind, subs, into_defs);
                rewritten_stmt_kind_more(stmt_kind, subs, into_defs)
            },
        }
    };
}

proof fn rewritten_stmt_kind_more_resolved(
    templates: Seq<TemplateView>,
    stmt_kind: StmtKindView,
    subs: Seq<(Seq<char>, CtValueView)>,
    into_defs: bool,
)
    ensures
        kind_resolved(templates, stmt_kind) ==> kind_resolved(templates, rewritten_stmt_kind_more(stmt_kind, subs, into_defs)),
        bodies_resolved(templates, stmt_kind) ==> bodies_resolved(templates, rewritten_stmt_kind_more(stmt_kind, subs, into_defs)),
    decreases stmt_kind, 2nat,
{
    let _ = {
        match stmt_kind {
            StmtKindView::SetPlace { place, value } => StmtKindView::SetPlace {
                place: rewritten(place, subs),
                value: rewritten(value, subs),
            },
            StmtKindView::AugAssign { place, op, value } => StmtKindView::AugAssign {
                place: rewritten(place, subs),
                op,
                value: rewritten(value, subs),
            },
            StmtKindView::Unpack { targets, value } => StmtKindView::Unpack {
                targets: rewritten_expr_list(targets, subs, 0, Seq::empty()),
                value: rewritten(value, subs),
            },
            StmtKindView::Expr(a0) => StmtKindView::Expr(rewritten(a0, subs)),
            StmtKindView::If { branches, orelse } => StmtKindView::If {
                branches: {
                    rewritten_branch_list_resolved(templates, branches, subs, into_defs, 0, Seq::empty());
                    rewritten_branch_list(branches, subs, into_defs, 0, Seq::empty())
                },
                orelse: {
                    rewritten_opt_stmt_list_resolved(templates, orelse, subs, into_defs);
                    rewritten_opt_stmt_list(orelse, subs, into_defs)
                },
            },
            StmtKindView::ComptimeIf { branches, orelse } => StmtKindView::ComptimeIf {
                branches: {
                    rewritten_branch_list_resolved(templates, branches, subs, into_defs, 0, Seq::empty());
                    rewritten_branch_list(branches, subs, into_defs, 0, Seq::empty())
                },
                orelse: {
                    rewritten_opt_stmt_list_resolved(templates, orelse, subs, into_defs);
                    rewritten_opt_stmt_list(orelse, subs, into_defs)
                },
            },
            _ => {
                rewritten_stmt_kind_further_resolved(templates, stmt_kind, subs, into_defs);
                rewritten_stmt_kind_further(stmt_kind, subs, into_defs)
            },
        }
    };
}

proof fn rewritten_stmt_kind_further_resolved(
    templates: Seq<TemplateView>,
    stmt_kind: StmtKindView,
    subs: Seq<(Seq<char>, CtValueView)>,
    into_defs: bool,
)
    ensures
        kind_resolved(templates, stmt_kind) ==> kind_resolved(templates, rewritten_stmt_kind_further(stmt_kind, subs, into_defs)),
        bodies_resolved(templates, stmt_kind) ==> bodies_resolved(templates, rewritten_stmt_kind_further(stmt_kind, subs, into_defs)),
    decreases stmt_kind, 1nat,
{
    let _ = {
        match stmt_kind {
            StmtKindView::While { cond, body, orelse } => StmtKindView::While {
                cond: rewritten(cond, subs),
                body: {
                    rewritten_stmt_list_resolved(templates, body, subs, into_defs, 0, Seq::empty());
                    rewritten_stmt_list(body, subs, into_defs, 0, Seq::empty())
                },
                orelse: {
                    rewritten_opt_stmt_list_resolved(templates, orelse, subs, into_defs);
                    rewritten_opt_stmt_list(orelse, subs, into_defs)
                },
            },
            StmtKindView::For { var, reference, owned, iter, body, orelse } => StmtKindView::For {
                var,
                reference,
                owned,
                iter: rewritten(iter, subs),
                body: {
                    rewritten_stmt_list_resolved(templates, body, subs, into_defs, 0, Seq::empty());
                    rewritten_stmt_list(body, subs, into_defs, 0, Seq::empty())
                },
                orelse: {
                    rewritten_opt_stmt_list_resolved(templates, orelse, subs, into_defs);
                    rewritten_opt_stmt_list(orelse, subs, into_defs)
                },
            },
            StmtKindView::ComptimeFor { var, iter, body } => StmtKindView::ComptimeFor {
                var,
                iter: rewritten(iter, subs),
                body: {
                    rewritten_stmt_list_resolved(templates, body, subs, into_defs, 0, Seq::empty());
                    rewritten_stmt_list(body, subs, into_defs, 0, Seq::empty())
                },
            },
            StmtKindView::Try { body, except, orelse, finalbody } => StmtKindView::Try {
                body: {
                    rewritten_stmt_list_resolved(templates, body, subs, into_defs, 0, Seq::empty());
                    rewritten_stmt_list(body, subs, into_defs, 0, Seq::empty())
                },
                except: {
                    rewritten_opt_opt_string_stmt_list_resolved(templates, except, subs, into_defs);
                    rewritten_opt_opt_string_stmt_list(except, subs, into_defs)
                },
                orelse: {
                    rewritten_opt_stmt_list_resolved(templates, orelse, subs, into_defs);
                    rewritten_opt_stmt_list(orelse, subs, into_defs)
                },
                finalbody: {
                    rewritten_opt_stmt_list_resolved(templates, finalbody, subs, into_defs);
                    rewritten_opt_stmt_list(finalbody, subs, into_defs)
                },
            },
            StmtKindView::With { items, body } => StmtKindView::With {
                items: rewritten_with_item_list(items, subs, into_defs, 0, Seq::empty()),
                body: {
                    rewritten_stmt_list_resolved(templates, body, subs, into_defs, 0, Seq::empty());
                    rewritten_stmt_list(body, subs, into_defs, 0, Seq::empty())
                },
            },
            StmtKindView::Def {
                name,
                decorators,
                type_params,
                params,
                positional_only,
                keyword_only,
                captures,
                raises,
                raises_type,
                ret,
                where_clause,
                body,
            } => if into_defs {
                let inner = values_visible(
                    subs,
                    names_of_params(params, 0, Seq::empty()),
                    0,
                    Seq::empty(),
                );
                StmtKindView::Def {
                    name,
                    decorators,
                    type_params,
                    params,
                    positional_only,
                    keyword_only,
                    captures,
                    raises,
                    raises_type,
                    ret,
                    where_clause,
                    body: {
                        rewritten_stmt_list_resolved(templates, body, inner, into_defs, 0, Seq::empty());
                        rewritten_stmt_list(body, inner, into_defs, 0, Seq::empty())
                    },
                }
            } else {
                stmt_kind
            },
            _ => {
                rewritten_stmt_kind_rest_resolved(templates, stmt_kind, subs, into_defs);
                rewritten_stmt_kind_rest(stmt_kind, subs, into_defs)
            },
        }
    };
}

proof fn rewritten_stmt_kind_rest_resolved(
    templates: Seq<TemplateView>,
    stmt_kind: StmtKindView,
    subs: Seq<(Seq<char>, CtValueView)>,
    into_defs: bool,
)
    ensures
        kind_resolved(templates, stmt_kind) ==> kind_resolved(templates, rewritten_stmt_kind_rest(stmt_kind, subs, into_defs)),
        bodies_resolved(templates, stmt_kind) ==> bodies_resolved(templates, rewritten_stmt_kind_rest(stmt_kind, subs, into_defs)),
    decreases stmt_kind, 0nat,
{
    let _ = {
        match stmt_kind {
            StmtKindView::Struct {
                name,
                decorators,
                type_params,
                conforms,
                callable_conformance,
                conformance_conditions,
                fields,
                associated,
                methods,
                fieldwise_init,
            } => if into_defs {
                StmtKindView::Struct {
                    name,
                    decorators,
                    type_params,
                    conforms,
                    callable_conformance,
                    conformance_conditions,
                    fields,
                    associated,
                    methods: {
                        rewritten_methods_resolved(templates, methods, subs, 0, Seq::empty());
                        rewritten_methods(methods, subs, 0, Seq::empty())
                    },
                    fieldwise_init,
                }
            } else {
                stmt_kind
            },
            _ => stmt_kind,
        }
    };
}

proof fn rewritten_stmt_resolved(
    templates: Seq<TemplateView>,
    stmt: StmtView,
    subs: Seq<(Seq<char>, CtValueView)>,
    into_defs: bool,
)
    ensures
        stmt_resolved(templates, stmt) ==> stmt_resolved(templates, rewritten_stmt(stmt, subs, into_defs)),
        bodies_resolved(templates, stmt.kind) ==> bodies_resolved(templates, rewritten_stmt(stmt, subs, into_defs).kind),
    decreases stmt, 0nat,
{
    let _ = {
        StmtView {
            kind: {
                rewritten_stmt_kind_resolved(templates, stmt.kind, subs, into_defs);
                rewritten_stmt_kind(stmt.kind, subs, into_defs)
            },
            span: stmt.span,
            module: stmt.module,
        }
    };
}

proof fn rewritten_methods_resolved(
    templates: Seq<TemplateView>,
    methods: Seq<MethodView>,
    subs: Seq<(Seq<char>, CtValueView)>,
    i: nat,
    out: Seq<MethodView>,
)
    ensures
        methods_resolved(templates, methods) && methods_resolved(templates, out) ==> methods_resolved(templates, rewritten_methods(methods, subs, i, out)),
    decreases methods, (methods.len() - i) as nat,
{
    let _ = {
        if i >= methods.len() {
            out
        } else {
            let method = methods[i as int];
            rewritten_method_resolved(templates, method, subs);
            let out = out.push(rewritten_method(method, subs));
            {
                rewritten_methods_resolved(templates, methods, subs, i + 1, out);
                rewritten_methods(methods, subs, i + 1, out)
            }
        }
    };
}

proof fn rewritten_method_resolved(
    templates: Seq<TemplateView>,
    method: MethodView,
    subs: Seq<(Seq<char>, CtValueView)>,
)
    ensures
        method_resolved(templates, method) ==> method_resolved(templates, rewritten_method(method, subs)),
    decreases method, 0nat,
{
    let _ = {
        let inner = values_visible(subs, names_of_params(method.params, 0, seq!["self"@]), 0, Seq::empty());
        MethodView {
            name: method.name,
            has_self: method.has_self,
            self_convention: method.self_convention,
            params: method.params,
            positional_only: method.positional_only,
            keyword_only: method.keyword_only,
            raises_type: method.raises_type,
            ret: method.ret,
            body: {
                rewritten_stmt_list_resolved(templates, method.body, inner, true, 0, Seq::empty());
                rewritten_stmt_list(method.body, inner, true, 0, Seq::empty())
            },
        }
    };
}

proof fn expanded_stmt_list_resolved(
    templates: Seq<TemplateView>,
    items: Seq<StmtView>,
    packs: Seq<(Seq<char>, Seq<TypeView>)>,
    lengths: Seq<(Seq<char>, usize)>,
    i: nat,
    out: Seq<StmtView>,
)
    ensures
        block_resolved(templates, items) && block_resolved(templates, out) ==> block_resolved(templates, expanded_stmt_list(items, packs, lengths, i, out)),
    decreases items, (items.len() - i) as nat,
{
    let _ = {
        if i >= items.len() {
            out
        } else {
            let item = items[i as int];
            expanded_stmt_resolved(templates, item, packs, lengths);
            let out = out.push(expanded_stmt(item, packs, lengths));
            {
                expanded_stmt_list_resolved(templates, items, packs, lengths, i + 1, out);
                expanded_stmt_list(items, packs, lengths, i + 1, out)
            }
        }
    };
}

proof fn expanded_branch_list_resolved(
    templates: Seq<TemplateView>,
    items: Seq<(ExprView, Seq<StmtView>)>,
    packs: Seq<(Seq<char>, Seq<TypeView>)>,
    lengths: Seq<(Seq<char>, usize)>,
    i: nat,
    out: Seq<(ExprView, Seq<StmtView>)>,
)
    ensures
        branches_resolved(templates, items) && branches_resolved(templates, out) ==> branches_resolved(templates, expanded_branch_list(items, packs, lengths, i, out)),
    decreases items, (items.len() - i) as nat,
{
    let _ = {
        if i >= items.len() {
            out
        } else {
            let item = items[i as int];
            expanded_stmt_list_resolved(templates, item.1, packs, lengths, 0, Seq::empty());
            let out = out.push(
                (
                    expanded_expr(item.0, packs, lengths),
                    expanded_stmt_list(item.1, packs, lengths, 0, Seq::empty()),
                )
            );
            {
                expanded_branch_list_resolved(templates, items, packs, lengths, i + 1, out);
                expanded_branch_list(items, packs, lengths, i + 1, out)
            }
        }
    };
}

proof fn expanded_opt_stmt_list_resolved(
    templates: Seq<TemplateView>,
    value: Option<Seq<StmtView>>,
    packs: Seq<(Seq<char>, Seq<TypeView>)>,
    lengths: Seq<(Seq<char>, usize)>,
)
    ensures
        opt_block_resolved(templates, value) ==> opt_block_resolved(templates, expanded_opt_stmt_list(value, packs, lengths)),
    decreases value, 0nat,
{
    let _ = {
        match value {
            Some(value) => Some({
                expanded_stmt_list_resolved(templates, value, packs, lengths, 0, Seq::empty());
                expanded_stmt_list(value, packs, lengths, 0, Seq::empty())
            }),
            None => None,
        }
    };
}

proof fn expanded_opt_opt_string_stmt_list_resolved(
    templates: Seq<TemplateView>,
    value: Option<(Option<Seq<char>>, Seq<StmtView>)>,
    packs: Seq<(Seq<char>, Seq<TypeView>)>,
    lengths: Seq<(Seq<char>, usize)>,
)
    ensures
        handler_resolved(templates, value) ==> handler_resolved(templates, expanded_opt_opt_string_stmt_list(value, packs, lengths)),
    decreases value, 0nat,
{
    let _ = {
        match value {
            Some(value) => Some(
                (value.0, {
                    expanded_stmt_list_resolved(templates, value.1, packs, lengths, 0, Seq::empty());
                    expanded_stmt_list(value.1, packs, lengths, 0, Seq::empty())
                })
            ),
            None => None,
        }
    };
}

proof fn expanded_method_resolved(
    templates: Seq<TemplateView>,
    method: MethodView,
    packs: Seq<(Seq<char>, Seq<TypeView>)>,
    lengths: Seq<(Seq<char>, usize)>,
)
    ensures
        method_resolved(templates, method) ==> method_resolved(templates, expanded_method(method, packs, lengths)),
    decreases method, 0nat,
{
    let _ = {
        MethodView {
            name: method.name,
            has_self: method.has_self,
            self_convention: method.self_convention,
            params: expanded_fn_param_list(method.params, packs, lengths, 0, Seq::empty()),
            positional_only: method.positional_only,
            keyword_only: method.keyword_only,
            raises_type: expanded_opt_type(method.raises_type, packs),
            ret: expanded_opt_type(method.ret, packs),
            body: {
                expanded_stmt_list_resolved(templates, method.body, packs, lengths, 0, Seq::empty());
                expanded_stmt_list(method.body, packs, lengths, 0, Seq::empty())
            },
        }
    };
}

proof fn expanded_method_list_resolved(
    templates: Seq<TemplateView>,
    items: Seq<MethodView>,
    packs: Seq<(Seq<char>, Seq<TypeView>)>,
    lengths: Seq<(Seq<char>, usize)>,
    i: nat,
    out: Seq<MethodView>,
)
    ensures
        methods_resolved(templates, items) && methods_resolved(templates, out) ==> methods_resolved(templates, expanded_method_list(items, packs, lengths, i, out)),
    decreases items, (items.len() - i) as nat,
{
    let _ = {
        if i >= items.len() {
            out
        } else {
            let item = items[i as int];
            expanded_method_resolved(templates, item, packs, lengths);
            let out = out.push(expanded_method(item, packs, lengths));
            {
                expanded_method_list_resolved(templates, items, packs, lengths, i + 1, out);
                expanded_method_list(items, packs, lengths, i + 1, out)
            }
        }
    };
}

#[verifier::rlimit(60)]
proof fn expanded_stmt_kind_resolved(
    templates: Seq<TemplateView>,
    stmt_kind: StmtKindView,
    packs: Seq<(Seq<char>, Seq<TypeView>)>,
    lengths: Seq<(Seq<char>, usize)>,
)
    ensures
        kind_resolved(templates, stmt_kind) ==> kind_resolved(templates, expanded_stmt_kind(stmt_kind, packs, lengths)),
        bodies_resolved(templates, stmt_kind) ==> bodies_resolved(templates, expanded_stmt_kind(stmt_kind, packs, lengths)),
    decreases stmt_kind, 3nat,
{
    let _ = {
        match stmt_kind {
            StmtKindView::VarDecl { name, ty, value } => StmtKindView::VarDecl {
                name,
                ty: expanded_opt_type(ty, packs),
                value: expanded_expr(value, packs, lengths),
            },
            StmtKindView::RefDecl { name, value } => StmtKindView::RefDecl {
                name,
                value: expanded_expr(value, packs, lengths),
            },
            StmtKindView::Assign { name, value } => StmtKindView::Assign {
                name,
                value: expanded_expr(value, packs, lengths),
            },
            StmtKindView::Comptime { name, value } => StmtKindView::Comptime {
                name,
                value: expanded_expr(value, packs, lengths),
            },
            StmtKindView::Raise(a0) => StmtKindView::Raise(expanded_expr(a0, packs, lengths)),
            StmtKindView::Return(a0) => StmtKindView::Return(expanded_opt_expr(a0, packs, lengths)),
            _ => {
                expanded_stmt_kind_more_resolved(templates, stmt_kind, packs, lengths);
                expanded_stmt_kind_more(stmt_kind, packs, lengths)
            },
        }
    };
}

proof fn expanded_stmt_kind_more_resolved(
    templates: Seq<TemplateView>,
    stmt_kind: StmtKindView,
    packs: Seq<(Seq<char>, Seq<TypeView>)>,
    lengths: Seq<(Seq<char>, usize)>,
)
    ensures
        kind_resolved(templates, stmt_kind) ==> kind_resolved(templates, expanded_stmt_kind_more(stmt_kind, packs, lengths)),
        bodies_resolved(templates, stmt_kind) ==> bodies_resolved(templates, expanded_stmt_kind_more(stmt_kind, packs, lengths)),
    decreases stmt_kind, 2nat,
{
    let _ = {
        match stmt_kind {
            StmtKindView::SetPlace { place, value } => StmtKindView::SetPlace {
                place: expanded_expr(place, packs, lengths),
                value: expanded_expr(value, packs, lengths),
            },
            StmtKindView::AugAssign { place, op, value } => StmtKindView::AugAssign {
                place: expanded_expr(place, packs, lengths),
                op,
                value: expanded_expr(value, packs, lengths),
            },
            StmtKindView::Unpack { targets, value } => StmtKindView::Unpack {
                targets: expanded_expr_list(targets, packs, lengths, 0, Seq::empty()),
                value: expanded_expr(value, packs, lengths),
            },
            StmtKindView::Expr(a0) => StmtKindView::Expr(expanded_expr(a0, packs, lengths)),
            StmtKindView::If { branches, orelse } => StmtKindView::If {
                branches: {
                    expanded_branch_list_resolved(templates, branches, packs, lengths, 0, Seq::empty());
                    expanded_branch_list(branches, packs, lengths, 0, Seq::empty())
                },
                orelse: {
                    expanded_opt_stmt_list_resolved(templates, orelse, packs, lengths);
                    expanded_opt_stmt_list(orelse, packs, lengths)
                },
            },
            StmtKindView::ComptimeIf { branches, orelse } => StmtKindView::ComptimeIf {
                branches: {
                    expanded_branch_list_resolved(templates, branches, packs, lengths, 0, Seq::empty());
                    expanded_branch_list(branches, packs, lengths, 0, Seq::empty())
                },
                orelse: {
                    expanded_opt_stmt_list_resolved(templates, orelse, packs, lengths);
                    expanded_opt_stmt_list(orelse, packs, lengths)
                },
            },
            _ => {
                expanded_stmt_kind_further_resolved(templates, stmt_kind, packs, lengths);
                expanded_stmt_kind_further(stmt_kind, packs, lengths)
            },
        }
    };
}

proof fn expanded_stmt_kind_further_resolved(
    templates: Seq<TemplateView>,
    stmt_kind: StmtKindView,
    packs: Seq<(Seq<char>, Seq<TypeView>)>,
    lengths: Seq<(Seq<char>, usize)>,
)
    ensures
        kind_resolved(templates, stmt_kind) ==> kind_resolved(templates, expanded_stmt_kind_further(stmt_kind, packs, lengths)),
        bodies_resolved(templates, stmt_kind) ==> bodies_resolved(templates, expanded_stmt_kind_further(stmt_kind, packs, lengths)),
    decreases stmt_kind, 1nat,
{
    let _ = {
        match stmt_kind {
            StmtKindView::While { cond, body, orelse } => StmtKindView::While {
                cond: expanded_expr(cond, packs, lengths),
                body: {
                    expanded_stmt_list_resolved(templates, body, packs, lengths, 0, Seq::empty());
                    expanded_stmt_list(body, packs, lengths, 0, Seq::empty())
                },
                orelse: {
                    expanded_opt_stmt_list_resolved(templates, orelse, packs, lengths);
                    expanded_opt_stmt_list(orelse, packs, lengths)
                },
            },
            StmtKindView::For { var, reference, owned, iter, body, orelse } => StmtKindView::For {
                var,
                reference,
                owned,
                iter: expanded_expr(iter, packs, lengths),
                body: {
                    expanded_stmt_list_resolved(templates, body, packs, lengths, 0, Seq::empty());
                    expanded_stmt_list(body, packs, lengths, 0, Seq::empty())
                },
                orelse: {
                    expanded_opt_stmt_list_resolved(templates, orelse, packs, lengths);
                    expanded_opt_stmt_list(orelse, packs, lengths)
                },
            },
            StmtKindView::ComptimeFor { var, iter, body } => StmtKindView::ComptimeFor {
                var,
                iter: expanded_expr(iter, packs, lengths),
                body: {
                    expanded_stmt_list_resolved(templates, body, packs, lengths, 0, Seq::empty());
                    expanded_stmt_list(body, packs, lengths, 0, Seq::empty())
                },
            },
            StmtKindView::Try { body, except, orelse, finalbody } => StmtKindView::Try {
                body: {
                    expanded_stmt_list_resolved(templates, body, packs, lengths, 0, Seq::empty());
                    expanded_stmt_list(body, packs, lengths, 0, Seq::empty())
                },
                except: {
                    expanded_opt_opt_string_stmt_list_resolved(templates, except, packs, lengths);
                    expanded_opt_opt_string_stmt_list(except, packs, lengths)
                },
                orelse: {
                    expanded_opt_stmt_list_resolved(templates, orelse, packs, lengths);
                    expanded_opt_stmt_list(orelse, packs, lengths)
                },
                finalbody: {
                    expanded_opt_stmt_list_resolved(templates, finalbody, packs, lengths);
                    expanded_opt_stmt_list(finalbody, packs, lengths)
                },
            },
            StmtKindView::With { items, body } => StmtKindView::With {
                items: expanded_with_item_list(items, packs, lengths, 0, Seq::empty()),
                body: {
                    expanded_stmt_list_resolved(templates, body, packs, lengths, 0, Seq::empty());
                    expanded_stmt_list(body, packs, lengths, 0, Seq::empty())
                },
            },
            StmtKindView::Def { name, decorators, type_params, params, positional_only, keyword_only, captures, raises, raises_type, ret, where_clause, body } => StmtKindView::Def {
                name,
                decorators,
                type_params,
                params: expanded_fn_param_list(params, packs, lengths, 0, Seq::empty()),
                positional_only,
                keyword_only,
                captures,
                raises,
                raises_type: expanded_opt_type(raises_type, packs),
                ret: expanded_opt_type(ret, packs),
                where_clause,
                body: {
                    expanded_stmt_list_resolved(templates, body, packs, lengths, 0, Seq::empty());
                    expanded_stmt_list(body, packs, lengths, 0, Seq::empty())
                },
            },
            _ => {
                expanded_stmt_kind_rest_resolved(templates, stmt_kind, packs, lengths);
                expanded_stmt_kind_rest(stmt_kind, packs, lengths)
            },
        }
    };
}

proof fn expanded_stmt_kind_rest_resolved(
    templates: Seq<TemplateView>,
    stmt_kind: StmtKindView,
    packs: Seq<(Seq<char>, Seq<TypeView>)>,
    lengths: Seq<(Seq<char>, usize)>,
)
    ensures
        kind_resolved(templates, stmt_kind) ==> kind_resolved(templates, expanded_stmt_kind_rest(stmt_kind, packs, lengths)),
        bodies_resolved(templates, stmt_kind) ==> bodies_resolved(templates, expanded_stmt_kind_rest(stmt_kind, packs, lengths)),
    decreases stmt_kind, 0nat,
{
    let _ = {
        match stmt_kind {
            StmtKindView::Struct { name, decorators, type_params, conforms, callable_conformance, conformance_conditions, fields, associated, methods, fieldwise_init } => StmtKindView::Struct {
                name,
                decorators,
                type_params,
                conforms,
                callable_conformance,
                conformance_conditions,
                fields: expanded_param_list(fields, packs, lengths, 0, Seq::empty()),
                associated: expanded_struct_comptime_list(associated, packs, lengths, 0, Seq::empty()),
                methods: {
                    expanded_method_list_resolved(templates, methods, packs, lengths, 0, Seq::empty());
                    expanded_method_list(methods, packs, lengths, 0, Seq::empty())
                },
                fieldwise_init,
            },
            _ => stmt_kind,
        }
    };
}

proof fn expanded_stmt_resolved(
    templates: Seq<TemplateView>,
    stmt: StmtView,
    packs: Seq<(Seq<char>, Seq<TypeView>)>,
    lengths: Seq<(Seq<char>, usize)>,
)
    ensures
        stmt_resolved(templates, stmt) ==> stmt_resolved(templates, expanded_stmt(stmt, packs, lengths)),
        bodies_resolved(templates, stmt.kind) ==> bodies_resolved(templates, expanded_stmt(stmt, packs, lengths).kind),
    decreases stmt, 0nat,
{
    let _ = {
        StmtView {
            kind: {
                expanded_stmt_kind_resolved(templates, stmt.kind, packs, lengths);
                expanded_stmt_kind(stmt.kind, packs, lengths)
            },
            span: stmt.span,
            module: stmt.module,
        }
    };
}

proof fn specialized_stmt_list_resolved(
    templates: Seq<TemplateView>,
    items: Seq<StmtView>,
    consts: Seq<(Seq<char>, CtValueView)>,
    cx: CtContextView,
    i: nat,
    out: Seq<StmtView>,
    mono: MonoView,
)
    ensures
        block_resolved(templates, items) && block_resolved(templates, out) ==> (match specialized_stmt_list(items, consts, cx, i, out, mono) {
            Ok(done) => block_resolved(templates, done.0),
            Err(_) => true,
        }),
    decreases items, (items.len() - i) as nat,
{
    let _ = {
        if i >= items.len() {
            Ok((out, mono))
        } else {
            let item = items[i as int];
            match {
                specialized_stmt_resolved(templates, item, consts, cx, mono);
                specialized_stmt(item, consts, cx, mono)
            } {
                Ok(taken) => {
                    let (mapped, rest) = taken;
                    let mono = rest;
                    let out = out.push(mapped);
                    {
                        specialized_stmt_list_resolved(templates, items, consts, cx, i + 1, out, mono);
                        specialized_stmt_list(items, consts, cx, i + 1, out, mono)
                    }
                },
                Err(error) => Err(error),
            }
        }
    };
}

proof fn specialized_branch_list_resolved(
    templates: Seq<TemplateView>,
    items: Seq<(ExprView, Seq<StmtView>)>,
    consts: Seq<(Seq<char>, CtValueView)>,
    cx: CtContextView,
    i: nat,
    out: Seq<(ExprView, Seq<StmtView>)>,
    mono: MonoView,
)
    ensures
        branches_resolved(templates, items) && branches_resolved(templates, out) ==> (match specialized_branch_list(items, consts, cx, i, out, mono) {
            Ok(done) => branches_resolved(templates, done.0),
            Err(_) => true,
        }),
    decreases items, (items.len() - i) as nat,
{
    let _ = {
        if i >= items.len() {
            Ok((out, mono))
        } else {
            let item = items[i as int];
            match specialized_expr(item.0, consts, cx, mono) {
                Ok(taken) => {
                    let (mapped_0, rest) = taken;
                    let mono = rest;
                    match {
                        specialized_stmt_list_resolved(templates, item.1, consts, cx, 0, Seq::empty(), mono);
                        specialized_stmt_list(item.1, consts, cx, 0, Seq::empty(), mono)
                    } {
                        Ok(taken) => {
                            let (mapped_1, rest) = taken;
                            let mono = rest;
                            let out = out.push((mapped_0, mapped_1));
                            {
                                specialized_branch_list_resolved(templates, items, consts, cx, i + 1, out, mono);
                                specialized_branch_list(items, consts, cx, i + 1, out, mono)
                            }
                        },
                        Err(error) => Err(error),
                    }
                },
                Err(error) => Err(error),
            }
        }
    };
}

proof fn specialized_opt_stmt_list_resolved(
    templates: Seq<TemplateView>,
    value: Option<Seq<StmtView>>,
    consts: Seq<(Seq<char>, CtValueView)>,
    cx: CtContextView,
    mono: MonoView,
)
    ensures
        opt_block_resolved(templates, value) ==> (match specialized_opt_stmt_list(value, consts, cx, mono) {
            Ok(done) => opt_block_resolved(templates, done.0),
            Err(_) => true,
        }),
    decreases value, 0nat,
{
    let _ = {
        match value {
            Some(value) => match {
                specialized_stmt_list_resolved(templates, value, consts, cx, 0, Seq::empty(), mono);
                specialized_stmt_list(value, consts, cx, 0, Seq::empty(), mono)
            } {
                Ok(out) => {
                    let (mapped, mono) = out;
                    Ok((Some(mapped), mono))
                },
                Err(error) => Err(error),
            },
            None => Ok((None, mono)),
        }
    };
}

proof fn specialized_opt_opt_string_stmt_list_resolved(
    templates: Seq<TemplateView>,
    value: Option<(Option<Seq<char>>, Seq<StmtView>)>,
    consts: Seq<(Seq<char>, CtValueView)>,
    cx: CtContextView,
    mono: MonoView,
)
    ensures
        handler_resolved(templates, value) ==> (match specialized_opt_opt_string_stmt_list(value, consts, cx, mono) {
            Ok(done) => handler_resolved(templates, done.0),
            Err(_) => true,
        }),
    decreases value, 0nat,
{
    let _ = {
        match value {
            Some(value) => match {
                specialized_stmt_list_resolved(templates, value.1, consts, cx, 0, Seq::empty(), mono);
                specialized_stmt_list(value.1, consts, cx, 0, Seq::empty(), mono)
            } {
                Ok(out) => {
                    let (mapped_1, mono) = out;
                    Ok((Some((value.0, mapped_1)), mono))
                },
                Err(error) => Err(error),
            },
            None => Ok((None, mono)),
        }
    };
}

proof fn specialized_method_resolved(
    templates: Seq<TemplateView>,
    method: MethodView,
    consts: Seq<(Seq<char>, CtValueView)>,
    cx: CtContextView,
    mono: MonoView,
)
    ensures
        method_resolved(templates, method) ==> (match specialized_method(method, consts, cx, mono) {
            Ok(done) => method_resolved(templates, done.0),
            Err(_) => true,
        }),
    decreases method, 0nat,
{
    let _ = {
        match {
            specialized_stmt_list_resolved(templates, method.body, consts, cx, 0, Seq::empty(), mono);
            specialized_stmt_list(method.body, consts, cx, 0, Seq::empty(), mono)
        } {
            Ok(out) => {
                let (new_body, mono) = out;
                Ok(
                    (
                        MethodView {
                            name: method.name,
                            has_self: method.has_self,
                            self_convention: method.self_convention,
                            params: method.params,
                            positional_only: method.positional_only,
                            keyword_only: method.keyword_only,
                            raises_type: method.raises_type,
                            ret: method.ret,
                            body: new_body,
                        },
                        mono,
                    )
                )
            },
            Err(error) => Err(error),
        }
    };
}

proof fn specialized_method_list_resolved(
    templates: Seq<TemplateView>,
    items: Seq<MethodView>,
    consts: Seq<(Seq<char>, CtValueView)>,
    cx: CtContextView,
    i: nat,
    out: Seq<MethodView>,
    mono: MonoView,
)
    ensures
        methods_resolved(templates, items) && methods_resolved(templates, out) ==> (match specialized_method_list(items, consts, cx, i, out, mono) {
            Ok(done) => methods_resolved(templates, done.0),
            Err(_) => true,
        }),
    decreases items, (items.len() - i) as nat,
{
    let _ = {
        if i >= items.len() {
            Ok((out, mono))
        } else {
            let item = items[i as int];
            match {
                specialized_method_resolved(templates, item, consts, cx, mono);
                specialized_method(item, consts, cx, mono)
            } {
                Ok(taken) => {
                    let (mapped, rest) = taken;
                    let mono = rest;
                    let out = out.push(mapped);
                    {
                        specialized_method_list_resolved(templates, items, consts, cx, i + 1, out, mono);
                        specialized_method_list(items, consts, cx, i + 1, out, mono)
                    }
                },
                Err(error) => Err(error),
            }
        }
    };
}

#[verifier::rlimit(60)]
proof fn specialized_stmt_kind_resolved(
    templates: Seq<TemplateView>,
    stmt_kind: StmtKindView,
    consts: Seq<(Seq<char>, CtValueView)>,
    cx: CtContextView,
    mono: MonoView,
)
    ensures
        kind_resolved(templates, stmt_kind) ==> (match specialized_stmt_kind(stmt_kind, consts, cx, mono) {
            Ok(done) => kind_resolved(templates, done.0),
            Err(_) => true,
        }),
        bodies_resolved(templates, stmt_kind) ==> (match specialized_stmt_kind(stmt_kind, consts, cx, mono) {
            Ok(done) => bodies_resolved(templates, done.0),
            Err(_) => true,
        }),
    decreases stmt_kind, 3nat,
{
    let _ = {
        match stmt_kind {
            StmtKindView::VarDecl { name, ty, value } => match specialized_expr(
                value,
                consts,
                cx,
                mono,
            ) {
                Ok(out) => {
                    let (new_value, mono) = out;
                    Ok((StmtKindView::VarDecl { name, ty, value: new_value }, mono))
                },
                Err(error) => Err(error),
            },
            StmtKindView::RefDecl { name, value } => match specialized_expr(value, consts, cx, mono) {
                Ok(out) => {
                    let (new_value, mono) = out;
                    Ok((StmtKindView::RefDecl { name, value: new_value }, mono))
                },
                Err(error) => Err(error),
            },
            StmtKindView::Assign { name, value } => match specialized_expr(value, consts, cx, mono) {
                Ok(out) => {
                    let (new_value, mono) = out;
                    Ok((StmtKindView::Assign { name, value: new_value }, mono))
                },
                Err(error) => Err(error),
            },
            StmtKindView::Comptime { name, value } => match specialized_expr(value, consts, cx, mono) {
                Ok(out) => {
                    let (new_value, mono) = out;
                    Ok((StmtKindView::Comptime { name, value: new_value }, mono))
                },
                Err(error) => Err(error),
            },
            StmtKindView::Raise(a0) => match specialized_expr(a0, consts, cx, mono) {
                Ok(out) => {
                    let (new_a0, mono) = out;
                    Ok((StmtKindView::Raise(new_a0), mono))
                },
                Err(error) => Err(error),
            },
            StmtKindView::Return(a0) => match specialized_opt_expr(a0, consts, cx, mono) {
                Ok(out) => {
                    let (new_a0, mono) = out;
                    Ok((StmtKindView::Return(new_a0), mono))
                },
                Err(error) => Err(error),
            },
            _ => {
                specialized_stmt_kind_more_resolved(templates, stmt_kind, consts, cx, mono);
                specialized_stmt_kind_more(stmt_kind, consts, cx, mono)
            },
        }
    };
}

proof fn specialized_stmt_kind_more_resolved(
    templates: Seq<TemplateView>,
    stmt_kind: StmtKindView,
    consts: Seq<(Seq<char>, CtValueView)>,
    cx: CtContextView,
    mono: MonoView,
)
    ensures
        kind_resolved(templates, stmt_kind) ==> (match specialized_stmt_kind_more(stmt_kind, consts, cx, mono) {
            Ok(done) => kind_resolved(templates, done.0),
            Err(_) => true,
        }),
        bodies_resolved(templates, stmt_kind) ==> (match specialized_stmt_kind_more(stmt_kind, consts, cx, mono) {
            Ok(done) => bodies_resolved(templates, done.0),
            Err(_) => true,
        }),
    decreases stmt_kind, 2nat,
{
    let _ = {
        match stmt_kind {
            StmtKindView::SetPlace { place, value } => match specialized_expr(place, consts, cx, mono) {
                Ok(out) => {
                    let (new_place, mono) = out;
                    match specialized_expr(value, consts, cx, mono) {
                        Ok(out) => {
                            let (new_value, mono) = out;
                            Ok((StmtKindView::SetPlace { place: new_place, value: new_value }, mono))
                        },
                        Err(error) => Err(error),
                    }
                },
                Err(error) => Err(error),
            },
            StmtKindView::AugAssign { place, op, value } => match specialized_expr(
                place,
                consts,
                cx,
                mono,
            ) {
                Ok(out) => {
                    let (new_place, mono) = out;
                    match specialized_expr(value, consts, cx, mono) {
                        Ok(out) => {
                            let (new_value, mono) = out;
                            Ok(
                                (
                                    StmtKindView::AugAssign { place: new_place, op, value: new_value },
                                    mono,
                                )
                            )
                        },
                        Err(error) => Err(error),
                    }
                },
                Err(error) => Err(error),
            },
            StmtKindView::Unpack { targets, value } => match specialized_expr_list(
                targets,
                consts,
                cx,
                0,
                Seq::empty(),
                mono,
            ) {
                Ok(out) => {
                    let (new_targets, mono) = out;
                    match specialized_expr(value, consts, cx, mono) {
                        Ok(out) => {
                            let (new_value, mono) = out;
                            Ok((StmtKindView::Unpack { targets: new_targets, value: new_value }, mono))
                        },
                        Err(error) => Err(error),
                    }
                },
                Err(error) => Err(error),
            },
            StmtKindView::Expr(a0) => match specialized_expr(a0, consts, cx, mono) {
                Ok(out) => {
                    let (new_a0, mono) = out;
                    Ok((StmtKindView::Expr(new_a0), mono))
                },
                Err(error) => Err(error),
            },
            StmtKindView::If { branches, orelse } => match {
                specialized_branch_list_resolved(templates, branches, consts, cx, 0, Seq::empty(), mono);
                specialized_branch_list(branches, consts, cx, 0, Seq::empty(), mono)
            } {
                Ok(out) => {
                    let (new_branches, mono) = out;
                    match {
                        specialized_opt_stmt_list_resolved(templates, orelse, consts, cx, mono);
                        specialized_opt_stmt_list(orelse, consts, cx, mono)
                    } {
                        Ok(out) => {
                            let (new_orelse, mono) = out;
                            Ok((StmtKindView::If { branches: new_branches, orelse: new_orelse }, mono))
                        },
                        Err(error) => Err(error),
                    }
                },
                Err(error) => Err(error),
            },
            StmtKindView::ComptimeIf { branches, orelse } => match {
                specialized_branch_list_resolved(templates, branches, consts, cx, 0, Seq::empty(), mono);
                specialized_branch_list(branches, consts, cx, 0, Seq::empty(), mono)
            } {
                Ok(out) => {
                    let (new_branches, mono) = out;
                    match {
                        specialized_opt_stmt_list_resolved(templates, orelse, consts, cx, mono);
                        specialized_opt_stmt_list(orelse, consts, cx, mono)
                    } {
                        Ok(out) => {
                            let (new_orelse, mono) = out;
                            Ok(
                                (
                                    StmtKindView::ComptimeIf {
                                        branches: new_branches,
                                        orelse: new_orelse,
                                    },
                                    mono,
                                )
                            )
                        },
                        Err(error) => Err(error),
                    }
                },
                Err(error) => Err(error),
            },
            _ => {
                specialized_stmt_kind_further_resolved(templates, stmt_kind, consts, cx, mono);
                specialized_stmt_kind_further(stmt_kind, consts, cx, mono)
            },
        }
    };
}

proof fn specialized_stmt_kind_further_resolved(
    templates: Seq<TemplateView>,
    stmt_kind: StmtKindView,
    consts: Seq<(Seq<char>, CtValueView)>,
    cx: CtContextView,
    mono: MonoView,
)
    ensures
        kind_resolved(templates, stmt_kind) ==> (match specialized_stmt_kind_further(stmt_kind, consts, cx, mono) {
            Ok(done) => kind_resolved(templates, done.0),
            Err(_) => true,
        }),
        bodies_resolved(templates, stmt_kind) ==> (match specialized_stmt_kind_further(stmt_kind, consts, cx, mono) {
            Ok(done) => bodies_resolved(templates, done.0),
            Err(_) => true,
        }),
    decreases stmt_kind, 1nat,
{
    let _ = {
        match stmt_kind {
            StmtKindView::While { cond, body, orelse } => match specialized_expr(
                cond,
                consts,
                cx,
                mono,
            ) {
                Ok(out) => {
                    let (new_cond, mono) = out;
                    match {
                        specialized_stmt_list_resolved(templates, body, consts, cx, 0, Seq::empty(), mono);
                        specialized_stmt_list(body, consts, cx, 0, Seq::empty(), mono)
                    } {
                        Ok(out) => {
                            let (new_body, mono) = out;
                            Ok((StmtKindView::While { cond: new_cond, body: new_body, orelse }, mono))
                        },
                        Err(error) => Err(error),
                    }
                },
                Err(error) => Err(error),
            },
            StmtKindView::For {
                var,
                reference,
                owned,
                iter,
                body,
                orelse,
            } => match specialized_expr(iter, consts, cx, mono) {
                Ok(out) => {
                    let (new_iter, mono) = out;
                    match {
                        specialized_stmt_list_resolved(templates, body, consts, cx, 0, Seq::empty(), mono);
                        specialized_stmt_list(body, consts, cx, 0, Seq::empty(), mono)
                    } {
                        Ok(out) => {
                            let (new_body, mono) = out;
                            Ok(
                                (
                                    StmtKindView::For {
                                        var,
                                        reference,
                                        owned,
                                        iter: new_iter,
                                        body: new_body,
                                        orelse,
                                    },
                                    mono,
                                )
                            )
                        },
                        Err(error) => Err(error),
                    }
                },
                Err(error) => Err(error),
            },
            StmtKindView::ComptimeFor { var, iter, body } => match specialized_expr(
                iter,
                consts,
                cx,
                mono,
            ) {
                Ok(out) => {
                    let (new_iter, mono) = out;
                    match {
                        specialized_stmt_list_resolved(templates, body, consts, cx, 0, Seq::empty(), mono);
                        specialized_stmt_list(body, consts, cx, 0, Seq::empty(), mono)
                    } {
                        Ok(out) => {
                            let (new_body, mono) = out;
                            Ok(
                                (
                                    StmtKindView::ComptimeFor { var, iter: new_iter, body: new_body },
                                    mono,
                                )
                            )
                        },
                        Err(error) => Err(error),
                    }
                },
                Err(error) => Err(error),
            },
            StmtKindView::Try { body, except, orelse, finalbody } => match {
                specialized_stmt_list_resolved(templates, body, consts, cx, 0, Seq::empty(), mono);
                specialized_stmt_list(body, consts, cx, 0, Seq::empty(), mono)
            } {
                Ok(out) => {
                    let (new_body, mono) = out;
                    match {
                        specialized_opt_opt_string_stmt_list_resolved(templates, except, consts, cx, mono);
                        specialized_opt_opt_string_stmt_list(except, consts, cx, mono)
                    } {
                        Ok(out) => {
                            let (new_except, mono) = out;
                            match {
                                specialized_opt_stmt_list_resolved(templates, orelse, consts, cx, mono);
                                specialized_opt_stmt_list(orelse, consts, cx, mono)
                            } {
                                Ok(out) => {
                                    let (new_orelse, mono) = out;
                                    match {
                                        specialized_opt_stmt_list_resolved(templates, finalbody, consts, cx, mono);
                                        specialized_opt_stmt_list(finalbody, consts, cx, mono)
                                    } {
                                        Ok(out) => {
                                            let (new_finalbody, mono) = out;
                                            Ok(
                                                (
                                                    StmtKindView::Try {
                                                        body: new_body,
                                                        except: new_except,
                                                        orelse: new_orelse,
                                                        finalbody: new_finalbody,
                                                    },
                                                    mono,
                                                )
                                            )
                                        },
                                        Err(error) => Err(error),
                                    }
                                },
                                Err(error) => Err(error),
                            }
                        },
                        Err(error) => Err(error),
                    }
                },
                Err(error) => Err(error),
            },
            StmtKindView::With { items, body } => match specialized_with_item_list(
                items,
                consts,
                cx,
                0,
                Seq::empty(),
                mono,
            ) {
                Ok(out) => {
                    let (new_items, mono) = out;
                    match {
                        specialized_stmt_list_resolved(templates, body, consts, cx, 0, Seq::empty(), mono);
                        specialized_stmt_list(body, consts, cx, 0, Seq::empty(), mono)
                    } {
                        Ok(out) => {
                            let (new_body, mono) = out;
                            Ok((StmtKindView::With { items: new_items, body: new_body }, mono))
                        },
                        Err(error) => Err(error),
                    }
                },
                Err(error) => Err(error),
            },
            StmtKindView::Def {
                name,
                decorators,
                type_params,
                params,
                positional_only,
                keyword_only,
                captures,
                raises,
                raises_type,
                ret,
                where_clause,
                body,
            } => match {
                specialized_stmt_list_resolved(templates, body, consts, cx, 0, Seq::empty(), mono);
                specialized_stmt_list(body, consts, cx, 0, Seq::empty(), mono)
            } {
                Ok(out) => {
                    let (new_body, mono) = out;
                    Ok(
                        (
                            StmtKindView::Def {
                                name,
                                decorators,
                                type_params,
                                params,
                                positional_only,
                                keyword_only,
                                captures,
                                raises,
                                raises_type,
                                ret,
                                where_clause,
                                body: new_body,
                            },
                            mono,
                        )
                    )
                },
                Err(error) => Err(error),
            },
            _ => {
                specialized_stmt_kind_rest_resolved(templates, stmt_kind, consts, cx, mono);
                specialized_stmt_kind_rest(stmt_kind, consts, cx, mono)
            },
        }
    };
}

proof fn specialized_stmt_kind_rest_resolved(
    templates: Seq<TemplateView>,
    stmt_kind: StmtKindView,
    consts: Seq<(Seq<char>, CtValueView)>,
    cx: CtContextView,
    mono: MonoView,
)
    ensures
        kind_resolved(templates, stmt_kind) ==> (match specialized_stmt_kind_rest(stmt_kind, consts, cx, mono) {
            Ok(done) => kind_resolved(templates, done.0),
            Err(_) => true,
        }),
        bodies_resolved(templates, stmt_kind) ==> (match specialized_stmt_kind_rest(stmt_kind, consts, cx, mono) {
            Ok(done) => bodies_resolved(templates, done.0),
            Err(_) => true,
        }),
    decreases stmt_kind, 0nat,
{
    let _ = {
        match stmt_kind {
            StmtKindView::Struct {
                name,
                decorators,
                type_params,
                conforms,
                callable_conformance,
                conformance_conditions,
                fields,
                associated,
                methods,
                fieldwise_init,
            } => match {
                specialized_method_list_resolved(templates, methods, consts, cx, 0, Seq::empty(), mono);
                specialized_method_list(methods, consts, cx, 0, Seq::empty(), mono)
            } {
                Ok(out) => {
                    let (new_methods, mono) = out;
                    Ok(
                        (
                            StmtKindView::Struct {
                                name,
                                decorators,
                                type_params,
                                conforms,
                                callable_conformance,
                                conformance_conditions,
                                fields,
                                associated,
                                methods: new_methods,
                                fieldwise_init,
                            },
                            mono,
                        )
                    )
                },
                Err(error) => Err(error),
            },
            _ => Ok((stmt_kind, mono)),
        }
    };
}

proof fn specialized_stmt_resolved(
    templates: Seq<TemplateView>,
    stmt: StmtView,
    consts: Seq<(Seq<char>, CtValueView)>,
    cx: CtContextView,
    mono: MonoView,
)
    ensures
        stmt_resolved(templates, stmt) ==> (match specialized_stmt(stmt, consts, cx, mono) {
            Ok(done) => stmt_resolved(templates, done.0),
            Err(_) => true,
        }),
        bodies_resolved(templates, stmt.kind) ==> (match specialized_stmt(stmt, consts, cx, mono) {
            Ok(done) => bodies_resolved(templates, done.0.kind),
            Err(_) => true,
        }),
    decreases stmt, 0nat,
{
    let _ = {
        match {
            specialized_stmt_kind_resolved(templates, stmt.kind, consts, cx, mono);
            specialized_stmt_kind(stmt.kind, consts, cx, mono)
        } {
            Ok(out) => {
                let (new_kind, mono) = out;
                Ok((StmtView { kind: new_kind, span: stmt.span, module: stmt.module }, mono))
            },
            Err(error) => Err(error),
        }
    };
}

proof fn single_resolved(
    templates: Seq<TemplateView>,
    kind: StmtKindView,
    span: Span,
)
    requires
        kind_resolved(templates, kind),
    ensures
        block_resolved(templates, single(kind, span)),
{
    reveal(single);
    reveal(unplaced);
    let _ = {
        seq![unplaced(kind, span)]
    };
}

proof fn constant_elaborated_resolved(
    templates: Seq<TemplateView>,
    name: Seq<char>,
    value: CtValueView,
    span: Span,
    in_fn: bool,
    st: ElabStateView,
)
    ensures
        block_resolved(templates, constant_elaborated(name, value, span, in_fn, st).0),
{
    reveal(constant_elaborated);
    let _ = {
        let top = if in_fn {
            st.top
        } else {
            and_value(st.top, name, value)
        };
        let env = and_value(st.env, name, value);
        let state = ElabStateView { fuel: st.fuel, env, top };
        let kept = match literal_of(value, span) {
            Some(literal) => {
                single_resolved(templates, StmtKindView::Comptime { name, value: literal }, span);
                single(StmtKindView::Comptime { name, value: literal }, span)
            },
            None => Seq::empty(),
        };
        (kept, state)
    };
}

proof fn stamped_by_resolved(
    templates: Seq<TemplateView>,
    stmts: Seq<StmtView>,
    module: Option<Seq<char>>,
)
    requires
        block_resolved(templates, stmts),
    ensures
        block_resolved(templates, stamped_by(stmts, module)),
{
    reveal(stamped_by);
    let _ = {
        match module {
            Some(source) => {
                stamped_stmt_list_resolved(templates, stmts, source, 0, Seq::empty());
                stamped_stmt_list(stmts, source, 0, Seq::empty())
            },
            None => stmts,
        }
    };
}

proof fn entering_resolved(
    templates: Seq<TemplateView>,
    item: WithItemView,
    manager: Seq<char>,
    span: Span,
)
    ensures
        stmt_resolved(templates, entering(item, manager, span)),
{
    reveal(entering);
    reveal(unplaced);
    let _ = {
        let enter = called_plainly(manager, "__enter__"@, span);
        match item.var {
            Some(name) => unplaced(StmtKindView::VarDecl { name, ty: None, value: enter }, span),
            None => unplaced(StmtKindView::Expr(enter), span),
        }
    };
}

proof fn inside_manager_resolved(
    templates: Seq<TemplateView>,
    item: WithItemView,
    k: usize,
    body: Seq<StmtView>,
    span: Span,
)
    requires
        block_resolved(templates, body),
    ensures
        block_resolved(templates, inside_manager(item, k, body, span)),
{
    reveal(inside_manager);
    reveal(unplaced);
    let _ = {
        let manager = "$with"@ + decimal(span.0 as nat) + "_"@ + decimal(k as nat);
        let bind = unplaced(
            StmtKindView::VarDecl { name: manager, ty: None, value: item.context },
            span,
        );
        let enter = {
            entering_resolved(templates, item, manager, span);
            entering(item, manager, span)
        };
        let leave = {
            single_resolved(templates, StmtKindView::Expr(called_plainly(manager, "__exit__"@, span)), span);
            single(StmtKindView::Expr(called_plainly(manager, "__exit__"@, span)), span)
        };
        let run = unplaced(
            StmtKindView::Try { body, except: None, orelse: None, finalbody: Some(leave) },
            span,
        );
        assert(bodies_resolved(templates, bind.kind));
        assert(opt_block_resolved(templates, Some(leave)));
        assert(handler_resolved(templates, None));
        assert(bodies_resolved(templates, run.kind));
        seq![bind, enter, run]
    };
}

proof fn inside_managers_resolved(
    templates: Seq<TemplateView>,
    items: Seq<WithItemView>,
    k: usize,
    body: Seq<StmtView>,
    span: Span,
)
    requires
        block_resolved(templates, body),
    ensures
        block_resolved(templates, inside_managers(items, k, body, span)),
    decreases k as nat,
{
    let _ = {
        if k > 0 && k <= items.len() {
            let inner = {
                inside_manager_resolved(templates, items[(k - 1) as usize as int], (k - 1) as usize, body, span);
                inside_manager(items[(k - 1) as usize as int], (k - 1) as usize, body, span)
            };
            {
                inside_managers_resolved(templates, items, (k - 1) as usize, inner, span);
                inside_managers(items, (k - 1) as usize, inner, span)
            }
        } else {
            body
        }
    };
}

proof fn block_elaborated_resolved(
    templates: Seq<TemplateView>,
    body: Seq<StmtView>,
    in_fn: bool,
    cx: CtContextView,
    depth: u32,
    i: nat,
    out: Seq<StmtView>,
    st: ElabStateView,
)
    requires
        templates == cx.templates,
        block_resolved(templates, out),
    ensures
        match block_elaborated(body, in_fn, cx, depth, i, out, st) {
            Ok(done) => block_resolved(templates, done.0),
            Err(_) => true,
        },
    decreases depth, body, (body.len() - i) as nat,
{
    let _ = {
        if i >= body.len() {
            Ok((out, st))
        } else {
            let stmt = body[i as int];
            match {
                stmt_elaborated_resolved(templates, stmt, in_fn, cx, st, depth);
                stmt_elaborated(stmt, in_fn, cx, st, depth)
            } {
                Ok(taken) => {
                    let (made, rest) = taken;
                    stamped_by_resolved(templates, made, stmt.module);
                    let out = (out + stamped_by(made, stmt.module));
                    let st = rest;
                    {
                        block_elaborated_resolved(templates, body, in_fn, cx, depth, i + 1, out, st);
                        block_elaborated(body, in_fn, cx, depth, i + 1, out, st)
                    }
                },
                Err(error) => Err(error),
            }
        }
    };
}

proof fn opt_block_elaborated_resolved(
    templates: Seq<TemplateView>,
    block: Option<Seq<StmtView>>,
    in_fn: bool,
    cx: CtContextView,
    st: ElabStateView,
    depth: u32,
)
    requires
        templates == cx.templates,
    ensures
        match opt_block_elaborated(block, in_fn, cx, st, depth) {
            Ok(done) => opt_block_resolved(templates, done.0),
            Err(_) => true,
        },
    decreases depth, block, 0nat,
{
    let _ = {
        match block {
            Some(body) => match {
                block_elaborated_resolved(templates, body, in_fn, cx, depth, 0, Seq::empty(), st);
                block_elaborated(body, in_fn, cx, depth, 0, Seq::empty(), st)
            } {
                Ok(out) => {
                    let (body, st) = out;
                    Ok((Some(body), st))
                },
                Err(error) => Err(error),
            },
            None => Ok((None, st)),
        }
    };
}

proof fn branches_elaborated_resolved(
    templates: Seq<TemplateView>,
    branches: Seq<(ExprView, Seq<StmtView>)>,
    in_fn: bool,
    cx: CtContextView,
    depth: u32,
    i: nat,
    out: Seq<(ExprView, Seq<StmtView>)>,
    st: ElabStateView,
)
    requires
        templates == cx.templates,
        branches_resolved(templates, out),
    ensures
        match branches_elaborated(branches, in_fn, cx, depth, i, out, st) {
            Ok(done) => branches_resolved(templates, done.0),
            Err(_) => true,
        },
    decreases depth, branches, (branches.len() - i) as nat,
{
    let _ = {
        if i >= branches.len() {
            Ok((out, st))
        } else {
            let branch = branches[i as int];
            match {
                block_elaborated_resolved(templates, branch.1, in_fn, cx, depth, 0, Seq::empty(), st);
                block_elaborated(branch.1, in_fn, cx, depth, 0, Seq::empty(), st)
            } {
                Ok(taken) => {
                    let (body, rest) = taken;
                    let out = out.push((branch.0, body));
                    let st = rest;
                    {
                        branches_elaborated_resolved(templates, branches, in_fn, cx, depth, i + 1, out, st);
                        branches_elaborated(branches, in_fn, cx, depth, i + 1, out, st)
                    }
                },
                Err(error) => Err(error),
            }
        }
    };
}

proof fn choice_elaborated_resolved(
    templates: Seq<TemplateView>,
    branches: Seq<(ExprView, Seq<StmtView>)>,
    in_fn: bool,
    cx: CtContextView,
    depth: u32,
    i: nat,
    st: ElabStateView,
)
    requires
        templates == cx.templates,
    ensures
        match choice_elaborated(branches, in_fn, cx, depth, i, st) {
            Ok(done) => opt_block_resolved(templates, done.0),
            Err(_) => true,
        },
    decreases depth, branches, (branches.len() - i) as nat,
{
    let _ = {
        if i >= branches.len() {
            Ok((None, st))
        } else {
            let branch = branches[i as int];
            match evaluated(branch.0, st.env, cx, st.fuel, 4294967295) {
                Ok(out) => {
                    let (value, fuel) = out;
                    match boolean_of(value, "comptime if condition"@) {
                        Ok(out) => {
                            let holds = out;
                            let st = fuel_set(st, fuel);
                            if holds {
                                {
                                    branch_chosen_resolved(templates, branch.1, in_fn, cx, st, depth);
                                    branch_chosen(branch.1, in_fn, cx, st, depth)
                                }
                            } else {
                                {
                                    choice_elaborated_resolved(templates, branches, in_fn, cx, depth, i + 1, st);
                                    choice_elaborated(branches, in_fn, cx, depth, i + 1, st)
                                }
                            }
                        },
                        Err(error) => Err(error),
                    }
                },
                Err(error) => Err(error.error),
            }
        }
    };
}

proof fn branch_chosen_resolved(
    templates: Seq<TemplateView>,
    body: Seq<StmtView>,
    in_fn: bool,
    cx: CtContextView,
    st: ElabStateView,
    depth: u32,
)
    requires
        templates == cx.templates,
    ensures
        match branch_chosen(body, in_fn, cx, st, depth) {
            Ok(done) => opt_block_resolved(templates, done.0),
            Err(_) => true,
        },
    decreases depth, body, (body.len() + 1) as nat,
{
    let _ = {
        match {
            block_elaborated_resolved(templates, body, in_fn, cx, depth, 0, Seq::empty(), st);
            block_elaborated(body, in_fn, cx, depth, 0, Seq::empty(), st)
        } {
            Ok(out) => {
                let (body, st) = out;
                Ok((Some(body), st))
            },
            Err(error) => Err(error),
        }
    };
}

proof fn if_elaborated_resolved(
    templates: Seq<TemplateView>,
    kind: StmtKindView,
    in_fn: bool,
    cx: CtContextView,
    st: ElabStateView,
    depth: u32,
)
    requires
        templates == cx.templates,
    ensures
        match if_elaborated(kind, in_fn, cx, st, depth) {
            Ok(done) => block_resolved(templates, done.0),
            Err(_) => true,
        },
    decreases depth, kind, 0nat,
{
    let _ = {
        match kind {
            StmtKindView::ComptimeIf { branches, orelse } => match {
                choice_elaborated_resolved(templates, branches, in_fn, cx, depth, 0, st);
                choice_elaborated(branches, in_fn, cx, depth, 0, st)
            } {
                Ok(out) => {
                    let (chosen, st) = out;
                    match chosen {
                        Some(body) => Ok((body, st)),
                        None => match {
                            opt_block_elaborated_resolved(templates, orelse, in_fn, cx, st, depth);
                            opt_block_elaborated(orelse, in_fn, cx, st, depth)
                        } {
                            Ok(out) => {
                                let (body, st) = out;
                                match body {
                                    Some(body) => Ok((body, st)),
                                    None => Ok((Seq::empty(), st)),
                                }
                            },
                            Err(error) => Err(error),
                        },
                    }
                },
                Err(error) => Err(error),
            },
            _ => Ok((Seq::empty(), st)),
        }
    };
}

proof fn unrolled_resolved(
    templates: Seq<TemplateView>,
    values: Seq<CtValueView>,
    var: Seq<char>,
    body: Seq<StmtView>,
    in_fn: bool,
    cx: CtContextView,
    depth: u32,
    i: nat,
    out: Seq<StmtView>,
    st: ElabStateView,
)
    requires
        templates == cx.templates,
        block_resolved(templates, out),
    ensures
        match unrolled(values, var, body, in_fn, cx, depth, i, out, st) {
            Ok(done) => block_resolved(templates, done.0),
            Err(_) => true,
        },
    decreases depth, values, (values.len() - i) as nat,
{
    let _ = {
        if i >= values.len() {
            Ok((out, st))
        } else {
            let value = values[i as int];
            match burnt(st.fuel) {
                Ok(taken) => {
                    let fuel = taken;
                    let st = fuel_set(st, fuel);
                    if depth == 0 {
                        Err(nested_too_deep())
                    } else {
                        let copy = {
                            rewritten_stmt_list_resolved(templates, body, subs_of_loop(var, value), false, 0, Seq::empty());
                            rewritten_stmt_list(body, subs_of_loop(var, value), false, 0, Seq::empty())
                        };
                        match {
                            block_elaborated_resolved(templates, copy, in_fn, cx, (depth - 1) as u32, 0, Seq::empty(), st);
                            block_elaborated(copy, in_fn, cx, (depth - 1) as u32, 0, Seq::empty(), st)
                        } {
                            Ok(taken) => {
                                let (made, rest) = taken;
                                let out = (out + made);
                                let st = rest;
                                {
                                    unrolled_resolved(templates, values, var, body, in_fn, cx, depth, i + 1, out, st);
                                    unrolled(values, var, body, in_fn, cx, depth, i + 1, out, st)
                                }
                            },
                            Err(error) => Err(error),
                        }
                    }
                },
                Err(error) => Err(error),
            }
        }
    };
}

proof fn for_elaborated_resolved(
    templates: Seq<TemplateView>,
    var: Seq<char>,
    iter: ExprView,
    body: Seq<StmtView>,
    in_fn: bool,
    cx: CtContextView,
    st: ElabStateView,
    depth: u32,
)
    requires
        templates == cx.templates,
    ensures
        match for_elaborated(var, iter, body, in_fn, cx, st, depth) {
            Ok(done) => block_resolved(templates, done.0),
            Err(_) => true,
        },
    decreases depth, iter, 0nat,
{
    let _ = {
        match evaluated_iter(iter, st.env, cx, st.fuel, 4294967295) {
            Ok(out) => {
                let (values, fuel) = out;
                if depth > 0 {
                    {
                        unrolled_resolved(templates, values, var, body, in_fn, cx, (depth - 1) as u32, 0, Seq::empty(), fuel_set(st, fuel));
                        unrolled(values, var, body, in_fn, cx, (depth - 1) as u32, 0, Seq::empty(), fuel_set(st, fuel))
                    }
                } else {
                    Err(nested_too_deep())
                }
            },
            Err(error) => Err(error.error),
        }
    };
}

proof fn methods_elaborated_resolved(
    templates: Seq<TemplateView>,
    methods: Seq<MethodView>,
    cx: CtContextView,
    depth: u32,
    i: nat,
    out: Seq<MethodView>,
    st: ElabStateView,
)
    requires
        templates == cx.templates,
        methods_resolved(templates, out),
    ensures
        match methods_elaborated(methods, cx, depth, i, out, st) {
            Ok(done) => methods_resolved(templates, done.0),
            Err(_) => true,
        },
    decreases depth, methods, (methods.len() - i) as nat,
{
    let _ = {
        if i >= methods.len() {
            Ok((out, st))
        } else {
            let method = methods[i as int];
            match {
                method_elaborated_resolved(templates, method, cx, st, depth);
                method_elaborated(method, cx, st, depth)
            } {
                Ok(taken) => {
                    let (made, rest) = taken;
                    let out = out.push(made);
                    let st = rest;
                    {
                        methods_elaborated_resolved(templates, methods, cx, depth, i + 1, out, st);
                        methods_elaborated(methods, cx, depth, i + 1, out, st)
                    }
                },
                Err(error) => Err(error),
            }
        }
    };
}

proof fn method_elaborated_resolved(
    templates: Seq<TemplateView>,
    method: MethodView,
    cx: CtContextView,
    st: ElabStateView,
    depth: u32,
)
    requires
        templates == cx.templates,
    ensures
        match method_elaborated(method, cx, st, depth) {
            Ok(done) => method_resolved(templates, done.0),
            Err(_) => true,
        },
    decreases depth, method, 0nat,
{
    let _ = {
        match {
            block_elaborated_resolved(templates, method.body, true, cx, depth, 0, Seq::empty(), st);
            block_elaborated(method.body, true, cx, depth, 0, Seq::empty(), st)
        } {
            Ok(out) => {
                let (body, st) = out;
                Ok(
                    (
                        MethodView {
                            name: method.name,
                            has_self: method.has_self,
                            self_convention: method.self_convention,
                            params: method.params,
                            positional_only: method.positional_only,
                            keyword_only: method.keyword_only,
                            raises_type: method.raises_type,
                            ret: method.ret,
                            body,
                        },
                        st,
                    )
                )
            },
            Err(error) => Err(error),
        }
    };
}

proof fn stmt_elaborated_resolved(
    templates: Seq<TemplateView>,
    stmt: StmtView,
    in_fn: bool,
    cx: CtContextView,
    st: ElabStateView,
    depth: u32,
)
    requires
        templates == cx.templates,
    ensures
        match stmt_elaborated(stmt, in_fn, cx, st, depth) {
            Ok(done) => block_resolved(templates, done.0),
            Err(_) => true,
        },
    decreases depth, stmt, 0nat,
{
    let _ = {
        match stmt.kind {
            StmtKindView::Comptime { name, value } => match evaluated(
                value,
                st.env,
                cx,
                st.fuel,
                4294967295,
            ) {
                Ok(out) => {
                    let (value, fuel) = out;
                    Ok({
                        constant_elaborated_resolved(templates, name, value, stmt.span, in_fn, fuel_set(st, fuel));
                        constant_elaborated(name, value, stmt.span, in_fn, fuel_set(st, fuel))
                    })
                },
                Err(error) => Err(error.error),
            },
            StmtKindView::ComptimeIf { .. } => {
                if_elaborated_resolved(templates, stmt.kind, in_fn, cx, st, depth);
                if_elaborated(stmt.kind, in_fn, cx, st, depth)
            },
            StmtKindView::ComptimeFor { var, iter, body } => if depth > 0 {
                {
                    for_elaborated_resolved(templates, var, iter, body, in_fn, cx, st, (depth - 1) as u32);
                    for_elaborated(var, iter, body, in_fn, cx, st, (depth - 1) as u32)
                }
            } else {
                Err(nested_too_deep())
            },
            StmtKindView::VarDecl { name, ty, value } => match annotation_resolved(ty, st.env) {
                Ok(out) => {
                    let ty = out;
                    Ok(({
                        single_resolved(templates, StmtKindView::VarDecl { name, ty, value }, stmt.span);
                        single(StmtKindView::VarDecl { name, ty, value }, stmt.span)
                    }, st))
                },
                Err(error) => Err(error),
            },
            StmtKindView::With { items, body } => match {
                block_elaborated_resolved(templates, body, in_fn, cx, depth, 0, Seq::empty(), st);
                block_elaborated(body, in_fn, cx, depth, 0, Seq::empty(), st)
            } {
                Ok(out) => {
                    let (body, st) = out;
                    Ok(({
                        inside_managers_resolved(templates, items, items.len() as usize, body, stmt.span);
                        inside_managers(items, items.len() as usize, body, stmt.span)
                    }, st))
                },
                Err(error) => Err(error),
            },
            StmtKindView::If { .. } => {
                compound_elaborated_resolved(templates, stmt.kind, stmt.span, in_fn, cx, st, depth);
                compound_elaborated(stmt.kind, stmt.span, in_fn, cx, st, depth)
            },
            StmtKindView::While { .. } => {
                compound_elaborated_resolved(templates, stmt.kind, stmt.span, in_fn, cx, st, depth);
                compound_elaborated(stmt.kind, stmt.span, in_fn, cx, st, depth)
            },
            StmtKindView::For { .. } => {
                compound_elaborated_resolved(templates, stmt.kind, stmt.span, in_fn, cx, st, depth);
                compound_elaborated(stmt.kind, stmt.span, in_fn, cx, st, depth)
            },
            StmtKindView::Try { .. } => {
                try_elaborated_resolved(templates, stmt.kind, stmt.span, in_fn, cx, st, depth);
                try_elaborated(stmt.kind, stmt.span, in_fn, cx, st, depth)
            },
            StmtKindView::Def { name, .. } => if template_named(cx.templates, name, 0, None) is Some {
                Ok((seq![stmt], st))
            } else {
                {
                    def_elaborated_resolved(templates, stmt.kind, stmt.span, cx, st, depth);
                    def_elaborated(stmt.kind, stmt.span, cx, st, depth)
                }
            },
            StmtKindView::Struct { .. } => {
                def_elaborated_resolved(templates, stmt.kind, stmt.span, cx, st, depth);
                def_elaborated(stmt.kind, stmt.span, cx, st, depth)
            },
            _ => Ok((seq![stmt], st)),
        }
    };
}

proof fn compound_elaborated_resolved(
    templates: Seq<TemplateView>,
    kind: StmtKindView,
    span: Span,
    in_fn: bool,
    cx: CtContextView,
    st: ElabStateView,
    depth: u32,
)
    requires
        templates == cx.templates,
    ensures
        match compound_elaborated(kind, span, in_fn, cx, st, depth) {
            Ok(done) => block_resolved(templates, done.0),
            Err(_) => true,
        },
    decreases depth, kind, 0nat,
{
    let _ = {
        match kind {
            StmtKindView::If { branches, orelse } => match {
                branches_elaborated_resolved(templates, branches, in_fn, cx, depth, 0, Seq::empty(), st);
                branches_elaborated(branches, in_fn, cx, depth, 0, Seq::empty(), st)
            } {
                Ok(out) => {
                    let (branches, st) = out;
                    match {
                        opt_block_elaborated_resolved(templates, orelse, in_fn, cx, st, depth);
                        opt_block_elaborated(orelse, in_fn, cx, st, depth)
                    } {
                        Ok(out) => {
                            let (orelse, st) = out;
                            Ok(({
                                single_resolved(templates, StmtKindView::If { branches, orelse }, span);
                                single(StmtKindView::If { branches, orelse }, span)
                            }, st))
                        },
                        Err(error) => Err(error),
                    }
                },
                Err(error) => Err(error),
            },
            StmtKindView::While { cond, body, orelse } => match {
                block_elaborated_resolved(templates, body, in_fn, cx, depth, 0, Seq::empty(), st);
                block_elaborated(body, in_fn, cx, depth, 0, Seq::empty(), st)
            } {
                Ok(out) => {
                    let (body, st) = out;
                    match {
                        opt_block_elaborated_resolved(templates, orelse, in_fn, cx, st, depth);
                        opt_block_elaborated(orelse, in_fn, cx, st, depth)
                    } {
                        Ok(out) => {
                            let (orelse, st) = out;
                            Ok(({
                                single_resolved(templates, StmtKindView::While { cond, body, orelse }, span);
                                single(StmtKindView::While { cond, body, orelse }, span)
                            }, st))
                        },
                        Err(error) => Err(error),
                    }
                },
                Err(error) => Err(error),
            },
            StmtKindView::For {
                var,
                reference,
                owned,
                iter,
                body,
                orelse,
            } => match {
                block_elaborated_resolved(templates, body, in_fn, cx, depth, 0, Seq::empty(), st);
                block_elaborated(body, in_fn, cx, depth, 0, Seq::empty(), st)
            } {
                Ok(out) => {
                    let (body, st) = out;
                    match {
                        opt_block_elaborated_resolved(templates, orelse, in_fn, cx, st, depth);
                        opt_block_elaborated(orelse, in_fn, cx, st, depth)
                    } {
                        Ok(out) => {
                            let (orelse, st) = out;
                            Ok(
                                (
                                    {
                                        single_resolved(templates, StmtKindView::For { var, reference, owned, iter, body, orelse }, span);
                                        single(StmtKindView::For { var, reference, owned, iter, body, orelse }, span)
                                    },
                                    st,
                                )
                            )
                        },
                        Err(error) => Err(error),
                    }
                },
                Err(error) => Err(error),
            },
            _ => Ok((Seq::empty(), st)),
        }
    };
}

proof fn handler_elaborated_resolved(
    templates: Seq<TemplateView>,
    except: Option<(Option<Seq<char>>, Seq<StmtView>)>,
    in_fn: bool,
    cx: CtContextView,
    st: ElabStateView,
    depth: u32,
)
    requires
        templates == cx.templates,
    ensures
        match handler_elaborated(except, in_fn, cx, st, depth) {
            Ok(done) => handler_resolved(templates, done.0),
            Err(_) => true,
        },
    decreases depth, except, 0nat,
{
    let _ = {
        match except {
            Some((name, body)) => match {
                block_elaborated_resolved(templates, body, in_fn, cx, depth, 0, Seq::empty(), st);
                block_elaborated(body, in_fn, cx, depth, 0, Seq::empty(), st)
            } {
                Ok(out) => {
                    let (body, st) = out;
                    Ok((Some((name, body)), st))
                },
                Err(error) => Err(error),
            },
            None => Ok((None, st)),
        }
    };
}

proof fn try_elaborated_resolved(
    templates: Seq<TemplateView>,
    kind: StmtKindView,
    span: Span,
    in_fn: bool,
    cx: CtContextView,
    st: ElabStateView,
    depth: u32,
)
    requires
        templates == cx.templates,
    ensures
        match try_elaborated(kind, span, in_fn, cx, st, depth) {
            Ok(done) => block_resolved(templates, done.0),
            Err(_) => true,
        },
    decreases depth, kind, 0nat,
{
    let _ = {
        match kind {
            StmtKindView::Try { body, except, orelse, finalbody } => match {
                block_elaborated_resolved(templates, body, in_fn, cx, depth, 0, Seq::empty(), st);
                block_elaborated(body, in_fn, cx, depth, 0, Seq::empty(), st)
            } {
                Ok(out) => {
                    let (body, st) = out;
                    match {
                        handler_elaborated_resolved(templates, except, in_fn, cx, st, depth);
                        handler_elaborated(except, in_fn, cx, st, depth)
                    } {
                        Ok(out) => {
                            let (except, st) = out;
                            match {
                                opt_block_elaborated_resolved(templates, orelse, in_fn, cx, st, depth);
                                opt_block_elaborated(orelse, in_fn, cx, st, depth)
                            } {
                                Ok(out) => {
                                    let (orelse, st) = out;
                                    match {
                                        opt_block_elaborated_resolved(templates, finalbody, in_fn, cx, st, depth);
                                        opt_block_elaborated(finalbody, in_fn, cx, st, depth)
                                    } {
                                        Ok(out) => {
                                            let (finalbody, st) = out;
                                            Ok(
                                                (
                                                    {
                                                        single_resolved(templates, StmtKindView::Try { body, except, orelse, finalbody, }, span);
                                                        single(StmtKindView::Try { body, except, orelse, finalbody, }, span)
                                                    },
                                                    st,
                                                )
                                            )
                                        },
                                        Err(error) => Err(error),
                                    }
                                },
                                Err(error) => Err(error),
                            }
                        },
                        Err(error) => Err(error),
                    }
                },
                Err(error) => Err(error),
            },
            _ => Ok((Seq::empty(), st)),
        }
    };
}

proof fn def_elaborated_resolved(
    templates: Seq<TemplateView>,
    kind: StmtKindView,
    span: Span,
    cx: CtContextView,
    st: ElabStateView,
    depth: u32,
)
    requires
        templates == cx.templates,
    ensures
        match def_elaborated(kind, span, cx, st, depth) {
            Ok(done) => block_resolved(templates, done.0),
            Err(_) => true,
        },
    decreases depth, kind, 0nat,
{
    let _ = {
        match kind {
            StmtKindView::Def {
                name,
                decorators,
                type_params,
                params,
                positional_only,
                keyword_only,
                captures,
                raises,
                raises_type,
                ret,
                where_clause,
                body,
            } => match {
                block_elaborated_resolved(templates, body, true, cx, depth, 0, Seq::empty(), st);
                block_elaborated(body, true, cx, depth, 0, Seq::empty(), st)
            } {
                Ok(out) => {
                    let (new_body, st) = out;
                    Ok(
                        (
                            {
                                single_resolved(templates, StmtKindView::Def { name, decorators, type_params, params, positional_only, keyword_only, captures, raises, raises_type, ret, where_clause, body: new_body, }, span);
                                single(StmtKindView::Def { name, decorators, type_params, params, positional_only, keyword_only, captures, raises, raises_type, ret, where_clause, body: new_body, }, span)
                            },
                            st,
                        )
                    )
                },
                Err(error) => Err(error),
            },
            StmtKindView::Struct {
                name,
                decorators,
                type_params,
                conforms,
                callable_conformance,
                conformance_conditions,
                fields,
                associated,
                methods,
                fieldwise_init,
            } => match {
                methods_elaborated_resolved(templates, methods, cx, depth, 0, Seq::empty(), st);
                methods_elaborated(methods, cx, depth, 0, Seq::empty(), st)
            } {
                Ok(out) => {
                    let (new_methods, st) = out;
                    Ok(
                        (
                            {
                                single_resolved(templates, StmtKindView::Struct { name, decorators, type_params, conforms, callable_conformance, conformance_conditions, fields, associated, methods: new_methods, fieldwise_init, }, span);
                                single(StmtKindView::Struct { name, decorators, type_params, conforms, callable_conformance, conformance_conditions, fields, associated, methods: new_methods, fieldwise_init, }, span)
                            },
                            st,
                        )
                    )
                },
                Err(error) => Err(error),
            },
            _ => Ok((Seq::empty(), st)),
        }
    };
}

proof fn spec_generated_resolved(
    template: TemplateView,
    vals: Seq<CtValueView>,
    cx: CtContextView,
    top: Seq<(Seq<char>, CtValueView)>,
    fuel: usize,
)
    ensures
        match spec_generated(template, vals, cx, top, fuel) {
            Ok(done) => bodies_resolved(cx.templates, done.0.kind),
            Err(_) => true,
        },
{
    reveal(spec_generated);
    reveal(body_of_spec);
    reveal(unplaced);
    reveal(materialized);
    if let StmtKindView::Def { type_params, params, body, .. } = template.def.kind {
        let decls = ct_params(type_params, 0, Seq::empty());
        if let Ok(packs) = packs_of_spec(vals, decls, 0, Seq::empty(), 0) {
            let env = and_pack_param(env_of_spec(vals, decls, 0, top, 0), params, vals, decls);
            let visible = values_visible(
                top,
                names_of_params(params, 0, Seq::empty()),
                0,
                Seq::empty(),
            );
            let subs = subs_of_spec(vals, decls, 0, visible, 0);
            let lengths = lengths_of_spec(params, packs, 0, Seq::empty());
            let start = ElabStateView { fuel, env, top };
            block_elaborated_resolved(
                cx.templates,
                body,
                true,
                cx,
                4294967295,
                0,
                Seq::empty(),
                start,
            );
            if let Ok(out) = block_elaborated(body, true, cx, 4294967295, 0, Seq::empty(), start) {
                rewritten_stmt_list_resolved(cx.templates, out.0, subs, true, 0, Seq::empty());
                let literal = materialized(out.0, subs);
                expanded_stmt_list_resolved(
                    cx.templates,
                    literal,
                    packs,
                    lengths,
                    0,
                    Seq::empty(),
                );
            }
        }
    }
}

proof fn spec_made_resolved(
    job: JobView,
    top: Seq<(Seq<char>, CtValueView)>,
    cx: CtContextView,
    mono: MonoView,
)
    ensures
        match spec_made(job, top, cx, mono) {
            Ok(done) => bodies_resolved(cx.templates, done.0.kind),
            Err(_) => true,
        },
{
    reveal(spec_made);
    if let Ok(fuel) = burnt(mono.fuel) {
        if let Some(template) = template_named(cx.templates, job.orig, 0, None) {
            spec_generated_resolved(template, job.vals, cx, top, fuel);
            if let Ok(out) = spec_generated(template, job.vals, cx, top, fuel) {
                let mono = MonoView { fuel: out.1, queue: mono.queue, done: mono.done };
                specialized_stmt_resolved(cx.templates, out.0, top, cx, mono);
            }
        }
    }
}

proof fn drained_resolved(
    at: usize,
    top: Seq<(Seq<char>, CtValueView)>,
    cx: CtContextView,
    mono: MonoView,
    made: Seq<MadeView>,
    left: usize,
)
    requires
        specs_resolved(cx.templates, made),
    ensures
        match drained(at, top, cx, mono, made, left) {
            Ok(done) => specs_resolved(cx.templates, done),
            Err(_) => true,
        },
    decreases left as nat,
{
    if at < mono.queue.len() && left > 0 {
        let job = mono.queue[at as int];
        spec_made_resolved(job, top, cx, mono);
        if let Ok(out) = spec_made(job, top, cx, mono) {
            reveal(and_made);
            let made = and_made(made, job.orig, out.0);
            drained_resolved(following_index(at), top, cx, out.1, made, (left - 1) as usize);
        }
    }
}

proof fn program_specialized_resolved(
    program: Seq<StmtView>,
    top: Seq<(Seq<char>, CtValueView)>,
    cx: CtContextView,
    i: nat,
    out: Seq<StmtView>,
    mono: MonoView,
)
    requires
        block_resolved(cx.templates, program),
        block_resolved(cx.templates, out),
    ensures
        match program_specialized(program, top, cx, i, out, mono) {
            Ok(done) => block_resolved(cx.templates, done.0),
            Err(_) => true,
        },
    decreases program, (program.len() - i) as nat,
{
    if i < program.len() {
        let stmt = program[i as int];
        reveal(specialized_unless_template);
        specialized_stmt_resolved(cx.templates, stmt, top, cx, mono);
        if let Ok(taken) = specialized_unless_template(stmt, top, cx, mono) {
            program_specialized_resolved(program, top, cx, i + 1, out.push(taken.0), taken.1);
        }
    }
}

proof fn specs_reversed_resolved(
    templates: Seq<TemplateView>,
    made: Seq<MadeView>,
    name: Seq<char>,
    count: usize,
    found: Seq<StmtView>,
)
    requires
        specs_resolved(templates, made),
        program_resolved(templates, found),
    ensures
        program_resolved(templates, specs_reversed(made, name, count, found)),
    decreases count as nat,
{
    if count > 0 && count <= made.len() {
        reveal(and_spec);
        let out = and_spec(found, made[(count - 1) as usize as int], name);
        specs_reversed_resolved(templates, made, name, (count - 1) as usize, out);
    }
}

proof fn templates_replaced_resolved(
    program: Seq<StmtView>,
    made: Seq<MadeView>,
    cx: CtContextView,
    i: nat,
    out: Seq<StmtView>,
    placed: Seq<Seq<char>>,
)
    requires
        block_resolved(cx.templates, program),
        specs_resolved(cx.templates, made),
        program_resolved(cx.templates, out),
    ensures
        program_resolved(
            cx.templates,
            templates_replaced(program, made, cx, i, out, placed),
        ),
    decreases program, (program.len() - i) as nat,
{
    reveal(template_stmt);
    if i < program.len() {
        let stmt = program[i as int];
        if template_stmt(stmt, cx) {
            let name = name_of_def(stmt);
            specs_reversed_resolved(cx.templates, made, name, made.len() as usize, out);
            let out = if !placed.contains(name) {
                specs_reversed(made, name, made.len() as usize, out)
            } else {
                out
            };
            templates_replaced_resolved(program, made, cx, i + 1, out, placed.push(name));
        } else {
            assert(stmt_resolved(cx.templates, stmt));
            templates_replaced_resolved(program, made, cx, i + 1, out.push(stmt), placed);
        }
    }
}

proof fn program_stamped_resolved(
    templates: Seq<TemplateView>,
    program: Seq<StmtView>,
    i: nat,
    out: Seq<StmtView>,
)
    requires
        program_resolved(templates, program),
        program_resolved(templates, out),
    ensures
        program_resolved(templates, program_stamped(program, i, out)),
    decreases program, (program.len() - i) as nat,
{
    if i < program.len() {
        let stmt = program[i as int];
        reveal(stamped_by_own);
        if let Some(source) = stmt.module {
            stamped_stmt_resolved(templates, stmt, source);
        }
        program_stamped_resolved(templates, program, i + 1, out.push(stamped_by_own(stmt)));
    }
}

proof fn monomorphized_resolved(
    program: Seq<StmtView>,
    cx: CtContextView,
    top: Seq<(Seq<char>, CtValueView)>,
    fuel: usize,
)
    requires
        block_resolved(cx.templates, program),
    ensures
        match monomorphized(program, cx, top, fuel) {
            Ok(done) => program_resolved(cx.templates, done),
            Err(_) => true,
        },
{
    reveal(monomorphized);
    if cx.templates.len() == 0 {
        assert forall|k: int| 0 <= k < program.len() implies bodies_resolved(
            cx.templates,
            (#[trigger] program[k]).kind,
        ) by {
            assert(stmt_resolved(cx.templates, program[k]));
        }
    } else {
        let start = MonoView { fuel, queue: Seq::empty(), done: Seq::empty() };
        program_specialized_resolved(program, top, cx, 0, Seq::empty(), start);
        if let Ok(out) = program_specialized(program, top, cx, 0, Seq::empty(), start) {
            drained_resolved(0, top, cx, out.1, Seq::empty(), past_quota());
            if let Ok(made) = drained(0, top, cx, out.1, Seq::empty(), past_quota()) {
                templates_replaced_resolved(out.0, made, cx, 0, Seq::empty(), Seq::empty());
            }
        }
    }
}

/// Elaboration leaves ordinary code: in the program that it makes no `comptime if`, no
/// `comptime for` and no `with` is left. The one place that is not resolved is a def inside
/// another statement that bears the name of a template.
pub proof fn elaborated_is_resolved(program: Seq<StmtView>, replies: Seq<CtReplyView>)
    ensures
        match elaborated(program, replies) {
            Ok(made) => program_resolved(known_of(program, replies).templates, made),
            Err(_) => true,
        },
{
    reveal(elaborated);
    reveal(materialized);
    let cx = known_of(program, replies);
    let templates = cx.templates;
    let start = ElabStateView { fuel: step_quota(), env: Seq::empty(), top: Seq::empty() };
    block_elaborated_resolved(
        templates,
        program,
        false,
        cx,
        4294967295,
        0,
        Seq::empty(),
        start,
    );
    if let Ok(out) = block_elaborated(program, false, cx, 4294967295, 0, Seq::empty(), start) {
        let (made, st) = out;
        rewritten_stmt_list_resolved(templates, made, st.top, true, 0, Seq::empty());
        let literal = materialized(made, st.top);
        monomorphized_resolved(literal, cx, st.top, st.fuel);
        if let Ok(special) = monomorphized(literal, cx, st.top, st.fuel) {
            program_stamped_resolved(templates, special, 0, Seq::empty());
        }
    }
}

} // verus!
