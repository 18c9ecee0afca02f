//! Checked facts attached to expressions and statements.

use crate::ast::{
    Expr, ExprKind, ExprKindView, ExprView, Stmt, StmtKind, StmtKindView, StmtView, WithItem,
    WithItemView, clone_expr, clone_expr_list, expr_list_view, unfold_expr_kind, unfold_stmt_kind,
    with_item_list_view,
};
use crate::checked::{
    CheckedComprehensionBinding, CheckedComprehensionBindingView, CheckedExpr, CheckedExprView,
    CheckedNodeId, EffectFacts, EffectFactsView, IterationProtocol, IterationProtocolView,
    SemanticAdjustment, SemanticAdjustmentView, ValueCategory,
    checked_comprehension_binding_list_view, checked_expr_list_view,
    clone_checked_comprehension_binding_list, clone_effect_facts, clone_iteration_protocol,
    clone_semantic_adjustment_list, find_checked, find_node_at, node_by_id, node_id_at,
    semantic_adjustment_list_view, unfold_semantic_adjustment,
};
use crate::hir::{
    HirExpr, HirExprView, HirPlace, HirPlaceProjection, HirPlaceProjectionKind,
    HirPlaceProjectionKindView, HirPlaceProjectionView, HirPlaceView, HirStmt, HirStmtView,
    clone_hir_place_projection_list, hir_expr_list_view, hir_place_projection_list_view,
    unfold_hir_expr, unfold_hir_place, unfold_hir_stmt,
};
use crate::scopes::{rename_expr, renamed_expr, scope_list_view};
use crate::text::opt_view;
use crate::token::Span;
use crate::types::{Ty, TyView, clone_ty, clone_ty_list, ty_list_view, unfold_ty};
use vstd::prelude::*;

verus! {

/// The expressions a statement owns directly, in syntax order. Structured
/// statements and declarations own none.
#[verifier::opaque]
pub open spec fn statement_roots(stmt: StmtView) -> Seq<ExprView> {
    match stmt.kind {
        StmtKindView::VarDecl { value, .. } => seq![value],
        StmtKindView::RefDecl { value, .. } => seq![value],
        StmtKindView::Assign { value, .. } => seq![value],
        StmtKindView::Comptime { value, .. } => seq![value],
        StmtKindView::Raise(value) => seq![value],
        StmtKindView::Expr(value) => seq![value],
        StmtKindView::SetPlace { place, value } => seq![place, value],
        StmtKindView::AugAssign { place, value, .. } => seq![place, value],
        StmtKindView::Unpack { targets, value } => {
            let roots = targets;
            let roots = roots.push(value);
            roots
        },
        StmtKindView::Return(Some(value)) => seq![value],
        StmtKindView::With { items, .. } => contexts_of(items, 0, Seq::empty()),
        _ => Seq::empty(),
    }
}

/// See [`statement_roots`].
pub fn statement_expression_roots(stmt: &Stmt) -> (r: Vec<Expr>)
    ensures
        expr_list_view(r@) == statement_roots(stmt@),
{
    proof { reveal(statement_roots); }
    proof { unfold_stmt_kind(stmt.kind); }
    match &stmt.kind {
        StmtKind::VarDecl { value, .. } => {
            let item = clone_expr(value);
            let ghost seen = item@;
            let list = vec![item];
            assert(expr_list_view(list@) =~= seq![seen]);
            list
        },
        StmtKind::RefDecl { value, .. } => {
            let item2 = clone_expr(value);
            let ghost seen2 = item2@;
            let list2 = vec![item2];
            assert(expr_list_view(list2@) =~= seq![seen2]);
            list2
        },
        StmtKind::Assign { value, .. } => {
            let item3 = clone_expr(value);
            let ghost seen3 = item3@;
            let list3 = vec![item3];
            assert(expr_list_view(list3@) =~= seq![seen3]);
            list3
        },
        StmtKind::Comptime { value, .. } => {
            let item4 = clone_expr(value);
            let ghost seen4 = item4@;
            let list4 = vec![item4];
            assert(expr_list_view(list4@) =~= seq![seen4]);
            list4
        },
        StmtKind::Raise(value) => {
            let item5 = clone_expr(value);
            let ghost seen5 = item5@;
            let list5 = vec![item5];
            assert(expr_list_view(list5@) =~= seq![seen5]);
            list5
        },
        StmtKind::Expr(value) => {
            let item6 = clone_expr(value);
            let ghost seen6 = item6@;
            let list6 = vec![item6];
            assert(expr_list_view(list6@) =~= seq![seen6]);
            list6
        },
        StmtKind::SetPlace { place, value } => {
            let item7 = clone_expr(place);
            let item8 = clone_expr(value);
            let ghost seen7 = item7@;
            let ghost seen8 = item8@;
            let list7 = vec![item7, item8];
            assert(expr_list_view(list7@) =~= seq![seen7, seen8]);
            list7
        },
        StmtKind::AugAssign { place, value, .. } => {
            let item9 = clone_expr(place);
            let item10 = clone_expr(value);
            let ghost seen9 = item9@;
            let ghost seen10 = item10@;
            let list8 = vec![item9, item10];
            assert(expr_list_view(list8@) =~= seq![seen9, seen10]);
            list8
        },
        StmtKind::Unpack { targets, value } => {
            let mut roots = clone_expr_list(targets);
            let item11 = clone_expr(value);
            let ghost before = expr_list_view(roots@);
            let ghost added = item11@;
            roots.push(item11);
            assert(expr_list_view(roots@) =~= before.push(added));
            roots
        },
        StmtKind::Return(Some(value)) => {
            let item12 = clone_expr(value);
            let ghost seen11 = item12@;
            let list9 = vec![item12];
            assert(expr_list_view(list9@) =~= seq![seen11]);
            list9
        },
        StmtKind::With { items, .. } => with_contexts(items),
        _ => {
            assert(!(stmt.kind@ is VarDecl));
            assert(!(stmt.kind@ is RefDecl));
            assert(!(stmt.kind@ is Assign));
            assert(!(stmt.kind@ is Comptime));
            assert(!(stmt.kind@ is Raise));
            assert(!(stmt.kind@ is Expr));
            assert(!(stmt.kind@ is SetPlace));
            assert(!(stmt.kind@ is AugAssign));
            assert(!(stmt.kind@ is Unpack));
            assert(!(stmt.kind@ is With));
            let list10: Vec<Expr> = Vec::new();
            assert(expr_list_view(list10@) =~= Seq::<ExprView>::empty());
            list10
        },
    }
}

pub open spec fn contexts_of(
    items: Seq<WithItemView>,
    i: nat,
    out: Seq<ExprView>,
) -> Seq<ExprView>
    decreases items, (items.len() - i) as nat,
{
    if i >= items.len() {
        out
    } else {
        let item = items[i as int];
        let out = out.push(item.context);
        contexts_of(items, i + 1, out)
    }
}

/// See [`contexts_of`].
pub fn with_contexts(items: &Vec<WithItem>) -> (r: Vec<Expr>)
    ensures
        expr_list_view(r@) == contexts_of(with_item_list_view(items@), 0, Seq::<ExprView>::empty()),
    decreases items@, 0nat,
{
    let mut out: Vec<Expr> = Vec::new();
    assert(expr_list_view(out@) =~= Seq::<ExprView>::empty());
    let ghost goal = contexts_of(with_item_list_view(items@), 0, Seq::<ExprView>::empty());
    let mut i: usize = 0;
    while i < items.len()
        invariant
            i <= items@.len(),
            with_item_list_view(items@).len() == items@.len(),
            contexts_of(with_item_list_view(items@), i as nat, expr_list_view(out@)) == goal,
            goal == contexts_of(with_item_list_view(items@), 0, Seq::<ExprView>::empty()),
        decreases items@.len() - i,
    {
        let item = &items[i];
        assert(with_item_list_view(items@)[i as int] == item@);
        let item2 = clone_expr(&item.context);
        let ghost before = expr_list_view(out@);
        let ghost added = item2@;
        out.push(item2);
        assert(expr_list_view(out@) =~= before.push(added));
        i = i + 1;
    }
    out
}

/// An expression that no source text has.
#[verifier::opaque]
pub open spec fn made_expr(kind: ExprKindView, span: Span) -> ExprView {
    ExprView { kind, span, source: None }
}

/// See [`made_expr`].
pub fn expr_at(kind: ExprKind, span: Span) -> (r: Expr)
    ensures
        r@ == made_expr(kind@, span),
{
    proof { reveal(made_expr); }
    Expr { kind, span, source: None }
}

#[verifier::opaque]
pub open spec fn made_ident(name: Seq<char>) -> ExprView {
    made_expr(ExprKindView::Identifier(name), (0, 0))
}

/// See [`made_ident`].
pub fn ident(name: &String) -> (r: Expr)
    ensures
        r@ == made_ident(name@),
{
    proof { reveal(made_ident); }
    let kind = ExprKind::Identifier(name.clone());
    proof { unfold_expr_kind(kind); }
    expr_at(kind, (0, 0))
}

/// An expression without checked facts.
#[verifier::opaque]
pub open spec fn unchecked_expr(syntax: ExprView) -> HirExprView {
    HirExprView {
        syntax,
        checked: None,
        ty: None,
        category: ValueCategory::Value,
        effects: EffectFactsView { raises: None },
        adjustments: Seq::empty(),
        children: Seq::empty(),
        place: None,
        comprehension_bindings: Seq::empty(),
    }
}

/// See [`unchecked_expr`].
pub fn unchecked(syntax: Expr) -> (r: HirExpr)
    ensures
        r@ == unchecked_expr(syntax@),
{
    proof { reveal(unchecked_expr); }
    let list: Vec<SemanticAdjustment> = Vec::new();
    assert(semantic_adjustment_list_view(list@) =~= Seq::<SemanticAdjustmentView>::empty());
    let list2: Vec<HirExpr> = Vec::new();
    assert(hir_expr_list_view(list2@) =~= Seq::<HirExprView>::empty());
    let list3: Vec<CheckedComprehensionBinding> = Vec::new();
    assert(
        checked_comprehension_binding_list_view(list3@) =~= Seq::<CheckedComprehensionBindingView>::empty()
    );
    let expr = HirExpr {
        syntax,
        checked: None,
        ty: None,
        category: ValueCategory::Value,
        effects: EffectFacts { raises: None },
        adjustments: list,
        children: list2,
        place: None,
        comprehension_bindings: list3,
    };
    proof { unfold_hir_expr(expr); }
    expr
}

/// The projection to a variant alternative among adjustments.
pub open spec fn projected_variant(
    adjustments: Seq<SemanticAdjustmentView>,
    i: nat,
) -> Option<(Seq<TyView>, usize)>
    decreases adjustments, (adjustments.len() - i) as nat,
{
    if i >= adjustments.len() {
        None
    } else {
        let adjustment = adjustments[i as int];
        match adjustment {
            SemanticAdjustmentView::VariantProject {
                alternatives,
                index,
            } => Some((alternatives, index)),
            _ => projected_variant(adjustments, i + 1),
        }
    }
}

/// See [`projected_variant`].
pub fn variant_projection(
    adjustments: &Vec<SemanticAdjustment>,
) -> (r: Option<(Vec<Ty>, usize)>)
    ensures
        (
            match r { Some(v) => Some((ty_list_view(v.0@), v.1)), None => None }
        ) == projected_variant(semantic_adjustment_list_view(adjustments@), 0),
    decreases adjustments@, 0nat,
{
    let ghost goal = projected_variant(semantic_adjustment_list_view(adjustments@), 0);
    let mut i: usize = 0;
    while i < adjustments.len()
        invariant
            i <= adjustments@.len(),
            semantic_adjustment_list_view(adjustments@).len() == adjustments@.len(),
            projected_variant(semantic_adjustment_list_view(adjustments@), i as nat) == goal,
            goal == projected_variant(semantic_adjustment_list_view(adjustments@), 0),
        decreases adjustments@.len() - i,
    {
        let adjustment = &adjustments[i];
        assert(semantic_adjustment_list_view(adjustments@)[i as int] == adjustment@);
        proof { unfold_semantic_adjustment(*adjustment); }
        match adjustment {
            SemanticAdjustment::VariantProject { alternatives, index } => {
                return Some((clone_ty_list(alternatives), *index));
            },
            _ => {
                assert(!(adjustment@ is VariantProject));
            },
        }
        i = i + 1;
    }
    None
}

/// The loop protocol among adjustments.
pub open spec fn chosen_protocol(
    adjustments: Seq<SemanticAdjustmentView>,
    i: nat,
) -> Option<IterationProtocolView>
    decreases adjustments, (adjustments.len() - i) as nat,
{
    if i >= adjustments.len() {
        None
    } else {
        let adjustment = adjustments[i as int];
        match adjustment {
            SemanticAdjustmentView::Iterate(protocol) => Some(protocol),
            _ => chosen_protocol(adjustments, i + 1),
        }
    }
}

/// See [`chosen_protocol`].
pub fn iterate_protocol(adjustments: &Vec<SemanticAdjustment>) -> (r: Option<IterationProtocol>)
    ensures
        opt_view(r) == chosen_protocol(semantic_adjustment_list_view(adjustments@), 0),
    decreases adjustments@, 0nat,
{
    let ghost goal = chosen_protocol(semantic_adjustment_list_view(adjustments@), 0);
    let mut i: usize = 0;
    while i < adjustments.len()
        invariant
            i <= adjustments@.len(),
            semantic_adjustment_list_view(adjustments@).len() == adjustments@.len(),
            chosen_protocol(semantic_adjustment_list_view(adjustments@), i as nat) == goal,
            goal == chosen_protocol(semantic_adjustment_list_view(adjustments@), 0),
        decreases adjustments@.len() - i,
    {
        let adjustment = &adjustments[i];
        assert(semantic_adjustment_list_view(adjustments@)[i as int] == adjustment@);
        proof { unfold_semantic_adjustment(*adjustment); }
        match adjustment {
            SemanticAdjustment::Iterate(protocol) => {
                return Some(clone_iteration_protocol(protocol));
            },
            _ => {
                assert(!(adjustment@ is Iterate));
            },
        }
        i = i + 1;
    }
    None
}

/// The place a checked expression denotes: an identifier, or a member, index or
/// variant alternative of one. Chains longer than `fuel` denote none.
pub open spec fn place_of(
    checked: Seq<CheckedExprView>,
    node: CheckedExprView,
    fuel: usize,
) -> Option<HirPlaceView>
    decreases fuel,
{
    match node.syntax.kind {
        ExprKindView::Identifier(_) => match node.binding {
            Some(out) => {
                let owner = out;
                match node.place_ty {
                    Some(out) => {
                        let ty = out;
                        Some(HirPlaceView { owner, root_ty: ty, projections: Seq::empty(), ty })
                    },
                    None => None,
                }
            },
            None => None,
        },
        ExprKindView::Member { field, .. } => if node.children.len() == 0 || fuel == 0 {
            None
        } else {
            match node_by_id(checked, node.children[0]) {
                Some(out) => {
                    let base = out;
                    match place_of(checked, base, (fuel - 1) as usize) {
                        Some(out) => {
                            let place = out;
                            match node.place_ty {
                                Some(out) => {
                                    let ty = out;
                                    Some(
                                        projected_place(
                                            place,
                                            HirPlaceProjectionKindView::Field(field),
                                            ty,
                                        )
                                    )
                                },
                                None => None,
                            }
                        },
                        None => None,
                    }
                },
                None => None,
            }
        },
        ExprKindView::Index { .. } => if node.children.len() < 2 || fuel == 0 {
            None
        } else {
            match node_by_id(checked, node.children[0]) {
                Some(out) => {
                    let base = out;
                    let index = node.children[1];
                    match place_of(checked, base, (fuel - 1) as usize) {
                        Some(out) => {
                            let place = out;
                            match node.place_ty {
                                Some(out) => {
                                    let ty = out;
                                    Some(
                                        projected_place(
                                            place,
                                            HirPlaceProjectionKindView::Index(index),
                                            ty,
                                        )
                                    )
                                },
                                None => None,
                            }
                        },
                        None => None,
                    }
                },
                None => None,
            }
        },
        ExprKindView::TypeApply { .. } => match projected_variant(node.adjustments, 0) {
            Some(out) => {
                let (alternatives, index) = out;
                match node.place_ty {
                    Some(out) => {
                        let ty = out;
                        match node.binding {
                            Some(out) => {
                                let owner = out;
                                let variant = TyView::Variant(alternatives);
                                Some(
                                    HirPlaceView {
                                        owner,
                                        root_ty: variant,
                                        projections: seq![
                                            HirPlaceProjectionView {
                                                kind: HirPlaceProjectionKindView::Variant(index),
                                                base_ty: variant,
                                                ty,
                                            },
                                        ],
                                        ty,
                                    }
                                )
                            },
                            None => None,
                        }
                    },
                    None => None,
                }
            },
            None => None,
        },
        _ => None,
    }
}

/// See [`place_of`].
pub fn checked_place(
    checked: &Vec<CheckedExpr>,
    node: &CheckedExpr,
    fuel: usize,
) -> (r: Option<HirPlace>)
    ensures
        opt_view(r) == place_of(checked_expr_list_view(checked@), node@, fuel),
    decreases fuel,
{
    proof { unfold_expr_kind(node.syntax.kind); }
    match &node.syntax.kind {
        ExprKind::Identifier(_) => {
            let owner = match node.binding {
                Some(found) => found,
                None => {
                    return None;
                },
            };
            let ty = match (match (&node.place_ty) { Some(y) => Some(clone_ty(y)), None => None }) {
                Some(found) => found,
                None => {
                    return None;
                },
            };
            let list: Vec<HirPlaceProjection> = Vec::new();
            assert(
                hir_place_projection_list_view(list@) =~= Seq::<HirPlaceProjectionView>::empty()
            );
            let place2 = HirPlace { owner, root_ty: clone_ty(&ty), projections: list, ty };
            proof { unfold_hir_place(place2); }
            Some(place2)
        },
        ExprKind::Member { field, .. } => {
            if node.children.len() == 0 || fuel == 0 {
                return None;
            }
            let base = match find_checked(checked, node.children[0]) {
                Some(found) => found,
                None => {
                    return None;
                },
            };
            let place = match checked_place(checked, base, fuel - 1) {
                Some(found) => found,
                None => {
                    return None;
                },
            };
            let ty = match (match (&node.place_ty) { Some(y) => Some(clone_ty(y)), None => None }) {
                Some(found) => found,
                None => {
                    return None;
                },
            };
            Some(project_place(place, HirPlaceProjectionKind::Field(field.clone()), ty))
        },
        ExprKind::Index { .. } => {
            if node.children.len() < 2 || fuel == 0 {
                return None;
            }
            let base = match find_checked(checked, node.children[0]) {
                Some(found) => found,
                None => {
                    return None;
                },
            };
            let index = node.children[1];
            let place = match checked_place(checked, base, fuel - 1) {
                Some(found) => found,
                None => {
                    return None;
                },
            };
            let ty = match (match (&node.place_ty) { Some(y) => Some(clone_ty(y)), None => None }) {
                Some(found) => found,
                None => {
                    return None;
                },
            };
            Some(project_place(place, HirPlaceProjectionKind::Index(index), ty))
        },
        ExprKind::TypeApply { .. } => {
            let (alternatives, index) = match variant_projection(&node.adjustments) {
                Some(found) => found,
                None => {
                    return None;
                },
            };
            let ty = match (match (&node.place_ty) { Some(y) => Some(clone_ty(y)), None => None }) {
                Some(found) => found,
                None => {
                    return None;
                },
            };
            let owner = match node.binding {
                Some(found) => found,
                None => {
                    return None;
                },
            };
            let ty2 = Ty::Variant(alternatives);
            proof { unfold_ty(ty2); }
            let variant = ty2;
            let item = HirPlaceProjection {
                kind: HirPlaceProjectionKind::Variant(index),
                base_ty: clone_ty(&variant),
                ty: clone_ty(&ty),
            };
            let ghost seen = item@;
            let list2 = vec![item];
            assert(hir_place_projection_list_view(list2@) =~= seq![seen]);
            let place3 = HirPlace { owner, root_ty: clone_ty(&variant), projections: list2, ty };
            proof { unfold_hir_place(place3); }
            Some(place3)
        },
        _ => {
            assert(!(node.syntax.kind@ is Identifier));
            assert(!(node.syntax.kind@ is Member));
            assert(!(node.syntax.kind@ is Index));
            assert(!(node.syntax.kind@ is TypeApply));
            None
        },
    }
}

/// A place one projection further.
#[verifier::opaque]
pub open spec fn projected_place(
    place: HirPlaceView,
    kind: HirPlaceProjectionKindView,
    ty: TyView,
) -> HirPlaceView {
    let projections = place.projections;
    let projections = projections.push(HirPlaceProjectionView { kind, base_ty: place.ty, ty });
    HirPlaceView { owner: place.owner, root_ty: place.root_ty, projections, ty }
}

/// See [`projected_place`].
pub fn project_place(place: HirPlace, kind: HirPlaceProjectionKind, ty: Ty) -> (r: HirPlace)
    ensures
        r@ == projected_place(place@, kind@, ty@),
{
    proof { reveal(projected_place); }
    let mut projections = clone_hir_place_projection_list(&place.projections);
    let item = HirPlaceProjection { kind, base_ty: clone_ty(&place.ty), ty: clone_ty(&ty) };
    let ghost before = hir_place_projection_list_view(projections@);
    let ghost added = item@;
    projections.push(item);
    assert(hir_place_projection_list_view(projections@) =~= before.push(added));
    let place2 = HirPlace {
        owner: place.owner,
        root_ty: clone_ty(&place.root_ty),
        projections,
        ty,
    };
    proof { unfold_hir_place(place2); }
    place2
}

/// A checked node with its facts, and the same of its children to a depth of
/// `fuel`.
pub open spec fn hir_of_node(
    checked: Seq<CheckedExprView>,
    node: CheckedExprView,
    fuel: usize,
) -> HirExprView
    decreases fuel, 0nat,
{
    let children = if fuel == 0 {
        Seq::empty()
    } else {
        hir_of_children(checked, node.children, (fuel - 1) as usize, 0, Seq::empty())
    };
    HirExprView {
        syntax: node.syntax,
        checked: Some(node.id),
        ty: node.ty,
        category: node.category,
        effects: node.effects,
        adjustments: node.adjustments,
        children,
        place: place_of(checked, node, checked.len() as usize),
        comprehension_bindings: node.comprehension_bindings,
    }
}

/// See [`hir_of_node`].
pub fn checked_expr(checked: &Vec<CheckedExpr>, node: &CheckedExpr, fuel: usize) -> (r: HirExpr)
    ensures
        r@ == hir_of_node(checked_expr_list_view(checked@), node@, fuel),
    decreases fuel, 0nat,
{
    let children = if fuel == 0 {
        let list: Vec<HirExpr> = Vec::new();
        assert(hir_expr_list_view(list@) =~= Seq::<HirExprView>::empty());
        list
    } else {
        checked_children(checked, &node.children, fuel - 1)
    };
    let expr = HirExpr {
        syntax: clone_expr(&node.syntax),
        checked: Some(node.id),
        ty: (match (&node.ty) { Some(y) => Some(clone_ty(y)), None => None }),
        category: node.category,
        effects: clone_effect_facts(&node.effects),
        adjustments: clone_semantic_adjustment_list(&node.adjustments),
        children,
        place: checked_place(checked, node, checked.len()),
        comprehension_bindings: clone_checked_comprehension_binding_list(
            &node.comprehension_bindings
        ),
    };
    proof { unfold_hir_expr(expr); }
    expr
}

pub open spec fn hir_of_children(
    checked: Seq<CheckedExprView>,
    ids: Seq<CheckedNodeId>,
    fuel: usize,
    i: nat,
    out: Seq<HirExprView>,
) -> Seq<HirExprView>
    decreases fuel, (ids.len() - i) as nat,
{
    if i >= ids.len() {
        out
    } else {
        let id = ids[i as int];
        match node_by_id(checked, id) {
            Some(child) => {
                let out = out.push(hir_of_node(checked, child, fuel));
                hir_of_children(checked, ids, fuel, i + 1, out)
            },
            None => hir_of_children(checked, ids, fuel, i + 1, out),
        }
    }
}

/// See [`hir_of_children`].
pub fn checked_children(
    checked: &Vec<CheckedExpr>,
    ids: &Vec<CheckedNodeId>,
    fuel: usize,
) -> (r: Vec<HirExpr>)
    ensures
        hir_expr_list_view(r@) == hir_of_children(
            checked_expr_list_view(checked@),
            ids@,
            fuel,
            0,
            Seq::<HirExprView>::empty(),
        ),
    decreases fuel, 1nat,
{
    let mut out: Vec<HirExpr> = Vec::new();
    assert(hir_expr_list_view(out@) =~= Seq::<HirExprView>::empty());
    let ghost goal = hir_of_children(
        checked_expr_list_view(checked@),
        ids@,
        fuel,
        0,
        Seq::<HirExprView>::empty(),
    );
    let mut i: usize = 0;
    while i < ids.len()
        invariant
            i <= ids@.len(),
            hir_of_children(
                checked_expr_list_view(checked@),
                ids@,
                fuel,
                i as nat,
                hir_expr_list_view(out@),
            ) == goal,
            goal == hir_of_children(
                checked_expr_list_view(checked@),
                ids@,
                fuel,
                0,
                Seq::<HirExprView>::empty(),
            ),
        decreases ids@.len() - i,
    {
        let id = &ids[i];
        match find_checked(checked, *id) {
            Some(child) => {
                let item = checked_expr(checked, child, fuel);
                let ghost before = hir_expr_list_view(out@);
                let ghost added = item@;
                out.push(item);
                assert(hir_expr_list_view(out@) =~= before.push(added));
            },
            None => {},
        }
        i = i + 1;
    }
    out
}

/// An expression with its variables under their runtime names and the facts
/// recorded at its source position.
#[verifier::opaque]
pub open spec fn hir_of(
    checked: Seq<CheckedExprView>,
    scopes: Seq<Seq<(Seq<char>, Seq<char>)>>,
    e: ExprView,
) -> HirExprView {
    let syntax = renamed_expr(e, scopes);
    let found = match node_id_at(checked, e, 0) {
        Some(id) => node_by_id(checked, id),
        None => None,
    };
    match found {
        Some(node) => {
            let facts = hir_of_node(checked, node, checked.len() as usize);
            HirExprView {
                syntax,
                checked: facts.checked,
                ty: facts.ty,
                category: facts.category,
                effects: facts.effects,
                adjustments: facts.adjustments,
                children: facts.children,
                place: facts.place,
                comprehension_bindings: facts.comprehension_bindings,
            }
        },
        None => unchecked_expr(syntax),
    }
}

/// See [`hir_of`].
pub fn hir_expr(
    checked: &Vec<CheckedExpr>,
    scopes: &Vec<Vec<(String, String)>>,
    e: &Expr,
) -> (r: HirExpr)
    ensures
        r@ == hir_of(checked_expr_list_view(checked@), scope_list_view(scopes@), e@),
{
    proof { reveal(hir_of); }
    let syntax = rename_expr(e, scopes);
    let found = match find_node_at(checked, e) {
        Some(id) => find_checked(checked, id),
        None => None,
    };
    match found {
        Some(node) => {
            let facts = checked_expr(checked, node, checked.len());
            let expr = HirExpr {
                syntax,
                checked: facts.checked,
                ty: facts.ty,
                category: facts.category,
                effects: facts.effects,
                adjustments: facts.adjustments,
                children: facts.children,
                place: facts.place,
                comprehension_bindings: facts.comprehension_bindings,
            };
            proof { unfold_hir_expr(expr); }
            expr
        },
        None => unchecked(syntax),
    }
}

pub open spec fn hir_of_exprs(
    checked: Seq<CheckedExprView>,
    scopes: Seq<Seq<(Seq<char>, Seq<char>)>>,
    roots: Seq<ExprView>,
    i: nat,
    out: Seq<HirExprView>,
) -> Seq<HirExprView>
    decreases roots, (roots.len() - i) as nat,
{
    if i >= roots.len() {
        out
    } else {
        let root = roots[i as int];
        let out = out.push(hir_of(checked, scopes, root));
        hir_of_exprs(checked, scopes, roots, i + 1, out)
    }
}

/// See [`hir_of_exprs`].
pub fn hir_exprs(
    checked: &Vec<CheckedExpr>,
    scopes: &Vec<Vec<(String, String)>>,
    roots: &Vec<Expr>,
) -> (r: Vec<HirExpr>)
    ensures
        hir_expr_list_view(r@) == hir_of_exprs(
            checked_expr_list_view(checked@),
            scope_list_view(scopes@),
            expr_list_view(roots@),
            0,
            Seq::<HirExprView>::empty(),
        ),
    decreases roots@, 0nat,
{
    let mut out: Vec<HirExpr> = Vec::new();
    assert(hir_expr_list_view(out@) =~= Seq::<HirExprView>::empty());
    let ghost goal = hir_of_exprs(
        checked_expr_list_view(checked@),
        scope_list_view(scopes@),
        expr_list_view(roots@),
        0,
        Seq::<HirExprView>::empty(),
    );
    let mut i: usize = 0;
    while i < roots.len()
        invariant
            i <= roots@.len(),
            expr_list_view(roots@).len() == roots@.len(),
            hir_of_exprs(
                checked_expr_list_view(checked@),
                scope_list_view(scopes@),
                expr_list_view(roots@),
                i as nat,
                hir_expr_list_view(out@),
            ) == goal,
            goal == hir_of_exprs(
                checked_expr_list_view(checked@),
                scope_list_view(scopes@),
                expr_list_view(roots@),
                0,
                Seq::<HirExprView>::empty(),
            ),
        decreases roots@.len() - i,
    {
        let root = &roots[i];
        assert(expr_list_view(roots@)[i as int] == root@);
        let item = hir_expr(checked, scopes, root);
        let ghost before = hir_expr_list_view(out@);
        let ghost added = item@;
        out.push(item);
        assert(hir_expr_list_view(out@) =~= before.push(added));
        i = i + 1;
    }
    out
}

/// A statement kept whole, with the facts of the expressions it owns.
#[verifier::opaque]
pub open spec fn hir_of_stmt(
    checked: Seq<CheckedExprView>,
    scopes: Seq<Seq<(Seq<char>, Seq<char>)>>,
    syntax: StmtView,
) -> HirStmtView {
    let roots = statement_roots(syntax);
    let expressions = hir_of_exprs(checked, scopes, roots, 0, Seq::empty());
    HirStmtView { syntax, expressions }
}

/// See [`hir_of_stmt`].
pub fn hir_stmt(
    checked: &Vec<CheckedExpr>,
    scopes: &Vec<Vec<(String, String)>>,
    syntax: Stmt,
) -> (r: HirStmt)
    ensures
        r@ == hir_of_stmt(checked_expr_list_view(checked@), scope_list_view(scopes@), syntax@),
{
    proof { reveal(hir_of_stmt); }
    let roots = statement_expression_roots(&syntax);
    let expressions = hir_exprs(checked, scopes, &roots);
    let stmt = HirStmt { syntax, expressions };
    proof { unfold_hir_stmt(stmt); }
    stmt
}

} // verus!
