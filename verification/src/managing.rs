//! What becomes of a `with` statement.

use crate::ast::{ExprKindView, ExprView, StmtKindView, StmtView, WithItemView};
use crate::elaborate::{
    called_plainly, entering, expr_unplaced, inside_manager, inside_managers, single, unplaced,
};
use crate::token::Span;
use vstd::prelude::*;

verus! {

/// Whether an expression calls a method of a variable, without arguments.
pub open spec fn asks_variable(e: ExprView, object: Seq<char>, method: Seq<char>) -> bool {
    match e.kind {
        ExprKindView::MethodCall { object: receiver, method: called, args, kwargs } => {
            &&& receiver.kind == ExprKindView::Identifier(object)
            &&& called == method
            &&& args.len() == 0
            &&& kwargs.len() == 0
        },
        _ => false,
    }
}

/// Whether statements run others inside the managers of a `with`, from one of them on: the
/// manager is bound, then entered, and left last whatever happens in between.
pub open spec fn managed(
    items: Seq<WithItemView>,
    k: nat,
    body: Seq<StmtView>,
    stmts: Seq<StmtView>,
) -> bool
    decreases items.len() - k,
{
    if k >= items.len() {
        stmts == body
    } else {
        &&& stmts.len() == 3
        &&& stmts[0].kind matches StmtKindView::VarDecl { name: manager, ty: None, value }
        &&& value == items[k as int].context
        &&& match items[k as int].var {
            Some(var) => stmts[1].kind matches StmtKindView::VarDecl { name, ty: None, value: enter }
                && name == var && asks_variable(enter, manager, "__enter__"@),
            None => stmts[1].kind matches StmtKindView::Expr(enter) && asks_variable(
                enter,
                manager,
                "__enter__"@,
            ),
        }
        &&& stmts[2].kind matches StmtKindView::Try {
            body: inner,
            except: None,
            orelse: None,
            finalbody: Some(last),
        }
        &&& last.len() == 1
        &&& last[0].kind matches StmtKindView::Expr(leave)
        &&& asks_variable(leave, manager, "__exit__"@)
        &&& managed(items, k + 1, body, inner)
    }
}

proof fn one_is_managed(
    items: Seq<WithItemView>,
    k: usize,
    body: Seq<StmtView>,
    inner: Seq<StmtView>,
    span: Span,
)
    requires
        k < items.len(),
        managed(items, k as nat + 1, body, inner),
    ensures
        managed(items, k as nat, body, inside_manager(items[k as int], k, inner, span)),
{
    reveal(inside_manager);
    reveal(entering);
    reveal(called_plainly);
    reveal(single);
    reveal(unplaced);
    reveal(expr_unplaced);
}

proof fn rest_is_managed(
    items: Seq<WithItemView>,
    k: usize,
    body: Seq<StmtView>,
    inner: Seq<StmtView>,
    span: Span,
)
    requires
        k <= items.len(),
        managed(items, k as nat, body, inner),
    ensures
        managed(items, 0, body, inside_managers(items, k, inner, span)),
    decreases k,
{
    if k > 0 {
        let before = (k - 1) as usize;
        one_is_managed(items, before, body, inner, span);
        rest_is_managed(
            items,
            before,
            body,
            inside_manager(items[before as int], before, inner, span),
            span,
        );
    }
}

/// The body of a `with` is run inside its managers, the first one outermost.
pub proof fn body_is_managed(items: Seq<WithItemView>, body: Seq<StmtView>, span: Span)
    requires
        items.len() <= usize::MAX,
    ensures
        managed(items, 0, body, inside_managers(items, items.len() as usize, body, span)),
{
    rest_is_managed(items, items.len() as usize, body, body, span);
}

} // verus!
