//! The names that an expression refers to by itself and through its only operand.

use crate::ast::{ExprKindView, ExprView};
use crate::nested::referred;
use vstd::prelude::*;

verus! {

/// The names an expression refers to.
pub open spec fn names_in(e: ExprView) -> Seq<Seq<char>> {
    referred(e, Seq::empty())
}

/// A name refers to itself, a literal to nothing, and an expression with one operand to what the
/// operand refers to.
pub proof fn operand_refers(e: ExprView)
    ensures
        match e.kind {
            ExprKindView::Identifier(name) => names_in(e) == seq![name],
            ExprKindView::Int(_) => names_in(e).len() == 0,
            ExprKindView::Str(_) => names_in(e).len() == 0,
            ExprKindView::Prefix(_, a) => names_in(e) == names_in(*a),
            ExprKindView::Transfer(a) => names_in(e) == names_in(*a),
            ExprKindView::Member { object, .. } => names_in(e) == names_in(*object),
            ExprKindView::Named { value, .. } => names_in(e) == names_in(*value),
            _ => true,
        },
{
    assert(Seq::<Seq<char>>::empty().push(e.kind->Identifier_0) =~= seq![e.kind->Identifier_0]);
}

} // verus!
