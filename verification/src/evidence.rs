//! The types that are evident of operations and lists are those of their values.

use crate::ast::InfixOp;
use crate::mono::{bool_operator, int_and_float, type_of_list, type_of_operation, types_all_same};
use crate::types::TyView;
use crate::values::{
    equality_of, float_operator, higher_rank, int_if_fits, int_operator, int_powered, number_of,
    number_operator, operator_on, operator_on_plain, operator_on_scalars, orders, rank_of,
    KnownView, ValueView,
};
use vstd::prelude::*;

verus! {

/// Whether a value is of a type.
pub open spec fn is_of(value: ValueView, ty: TyView) -> bool
    decreases value,
{
    match ty {
        TyView::Int => value is Int,
        TyView::Float64 => value is Float64,
        TyView::Bool => value is Bool,
        TyView::String => value is Str,
        TyView::NoneTy => value is NoneValue,
        TyView::Tuple(types) => match value {
            ValueView::Tuple(items) => items.len() == types.len() && forall|k: int|
                0 <= k < items.len() ==> is_of(#[trigger] items[k], types[k]),
            _ => false,
        },
        _ => false,
    }
}

/// The type that is evident of an operation is the type of what the operator makes of operands
/// of the types that are evident of them; but for true division and membership, whose values are
/// of other types, and for the two operators that decide without one operand.
pub proof fn operation_is_of(
    op: InfixOp,
    a: ValueView,
    b: ValueView,
    left: TyView,
    right: TyView,
    known: Seq<KnownView>,
)
    requires
        is_of(a, left),
        is_of(b, right),
        !(op is Div || op is In || op is NotIn || op is And || op is Or),
        operator_on(op, a, b, known) is Ok,
        type_of_operation(op, left, right) is Ok,
    ensures
        is_of(operator_on(op, a, b, known)->Ok_0, type_of_operation(op, left, right)->Ok_0),
{
    reveal(operator_on);
    reveal(operator_on_scalars);
    reveal(operator_on_plain);
    reveal(equality_of);
    reveal(number_of);
    reveal(number_operator);
    reveal(higher_rank);
    reveal(rank_of);
    reveal(int_operator);
    reveal(int_if_fits);
    reveal(int_powered);
    reveal(float_operator);
    reveal(orders);
    reveal(type_of_operation);
    reveal(bool_operator);
    reveal(int_and_float);
}

/// The type of a list is that of all its elements, and there is none without elements or with
/// elements of different types.
pub proof fn list_has_one_type(types: Seq<TyView>)
    ensures
        match type_of_list(types) {
            Ok(TyView::List(ty)) => types.len() > 0 && forall|k: int|
                0 <= k < types.len() ==> #[trigger] types[k] == *ty,
            Ok(_) => false,
            Err(_) => types.len() == 0 || exists|k: int|
                0 <= k < types.len() && #[trigger] types[k] != types[0],
        },
{
    reveal(type_of_list);
    if types.len() > 0 {
        types_are_compared(types, types[0], 0);
    }
}

proof fn types_are_compared(types: Seq<TyView>, first: TyView, i: nat)
    ensures
        types_all_same(types, first, i) <==> forall|k: int|
            i <= k < types.len() ==> #[trigger] types[k] == first,
    decreases types.len() - i,
{
    if i < types.len() {
        types_are_compared(types, first, i + 1);
        assert(types[i as int] == first || types[i as int] != first);
    }
}

} // verus!
