//! How the blocks of a function may end.

use crate::flatten::slot_type;
use crate::mir::{MirDeclarationsView, MirFunctionView, MirTermView};
use crate::verify::{
    and_error, compatible, condition_errors, escape_errors, return_errors, target_errors,
    terminator_errors,
};
use vstd::prelude::*;

verus! {

/// Whether a block of a function ends as it may: it leads to blocks of the function, tests
/// what is known to be a truth value if anything is known of it, and returns what the
/// function declares.
pub open spec fn sound_end(
    term: MirTermView,
    function: MirFunctionView,
    declarations: MirDeclarationsView,
) -> bool {
    match term {
        MirTermView::Jump(to) => to < function.blocks.len(),
        MirTermView::Branch { cond, then_b, else_b } => {
            &&& then_b < function.blocks.len()
            &&& else_b < function.blocks.len()
            &&& slot_type(function.reg_types, cond.0) matches Some(ty) ==> ty is Bool
        },
        MirTermView::Return(Some(reg)) => function.returns_reference || match (
            slot_type(function.reg_types, reg.0),
            function.ret_ty,
        ) {
            (Some(found), Some(expected)) => compatible(declarations.coercions, found, expected),
            _ => true,
        },
        MirTermView::Return(None) => true,
        MirTermView::FallOff => false,
        MirTermView::EscapeJump { .. } => false,
    }
}

/// Nothing is found in the end of a block if and only if the block ends as it may.
pub proof fn end_is_sound(
    term: MirTermView,
    name: Seq<char>,
    function: MirFunctionView,
    declarations: MirDeclarationsView,
    block: usize,
)
    requires
        function.blocks.len() <= usize::MAX,
    ensures
        ({
            let n = function.blocks.len() as usize;
            let found = terminator_errors(
                term,
                name,
                function,
                declarations,
                block,
                n,
                n,
                false,
                Seq::empty(),
            );
            found.len() == 0 <==> sound_end(term, function, declarations)
        }),
{
    reveal(terminator_errors);
    reveal(and_error);
    reveal(target_errors);
    reveal(condition_errors);
    reveal(return_errors);
    reveal(escape_errors);
}

} // verus!
