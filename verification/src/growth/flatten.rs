//! Flattening only adds registers, slots and blocks: the steps it is made of.

use crate::ast::{CaptureKind, CaptureView, ExprView};
use crate::flatten::{
    FlattenView, LoanView, NestedInfoView, alias_of, at_block, bears_origin, bound_slot,
    captured_places, defined, emitted, ended, fresh_reg, fresh_slot, holds_slot, interned,
    known_any_ty, lowered_closure, lowered_constant, lowered_identifier, lowered_read,
    marked_unsupported, names_function, nested_named, open_block, opened, place_of_handle,
    place_of_name, place_of_slot, place_of_use, resolved_target, slot_of_use, slot_type, with_alias,
    with_loans, with_opt_var_type, with_owner_var, with_reg_type, with_root_ty, with_runtime_alias,
    with_var_type,
};
use crate::growth::starts_with;
use crate::hir::HirExprView;
use crate::mir::{
    Const, ConstView, MirBlockView, MirClosureCaptureView, MirInstrView, MirTermView, Reg,
    RegOriginView, UseMode, accessed_through, whole_place,
};
use crate::origin::OwnerId;
use crate::scopes::slot_of;
use crate::text::decimal;
use crate::token::Span;
use crate::types::TyView;
use vstd::prelude::*;

verus! {

/// Whether a state of flattening has what another has: registers and slots are still
/// there, under their numbers, no block is gone, and what did not find room is not there
/// again.
pub open spec fn larger(from: FlattenView, s: FlattenView) -> bool {
    &&& starts_with(s.vars, from.vars)
    &&& starts_with(s.spans, from.spans)
    &&& from.blocks.len() <= s.blocks.len()
    &&& s.complete ==> from.complete
}

/// Whether a state of flattening goes on from another: it has what the other has, and of the
/// other's blocks only the current one has changed.
pub open spec fn grown(from: FlattenView, s: FlattenView) -> bool {
    &&& larger(from, s)
    &&& s.blocks.len() <= usize::MAX ==> kept(from, s)
}

/// Whether the blocks of a state are still there in another, but for what was added to the
/// current one.
pub open spec fn kept(from: FlattenView, s: FlattenView) -> bool {
    &&& s.cur == from.cur || from.blocks.len() <= s.cur
    &&& from.cur < from.blocks.len() ==> s.cur < s.blocks.len()
    &&& forall|b: int|
        0 <= b < from.blocks.len() && b != from.cur ==> #[trigger] s.blocks[b] == from.blocks[b]
    &&& from.cur < from.blocks.len() ==> starts_with(
        s.blocks[from.cur as int].instrs,
        from.blocks[from.cur as int].instrs,
    )
}

/// Whether clauses go on in blocks of a range.
pub open spec fn ends_within(ends: Seq<(usize, usize)>, n: nat, m: nat) -> bool {
    forall|k: int| 0 <= k < ends.len() ==> n <= (#[trigger] ends[k]).1 < m
}

pub(crate) proof fn fresh_reg_grows(
    from: FlattenView,
    s: FlattenView,
    span: Span,
    source: Option<Seq<char>>,
    var: Option<u32>,
)
    requires
        grown(from, s),
    ensures
        grown(from, fresh_reg(s, span, source, var).0),
        s.blocks.len() <= fresh_reg(s, span, source, var).0.blocks.len(),
{
    reveal(fresh_reg);
    let _ = {
        if s.spans.len() < u32::MAX {
            (
                FlattenView { spans: s.spans.push(RegOriginView { span, source, var }), ..s },
                Reg(s.spans.len() as u32),
            )
        } else {
            (FlattenView { complete: false, ..s }, Reg(u32::MAX))
        }
    };
}

pub(crate) proof fn emitted_grows(
    from: FlattenView,
    s: FlattenView,
    instr: MirInstrView,
)
    requires
        grown(from, s),
    ensures
        grown(from, emitted(s, instr)),
        s.blocks.len() <= emitted(s, instr).blocks.len(),
{
    reveal(emitted);
    let _ = {
        if s.cur < s.blocks.len() {
            let block = s.blocks[s.cur as int];
            FlattenView {
                blocks: s.blocks.update(
                    s.cur as int,
                    MirBlockView { instrs: block.instrs.push(instr), term: block.term },
                ),
                ..s
            }
        } else {
            s
        }
    };
}

pub(crate) proof fn ended_grows(
    from: FlattenView,
    s: FlattenView,
    term: MirTermView,
)
    requires
        grown(from, s),
    ensures
        grown(from, ended(s, term)),
        s.blocks.len() <= ended(s, term).blocks.len(),
{
    reveal(ended);
    let _ = {
        if s.cur < s.blocks.len() {
            let block = s.blocks[s.cur as int];
            FlattenView {
                blocks: s.blocks.update(s.cur as int, MirBlockView { instrs: block.instrs, term }),
                ..s
            }
        } else {
            s
        }
    };
}

pub(crate) proof fn opened_grows(
    from: FlattenView,
    s: FlattenView,
)
    requires
        grown(from, s),
    ensures
        grown(from, opened(s).0),
        s.blocks.len() <= opened(s).0.blocks.len(),
        s.blocks.len() <= usize::MAX ==> from.blocks.len() <= opened(s).1 < opened(s).0.blocks.len(),
{
    reveal(opened);
    let _ = {
        (FlattenView { blocks: s.blocks.push(open_block()), ..s }, s.blocks.len() as usize)
    };
}

pub(crate) proof fn interned_grows(
    from: FlattenView,
    s: FlattenView,
    name: Seq<char>,
)
    requires
        grown(from, s),
    ensures
        grown(from, interned(s, name).0),
        s.blocks.len() <= interned(s, name).0.blocks.len(),
{
    reveal(interned);
    let _ = {
        match slot_of(s.vars, name, 0) {
            Some(i) => (s, i as u32),
            None => (FlattenView { vars: s.vars.push(name), ..s }, s.vars.len() as u32),
        }
    };
}

pub(crate) proof fn with_var_type_grows(
    from: FlattenView,
    s: FlattenView,
    var: u32,
    ty: TyView,
)
    requires
        grown(from, s),
    ensures
        grown(from, with_var_type(s, var, ty)),
        s.blocks.len() <= with_var_type(s, var, ty).blocks.len(),
{
    reveal(with_var_type);
    let _ = {
        let s = FlattenView { var_types: s.var_types.push((var, ty)), ..s };
        s
    };
}

pub(crate) proof fn with_opt_var_type_grows(
    from: FlattenView,
    s: FlattenView,
    var: u32,
    ty: Option<TyView>,
)
    requires
        grown(from, s),
    ensures
        grown(from, with_opt_var_type(s, var, ty)),
        s.blocks.len() <= with_opt_var_type(s, var, ty).blocks.len(),
{
    reveal(with_opt_var_type);
    let _ = {
        match ty {
            Some(ty) => {
                let s = {
                    with_var_type_grows(from, s, var, ty);
                    with_var_type(s, var, ty)
                };
                s
            },
            None => s,
        }
    };
}

pub(crate) proof fn with_reg_type_grows(
    from: FlattenView,
    s: FlattenView,
    reg: Reg,
    ty: Option<TyView>,
)
    requires
        grown(from, s),
    ensures
        grown(from, with_reg_type(s, reg, ty)),
        s.blocks.len() <= with_reg_type(s, reg, ty).blocks.len(),
{
    reveal(with_reg_type);
    let _ = {
        match ty {
            Some(ty) => {
                let s = FlattenView { reg_types: s.reg_types.push((reg.0, ty)), ..s };
                s
            },
            None => s,
        }
    };
}

pub(crate) proof fn with_owner_var_grows(
    from: FlattenView,
    s: FlattenView,
    owner: OwnerId,
    var: u32,
)
    requires
        grown(from, s),
    ensures
        grown(from, with_owner_var(s, owner, var)),
        s.blocks.len() <= with_owner_var(s, owner, var).blocks.len(),
{
    reveal(with_owner_var);
    let _ = {
        let s = FlattenView { owner_vars: s.owner_vars.push((owner, var)), ..s };
        s
    };
}

pub(crate) proof fn with_alias_grows(
    from: FlattenView,
    s: FlattenView,
    var: u32,
    loan: LoanView,
)
    requires
        grown(from, s),
    ensures
        grown(from, with_alias(s, var, loan)),
        s.blocks.len() <= with_alias(s, var, loan).blocks.len(),
{
    reveal(with_alias);
    let _ = {
        let s = FlattenView { aliases: s.aliases.push((var, loan)), ..s };
        s
    };
}

pub(crate) proof fn with_loans_grows(
    from: FlattenView,
    s: FlattenView,
    var: u32,
    loans: Seq<LoanView>,
)
    requires
        grown(from, s),
    ensures
        grown(from, with_loans(s, var, loans)),
        s.blocks.len() <= with_loans(s, var, loans).blocks.len(),
{
    reveal(with_loans);
    let _ = {
        let s = FlattenView { aggregate_loans: s.aggregate_loans.push((var, loans)), ..s };
        s
    };
}

pub(crate) proof fn with_runtime_alias_grows(
    from: FlattenView,
    s: FlattenView,
    var: u32,
)
    requires
        grown(from, s),
    ensures
        grown(from, with_runtime_alias(s, var)),
        s.blocks.len() <= with_runtime_alias(s, var).blocks.len(),
{
    reveal(with_runtime_alias);
    let _ = {
        let s = FlattenView { runtime_aliases: s.runtime_aliases.push(var), ..s };
        s
    };
}

pub(crate) proof fn at_block_grows(
    from: FlattenView,
    s: FlattenView,
    block: usize,
)
    requires
        grown(from, s),
        s.blocks.len() <= usize::MAX ==> block == from.cur || from.blocks.len() <= block < s.blocks.len(),
    ensures
        grown(from, at_block(s, block)),
        s.blocks.len() <= at_block(s, block).blocks.len(),
{
    reveal(at_block);
    let _ = {
        let s = FlattenView { cur: block, ..s };
        s
    };
}

pub(crate) proof fn fresh_slot_grows(
    from: FlattenView,
    s: FlattenView,
)
    requires
        grown(from, s),
    ensures
        grown(from, fresh_slot(s).0),
        s.blocks.len() <= fresh_slot(s).0.blocks.len(),
{
    reveal(fresh_slot);
    let _ = {
        let count = s.vars.len() as usize;
        let name = "$sc"@ + decimal(count as nat);
        let s = FlattenView { vars: s.vars.push(name), ..s };
        (s, count as u32)
    };
}

pub(crate) proof fn slot_of_use_grows(
    from: FlattenView,
    s: FlattenView,
    name: Seq<char>,
    h: Option<HirExprView>,
)
    requires
        grown(from, s),
    ensures
        grown(from, slot_of_use(s, name, h).0),
        s.blocks.len() <= slot_of_use(s, name, h).0.blocks.len(),
{
    reveal(slot_of_use);
    let _ = {
        let bound = bound_slot(s, h);
        match bound {
            Some(var) => (s, var),
            None => {
                interned_grows(from, s, name);
                interned(s, name)
            },
        }
    };
}

pub(crate) proof fn place_of_name_grows(
    from: FlattenView,
    s: FlattenView,
    name: Seq<char>,
)
    requires
        grown(from, s),
    ensures
        grown(from, place_of_name(s, name).0),
        s.blocks.len() <= place_of_name(s, name).0.blocks.len(),
{
    reveal(place_of_name);
    let _ = {
        let (s, var) = {
            interned_grows(from, s, name);
            interned(s, name)
        };
        (s, place_of_slot(s, var))
    };
}

pub(crate) proof fn place_of_use_grows(
    from: FlattenView,
    s: FlattenView,
    name: Seq<char>,
    h: Option<HirExprView>,
)
    requires
        grown(from, s),
    ensures
        grown(from, place_of_use(s, name, h).0),
        s.blocks.len() <= place_of_use(s, name, h).0.blocks.len(),
{
    reveal(place_of_use);
    let _ = {
        let bound = bound_slot(s, h);
        let (s, place) = match bound {
            Some(var) => (s, place_of_slot(s, var)),
            None => {
                place_of_name_grows(from, s, name);
                place_of_name(s, name)
            },
        };
        if place.root_ty is None {
            let ty = known_any_ty(h);
            let s = {
                with_opt_var_type_grows(from, s, place.root, ty);
                with_opt_var_type(s, place.root, ty)
            };
            (s, with_root_ty(place, ty))
        } else {
            (s, place)
        }
    };
}

pub(crate) proof fn lowered_constant_grows(
    from: FlattenView,
    s: FlattenView,
    e: ExprView,
    k: ConstView,
)
    requires
        grown(from, s),
    ensures
        grown(from, lowered_constant(s, e, k).0),
        s.blocks.len() <= lowered_constant(s, e, k).0.blocks.len(),
{
    reveal(lowered_constant);
    let _ = {
        let (s, dest) = {
            fresh_reg_grows(from, s, e.span, e.source, None);
            fresh_reg(s, e.span, e.source, None)
        };
        let s = {
            emitted_grows(from, s, MirInstrView::Const { dest, k });
            emitted(s, MirInstrView::Const { dest, k })
        };
        (s, dest)
    };
}

pub(crate) proof fn defined_grows(
    from: FlattenView,
    s: FlattenView,
    var: u32,
    src: Reg,
    ty: Option<TyView>,
)
    requires
        grown(from, s),
    ensures
        grown(from, defined(s, var, src, ty)),
        s.blocks.len() <= defined(s, var, src, ty).blocks.len(),
{
    reveal(defined);
    let _ = {
        let s = {
            emitted_grows(from, s, MirInstrView::DefVar { var, src, binding_ty: ty });
            emitted(s, MirInstrView::DefVar { var, src, binding_ty: ty })
        };
        s
    };
}

pub(crate) proof fn marked_unsupported_grows(
    from: FlattenView,
    s: FlattenView,
    text: Seq<char>,
)
    requires
        grown(from, s),
    ensures
        grown(from, marked_unsupported(s, text)),
        s.blocks.len() <= marked_unsupported(s, text).blocks.len(),
{
    reveal(marked_unsupported);
    let _ = {
        let s = {
            emitted_grows(from, s, MirInstrView::Unsupported(text));
            emitted(s, MirInstrView::Unsupported(text))
        };
        s
    };
}

pub(crate) proof fn lowered_closure_grows(
    from: FlattenView,
    s: FlattenView,
    e: ExprView,
    info: NestedInfoView,
)
    requires
        grown(from, s),
    ensures
        grown(from, lowered_closure(s, e, info).0),
        s.blocks.len() <= lowered_closure(s, e, info).0.blocks.len(),
{
    reveal(lowered_closure);
    let _ = {
        let (s, captures) = {
            captured_places_grows(from, s, info.captures, 0, Seq::empty());
            captured_places(s, info.captures, 0, Seq::empty())
        };
        let (s, dest) = {
            fresh_reg_grows(from, s, e.span, e.source, None);
            fresh_reg(s, e.span, e.source, None)
        };
        let s = {
            emitted_grows(from, s, MirInstrView::MakeClosure { dest, function: info.mangled, captures });
            emitted(s, MirInstrView::MakeClosure { dest, function: info.mangled, captures })
        };
        (s, dest)
    };
}

pub(crate) proof fn captured_places_grows(
    from: FlattenView,
    s: FlattenView,
    captures: Seq<CaptureView>,
    i: nat,
    out: Seq<MirClosureCaptureView>,
)
    requires
        grown(from, s),
    ensures
        grown(from, captured_places(s, captures, i, out).0),
        s.blocks.len() <= captured_places(s, captures, i, out).0.blocks.len(),
    decreases captures, (captures.len() - i) as nat,
{
    let _ = {
        if i >= captures.len() {
            (s, out)
        } else {
            let capture = captures[i as int];
            let (s, place) = {
                place_of_name_grows(from, s, capture.name);
                place_of_name(s, capture.name)
            };
            let out = out.push(
                MirClosureCaptureView { place, moved: capture.kind == CaptureKind::Move }
            );
            {
                captured_places_grows(from, s, captures, i + 1, out);
                captured_places(s, captures, i + 1, out)
            }
        }
    };
}

pub(crate) proof fn lowered_identifier_grows(
    from: FlattenView,
    s: FlattenView,
    e: ExprView,
    name: Seq<char>,
    h: Option<HirExprView>,
)
    requires
        grown(from, s),
    ensures
        grown(from, lowered_identifier(s, e, name, h).0),
        s.blocks.len() <= lowered_identifier(s, e, name, h).0.blocks.len(),
{
    reveal(lowered_identifier);
    let _ = {
        match resolved_target(h) {
            Some(target) => {
                lowered_constant_grows(from, s, e, ConstView::Function(target));
                lowered_constant(s, e, ConstView::Function(target))
            },
            None => match nested_named(s.nested, name, 0) {
                Some(info) => {
                    lowered_closure_grows(from, s, e, info);
                    lowered_closure(s, e, info)
                },
                None => if !s.vars.contains(name) && names_function(s.overloads.functions, name, 0) {
                    {
                        lowered_constant_grows(from, s, e, ConstView::Function(name));
                        lowered_constant(s, e, ConstView::Function(name))
                    }
                } else {
                    {
                        lowered_read_grows(from, s, e, name, h);
                        lowered_read(s, e, name, h)
                    }
                },
            },
        }
    };
}

pub(crate) proof fn lowered_read_grows(
    from: FlattenView,
    s: FlattenView,
    e: ExprView,
    name: Seq<char>,
    h: Option<HirExprView>,
)
    requires
        grown(from, s),
    ensures
        grown(from, lowered_read(s, e, name, h).0),
        s.blocks.len() <= lowered_read(s, e, name, h).0.blocks.len(),
{
    reveal(lowered_read);
    let _ = {
        let (s, var) = {
            slot_of_use_grows(from, s, name, h);
            slot_of_use(s, name, h)
        };
        let (s, dest) = {
            fresh_reg_grows(from, s, e.span, e.source, Some(var));
            fresh_reg(s, e.span, e.source, Some(var))
        };
        let s = if bears_origin(h) {
            let place = whole_place(var, slot_type(s.var_types, var));
            let s = {
                emitted_grows(from, s, MirInstrView::MakeRef { dest, place });
                emitted(s, MirInstrView::MakeRef { dest, place })
            };
            s
        } else {
            match alias_of(s.aliases, var) {
                Some(loan) => {
                    let s = {
                        emitted_grows(from, s, MirInstrView::LoadPlace { dest, place: accessed_through(loan.place, var) });
                        emitted(s, MirInstrView::LoadPlace { dest, place: accessed_through(loan.place, var) })
                    };
                    s
                },
                None => if holds_slot(s.runtime_aliases, var, 0) {
                    let (s, handle) = {
                        fresh_reg_grows(from, s, e.span, e.source, Some(var));
                        fresh_reg(s, e.span, e.source, Some(var))
                    };
                    let place = place_of_handle(s, var);
                    let s = {
                        emitted_grows(from, s, MirInstrView::MakeRef { dest: handle, place });
                        emitted(s, MirInstrView::MakeRef { dest: handle, place })
                    };
                    let s = {
                        emitted_grows(from, s, MirInstrView::ReadRef { dest, reference: handle });
                        emitted(s, MirInstrView::ReadRef { dest, reference: handle })
                    };
                    s
                } else {
                    let s = {
                        emitted_grows(from, s, MirInstrView::UseVar { dest, var, mode: UseMode::Copy });
                        emitted(s, MirInstrView::UseVar { dest, var, mode: UseMode::Copy })
                    };
                    s
                },
            }
        };
        (s, dest)
    };
}

} // verus!
