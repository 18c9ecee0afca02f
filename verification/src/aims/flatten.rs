//! Blocks lead to blocks of their function: the steps of flattening.

use crate::ast::{CaptureKind, CaptureView, ExprView};
use crate::flatten::{
    FlattenView, LoanView, NestedInfoView, alias_of, at_block, bears_origin, bound_slot,
    captured_places, defined, emitted, ended, fresh_reg, fresh_slot, holds_slot, interned,
    known_any_ty, lowered_closure, lowered_constant, lowered_identifier, lowered_read,
    marked_unsupported, names_function, nested_named, opened, place_of_handle, place_of_name,
    place_of_slot, place_of_use, resolved_target, slot_of_use, slot_type, with_alias, with_loans,
    with_opt_var_type, with_owner_var, with_reg_type, with_root_ty, with_runtime_alias,
    with_var_type,
};
use crate::hir::{BasicBlockView, HirExprView};
use crate::mir::{
    Const, ConstView, MirBlockView, MirClosureCaptureView, MirInstrView, MirTermView, Reg,
    RegOriginView, UseMode, accessed_through, whole_place,
};
use crate::origin::OwnerId;
use crate::scopes::slot_of;
use crate::text::decimal;
use crate::token::Span;
use crate::types::TyView;
use crate::sealing::leads_inside;
use vstd::prelude::*;

verus! {

/// Whether a terminator leads to blocks among so many alone.
pub open spec fn aims_inside(term: MirTermView, count: nat) -> bool {
    match term {
        MirTermView::Jump(to) => to < count,
        MirTermView::Branch { then_b, else_b, .. } => then_b < count && else_b < count,
        _ => true,
    }
}

/// Whether the blocks of an instruction's regions lead to blocks of their region alone.
pub open spec fn instr_aimed(instr: MirInstrView) -> bool
    decreases instr, 0nat,
{
    match instr {
        MirInstrView::Try { body, handler, orelse, finalbody, .. } => {
            &&& blocks_aimed(body)
            &&& handler_aimed(handler)
            &&& opt_blocks_aimed(orelse)
            &&& opt_blocks_aimed(finalbody)
        },
        _ => true,
    }
}

/// Whether each of some blocks leads to one of them alone, those in regions to blocks of
/// their region.
pub open spec fn blocks_aimed(blocks: Seq<MirBlockView>) -> bool
    decreases blocks, 0nat,
{
    blocks.len() <= usize::MAX ==> {
        &&& forall|b: int|
            0 <= b < blocks.len() ==> aims_inside((#[trigger] blocks[b]).term, blocks.len())
        &&& forall|b: int| 0 <= b < blocks.len() ==> instrs_aimed((#[trigger] blocks[b]).instrs)
    }
}

/// See [`blocks_aimed`].
pub open spec fn opt_blocks_aimed(blocks: Option<Seq<MirBlockView>>) -> bool
    decreases blocks, 0nat,
{
    match blocks {
        Some(blocks) => blocks_aimed(blocks),
        None => true,
    }
}

/// See [`blocks_aimed`].
pub open spec fn handler_aimed(handler: Option<(Option<u32>, Seq<MirBlockView>)>) -> bool
    decreases handler, 0nat,
{
    match handler {
        Some(handler) => blocks_aimed(handler.1),
        None => true,
    }
}

/// See [`instr_aimed`].
pub open spec fn instrs_aimed(instrs: Seq<MirInstrView>) -> bool
    decreases instrs, 0nat,
{
    forall|k: int| 0 <= k < instrs.len() ==> instr_aimed(#[trigger] instrs[k])
}

/// Whether blocks are few enough that they and their edges can be counted in 32 bits, and so
/// in each region.
pub open spec fn few_blocks(blocks: Seq<MirBlockView>) -> bool
    decreases blocks, 0nat,
{
    &&& blocks.len() <= i32::MAX
    &&& forall|b: int| 0 <= b < blocks.len() ==> few_instrs((#[trigger] blocks[b]).instrs)
}

/// See [`few_blocks`].
pub open spec fn few_instrs(instrs: Seq<MirInstrView>) -> bool
    decreases instrs, 0nat,
{
    forall|k: int| 0 <= k < instrs.len() ==> few_in(#[trigger] instrs[k])
}

/// See [`few_blocks`].
pub open spec fn few_in(instr: MirInstrView) -> bool
    decreases instr, 0nat,
{
    match instr {
        MirInstrView::Try { body, handler, orelse, finalbody, .. } => {
            &&& few_blocks(body)
            &&& few_handled(handler)
            &&& few_opt(orelse)
            &&& few_opt(finalbody)
        },
        _ => true,
    }
}

/// See [`few_blocks`].
pub open spec fn few_opt(blocks: Option<Seq<MirBlockView>>) -> bool
    decreases blocks, 0nat,
{
    match blocks {
        Some(blocks) => few_blocks(blocks),
        None => true,
    }
}

/// See [`few_blocks`].
pub open spec fn few_handled(handler: Option<(Option<u32>, Seq<MirBlockView>)>) -> bool
    decreases handler, 0nat,
{
    match handler {
        Some(handler) => few_blocks(handler.1),
        None => true,
    }
}

/// Whether blocks and registers stay within 32 bits.
pub open spec fn little(s: FlattenView) -> bool {
    s.spans.len() < u32::MAX && few_blocks(s.blocks)
}

/// Whether everything found room, or has to.
pub open spec fn fits(s: FlattenView) -> bool {
    s.complete || little(s)
}

/// Whether a state of flattening is complete if it has to be, its current block is one of
/// its blocks, and these lead to one another alone.
pub open spec fn aimed(s: FlattenView) -> bool {
    fits(s) ==> {
        &&& s.complete
        &&& blocks_aimed(s.blocks)
        &&& s.blocks.len() <= usize::MAX ==> s.cur < s.blocks.len()
    }
}

/// Whether a state of flattening comes after another.
pub open spec fn further(s: FlattenView, t: FlattenView) -> bool {
    &&& s.blocks.len() <= t.blocks.len()
    &&& s.spans.len() <= t.spans.len()
    &&& t.complete ==> s.complete
    &&& few_blocks(t.blocks) ==> few_blocks(s.blocks)
}

/// Whether all blocks of a state can be told apart.
pub open spec fn roomy(s: FlattenView) -> bool {
    fits(s) && s.blocks.len() <= usize::MAX
}

/// Whether some pairs of blocks are among so many.
pub open spec fn all_inside(ends: Seq<(usize, usize)>, count: nat) -> bool {
    forall|k: int|
        0 <= k < ends.len() ==> (#[trigger] ends[k]).0 < count && ends[k].1 < count
}

/// Whether the blocks of a control-flow graph lead to blocks among so many alone.
pub open spec fn all_lead(blocks: Seq<BasicBlockView>, count: nat) -> bool {
    forall|b: int|
        0 <= b < blocks.len() ==> match (#[trigger] blocks[b]).term {
            Some(term) => leads_inside(term, count),
            None => true,
        }
}

proof fn fewer_instrs(blocks: Seq<MirBlockView>, at: int, block: MirBlockView)
    requires
        0 <= at < blocks.len(),
        blocks[at].instrs.is_prefix_of(block.instrs),
    ensures
        few_blocks(blocks.update(at, block)) ==> few_blocks(blocks),
{
    let changed = blocks.update(at, block);
    if few_blocks(changed) {
        assert forall|b: int| 0 <= b < blocks.len() implies few_instrs(
            (#[trigger] blocks[b]).instrs,
        ) by {
            assert(few_instrs(changed[b].instrs));
            if b == at {
                assert forall|k: int| 0 <= k < blocks[b].instrs.len() implies few_in(
                    #[trigger] blocks[b].instrs[k],
                ) by {
                    assert(block.instrs[k] == blocks[b].instrs[k]);
                    assert(few_in(block.instrs[k]));
                }
            }
        }
    }
}

pub(crate) proof fn fresh_reg_aims(
    s: FlattenView,
    span: Span,
    source: Option<Seq<char>>,
    var: Option<u32>,
)
    requires
        aimed(s),
    ensures
        aimed(fresh_reg(s, span, source, var).0),
        further(s, fresh_reg(s, span, source, var).0),
{
    reveal(fresh_reg);
    let _ = {
        if s.spans.len() < u32::MAX {
            (
                FlattenView { spans: s.spans.push(RegOriginView { span, source, var }), ..s },
                Reg(s.spans.len() as u32),
            )
        } else {
            (FlattenView { complete: false, ..s }, Reg(u32::MAX))
        }
    };
}

/// What an instruction adds, whatever it is.
pub(crate) proof fn emitted_further(s: FlattenView, instr: MirInstrView)
    ensures
        further(s, emitted(s, instr)),
        emitted(s, instr).blocks.len() == s.blocks.len(),
        s.cur < s.blocks.len() && few_blocks(emitted(s, instr).blocks) ==> few_in(instr),
{
    reveal(emitted);
    let t = emitted(s, instr);
    if s.cur < s.blocks.len() {
        let block = s.blocks[s.cur as int];
        let more = t.blocks[s.cur as int];
        assert(block.instrs =~= more.instrs.subrange(0, block.instrs.len() as int));
        fewer_instrs(s.blocks, s.cur as int, more);
        if few_blocks(t.blocks) {
            assert(few_instrs(more.instrs));
            assert(more.instrs[block.instrs.len() as int] == instr);
        }
    }
}

pub(crate) proof fn emitted_aims(s: FlattenView, instr: MirInstrView)
    requires
        aimed(s),
        instr_aimed(instr),
    ensures
        aimed(emitted(s, instr)),
        further(s, emitted(s, instr)),
{
    emitted_further(s, instr);
    reveal(emitted);
    let t = emitted(s, instr);
    if fits(t) && s.cur < s.blocks.len() && s.blocks.len() <= usize::MAX {
        let block = s.blocks[s.cur as int];
        assert(instrs_aimed(block.instrs));
        assert(instrs_aimed(block.instrs.push(instr)));
        assert forall|b: int| 0 <= b < t.blocks.len() implies {
            &&& aims_inside((#[trigger] t.blocks[b]).term, t.blocks.len())
            &&& instrs_aimed(t.blocks[b].instrs)
        } by {
            assert(aims_inside(s.blocks[b].term, s.blocks.len()));
            assert(instrs_aimed(s.blocks[b].instrs));
        }
        assert(blocks_aimed(t.blocks));
    }
}

pub(crate) proof fn ended_aims(s: FlattenView, term: MirTermView)
    requires
        aimed(s),
        roomy(s) ==> aims_inside(term, s.blocks.len()),
    ensures
        aimed(ended(s, term)),
        further(s, ended(s, term)),
{
    reveal(ended);
    let t = ended(s, term);
    if s.cur < s.blocks.len() {
        let block = s.blocks[s.cur as int];
        assert(block.instrs =~= block.instrs.subrange(0, block.instrs.len() as int));
        fewer_instrs(s.blocks, s.cur as int, t.blocks[s.cur as int]);
    }
    if fits(t) && s.cur < s.blocks.len() && s.blocks.len() <= usize::MAX {
        assert forall|b: int| 0 <= b < t.blocks.len() implies {
            &&& aims_inside((#[trigger] t.blocks[b]).term, t.blocks.len())
            &&& instrs_aimed(t.blocks[b].instrs)
        } by {
            assert(aims_inside(s.blocks[b].term, s.blocks.len()));
            assert(instrs_aimed(s.blocks[b].instrs));
        }
        assert(blocks_aimed(t.blocks));
    }
}

pub(crate) proof fn opened_aims(s: FlattenView)
    requires
        aimed(s),
    ensures
        aimed(opened(s).0),
        further(s, opened(s).0),
        opened(s).0.blocks.len() == s.blocks.len() + 1,
        opened(s).1 == s.blocks.len() as usize,
{
    reveal(opened);
    let t = opened(s).0;
    if few_blocks(t.blocks) {
        assert forall|b: int| 0 <= b < s.blocks.len() implies few_instrs(
            (#[trigger] s.blocks[b]).instrs,
        ) by {
            assert(few_instrs(t.blocks[b].instrs));
        }
    }
    if roomy(t) {
        assert forall|b: int| 0 <= b < t.blocks.len() implies {
            &&& aims_inside((#[trigger] t.blocks[b]).term, t.blocks.len())
            &&& instrs_aimed(t.blocks[b].instrs)
        } by {
            if b < s.blocks.len() {
                assert(aims_inside(s.blocks[b].term, s.blocks.len()));
                assert(instrs_aimed(s.blocks[b].instrs));
            }
        }
        assert(blocks_aimed(t.blocks));
    }
}

pub(crate) proof fn interned_aims(
    s: FlattenView,
    name: Seq<char>,
)
    requires
        aimed(s),
    ensures
        aimed(interned(s, name).0),
        further(s, interned(s, name).0),
{
    reveal(interned);
    let _ = {
        match slot_of(s.vars, name, 0) {
            Some(i) => (s, i as u32),
            None => (FlattenView { vars: s.vars.push(name), ..s }, s.vars.len() as u32),
        }
    };
}

pub(crate) proof fn with_var_type_aims(
    s: FlattenView,
    var: u32,
    ty: TyView,
)
    requires
        aimed(s),
    ensures
        aimed(with_var_type(s, var, ty)),
        further(s, with_var_type(s, var, ty)),
{
    reveal(with_var_type);
    let _ = {
        let s = FlattenView { var_types: s.var_types.push((var, ty)), ..s };
        s
    };
}

pub(crate) proof fn with_opt_var_type_aims(
    s: FlattenView,
    var: u32,
    ty: Option<TyView>,
)
    requires
        aimed(s),
    ensures
        aimed(with_opt_var_type(s, var, ty)),
        further(s, with_opt_var_type(s, var, ty)),
{
    reveal(with_opt_var_type);
    let _ = {
        match ty {
            Some(ty) => {
                let s = {
                    with_var_type_aims(s, var, ty);
                    with_var_type(s, var, ty)
                };
                s
            },
            None => s,
        }
    };
}

pub(crate) proof fn with_reg_type_aims(
    s: FlattenView,
    reg: Reg,
    ty: Option<TyView>,
)
    requires
        aimed(s),
    ensures
        aimed(with_reg_type(s, reg, ty)),
        further(s, with_reg_type(s, reg, ty)),
{
    reveal(with_reg_type);
    let _ = {
        match ty {
            Some(ty) => {
                let s = FlattenView { reg_types: s.reg_types.push((reg.0, ty)), ..s };
                s
            },
            None => s,
        }
    };
}

pub(crate) proof fn with_owner_var_aims(
    s: FlattenView,
    owner: OwnerId,
    var: u32,
)
    requires
        aimed(s),
    ensures
        aimed(with_owner_var(s, owner, var)),
        further(s, with_owner_var(s, owner, var)),
{
    reveal(with_owner_var);
    let _ = {
        let s = FlattenView { owner_vars: s.owner_vars.push((owner, var)), ..s };
        s
    };
}

pub(crate) proof fn with_alias_aims(
    s: FlattenView,
    var: u32,
    loan: LoanView,
)
    requires
        aimed(s),
    ensures
        aimed(with_alias(s, var, loan)),
        further(s, with_alias(s, var, loan)),
{
    reveal(with_alias);
    let _ = {
        let s = FlattenView { aliases: s.aliases.push((var, loan)), ..s };
        s
    };
}

pub(crate) proof fn with_loans_aims(
    s: FlattenView,
    var: u32,
    loans: Seq<LoanView>,
)
    requires
        aimed(s),
    ensures
        aimed(with_loans(s, var, loans)),
        further(s, with_loans(s, var, loans)),
{
    reveal(with_loans);
    let _ = {
        let s = FlattenView { aggregate_loans: s.aggregate_loans.push((var, loans)), ..s };
        s
    };
}

pub(crate) proof fn with_runtime_alias_aims(
    s: FlattenView,
    var: u32,
)
    requires
        aimed(s),
    ensures
        aimed(with_runtime_alias(s, var)),
        further(s, with_runtime_alias(s, var)),
{
    reveal(with_runtime_alias);
    let _ = {
        let s = FlattenView { runtime_aliases: s.runtime_aliases.push(var), ..s };
        s
    };
}

pub(crate) proof fn at_block_aims(
    s: FlattenView,
    block: usize,
)
    requires
        aimed(s),
        roomy(s) ==> block < s.blocks.len(),
    ensures
        aimed(at_block(s, block)),
        further(s, at_block(s, block)),
{
    reveal(at_block);
    let _ = {
        let s = FlattenView { cur: block, ..s };
        s
    };
}

pub(crate) proof fn fresh_slot_aims(
    s: FlattenView,
)
    requires
        aimed(s),
    ensures
        aimed(fresh_slot(s).0),
        further(s, fresh_slot(s).0),
{
    reveal(fresh_slot);
    let _ = {
        let count = s.vars.len() as usize;
        let name = "$sc"@ + decimal(count as nat);
        let s = FlattenView { vars: s.vars.push(name), ..s };
        (s, count as u32)
    };
}

pub(crate) proof fn slot_of_use_aims(
    s: FlattenView,
    name: Seq<char>,
    h: Option<HirExprView>,
)
    requires
        aimed(s),
    ensures
        aimed(slot_of_use(s, name, h).0),
        further(s, slot_of_use(s, name, h).0),
{
    reveal(slot_of_use);
    let _ = {
        let bound = bound_slot(s, h);
        match bound {
            Some(var) => (s, var),
            None => {
                interned_aims(s, name);
                interned(s, name)
            },
        }
    };
}

pub(crate) proof fn place_of_name_aims(
    s: FlattenView,
    name: Seq<char>,
)
    requires
        aimed(s),
    ensures
        aimed(place_of_name(s, name).0),
        further(s, place_of_name(s, name).0),
{
    reveal(place_of_name);
    let _ = {
        let (s, var) = {
            interned_aims(s, name);
            interned(s, name)
        };
        (s, place_of_slot(s, var))
    };
}

pub(crate) proof fn place_of_use_aims(
    s: FlattenView,
    name: Seq<char>,
    h: Option<HirExprView>,
)
    requires
        aimed(s),
    ensures
        aimed(place_of_use(s, name, h).0),
        further(s, place_of_use(s, name, h).0),
{
    reveal(place_of_use);
    let _ = {
        let bound = bound_slot(s, h);
        let (s, place) = match bound {
            Some(var) => (s, place_of_slot(s, var)),
            None => {
                place_of_name_aims(s, name);
                place_of_name(s, name)
            },
        };
        if place.root_ty is None {
            let ty = known_any_ty(h);
            let s = {
                with_opt_var_type_aims(s, place.root, ty);
                with_opt_var_type(s, place.root, ty)
            };
            (s, with_root_ty(place, ty))
        } else {
            (s, place)
        }
    };
}

pub(crate) proof fn lowered_constant_aims(
    s: FlattenView,
    e: ExprView,
    k: ConstView,
)
    requires
        aimed(s),
    ensures
        aimed(lowered_constant(s, e, k).0),
        further(s, lowered_constant(s, e, k).0),
{
    reveal(lowered_constant);
    let _ = {
        let (s, dest) = {
            fresh_reg_aims(s, e.span, e.source, None);
            fresh_reg(s, e.span, e.source, None)
        };
        let s = {
            emitted_aims(s, MirInstrView::Const { dest, k });
            emitted(s, MirInstrView::Const { dest, k })
        };
        (s, dest)
    };
}

pub(crate) proof fn defined_aims(
    s: FlattenView,
    var: u32,
    src: Reg,
    ty: Option<TyView>,
)
    requires
        aimed(s),
    ensures
        aimed(defined(s, var, src, ty)),
        further(s, defined(s, var, src, ty)),
{
    reveal(defined);
    let _ = {
        let s = {
            emitted_aims(s, MirInstrView::DefVar { var, src, binding_ty: ty });
            emitted(s, MirInstrView::DefVar { var, src, binding_ty: ty })
        };
        s
    };
}

pub(crate) proof fn marked_unsupported_aims(
    s: FlattenView,
    text: Seq<char>,
)
    requires
        aimed(s),
    ensures
        aimed(marked_unsupported(s, text)),
        further(s, marked_unsupported(s, text)),
{
    reveal(marked_unsupported);
    let _ = {
        let s = {
            emitted_aims(s, MirInstrView::Unsupported(text));
            emitted(s, MirInstrView::Unsupported(text))
        };
        s
    };
}

pub(crate) proof fn lowered_closure_aims(
    s: FlattenView,
    e: ExprView,
    info: NestedInfoView,
)
    requires
        aimed(s),
    ensures
        aimed(lowered_closure(s, e, info).0),
        further(s, lowered_closure(s, e, info).0),
{
    reveal(lowered_closure);
    let _ = {
        let (s, captures) = {
            captured_places_aims(s, info.captures, 0, Seq::empty());
            captured_places(s, info.captures, 0, Seq::empty())
        };
        let (s, dest) = {
            fresh_reg_aims(s, e.span, e.source, None);
            fresh_reg(s, e.span, e.source, None)
        };
        let s = {
            emitted_aims(s, MirInstrView::MakeClosure { dest, function: info.mangled, captures });
            emitted(s, MirInstrView::MakeClosure { dest, function: info.mangled, captures })
        };
        (s, dest)
    };
}

pub(crate) proof fn captured_places_aims(
    s: FlattenView,
    captures: Seq<CaptureView>,
    i: nat,
    out: Seq<MirClosureCaptureView>,
)
    requires
        aimed(s),
    ensures
        aimed(captured_places(s, captures, i, out).0),
        further(s, captured_places(s, captures, i, out).0),
    decreases captures, (captures.len() - i) as nat,
{
    let _ = {
        if i >= captures.len() {
            (s, out)
        } else {
            let capture = captures[i as int];
            let (s, place) = {
                place_of_name_aims(s, capture.name);
                place_of_name(s, capture.name)
            };
            let out = out.push(
                MirClosureCaptureView { place, moved: capture.kind == CaptureKind::Move }
            );
            {
                captured_places_aims(s, captures, i + 1, out);
                captured_places(s, captures, i + 1, out)
            }
        }
    };
}

pub(crate) proof fn lowered_identifier_aims(
    s: FlattenView,
    e: ExprView,
    name: Seq<char>,
    h: Option<HirExprView>,
)
    requires
        aimed(s),
    ensures
        aimed(lowered_identifier(s, e, name, h).0),
        further(s, lowered_identifier(s, e, name, h).0),
{
    reveal(lowered_identifier);
    let _ = {
        match resolved_target(h) {
            Some(target) => {
                lowered_constant_aims(s, e, ConstView::Function(target));
                lowered_constant(s, e, ConstView::Function(target))
            },
            None => match nested_named(s.nested, name, 0) {
                Some(info) => {
                    lowered_closure_aims(s, e, info);
                    lowered_closure(s, e, info)
                },
                None => if !s.vars.contains(name) && names_function(s.overloads.functions, name, 0) {
                    {
                        lowered_constant_aims(s, e, ConstView::Function(name));
                        lowered_constant(s, e, ConstView::Function(name))
                    }
                } else {
                    {
                        lowered_read_aims(s, e, name, h);
                        lowered_read(s, e, name, h)
                    }
                },
            },
        }
    };
}

pub(crate) proof fn lowered_read_aims(
    s: FlattenView,
    e: ExprView,
    name: Seq<char>,
    h: Option<HirExprView>,
)
    requires
        aimed(s),
    ensures
        aimed(lowered_read(s, e, name, h).0),
        further(s, lowered_read(s, e, name, h).0),
{
    reveal(lowered_read);
    let _ = {
        let (s, var) = {
            slot_of_use_aims(s, name, h);
            slot_of_use(s, name, h)
        };
        let (s, dest) = {
            fresh_reg_aims(s, e.span, e.source, Some(var));
            fresh_reg(s, e.span, e.source, Some(var))
        };
        let s = if bears_origin(h) {
            let place = whole_place(var, slot_type(s.var_types, var));
            let s = {
                emitted_aims(s, MirInstrView::MakeRef { dest, place });
                emitted(s, MirInstrView::MakeRef { dest, place })
            };
            s
        } else {
            match alias_of(s.aliases, var) {
                Some(loan) => {
                    let s = {
                        emitted_aims(s, MirInstrView::LoadPlace { dest, place: accessed_through(loan.place, var) });
                        emitted(s, MirInstrView::LoadPlace { dest, place: accessed_through(loan.place, var) })
                    };
                    s
                },
                None => if holds_slot(s.runtime_aliases, var, 0) {
                    let (s, handle) = {
                        fresh_reg_aims(s, e.span, e.source, Some(var));
                        fresh_reg(s, e.span, e.source, Some(var))
                    };
                    let place = place_of_handle(s, var);
                    let s = {
                        emitted_aims(s, MirInstrView::MakeRef { dest: handle, place });
                        emitted(s, MirInstrView::MakeRef { dest: handle, place })
                    };
                    let s = {
                        emitted_aims(s, MirInstrView::ReadRef { dest, reference: handle });
                        emitted(s, MirInstrView::ReadRef { dest, reference: handle })
                    };
                    s
                } else {
                    let s = {
                        emitted_aims(s, MirInstrView::UseVar { dest, var, mode: UseMode::Copy });
                        emitted(s, MirInstrView::UseVar { dest, var, mode: UseMode::Copy })
                    };
                    s
                },
            }
        };
        (s, dest)
    };
}

} // verus!
