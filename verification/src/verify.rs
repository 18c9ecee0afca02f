//! Checks of a lowered program: types of places and registers, jump targets,
//! effects and declared calls.

use crate::ast::Param;
use crate::checked::flagged_name_list_view;
use crate::flatten::{find_slot_ty, following_index, next_index, slot_type};
use crate::mir::{
    Const, MirBlock, MirBlockView, MirClosureCapture, MirClosureCaptureView, MirDeclarations,
    MirDeclarationsView, MirFunction, MirFunctionDeclaration, MirFunctionDeclarationView,
    MirFunctionView, MirInstr, MirInstrView, MirPlace, MirPlaceView, MirProgram, MirProgramView,
    MirStructDeclaration, MirStructDeclarationView, MirSubscriptArg, MirSubscriptArgView, MirTerm,
    MirTermView, Proj, ProjView, Reg, clone_mir_function_declaration, clone_mir_place,
    clone_mir_struct_declaration, fully_typed, is_typed, kw_reg_list_view, mir_block_list_view,
    mir_closure_capture_list_view, mir_function_declaration_list_view, mir_instr_list_view,
    mir_place_list_view, mir_struct_declaration_list_view, mir_subscript_arg_list_view,
    named_function_list_view, opt_place_list_view, proj_list_view, unfold_mir_instr,
};
use crate::show::{show_ty, ty_text};
use crate::text::{
    cat2, cat3, cat4, cat5, cat6, cat7, decimal, opt_view, same_string, show_u64, show_usize,
    string_list_view,
};
use crate::types::{
    RefTy, RefTyView, Ty, TyArg, TyArgView, TyView, clone_ty, named_ty_list_view, same_ty,
    ty_arg_list_view, ty_list_view, ty_pair_list_view, unfold_ty,
};
use vstd::prelude::*;

verus! {

/// The registers an instruction defines: its destination, or the marker of a loan
/// or a consumption.
#[verifier::opaque]
pub open spec fn with_results(instruction: MirInstrView, found: Seq<Reg>) -> Seq<Reg> {
    match result_of_instr(instruction) {
        Some(reg) => and_reg(found, reg),
        None => found,
    }
}

/// See [`with_results`].
pub fn instruction_result_regs(instruction: &MirInstr, found: Vec<Reg>) -> (r: Vec<Reg>)
    ensures
        r@ == with_results(instruction@, found@),
{
    proof { reveal(with_results); }
    match instruction_result(instruction) {
        Some(reg) => with_reg(found, reg),
        None => found,
    }
}

#[verifier::opaque]
pub open spec fn and_reg(found: Seq<Reg>, reg: Reg) -> Seq<Reg> {
    let out = found;
    let out = out.push(reg);
    out
}

/// See [`and_reg`].
pub fn with_reg(found: Vec<Reg>, reg: Reg) -> (r: Vec<Reg>)
    ensures
        r@ == and_reg(found@, reg),
{
    proof { reveal(and_reg); }
    let mut out = found;
    out.push(reg);
    out
}

#[verifier::opaque]
pub open spec fn result_of_instr(instruction: MirInstrView) -> Option<Reg> {
    match instruction {
        MirInstrView::MakeRef { dest, .. } => Some(dest),
        MirInstrView::ReadRef { dest, .. } => Some(dest),
        MirInstrView::Const { dest, .. } => Some(dest),
        MirInstrView::UseVar { dest, .. } => Some(dest),
        MirInstrView::MovePlace { dest, .. } => Some(dest),
        MirInstrView::UnOp { dest, .. } => Some(dest),
        MirInstrView::BinOp { dest, .. } => Some(dest),
        MirInstrView::Call { dest, .. } => Some(dest),
        MirInstrView::CallIndirect { dest, .. } => Some(dest),
        MirInstrView::MethodCall { dest, .. } => Some(dest),
        MirInstrView::GetField { dest, .. } => Some(dest),
        MirInstrView::Index { dest, .. } => Some(dest),
        MirInstrView::Slice { dest, .. } => Some(dest),
        MirInstrView::MultiIndex { dest, .. } => Some(dest),
        MirInstrView::LoadPlace { dest, .. } => Some(dest),
        MirInstrView::MakeList { dest, .. } => Some(dest),
        MirInstrView::MakeSet { dest, .. } => Some(dest),
        MirInstrView::MakeDict { dest, .. } => Some(dest),
        MirInstrView::MakeTuple { dest, .. } => Some(dest),
        MirInstrView::MakeVariant { dest, .. } => Some(dest),
        MirInstrView::MakeSimd { dest, .. } => Some(dest),
        MirInstrView::MakeClosure { dest, .. } => Some(dest),
        MirInstrView::VariantIs { dest, .. } => Some(dest),
        MirInstrView::VariantGet { dest, .. } => Some(dest),
        MirInstrView::VariantSet { dest, .. } => Some(dest),
        MirInstrView::VariantTake { dest, .. } => Some(dest),
        MirInstrView::VariantReplace { dest, .. } => Some(dest),
        MirInstrView::HasNext { dest, .. } => Some(dest),
        MirInstrView::Next { dest, .. } => Some(dest),
        MirInstrView::BeginLoan { marker, .. } => Some(marker),
        MirInstrView::ConsumePlace { marker, .. } => Some(marker),
        MirInstrView::ConsumeVar { .. } => None,
        MirInstrView::KeepAlive { .. } => None,
        MirInstrView::DefVar { .. } => None,
        MirInstrView::WriteRef { .. } => None,
        MirInstrView::MultiSet { .. } => None,
        MirInstrView::Store { .. } => None,
        MirInstrView::StoreRef { .. } => None,
        MirInstrView::CollectionInsert { .. } => None,
        MirInstrView::Raise { .. } => None,
        MirInstrView::Try { .. } => None,
        MirInstrView::Drop { .. } => None,
        MirInstrView::DropVar { .. } => None,
        MirInstrView::Unsupported(_) => None,
        MirInstrView::GetIter { .. } => None,
    }
}

/// See [`result_of_instr`].
pub fn instruction_result(instruction: &MirInstr) -> (r: Option<Reg>)
    ensures
        r == result_of_instr(instruction@),
{
    proof { reveal(result_of_instr); }
    proof { unfold_mir_instr(*instruction); }
    match instruction {
        MirInstr::MakeRef { dest, .. } => Some(*dest),
        MirInstr::ReadRef { dest, .. } => Some(*dest),
        MirInstr::Const { dest, .. } => Some(*dest),
        MirInstr::UseVar { dest, .. } => Some(*dest),
        MirInstr::MovePlace { dest, .. } => Some(*dest),
        MirInstr::UnOp { dest, .. } => Some(*dest),
        MirInstr::BinOp { dest, .. } => Some(*dest),
        MirInstr::Call { dest, .. } => Some(*dest),
        MirInstr::CallIndirect { dest, .. } => Some(*dest),
        MirInstr::MethodCall { dest, .. } => Some(*dest),
        MirInstr::GetField { dest, .. } => Some(*dest),
        MirInstr::Index { dest, .. } => Some(*dest),
        MirInstr::Slice { dest, .. } => Some(*dest),
        MirInstr::MultiIndex { dest, .. } => Some(*dest),
        MirInstr::LoadPlace { dest, .. } => Some(*dest),
        MirInstr::MakeList { dest, .. } => Some(*dest),
        MirInstr::MakeSet { dest, .. } => Some(*dest),
        MirInstr::MakeDict { dest, .. } => Some(*dest),
        MirInstr::MakeTuple { dest, .. } => Some(*dest),
        MirInstr::MakeVariant { dest, .. } => Some(*dest),
        MirInstr::MakeSimd { dest, .. } => Some(*dest),
        MirInstr::MakeClosure { dest, .. } => Some(*dest),
        MirInstr::VariantIs { dest, .. } => Some(*dest),
        MirInstr::VariantGet { dest, .. } => Some(*dest),
        MirInstr::VariantSet { dest, .. } => Some(*dest),
        MirInstr::VariantTake { dest, .. } => Some(*dest),
        MirInstr::VariantReplace { dest, .. } => Some(*dest),
        MirInstr::HasNext { dest, .. } => Some(*dest),
        MirInstr::Next { dest, .. } => Some(*dest),
        MirInstr::BeginLoan { marker, .. } => Some(*marker),
        MirInstr::ConsumePlace { marker, .. } => Some(*marker),
        MirInstr::ConsumeVar { .. } => None,
        MirInstr::KeepAlive { .. } => None,
        MirInstr::DefVar { .. } => None,
        MirInstr::WriteRef { .. } => None,
        MirInstr::MultiSet { .. } => None,
        MirInstr::Store { .. } => None,
        MirInstr::StoreRef { .. } => None,
        MirInstr::CollectionInsert { .. } => None,
        MirInstr::Raise { .. } => None,
        MirInstr::Try { .. } => None,
        MirInstr::Drop { .. } => None,
        MirInstr::DropVar { .. } => None,
        MirInstr::Unsupported(_) => None,
        MirInstr::GetIter { .. } => None,
    }
}

/// The registers that subscripts of a place are in.
pub open spec fn regs_of_steps(proj: Seq<ProjView>, i: nat, out: Seq<Reg>) -> Seq<Reg>
    decreases proj, (proj.len() - i) as nat,
{
    if i >= proj.len() {
        out
    } else {
        let step = proj[i as int];
        match step {
            ProjView::Index(reg) => {
                let out = out.push(reg);
                regs_of_steps(proj, i + 1, out)
            },
            _ => regs_of_steps(proj, i + 1, out),
        }
    }
}

/// See [`regs_of_steps`].
pub fn place_regs(proj: &Vec<Proj>, found: Vec<Reg>) -> (r: Vec<Reg>)
    ensures
        r@ == regs_of_steps(proj_list_view(proj@), 0, found@),
    decreases proj@, 0nat,
{
    let mut out: Vec<Reg> = found;
    let ghost goal = regs_of_steps(proj_list_view(proj@), 0, found@);
    let mut i: usize = 0;
    while i < proj.len()
        invariant
            i <= proj@.len(),
            proj_list_view(proj@).len() == proj@.len(),
            regs_of_steps(proj_list_view(proj@), i as nat, out@) == goal,
            goal == regs_of_steps(proj_list_view(proj@), 0, found@),
        decreases proj@.len() - i,
    {
        let step = &proj[i];
        assert(proj_list_view(proj@)[i as int] == step@);
        match step {
            Proj::Index(reg) => {
                out.push(*reg);
            },
            _ => {
                assert(!(step@ is Index));
            },
        }
        i = i + 1;
    }
    out
}

pub open spec fn regs_of_places(
    places: Seq<Option<MirPlaceView>>,
    i: nat,
    out: Seq<Reg>,
) -> Seq<Reg>
    decreases places, (places.len() - i) as nat,
{
    if i >= places.len() {
        out
    } else {
        let place = places[i as int];
        match place {
            Some(place) => {
                let out = regs_of_steps(place.proj, 0, out);
                regs_of_places(places, i + 1, out)
            },
            None => regs_of_places(places, i + 1, out),
        }
    }
}

/// See [`regs_of_places`].
pub fn opt_place_regs(places: &Vec<Option<MirPlace>>, found: Vec<Reg>) -> (r: Vec<Reg>)
    ensures
        r@ == regs_of_places(opt_place_list_view(places@), 0, found@),
    decreases places@, 0nat,
{
    let mut out: Vec<Reg> = found;
    let ghost goal = regs_of_places(opt_place_list_view(places@), 0, found@);
    let mut i: usize = 0;
    while i < places.len()
        invariant
            i <= places@.len(),
            opt_place_list_view(places@).len() == places@.len(),
            regs_of_places(opt_place_list_view(places@), i as nat, out@) == goal,
            goal == regs_of_places(opt_place_list_view(places@), 0, found@),
        decreases places@.len() - i,
    {
        let place = &places[i];
        assert(opt_place_list_view(places@)[i as int] == opt_view(*place));
        match place {
            Some(place) => {
                out = place_regs(&place.proj, out);
            },
            None => {},
        }
        i = i + 1;
    }
    out
}

pub open spec fn regs_of_captures(
    captures: Seq<MirClosureCaptureView>,
    i: nat,
    out: Seq<Reg>,
) -> Seq<Reg>
    decreases captures, (captures.len() - i) as nat,
{
    if i >= captures.len() {
        out
    } else {
        let capture = captures[i as int];
        let out = regs_of_steps(capture.place.proj, 0, out);
        regs_of_captures(captures, i + 1, out)
    }
}

/// See [`regs_of_captures`].
pub fn capture_regs(captures: &Vec<MirClosureCapture>, found: Vec<Reg>) -> (r: Vec<Reg>)
    ensures
        r@ == regs_of_captures(mir_closure_capture_list_view(captures@), 0, found@),
    decreases captures@, 0nat,
{
    let mut out: Vec<Reg> = found;
    let ghost goal = regs_of_captures(mir_closure_capture_list_view(captures@), 0, found@);
    let mut i: usize = 0;
    while i < captures.len()
        invariant
            i <= captures@.len(),
            mir_closure_capture_list_view(captures@).len() == captures@.len(),
            regs_of_captures(mir_closure_capture_list_view(captures@), i as nat, out@) == goal,
            goal == regs_of_captures(mir_closure_capture_list_view(captures@), 0, found@),
        decreases captures@.len() - i,
    {
        let capture = &captures[i];
        assert(mir_closure_capture_list_view(captures@)[i as int] == capture@);
        out = place_regs(&capture.place.proj, out);
        i = i + 1;
    }
    out
}

pub open spec fn and_regs(regs: Seq<Reg>, i: nat, out: Seq<Reg>) -> Seq<Reg>
    decreases regs, (regs.len() - i) as nat,
{
    if i >= regs.len() {
        out
    } else {
        let reg = regs[i as int];
        let out = out.push(reg);
        and_regs(regs, i + 1, out)
    }
}

/// See [`and_regs`].
pub fn with_regs(regs: &Vec<Reg>, found: Vec<Reg>) -> (r: Vec<Reg>)
    ensures
        r@ == and_regs(regs@, 0, found@),
    decreases regs@, 0nat,
{
    let mut out: Vec<Reg> = found;
    let ghost goal = and_regs(regs@, 0, found@);
    let mut i: usize = 0;
    while i < regs.len()
        invariant
            i <= regs@.len(),
            and_regs(regs@, i as nat, out@) == goal,
            goal == and_regs(regs@, 0, found@),
        decreases regs@.len() - i,
    {
        let reg = &regs[i];
        out.push(*reg);
        i = i + 1;
    }
    out
}

pub open spec fn and_opt_regs(regs: Seq<Option<Reg>>, i: nat, out: Seq<Reg>) -> Seq<Reg>
    decreases regs, (regs.len() - i) as nat,
{
    if i >= regs.len() {
        out
    } else {
        let reg = regs[i as int];
        let out = and_opt_reg(reg, out);
        and_opt_regs(regs, i + 1, out)
    }
}

/// See [`and_opt_regs`].
pub fn with_opt_regs(regs: &Vec<Option<Reg>>, found: Vec<Reg>) -> (r: Vec<Reg>)
    ensures
        r@ == and_opt_regs(regs@, 0, found@),
    decreases regs@, 0nat,
{
    let mut out: Vec<Reg> = found;
    let ghost goal = and_opt_regs(regs@, 0, found@);
    let mut i: usize = 0;
    while i < regs.len()
        invariant
            i <= regs@.len(),
            and_opt_regs(regs@, i as nat, out@) == goal,
            goal == and_opt_regs(regs@, 0, found@),
        decreases regs@.len() - i,
    {
        let reg = &regs[i];
        out = with_opt_reg(reg, out);
        i = i + 1;
    }
    out
}

#[verifier::opaque]
pub open spec fn and_opt_reg(reg: Option<Reg>, found: Seq<Reg>) -> Seq<Reg> {
    match reg {
        Some(reg) => and_reg(found, reg),
        None => found,
    }
}

/// See [`and_opt_reg`].
pub fn with_opt_reg(reg: &Option<Reg>, found: Vec<Reg>) -> (r: Vec<Reg>)
    ensures
        r@ == and_opt_reg(*reg, found@),
{
    proof { reveal(and_opt_reg); }
    match reg {
        Some(reg) => with_reg(found, *reg),
        None => found,
    }
}

pub open spec fn and_kw_regs(kwargs: Seq<(Seq<char>, Reg)>, i: nat, out: Seq<Reg>) -> Seq<Reg>
    decreases kwargs, (kwargs.len() - i) as nat,
{
    if i >= kwargs.len() {
        out
    } else {
        let kwarg = kwargs[i as int];
        let out = out.push(kwarg.1);
        and_kw_regs(kwargs, i + 1, out)
    }
}

/// See [`and_kw_regs`].
pub fn with_kw_regs(kwargs: &Vec<(String, Reg)>, found: Vec<Reg>) -> (r: Vec<Reg>)
    ensures
        r@ == and_kw_regs(kw_reg_list_view(kwargs@), 0, found@),
    decreases kwargs@, 0nat,
{
    let mut out: Vec<Reg> = found;
    let ghost goal = and_kw_regs(kw_reg_list_view(kwargs@), 0, found@);
    let mut i: usize = 0;
    while i < kwargs.len()
        invariant
            i <= kwargs@.len(),
            kw_reg_list_view(kwargs@).len() == kwargs@.len(),
            and_kw_regs(kw_reg_list_view(kwargs@), i as nat, out@) == goal,
            goal == and_kw_regs(kw_reg_list_view(kwargs@), 0, found@),
        decreases kwargs@.len() - i,
    {
        let kwarg = &kwargs[i];
        assert(kw_reg_list_view(kwargs@)[i as int].0 =~= kwarg.0@);
        out.push(kwarg.1);
        i = i + 1;
    }
    out
}

pub open spec fn and_entry_regs(entries: Seq<(Reg, Reg)>, i: nat, out: Seq<Reg>) -> Seq<Reg>
    decreases entries, (entries.len() - i) as nat,
{
    if i >= entries.len() {
        out
    } else {
        let entry = entries[i as int];
        let out = out.push(entry.0);
        let out = out.push(entry.1);
        and_entry_regs(entries, i + 1, out)
    }
}

/// See [`and_entry_regs`].
pub fn with_entry_regs(entries: &Vec<(Reg, Reg)>, found: Vec<Reg>) -> (r: Vec<Reg>)
    ensures
        r@ == and_entry_regs(entries@, 0, found@),
    decreases entries@, 0nat,
{
    let mut out: Vec<Reg> = found;
    let ghost goal = and_entry_regs(entries@, 0, found@);
    let mut i: usize = 0;
    while i < entries.len()
        invariant
            i <= entries@.len(),
            and_entry_regs(entries@, i as nat, out@) == goal,
            goal == and_entry_regs(entries@, 0, found@),
        decreases entries@.len() - i,
    {
        let entry = &entries[i];
        out.push(entry.0);
        out.push(entry.1);
        i = i + 1;
    }
    out
}

#[verifier::opaque]
pub open spec fn and_bounds(
    lower: Option<Reg>,
    upper: Option<Reg>,
    step: Option<Reg>,
    found: Seq<Reg>,
) -> Seq<Reg> {
    let out = and_opt_reg(lower, found);
    let out = and_opt_reg(upper, out);
    and_opt_reg(step, out)
}

/// See [`and_bounds`].
pub fn with_bounds(
    lower: &Option<Reg>,
    upper: &Option<Reg>,
    step: &Option<Reg>,
    found: Vec<Reg>,
) -> (r: Vec<Reg>)
    ensures
        r@ == and_bounds(*lower, *upper, *step, found@),
{
    proof { reveal(and_bounds); }
    let out = with_opt_reg(lower, found);
    let out = with_opt_reg(upper, out);
    with_opt_reg(step, out)
}

pub open spec fn regs_of_subscripts(
    args: Seq<MirSubscriptArgView>,
    i: nat,
    out: Seq<Reg>,
) -> Seq<Reg>
    decreases args, (args.len() - i) as nat,
{
    if i >= args.len() {
        out
    } else {
        let arg = args[i as int];
        match arg {
            MirSubscriptArgView::Index(reg) => {
                let out = out.push(reg);
                regs_of_subscripts(args, i + 1, out)
            },
            MirSubscriptArgView::Slice { lower, upper, step, .. } => {
                let out = and_bounds(lower, upper, step, out);
                regs_of_subscripts(args, i + 1, out)
            },
        }
    }
}

/// See [`regs_of_subscripts`].
pub fn subscript_arg_regs(args: &Vec<MirSubscriptArg>, found: Vec<Reg>) -> (r: Vec<Reg>)
    ensures
        r@ == regs_of_subscripts(mir_subscript_arg_list_view(args@), 0, found@),
    decreases args@, 0nat,
{
    let mut out: Vec<Reg> = found;
    let ghost goal = regs_of_subscripts(mir_subscript_arg_list_view(args@), 0, found@);
    let mut i: usize = 0;
    while i < args.len()
        invariant
            i <= args@.len(),
            mir_subscript_arg_list_view(args@).len() == args@.len(),
            regs_of_subscripts(mir_subscript_arg_list_view(args@), i as nat, out@) == goal,
            goal == regs_of_subscripts(mir_subscript_arg_list_view(args@), 0, found@),
        decreases args@.len() - i,
    {
        let arg = &args[i];
        assert(mir_subscript_arg_list_view(args@)[i as int] == arg@);
        match arg {
            MirSubscriptArg::Index(reg) => {
                out.push(*reg);
            },
            MirSubscriptArg::Slice { lower, upper, step, .. } => {
                out = with_bounds(lower, upper, step, out);
            },
        }
        i = i + 1;
    }
    out
}

/// The registers an instruction reads: operands, arguments, stored values and the
/// subscripts of its places. Those inside the regions of a `try` are left out.
#[verifier::opaque]
pub open spec fn with_operands(instruction: MirInstrView, found: Seq<Reg>) -> Seq<Reg> {
    match instruction {
        MirInstrView::BeginLoan { place, .. } => regs_of_steps(place.proj, 0, found),
        MirInstrView::ConsumePlace { place, .. } => regs_of_steps(place.proj, 0, found),
        MirInstrView::MakeRef { place, .. } => regs_of_steps(place.proj, 0, found),
        MirInstrView::MovePlace { place, .. } => regs_of_steps(place.proj, 0, found),
        MirInstrView::LoadPlace { place, .. } => regs_of_steps(place.proj, 0, found),
        MirInstrView::ReadRef { reference, .. } => and_reg(found, reference),
        MirInstrView::WriteRef { reference, value } => and_reg(and_reg(found, reference), value),
        MirInstrView::UnOp { a, .. } => and_reg(found, a),
        MirInstrView::BinOp { a, b, .. } => and_reg(and_reg(found, a), b),
        MirInstrView::Store { place, src } => and_reg(regs_of_steps(place.proj, 0, found), src),
        MirInstrView::StoreRef { place, reference } => and_reg(
            regs_of_steps(place.proj, 0, found),
            reference,
        ),
        MirInstrView::MultiSet { receiver_place, args, value, .. } => {
            let out = regs_of_steps(receiver_place.proj, 0, found);
            let out = regs_of_subscripts(args, 0, out);
            and_reg(out, value)
        },
        MirInstrView::Call { args, kwargs, arg_places, param_arg_regs, .. } => {
            let out = and_kw_regs(kwargs, 0, and_regs(args, 0, found));
            let out = regs_of_places(arg_places, 0, out);
            and_opt_regs(param_arg_regs, 0, out)
        },
        MirInstrView::CallIndirect { callee, args, kwargs, .. } => {
            let out = and_reg(found, callee);
            and_kw_regs(kwargs, 0, and_regs(args, 0, out))
        },
        MirInstrView::MethodCall { recv, args, kwargs, recv_place, arg_places, .. } => {
            let out = and_reg(found, recv);
            let out = and_kw_regs(kwargs, 0, and_regs(args, 0, out));
            let out = regs_of_opt_place(recv_place, out);
            regs_of_places(arg_places, 0, out)
        },
        MirInstrView::GetField { base, .. } => and_reg(found, base),
        MirInstrView::Index { base, index, .. } => and_reg(and_reg(found, base), index),
        MirInstrView::Slice { object, lower, upper, step, .. } => {
            let out = and_reg(found, object);
            and_bounds(lower, upper, step, out)
        },
        MirInstrView::MultiIndex { object, args, .. } => {
            let out = and_reg(found, object);
            regs_of_subscripts(args, 0, out)
        },
        _ => with_constructed(instruction, found),
    }
}

/// See [`with_operands`].
pub fn instruction_operand_regs(instruction: &MirInstr, found: Vec<Reg>) -> (r: Vec<Reg>)
    ensures
        r@ == with_operands(instruction@, found@),
{
    proof { reveal(with_operands); }
    proof { unfold_mir_instr(*instruction); }
    match instruction {
        MirInstr::BeginLoan { place, .. } => place_regs(&place.proj, found),
        MirInstr::ConsumePlace { place, .. } => place_regs(&place.proj, found),
        MirInstr::MakeRef { place, .. } => place_regs(&place.proj, found),
        MirInstr::MovePlace { place, .. } => place_regs(&place.proj, found),
        MirInstr::LoadPlace { place, .. } => place_regs(&place.proj, found),
        MirInstr::ReadRef { reference, .. } => with_reg(found, *reference),
        MirInstr::WriteRef { reference, value } => with_reg(with_reg(found, *reference), *value),
        MirInstr::UnOp { a, .. } => with_reg(found, *a),
        MirInstr::BinOp { a, b, .. } => with_reg(with_reg(found, *a), *b),
        MirInstr::Store { place, src } => with_reg(place_regs(&place.proj, found), *src),
        MirInstr::StoreRef { place, reference } => with_reg(
            place_regs(&place.proj, found),
            *reference,
        ),
        MirInstr::MultiSet { receiver_place, args, value, .. } => {
            let out = place_regs(&receiver_place.proj, found);
            let out = subscript_arg_regs(args, out);
            with_reg(out, *value)
        },
        MirInstr::Call { args, kwargs, arg_places, param_arg_regs, .. } => {
            let out = with_kw_regs(kwargs, with_regs(args, found));
            let out = opt_place_regs(arg_places, out);
            with_opt_regs(param_arg_regs, out)
        },
        MirInstr::CallIndirect { callee, args, kwargs, .. } => {
            let out = with_reg(found, *callee);
            with_kw_regs(kwargs, with_regs(args, out))
        },
        MirInstr::MethodCall { recv, args, kwargs, recv_place, arg_places, .. } => {
            let out = with_reg(found, *recv);
            let out = with_kw_regs(kwargs, with_regs(args, out));
            let out = opt_place_reg(recv_place, out);
            opt_place_regs(arg_places, out)
        },
        MirInstr::GetField { base, .. } => with_reg(found, *base),
        MirInstr::Index { base, index, .. } => with_reg(with_reg(found, *base), *index),
        MirInstr::Slice { object, lower, upper, step, .. } => {
            let out = with_reg(found, *object);
            with_bounds(lower, upper, step, out)
        },
        MirInstr::MultiIndex { object, args, .. } => {
            let out = with_reg(found, *object);
            subscript_arg_regs(args, out)
        },
        _ => {
            assert(!(instruction@ is BeginLoan));
            assert(!(instruction@ is ConsumePlace));
            assert(!(instruction@ is MakeRef));
            assert(!(instruction@ is MovePlace));
            assert(!(instruction@ is LoadPlace));
            assert(!(instruction@ is ReadRef));
            assert(!(instruction@ is WriteRef));
            assert(!(instruction@ is UnOp));
            assert(!(instruction@ is BinOp));
            assert(!(instruction@ is Store));
            assert(!(instruction@ is StoreRef));
            assert(!(instruction@ is MultiSet));
            assert(!(instruction@ is Call));
            assert(!(instruction@ is CallIndirect));
            assert(!(instruction@ is MethodCall));
            assert(!(instruction@ is GetField));
            assert(!(instruction@ is Index));
            assert(!(instruction@ is Slice));
            assert(!(instruction@ is MultiIndex));
            constructed_operand_regs(instruction, found)
        },
    }
}

#[verifier::opaque]
pub open spec fn regs_of_opt_place(place: Option<MirPlaceView>, found: Seq<Reg>) -> Seq<Reg> {
    match place {
        Some(place) => regs_of_steps(place.proj, 0, found),
        None => found,
    }
}

/// See [`regs_of_opt_place`].
pub fn opt_place_reg(place: &Option<MirPlace>, found: Vec<Reg>) -> (r: Vec<Reg>)
    ensures
        r@ == regs_of_opt_place(opt_view(*place), found@),
{
    proof { reveal(regs_of_opt_place); }
    match place {
        Some(place) => place_regs(&place.proj, found),
        None => found,
    }
}

/// See [`instruction_operand_regs`], for the instructions that build values, write
/// variants and variables, or end control flow.
#[verifier::opaque]
pub open spec fn with_constructed(instruction: MirInstrView, found: Seq<Reg>) -> Seq<Reg> {
    match instruction {
        MirInstrView::MakeList { elems, .. } => and_regs(elems, 0, found),
        MirInstrView::MakeSet { elems, .. } => and_regs(elems, 0, found),
        MirInstrView::MakeTuple { elems, .. } => and_regs(elems, 0, found),
        MirInstrView::MakeSimd { elems, .. } => and_regs(elems, 0, found),
        MirInstrView::MakeDict { entries, .. } => and_entry_regs(entries, 0, found),
        MirInstrView::MakeVariant { value, .. } => and_reg(found, value),
        MirInstrView::MakeClosure { captures, .. } => regs_of_captures(captures, 0, found),
        MirInstrView::CollectionInsert { key, value, .. } => and_reg(
            and_opt_reg(key, found),
            value,
        ),
        MirInstrView::VariantIs { variant, .. } => and_reg(found, variant),
        MirInstrView::VariantGet { variant, .. } => and_reg(found, variant),
        MirInstrView::VariantTake { variant, .. } => and_reg(found, variant),
        MirInstrView::VariantSet { place, value, .. } => and_reg(
            regs_of_steps(place.proj, 0, found),
            value,
        ),
        MirInstrView::VariantReplace { place, value, .. } => and_reg(
            regs_of_steps(place.proj, 0, found),
            value,
        ),
        MirInstrView::Raise { src } => and_reg(found, src),
        MirInstrView::Drop { reg } => and_reg(found, reg),
        MirInstrView::DefVar { src, .. } => and_reg(found, src),
        _ => found,
    }
}

/// See [`with_constructed`].
pub fn constructed_operand_regs(instruction: &MirInstr, found: Vec<Reg>) -> (r: Vec<Reg>)
    ensures
        r@ == with_constructed(instruction@, found@),
{
    proof { reveal(with_constructed); }
    proof { unfold_mir_instr(*instruction); }
    match instruction {
        MirInstr::MakeList { elems, .. } => with_regs(elems, found),
        MirInstr::MakeSet { elems, .. } => with_regs(elems, found),
        MirInstr::MakeTuple { elems, .. } => with_regs(elems, found),
        MirInstr::MakeSimd { elems, .. } => with_regs(elems, found),
        MirInstr::MakeDict { entries, .. } => with_entry_regs(entries, found),
        MirInstr::MakeVariant { value, .. } => with_reg(found, *value),
        MirInstr::MakeClosure { captures, .. } => capture_regs(captures, found),
        MirInstr::CollectionInsert { key, value, .. } => with_reg(with_opt_reg(key, found), *value),
        MirInstr::VariantIs { variant, .. } => with_reg(found, *variant),
        MirInstr::VariantGet { variant, .. } => with_reg(found, *variant),
        MirInstr::VariantTake { variant, .. } => with_reg(found, *variant),
        MirInstr::VariantSet { place, value, .. } => with_reg(
            place_regs(&place.proj, found),
            *value,
        ),
        MirInstr::VariantReplace { place, value, .. } => with_reg(
            place_regs(&place.proj, found),
            *value,
        ),
        MirInstr::Raise { src } => with_reg(found, *src),
        MirInstr::Drop { reg } => with_reg(found, *reg),
        MirInstr::DefVar { src, .. } => with_reg(found, *src),
        _ => {
            assert(!(instruction@ is MakeList));
            assert(!(instruction@ is MakeSet));
            assert(!(instruction@ is MakeTuple));
            assert(!(instruction@ is MakeSimd));
            assert(!(instruction@ is MakeDict));
            assert(!(instruction@ is MakeVariant));
            assert(!(instruction@ is MakeClosure));
            assert(!(instruction@ is CollectionInsert));
            assert(!(instruction@ is VariantIs));
            assert(!(instruction@ is VariantGet));
            assert(!(instruction@ is VariantTake));
            assert(!(instruction@ is VariantSet));
            assert(!(instruction@ is VariantReplace));
            assert(!(instruction@ is Raise));
            assert(!(instruction@ is Drop));
            assert(!(instruction@ is DefVar));
            found
        },
    }
}

pub open spec fn places_of_captures(
    captures: Seq<MirClosureCaptureView>,
    i: nat,
    out: Seq<MirPlaceView>,
) -> Seq<MirPlaceView>
    decreases captures, (captures.len() - i) as nat,
{
    if i >= captures.len() {
        out
    } else {
        let capture = captures[i as int];
        let out = out.push(capture.place);
        places_of_captures(captures, i + 1, out)
    }
}

/// See [`places_of_captures`].
pub fn captured_places(captures: &Vec<MirClosureCapture>) -> (r: Vec<MirPlace>)
    ensures
        mir_place_list_view(r@) == places_of_captures(
            mir_closure_capture_list_view(captures@),
            0,
            Seq::<MirPlaceView>::empty(),
        ),
    decreases captures@, 0nat,
{
    let mut out: Vec<MirPlace> = Vec::new();
    assert(mir_place_list_view(out@) =~= Seq::<MirPlaceView>::empty());
    let ghost goal = places_of_captures(
        mir_closure_capture_list_view(captures@),
        0,
        Seq::<MirPlaceView>::empty(),
    );
    let mut i: usize = 0;
    while i < captures.len()
        invariant
            i <= captures@.len(),
            mir_closure_capture_list_view(captures@).len() == captures@.len(),
            places_of_captures(
                mir_closure_capture_list_view(captures@),
                i as nat,
                mir_place_list_view(out@),
            ) == goal,
            goal == places_of_captures(
                mir_closure_capture_list_view(captures@),
                0,
                Seq::<MirPlaceView>::empty(),
            ),
        decreases captures@.len() - i,
    {
        let capture = &captures[i];
        assert(mir_closure_capture_list_view(captures@)[i as int] == capture@);
        let item = clone_mir_place(&capture.place);
        let ghost before = mir_place_list_view(out@);
        let ghost added = item@;
        out.push(item);
        assert(mir_place_list_view(out@) =~= before.push(added));
        i = i + 1;
    }
    out
}

pub open spec fn places_present(
    places: Seq<Option<MirPlaceView>>,
    i: nat,
    out: Seq<MirPlaceView>,
) -> Seq<MirPlaceView>
    decreases places, (places.len() - i) as nat,
{
    if i >= places.len() {
        out
    } else {
        let place = places[i as int];
        match place {
            Some(place) => {
                let out = out.push(place);
                places_present(places, i + 1, out)
            },
            None => places_present(places, i + 1, out),
        }
    }
}

/// See [`places_present`].
pub fn present_places(
    places: &Vec<Option<MirPlace>>,
    found: Vec<MirPlace>,
) -> (r: Vec<MirPlace>)
    ensures
        mir_place_list_view(r@) == places_present(
            opt_place_list_view(places@),
            0,
            mir_place_list_view(found@),
        ),
    decreases places@, 0nat,
{
    let mut out: Vec<MirPlace> = found;
    let ghost goal = places_present(opt_place_list_view(places@), 0, mir_place_list_view(found@));
    let mut i: usize = 0;
    while i < places.len()
        invariant
            i <= places@.len(),
            opt_place_list_view(places@).len() == places@.len(),
            places_present(
                opt_place_list_view(places@),
                i as nat,
                mir_place_list_view(out@),
            ) == goal,
            goal == places_present(opt_place_list_view(places@), 0, mir_place_list_view(found@)),
        decreases places@.len() - i,
    {
        let place = &places[i];
        assert(opt_place_list_view(places@)[i as int] == opt_view(*place));
        match place {
            Some(place) => {
                let item = clone_mir_place(place);
                let ghost before = mir_place_list_view(out@);
                let ghost added = item@;
                out.push(item);
                assert(mir_place_list_view(out@) =~= before.push(added));
            },
            None => {},
        }
        i = i + 1;
    }
    out
}

/// The places an instruction reads or writes.
#[verifier::opaque]
pub open spec fn places_of_instr(instruction: MirInstrView) -> Seq<MirPlaceView> {
    match instruction {
        MirInstrView::BeginLoan { place, .. } => seq![place],
        MirInstrView::MakeRef { place, .. } => seq![place],
        MirInstrView::MovePlace { place, .. } => seq![place],
        MirInstrView::Store { place, .. } => seq![place],
        MirInstrView::StoreRef { place, .. } => seq![place],
        MirInstrView::MultiSet { receiver_place, .. } => seq![receiver_place],
        MirInstrView::LoadPlace { place, .. } => seq![place],
        MirInstrView::VariantSet { place, .. } => seq![place],
        MirInstrView::VariantReplace { place, .. } => seq![place],
        MirInstrView::ConsumePlace { place, .. } => seq![place],
        MirInstrView::MakeClosure { captures, .. } => places_of_captures(captures, 0, Seq::empty()),
        MirInstrView::Call { arg_places, .. } => places_present(arg_places, 0, Seq::empty()),
        MirInstrView::MethodCall { recv_place, arg_places, .. } => {
            let first = match recv_place {
                Some(place) => seq![place],
                None => Seq::empty(),
            };
            places_present(arg_places, 0, first)
        },
        _ => Seq::empty(),
    }
}

/// See [`places_of_instr`].
pub fn instruction_places(instruction: &MirInstr) -> (r: Vec<MirPlace>)
    ensures
        mir_place_list_view(r@) == places_of_instr(instruction@),
{
    proof { reveal(places_of_instr); }
    proof { unfold_mir_instr(*instruction); }
    match instruction {
        MirInstr::BeginLoan { place, .. } => {
            let item = clone_mir_place(place);
            let ghost seen = item@;
            let list = vec![item];
            assert(mir_place_list_view(list@) =~= seq![seen]);
            list
        },
        MirInstr::MakeRef { place, .. } => {
            let item2 = clone_mir_place(place);
            let ghost seen2 = item2@;
            let list2 = vec![item2];
            assert(mir_place_list_view(list2@) =~= seq![seen2]);
            list2
        },
        MirInstr::MovePlace { place, .. } => {
            let item3 = clone_mir_place(place);
            let ghost seen3 = item3@;
            let list3 = vec![item3];
            assert(mir_place_list_view(list3@) =~= seq![seen3]);
            list3
        },
        MirInstr::Store { place, .. } => {
            let item4 = clone_mir_place(place);
            let ghost seen4 = item4@;
            let list4 = vec![item4];
            assert(mir_place_list_view(list4@) =~= seq![seen4]);
            list4
        },
        MirInstr::StoreRef { place, .. } => {
            let item5 = clone_mir_place(place);
            let ghost seen5 = item5@;
            let list5 = vec![item5];
            assert(mir_place_list_view(list5@) =~= seq![seen5]);
            list5
        },
        MirInstr::MultiSet { receiver_place, .. } => {
            let item6 = clone_mir_place(receiver_place);
            let ghost seen6 = item6@;
            let list6 = vec![item6];
            assert(mir_place_list_view(list6@) =~= seq![seen6]);
            list6
        },
        MirInstr::LoadPlace { place, .. } => {
            let item7 = clone_mir_place(place);
            let ghost seen7 = item7@;
            let list7 = vec![item7];
            assert(mir_place_list_view(list7@) =~= seq![seen7]);
            list7
        },
        MirInstr::VariantSet { place, .. } => {
            let item8 = clone_mir_place(place);
            let ghost seen8 = item8@;
            let list8 = vec![item8];
            assert(mir_place_list_view(list8@) =~= seq![seen8]);
            list8
        },
        MirInstr::VariantReplace { place, .. } => {
            let item9 = clone_mir_place(place);
            let ghost seen9 = item9@;
            let list9 = vec![item9];
            assert(mir_place_list_view(list9@) =~= seq![seen9]);
            list9
        },
        MirInstr::ConsumePlace { place, .. } => {
            let item10 = clone_mir_place(place);
            let ghost seen10 = item10@;
            let list10 = vec![item10];
            assert(mir_place_list_view(list10@) =~= seq![seen10]);
            list10
        },
        MirInstr::MakeClosure { captures, .. } => captured_places(captures),
        MirInstr::Call { arg_places, .. } => {
            let list11: Vec<MirPlace> = Vec::new();
            assert(mir_place_list_view(list11@) =~= Seq::<MirPlaceView>::empty());
            present_places(arg_places, list11)
        },
        MirInstr::MethodCall { recv_place, arg_places, .. } => {
            let first: Vec<MirPlace> = match recv_place {
                Some(place) => {
                    let item11 = clone_mir_place(place);
                    let ghost seen11 = item11@;
                    let list12 = vec![item11];
                    assert(mir_place_list_view(list12@) =~= seq![seen11]);
                    list12
                },
                None => {
                    let list13: Vec<MirPlace> = Vec::new();
                    assert(mir_place_list_view(list13@) =~= Seq::<MirPlaceView>::empty());
                    list13
                },
            };
            present_places(arg_places, first)
        },
        _ => {
            assert(!(instruction@ is BeginLoan));
            assert(!(instruction@ is MakeRef));
            assert(!(instruction@ is MovePlace));
            assert(!(instruction@ is Store));
            assert(!(instruction@ is StoreRef));
            assert(!(instruction@ is MultiSet));
            assert(!(instruction@ is LoadPlace));
            assert(!(instruction@ is VariantSet));
            assert(!(instruction@ is VariantReplace));
            assert(!(instruction@ is ConsumePlace));
            assert(!(instruction@ is MakeClosure));
            assert(!(instruction@ is Call));
            assert(!(instruction@ is MethodCall));
            let list14: Vec<MirPlace> = Vec::new();
            assert(mir_place_list_view(list14@) =~= Seq::<MirPlaceView>::empty());
            list14
        },
    }
}

/// Whether a type mentions a parameter that is not substituted.
pub open spec fn mentions_param(ty: TyView) -> bool
    decreases ty, 0nat,
{
    match ty {
        TyView::Param { .. } => true,
        TyView::Assoc { .. } => true,
        TyView::List(inner) => mentions_param(*inner),
        TyView::SetOf(inner) => mentions_param(*inner),
        TyView::Pointer { element, .. } => mentions_param(*element),
        TyView::Dict(key, value) => mentions_param(*key) || mentions_param(*value),
        TyView::Tuple(elements) => some_mention_param(elements, 0),
        TyView::Variant(elements) => some_mention_param(elements, 0),
        TyView::Ref(reference) => referent_mentions_param(reference),
        TyView::Struct(_, args) => some_arg_mentions_param(args, 0),
        TyView::Func { params, ret } => some_mention_param(params, 0) || mentions_param(*ret),
        TyView::GenericFunc { params, ret } => some_mention_param(params, 0) || mentions_param(*ret),
        _ => false,
    }
}

/// See [`mentions_param`].
pub fn contains_type_param(ty: &Ty) -> (r: bool)
    ensures
        r == mentions_param(ty@),
    decreases ty, 0nat,
{
    proof { unfold_ty(*ty); }
    match ty {
        Ty::Param { .. } => true,
        Ty::Assoc { .. } => true,
        Ty::List(inner) => contains_type_param(&**inner),
        Ty::SetOf(inner) => contains_type_param(&**inner),
        Ty::Pointer { element, .. } => contains_type_param(&**element),
        Ty::Dict(key, value) => contains_type_param(&**key) || contains_type_param(&**value),
        Ty::Tuple(elements) => any_type_param(elements),
        Ty::Variant(elements) => any_type_param(elements),
        Ty::Ref(reference) => ref_type_param(reference),
        Ty::Struct(_, args) => any_arg_param(args),
        Ty::Func { params, ret } => any_type_param(params) || contains_type_param(&**ret),
        Ty::GenericFunc { params, ret } => any_type_param(params) || contains_type_param(&**ret),
        _ => {
            assert(!(ty@ is Param));
            assert(!(ty@ is Assoc));
            assert(!(ty@ is List));
            assert(!(ty@ is SetOf));
            assert(!(ty@ is Pointer));
            assert(!(ty@ is Dict));
            assert(!(ty@ is Tuple));
            assert(!(ty@ is Variant));
            assert(!(ty@ is Ref));
            assert(!(ty@ is Struct));
            assert(!(ty@ is Func));
            assert(!(ty@ is GenericFunc));
            false
        },
    }
}

pub open spec fn referent_mentions_param(reference: RefTyView) -> bool
    decreases reference, 0nat,
{
    mentions_param(*reference.referent)
}

/// See [`referent_mentions_param`].
pub fn ref_type_param(reference: &RefTy) -> (r: bool)
    ensures
        r == referent_mentions_param(reference@),
    decreases reference, 0nat,
{
    contains_type_param(&*reference.referent)
}

pub open spec fn some_mention_param(types: Seq<TyView>, i: nat) -> bool
    decreases types, (types.len() - i) as nat,
{
    if i >= types.len() {
        false
    } else {
        let ty = types[i as int];
        if mentions_param(ty) {
            true
        } else {
            some_mention_param(types, i + 1)
        }
    }
}

/// See [`some_mention_param`].
pub fn any_type_param(types: &Vec<Ty>) -> (r: bool)
    ensures
        r == some_mention_param(ty_list_view(types@), 0),
    decreases types@, 0nat,
{
    let ghost goal = some_mention_param(ty_list_view(types@), 0);
    let mut i: usize = 0;
    while i < types.len()
        invariant
            i <= types@.len(),
            ty_list_view(types@).len() == types@.len(),
            some_mention_param(ty_list_view(types@), i as nat) == goal,
            goal == some_mention_param(ty_list_view(types@), 0),
        decreases types@.len() - i,
    {
        let ty = &types[i];
        assert(ty_list_view(types@)[i as int] == ty@);
        if contains_type_param(ty) {
            return true;
        }
        i = i + 1;
    }
    false
}

pub open spec fn some_arg_mentions_param(args: Seq<TyArgView>, i: nat) -> bool
    decreases args, (args.len() - i) as nat,
{
    if i >= args.len() {
        false
    } else {
        let arg = args[i as int];
        if arg_mentions_param(arg) {
            true
        } else {
            some_arg_mentions_param(args, i + 1)
        }
    }
}

/// See [`some_arg_mentions_param`].
pub fn any_arg_param(args: &Vec<TyArg>) -> (r: bool)
    ensures
        r == some_arg_mentions_param(ty_arg_list_view(args@), 0),
    decreases args@, 0nat,
{
    let ghost goal = some_arg_mentions_param(ty_arg_list_view(args@), 0);
    let mut i: usize = 0;
    while i < args.len()
        invariant
            i <= args@.len(),
            ty_arg_list_view(args@).len() == args@.len(),
            some_arg_mentions_param(ty_arg_list_view(args@), i as nat) == goal,
            goal == some_arg_mentions_param(ty_arg_list_view(args@), 0),
        decreases args@.len() - i,
    {
        let arg = &args[i];
        assert(ty_arg_list_view(args@)[i as int] == arg@);
        if arg_type_param(arg) {
            return true;
        }
        i = i + 1;
    }
    false
}

pub open spec fn arg_mentions_param(arg: TyArgView) -> bool
    decreases arg, 0nat,
{
    match arg {
        TyArgView::Ty(ty) => mentions_param(ty),
        TyArgView::Val(_) => false,
    }
}

/// See [`arg_mentions_param`].
pub fn arg_type_param(arg: &TyArg) -> (r: bool)
    ensures
        r == arg_mentions_param(arg@),
    decreases arg, 0nat,
{
    match arg {
        TyArg::Ty(ty) => contains_type_param(ty),
        TyArg::Val(_) => false,
    }
}

/// Whether one type coerces into another: they are the same, or the pair is among
/// the recorded ones.
#[verifier::opaque]
pub open spec fn coerces_by(
    coercions: Seq<(TyView, TyView)>,
    found: TyView,
    expected: TyView,
) -> bool {
    found == expected || recorded_pair(coercions, found, expected, 0)
}

/// See [`coerces_by`].
pub fn value_coerces(coercions: &Vec<(Ty, Ty)>, found: &Ty, expected: &Ty) -> (r: bool)
    ensures
        r == coerces_by(ty_pair_list_view(coercions@), found@, expected@),
{
    proof { reveal(coerces_by); }
    same_ty(found, expected) || is_recorded(coercions, found, expected)
}

pub open spec fn recorded_pair(
    coercions: Seq<(TyView, TyView)>,
    found: TyView,
    expected: TyView,
    i: nat,
) -> bool
    decreases coercions, (coercions.len() - i) as nat,
{
    if i >= coercions.len() {
        false
    } else {
        let pair = coercions[i as int];
        if pair.0 == found && pair.1 == expected {
            true
        } else {
            recorded_pair(coercions, found, expected, i + 1)
        }
    }
}

/// See [`recorded_pair`].
pub fn is_recorded(coercions: &Vec<(Ty, Ty)>, found: &Ty, expected: &Ty) -> (r: bool)
    ensures
        r == recorded_pair(ty_pair_list_view(coercions@), found@, expected@, 0),
    decreases coercions@, 0nat,
{
    let ghost goal = recorded_pair(ty_pair_list_view(coercions@), found@, expected@, 0);
    let mut i: usize = 0;
    while i < coercions.len()
        invariant
            i <= coercions@.len(),
            ty_pair_list_view(coercions@).len() == coercions@.len(),
            recorded_pair(ty_pair_list_view(coercions@), found@, expected@, i as nat) == goal,
            goal == recorded_pair(ty_pair_list_view(coercions@), found@, expected@, 0),
        decreases coercions@.len() - i,
    {
        let pair = &coercions[i];
        assert(ty_pair_list_view(coercions@)[i as int].0 =~= pair.0@);
        assert(ty_pair_list_view(coercions@)[i as int].1 =~= pair.1@);
        if same_ty(&pair.0, found) && same_ty(&pair.1, expected) {
            return true;
        }
        i = i + 1;
    }
    false
}

/// Whether a value of one type can stand where another is expected: either type
/// coerces into the other, or the difference is none that is told apart here. A
/// type that mentions a parameter is not compared. A struct without arguments
/// stands for every instance of it. One member of an overload set is enough. A
/// struct may conform to a callable trait.
pub open spec fn compatible(
    coercions: Seq<(TyView, TyView)>,
    found: TyView,
    expected: TyView,
) -> bool
    decreases found, 1nat,
{
    if mentions_param(found) || mentions_param(expected) || struct_erased(found, expected) {
        true
    } else {
        match found {
            TyView::Overload(members) => some_compatible(coercions, members, expected, 0),
            _ => struct_callable(found, expected) || coerces_by(
                coercions,
                found,
                expected,
            ) || coerces_by(coercions, expected, found),
        }
    }
}

/// See [`compatible`].
pub fn types_compatible(coercions: &Vec<(Ty, Ty)>, found: &Ty, expected: &Ty) -> (r: bool)
    ensures
        r == compatible(ty_pair_list_view(coercions@), found@, expected@),
    decreases found, 1nat,
{
    if contains_type_param(found) || contains_type_param(expected) || same_struct(found, expected) {
        true
    } else {
        proof { unfold_ty(*found); }
        match found {
            Ty::Overload(members) => any_compatible(coercions, members, expected),
            _ => {
                assert(!(found@ is Overload));
                callable_struct(found, expected) || value_coerces(
                    coercions,
                    found,
                    expected,
                ) || value_coerces(coercions, expected, found)
            },
        }
    }
}

pub open spec fn some_compatible(
    coercions: Seq<(TyView, TyView)>,
    members: Seq<TyView>,
    expected: TyView,
    i: nat,
) -> bool
    decreases members, (members.len() - i) as nat,
{
    if i >= members.len() {
        false
    } else {
        let member = members[i as int];
        if compatible(coercions, member, expected) {
            true
        } else {
            some_compatible(coercions, members, expected, i + 1)
        }
    }
}

/// See [`some_compatible`].
pub fn any_compatible(coercions: &Vec<(Ty, Ty)>, members: &Vec<Ty>, expected: &Ty) -> (r: bool)
    ensures
        r == some_compatible(
            ty_pair_list_view(coercions@),
            ty_list_view(members@),
            expected@,
            0,
        ),
    decreases members@, 0nat,
{
    let ghost goal = some_compatible(
        ty_pair_list_view(coercions@),
        ty_list_view(members@),
        expected@,
        0,
    );
    let mut i: usize = 0;
    while i < members.len()
        invariant
            i <= members@.len(),
            ty_list_view(members@).len() == members@.len(),
            some_compatible(
                ty_pair_list_view(coercions@),
                ty_list_view(members@),
                expected@,
                i as nat,
            ) == goal,
            goal == some_compatible(
                ty_pair_list_view(coercions@),
                ty_list_view(members@),
                expected@,
                0,
            ),
        decreases members@.len() - i,
    {
        let member = &members[i];
        assert(ty_list_view(members@)[i as int] == member@);
        if types_compatible(coercions, member, expected) {
            return true;
        }
        i = i + 1;
    }
    false
}

#[verifier::opaque]
pub open spec fn struct_erased(found: TyView, expected: TyView) -> bool {
    match found {
        TyView::Struct(name, args) => match expected {
            TyView::Struct(other, other_args) => name == other && (
                args.len() == 0 || other_args.len() == 0
            ),
            _ => false,
        },
        _ => false,
    }
}

/// See [`struct_erased`].
pub fn same_struct(found: &Ty, expected: &Ty) -> (r: bool)
    ensures
        r == struct_erased(found@, expected@),
{
    proof { reveal(struct_erased); }
    proof { unfold_ty(*found); }
    match found {
        Ty::Struct(name, args) => {
            proof { unfold_ty(*expected); }
            match expected {
                Ty::Struct(other, other_args) => same_string(name, other) && (
                    args.len() == 0 || other_args.len() == 0
                ),
                _ => {
                    assert(!(expected@ is Struct));
                    false
                },
            }
        },
        _ => {
            assert(!(found@ is Struct));
            false
        },
    }
}

#[verifier::opaque]
pub open spec fn struct_callable(found: TyView, expected: TyView) -> bool {
    match found {
        TyView::Struct(_, _) => match expected {
            TyView::Func { .. } => true,
            _ => false,
        },
        _ => false,
    }
}

/// See [`struct_callable`].
pub fn callable_struct(found: &Ty, expected: &Ty) -> (r: bool)
    ensures
        r == struct_callable(found@, expected@),
{
    proof { reveal(struct_callable); }
    proof { unfold_ty(*found); }
    match found {
        Ty::Struct(_, _) => {
            proof { unfold_ty(*expected); }
            match expected {
                Ty::Func { .. } => true,
                _ => {
                    assert(!(expected@ is Func));
                    false
                },
            }
        },
        _ => {
            assert(!(found@ is Struct));
            false
        },
    }
}

/// The declaration of a callee.
pub open spec fn declaration_of(
    functions: Seq<MirFunctionDeclarationView>,
    callee: Seq<char>,
    i: nat,
) -> Option<MirFunctionDeclarationView>
    decreases functions, (functions.len() - i) as nat,
{
    if i >= functions.len() {
        None
    } else {
        let declaration = functions[i as int];
        if declaration.lowered_name == callee {
            Some(declaration)
        } else {
            declaration_of(functions, callee, i + 1)
        }
    }
}

/// See [`declaration_of`].
pub fn declared(
    functions: &Vec<MirFunctionDeclaration>,
    callee: &String,
) -> (r: Option<MirFunctionDeclaration>)
    ensures
        opt_view(r) == declaration_of(mir_function_declaration_list_view(functions@), callee@, 0),
    decreases functions@, 0nat,
{
    let ghost goal = declaration_of(mir_function_declaration_list_view(functions@), callee@, 0);
    let mut i: usize = 0;
    while i < functions.len()
        invariant
            i <= functions@.len(),
            mir_function_declaration_list_view(functions@).len() == functions@.len(),
            declaration_of(
                mir_function_declaration_list_view(functions@),
                callee@,
                i as nat,
            ) == goal,
            goal == declaration_of(mir_function_declaration_list_view(functions@), callee@, 0),
        decreases functions@.len() - i,
    {
        let declaration = &functions[i];
        assert(mir_function_declaration_list_view(functions@)[i as int] == declaration@);
        if same_string(&declaration.lowered_name, callee) {
            return Some(clone_mir_function_declaration(declaration));
        }
        i = i + 1;
    }
    None
}

pub open spec fn struct_declared(
    structs: Seq<MirStructDeclarationView>,
    name: Seq<char>,
    i: nat,
) -> Option<MirStructDeclarationView>
    decreases structs, (structs.len() - i) as nat,
{
    if i >= structs.len() {
        None
    } else {
        let declaration = structs[i as int];
        if declaration.name == name {
            Some(declaration)
        } else {
            struct_declared(structs, name, i + 1)
        }
    }
}

/// See [`struct_declared`].
pub fn declared_struct(
    structs: &Vec<MirStructDeclaration>,
    name: &String,
) -> (r: Option<MirStructDeclaration>)
    ensures
        opt_view(r) == struct_declared(mir_struct_declaration_list_view(structs@), name@, 0),
    decreases structs@, 0nat,
{
    let ghost goal = struct_declared(mir_struct_declaration_list_view(structs@), name@, 0);
    let mut i: usize = 0;
    while i < structs.len()
        invariant
            i <= structs@.len(),
            mir_struct_declaration_list_view(structs@).len() == structs@.len(),
            struct_declared(mir_struct_declaration_list_view(structs@), name@, i as nat) == goal,
            goal == struct_declared(mir_struct_declaration_list_view(structs@), name@, 0),
        decreases structs@.len() - i,
    {
        let declaration = &structs[i];
        assert(mir_struct_declaration_list_view(structs@)[i as int] == declaration@);
        if same_string(&declaration.name, name) {
            return Some(clone_mir_struct_declaration(declaration));
        }
        i = i + 1;
    }
    None
}

pub open spec fn declared_field(
    fields: Seq<(Seq<char>, TyView)>,
    name: Seq<char>,
    i: nat,
) -> Option<TyView>
    decreases fields, (fields.len() - i) as nat,
{
    if i >= fields.len() {
        None
    } else {
        let field = fields[i as int];
        if field.0 == name {
            Some(field.1)
        } else {
            declared_field(fields, name, i + 1)
        }
    }
}

/// See [`declared_field`].
pub fn field_type(fields: &Vec<(String, Ty)>, name: &String) -> (r: Option<Ty>)
    ensures
        opt_view(r) == declared_field(named_ty_list_view(fields@), name@, 0),
    decreases fields@, 0nat,
{
    let ghost goal = declared_field(named_ty_list_view(fields@), name@, 0);
    let mut i: usize = 0;
    while i < fields.len()
        invariant
            i <= fields@.len(),
            named_ty_list_view(fields@).len() == fields@.len(),
            declared_field(named_ty_list_view(fields@), name@, i as nat) == goal,
            goal == declared_field(named_ty_list_view(fields@), name@, 0),
        decreases fields@.len() - i,
    {
        let field = &fields[i];
        assert(named_ty_list_view(fields@)[i as int].0 =~= field.0@);
        assert(named_ty_list_view(fields@)[i as int].1 =~= field.1@);
        if same_string(&field.0, name) {
            return Some(clone_ty(&field.1));
        }
        i = i + 1;
    }
    None
}

pub open spec fn declares_param(params: Seq<(Seq<char>, bool)>, name: Seq<char>, i: nat) -> bool
    decreases params, (params.len() - i) as nat,
{
    if i >= params.len() {
        false
    } else {
        let param = params[i as int];
        if param.0 == name {
            true
        } else {
            declares_param(params, name, i + 1)
        }
    }
}

/// See [`declares_param`].
pub fn has_param(params: &Vec<(String, bool)>, name: &String) -> (r: bool)
    ensures
        r == declares_param(flagged_name_list_view(params@), name@, 0),
    decreases params@, 0nat,
{
    let ghost goal = declares_param(flagged_name_list_view(params@), name@, 0);
    let mut i: usize = 0;
    while i < params.len()
        invariant
            i <= params@.len(),
            flagged_name_list_view(params@).len() == params@.len(),
            declares_param(flagged_name_list_view(params@), name@, i as nat) == goal,
            goal == declares_param(flagged_name_list_view(params@), name@, 0),
        decreases params@.len() - i,
    {
        let param = &params[i];
        assert(flagged_name_list_view(params@)[i as int].0 =~= param.0@);
        if same_string(&param.0, name) {
            return true;
        }
        i = i + 1;
    }
    false
}

#[verifier::opaque]
pub open spec fn message_prefix(name: Seq<char>, block: usize) -> Seq<char> {
    "MIR function '"@ + name + "' block "@ + decimal(block as nat)
}

/// See [`message_prefix`].
pub fn prefix_of(name: &String, block: usize) -> (r: String)
    ensures
        r@ == message_prefix(name@, block),
{
    proof { reveal(message_prefix); }
    cat4("MIR function '", name.as_str(), "' block ", show_usize(block).as_str())
}

#[verifier::opaque]
pub open spec fn and_error(errors: Seq<Seq<char>>, message: Seq<char>) -> Seq<Seq<char>> {
    let out = errors;
    let out = out.push(message);
    out
}

/// See [`and_error`].
pub fn with_error(errors: Vec<String>, message: String) -> (r: Vec<String>)
    ensures
        string_list_view(r@) == and_error(string_list_view(errors@), message@),
{
    proof { reveal(and_error); }
    let mut out = errors;
    let ghost before = string_list_view(out@);
    let ghost added = message@;
    out.push(message);
    assert(string_list_view(out@) =~= before.push(added));
    out
}

/// The name of a register in messages.
#[verifier::opaque]
pub open spec fn reg_text(reg: Reg) -> Seq<char> {
    "r"@ + decimal(reg.0 as u64 as nat)
}

/// See [`reg_text`].
pub fn show_reg(reg: Reg) -> (r: String)
    ensures
        r@ == reg_text(reg),
{
    proof { reveal(reg_text); }
    cat2("r", show_u64(reg.0 as u64).as_str())
}

/// The registers must exist and have a type.
pub open spec fn register_errors(
    regs: Seq<Reg>,
    function: MirFunctionView,
    prefix: Seq<char>,
    i: nat,
    errors: Seq<Seq<char>>,
) -> Seq<Seq<char>>
    decreases regs, (regs.len() - i) as nat,
{
    if i >= regs.len() {
        errors
    } else {
        let reg = regs[i as int];
        if reg.0 >= function.n_regs {
            let errors = errors.push(prefix + ": invalid register "@ + reg_text(reg));
            register_errors(regs, function, prefix, i + 1, errors)
        } else if slot_type(function.reg_types, reg.0) is None {
            let errors = errors.push(prefix + ": untyped register "@ + reg_text(reg));
            register_errors(regs, function, prefix, i + 1, errors)
        } else {
            register_errors(regs, function, prefix, i + 1, errors)
        }
    }
}

/// See [`register_errors`].
pub fn verify_regs(
    regs: &Vec<Reg>,
    function: &MirFunction,
    prefix: &String,
    found: Vec<String>,
) -> (r: Vec<String>)
    ensures
        string_list_view(r@) == register_errors(
            regs@,
            function@,
            prefix@,
            0,
            string_list_view(found@),
        ),
    decreases regs@, 0nat,
{
    let mut errors: Vec<String> = found;
    let ghost goal = register_errors(regs@, function@, prefix@, 0, string_list_view(found@));
    let mut i: usize = 0;
    while i < regs.len()
        invariant
            i <= regs@.len(),
            register_errors(regs@, function@, prefix@, i as nat, string_list_view(errors@)) == goal,
            goal == register_errors(regs@, function@, prefix@, 0, string_list_view(found@)),
        decreases regs@.len() - i,
    {
        let reg = &regs[i];
        if reg.0 >= function.n_regs {
            let item = cat3(prefix.as_str(), ": invalid register ", show_reg(*reg).as_str());
            let ghost before = string_list_view(errors@);
            let ghost added = item@;
            errors.push(item);
            assert(string_list_view(errors@) =~= before.push(added));
        } else if find_slot_ty(&function.reg_types, reg.0).is_none() {
            let item2 = cat3(prefix.as_str(), ": untyped register ", show_reg(*reg).as_str());
            let ghost before2 = string_list_view(errors@);
            let ghost added2 = item2@;
            errors.push(item2);
            assert(string_list_view(errors@) =~= before2.push(added2));
        }
        i = i + 1;
    }
    errors
}

/// A place must have a root slot and complete types, and its projections must
/// agree with the declared layouts.
#[verifier::opaque]
pub open spec fn place_errors(
    function: MirFunctionView,
    declarations: MirDeclarationsView,
    place: MirPlaceView,
    prefix: Seq<char>,
    found: Seq<Seq<char>>,
) -> Seq<Seq<char>> {
    let errors = if (place.root as usize) >= function.n_vars {
        and_error(found, prefix + " place has invalid root slot "@ + decimal(place.root as u64 as nat))
    } else {
        found
    };
    if fully_typed(place) {
        step_errors(
            place.proj,
            place.projection_tys,
            function,
            declarations,
            prefix,
            0,
            errors,
            place.root_ty,
            0,
        )
    } else {
        and_error(
            errors,
            prefix + " place rooted at slot "@ + decimal(
                place.root as u64 as nat
            ) + " lacks complete checked type metadata"@,
        )
    }
}

/// See [`place_errors`].
pub fn verify_place(
    function: &MirFunction,
    declarations: &MirDeclarations,
    place: &MirPlace,
    prefix: &String,
    found: Vec<String>,
) -> (r: Vec<String>)
    ensures
        string_list_view(r@) == place_errors(
            function@,
            declarations@,
            place@,
            prefix@,
            string_list_view(found@),
        ),
{
    proof { reveal(place_errors); }
    let errors = if (place.root as usize) >= function.n_vars {
        with_error(found, cat3(prefix.as_str(), " place has invalid root slot ", show_u64(place.root as u64).as_str()))
    } else {
        found
    };
    if is_typed(place) {
        verify_steps(
            &place.proj,
            &place.projection_tys,
            (match (&place.root_ty) { Some(y) => Some(clone_ty(y)), None => None }),
            function,
            declarations,
            prefix,
            errors,
        )
    } else {
        with_error(
            errors,
            cat4(
                prefix.as_str(),
                " place rooted at slot ",
                show_u64(place.root as u64).as_str(),
                " lacks complete checked type metadata",
            ),
        )
    }
}

pub open spec fn step_errors(
    proj: Seq<ProjView>,
    types: Seq<TyView>,
    function: MirFunctionView,
    declarations: MirDeclarationsView,
    prefix: Seq<char>,
    i: nat,
    errors: Seq<Seq<char>>,
    current: Option<TyView>,
    k: usize,
) -> Seq<Seq<char>>
    decreases proj, (proj.len() - i) as nat,
{
    if i >= proj.len() {
        errors
    } else {
        let step = proj[i as int];
        if k >= types.len() {
            errors
        } else {
            let errors = one_step_errors(
                step,
                current,
                types[k as int],
                function,
                declarations,
                prefix,
                errors,
            );
            let current = Some(types[k as int]);
            let k = following_index(k);
            step_errors(proj, types, function, declarations, prefix, i + 1, errors, current, k)
        }
    }
}

/// See [`step_errors`].
pub fn verify_steps(
    proj: &Vec<Proj>,
    types: &Vec<Ty>,
    root: Option<Ty>,
    function: &MirFunction,
    declarations: &MirDeclarations,
    prefix: &String,
    found: Vec<String>,
) -> (r: Vec<String>)
    ensures
        string_list_view(r@) == step_errors(
            proj_list_view(proj@),
            ty_list_view(types@),
            function@,
            declarations@,
            prefix@,
            0,
            string_list_view(found@),
            opt_view(root),
            0,
        ),
    decreases proj@, 0nat,
{
    let mut errors: Vec<String> = found;
    let mut current: Option<Ty> = root;
    let mut k: usize = 0;
    let ghost goal = step_errors(
        proj_list_view(proj@),
        ty_list_view(types@),
        function@,
        declarations@,
        prefix@,
        0,
        string_list_view(found@),
        opt_view(root),
        0,
    );
    let mut i: usize = 0;
    while i < proj.len()
        invariant
            i <= proj@.len(),
            proj_list_view(proj@).len() == proj@.len(),
            step_errors(
                proj_list_view(proj@),
                ty_list_view(types@),
                function@,
                declarations@,
                prefix@,
                i as nat,
                string_list_view(errors@),
                opt_view(current),
                k,
            ) == goal,
            goal == step_errors(
                proj_list_view(proj@),
                ty_list_view(types@),
                function@,
                declarations@,
                prefix@,
                0,
                string_list_view(found@),
                opt_view(root),
                0,
            ),
        decreases proj@.len() - i,
    {
        let step = &proj[i];
        assert(proj_list_view(proj@)[i as int] == step@);
        if k >= types.len() {
            return errors;
        }
        errors = verify_step(step, &current, &types[k], function, declarations, prefix, errors);
        current = Some(clone_ty((&types[k])));
        k = next_index(k);
        i = i + 1;
    }
    errors
}

#[verifier::opaque]
pub open spec fn one_step_errors(
    step: ProjView,
    current: Option<TyView>,
    projected: TyView,
    function: MirFunctionView,
    declarations: MirDeclarationsView,
    prefix: Seq<char>,
    errors: Seq<Seq<char>>,
) -> Seq<Seq<char>> {
    match step {
        ProjView::Index(reg) => if reg.0 >= function.n_regs {
            and_error(errors, prefix + " place index uses invalid register "@ + reg_text(reg))
        } else {
            errors
        },
        ProjView::Field(field) => match current {
            Some(current) => field_errors(field, current, projected, declarations, prefix, errors),
            None => errors,
        },
        ProjView::Variant(index) => match current {
            Some(current) => alternative_errors(index, current, prefix, errors),
            None => errors,
        },
    }
}

/// See [`one_step_errors`].
pub fn verify_step(
    step: &Proj,
    current: &Option<Ty>,
    projected: &Ty,
    function: &MirFunction,
    declarations: &MirDeclarations,
    prefix: &String,
    errors: Vec<String>,
) -> (r: Vec<String>)
    ensures
        string_list_view(r@) == one_step_errors(
            step@,
            opt_view(*current),
            projected@,
            function@,
            declarations@,
            prefix@,
            string_list_view(errors@),
        ),
{
    proof { reveal(one_step_errors); }
    match step {
        Proj::Index(reg) => {
            if reg.0 >= function.n_regs {
                with_error(
                    errors,
                    cat3(prefix.as_str(), " place index uses invalid register ", show_reg(*reg).as_str()),
                )
            } else {
                errors
            }
        },
        Proj::Field(field) => {
            match current {
                Some(current) => verify_field(
                    field,
                    current,
                    projected,
                    declarations,
                    prefix,
                    errors,
                ),
                None => errors,
            }
        },
        Proj::Variant(index) => {
            match current {
                Some(current) => verify_alternative(*index, current, prefix, errors),
                None => errors,
            }
        },
    }
}

/// A field of a struct without arguments must be declared with a compatible type.
/// A value parameter is read like a field.
#[verifier::opaque]
pub open spec fn field_errors(
    field: Seq<char>,
    current: TyView,
    projected: TyView,
    declarations: MirDeclarationsView,
    prefix: Seq<char>,
    errors: Seq<Seq<char>>,
) -> Seq<Seq<char>> {
    match current {
        TyView::Struct(name, args) => if args.len() == 0 {
            match struct_declared(declarations.structs, name, 0) {
                Some(declaration) => match declared_field(declaration.fields, field, 0) {
                    Some(ty) => if compatible(declarations.coercions, projected, ty) {
                        errors
                    } else {
                        and_error(errors, field_message(prefix, field, name, projected, ty))
                    },
                    None => if declares_param(declaration.param_decls, field, 0) {
                        errors
                    } else {
                        and_error(errors, prefix + " place projects unknown field '"@ + field + "' of '"@ + name + "'"@)
                    },
                },
                None => errors,
            }
        } else {
            errors
        },
        _ => errors,
    }
}

/// See [`field_errors`].
pub fn verify_field(
    field: &String,
    current: &Ty,
    projected: &Ty,
    declarations: &MirDeclarations,
    prefix: &String,
    errors: Vec<String>,
) -> (r: Vec<String>)
    ensures
        string_list_view(r@) == field_errors(
            field@,
            current@,
            projected@,
            declarations@,
            prefix@,
            string_list_view(errors@),
        ),
{
    proof { reveal(field_errors); }
    proof { unfold_ty(*current); }
    match current {
        Ty::Struct(name, args) => {
            if args.len() == 0 {
                match declared_struct(&declarations.structs, name) {
                    Some(declaration) => {
                        match field_type(&declaration.fields, field) {
                            Some(ty) => {
                                if types_compatible(&declarations.coercions, projected, &ty) {
                                    errors
                                } else {
                                    with_error(
                                        errors,
                                        mistyped_field(prefix, field, name, projected, &ty),
                                    )
                                }
                            },
                            None => {
                                if has_param(&declaration.param_decls, field) {
                                    errors
                                } else {
                                    with_error(
                                        errors,
                                        cat6(
                                            prefix.as_str(),
                                            " place projects unknown field '",
                                            field.as_str(),
                                            "' of '",
                                            name.as_str(),
                                            "'",
                                        ),
                                    )
                                }
                            },
                        }
                    },
                    None => errors,
                }
            } else {
                errors
            }
        },
        _ => {
            assert(!(current@ is Struct));
            errors
        },
    }
}

#[verifier::opaque]
pub open spec fn field_message(
    prefix: Seq<char>,
    field: Seq<char>,
    name: Seq<char>,
    projected: TyView,
    ty: TyView,
) -> Seq<char> {
    let place = prefix + " place field '"@ + field + "' of '"@ + name + "' typed "@;
    place + ty_text(projected) + ", declared "@ + ty_text(ty)
}

/// See [`field_message`].
pub fn mistyped_field(
    prefix: &String,
    field: &String,
    name: &String,
    projected: &Ty,
    ty: &Ty,
) -> (r: String)
    ensures
        r@ == field_message(prefix@, field@, name@, projected@, ty@),
{
    proof { reveal(field_message); }
    let place = cat6(prefix.as_str(), " place field '", field.as_str(), "' of '", name.as_str(), "' typed ");
    cat4(place.as_str(), show_ty(projected).as_str(), ", declared ", show_ty(ty).as_str())
}

#[verifier::opaque]
pub open spec fn alternative_errors(
    index: usize,
    current: TyView,
    prefix: Seq<char>,
    errors: Seq<Seq<char>>,
) -> Seq<Seq<char>> {
    match current {
        TyView::Variant(alternatives) => if index >= alternatives.len() {
            and_error(
                errors,
                prefix + " place projects variant alternative "@ + decimal(index as nat) + " out of "@ + decimal(
                    alternatives.len() as usize as nat
                ),
            )
        } else {
            errors
        },
        _ => errors,
    }
}

/// See [`alternative_errors`].
pub fn verify_alternative(
    index: usize,
    current: &Ty,
    prefix: &String,
    errors: Vec<String>,
) -> (r: Vec<String>)
    ensures
        string_list_view(r@) == alternative_errors(
            index,
            current@,
            prefix@,
            string_list_view(errors@),
        ),
{
    proof { reveal(alternative_errors); }
    proof { unfold_ty(*current); }
    match current {
        Ty::Variant(alternatives) => {
            if index >= alternatives.len() {
                with_error(
                    errors,
                    cat5(
                        prefix.as_str(),
                        " place projects variant alternative ",
                        show_usize(index).as_str(),
                        " out of ",
                        show_usize(alternatives.len()).as_str(),
                    ),
                )
            } else {
                errors
            }
        },
        _ => {
            assert(!(current@ is Variant));
            errors
        },
    }
}

pub open spec fn places_errors(
    places: Seq<MirPlaceView>,
    function: MirFunctionView,
    declarations: MirDeclarationsView,
    prefix: Seq<char>,
    i: nat,
    errors: Seq<Seq<char>>,
) -> Seq<Seq<char>>
    decreases places, (places.len() - i) as nat,
{
    if i >= places.len() {
        errors
    } else {
        let place = places[i as int];
        let errors = place_errors(function, declarations, place, prefix, errors);
        places_errors(places, function, declarations, prefix, i + 1, errors)
    }
}

/// See [`places_errors`].
pub fn verify_places(
    places: &Vec<MirPlace>,
    function: &MirFunction,
    declarations: &MirDeclarations,
    prefix: &String,
    found: Vec<String>,
) -> (r: Vec<String>)
    ensures
        string_list_view(r@) == places_errors(
            mir_place_list_view(places@),
            function@,
            declarations@,
            prefix@,
            0,
            string_list_view(found@),
        ),
    decreases places@, 0nat,
{
    let mut errors: Vec<String> = found;
    let ghost goal = places_errors(
        mir_place_list_view(places@),
        function@,
        declarations@,
        prefix@,
        0,
        string_list_view(found@),
    );
    let mut i: usize = 0;
    while i < places.len()
        invariant
            i <= places@.len(),
            mir_place_list_view(places@).len() == places@.len(),
            places_errors(
                mir_place_list_view(places@),
                function@,
                declarations@,
                prefix@,
                i as nat,
                string_list_view(errors@),
            ) == goal,
            goal == places_errors(
                mir_place_list_view(places@),
                function@,
                declarations@,
                prefix@,
                0,
                string_list_view(found@),
            ),
        decreases places@.len() - i,
    {
        let place = &places[i];
        assert(mir_place_list_view(places@)[i as int] == place@);
        errors = verify_place(function, declarations, place, prefix, errors);
        i = i + 1;
    }
    errors
}

#[verifier::opaque]
pub open spec fn referent_of(reference: RefTyView) -> TyView {
    type_itself(*reference.referent)
}

/// See [`referent_of`].
pub fn referent(reference: &RefTy) -> (r: Ty)
    ensures
        r@ == referent_of(reference@),
{
    proof { reveal(referent_of); }
    copied_type(&*reference.referent)
}

#[verifier::opaque]
pub open spec fn type_itself(ty: TyView) -> TyView {
    ty
}

/// See [`type_itself`].
pub fn copied_type(ty: &Ty) -> (r: Ty)
    ensures
        r@ == type_itself(ty@),
{
    proof { reveal(type_itself); }
    clone_ty(ty)
}

/// What a reference stands for, or the type itself.
#[verifier::opaque]
pub open spec fn storage_type(ty: TyView) -> TyView {
    match ty {
        TyView::Ref(reference) => referent_of(reference),
        _ => ty,
    }
}

/// See [`storage_type`].
pub fn stored_type(ty: &Ty) -> (r: Ty)
    ensures
        r@ == storage_type(ty@),
{
    proof { reveal(storage_type); }
    proof { unfold_ty(*ty); }
    match ty {
        Ty::Ref(reference) => referent(reference),
        _ => {
            assert(!(ty@ is Ref));
            clone_ty(ty)
        },
    }
}

#[verifier::opaque]
pub open spec fn store_errors(
    place: MirPlaceView,
    src: Reg,
    function: MirFunctionView,
    declarations: MirDeclarationsView,
    prefix: Seq<char>,
    errors: Seq<Seq<char>>,
) -> Seq<Seq<char>> {
    match place.ty {
        Some(expected) => match slot_type(function.reg_types, src.0) {
            Some(found) => {
                let target = storage_type(expected);
                if compatible(declarations.coercions, found, target) {
                    errors
                } else {
                    and_error(
                        errors,
                        prefix + ": store of "@ + ty_text(found) + " into storage of type "@ + ty_text(target),
                    )
                }
            },
            None => errors,
        },
        None => errors,
    }
}

/// See [`store_errors`].
pub fn verify_store(
    place: &MirPlace,
    src: Reg,
    function: &MirFunction,
    declarations: &MirDeclarations,
    prefix: &String,
    errors: Vec<String>,
) -> (r: Vec<String>)
    ensures
        string_list_view(r@) == store_errors(
            place@,
            src,
            function@,
            declarations@,
            prefix@,
            string_list_view(errors@),
        ),
{
    proof { reveal(store_errors); }
    match &place.ty {
        Some(expected) => {
            match find_slot_ty(&function.reg_types, src.0) {
                Some(found) => {
                    let target = stored_type(expected);
                    if types_compatible(&declarations.coercions, &found, &target) {
                        errors
                    } else {
                        with_error(
                            errors,
                            cat5(
                                prefix.as_str(),
                                ": store of ",
                                show_ty(&found).as_str(),
                                " into storage of type ",
                                show_ty(&target).as_str(),
                            ),
                        )
                    }
                },
                None => errors,
            }
        },
        None => errors,
    }
}

#[verifier::opaque]
pub open spec fn store_ref_errors(
    place: MirPlaceView,
    prefix: Seq<char>,
    errors: Seq<Seq<char>>,
) -> Seq<Seq<char>> {
    match place.ty {
        Some(storage) => match storage {
            TyView::Ref(_) => errors,
            _ => and_error(errors, prefix + ": StoreRef into non-reference storage of type "@ + ty_text(storage)),
        },
        None => errors,
    }
}

/// See [`store_ref_errors`].
pub fn verify_store_ref(
    place: &MirPlace,
    prefix: &String,
    errors: Vec<String>,
) -> (r: Vec<String>)
    ensures
        string_list_view(r@) == store_ref_errors(place@, prefix@, string_list_view(errors@)),
{
    proof { reveal(store_ref_errors); }
    match &place.ty {
        Some(storage) => {
            proof { unfold_ty(*storage); }
            match storage {
                Ty::Ref(_) => errors,
                _ => {
                    assert(!(storage@ is Ref));
                    with_error(
                        errors,
                        cat3(
                            prefix.as_str(),
                            ": StoreRef into non-reference storage of type ",
                            show_ty(storage).as_str(),
                        ),
                    )
                },
            }
        },
        None => errors,
    }
}

#[verifier::opaque]
pub open spec fn binding_errors(
    src: Reg,
    expected: Option<TyView>,
    function: MirFunctionView,
    declarations: MirDeclarationsView,
    prefix: Seq<char>,
    errors: Seq<Seq<char>>,
) -> Seq<Seq<char>> {
    match expected {
        Some(expected) => match slot_type(function.reg_types, src.0) {
            Some(found) => if compatible(declarations.coercions, found, expected) {
                errors
            } else {
                and_error(
                    errors,
                    prefix + ": binding of "@ + ty_text(found) + " to a slot of type "@ + ty_text(expected),
                )
            },
            None => errors,
        },
        None => errors,
    }
}

/// See [`binding_errors`].
pub fn verify_binding(
    src: Reg,
    expected: &Option<Ty>,
    function: &MirFunction,
    declarations: &MirDeclarations,
    prefix: &String,
    errors: Vec<String>,
) -> (r: Vec<String>)
    ensures
        string_list_view(r@) == binding_errors(
            src,
            opt_view(*expected),
            function@,
            declarations@,
            prefix@,
            string_list_view(errors@),
        ),
{
    proof { reveal(binding_errors); }
    match expected {
        Some(expected) => {
            match find_slot_ty(&function.reg_types, src.0) {
                Some(found) => {
                    if types_compatible(&declarations.coercions, &found, expected) {
                        errors
                    } else {
                        with_error(
                            errors,
                            cat5(
                                prefix.as_str(),
                                ": binding of ",
                                show_ty(&found).as_str(),
                                " to a slot of type ",
                                show_ty(expected).as_str(),
                            ),
                        )
                    }
                },
                None => errors,
            }
        },
        None => errors,
    }
}

#[verifier::opaque]
pub open spec fn variant_errors(
    alternatives: Seq<TyView>,
    index: usize,
    value: Reg,
    function: MirFunctionView,
    declarations: MirDeclarationsView,
    prefix: Seq<char>,
    errors: Seq<Seq<char>>,
) -> Seq<Seq<char>> {
    if index >= alternatives.len() {
        and_error(
            errors,
            prefix + ": variant construction index "@ + decimal(index as nat) + " out of "@ + decimal(
                alternatives.len() as usize as nat
            ) + " alternatives"@,
        )
    } else {
        match slot_type(function.reg_types, value.0) {
            Some(found) => if compatible(
                declarations.coercions,
                found,
                alternatives[index as int],
            ) {
                errors
            } else {
                and_error(
                    errors,
                    prefix + ": variant payload "@ + ty_text(found) + " does not fit alternative "@ + ty_text(
                        alternatives[index as int]
                    ),
                )
            },
            None => errors,
        }
    }
}

/// See [`variant_errors`].
pub fn verify_variant(
    alternatives: &Vec<Ty>,
    index: usize,
    value: Reg,
    function: &MirFunction,
    declarations: &MirDeclarations,
    prefix: &String,
    errors: Vec<String>,
) -> (r: Vec<String>)
    ensures
        string_list_view(r@) == variant_errors(
            ty_list_view(alternatives@),
            index,
            value,
            function@,
            declarations@,
            prefix@,
            string_list_view(errors@),
        ),
{
    proof { reveal(variant_errors); }
    if index >= alternatives.len() {
        with_error(
            errors,
            cat6(
                prefix.as_str(),
                ": variant construction index ",
                show_usize(index).as_str(),
                " out of ",
                show_usize(alternatives.len()).as_str(),
                " alternatives",
            ),
        )
    } else {
        match find_slot_ty(&function.reg_types, value.0) {
            Some(found) => {
                if types_compatible(&declarations.coercions, &found, &alternatives[index]) {
                    errors
                } else {
                    with_error(
                        errors,
                        cat5(
                            prefix.as_str(),
                            ": variant payload ",
                            show_ty(&found).as_str(),
                            " does not fit alternative ",
                            show_ty(&alternatives[index]).as_str(),
                        ),
                    )
                }
            },
            None => errors,
        }
    }
}

/// The arguments of a call of a declared function. Only the plain positional shape
/// is compared.
#[verifier::opaque]
pub open spec fn call_errors(
    callee: Seq<char>,
    args: Seq<Reg>,
    kwargs: Seq<(Seq<char>, Reg)>,
    places: Seq<Option<MirPlaceView>>,
    function: MirFunctionView,
    declarations: MirDeclarationsView,
    prefix: Seq<char>,
    errors: Seq<Seq<char>>,
) -> Seq<Seq<char>> {
    match declaration_of(declarations.functions, callee, 0) {
        Some(declaration) => if kwargs.len() == 0 && declaration.variadic is None && declaration.kw_variadic is None && args.len() == declaration.param_types.len() {
            args_errors(args, declaration, places, function, declarations, prefix, 0, errors, 0)
        } else {
            errors
        },
        None => errors,
    }
}

/// See [`call_errors`].
pub fn verify_direct_call(
    callee: &String,
    args: &Vec<Reg>,
    kwargs: &Vec<(String, Reg)>,
    places: &Vec<Option<MirPlace>>,
    function: &MirFunction,
    declarations: &MirDeclarations,
    prefix: &String,
    errors: Vec<String>,
) -> (r: Vec<String>)
    ensures
        string_list_view(r@) == call_errors(
            callee@,
            args@,
            kw_reg_list_view(kwargs@),
            opt_place_list_view(places@),
            function@,
            declarations@,
            prefix@,
            string_list_view(errors@),
        ),
{
    proof { reveal(call_errors); }
    match declared(&declarations.functions, callee) {
        Some(declaration) => {
            if kwargs.len() == 0 && declaration.variadic.is_none() && declaration.kw_variadic.is_none() && args.len() == declaration.param_types.len() {
                verify_args(args, &declaration, places, function, declarations, prefix, errors)
            } else {
                errors
            }
        },
        None => errors,
    }
}

pub open spec fn args_errors(
    args: Seq<Reg>,
    declaration: MirFunctionDeclarationView,
    places: Seq<Option<MirPlaceView>>,
    function: MirFunctionView,
    declarations: MirDeclarationsView,
    prefix: Seq<char>,
    i: nat,
    errors: Seq<Seq<char>>,
    k: usize,
) -> Seq<Seq<char>>
    decreases args, (args.len() - i) as nat,
{
    if i >= args.len() {
        errors
    } else {
        let arg = args[i as int];
        let errors = arg_type_errors(arg, k, declaration, function, declarations, prefix, errors);
        let errors = write_back_errors(k, declaration, places, prefix, errors);
        let k = following_index(k);
        args_errors(args, declaration, places, function, declarations, prefix, i + 1, errors, k)
    }
}

/// See [`args_errors`].
pub fn verify_args(
    args: &Vec<Reg>,
    declaration: &MirFunctionDeclaration,
    places: &Vec<Option<MirPlace>>,
    function: &MirFunction,
    declarations: &MirDeclarations,
    prefix: &String,
    found: Vec<String>,
) -> (r: Vec<String>)
    ensures
        string_list_view(r@) == args_errors(
            args@,
            declaration@,
            opt_place_list_view(places@),
            function@,
            declarations@,
            prefix@,
            0,
            string_list_view(found@),
            0,
        ),
    decreases args@, 0nat,
{
    let mut errors: Vec<String> = found;
    let mut k: usize = 0;
    let ghost goal = args_errors(
        args@,
        declaration@,
        opt_place_list_view(places@),
        function@,
        declarations@,
        prefix@,
        0,
        string_list_view(found@),
        0,
    );
    let mut i: usize = 0;
    while i < args.len()
        invariant
            i <= args@.len(),
            args_errors(
                args@,
                declaration@,
                opt_place_list_view(places@),
                function@,
                declarations@,
                prefix@,
                i as nat,
                string_list_view(errors@),
                k,
            ) == goal,
            goal == args_errors(
                args@,
                declaration@,
                opt_place_list_view(places@),
                function@,
                declarations@,
                prefix@,
                0,
                string_list_view(found@),
                0,
            ),
        decreases args@.len() - i,
    {
        let arg = &args[i];
        errors = verify_arg_type(*arg, k, declaration, function, declarations, prefix, errors);
        errors = verify_write_back(k, declaration, places, prefix, errors);
        k = next_index(k);
        i = i + 1;
    }
    errors
}

#[verifier::opaque]
pub open spec fn arg_type_errors(
    arg: Reg,
    k: usize,
    declaration: MirFunctionDeclarationView,
    function: MirFunctionView,
    declarations: MirDeclarationsView,
    prefix: Seq<char>,
    errors: Seq<Seq<char>>,
) -> Seq<Seq<char>> {
    if k < declaration.param_types.len() {
        match slot_type(function.reg_types, arg.0) {
            Some(found) => if compatible(
                declarations.coercions,
                found,
                declaration.param_types[k as int],
            ) {
                errors
            } else {
                and_error(
                    errors,
                    arg_message(
                        prefix,
                        k,
                        declaration.lowered_name,
                        found,
                        declaration.param_types[k as int],
                    ),
                )
            },
            None => errors,
        }
    } else {
        errors
    }
}

/// See [`arg_type_errors`].
pub fn verify_arg_type(
    arg: Reg,
    k: usize,
    declaration: &MirFunctionDeclaration,
    function: &MirFunction,
    declarations: &MirDeclarations,
    prefix: &String,
    errors: Vec<String>,
) -> (r: Vec<String>)
    ensures
        string_list_view(r@) == arg_type_errors(
            arg,
            k,
            declaration@,
            function@,
            declarations@,
            prefix@,
            string_list_view(errors@),
        ),
{
    proof { reveal(arg_type_errors); }
    if k < declaration.param_types.len() {
        match find_slot_ty(&function.reg_types, arg.0) {
            Some(found) => {
                if types_compatible(&declarations.coercions, &found, &declaration.param_types[k]) {
                    errors
                } else {
                    with_error(
                        errors,
                        mistyped_arg(
                            prefix,
                            k,
                            &declaration.lowered_name,
                            &found,
                            &declaration.param_types[k],
                        ),
                    )
                }
            },
            None => errors,
        }
    } else {
        errors
    }
}

#[verifier::opaque]
pub open spec fn arg_message(
    prefix: Seq<char>,
    k: usize,
    callee: Seq<char>,
    found: TyView,
    expected: TyView,
) -> Seq<char> {
    let argument = prefix + ": argument "@ + decimal(k as nat) + " of '"@ + callee + "' has type "@;
    argument + ty_text(found) + ", declared "@ + ty_text(expected)
}

/// See [`arg_message`].
pub fn mistyped_arg(
    prefix: &String,
    k: usize,
    callee: &String,
    found: &Ty,
    expected: &Ty,
) -> (r: String)
    ensures
        r@ == arg_message(prefix@, k, callee@, found@, expected@),
{
    proof { reveal(arg_message); }
    let argument = cat6(
        prefix.as_str(),
        ": argument ",
        show_usize(k).as_str(),
        " of '",
        callee.as_str(),
        "' has type ",
    );
    cat4(argument.as_str(), show_ty(found).as_str(), ", declared ", show_ty(expected).as_str())
}

#[verifier::opaque]
pub open spec fn write_back_errors(
    k: usize,
    declaration: MirFunctionDeclarationView,
    places: Seq<Option<MirPlaceView>>,
    prefix: Seq<char>,
    errors: Seq<Seq<char>>,
) -> Seq<Seq<char>> {
    let needed = k < declaration.ref_params.len() && declaration.ref_params[k as int];
    let given = k < places.len() && places[k as int] is Some;
    if needed && !given {
        and_error(
            errors,
            prefix + ": write-back parameter "@ + decimal(k as nat) + " of '"@ + declaration.lowered_name + "' has no caller place"@,
        )
    } else {
        errors
    }
}

/// See [`write_back_errors`].
pub fn verify_write_back(
    k: usize,
    declaration: &MirFunctionDeclaration,
    places: &Vec<Option<MirPlace>>,
    prefix: &String,
    errors: Vec<String>,
) -> (r: Vec<String>)
    ensures
        string_list_view(r@) == write_back_errors(
            k,
            declaration@,
            opt_place_list_view(places@),
            prefix@,
            string_list_view(errors@),
        ),
{
    proof { reveal(write_back_errors); }
    let needed = k < declaration.ref_params.len() && declaration.ref_params[k];
    let given = k < places.len() && places[k].is_some();
    if needed && !given {
        with_error(
            errors,
            cat6(
                prefix.as_str(),
                ": write-back parameter ",
                show_usize(k).as_str(),
                " of '",
                &declaration.lowered_name.as_str(),
                "' has no caller place",
            ),
        )
    } else {
        errors
    }
}

/// A call that can raise must be handled, or stand in a function that raises.
#[verifier::opaque]
pub open spec fn raising_errors(
    raises: Option<TyView>,
    function: MirFunctionView,
    protected: bool,
    prefix: Seq<char>,
    errors: Seq<Seq<char>>,
) -> Seq<Seq<char>> {
    if raises is Some && !function.raises && !protected {
        and_error(errors, prefix + ": unprotected raising call in nonraising function"@)
    } else {
        errors
    }
}

/// See [`raising_errors`].
pub fn verify_raising(
    raises: &Option<Ty>,
    function: &MirFunction,
    protected: bool,
    prefix: &String,
    errors: Vec<String>,
) -> (r: Vec<String>)
    ensures
        string_list_view(r@) == raising_errors(
            opt_view(*raises),
            function@,
            protected,
            prefix@,
            string_list_view(errors@),
        ),
{
    proof { reveal(raising_errors); }
    if raises.is_some() && !function.raises && !protected {
        with_error(errors, cat2(prefix.as_str(), ": unprotected raising call in nonraising function"))
    } else {
        errors
    }
}

/// The types and effects of an instruction other than a `try`.
#[verifier::opaque]
pub open spec fn effect_errors(
    instruction: MirInstrView,
    function: MirFunctionView,
    declarations: MirDeclarationsView,
    protected: bool,
    prefix: Seq<char>,
    errors: Seq<Seq<char>>,
) -> Seq<Seq<char>> {
    match instruction {
        MirInstrView::Store { place, src } => store_errors(
            place,
            src,
            function,
            declarations,
            prefix,
            errors,
        ),
        MirInstrView::StoreRef { place, .. } => store_ref_errors(place, prefix, errors),
        MirInstrView::DefVar { src, binding_ty, .. } => binding_errors(
            src,
            binding_ty,
            function,
            declarations,
            prefix,
            errors,
        ),
        MirInstrView::MakeVariant { alternatives, index, value, .. } => variant_errors(
            alternatives,
            index,
            value,
            function,
            declarations,
            prefix,
            errors,
        ),
        MirInstrView::Call { func, raises, args, kwargs, arg_places, .. } => {
            let errors = call_errors(
                func.name,
                args,
                kwargs,
                arg_places,
                function,
                declarations,
                prefix,
                errors,
            );
            raising_errors(raises, function, protected, prefix, errors)
        },
        MirInstrView::CallIndirect { raises, .. } => raising_errors(
            raises,
            function,
            protected,
            prefix,
            errors,
        ),
        MirInstrView::MethodCall { resolved, raises, args, kwargs, arg_places, .. } => {
            let errors = match resolved {
                Some(callee) => call_errors(
                    callee,
                    args,
                    kwargs,
                    arg_places,
                    function,
                    declarations,
                    prefix,
                    errors,
                ),
                None => errors,
            };
            raising_errors(raises, function, protected, prefix, errors)
        },
        MirInstrView::Raise { .. } => if !function.raises && !protected {
            and_error(errors, prefix + ": unprotected raise in nonraising function"@)
        } else {
            errors
        },
        _ => errors,
    }
}

/// See [`effect_errors`].
pub fn verify_effects(
    instruction: &MirInstr,
    function: &MirFunction,
    declarations: &MirDeclarations,
    protected: bool,
    prefix: &String,
    errors: Vec<String>,
) -> (r: Vec<String>)
    ensures
        string_list_view(r@) == effect_errors(
            instruction@,
            function@,
            declarations@,
            protected,
            prefix@,
            string_list_view(errors@),
        ),
{
    proof { reveal(effect_errors); }
    proof { unfold_mir_instr(*instruction); }
    match instruction {
        MirInstr::Store { place, src } => verify_store(
            place,
            *src,
            function,
            declarations,
            prefix,
            errors,
        ),
        MirInstr::StoreRef { place, .. } => verify_store_ref(place, prefix, errors),
        MirInstr::DefVar { src, binding_ty, .. } => verify_binding(
            *src,
            binding_ty,
            function,
            declarations,
            prefix,
            errors,
        ),
        MirInstr::MakeVariant { alternatives, index, value, .. } => verify_variant(
            alternatives,
            *index,
            *value,
            function,
            declarations,
            prefix,
            errors,
        ),
        MirInstr::Call { func, raises, args, kwargs, arg_places, .. } => {
            let errors = verify_direct_call(
                &func.name,
                args,
                kwargs,
                arg_places,
                function,
                declarations,
                prefix,
                errors,
            );
            verify_raising(raises, function, protected, prefix, errors)
        },
        MirInstr::CallIndirect { raises, .. } => verify_raising(
            raises,
            function,
            protected,
            prefix,
            errors,
        ),
        MirInstr::MethodCall { resolved, raises, args, kwargs, arg_places, .. } => {
            let errors = match resolved {
                Some(callee) => verify_direct_call(
                    callee,
                    args,
                    kwargs,
                    arg_places,
                    function,
                    declarations,
                    prefix,
                    errors,
                ),
                None => errors,
            };
            verify_raising(raises, function, protected, prefix, errors)
        },
        MirInstr::Raise { .. } => {
            if !function.raises && !protected {
                with_error(errors, cat2(prefix.as_str(), ": unprotected raise in nonraising function"))
            } else {
                errors
            }
        },
        _ => {
            assert(!(instruction@ is Store));
            assert(!(instruction@ is StoreRef));
            assert(!(instruction@ is DefVar));
            assert(!(instruction@ is MakeVariant));
            assert(!(instruction@ is Call));
            assert(!(instruction@ is CallIndirect));
            assert(!(instruction@ is MethodCall));
            assert(!(instruction@ is Raise));
            errors
        },
    }
}

/// The places and registers of an instruction.
#[verifier::opaque]
pub open spec fn operand_errors(
    instruction: MirInstrView,
    function: MirFunctionView,
    declarations: MirDeclarationsView,
    prefix: Seq<char>,
    errors: Seq<Seq<char>>,
) -> Seq<Seq<char>> {
    let places = places_of_instr(instruction);
    let errors = places_errors(places, function, declarations, prefix, 0, errors);
    let regs = with_results(instruction, Seq::empty());
    let regs = with_operands(instruction, regs);
    register_errors(regs, function, prefix, 0, errors)
}

/// See [`operand_errors`].
pub fn verify_operands(
    instruction: &MirInstr,
    function: &MirFunction,
    declarations: &MirDeclarations,
    prefix: &String,
    errors: Vec<String>,
) -> (r: Vec<String>)
    ensures
        string_list_view(r@) == operand_errors(
            instruction@,
            function@,
            declarations@,
            prefix@,
            string_list_view(errors@),
        ),
{
    proof { reveal(operand_errors); }
    let places = instruction_places(instruction);
    let errors = verify_places(&places, function, declarations, prefix, errors);
    let list: Vec<Reg> = Vec::new();
    assert(list@ =~= Seq::<Reg>::empty());
    let regs = instruction_result_regs(instruction, list);
    let regs = instruction_operand_regs(instruction, regs);
    verify_regs(&regs, function, prefix, errors)
}

/// One instruction of a block. `function_len` is the number of blocks of the
/// function; `protected` says whether a handler takes what is raised here.
pub open spec fn instruction_errors(
    instruction: MirInstrView,
    name: Seq<char>,
    function: MirFunctionView,
    declarations: MirDeclarationsView,
    block: usize,
    function_len: usize,
    protected: bool,
    found: Seq<Seq<char>>,
) -> Seq<Seq<char>>
    decreases instruction, 0nat,
{
    let prefix = message_prefix(name, block);
    let errors = operand_errors(instruction, function, declarations, prefix, found);
    match instruction {
        MirInstrView::Try { body, handler, orelse, finalbody, .. } => {
            let handled = handler is Some || protected;
            let errors = blocks_errors(
                body,
                name,
                function,
                declarations,
                body.len() as usize,
                function_len,
                true,
                handled,
                0,
                errors,
                0,
            );
            let errors = handler_errors(
                handler,
                name,
                function,
                declarations,
                function_len,
                protected,
                errors,
            );
            let errors = region_errors(
                orelse,
                name,
                function,
                declarations,
                function_len,
                protected,
                errors,
            );
            region_errors(finalbody, name, function, declarations, function_len, protected, errors)
        },
        _ => effect_errors(instruction, function, declarations, protected, prefix, errors),
    }
}

/// See [`instruction_errors`].
pub fn verify_instruction(
    instruction: &MirInstr,
    name: &String,
    function: &MirFunction,
    declarations: &MirDeclarations,
    block: usize,
    function_len: usize,
    protected: bool,
    found: Vec<String>,
) -> (r: Vec<String>)
    ensures
        string_list_view(r@) == instruction_errors(
            instruction@,
            name@,
            function@,
            declarations@,
            block,
            function_len,
            protected,
            string_list_view(found@),
        ),
    decreases instruction, 0nat,
{
    let prefix = prefix_of(name, block);
    let errors = verify_operands(instruction, function, declarations, &prefix, found);
    proof { unfold_mir_instr(*instruction); }
    match instruction {
        MirInstr::Try { body, handler, orelse, finalbody, .. } => {
            let handled = handler.is_some() || protected;
            let errors = verify_blocks(
                body,
                name,
                function,
                declarations,
                body.len(),
                function_len,
                true,
                handled,
                errors,
            );
            let errors = verify_handler(
                handler,
                name,
                function,
                declarations,
                function_len,
                protected,
                errors,
            );
            let errors = verify_region(
                orelse,
                name,
                function,
                declarations,
                function_len,
                protected,
                errors,
            );
            verify_region(finalbody, name, function, declarations, function_len, protected, errors)
        },
        _ => {
            assert(!(instruction@ is Try));
            verify_effects(instruction, function, declarations, protected, &prefix, errors)
        },
    }
}

pub open spec fn handler_errors(
    handler: Option<(Option<u32>, Seq<MirBlockView>)>,
    name: Seq<char>,
    function: MirFunctionView,
    declarations: MirDeclarationsView,
    function_len: usize,
    protected: bool,
    errors: Seq<Seq<char>>,
) -> Seq<Seq<char>>
    decreases handler, 0nat,
{
    match handler {
        Some((_, blocks)) => blocks_errors(
            blocks,
            name,
            function,
            declarations,
            blocks.len() as usize,
            function_len,
            true,
            protected,
            0,
            errors,
            0,
        ),
        None => errors,
    }
}

/// See [`handler_errors`].
pub fn verify_handler(
    handler: &Option<(Option<u32>, Vec<MirBlock>)>,
    name: &String,
    function: &MirFunction,
    declarations: &MirDeclarations,
    function_len: usize,
    protected: bool,
    errors: Vec<String>,
) -> (r: Vec<String>)
    ensures
        string_list_view(r@) == handler_errors(
            (match handler { Some(v) => Some((v.0, mir_block_list_view(v.1@))), None => None }),
            name@,
            function@,
            declarations@,
            function_len,
            protected,
            string_list_view(errors@),
        ),
    decreases handler, 0nat,
{
    match handler {
        Some((_, blocks)) => verify_blocks(
            blocks,
            name,
            function,
            declarations,
            blocks.len(),
            function_len,
            true,
            protected,
            errors,
        ),
        None => errors,
    }
}

pub open spec fn region_errors(
    region: Option<Seq<MirBlockView>>,
    name: Seq<char>,
    function: MirFunctionView,
    declarations: MirDeclarationsView,
    function_len: usize,
    protected: bool,
    errors: Seq<Seq<char>>,
) -> Seq<Seq<char>>
    decreases region, 0nat,
{
    match region {
        Some(blocks) => blocks_errors(
            blocks,
            name,
            function,
            declarations,
            blocks.len() as usize,
            function_len,
            true,
            protected,
            0,
            errors,
            0,
        ),
        None => errors,
    }
}

/// See [`region_errors`].
pub fn verify_region(
    region: &Option<Vec<MirBlock>>,
    name: &String,
    function: &MirFunction,
    declarations: &MirDeclarations,
    function_len: usize,
    protected: bool,
    errors: Vec<String>,
) -> (r: Vec<String>)
    ensures
        string_list_view(r@) == region_errors(
            (match region { Some(v) => Some(mir_block_list_view(v@)), None => None }),
            name@,
            function@,
            declarations@,
            function_len,
            protected,
            string_list_view(errors@),
        ),
    decreases region, 0nat,
{
    match region {
        Some(blocks) => verify_blocks(
            blocks,
            name,
            function,
            declarations,
            blocks.len(),
            function_len,
            true,
            protected,
            errors,
        ),
        None => errors,
    }
}

pub open spec fn instructions_errors(
    instrs: Seq<MirInstrView>,
    name: Seq<char>,
    function: MirFunctionView,
    declarations: MirDeclarationsView,
    block: usize,
    function_len: usize,
    protected: bool,
    i: nat,
    errors: Seq<Seq<char>>,
) -> Seq<Seq<char>>
    decreases instrs, (instrs.len() - i) as nat,
{
    if i >= instrs.len() {
        errors
    } else {
        let instruction = instrs[i as int];
        let errors = instruction_errors(
            instruction,
            name,
            function,
            declarations,
            block,
            function_len,
            protected,
            errors,
        );
        instructions_errors(
            instrs,
            name,
            function,
            declarations,
            block,
            function_len,
            protected,
            i + 1,
            errors,
        )
    }
}

/// See [`instructions_errors`].
pub fn verify_instrs(
    instrs: &Vec<MirInstr>,
    name: &String,
    function: &MirFunction,
    declarations: &MirDeclarations,
    block: usize,
    function_len: usize,
    protected: bool,
    found: Vec<String>,
) -> (r: Vec<String>)
    ensures
        string_list_view(r@) == instructions_errors(
            mir_instr_list_view(instrs@),
            name@,
            function@,
            declarations@,
            block,
            function_len,
            protected,
            0,
            string_list_view(found@),
        ),
    decreases instrs@, 0nat,
{
    let mut errors: Vec<String> = found;
    let ghost goal = instructions_errors(
        mir_instr_list_view(instrs@),
        name@,
        function@,
        declarations@,
        block,
        function_len,
        protected,
        0,
        string_list_view(found@),
    );
    let mut i: usize = 0;
    while i < instrs.len()
        invariant
            i <= instrs@.len(),
            mir_instr_list_view(instrs@).len() == instrs@.len(),
            instructions_errors(
                mir_instr_list_view(instrs@),
                name@,
                function@,
                declarations@,
                block,
                function_len,
                protected,
                i as nat,
                string_list_view(errors@),
            ) == goal,
            goal == instructions_errors(
                mir_instr_list_view(instrs@),
                name@,
                function@,
                declarations@,
                block,
                function_len,
                protected,
                0,
                string_list_view(found@),
            ),
        decreases instrs@.len() - i,
    {
        let instruction = &instrs[i];
        assert(mir_instr_list_view(instrs@)[i as int] == instruction@);
        errors = verify_instruction(
            instruction,
            name,
            function,
            declarations,
            block,
            function_len,
            protected,
            errors,
        );
        i = i + 1;
    }
    errors
}

/// The blocks of a function, or of a region of a `try`.
pub open spec fn blocks_errors(
    blocks: Seq<MirBlockView>,
    name: Seq<char>,
    function: MirFunctionView,
    declarations: MirDeclarationsView,
    region_len: usize,
    function_len: usize,
    in_try: bool,
    protected: bool,
    i: nat,
    errors: Seq<Seq<char>>,
    k: usize,
) -> Seq<Seq<char>>
    decreases blocks, (blocks.len() - i) as nat,
{
    if i >= blocks.len() {
        errors
    } else {
        let block = blocks[i as int];
        let errors = instructions_errors(
            block.instrs,
            name,
            function,
            declarations,
            k,
            function_len,
            protected,
            0,
            errors,
        );
        let errors = terminator_errors(
            block.term,
            name,
            function,
            declarations,
            k,
            region_len,
            function_len,
            in_try,
            errors,
        );
        let k = following_index(k);
        blocks_errors(
            blocks,
            name,
            function,
            declarations,
            region_len,
            function_len,
            in_try,
            protected,
            i + 1,
            errors,
            k,
        )
    }
}

/// See [`blocks_errors`].
pub fn verify_blocks(
    blocks: &Vec<MirBlock>,
    name: &String,
    function: &MirFunction,
    declarations: &MirDeclarations,
    region_len: usize,
    function_len: usize,
    in_try: bool,
    protected: bool,
    found: Vec<String>,
) -> (r: Vec<String>)
    ensures
        string_list_view(r@) == blocks_errors(
            mir_block_list_view(blocks@),
            name@,
            function@,
            declarations@,
            region_len,
            function_len,
            in_try,
            protected,
            0,
            string_list_view(found@),
            0,
        ),
    decreases blocks@, 0nat,
{
    let mut errors: Vec<String> = found;
    let mut k: usize = 0;
    let ghost goal = blocks_errors(
        mir_block_list_view(blocks@),
        name@,
        function@,
        declarations@,
        region_len,
        function_len,
        in_try,
        protected,
        0,
        string_list_view(found@),
        0,
    );
    let mut i: usize = 0;
    while i < blocks.len()
        invariant
            i <= blocks@.len(),
            mir_block_list_view(blocks@).len() == blocks@.len(),
            blocks_errors(
                mir_block_list_view(blocks@),
                name@,
                function@,
                declarations@,
                region_len,
                function_len,
                in_try,
                protected,
                i as nat,
                string_list_view(errors@),
                k,
            ) == goal,
            goal == blocks_errors(
                mir_block_list_view(blocks@),
                name@,
                function@,
                declarations@,
                region_len,
                function_len,
                in_try,
                protected,
                0,
                string_list_view(found@),
                0,
            ),
        decreases blocks@.len() - i,
    {
        let block = &blocks[i];
        assert(mir_block_list_view(blocks@)[i as int] == block@);
        errors = verify_instrs(
            &block.instrs,
            name,
            function,
            declarations,
            k,
            function_len,
            protected,
            errors,
        );
        errors = verify_terminator(
            &block.term,
            name,
            function,
            declarations,
            k,
            region_len,
            function_len,
            in_try,
            errors,
        );
        k = next_index(k);
        i = i + 1;
    }
    errors
}

/// How a block ends: targets must exist, a condition must be a boolean, a result
/// must have the declared type, and only a region can fall off its end or leave
/// for a block of the function.
#[verifier::opaque]
pub open spec fn terminator_errors(
    term: MirTermView,
    name: Seq<char>,
    function: MirFunctionView,
    declarations: MirDeclarationsView,
    block: usize,
    region_len: usize,
    function_len: usize,
    in_try: bool,
    errors: Seq<Seq<char>>,
) -> Seq<Seq<char>> {
    let prefix = message_prefix(name, block);
    match term {
        MirTermView::Jump(target) => if target >= region_len {
            and_error(errors, prefix + ": jump to invalid block "@ + decimal(target as nat))
        } else {
            errors
        },
        MirTermView::Branch { cond, then_b, else_b } => {
            let errors = target_errors(then_b, region_len, prefix, errors);
            let errors = target_errors(else_b, region_len, prefix, errors);
            condition_errors(cond, function, prefix, errors)
        },
        MirTermView::Return(value) => match value {
            Some(reg) => return_errors(reg, function, declarations, prefix, errors),
            None => errors,
        },
        MirTermView::FallOff => if in_try {
            errors
        } else {
            and_error(errors, prefix + ": FallOff terminator outside a try region"@)
        },
        MirTermView::EscapeJump { target, .. } => escape_errors(
            target,
            function_len,
            in_try,
            prefix,
            errors,
        ),
    }
}

/// See [`terminator_errors`].
pub fn verify_terminator(
    term: &MirTerm,
    name: &String,
    function: &MirFunction,
    declarations: &MirDeclarations,
    block: usize,
    region_len: usize,
    function_len: usize,
    in_try: bool,
    errors: Vec<String>,
) -> (r: Vec<String>)
    ensures
        string_list_view(r@) == terminator_errors(
            term@,
            name@,
            function@,
            declarations@,
            block,
            region_len,
            function_len,
            in_try,
            string_list_view(errors@),
        ),
{
    proof { reveal(terminator_errors); }
    let prefix = prefix_of(name, block);
    match term {
        MirTerm::Jump(target) => {
            if *target >= region_len {
                with_error(errors, cat3(&prefix.as_str(), ": jump to invalid block ", show_usize(*target).as_str()))
            } else {
                errors
            }
        },
        MirTerm::Branch { cond, then_b, else_b } => {
            let errors = verify_target(*then_b, region_len, &prefix, errors);
            let errors = verify_target(*else_b, region_len, &prefix, errors);
            verify_condition(*cond, function, &prefix, errors)
        },
        MirTerm::Return(value) => {
            match value {
                Some(reg) => verify_return(*reg, function, declarations, &prefix, errors),
                None => errors,
            }
        },
        MirTerm::FallOff => {
            if in_try {
                errors
            } else {
                with_error(errors, cat2(&prefix.as_str(), ": FallOff terminator outside a try region"))
            }
        },
        MirTerm::EscapeJump { target, .. } => verify_escape(
            *target,
            function_len,
            in_try,
            &prefix,
            errors,
        ),
    }
}

#[verifier::opaque]
pub open spec fn target_errors(
    target: usize,
    region_len: usize,
    prefix: Seq<char>,
    errors: Seq<Seq<char>>,
) -> Seq<Seq<char>> {
    if target >= region_len {
        and_error(errors, prefix + ": branch to invalid block "@ + decimal(target as nat))
    } else {
        errors
    }
}

/// See [`target_errors`].
pub fn verify_target(
    target: usize,
    region_len: usize,
    prefix: &String,
    errors: Vec<String>,
) -> (r: Vec<String>)
    ensures
        string_list_view(r@) == target_errors(
            target,
            region_len,
            prefix@,
            string_list_view(errors@),
        ),
{
    proof { reveal(target_errors); }
    if target >= region_len {
        with_error(errors, cat3(prefix.as_str(), ": branch to invalid block ", show_usize(target).as_str()))
    } else {
        errors
    }
}

#[verifier::opaque]
pub open spec fn condition_errors(
    cond: Reg,
    function: MirFunctionView,
    prefix: Seq<char>,
    errors: Seq<Seq<char>>,
) -> Seq<Seq<char>> {
    match slot_type(function.reg_types, cond.0) {
        Some(found) => match found {
            TyView::Bool => errors,
            _ => and_error(errors, prefix + ": branch condition has type "@ + ty_text(found)),
        },
        None => errors,
    }
}

/// See [`condition_errors`].
pub fn verify_condition(
    cond: Reg,
    function: &MirFunction,
    prefix: &String,
    errors: Vec<String>,
) -> (r: Vec<String>)
    ensures
        string_list_view(r@) == condition_errors(
            cond,
            function@,
            prefix@,
            string_list_view(errors@),
        ),
{
    proof { reveal(condition_errors); }
    match find_slot_ty(&function.reg_types, cond.0) {
        Some(found) => {
            proof { unfold_ty(found); }
            match &found {
                Ty::Bool => errors,
                _ => {
                    assert(!(found@ is Bool));
                    with_error(errors, cat3(prefix.as_str(), ": branch condition has type ", show_ty(&found).as_str()))
                },
            }
        },
        None => errors,
    }
}

#[verifier::opaque]
pub open spec fn return_errors(
    reg: Reg,
    function: MirFunctionView,
    declarations: MirDeclarationsView,
    prefix: Seq<char>,
    errors: Seq<Seq<char>>,
) -> Seq<Seq<char>> {
    if function.returns_reference {
        errors
    } else {
        match slot_type(function.reg_types, reg.0) {
            Some(found) => match function.ret_ty {
                Some(expected) => if compatible(declarations.coercions, found, expected) {
                    errors
                } else {
                    and_error(
                        errors,
                        prefix + ": return of "@ + ty_text(found) + " from a function returning "@ + ty_text(expected),
                    )
                },
                None => errors,
            },
            None => errors,
        }
    }
}

/// See [`return_errors`].
pub fn verify_return(
    reg: Reg,
    function: &MirFunction,
    declarations: &MirDeclarations,
    prefix: &String,
    errors: Vec<String>,
) -> (r: Vec<String>)
    ensures
        string_list_view(r@) == return_errors(
            reg,
            function@,
            declarations@,
            prefix@,
            string_list_view(errors@),
        ),
{
    proof { reveal(return_errors); }
    if function.returns_reference {
        errors
    } else {
        match find_slot_ty(&function.reg_types, reg.0) {
            Some(found) => {
                match &function.ret_ty {
                    Some(expected) => {
                        if types_compatible(&declarations.coercions, &found, expected) {
                            errors
                        } else {
                            with_error(
                                errors,
                                cat5(
                                    prefix.as_str(),
                                    ": return of ",
                                    show_ty(&found).as_str(),
                                    " from a function returning ",
                                    show_ty(expected).as_str(),
                                ),
                            )
                        }
                    },
                    None => errors,
                }
            },
            None => errors,
        }
    }
}

#[verifier::opaque]
pub open spec fn escape_errors(
    target: usize,
    function_len: usize,
    in_try: bool,
    prefix: Seq<char>,
    errors: Seq<Seq<char>>,
) -> Seq<Seq<char>> {
    let errors = if in_try {
        errors
    } else {
        and_error(errors, prefix + ": EscapeJump terminator outside a try region"@)
    };
    if target >= function_len {
        and_error(errors, prefix + ": escape to invalid block "@ + decimal(target as nat))
    } else {
        errors
    }
}

/// See [`escape_errors`].
pub fn verify_escape(
    target: usize,
    function_len: usize,
    in_try: bool,
    prefix: &String,
    errors: Vec<String>,
) -> (r: Vec<String>)
    ensures
        string_list_view(r@) == escape_errors(
            target,
            function_len,
            in_try,
            prefix@,
            string_list_view(errors@),
        ),
{
    proof { reveal(escape_errors); }
    let errors = if in_try {
        errors
    } else {
        with_error(errors, cat2(prefix.as_str(), ": EscapeJump terminator outside a try region"))
    };
    if target >= function_len {
        with_error(errors, cat3(prefix.as_str(), ": escape to invalid block ", show_usize(target).as_str()))
    } else {
        errors
    }
}

/// The violations in one function.
#[verifier::opaque]
pub open spec fn function_errors(
    name: Seq<char>,
    function: MirFunctionView,
    declarations: MirDeclarationsView,
    found: Seq<Seq<char>>,
) -> Seq<Seq<char>> {
    let errors = if function.var_names.len() != function.n_vars {
        and_error(
            found,
            "MIR function '"@ + name + "' has "@ + decimal(
                function.var_names.len() as usize as nat
            ) + " variable names for "@ + decimal(function.n_vars as nat) + " slots"@,
        )
    } else {
        found
    };
    blocks_errors(
        function.blocks,
        name,
        function,
        declarations,
        function.blocks.len() as usize,
        function.blocks.len() as usize,
        false,
        false,
        0,
        errors,
        0,
    )
}

/// See [`function_errors`].
pub fn verify_function(
    name: &String,
    function: &MirFunction,
    declarations: &MirDeclarations,
    found: Vec<String>,
) -> (r: Vec<String>)
    ensures
        string_list_view(r@) == function_errors(
            name@,
            function@,
            declarations@,
            string_list_view(found@),
        ),
{
    proof { reveal(function_errors); }
    let errors = if function.var_names.len() != function.n_vars {
        with_error(
            found,
            cat7(
                "MIR function '",
                name.as_str(),
                "' has ",
                show_usize(function.var_names.len()).as_str(),
                " variable names for ",
                show_usize(function.n_vars).as_str(),
                " slots",
            ),
        )
    } else {
        found
    };
    verify_blocks(
        &function.blocks,
        name,
        function,
        declarations,
        function.blocks.len(),
        function.blocks.len(),
        false,
        false,
        errors,
    )
}

/// Every violation in a program, function by function in the order of the program.
#[verifier::opaque]
pub open spec fn violations(program: MirProgramView) -> Seq<Seq<char>> {
    functions_errors(program.functions, program.declarations, 0, Seq::empty())
}

/// See [`violations`].
pub fn verify(program: &MirProgram) -> (r: Vec<String>)
    ensures
        string_list_view(r@) == violations(program@),
{
    proof { reveal(violations); }
    let list: Vec<String> = Vec::new();
    assert(string_list_view(list@) =~= Seq::<Seq<char>>::empty());
    verify_functions(&program.functions, &program.declarations, list)
}

pub open spec fn functions_errors(
    functions: Seq<(Seq<char>, MirFunctionView)>,
    declarations: MirDeclarationsView,
    i: nat,
    errors: Seq<Seq<char>>,
) -> Seq<Seq<char>>
    decreases functions, (functions.len() - i) as nat,
{
    if i >= functions.len() {
        errors
    } else {
        let entry = functions[i as int];
        let errors = function_errors(entry.0, entry.1, declarations, errors);
        functions_errors(functions, declarations, i + 1, errors)
    }
}

/// See [`functions_errors`].
pub fn verify_functions(
    functions: &Vec<(String, MirFunction)>,
    declarations: &MirDeclarations,
    found: Vec<String>,
) -> (r: Vec<String>)
    ensures
        string_list_view(r@) == functions_errors(
            named_function_list_view(functions@),
            declarations@,
            0,
            string_list_view(found@),
        ),
    decreases functions@, 0nat,
{
    let mut errors: Vec<String> = found;
    let ghost goal = functions_errors(
        named_function_list_view(functions@),
        declarations@,
        0,
        string_list_view(found@),
    );
    let mut i: usize = 0;
    while i < functions.len()
        invariant
            i <= functions@.len(),
            named_function_list_view(functions@).len() == functions@.len(),
            functions_errors(
                named_function_list_view(functions@),
                declarations@,
                i as nat,
                string_list_view(errors@),
            ) == goal,
            goal == functions_errors(
                named_function_list_view(functions@),
                declarations@,
                0,
                string_list_view(found@),
            ),
        decreases functions@.len() - i,
    {
        let entry = &functions[i];
        assert(named_function_list_view(functions@)[i as int].0 =~= entry.0@);
        assert(named_function_list_view(functions@)[i as int].1 =~= entry.1@);
        errors = verify_function(&entry.0, &entry.1, declarations, errors);
        i = i + 1;
    }
    errors
}

} // verus!
