//! What a check found stays found.

use crate::flatten::{following_index, slot_type};
use crate::growth::starts_with;
use crate::mir::{
    MirBlockView, MirDeclarationsView, MirFunctionDeclarationView, MirFunctionView, MirInstrView,
    MirPlaceView, MirProgramView, MirTermView, ProjView, Reg, fully_typed,
};
use crate::show::ty_text;
use crate::text::decimal;
use crate::types::TyView;
use crate::verify::{
    alternative_errors, and_error, arg_message, arg_type_errors, args_errors, binding_errors,
    blocks_errors, call_errors, compatible, condition_errors, declaration_of, declared_field,
    declares_param, effect_errors, escape_errors, field_errors, field_message, function_errors,
    functions_errors, handler_errors, instruction_errors, instructions_errors, message_prefix,
    one_step_errors, operand_errors, place_errors, places_errors, places_of_instr, raising_errors,
    reg_text, region_errors, register_errors, return_errors, step_errors, storage_type,
    store_errors, store_ref_errors, struct_declared, target_errors, terminator_errors,
    variant_errors, violations, with_operands, with_results, write_back_errors,
};
use vstd::prelude::*;

verus! {

proof fn and_error_keeps(
    from: Seq<Seq<char>>,
    errors: Seq<Seq<char>>,
    message: Seq<char>,
)
    requires
        starts_with(errors, from),
    ensures
        starts_with(and_error(errors, message), from),
{
    reveal(and_error);
    let _ = {
        let out = errors;
        let out = out.push(message);
        out
    };
}

proof fn register_errors_keeps(
    from: Seq<Seq<char>>,
    regs: Seq<Reg>,
    function: MirFunctionView,
    prefix: Seq<char>,
    i: nat,
    errors: Seq<Seq<char>>,
)
    requires
        starts_with(errors, from),
    ensures
        starts_with(register_errors(regs, function, prefix, i, errors), from),
    decreases regs, (regs.len() - i) as nat,
{
    let _ = {
        if i >= regs.len() {
            errors
        } else {
            let reg = regs[i as int];
            if reg.0 >= function.n_regs {
                let errors = errors.push(prefix + ": invalid register "@ + reg_text(reg));
                {
                    register_errors_keeps(from, regs, function, prefix, i + 1, errors);
                    register_errors(regs, function, prefix, i + 1, errors)
                }
            } else if slot_type(function.reg_types, reg.0) is None {
                let errors = errors.push(prefix + ": untyped register "@ + reg_text(reg));
                {
                    register_errors_keeps(from, regs, function, prefix, i + 1, errors);
                    register_errors(regs, function, prefix, i + 1, errors)
                }
            } else {
                {
                    register_errors_keeps(from, regs, function, prefix, i + 1, errors);
                    register_errors(regs, function, prefix, i + 1, errors)
                }
            }
        }
    };
}

proof fn place_errors_keeps(
    from: Seq<Seq<char>>,
    function: MirFunctionView,
    declarations: MirDeclarationsView,
    place: MirPlaceView,
    prefix: Seq<char>,
    found: Seq<Seq<char>>,
)
    requires
        starts_with(found, from),
    ensures
        starts_with(place_errors(function, declarations, place, prefix, found), from),
{
    reveal(place_errors);
    let _ = {
        let errors = if (place.root as usize) >= function.n_vars {
            {
                and_error_keeps(from, found, prefix + " place has invalid root slot "@ + decimal(place.root as u64 as nat));
                and_error(found, prefix + " place has invalid root slot "@ + decimal(place.root as u64 as nat))
            }
        } else {
            found
        };
        if fully_typed(place) {
            {
                step_errors_keeps(from, place.proj, place.projection_tys, function, declarations, prefix, 0, errors, place.root_ty, 0);
                step_errors(place.proj, place.projection_tys, function, declarations, prefix, 0, errors, place.root_ty, 0)
            }
        } else {
            {
                and_error_keeps(from, errors, prefix + " place rooted at slot "@ + decimal( place.root as u64 as nat ) + " lacks complete checked type metadata"@);
                and_error(errors, prefix + " place rooted at slot "@ + decimal(place.root as u64 as nat) + " lacks complete checked type metadata"@)
            }
        }
    };
}

proof fn step_errors_keeps(
    from: Seq<Seq<char>>,
    proj: Seq<ProjView>,
    types: Seq<TyView>,
    function: MirFunctionView,
    declarations: MirDeclarationsView,
    prefix: Seq<char>,
    i: nat,
    errors: Seq<Seq<char>>,
    current: Option<TyView>,
    k: usize,
)
    requires
        starts_with(errors, from),
    ensures
        starts_with(step_errors(proj, types, function, declarations, prefix, i, errors, current, k), from),
    decreases proj, (proj.len() - i) as nat,
{
    let _ = {
        if i >= proj.len() {
            errors
        } else {
            let step = proj[i as int];
            if k >= types.len() {
                errors
            } else {
                let errors = {
                    one_step_errors_keeps(from, step, current, types[k as int], function, declarations, prefix, errors);
                    one_step_errors(step, current, types[k as int], function, declarations, prefix, errors)
                };
                let current = Some(types[k as int]);
                let k = following_index(k);
                {
                    step_errors_keeps(from, proj, types, function, declarations, prefix, i + 1, errors, current, k);
                    step_errors(proj, types, function, declarations, prefix, i + 1, errors, current, k)
                }
            }
        }
    };
}

proof fn one_step_errors_keeps(
    from: Seq<Seq<char>>,
    step: ProjView,
    current: Option<TyView>,
    projected: TyView,
    function: MirFunctionView,
    declarations: MirDeclarationsView,
    prefix: Seq<char>,
    errors: Seq<Seq<char>>,
)
    requires
        starts_with(errors, from),
    ensures
        starts_with(one_step_errors(step, current, projected, function, declarations, prefix, errors), from),
{
    reveal(one_step_errors);
    let _ = {
        match step {
            ProjView::Index(reg) => if reg.0 >= function.n_regs {
                {
                    and_error_keeps(from, errors, prefix + " place index uses invalid register "@ + reg_text(reg));
                    and_error(errors, prefix + " place index uses invalid register "@ + reg_text(reg))
                }
            } else {
                errors
            },
            ProjView::Field(field) => match current {
                Some(current) => {
                    field_errors_keeps(from, field, current, projected, declarations, prefix, errors);
                    field_errors(field, current, projected, declarations, prefix, errors)
                },
                None => errors,
            },
            ProjView::Variant(index) => match current {
                Some(current) => {
                    alternative_errors_keeps(from, index, current, prefix, errors);
                    alternative_errors(index, current, prefix, errors)
                },
                None => errors,
            },
        }
    };
}

proof fn field_errors_keeps(
    from: Seq<Seq<char>>,
    field: Seq<char>,
    current: TyView,
    projected: TyView,
    declarations: MirDeclarationsView,
    prefix: Seq<char>,
    errors: Seq<Seq<char>>,
)
    requires
        starts_with(errors, from),
    ensures
        starts_with(field_errors(field, current, projected, declarations, prefix, errors), from),
{
    reveal(field_errors);
    let _ = {
        match current {
            TyView::Struct(name, args) => if args.len() == 0 {
                match struct_declared(declarations.structs, name, 0) {
                    Some(declaration) => match declared_field(declaration.fields, field, 0) {
                        Some(ty) => if compatible(declarations.coercions, projected, ty) {
                            errors
                        } else {
                            {
                                and_error_keeps(from, errors, field_message(prefix, field, name, projected, ty));
                                and_error(errors, field_message(prefix, field, name, projected, ty))
                            }
                        },
                        None => if declares_param(declaration.param_decls, field, 0) {
                            errors
                        } else {
                            {
                                and_error_keeps(from, errors, prefix + " place projects unknown field '"@ + field + "' of '"@ + name + "'"@);
                                and_error(errors, prefix + " place projects unknown field '"@ + field + "' of '"@ + name + "'"@)
                            }
                        },
                    },
                    None => errors,
                }
            } else {
                errors
            },
            _ => errors,
        }
    };
}

proof fn alternative_errors_keeps(
    from: Seq<Seq<char>>,
    index: usize,
    current: TyView,
    prefix: Seq<char>,
    errors: Seq<Seq<char>>,
)
    requires
        starts_with(errors, from),
    ensures
        starts_with(alternative_errors(index, current, prefix, errors), from),
{
    reveal(alternative_errors);
    let _ = {
        match current {
            TyView::Variant(alternatives) => if index >= alternatives.len() {
                {
                    and_error_keeps(from, errors, prefix + " place projects variant alternative "@ + decimal(index as nat) + " out of "@ + decimal( alternatives.len() as usize as nat ));
                    and_error(errors, prefix + " place projects variant alternative "@ + decimal(index as nat) + " out of "@ + decimal(alternatives.len() as usize as nat))
                }
            } else {
                errors
            },
            _ => errors,
        }
    };
}

proof fn places_errors_keeps(
    from: Seq<Seq<char>>,
    places: Seq<MirPlaceView>,
    function: MirFunctionView,
    declarations: MirDeclarationsView,
    prefix: Seq<char>,
    i: nat,
    errors: Seq<Seq<char>>,
)
    requires
        starts_with(errors, from),
    ensures
        starts_with(places_errors(places, function, declarations, prefix, i, errors), from),
    decreases places, (places.len() - i) as nat,
{
    let _ = {
        if i >= places.len() {
            errors
        } else {
            let place = places[i as int];
            let errors = {
                place_errors_keeps(from, function, declarations, place, prefix, errors);
                place_errors(function, declarations, place, prefix, errors)
            };
            {
                places_errors_keeps(from, places, function, declarations, prefix, i + 1, errors);
                places_errors(places, function, declarations, prefix, i + 1, errors)
            }
        }
    };
}

proof fn store_errors_keeps(
    from: Seq<Seq<char>>,
    place: MirPlaceView,
    src: Reg,
    function: MirFunctionView,
    declarations: MirDeclarationsView,
    prefix: Seq<char>,
    errors: Seq<Seq<char>>,
)
    requires
        starts_with(errors, from),
    ensures
        starts_with(store_errors(place, src, function, declarations, prefix, errors), from),
{
    reveal(store_errors);
    let _ = {
        match place.ty {
            Some(expected) => match slot_type(function.reg_types, src.0) {
                Some(found) => {
                    let target = storage_type(expected);
                    if compatible(declarations.coercions, found, target) {
                        errors
                    } else {
                        {
                            and_error_keeps(from, errors, prefix + ": store of "@ + ty_text(found) + " into storage of type "@ + ty_text(target));
                            and_error(errors, prefix + ": store of "@ + ty_text(found) + " into storage of type "@ + ty_text(target))
                        }
                    }
                },
                None => errors,
            },
            None => errors,
        }
    };
}

proof fn store_ref_errors_keeps(
    from: Seq<Seq<char>>,
    place: MirPlaceView,
    prefix: Seq<char>,
    errors: Seq<Seq<char>>,
)
    requires
        starts_with(errors, from),
    ensures
        starts_with(store_ref_errors(place, prefix, errors), from),
{
    reveal(store_ref_errors);
    let _ = {
        match place.ty {
            Some(storage) => match storage {
                TyView::Ref(_) => errors,
                _ => {
                    and_error_keeps(from, errors, prefix + ": StoreRef into non-reference storage of type "@ + ty_text(storage));
                    and_error(errors, prefix + ": StoreRef into non-reference storage of type "@ + ty_text(storage))
                },
            },
            None => errors,
        }
    };
}

proof fn binding_errors_keeps(
    from: Seq<Seq<char>>,
    src: Reg,
    expected: Option<TyView>,
    function: MirFunctionView,
    declarations: MirDeclarationsView,
    prefix: Seq<char>,
    errors: Seq<Seq<char>>,
)
    requires
        starts_with(errors, from),
    ensures
        starts_with(binding_errors(src, expected, function, declarations, prefix, errors), from),
{
    reveal(binding_errors);
    let _ = {
        match expected {
            Some(expected) => match slot_type(function.reg_types, src.0) {
                Some(found) => if compatible(declarations.coercions, found, expected) {
                    errors
                } else {
                    {
                        and_error_keeps(from, errors, prefix + ": binding of "@ + ty_text(found) + " to a slot of type "@ + ty_text(expected));
                        and_error(errors, prefix + ": binding of "@ + ty_text(found) + " to a slot of type "@ + ty_text(expected))
                    }
                },
                None => errors,
            },
            None => errors,
        }
    };
}

proof fn variant_errors_keeps(
    from: Seq<Seq<char>>,
    alternatives: Seq<TyView>,
    index: usize,
    value: Reg,
    function: MirFunctionView,
    declarations: MirDeclarationsView,
    prefix: Seq<char>,
    errors: Seq<Seq<char>>,
)
    requires
        starts_with(errors, from),
    ensures
        starts_with(variant_errors(alternatives, index, value, function, declarations, prefix, errors), from),
{
    reveal(variant_errors);
    let _ = {
        if index >= alternatives.len() {
            {
                and_error_keeps(from, errors, prefix + ": variant construction index "@ + decimal(index as nat) + " out of "@ + decimal( alternatives.len() as usize as nat ) + " alternatives"@);
                and_error(errors, prefix + ": variant construction index "@ + decimal(index as nat) + " out of "@ + decimal(alternatives.len() as usize as nat) + " alternatives"@)
            }
        } else {
            match slot_type(function.reg_types, value.0) {
                Some(found) => if compatible(
                    declarations.coercions,
                    found,
                    alternatives[index as int],
                ) {
                    errors
                } else {
                    {
                        and_error_keeps(from, errors, prefix + ": variant payload "@ + ty_text(found) + " does not fit alternative "@ + ty_text( alternatives[index as int] ));
                        and_error(errors, prefix + ": variant payload "@ + ty_text(found) + " does not fit alternative "@ + ty_text(alternatives[index as int]))
                    }
                },
                None => errors,
            }
        }
    };
}

proof fn call_errors_keeps(
    from: Seq<Seq<char>>,
    callee: Seq<char>,
    args: Seq<Reg>,
    kwargs: Seq<(Seq<char>, Reg)>,
    places: Seq<Option<MirPlaceView>>,
    function: MirFunctionView,
    declarations: MirDeclarationsView,
    prefix: Seq<char>,
    errors: Seq<Seq<char>>,
)
    requires
        starts_with(errors, from),
    ensures
        starts_with(call_errors(callee, args, kwargs, places, function, declarations, prefix, errors), from),
{
    reveal(call_errors);
    let _ = {
        match declaration_of(declarations.functions, callee, 0) {
            Some(declaration) => if kwargs.len() == 0 && declaration.variadic is None && declaration.kw_variadic is None && args.len() == declaration.param_types.len() {
                {
                    args_errors_keeps(from, args, declaration, places, function, declarations, prefix, 0, errors, 0);
                    args_errors(args, declaration, places, function, declarations, prefix, 0, errors, 0)
                }
            } else {
                errors
            },
            None => errors,
        }
    };
}

proof fn args_errors_keeps(
    from: Seq<Seq<char>>,
    args: Seq<Reg>,
    declaration: MirFunctionDeclarationView,
    places: Seq<Option<MirPlaceView>>,
    function: MirFunctionView,
    declarations: MirDeclarationsView,
    prefix: Seq<char>,
    i: nat,
    errors: Seq<Seq<char>>,
    k: usize,
)
    requires
        starts_with(errors, from),
    ensures
        starts_with(args_errors(args, declaration, places, function, declarations, prefix, i, errors, k), from),
    decreases args, (args.len() - i) as nat,
{
    let _ = {
        if i >= args.len() {
            errors
        } else {
            let arg = args[i as int];
            let errors = {
                arg_type_errors_keeps(from, arg, k, declaration, function, declarations, prefix, errors);
                arg_type_errors(arg, k, declaration, function, declarations, prefix, errors)
            };
            let errors = {
                write_back_errors_keeps(from, k, declaration, places, prefix, errors);
                write_back_errors(k, declaration, places, prefix, errors)
            };
            let k = following_index(k);
            {
                args_errors_keeps(from, args, declaration, places, function, declarations, prefix, i + 1, errors, k);
                args_errors(args, declaration, places, function, declarations, prefix, i + 1, errors, k)
            }
        }
    };
}

proof fn arg_type_errors_keeps(
    from: Seq<Seq<char>>,
    arg: Reg,
    k: usize,
    declaration: MirFunctionDeclarationView,
    function: MirFunctionView,
    declarations: MirDeclarationsView,
    prefix: Seq<char>,
    errors: Seq<Seq<char>>,
)
    requires
        starts_with(errors, from),
    ensures
        starts_with(arg_type_errors(arg, k, declaration, function, declarations, prefix, errors), from),
{
    reveal(arg_type_errors);
    let _ = {
        if k < declaration.param_types.len() {
            match slot_type(function.reg_types, arg.0) {
                Some(found) => if compatible(
                    declarations.coercions,
                    found,
                    declaration.param_types[k as int],
                ) {
                    errors
                } else {
                    {
                        and_error_keeps(from, errors, arg_message( prefix, k, declaration.lowered_name, found, declaration.param_types[k as int], ));
                        and_error(errors, arg_message(prefix, k, declaration.lowered_name, found, declaration.param_types[k as int]))
                    }
                },
                None => errors,
            }
        } else {
            errors
        }
    };
}

proof fn write_back_errors_keeps(
    from: Seq<Seq<char>>,
    k: usize,
    declaration: MirFunctionDeclarationView,
    places: Seq<Option<MirPlaceView>>,
    prefix: Seq<char>,
    errors: Seq<Seq<char>>,
)
    requires
        starts_with(errors, from),
    ensures
        starts_with(write_back_errors(k, declaration, places, prefix, errors), from),
{
    reveal(write_back_errors);
    let _ = {
        let needed = k < declaration.ref_params.len() && declaration.ref_params[k as int];
        let given = k < places.len() && places[k as int] is Some;
        if needed && !given {
            {
                and_error_keeps(from, errors, prefix + ": write-back parameter "@ + decimal(k as nat) + " of '"@ + declaration.lowered_name + "' has no caller place"@);
                and_error(errors, prefix + ": write-back parameter "@ + decimal(k as nat) + " of '"@ + declaration.lowered_name + "' has no caller place"@)
            }
        } else {
            errors
        }
    };
}

proof fn raising_errors_keeps(
    from: Seq<Seq<char>>,
    raises: Option<TyView>,
    function: MirFunctionView,
    protected: bool,
    prefix: Seq<char>,
    errors: Seq<Seq<char>>,
)
    requires
        starts_with(errors, from),
    ensures
        starts_with(raising_errors(raises, function, protected, prefix, errors), from),
{
    reveal(raising_errors);
    let _ = {
        if raises is Some && !function.raises && !protected {
            {
                and_error_keeps(from, errors, prefix + ": unprotected raising call in nonraising function"@);
                and_error(errors, prefix + ": unprotected raising call in nonraising function"@)
            }
        } else {
            errors
        }
    };
}

proof fn effect_errors_keeps(
    from: Seq<Seq<char>>,
    instruction: MirInstrView,
    function: MirFunctionView,
    declarations: MirDeclarationsView,
    protected: bool,
    prefix: Seq<char>,
    errors: Seq<Seq<char>>,
)
    requires
        starts_with(errors, from),
    ensures
        starts_with(effect_errors(instruction, function, declarations, protected, prefix, errors), from),
{
    reveal(effect_errors);
    let _ = {
        match instruction {
            MirInstrView::Store { place, src } => {
                store_errors_keeps(from, place, src, function, declarations, prefix, errors);
                store_errors(place, src, function, declarations, prefix, errors)
            },
            MirInstrView::StoreRef { place, .. } => {
                store_ref_errors_keeps(from, place, prefix, errors);
                store_ref_errors(place, prefix, errors)
            },
            MirInstrView::DefVar { src, binding_ty, .. } => {
                binding_errors_keeps(from, src, binding_ty, function, declarations, prefix, errors);
                binding_errors(src, binding_ty, function, declarations, prefix, errors)
            },
            MirInstrView::MakeVariant { alternatives, index, value, .. } => {
                variant_errors_keeps(from, alternatives, index, value, function, declarations, prefix, errors);
                variant_errors(alternatives, index, value, function, declarations, prefix, errors)
            },
            MirInstrView::Call { func, raises, args, kwargs, arg_places, .. } => {
                let errors = {
                    call_errors_keeps(from, func.name, args, kwargs, arg_places, function, declarations, prefix, errors);
                    call_errors(func.name, args, kwargs, arg_places, function, declarations, prefix, errors)
                };
                {
                    raising_errors_keeps(from, raises, function, protected, prefix, errors);
                    raising_errors(raises, function, protected, prefix, errors)
                }
            },
            MirInstrView::CallIndirect { raises, .. } => {
                raising_errors_keeps(from, raises, function, protected, prefix, errors);
                raising_errors(raises, function, protected, prefix, errors)
            },
            MirInstrView::MethodCall { resolved, raises, args, kwargs, arg_places, .. } => {
                let errors = match resolved {
                    Some(callee) => {
                        call_errors_keeps(from, callee, args, kwargs, arg_places, function, declarations, prefix, errors);
                        call_errors(callee, args, kwargs, arg_places, function, declarations, prefix, errors)
                    },
                    None => errors,
                };
                {
                    raising_errors_keeps(from, raises, function, protected, prefix, errors);
                    raising_errors(raises, function, protected, prefix, errors)
                }
            },
            MirInstrView::Raise { .. } => if !function.raises && !protected {
                {
                    and_error_keeps(from, errors, prefix + ": unprotected raise in nonraising function"@);
                    and_error(errors, prefix + ": unprotected raise in nonraising function"@)
                }
            } else {
                errors
            },
            _ => errors,
        }
    };
}

proof fn operand_errors_keeps(
    from: Seq<Seq<char>>,
    instruction: MirInstrView,
    function: MirFunctionView,
    declarations: MirDeclarationsView,
    prefix: Seq<char>,
    errors: Seq<Seq<char>>,
)
    requires
        starts_with(errors, from),
    ensures
        starts_with(operand_errors(instruction, function, declarations, prefix, errors), from),
{
    reveal(operand_errors);
    let _ = {
        let places = places_of_instr(instruction);
        let errors = {
            places_errors_keeps(from, places, function, declarations, prefix, 0, errors);
            places_errors(places, function, declarations, prefix, 0, errors)
        };
        let regs = with_results(instruction, Seq::empty());
        let regs = with_operands(instruction, regs);
        {
            register_errors_keeps(from, regs, function, prefix, 0, errors);
            register_errors(regs, function, prefix, 0, errors)
        }
    };
}

proof fn instruction_errors_keeps(
    from: Seq<Seq<char>>,
    instruction: MirInstrView,
    name: Seq<char>,
    function: MirFunctionView,
    declarations: MirDeclarationsView,
    block: usize,
    function_len: usize,
    protected: bool,
    found: Seq<Seq<char>>,
)
    requires
        starts_with(found, from),
    ensures
        starts_with(instruction_errors(instruction, name, function, declarations, block, function_len, protected, found), from),
    decreases instruction, 0nat,
{
    let _ = {
        let prefix = message_prefix(name, block);
        let errors = {
            operand_errors_keeps(from, instruction, function, declarations, prefix, found);
            operand_errors(instruction, function, declarations, prefix, found)
        };
        match instruction {
            MirInstrView::Try { body, handler, orelse, finalbody, .. } => {
                let handled = handler is Some || protected;
                let errors = {
                    blocks_errors_keeps(from, body, name, function, declarations, body.len() as usize, function_len, true, handled, 0, errors, 0);
                    blocks_errors(body, name, function, declarations, body.len() as usize, function_len, true, handled, 0, errors, 0)
                };
                let errors = {
                    handler_errors_keeps(from, handler, name, function, declarations, function_len, protected, errors);
                    handler_errors(handler, name, function, declarations, function_len, protected, errors)
                };
                let errors = {
                    region_errors_keeps(from, orelse, name, function, declarations, function_len, protected, errors);
                    region_errors(orelse, name, function, declarations, function_len, protected, errors)
                };
                {
                    region_errors_keeps(from, finalbody, name, function, declarations, function_len, protected, errors);
                    region_errors(finalbody, name, function, declarations, function_len, protected, errors)
                }
            },
            _ => {
                effect_errors_keeps(from, instruction, function, declarations, protected, prefix, errors);
                effect_errors(instruction, function, declarations, protected, prefix, errors)
            },
        }
    };
}

proof fn handler_errors_keeps(
    from: Seq<Seq<char>>,
    handler: Option<(Option<u32>, Seq<MirBlockView>)>,
    name: Seq<char>,
    function: MirFunctionView,
    declarations: MirDeclarationsView,
    function_len: usize,
    protected: bool,
    errors: Seq<Seq<char>>,
)
    requires
        starts_with(errors, from),
    ensures
        starts_with(handler_errors(handler, name, function, declarations, function_len, protected, errors), from),
    decreases handler, 0nat,
{
    let _ = {
        match handler {
            Some((_, blocks)) => {
                blocks_errors_keeps(from, blocks, name, function, declarations, blocks.len() as usize, function_len, true, protected, 0, errors, 0);
                blocks_errors(blocks, name, function, declarations, blocks.len() as usize, function_len, true, protected, 0, errors, 0)
            },
            None => errors,
        }
    };
}

proof fn region_errors_keeps(
    from: Seq<Seq<char>>,
    region: Option<Seq<MirBlockView>>,
    name: Seq<char>,
    function: MirFunctionView,
    declarations: MirDeclarationsView,
    function_len: usize,
    protected: bool,
    errors: Seq<Seq<char>>,
)
    requires
        starts_with(errors, from),
    ensures
        starts_with(region_errors(region, name, function, declarations, function_len, protected, errors), from),
    decreases region, 0nat,
{
    let _ = {
        match region {
            Some(blocks) => {
                blocks_errors_keeps(from, blocks, name, function, declarations, blocks.len() as usize, function_len, true, protected, 0, errors, 0);
                blocks_errors(blocks, name, function, declarations, blocks.len() as usize, function_len, true, protected, 0, errors, 0)
            },
            None => errors,
        }
    };
}

proof fn instructions_errors_keeps(
    from: Seq<Seq<char>>,
    instrs: Seq<MirInstrView>,
    name: Seq<char>,
    function: MirFunctionView,
    declarations: MirDeclarationsView,
    block: usize,
    function_len: usize,
    protected: bool,
    i: nat,
    errors: Seq<Seq<char>>,
)
    requires
        starts_with(errors, from),
    ensures
        starts_with(instructions_errors(instrs, name, function, declarations, block, function_len, protected, i, errors), from),
    decreases instrs, (instrs.len() - i) as nat,
{
    let _ = {
        if i >= instrs.len() {
            errors
        } else {
            let instruction = instrs[i as int];
            let errors = {
                instruction_errors_keeps(from, instruction, name, function, declarations, block, function_len, protected, errors);
                instruction_errors(instruction, name, function, declarations, block, function_len, protected, errors)
            };
            {
                instructions_errors_keeps(from, instrs, name, function, declarations, block, function_len, protected, i + 1, errors);
                instructions_errors(instrs, name, function, declarations, block, function_len, protected, i + 1, errors)
            }
        }
    };
}

proof fn blocks_errors_keeps(
    from: Seq<Seq<char>>,
    blocks: Seq<MirBlockView>,
    name: Seq<char>,
    function: MirFunctionView,
    declarations: MirDeclarationsView,
    region_len: usize,
    function_len: usize,
    in_try: bool,
    protected: bool,
    i: nat,
    errors: Seq<Seq<char>>,
    k: usize,
)
    requires
        starts_with(errors, from),
    ensures
        starts_with(blocks_errors(blocks, name, function, declarations, region_len, function_len, in_try, protected, i, errors, k), from),
    decreases blocks, (blocks.len() - i) as nat,
{
    let _ = {
        if i >= blocks.len() {
            errors
        } else {
            let block = blocks[i as int];
            let errors = {
                instructions_errors_keeps(from, block.instrs, name, function, declarations, k, function_len, protected, 0, errors);
                instructions_errors(block.instrs, name, function, declarations, k, function_len, protected, 0, errors)
            };
            let errors = {
                terminator_errors_keeps(from, block.term, name, function, declarations, k, region_len, function_len, in_try, errors);
                terminator_errors(block.term, name, function, declarations, k, region_len, function_len, in_try, errors)
            };
            let k = following_index(k);
            {
                blocks_errors_keeps(from, blocks, name, function, declarations, region_len, function_len, in_try, protected, i + 1, errors, k);
                blocks_errors(blocks, name, function, declarations, region_len, function_len, in_try, protected, i + 1, errors, k)
            }
        }
    };
}

proof fn terminator_errors_keeps(
    from: Seq<Seq<char>>,
    term: MirTermView,
    name: Seq<char>,
    function: MirFunctionView,
    declarations: MirDeclarationsView,
    block: usize,
    region_len: usize,
    function_len: usize,
    in_try: bool,
    errors: Seq<Seq<char>>,
)
    requires
        starts_with(errors, from),
    ensures
        starts_with(terminator_errors(term, name, function, declarations, block, region_len, function_len, in_try, errors), from),
{
    reveal(terminator_errors);
    let _ = {
        let prefix = message_prefix(name, block);
        match term {
            MirTermView::Jump(target) => if target >= region_len {
                {
                    and_error_keeps(from, errors, prefix + ": jump to invalid block "@ + decimal(target as nat));
                    and_error(errors, prefix + ": jump to invalid block "@ + decimal(target as nat))
                }
            } else {
                errors
            },
            MirTermView::Branch { cond, then_b, else_b } => {
                let errors = {
                    target_errors_keeps(from, then_b, region_len, prefix, errors);
                    target_errors(then_b, region_len, prefix, errors)
                };
                let errors = {
                    target_errors_keeps(from, else_b, region_len, prefix, errors);
                    target_errors(else_b, region_len, prefix, errors)
                };
                {
                    condition_errors_keeps(from, cond, function, prefix, errors);
                    condition_errors(cond, function, prefix, errors)
                }
            },
            MirTermView::Return(value) => match value {
                Some(reg) => {
                    return_errors_keeps(from, reg, function, declarations, prefix, errors);
                    return_errors(reg, function, declarations, prefix, errors)
                },
                None => errors,
            },
            MirTermView::FallOff => if in_try {
                errors
            } else {
                {
                    and_error_keeps(from, errors, prefix + ": FallOff terminator outside a try region"@);
                    and_error(errors, prefix + ": FallOff terminator outside a try region"@)
                }
            },
            MirTermView::EscapeJump { target, .. } => {
                escape_errors_keeps(from, target, function_len, in_try, prefix, errors);
                escape_errors(target, function_len, in_try, prefix, errors)
            },
        }
    };
}

proof fn target_errors_keeps(
    from: Seq<Seq<char>>,
    target: usize,
    region_len: usize,
    prefix: Seq<char>,
    errors: Seq<Seq<char>>,
)
    requires
        starts_with(errors, from),
    ensures
        starts_with(target_errors(target, region_len, prefix, errors), from),
{
    reveal(target_errors);
    let _ = {
        if target >= region_len {
            {
                and_error_keeps(from, errors, prefix + ": branch to invalid block "@ + decimal(target as nat));
                and_error(errors, prefix + ": branch to invalid block "@ + decimal(target as nat))
            }
        } else {
            errors
        }
    };
}

proof fn condition_errors_keeps(
    from: Seq<Seq<char>>,
    cond: Reg,
    function: MirFunctionView,
    prefix: Seq<char>,
    errors: Seq<Seq<char>>,
)
    requires
        starts_with(errors, from),
    ensures
        starts_with(condition_errors(cond, function, prefix, errors), from),
{
    reveal(condition_errors);
    let _ = {
        match slot_type(function.reg_types, cond.0) {
            Some(found) => match found {
                TyView::Bool => errors,
                _ => {
                    and_error_keeps(from, errors, prefix + ": branch condition has type "@ + ty_text(found));
                    and_error(errors, prefix + ": branch condition has type "@ + ty_text(found))
                },
            },
            None => errors,
        }
    };
}

proof fn return_errors_keeps(
    from: Seq<Seq<char>>,
    reg: Reg,
    function: MirFunctionView,
    declarations: MirDeclarationsView,
    prefix: Seq<char>,
    errors: Seq<Seq<char>>,
)
    requires
        starts_with(errors, from),
    ensures
        starts_with(return_errors(reg, function, declarations, prefix, errors), from),
{
    reveal(return_errors);
    let _ = {
        if function.returns_reference {
            errors
        } else {
            match slot_type(function.reg_types, reg.0) {
                Some(found) => match function.ret_ty {
                    Some(expected) => if compatible(declarations.coercions, found, expected) {
                        errors
                    } else {
                        {
                            and_error_keeps(from, errors, prefix + ": return of "@ + ty_text(found) + " from a function returning "@ + ty_text(expected));
                            and_error(errors, prefix + ": return of "@ + ty_text(found) + " from a function returning "@ + ty_text(expected))
                        }
                    },
                    None => errors,
                },
                None => errors,
            }
        }
    };
}

proof fn escape_errors_keeps(
    from: Seq<Seq<char>>,
    target: usize,
    function_len: usize,
    in_try: bool,
    prefix: Seq<char>,
    errors: Seq<Seq<char>>,
)
    requires
        starts_with(errors, from),
    ensures
        starts_with(escape_errors(target, function_len, in_try, prefix, errors), from),
{
    reveal(escape_errors);
    let _ = {
        let errors = if in_try {
            errors
        } else {
            {
                and_error_keeps(from, errors, prefix + ": EscapeJump terminator outside a try region"@);
                and_error(errors, prefix + ": EscapeJump terminator outside a try region"@)
            }
        };
        if target >= function_len {
            {
                and_error_keeps(from, errors, prefix + ": escape to invalid block "@ + decimal(target as nat));
                and_error(errors, prefix + ": escape to invalid block "@ + decimal(target as nat))
            }
        } else {
            errors
        }
    };
}

proof fn function_errors_keeps(
    from: Seq<Seq<char>>,
    name: Seq<char>,
    function: MirFunctionView,
    declarations: MirDeclarationsView,
    found: Seq<Seq<char>>,
)
    requires
        starts_with(found, from),
    ensures
        starts_with(function_errors(name, function, declarations, found), from),
{
    reveal(function_errors);
    let _ = {
        let errors = if function.var_names.len() != function.n_vars {
            {
                and_error_keeps(from, found, "MIR function '"@ + name + "' has "@ + decimal( function.var_names.len() as usize as nat ) + " variable names for "@ + decimal(function.n_vars as nat) + " slots"@);
                and_error(found, "MIR function '"@ + name + "' has "@ + decimal(function.var_names.len() as usize as nat) + " variable names for "@ + decimal(function.n_vars as nat) + " slots"@)
            }
        } else {
            found
        };
        {
            blocks_errors_keeps(from, function.blocks, name, function, declarations, function.blocks.len() as usize, function.blocks.len() as usize, false, false, 0, errors, 0);
            blocks_errors(function.blocks, name, function, declarations, function.blocks.len() as usize, function.blocks.len() as usize, false, false, 0, errors, 0)
        }
    };
}

proof fn functions_errors_keeps(
    from: Seq<Seq<char>>,
    functions: Seq<(Seq<char>, MirFunctionView)>,
    declarations: MirDeclarationsView,
    i: nat,
    errors: Seq<Seq<char>>,
)
    requires
        starts_with(errors, from),
    ensures
        starts_with(functions_errors(functions, declarations, i, errors), from),
    decreases functions, (functions.len() - i) as nat,
{
    let _ = {
        if i >= functions.len() {
            errors
        } else {
            let entry = functions[i as int];
            let errors = {
                function_errors_keeps(from, entry.0, entry.1, declarations, errors);
                function_errors(entry.0, entry.1, declarations, errors)
            };
            {
                functions_errors_keeps(from, functions, declarations, i + 1, errors);
                functions_errors(functions, declarations, i + 1, errors)
            }
        }
    };
}

proof fn clean_from(
    functions: Seq<(Seq<char>, MirFunctionView)>,
    declarations: MirDeclarationsView,
    i: nat,
    k: nat,
)
    requires
        i <= k < functions.len(),
        functions_errors(functions, declarations, i, Seq::empty()).len() == 0,
    ensures
        function_errors(
            functions[k as int].0,
            functions[k as int].1,
            declarations,
            Seq::empty(),
        ).len() == 0,
    decreases k - i,
{
    let function = functions[i as int];
    let found = function_errors(function.0, function.1, declarations, Seq::empty());
    functions_errors_keeps(found, functions, declarations, i + 1, found);
    assert(found =~= Seq::<Seq<char>>::empty());
    if i < k {
        clean_from(functions, declarations, i + 1, k);
    }
}

/// A program in which nothing is found has functions in which nothing is found.
pub proof fn clean_program_has_clean_functions(program: MirProgramView, k: nat)
    requires
        k < program.functions.len(),
        violations(program).len() == 0,
    ensures
        function_errors(
            program.functions[k as int].0,
            program.functions[k as int].1,
            program.declarations,
            Seq::empty(),
        ).len() == 0,
{
    reveal(violations);
    clean_from(program.functions, program.declarations, 0, k);
}

} // verus!
