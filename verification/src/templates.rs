//! What a specialization of a template is made for.

use crate::ast::StmtKindView;
use crate::elab::{ct_params, name_of_decl, CtContextView, TemplateView};
use crate::elaborate::unplaced;
use crate::flatten::following_index;
use crate::mangle::mangled;
use crate::naming::names_are_marked;
use crate::packs::without_stars;
use crate::rewrite::value_bound;
use crate::specialize::{env_of_spec, spec_generated, subs_of_spec};
use crate::types::{CtValueView, ParamDeclView};
use vstd::prelude::*;

verus! {

/// The name under which a compile-time parameter is seen.
pub open spec fn seen_as(decl: ParamDeclView) -> Seq<char> {
    without_stars(name_of_decl(decl))
}

proof fn pushed_is_bound(
    out: Seq<(Seq<char>, CtValueView)>,
    name: Seq<char>,
    value: CtValueView,
    other: Seq<char>,
)
    ensures
        value_bound(out.push((name, value)), name) == Some(value),
        other != name ==> value_bound(out.push((name, value)), other) == value_bound(out, other),
{
    let all = out.push((name, value));
    assert(all.last() == (name, value));
    assert(all.drop_last() =~= out);
}

proof fn bound_from(
    vals: Seq<CtValueView>,
    decls: Seq<ParamDeclView>,
    i: nat,
    out: Seq<(Seq<char>, CtValueView)>,
    k: usize,
    at: int,
)
    requires
        vals.len() == decls.len() <= usize::MAX,
        k == i <= vals.len(),
        0 <= at < vals.len(),
        forall|j: int| at < j < decls.len() ==> seen_as(#[trigger] decls[j]) != seen_as(decls[at]),
        at < i ==> value_bound(out, seen_as(decls[at])) == Some(vals[at]),
    ensures
        value_bound(env_of_spec(vals, decls, i, out, k), seen_as(decls[at])) == Some(vals[at]),
    decreases vals.len() - i,
{
    reveal(following_index);
    if i < vals.len() {
        pushed_is_bound(out, seen_as(decls[i as int]), vals[i as int], seen_as(decls[at]));
        bound_from(
            vals,
            decls,
            i + 1,
            out.push((seen_as(decls[i as int]), vals[i as int])),
            (k + 1) as usize,
            at,
        );
    }
}

/// In a specialization each compile-time parameter stands for its own value, unless a later
/// parameter has the same name.
pub proof fn parameters_stand_for_values(
    vals: Seq<CtValueView>,
    decls: Seq<ParamDeclView>,
    top: Seq<(Seq<char>, CtValueView)>,
    at: int,
)
    requires
        vals.len() == decls.len() <= usize::MAX,
        0 <= at < vals.len(),
        forall|j: int| at < j < decls.len() ==> seen_as(#[trigger] decls[j]) != seen_as(decls[at]),
    ensures
        value_bound(env_of_spec(vals, decls, 0, top, 0), seen_as(decls[at])) == Some(vals[at]),
{
    bound_from(vals, decls, 0, top, 0, at);
}

proof fn replaced_from(
    vals: Seq<CtValueView>,
    decls: Seq<ParamDeclView>,
    i: nat,
    out: Seq<(Seq<char>, CtValueView)>,
    k: usize,
    at: int,
)
    requires
        vals.len() == decls.len() <= usize::MAX,
        k == i <= vals.len(),
        0 <= at < vals.len(),
        decls[at] is Value,
        forall|j: int| at < j < decls.len() ==> seen_as(#[trigger] decls[j]) != seen_as(decls[at]),
        at < i ==> value_bound(out, seen_as(decls[at])) == Some(vals[at]),
    ensures
        value_bound(subs_of_spec(vals, decls, i, out, k), seen_as(decls[at])) == Some(vals[at]),
    decreases vals.len() - i,
{
    reveal(following_index);
    if i < vals.len() {
        let decl = decls[i as int];
        pushed_is_bound(out, seen_as(decl), vals[i as int], seen_as(decls[at]));
        let next = if decl is Value {
            out.push((seen_as(decl), vals[i as int]))
        } else {
            out
        };
        replaced_from(vals, decls, i + 1, next, (k + 1) as usize, at);
    }
}

/// In the body of a specialization each value parameter is replaced by its own value, unless a
/// later parameter has the same name.
pub proof fn value_parameters_are_replaced(
    vals: Seq<CtValueView>,
    decls: Seq<ParamDeclView>,
    visible: Seq<(Seq<char>, CtValueView)>,
    at: int,
)
    requires
        vals.len() == decls.len() <= usize::MAX,
        0 <= at < vals.len(),
        decls[at] is Value,
        forall|j: int| at < j < decls.len() ==> seen_as(#[trigger] decls[j]) != seen_as(decls[at]),
    ensures
        value_bound(subs_of_spec(vals, decls, 0, visible, 0), seen_as(decls[at])) == Some(vals[at]),
{
    replaced_from(vals, decls, 0, visible, 0, at);
}

/// A specialization is a function whose name says the template and the values; it is made
/// only for as many values as the template has compile-time parameters.
pub proof fn specialization_is_named_for_its_values(
    template: TemplateView,
    vals: Seq<CtValueView>,
    cx: CtContextView,
    top: Seq<(Seq<char>, CtValueView)>,
    fuel: usize,
)
    ensures
        spec_generated(template, vals, cx, top, fuel) matches Ok((def, _)) ==> {
            &&& template.def.kind matches StmtKindView::Def { type_params, raises, .. }
            &&& ct_params(type_params, 0, Seq::empty()).len() == vals.len()
            &&& def.kind matches StmtKindView::Def { name, raises: still, .. }
            &&& name == mangled(vals, 0, template.name)
            &&& vals.len() > 0 ==> template.name.push('$').is_prefix_of(name)
            &&& still == raises
            &&& def.span == template.def.span
        },
{
    reveal(spec_generated);
    reveal(unplaced);
    if vals.len() > 0 {
        names_are_marked(template.name, vals);
    }
}

} // verus!
