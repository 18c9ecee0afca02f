//! What holds of running programs: places, scopes and lists.

use crate::evaluator::{
    element_within, fields_with, list_replaced, name_defined, names_bound, part_at, part_of_path,
    part_replaced, root_with, scope_and, scopes_with, slot_named, value_in_scope, value_of_field,
    EvaluatorView, PathStepView,
};
use crate::flatten::following_index;
use crate::text::{insert_name, insert_name_keeps_order, sorted_names};
use crate::values::{index_within, EvalErrorView, ValueView};
use vstd::prelude::*;

verus! {

proof fn field_is_replaced(
    fields: Seq<(Seq<char>, ValueView)>,
    name: Seq<char>,
    value: ValueView,
    i: nat,
    out: Seq<(Seq<char>, ValueView)>,
    done: bool,
)
    requires
        i <= fields.len(),
        i == out.len(),
        !done ==> (forall|k: int| 0 <= k < i ==> #[trigger] fields[k].0 != name),
        forall|k: int| 0 <= k < i ==> #[trigger] out[k].0 == fields[k].0,
        done ==> (exists|k: int|
            0 <= k < i && #[trigger] out[k] == (name, value) && (forall|j: int|
                0 <= j < k ==> #[trigger] out[j].0 != name)),
        value_of_field(fields, name, 0) is Some,
    ensures
        value_of_field(fields_with(fields, name, value, i, out, done), name, 0) == Some(value),
    decreases fields.len() - i,
{
    if i < fields.len() {
        let field = fields[i as int];
        if !done && field.0 == name {
            let next = out.push((name, value));
            assert(next[i as int] == (name, value));
            assert forall|j: int| 0 <= j < i implies #[trigger] next[j].0 != name by {
                assert(next[j] == out[j]);
            }
            field_is_replaced(fields, name, value, i + 1, next, true);
        } else {
            let next = out.push((field.0, field.1));
            if done {
                let k = choose|k: int|
                    0 <= k < i && #[trigger] out[k] == (name, value) && (forall|j: int|
                        0 <= j < k ==> #[trigger] out[j].0 != name);
                assert(next[k] == (name, value));
                assert forall|j: int| 0 <= j < k implies #[trigger] next[j].0 != name by {
                    assert(next[j] == out[j]);
                }
            }
            field_is_replaced(fields, name, value, i + 1, next, done);
        }
    } else {
        if done {
            let k = choose|k: int|
                0 <= k < i && #[trigger] out[k] == (name, value) && (forall|j: int|
                    0 <= j < k ==> #[trigger] out[j].0 != name);
            first_field(out, name, 0, k as nat);
        } else {
            no_field(fields, name, 0);
        }
    }
}

proof fn first_field(fields: Seq<(Seq<char>, ValueView)>, name: Seq<char>, i: nat, k: nat)
    requires
        i <= k < fields.len(),
        fields[k as int].0 == name,
        forall|j: int| i <= j < k ==> #[trigger] fields[j].0 != name,
    ensures
        value_of_field(fields, name, i) == Some(fields[k as int].1),
    decreases k - i,
{
    if i < k {
        assert(fields[i as int].0 != name);
        first_field(fields, name, i + 1, k);
    }
}

proof fn no_field(fields: Seq<(Seq<char>, ValueView)>, name: Seq<char>, i: nat)
    requires
        i <= fields.len(),
        forall|j: int| i <= j < fields.len() ==> #[trigger] fields[j].0 != name,
    ensures
        value_of_field(fields, name, i) is None,
    decreases fields.len() - i,
{
    if i < fields.len() {
        assert(fields[i as int].0 != name);
        no_field(fields, name, i + 1);
    }
}

proof fn element_is_replaced(
    items: Seq<ValueView>,
    at: usize,
    part: ValueView,
    i: nat,
    out: Seq<ValueView>,
    k: usize,
)
    requires
        i <= items.len(),
        k == (if i <= usize::MAX {
            i as int
        } else {
            usize::MAX as int
        }),
        i == out.len(),
        at < i ==> out[at as int] == part,
    ensures
        list_replaced(items, at, part, i, out, k).len() == items.len(),
        at < items.len() ==> list_replaced(items, at, part, i, out, k)[at as int] == part,
    decreases items.len() - i,
{
    if i < items.len() {
        let item = items[i as int];
        let next = if k == at {
            out.push(part)
        } else {
            out.push(item)
        };
        reveal(following_index);
        element_is_replaced(items, at, part, i + 1, next, following_index(k));
    }
}

/// One step into a part that was just replaced gives the new part.
pub proof fn replaced_part_is_read(value: ValueView, step: PathStepView, part: ValueView)
    requires
        part_at(value, step) is Ok,
        part_replaced(value, step, part) is Ok,
    ensures
        part_at(part_replaced(value, step, part)->Ok_0, step) == Ok::<ValueView, EvalErrorView>(
            part,
        ),
{
    reveal(part_at);
    reveal(part_replaced);
    reveal(element_within);
    reveal(index_within);
    match step {
        PathStepView::Field(name) => match value {
            ValueView::Struct { fields, .. } => {
                field_is_replaced(fields, name, part, 0, Seq::empty(), false);
            },
            _ => {},
        },
        PathStepView::Index(i) => match value {
            ValueView::List(items) => {
                element_is_replaced(items, i as usize, part, 0, Seq::empty(), 0);
            },
            _ => {},
        },
    }
}

proof fn one_step_more(
    path: Seq<PathStepView>,
    root: ValueView,
    count: usize,
    i: nat,
    slot: ValueView,
    k: usize,
)
    requires
        i == k,
        k <= count < path.len(),
        count < usize::MAX,
    ensures
        part_of_path(path, root, (count + 1) as usize, i, slot, k) == (match part_of_path(
            path,
            root,
            count,
            i,
            slot,
            k,
        ) {
            Ok(found) => part_at(found, path[count as int]),
            Err(error) => Err(error),
        }),
    decreases count - i,
{
    reveal(following_index);
    let next = part_at(slot, path[i as int]);
    if next is Ok {
        if k < count {
            one_step_more(path, root, count, i + 1, next->Ok_0, (k + 1) as usize);
        } else {
            let after = next->Ok_0;
            assert(part_of_path(path, root, (count + 1) as usize, i + 1, after, (k + 1) as usize)
                == Ok::<ValueView, EvalErrorView>(after));
        }
    }
}

/// What was written at a place is read there.
pub proof fn written_place_is_read(
    root: ValueView,
    path: Seq<PathStepView>,
    count: usize,
    part: ValueView,
)
    requires
        count <= path.len(),
        part_of_path(path, root, count, 0, root, 0) is Ok,
        root_with(root, path, count, part) is Ok,
    ensures
        ({
            let new = root_with(root, path, count, part)->Ok_0;
            part_of_path(path, new, count, 0, new, 0) == Ok::<ValueView, EvalErrorView>(part)
        }),
    decreases count,
{
    if count > 0 {
        let below = (count - 1) as usize;
        let step = path[below as int];
        one_step_more(path, root, below, 0, root, 0);
        let container = part_of_path(path, root, below, 0, root, 0)->Ok_0;
        let made = part_replaced(container, step, part)->Ok_0;
        written_place_is_read(root, path, below, made);
        let new = root_with(root, path, below, made)->Ok_0;
        one_step_more(path, new, below, 0, new, 0);
        replaced_part_is_read(container, step, part);
    }
}

/// A name that was just defined has its value.
pub proof fn defined_name_is_found(
    m: EvaluatorView,
    env: usize,
    name: Seq<char>,
    value: ValueView,
)
    requires
        env < m.scopes.len(),
    ensures
        value_in_scope(name_defined(m, env, name, value).scopes, env, name) == Some(value),
{
    reveal(name_defined);
    reveal(scopes_with);
    reveal(scope_and);
    let vars = m.scopes[env as int].vars.push((name, value));
    assert(vars.last() == (name, value));
}

/// Defining a name keeps what other names are bound to.
pub proof fn other_names_are_kept(
    m: EvaluatorView,
    env: usize,
    name: Seq<char>,
    value: ValueView,
    from: usize,
    other: Seq<char>,
)
    requires
        other != name,
    ensures
        value_in_scope(name_defined(m, env, name, value).scopes, from, other) == value_in_scope(
            m.scopes,
            from,
            other,
        ),
    decreases from,
{
    reveal(name_defined);
    reveal(scopes_with);
    reveal(scope_and);
    let now = name_defined(m, env, name, value).scopes;
    if from < m.scopes.len() {
        let vars = m.scopes[from as int].vars;
        if from == env {
            let more = vars.push((name, value));
            assert(more.drop_last() =~= vars);
            assert(slot_named(more, other) == slot_named(vars, other));
        }
        match m.scopes[from as int].parent {
            Some(parent) => if parent < from {
                other_names_are_kept(m, env, name, value, parent, other);
            },
            None => {},
        }
    }
}

proof fn names_bound_so_far(
    vars: Seq<(Seq<char>, ValueView)>,
    i: nat,
    out: Seq<Seq<char>>,
)
    requires
        i <= vars.len(),
        sorted_names(out),
        forall|n: Seq<char>| #[trigger] out.contains(n) <==> bound_before(vars, i, n),
    ensures
        sorted_names(names_bound(vars, i, out)),
        forall|n: Seq<char>| #[trigger]
            names_bound(vars, i, out).contains(n) <==> bound_before(vars, vars.len(), n),
    decreases vars.len() - i,
{
    if i < vars.len() {
        let name = vars[i as int].0;
        insert_name_keeps_order(out, name);
        assert forall|n: Seq<char>| #[trigger]
            insert_name(out, name).contains(n) <==> bound_before(vars, i + 1, n) by {
            if bound_before(vars, i, n) {
                let k = choose|k: int| 0 <= k < i && (#[trigger] vars[k]).0 == n;
                assert(vars[k].0 == n);
            }
            if n == name {
                assert(vars[i as int].0 == n);
            }
        }
        names_bound_so_far(vars, i + 1, insert_name(out, name));
    }
}

/// Whether one of the first `i` variables has a name.
pub open spec fn bound_before(vars: Seq<(Seq<char>, ValueView)>, i: nat, name: Seq<char>) -> bool {
    exists|k: int| 0 <= k < i && (#[trigger] vars[k]).0 == name
}

/// The names that are listed of a scope are those of its variables, in order and each one
/// once.
pub proof fn bound_names_are_listed(vars: Seq<(Seq<char>, ValueView)>, name: Seq<char>)
    ensures
        ({
            let names = names_bound(vars, 0, Seq::empty());
            &&& sorted_names(names)
            &&& names.contains(name) <==> bound_before(vars, vars.len(), name)
        }),
{
    names_bound_so_far(vars, 0, Seq::empty());
}

} // verus!
