//! What the methods of lists and the built-in functions do.

use crate::ast::InfixOp;
use crate::evaluator::{
    element_within, extreme, extreme_number, len_result, range_by, range_made,
    range_number, range_numbers, value_indexed,
};
use crate::flatten::following_index;
use crate::values::{
    elem_equal, first_position, higher_rank, index_of_value, index_within, like_before, like_first,
    list_and, list_answer, list_appended, list_inserted, list_method, list_popped, list_popped_at,
    list_removed, list_reversed, list_searched, list_with, member_of, membership, number_as_int,
    number_of, operator_on, rank_of, reversed_below, scalars_equal, value_of_size, EvalErrorView,
    KnownView, ValueView,
};
use vstd::prelude::*;

verus! {

/// Whether the elements of a list give no kind of number to others.
pub open spec fn unconverting(items: Seq<ValueView>) -> bool {
    items.len() == 0 || !(items[0] is UInt || items[0] is Float64)
}

/// Whether a list has integers only.
pub open spec fn all_ints(items: Seq<ValueView>) -> bool {
    forall|k: int| 0 <= k < items.len() ==> (#[trigger] items[k]) is Int
}

proof fn stays(value: ValueView, items: Seq<ValueView>, known: Seq<KnownView>)
    requires
        unconverting(items),
    ensures
        like_first(value, items, known) == Ok::<_, EvalErrorView>(value),
{
    reveal(like_first);
    reveal(like_before);
}

/// `append` puts an element behind the others.
pub proof fn append_adds_at_the_end(
    items: Seq<ValueView>,
    args: Seq<ValueView>,
    known: Seq<KnownView>,
)
    requires
        unconverting(items),
        args.len() == 1,
    ensures
        list_method(items, "append"@, args, known) matches Ok((made, ValueView::NoneValue))
            && made.len() == items.len() + 1 && made.last() == args[0] && made.drop_last() == items,
{
    reveal(list_method);
    reveal(list_appended);
    reveal(list_and);
    stays(args[0], items, known);
    assert(items.push(args[0]).drop_last() =~= items);
}

/// `insert` puts an element before the one at an index; without it the list is as before.
pub proof fn insert_adds_at_an_index(
    items: Seq<ValueView>,
    i: i64,
    value: ValueView,
    known: Seq<KnownView>,
)
    requires
        unconverting(items),
        items.len() < u64::MAX,
        items.len() < usize::MAX,
    ensures
        match list_method(items, "insert"@, seq![ValueView::Int(i), value], known) {
            Ok((made, given)) => 0 <= i <= items.len() && given is NoneValue && made.len()
                == items.len() + 1 && made[i as int] == value && made.remove(i as int) == items,
            Err(_) => !(0 <= i <= items.len()),
        },
{
    reveal_strlit("append");
    reveal_strlit("insert");
    assert("insert"@[0] != "append"@[0]);
    reveal(list_method);
    reveal(list_inserted);
    reveal(index_of_value);
    stays(value, items, known);
    if 0 <= i <= items.len() {
        let made = list_with(items, i as usize, value);
        assert(made.remove(i as int) =~= items);
    }
}

/// `pop` takes the last element away, or the one at an index, and gives it back.
pub proof fn pop_takes_an_element(items: Seq<ValueView>, known: Seq<KnownView>, i: i64)
    requires
        items.len() <= usize::MAX,
    ensures
        match list_method(items, "pop"@, Seq::empty(), known) {
            Ok((rest, taken)) => items.len() > 0 && rest.push(taken) == items,
            Err(_) => items.len() == 0,
        },
        match list_method(items, "pop"@, seq![ValueView::Int(i)], known) {
            Ok((rest, taken)) => 0 <= i < items.len() && rest.len() == items.len() - 1
                && rest.insert(i as int, taken) == items,
            Err(_) => !(0 <= i < items.len()),
        },
{
    reveal_strlit("append");
    reveal_strlit("insert");
    reveal_strlit("remove");
    reveal_strlit("pop");
    assert("pop"@.len() == 3 && "append"@.len() == 6 && "insert"@.len() == 6 && "remove"@.len()
        == 6);
    reveal(list_method);
    reveal(list_popped);
    reveal(list_popped_at);
    reveal(index_of_value);
    reveal(index_within);
    if items.len() > 0 {
        let last = (items.len() - 1) as int;
        assert(items.remove(last).push(items[last]) =~= items);
    }
    if 0 <= i < items.len() {
        assert(items.remove(i as int).insert(i as int, items[i as int]) =~= items);
    }
}

proof fn reversed_so_far(items: Seq<ValueView>, found: Seq<ValueView>, n: usize)
    requires
        n <= items.len(),
    ensures
        reversed_below(items, found, n) == found + Seq::new(n as nat, |k: int| items[n - 1 - k]),
    decreases n,
{
    reveal(list_and);
    if n > 0 {
        let below = (n - 1) as usize;
        reversed_so_far(items, found.push(items[below as int]), below);
        assert(found.push(items[below as int]) + Seq::new(
            below as nat,
            |k: int| items[below - 1 - k],
        ) =~= found + Seq::new(n as nat, |k: int| items[n - 1 - k]));
    } else {
        assert(found + Seq::new(0, |k: int| items[n - 1 - k]) =~= found);
    }
}

/// `reverse` puts the elements in the opposite order, and `clear` takes all of them away.
pub proof fn reverse_turns_around(items: Seq<ValueView>, args: Seq<ValueView>, known: Seq<KnownView>)
    requires
        items.len() <= usize::MAX,
    ensures
        list_method(items, "reverse"@, args, known) matches Ok((made, ValueView::NoneValue))
            && made.len() == items.len() && forall|k: int|
            0 <= k < items.len() ==> #[trigger] made[k] == items[items.len() - 1 - k],
        list_method(items, "clear"@, args, known) matches Ok((made, ValueView::NoneValue))
            && made.len() == 0,
{
    reveal_strlit("append");
    reveal_strlit("insert");
    reveal_strlit("remove");
    reveal_strlit("pop");
    reveal_strlit("clear");
    reveal_strlit("reverse");
    assert("pop"@.len() == 3 && "append"@.len() == 6 && "insert"@.len() == 6 && "remove"@.len() == 6
        && "clear"@.len() == 5 && "reverse"@.len() == 7);
    reveal(list_method);
    reveal(list_reversed);
    reversed_so_far(items, Seq::empty(), items.len() as usize);
}

proof fn first_is_found(
    items: Seq<ValueView>,
    x: i64,
    known: Seq<KnownView>,
    i: nat,
    k: usize,
)
    requires
        all_ints(items),
        i <= items.len() <= usize::MAX,
        k == i,
        forall|j: int| 0 <= j < i ==> #[trigger] items[j] != ValueView::Int(x),
    ensures
        match first_position(items, ValueView::Int(x), known, i, k) {
            Ok(Some(at)) => at < items.len() && items[at as int] == ValueView::Int(x) && forall|j: int|
                0 <= j < at ==> #[trigger] items[j] != ValueView::Int(x),
            Ok(None) => !items.contains(ValueView::Int(x)),
            Err(_) => false,
        },
    decreases items.len() - i,
{
    reveal(elem_equal);
    reveal(scalars_equal);
    reveal(following_index);
    if i < items.len() {
        assert(items[i as int] is Int);
        if items[i as int] != ValueView::Int(x) {
            first_is_found(items, x, known, i + 1, (k + 1) as usize);
        }
    }
}

/// Among integers `remove` takes the first that equals its argument away, `index` says where
/// it stands, and `in` whether there is one.
pub proof fn equal_element_is_found(items: Seq<ValueView>, x: i64, known: Seq<KnownView>)
    requires
        all_ints(items),
        items.len() <= usize::MAX,
        items.len() <= i64::MAX,
    ensures
        match list_method(items, "remove"@, seq![ValueView::Int(x)], known) {
            Ok((rest, given)) => given is NoneValue && exists|k: int|
                0 <= k < items.len() && #[trigger] items[k] == ValueView::Int(x) && rest
                    == items.remove(k) && forall|j: int|
                    0 <= j < k ==> #[trigger] items[j] != ValueView::Int(x),
            Err(_) => !items.contains(ValueView::Int(x)),
        },
        match list_method(items, "index"@, seq![ValueView::Int(x)], known) {
            Ok((same, ValueView::Int(k))) => same == items && 0 <= k < items.len() && items[k as int]
                == ValueView::Int(x) && forall|j: int|
                0 <= j < k ==> #[trigger] items[j] != ValueView::Int(x),
            Ok(_) => false,
            Err(_) => !items.contains(ValueView::Int(x)),
        },
        operator_on(InfixOp::In, ValueView::Int(x), ValueView::List(items), known) == Ok::<
            _,
            EvalErrorView,
        >(ValueView::Bool(items.contains(ValueView::Int(x)))),
        operator_on(InfixOp::NotIn, ValueView::Int(x), ValueView::List(items), known) == Ok::<
            _,
            EvalErrorView,
        >(ValueView::Bool(!items.contains(ValueView::Int(x)))),
{
    reveal_strlit("append");
    reveal_strlit("insert");
    reveal_strlit("remove");
    reveal_strlit("pop");
    reveal_strlit("clear");
    reveal_strlit("reverse");
    reveal_strlit("extend");
    reveal_strlit("index");
    reveal_strlit("count");
    assert("append"@[0] == 'a' && "insert"@[2] == 's' && "remove"@[0] == 'r' && "pop"@.len() == 3
        && "clear"@[0] == 'c' && "reverse"@.len() == 7 && "extend"@.len() == 6 && "index"@.len() == 5
        && "index"@[0] == 'i' && "count"@[0] == 'c' && "append"@.len() == 6 && "insert"@.len() == 6
        && "insert"@[0] == 'i' && "remove"@.len() == 6 && "clear"@.len() == 5);
    reveal(list_method);
    reveal(list_removed);
    reveal(list_answer);
    reveal(list_searched);
    reveal(value_of_size);
    reveal(operator_on);
    reveal(membership);
    reveal(member_of);
    assert(unconverting(items)) by {
        if items.len() > 0 {
            assert(items[0] is Int);
        }
    }
    stays(ValueView::Int(x), items, known);
    first_is_found(items, x, known, 0, 0);
    match first_position(items, ValueView::Int(x), known, 0, 0) {
        Ok(Some(at)) => {
            assert(items[at as int] == ValueView::Int(x));
            assert(items.contains(ValueView::Int(x)));
        },
        _ => {},
    }
}

/// Subscripts count from zero, and those outside fail.
pub proof fn subscripts_count_from_zero(items: Seq<ValueView>, i: i64)
    requires
        items.len() <= usize::MAX,
    ensures
        match value_indexed(ValueView::List(items), i) {
            Ok(value) => 0 <= i < items.len() && value == items[i as int],
            Err(_) => !(0 <= i < items.len()),
        },
        match value_indexed(ValueView::Tuple(items), i) {
            Ok(value) => 0 <= i < items.len() && value == items[i as int],
            Err(_) => !(0 <= i < items.len()),
        },
{
    reveal(value_indexed);
    reveal(element_within);
    reveal(index_within);
}

/// `len` of a list counts its elements.
pub proof fn lists_are_counted(items: Seq<ValueView>)
    requires
        items.len() <= usize::MAX,
        items.len() <= i64::MAX,
    ensures
        len_result(ValueView::List(items)) matches Ok(ValueView::Int(n)) && n == items.len(),
{
    reveal(len_result);
    reveal(value_of_size);
}

/// `min` and `max` of two integers give one of them, which lies below or above both.
pub proof fn extremes_bound(a: i64, b: i64, known: Seq<KnownView>)
    ensures
        extreme(true, ValueView::Int(a), ValueView::Int(b), known) matches Ok(ValueView::Int(r)) && r
            <= a && r <= b && (r == a || r == b),
        extreme(false, ValueView::Int(a), ValueView::Int(b), known) matches Ok(ValueView::Int(r)) && r
            >= a && r >= b && (r == a || r == b),
{
    reveal(extreme);
    reveal(extreme_number);
    reveal(number_of);
    reveal(higher_rank);
    reveal(rank_of);
    reveal(number_as_int);
}

proof fn range_arguments(values: Seq<ValueView>, i: nat, out: Seq<i64>)
    requires
        i <= values.len(),
        all_ints(values),
    ensures
        range_numbers(values, i, out) matches Ok(found) && found == out + Seq::new(
            (values.len() - i) as nat,
            |k: int| values[i + k]->Int_0,
        ),
    decreases values.len() - i,
{
    reveal(range_number);
    if i < values.len() {
        assert(values[i as int] is Int);
        range_arguments(values, i + 1, out.push(values[i as int]->Int_0));
        assert(out.push(values[i as int]->Int_0) + Seq::new(
            (values.len() - (i + 1)) as nat,
            |k: int| values[i + 1 + k]->Int_0,
        ) =~= out + Seq::new((values.len() - i) as nat, |k: int| values[i + k]->Int_0));
    } else {
        assert(out + Seq::new(0, |k: int| values[i + k]->Int_0) =~= out);
    }
}

/// `range` of one integer goes from zero up to it by one, of two from the first to the second
/// by one, and of three by the third, which is not zero.
pub proof fn range_reads_its_arguments(a: i64, b: i64, c: i64)
    ensures
        range_made(seq![ValueView::Int(a)]) == Ok::<_, EvalErrorView>(
            ValueView::Range { start: 0, stop: a, step: 1 },
        ),
        range_made(seq![ValueView::Int(a), ValueView::Int(b)]) == Ok::<_, EvalErrorView>(
            ValueView::Range { start: a, stop: b, step: 1 },
        ),
        c != 0 ==> range_made(seq![ValueView::Int(a), ValueView::Int(b), ValueView::Int(c)]) == Ok::<
            _,
            EvalErrorView,
        >(ValueView::Range { start: a, stop: b, step: c }),
        c == 0 ==> range_made(seq![ValueView::Int(a), ValueView::Int(b), ValueView::Int(c)]) is Err,
{
    reveal(range_made);
    reveal(range_by);
    range_arguments(seq![ValueView::Int(a)], 0, Seq::empty());
    range_arguments(seq![ValueView::Int(a), ValueView::Int(b)], 0, Seq::empty());
    range_arguments(seq![ValueView::Int(a), ValueView::Int(b), ValueView::Int(c)], 0, Seq::empty());
}

} // verus!
