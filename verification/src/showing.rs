//! What a message about a source text points at.

use crate::report::{index_of_byte, line_end, line_of, line_start, lines_before, without_returns};
use crate::text::{byte_offset, byte_offset_monotone};
use vstd::prelude::*;

verus! {

/// A place given as the number of bytes before a character is the place of that character.
pub proof fn byte_is_its_character(chars: Seq<char>, i: nat, k: nat)
    requires
        k <= i <= chars.len(),
    ensures
        index_of_byte(chars, byte_offset(chars, i), k) == i,
    decreases i - k,
{
    if k < i {
        byte_offset_monotone(chars, k, i);
        byte_is_its_character(chars, i, k + 1);
    }
}

proof fn start_follows_end(chars: Seq<char>, i: nat)
    requires
        i <= chars.len(),
    ensures
        ({
            let start = line_start(chars, i) as int;
            &&& start <= i
            &&& start == 0 || chars[start - 1] == '\n'
            &&& forall|j: int| start <= j < i ==> #[trigger] chars[j] != '\n'
        }),
    decreases i,
{
    if i > 0 && chars[i - 1] != '\n' {
        start_follows_end(chars, (i - 1) as nat);
    }
}

proof fn end_is_after(chars: Seq<char>, i: nat, k: nat)
    requires
        i <= k <= chars.len(),
        forall|j: int| i <= j < k ==> #[trigger] chars[j] != '\n',
    ensures
        k <= line_end(chars, i) <= chars.len(),
    decreases chars.len() - i,
{
    if i < chars.len() && chars[i as int] != '\n' {
        if i < k {
            end_is_after(chars, i + 1, k);
        } else {
            end_is_after(chars, i + 1, k + 1);
        }
    }
}

proof fn returns_are_cut(line: Seq<char>)
    ensures
        without_returns(line).len() <= line.len(),
        without_returns(line) == line.take(without_returns(line).len() as int),
        forall|j: int| without_returns(line).len() <= j < line.len() ==> #[trigger] line[j] == '\r',
    decreases line.len(),
{
    if line.len() > 0 && line.last() == '\r' {
        let less = line.drop_last();
        returns_are_cut(less);
        let n = without_returns(less).len() as int;
        assert(less.take(n) =~= line.take(n));
        assert forall|j: int| n <= j < line.len() implies #[trigger] line[j] == '\r' by {
            if j < less.len() {
                assert(less[j] == line[j]);
            }
        }
    } else {
        assert(line.take(line.len() as int) =~= line);
    }
}

/// The line that is shown for a place has at its column the character at the place, if any is
/// left there; the place is on the line that begins so many lines down.
pub proof fn column_is_the_place(chars: Seq<char>, i: nat)
    requires
        i <= chars.len(),
    ensures
        ({
            let start = line_start(chars, i) as int;
            let column = i - start;
            &&& 0 <= column
            &&& start == 0 || chars[start - 1] == '\n'
            &&& !chars.subrange(start, i as int).contains('\n')
            &&& column < line_of(chars, i).len() ==> line_of(chars, i)[column] == chars[i as int]
            &&& forall|j: int|
                0 <= j < column && j < line_of(chars, i).len() ==> #[trigger] line_of(chars, i)[j]
                    == chars[start + j]
        }),
{
    start_follows_end(chars, i);
    let start = line_start(chars, i);
    end_is_after(chars, start, i);
    let line = chars.subrange(start as int, line_end(chars, start) as int);
    returns_are_cut(line);
}

/// There are as many lines before a place as there are line ends.
pub proof fn line_ends_are_counted(chars: Seq<char>, i: nat)
    requires
        i <= chars.len(),
    ensures
        lines_before(chars, i) == chars.take(i as int).to_multiset().count('\n'),
    decreases i,
{
    broadcast use vstd::seq_lib::group_to_multiset_ensures;

    if i > 0 {
        line_ends_are_counted(chars, (i - 1) as nat);
        assert(chars.take(i as int) =~= chars.take(i - 1).push(chars[i - 1]));
    }
}

} // verus!
