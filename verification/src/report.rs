//! Pointing at a place in a source text.

use crate::error::ParseError;
use crate::text::{
    byte_offset, cat2, cat5, cat7, chars_of, decimal, show_next, text_of, width,
};
use vstd::prelude::*;

verus! {

/// The index of the first character that does not start before a byte.
pub open spec fn index_of_byte(chars: Seq<char>, byte: nat, i: nat) -> nat
    decreases chars.len() - i,
{
    if i >= chars.len() || byte_offset(chars, i) >= byte {
        i
    } else {
        index_of_byte(chars, byte, i + 1)
    }
}

/// How many lines end before an index.
pub open spec fn lines_before(chars: Seq<char>, i: nat) -> nat
    decreases i,
{
    if i == 0 || i > chars.len() {
        0
    } else if chars[i - 1] == '\n' {
        lines_before(chars, (i - 1) as nat) + 1
    } else {
        lines_before(chars, (i - 1) as nat)
    }
}

/// Where the line of an index starts.
pub open spec fn line_start(chars: Seq<char>, i: nat) -> nat
    decreases i,
{
    if i == 0 || i > chars.len() || chars[i - 1] == '\n' {
        i
    } else {
        line_start(chars, (i - 1) as nat)
    }
}

/// Where the line of an index ends: at the next line break, or with the text.
pub open spec fn line_end(chars: Seq<char>, i: nat) -> nat
    decreases chars.len() - i,
{
    if i >= chars.len() || chars[i as int] == '\n' {
        i
    } else {
        line_end(chars, i + 1)
    }
}

/// A text without the carriage returns at its end.
pub open spec fn without_returns(line: Seq<char>) -> Seq<char>
    decreases line.len(),
{
    if line.len() > 0 && line.last() == '\r' {
        without_returns(line.drop_last())
    } else {
        line
    }
}

/// So many blanks.
pub open spec fn blanks(n: nat) -> Seq<char> {
    Seq::new(n, |i: int| ' ')
}

/// The line that an index is on, without its line break.
pub open spec fn line_of(chars: Seq<char>, i: nat) -> Seq<char> {
    let start = line_start(chars, i);
    without_returns(chars.subrange(start as int, line_end(chars, start) as int))
}

/// A message about a byte of a source: the place, the message, the line and a mark below
/// the place. Lines and columns count from one.
pub open spec fn source_error(
    label: Seq<char>,
    source: Seq<char>,
    byte: nat,
    message: Seq<char>,
) -> Seq<char> {
    let at = index_of_byte(source, byte, 0);
    let column = (at - line_start(source, at)) as nat;
    label + ":"@ + decimal(lines_before(source, at) + 1) + ":"@ + decimal(column + 1) + ": "@
        + message + ("\n"@ + line_of(source, at) + "\n"@ + blanks(column) + "^"@)
}

/// An index is on the line that starts before it.
pub proof fn line_starts_before(chars: Seq<char>, i: nat)
    requires
        i <= chars.len(),
    ensures
        line_start(chars, i) <= i,
    decreases i,
{
    if i > 0 && chars[i - 1] != '\n' {
        line_starts_before(chars, (i - 1) as nat);
    }
}

proof fn index_is_inside(chars: Seq<char>, byte: nat, i: nat)
    requires
        i <= chars.len(),
    ensures
        i <= index_of_byte(chars, byte, i) <= chars.len(),
    decreases chars.len() - i,
{
    if i < chars.len() && byte_offset(chars, i) < byte {
        index_is_inside(chars, byte, i + 1);
    }
}

proof fn lines_are_few(chars: Seq<char>, i: nat)
    requires
        i <= chars.len(),
    ensures
        lines_before(chars, i) <= i,
    decreases i,
{
    if i > 0 {
        lines_are_few(chars, (i - 1) as nat);
    }
}

/// The line that is shown has no line break.
pub proof fn line_is_one_line(chars: Seq<char>, i: nat)
    requires
        i <= chars.len(),
    ensures
        !line_of(chars, i).contains('\n'),
{
    let start = line_start(chars, i);
    line_starts_before(chars, i);
    ends_at_break(chars, start);
    let line = chars.subrange(start as int, line_end(chars, start) as int);
    assert forall|k: int| 0 <= k < line.len() implies #[trigger] line[k] != '\n' by {
        assert(line[k] == chars[start + k]);
    }
    stays_one_line(line);
}

proof fn ends_at_break(chars: Seq<char>, i: nat)
    requires
        i <= chars.len(),
    ensures
        i <= line_end(chars, i) <= chars.len(),
        forall|k: int| i <= k < line_end(chars, i) ==> #[trigger] chars[k] != '\n',
    decreases chars.len() - i,
{
    if i < chars.len() && chars[i as int] != '\n' {
        ends_at_break(chars, i + 1);
    }
}

proof fn stays_one_line(line: Seq<char>)
    requires
        forall|k: int| 0 <= k < line.len() ==> #[trigger] line[k] != '\n',
    ensures
        !without_returns(line).contains('\n'),
    decreases line.len(),
{
    if line.len() > 0 && line.last() == '\r' {
        let rest = line.drop_last();
        assert forall|k: int| 0 <= k < rest.len() implies #[trigger] rest[k] != '\n' by {
            assert(rest[k] == line[k]);
        }
        stays_one_line(rest);
    }
}

fn find_index(chars: &Vec<char>, byte: usize) -> (r: usize)
    ensures
        r == index_of_byte(chars@, byte as nat, 0),
        r <= chars.len(),
{
    let mut i: usize = 0;
    let mut at: usize = 0;
    while i < chars.len() && at < byte
        invariant
            i <= chars.len(),
            at == byte_offset(chars@, i as nat) || at >= byte,
            at >= byte ==> byte_offset(chars@, i as nat) >= byte,
            index_of_byte(chars@, byte as nat, i as nat) == index_of_byte(chars@, byte as nat, 0),
        decreases chars.len() - i,
    {
        let step: usize = width(chars[i]);
        if step >= byte - at {
            at = byte;
        } else {
            at = at + step;
        }
        i = i + 1;
    }
    i
}

fn count_lines(chars: &Vec<char>, to: usize) -> (r: usize)
    requires
        to <= chars.len(),
    ensures
        r == lines_before(chars@, to as nat),
        r <= to,
{
    let mut n: usize = 0;
    let mut i: usize = 0;
    while i < to
        invariant
            i <= to <= chars.len(),
            n <= i,
            n == lines_before(chars@, i as nat),
        decreases to - i,
    {
        if chars[i] == '\n' {
            n = n + 1;
        }
        i = i + 1;
    }
    n
}

fn find_start(chars: &Vec<char>, at: usize) -> (r: usize)
    requires
        at <= chars.len(),
    ensures
        r == line_start(chars@, at as nat),
        r <= at,
{
    let mut i: usize = at;
    while i > 0 && chars[i - 1] != '\n'
        invariant
            i <= at <= chars.len(),
            line_start(chars@, i as nat) == line_start(chars@, at as nat),
        decreases i,
    {
        i = i - 1;
    }
    i
}

fn find_end(chars: &Vec<char>, at: usize) -> (r: usize)
    requires
        at <= chars.len(),
    ensures
        r == line_end(chars@, at as nat),
        at <= r <= chars.len(),
{
    let mut i: usize = at;
    while i < chars.len() && chars[i] != '\n'
        invariant
            at <= i <= chars.len(),
            line_end(chars@, i as nat) == line_end(chars@, at as nat),
        decreases chars.len() - i,
    {
        i = i + 1;
    }
    i
}

fn trimmed_line(chars: &Vec<char>, from: usize, to: usize) -> (r: String)
    requires
        from <= to <= chars.len(),
    ensures
        r@ == without_returns(chars@.subrange(from as int, to as int)),
{
    let mut end: usize = to;
    let ghost whole = chars@.subrange(from as int, to as int);
    while end > from && chars[end - 1] == '\r'
        invariant
            from <= end <= to <= chars.len(),
            without_returns(chars@.subrange(from as int, end as int)) == without_returns(whole),
        decreases end,
    {
        proof {
            let part = chars@.subrange(from as int, end as int);
            assert(part.last() == chars@[end - 1]);
            assert(part.drop_last() =~= chars@.subrange(from as int, end - 1));
        }
        end = end - 1;
    }
    proof {
        let part = chars@.subrange(from as int, end as int);
        if end > from {
            assert(part.last() == chars@[end - 1]);
        }
    }
    text_of(chars, from, end)
}

fn show_blanks(n: usize) -> (r: String)
    ensures
        r@ == blanks(n as nat),
{
    let mut s = String::new();
    let mut i: usize = 0;
    assert(s@ =~= blanks(0));
    while i < n
        invariant
            i <= n,
            s@ == blanks(i as nat),
        decreases n - i,
    {
        s.push(' ');
        i = i + 1;
        assert(blanks(i as nat) =~= blanks((i - 1) as nat).push(' '));
    }
    s
}

/// See [`source_error`].
pub fn format_source_error(label: &str, source: &str, byte: usize, message: &str) -> (r: String)
    ensures
        r@ == source_error(label@, source@, byte as nat, message@),
{
    let chars = chars_of(source);
    let at: usize = find_index(&chars, byte);
    let lines: usize = count_lines(&chars, at);
    let start: usize = find_start(&chars, at);
    let end: usize = find_end(&chars, start);
    let line = trimmed_line(&chars, start, end);
    let mark = show_blanks(at - start);
    let place = cat7(
        label,
        ":",
        show_next(lines).as_str(),
        ":",
        show_next(at - start).as_str(),
        ": ",
        message,
    );
    let shown = cat5("\n", line.as_str(), "\n", mark.as_str(), "^");
    cat2(place.as_str(), shown.as_str())
}

/// What is reported of a parse error: the message, at its place if it has one. `shown` is
/// the token that it names, if it names one.
pub open spec fn parse_error(
    label: Seq<char>,
    source: Seq<char>,
    err: ParseError,
    shown: Seq<char>,
) -> Seq<char> {
    match err.spec_byte_pos() {
        Some(byte) => source_error(label, source, byte as nat, err.spec_message(shown)),
        None => err.spec_message(shown),
    }
}

/// See [`parse_error`].
pub fn format_parse_error(label: &str, source: &str, err: &ParseError, shown: &str) -> (r: String)
    ensures
        r@ == parse_error(label@, source@, *err, shown@),
{
    let message = err.message(shown);
    match err.byte_pos() {
        Some(byte) => format_source_error(label, source, byte, message.as_str()),
        None => message,
    }
}

} // verus!
