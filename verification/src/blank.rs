//! A blank or comment-only line changes no token.

use crate::error::LexError;
use crate::scan::{
    at, begun_run_end, blank_from, code_digits, code_digits_bounds, digit_at, digit_run_end,
    digit_run_end_bounds, digit_value, digits_end, escape, exponent_end, exponent_end_bounds,
    flushed, initial, interpolation_end, interpolation_end_bounds, is_word_char, is_word_start,
    line_end, number, number_bounds, quote_width, quoted, radix_prefix, rank, scan, scan_keeps,
    scan_token, scan_word, settle, settle_keeps, spaces_end, string_body, string_body_bounds,
    stripped, symbol, template_body, template_body_bounds, tokens_from, valid, word_end,
    word_end_bounds, Scan, ScanState, Spanned,
};
use crate::text::byte_offset;
use crate::token::{ChunkView, TokenView};
use vstd::prelude::*;

verus! {

/// The tokens without their spans.
pub open spec fn kinds(tokens: Seq<Spanned>) -> Seq<TokenView> {
    tokens.map_values(|t: Spanned| t.0)
}

/// Whether two scans end alike: in the same tokens, or both in a failure.
pub open spec fn same_tokens(
    a: Result<Seq<Spanned>, LexError>,
    b: Result<Seq<Spanned>, LexError>,
) -> bool {
    match (a, b) {
        (Ok(x), Ok(y)) => kinds(x) == kinds(y),
        (Err(_), Err(_)) => true,
        _ => false,
    }
}

/// Whether a text is a line without tokens: spaces, then nothing or a comment, then the line
/// feed that ends it.
pub open spec fn blank_line(c: Seq<char>) -> bool {
    &&& c.len() > 0
    &&& c.last() == '\n'
    &&& forall|i: int| 0 <= i < c.len() - 1 ==> #[trigger] c[i] != '\n'
    &&& at(c, spaces_end(c, 0), '\n') || at(c, spaces_end(c, 0), '#')
}

/// Whether scanning comes to index `n` at the start of a line.
pub open spec fn line_starts(chars: Seq<char>, s: ScanState, n: nat) -> bool
    decreases rank(chars, s),
{
    if s.at >= n {
        s.at == n && s.line_start && !s.ended
    } else {
        match scan(chars, s) {
            Scan::Skip(t) => rank(chars, t) < rank(chars, s) && line_starts(chars, t, n),
            Scan::Emit(t, _) => rank(chars, t) < rank(chars, s) && line_starts(chars, t, n),
            _ => false,
        }
    }
}

// What is recognised from an index on depends on the rest of the text alone.

proof fn line_end_rest(chars: Seq<char>, k: nat, i: nat)
    requires
        k <= i,
        k <= chars.len(),
    ensures
        line_end(chars, i) == line_end(chars.skip(k as int), (i - k) as nat) + k,
    decreases chars.len() - i,
{
    if i < chars.len() && chars[i as int] != '\n' {
        line_end_rest(chars, k, i + 1);
    }
}

proof fn spaces_end_rest(chars: Seq<char>, k: nat, i: nat)
    requires
        k <= i,
        k <= chars.len(),
    ensures
        spaces_end(chars, i) == spaces_end(chars.skip(k as int), (i - k) as nat) + k,
    decreases chars.len() - i,
{
    if at(chars, i, ' ') {
        spaces_end_rest(chars, k, i + 1);
    }
}

proof fn digits_end_rest(chars: Seq<char>, k: nat, i: nat)
    requires
        k <= i,
        k <= chars.len(),
    ensures
        digits_end(chars, i) == digits_end(chars.skip(k as int), (i - k) as nat) + k,
    decreases chars.len() - i,
{
    if digit_at(chars, i, 10) {
        digits_end_rest(chars, k, i + 1);
    }
}

proof fn begun_run_end_rest(chars: Seq<char>, k: nat, i: nat, radix: nat)
    requires
        k <= i,
        k <= chars.len(),
    ensures
        begun_run_end(chars, i, radix) == begun_run_end(chars.skip(k as int), (i - k) as nat, radix)
            + k,
    decreases chars.len() - i,
{
    let rest = chars.skip(k as int);
    assert(digit_at(chars, i, radix) == digit_at(rest, (i - k) as nat, radix));
    assert(digit_at(chars, i + 1, radix) == digit_at(rest, (i + 1 - k) as nat, radix));
    if digit_at(chars, i, radix) || (at(chars, i, '_') && digit_at(chars, i + 1, radix)) {
        begun_run_end_rest(chars, k, i + 1, radix);
    }
}

proof fn digit_run_end_rest(chars: Seq<char>, k: nat, i: nat, radix: nat)
    requires
        k <= i,
        k <= chars.len(),
    ensures
        digit_run_end(chars, i, radix) == digit_run_end(chars.skip(k as int), (i - k) as nat, radix)
            + k,
{
    begun_run_end_rest(chars, k, i + 1, radix);
}

proof fn word_end_rest(chars: Seq<char>, k: nat, i: nat)
    requires
        k <= i,
        k <= chars.len(),
    ensures
        word_end(chars, i) == word_end(chars.skip(k as int), (i - k) as nat) + k,
    decreases chars.len() - i,
{
    if i < chars.len() && is_word_char(chars[i as int]) {
        word_end_rest(chars, k, i + 1);
    }
}

proof fn exponent_end_rest(chars: Seq<char>, k: nat, i: nat)
    requires
        k <= i,
        k <= chars.len(),
    ensures
        exponent_end(chars, i) == (match exponent_end(chars.skip(k as int), (i - k) as nat) {
            Some(end) => Some(end + k),
            None => None,
        }),
{
    let rest = chars.skip(k as int);
    let digits = if at(chars, i + 1, '+') || at(chars, i + 1, '-') {
        i + 2
    } else {
        i + 1
    };
    assert(at(chars, i + 1, '+') == at(rest, (i - k + 1) as nat, '+'));
    assert(at(chars, i + 1, '-') == at(rest, (i - k + 1) as nat, '-'));
    digits_end_rest(chars, k, digits);
}

proof fn stripped_rest(chars: Seq<char>, k: nat, from: nat, to: nat)
    requires
        k <= from,
        to <= chars.len(),
        k <= to,
    ensures
        stripped(chars, from, to) == stripped(
            chars.skip(k as int),
            (from - k) as nat,
            (to - k) as nat,
        ),
    decreases to,
{
    if to > from {
        stripped_rest(chars, k, from, (to - 1) as nat);
    }
}

proof fn code_digits_rest(chars: Seq<char>, k: nat, i: nat, n: nat, radix: nat, code: nat)
    requires
        k <= i,
        k <= chars.len(),
    ensures
        match (
            code_digits(chars, i, n, radix, code),
            code_digits(chars.skip(k as int), (i - k) as nat, n, radix, code),
        ) {
            (Ok(x), Ok(y)) => x.0 == y.0 + k && x.1 == y.1,
            (Err(_), Err(_)) => true,
            _ => false,
        },
    decreases n,
{
    if n > 0 && i < chars.len() {
        if let Some(d) = digit_value(chars[i as int], radix) {
            code_digits_rest(chars, k, i + 1, (n - 1) as nat, radix, code * radix + d);
        }
    }
}

proof fn escape_rest(chars: Seq<char>, k: nat, i: nat)
    requires
        k <= i,
        k <= chars.len(),
    ensures
        match (escape(chars, i), escape(chars.skip(k as int), (i - k) as nat)) {
            (Ok(x), Ok(y)) => x.0 == y.0 + k && x.1 == y.1,
            (Err(_), Err(_)) => true,
            _ => false,
        },
{
    code_digits_rest(chars, k, i + 1, 2, 16, 0);
    code_digits_rest(chars, k, i + 1, 4, 16, 0);
    code_digits_rest(chars, k, i + 1, 8, 16, 0);
    code_digits_rest(chars, k, i, 3, 8, 0);
}

proof fn quoted_rest(chars: Seq<char>, k: nat, i: nat, quote: char, triple: bool)
    requires
        k <= i,
        k <= chars.len(),
    ensures
        quoted(chars, i, quote, triple) == quoted(
            chars.skip(k as int),
            (i - k) as nat,
            quote,
            triple,
        ),
{
    let rest = chars.skip(k as int);
    assert(at(chars, i + 1, quote) == at(rest, (i - k + 1) as nat, quote));
    assert(at(chars, i + 2, quote) == at(rest, (i - k + 2) as nat, quote));
}

proof fn string_body_rest(
    chars: Seq<char>,
    k: nat,
    i: nat,
    quote: char,
    triple: bool,
    text: Seq<char>,
)
    requires
        k <= i,
        k <= chars.len(),
    ensures
        match (
            string_body(chars, i, quote, triple, text),
            string_body(chars.skip(k as int), (i - k) as nat, quote, triple, text),
        ) {
            (Ok(x), Ok(y)) => x.0 == y.0 + k && x.1 == y.1,
            (Err(_), Err(_)) => true,
            _ => false,
        },
    decreases chars.len() - i,
{
    quoted_rest(chars, k, i, quote, triple);
    if quoted(chars, i, quote, triple) || i >= chars.len() {
    } else if chars[i as int] == '\n' && !triple {
    } else if chars[i as int] == '\\' {
        escape_rest(chars, k, i + 1);
        if let Ok((j, c)) = escape(chars, i + 1) {
            if i < j <= chars.len() {
                string_body_rest(chars, k, j, quote, triple, text.push(c));
            }
        }
    } else {
        string_body_rest(chars, k, i + 1, quote, triple, text.push(chars[i as int]));
    }
}

proof fn interpolation_end_rest(chars: Seq<char>, k: nat, i: nat, depth: nat)
    requires
        k <= i,
        k <= chars.len(),
    ensures
        interpolation_end(chars, i, depth) == (match interpolation_end(
            chars.skip(k as int),
            (i - k) as nat,
            depth,
        ) {
            Some(end) => Some(end + k),
            None => None,
        }),
    decreases chars.len() - i,
{
    if i < chars.len() {
        if chars[i as int] == '{' {
            interpolation_end_rest(chars, k, i + 1, depth + 1);
        } else if chars[i as int] == '}' {
            if depth > 1 {
                interpolation_end_rest(chars, k, i + 1, (depth - 1) as nat);
            }
        } else {
            interpolation_end_rest(chars, k, i + 1, depth);
        }
    }
}

proof fn template_body_rest(
    chars: Seq<char>,
    k: nat,
    i: nat,
    quote: char,
    triple: bool,
    raw: bool,
    chunks: Seq<ChunkView>,
    text: Seq<char>,
)
    requires
        k <= i,
        k <= chars.len(),
    ensures
        match (
            template_body(chars, i, quote, triple, raw, chunks, text),
            template_body(chars.skip(k as int), (i - k) as nat, quote, triple, raw, chunks, text),
        ) {
            (Ok(x), Ok(y)) => x.0 == y.0 + k && x.1 == y.1,
            (Err(_), Err(_)) => true,
            _ => false,
        },
    decreases chars.len() - i,
{
    let rest = chars.skip(k as int);
    quoted_rest(chars, k, i, quote, triple);
    assert(at(chars, i + 1, '{') == at(rest, (i - k + 1) as nat, '{'));
    assert(at(chars, i + 1, '}') == at(rest, (i - k + 1) as nat, '}'));
    if quoted(chars, i, quote, triple) || i >= chars.len() {
    } else if chars[i as int] == '{' && at(chars, i + 1, '{') {
        template_body_rest(chars, k, i + 2, quote, triple, raw, chunks, text.push('{'));
    } else if chars[i as int] == '{' {
        interpolation_end_rest(chars, k, i + 1, 1);
        if let Some(e) = interpolation_end(chars, i + 1, 1) {
            if i < e < chars.len() {
                let piece = chars.subrange(i as int + 1, e as int);
                assert(piece =~= rest.subrange(i - k + 1, e - k));
                template_body_rest(
                    chars,
                    k,
                    e + 1,
                    quote,
                    triple,
                    raw,
                    flushed(chunks, text).push(ChunkView::Interp(piece)),
                    Seq::empty(),
                );
            }
        }
    } else if chars[i as int] == '}' && at(chars, i + 1, '}') {
        template_body_rest(chars, k, i + 2, quote, triple, raw, chunks, text.push('}'));
    } else if chars[i as int] == '\n' && !triple {
    } else if chars[i as int] == '\\' && !raw {
        escape_rest(chars, k, i + 1);
        if let Ok((j, c)) = escape(chars, i + 1) {
            if i < j <= chars.len() {
                template_body_rest(chars, k, j, quote, triple, raw, chunks, text.push(c));
            }
        }
    } else {
        template_body_rest(
            chars,
            k,
            i + 1,
            quote,
            triple,
            raw,
            chunks,
            text.push(chars[i as int]),
        );
    }
}

proof fn symbol_rest(chars: Seq<char>, k: nat, i: nat)
    requires
        k <= i < chars.len(),
    ensures
        symbol(chars, i) == symbol(chars.skip(k as int), (i - k) as nat),
{
    let rest = chars.skip(k as int);
    let j = (i - k) as nat;
    assert forall|c: char| #[trigger] at(chars, i + 1, c) == at(rest, j + 1, c) by {}
    assert forall|c: char| #[trigger] at(chars, i + 2, c) == at(rest, j + 2, c) by {}
}

proof fn number_rest(chars: Seq<char>, k: nat, i: nat)
    requires
        k <= i,
        digit_at(chars, i, 10),
    ensures
        number(chars, i).0 == number(chars.skip(k as int), (i - k) as nat).0 + k,
        number(chars, i).1 == number(chars.skip(k as int), (i - k) as nat).1,
{
    let rest = chars.skip(k as int);
    let j = (i - k) as nat;
    number_bounds(chars, i);
    assert forall|c: char| #[trigger] at(chars, i + 1, c) == at(rest, j + 1, c) by {}
    assert(radix_prefix(chars, i) == radix_prefix(rest, j));
    match radix_prefix(chars, i) {
        Some(radix) => {
            digit_run_end_rest(chars, k, i + 2, radix);
            let end = digit_run_end(chars, i + 2, radix);
            stripped_rest(chars, k, i + 2, end);
        },
        None => {
            digit_run_end_rest(chars, k, i, 10);
            let whole = digit_run_end(chars, i, 10);
            digit_run_end_bounds(chars, i, 10);
            assert(at(chars, whole, '.') == at(rest, (whole - k) as nat, '.'));
            assert(digit_at(chars, whole + 1, 10) == digit_at(rest, (whole - k + 1) as nat, 10));
            digit_run_end_rest(chars, k, whole + 1, 10);
            let dotted = at(chars, whole, '.') && digit_at(chars, whole + 1, 10);
            let fraction = if dotted {
                digit_run_end(chars, whole + 1, 10)
            } else {
                whole
            };
            if dotted {
                digit_run_end_bounds(chars, whole + 1, 10);
            }
            exponent_end_rest(chars, k, fraction);
            exponent_end_bounds(chars, fraction);
            stripped_rest(chars, k, i, fraction);
            if let Some(end) = exponent_end(chars, fraction) {
                stripped_rest(chars, k, i, end);
            }
        },
    }
}

/// Whether a state stands in a text where another stands in the rest of it from `k` on.
spec fn moved(s: ScanState, u: ScanState, k: nat) -> bool {
    &&& s.at == u.at + k
    &&& s.indents == u.indents
    &&& s.depth == u.depth
    &&& s.line_start == u.line_start
    &&& s.ended == u.ended
}

/// Whether two scans do the same, one in a text and one in the rest of it from `k` on.
spec fn same_scan(a: Scan, b: Scan, k: nat) -> bool {
    match (a, b) {
        (Scan::Skip(s), Scan::Skip(u)) => moved(s, u, k),
        (Scan::Emit(s, x), Scan::Emit(u, y)) => moved(s, u, k) && kinds(x) =~= kinds(y),
        (Scan::Fail(_, _, _), Scan::Fail(_, _, _)) => true,
        (Scan::Done, Scan::Done) => true,
        _ => false,
    }
}

proof fn scan_word_rest(
    chars: Seq<char>,
    k: nat,
    s: ScanState,
    u: ScanState,
    start: nat,
    begin: nat,
)
    requires
        k <= chars.len(),
        moved(s, u, k),
        s.at < chars.len(),
        is_word_start(chars[s.at as int]),
    ensures
        same_scan(scan_word(chars, s, start), scan_word(chars.skip(k as int), u, begin), k),
{
    let rest = chars.skip(k as int);
    let end = word_end(chars, s.at);
    word_end_rest(chars, k, s.at);
    word_end_bounds(chars, s.at);
    let word = chars.subrange(s.at as int, end as int);
    assert(word =~= rest.subrange(u.at as int, end - k));
    assert forall|c: char| #[trigger] at(chars, end, c) == at(rest, (end - k) as nat, c) by {}
    if at(chars, end, '"') || at(chars, end, '\'') {
        let quote = chars[end as int];
        quoted_rest(chars, k, end, quote, true);
        let triple = quoted(chars, end, quote, true);
        let from = end + quote_width(triple);
        template_body_rest(chars, k, from, quote, triple, false, Seq::empty(), Seq::empty());
        template_body_rest(chars, k, from, quote, triple, true, Seq::empty(), Seq::empty());
    }
}

proof fn scan_token_rest(
    chars: Seq<char>,
    k: nat,
    s: ScanState,
    u: ScanState,
    start: nat,
    begin: nat,
)
    requires
        k <= chars.len(),
        moved(s, u, k),
    ensures
        same_scan(scan_token(chars, s, start), scan_token(chars.skip(k as int), u, begin), k),
{
    let rest = chars.skip(k as int);
    if s.at < chars.len() {
        let c = chars[s.at as int];
        line_end_rest(chars, k, s.at);
        symbol_rest(chars, k, s.at);
        assert forall|d: char| #[trigger] at(chars, s.at + 1, d) == at(rest, u.at + 1, d) by {}
        assert forall|d: char| #[trigger] at(chars, s.at + 2, d) == at(rest, u.at + 2, d) by {}
        if c == '"' || c == '\'' {
            quoted_rest(chars, k, s.at, c, true);
            let triple = quoted(chars, s.at, c, true);
            string_body_rest(chars, k, s.at + quote_width(triple), c, triple, Seq::empty());
        }
        if is_word_start(c) {
            scan_word_rest(chars, k, s, u, start, begin);
        }
        if '0' <= c && c <= '9' {
            number_rest(chars, k, s.at);
        }
    }
}

proof fn scan_rest(chars: Seq<char>, k: nat, s: ScanState, u: ScanState)
    requires
        k <= chars.len(),
        moved(s, u, k),
    ensures
        same_scan(scan(chars, s), scan(chars.skip(k as int), u), k),
{
    let rest = chars.skip(k as int);
    if s.ended || s.at >= chars.len() {
    } else if s.line_start {
        spaces_end_rest(chars, k, s.at);
        let text = spaces_end(chars, s.at);
        assert forall|d: char| #[trigger] at(chars, text, d) == at(rest, (text - k) as nat, d) by {}
        line_end_rest(chars, k, text);
        let t = ScanState { at: text, line_start: false, ..s };
        let v = ScanState { at: (text - k) as nat, line_start: false, ..u };
        scan_token_rest(chars, k, t, v, text, v.at);
    } else {
        scan_token_rest(chars, k, s, u, s.at, u.at);
    }
}

proof fn settle_rest(chars: Seq<char>, k: nat, s: ScanState, u: ScanState)
    requires
        k <= chars.len(),
        moved(s, u, k),
    ensures
        same_scan(settle(chars, s), settle(chars.skip(k as int), u), k),
    decreases chars.len() - s.at,
{
    scan_rest(chars, k, s, u);
    match (scan(chars, s), scan(chars.skip(k as int), u)) {
        (Scan::Skip(t), Scan::Skip(v)) => {
            if s.at < t.at <= chars.len() {
                settle_rest(chars, k, t, v);
            }
        },
        _ => {},
    }
}

proof fn kinds_concat(a: Seq<Spanned>, b: Seq<Spanned>)
    ensures
        kinds(a + b) == kinds(a) + kinds(b),
{
    assert(kinds(a + b) =~= kinds(a) + kinds(b));
}

/// What comes from a place on in a text depends on the rest of the text alone.
proof fn tokens_rest(chars: Seq<char>, k: nat, s: ScanState, u: ScanState)
    requires
        k <= chars.len(),
        moved(s, u, k),
    ensures
        same_tokens(tokens_from(chars, s), tokens_from(chars.skip(k as int), u)),
    decreases rank(chars, s),
{
    let rest = chars.skip(k as int);
    settle_rest(chars, k, s, u);
    match (settle(chars, s), settle(rest, u)) {
        (Scan::Emit(t, x), Scan::Emit(v, y)) => {
            assert(rank(chars, t) == rank(rest, v));
            assert(rank(chars, s) == rank(rest, u));
            if rank(chars, t) < rank(chars, s) {
                tokens_rest(chars, k, t, v);
                if let Ok(more) = tokens_from(chars, t) {
                    if let Ok(also) = tokens_from(rest, v) {
                        kinds_concat(x, more);
                        kinds_concat(y, also);
                    }
                }
            }
        },
        _ => {},
    }
}

// What is recognised before a line feed depends on the text up to it alone.

/// Whether two texts are the same up to index `n`, in front of which a line ends.
spec fn alike(a: Seq<char>, b: Seq<char>, n: nat) -> bool {
    &&& 0 < n <= a.len()
    &&& n <= b.len()
    &&& a[n - 1] == '\n'
    &&& forall|i: int| 0 <= i < n ==> #[trigger] a[i] == b[i]
}

proof fn offset_alike(a: Seq<char>, b: Seq<char>, n: nat, i: nat)
    requires
        alike(a, b, n),
        i <= n,
    ensures
        byte_offset(a, i) == byte_offset(b, i),
    decreases i,
{
    if i > 0 {
        offset_alike(a, b, n, (i - 1) as nat);
        assert(a[i - 1] == b[i - 1]);
    }
}

proof fn line_end_alike(a: Seq<char>, b: Seq<char>, n: nat, i: nat)
    requires
        alike(a, b, n),
        i < n,
    ensures
        line_end(a, i) == line_end(b, i),
        i <= line_end(a, i) < n,
    decreases n - i,
{
    assert(a[i as int] == b[i as int]);
    if a[i as int] != '\n' {
        line_end_alike(a, b, n, i + 1);
    }
}

proof fn spaces_end_alike(a: Seq<char>, b: Seq<char>, n: nat, i: nat)
    requires
        alike(a, b, n),
        i < n,
    ensures
        spaces_end(a, i) == spaces_end(b, i),
        i <= spaces_end(a, i) < n,
    decreases n - i,
{
    assert(a[i as int] == b[i as int]);
    if at(a, i, ' ') {
        spaces_end_alike(a, b, n, i + 1);
    }
}

proof fn digits_end_alike(a: Seq<char>, b: Seq<char>, n: nat, i: nat)
    requires
        alike(a, b, n),
        i < n,
    ensures
        digits_end(a, i) == digits_end(b, i),
        i <= digits_end(a, i) < n,
    decreases n - i,
{
    assert(a[i as int] == b[i as int]);
    if digit_at(a, i, 10) {
        digits_end_alike(a, b, n, i + 1);
    }
}

proof fn begun_run_end_alike(a: Seq<char>, b: Seq<char>, n: nat, i: nat, radix: nat)
    requires
        alike(a, b, n),
        i < n,
        radix <= 16,
    ensures
        begun_run_end(a, i, radix) == begun_run_end(b, i, radix),
        i <= begun_run_end(a, i, radix) < n,
    decreases n - i,
{
    assert(a[i as int] == b[i as int]);
    if i + 1 < n {
        assert(a[i as int + 1] == b[i as int + 1]);
        if digit_at(a, i, radix) || (at(a, i, '_') && digit_at(a, i + 1, radix)) {
            begun_run_end_alike(a, b, n, i + 1, radix);
        }
    }
}

proof fn digit_run_end_alike(a: Seq<char>, b: Seq<char>, n: nat, i: nat, radix: nat)
    requires
        alike(a, b, n),
        i < n,
        radix <= 16,
    ensures
        digit_run_end(a, i, radix) == digit_run_end(b, i, radix),
        i <= digit_run_end(a, i, radix) < n,
{
    assert(a[i as int] == b[i as int]);
    if digit_at(a, i, radix) {
        begun_run_end_alike(a, b, n, i + 1, radix);
    }
}

proof fn word_end_alike(a: Seq<char>, b: Seq<char>, n: nat, i: nat)
    requires
        alike(a, b, n),
        i < n,
    ensures
        word_end(a, i) == word_end(b, i),
        i <= word_end(a, i) < n,
    decreases n - i,
{
    assert(a[i as int] == b[i as int]);
    if is_word_char(a[i as int]) {
        word_end_alike(a, b, n, i + 1);
    }
}

proof fn exponent_end_alike(a: Seq<char>, b: Seq<char>, n: nat, i: nat)
    requires
        alike(a, b, n),
        i < n,
    ensures
        exponent_end(a, i) == exponent_end(b, i),
        exponent_end(a, i) matches Some(end) ==> end < n,
{
    assert(a[i as int] == b[i as int]);
    if at(a, i, 'e') || at(a, i, 'E') {
        assert(a[i as int + 1] == b[i as int + 1]);
        let digits = if at(a, i + 1, '+') || at(a, i + 1, '-') {
            i + 2
        } else {
            i + 1
        };
        assert(digits < n);
        assert(a[digits as int] == b[digits as int]);
        digits_end_alike(a, b, n, digits);
    }
}

proof fn stripped_alike(a: Seq<char>, b: Seq<char>, n: nat, from: nat, to: nat)
    requires
        alike(a, b, n),
        to <= n,
    ensures
        stripped(a, from, to) == stripped(b, from, to),
    decreases to,
{
    if to > from {
        assert(a[to - 1] == b[to - 1]);
        stripped_alike(a, b, n, from, (to - 1) as nat);
    }
}

proof fn code_digits_alike(
    a: Seq<char>,
    b: Seq<char>,
    n: nat,
    i: nat,
    m: nat,
    radix: nat,
    code: nat,
)
    requires
        alike(a, b, n),
        i < n,
        radix <= 16,
    ensures
        code_digits(a, i, m, radix, code) == code_digits(b, i, m, radix, code),
        code_digits(a, i, m, radix, code) matches Ok(x) ==> x.0 < n,
    decreases m,
{
    assert(a[i as int] == b[i as int]);
    if m > 0 {
        if let Some(d) = digit_value(a[i as int], radix) {
            code_digits_alike(a, b, n, i + 1, (m - 1) as nat, radix, code * radix + d);
        }
    }
}

proof fn escape_alike(a: Seq<char>, b: Seq<char>, n: nat, i: nat)
    requires
        alike(a, b, n),
        i < n,
    ensures
        escape(a, i) == escape(b, i),
        escape(a, i) matches Ok(x) ==> i < x.0 < n,
{
    assert(a[i as int] == b[i as int]);
    code_digits_alike(a, b, n, i, 3, 8, 0);
    code_digits_bounds(a, i, 3, 8, 0);
    if i + 1 < n {
        code_digits_alike(a, b, n, i + 1, 2, 16, 0);
        code_digits_alike(a, b, n, i + 1, 4, 16, 0);
        code_digits_alike(a, b, n, i + 1, 8, 16, 0);
        code_digits_bounds(a, i + 1, 2, 16, 0);
        code_digits_bounds(a, i + 1, 4, 16, 0);
        code_digits_bounds(a, i + 1, 8, 16, 0);
    }
}

proof fn quoted_alike(a: Seq<char>, b: Seq<char>, n: nat, i: nat, quote: char, triple: bool)
    requires
        alike(a, b, n),
        i < n,
        quote != '\n',
    ensures
        quoted(a, i, quote, triple) == quoted(b, i, quote, triple),
        quoted(a, i, quote, triple) ==> i + quote_width(triple) < n,
{
    assert(a[i as int] == b[i as int]);
    if i + 1 < n {
        assert(a[i as int + 1] == b[i as int + 1]);
        if i + 2 < n {
            assert(a[i as int + 2] == b[i as int + 2]);
        }
    }
}

proof fn string_body_alike(
    a: Seq<char>,
    b: Seq<char>,
    n: nat,
    i: nat,
    quote: char,
    triple: bool,
    text: Seq<char>,
)
    requires
        alike(a, b, n),
        i <= n,
        quote != '\n',
        string_body(a, i, quote, triple, text) is Ok,
        string_body(a, i, quote, triple, text)->Ok_0.0 <= n,
    ensures
        string_body(b, i, quote, triple, text) == string_body(a, i, quote, triple, text),
    decreases n - i,
{
    string_body_bounds(a, i, quote, triple, text);
    quoted_alike(a, b, n, i, quote, triple);
    assert(a[i as int] == b[i as int]);
    if quoted(a, i, quote, triple) {
    } else if a[i as int] == '\\' {
        escape_alike(a, b, n, i + 1);
        if let Ok((j, c)) = escape(a, i + 1) {
            string_body_alike(a, b, n, j, quote, triple, text.push(c));
        }
    } else {
        string_body_alike(a, b, n, i + 1, quote, triple, text.push(a[i as int]));
    }
}

proof fn interpolation_end_alike(a: Seq<char>, b: Seq<char>, n: nat, i: nat, depth: nat)
    requires
        alike(a, b, n),
        i <= n,
        interpolation_end(a, i, depth) is Some,
        interpolation_end(a, i, depth)->0 < n,
    ensures
        interpolation_end(b, i, depth) == interpolation_end(a, i, depth),
    decreases n - i,
{
    interpolation_end_bounds(a, i, depth);
    assert(a[i as int] == b[i as int]);
    if a[i as int] == '{' {
        interpolation_end_alike(a, b, n, i + 1, depth + 1);
    } else if a[i as int] == '}' {
        if depth > 1 {
            interpolation_end_alike(a, b, n, i + 1, (depth - 1) as nat);
        }
    } else {
        interpolation_end_alike(a, b, n, i + 1, depth);
    }
}

proof fn template_body_alike(
    a: Seq<char>,
    b: Seq<char>,
    n: nat,
    i: nat,
    quote: char,
    triple: bool,
    raw: bool,
    chunks: Seq<ChunkView>,
    text: Seq<char>,
)
    requires
        alike(a, b, n),
        i <= n,
        quote != '\n',
        template_body(a, i, quote, triple, raw, chunks, text) is Ok,
        template_body(a, i, quote, triple, raw, chunks, text)->Ok_0.0 <= n,
    ensures
        template_body(b, i, quote, triple, raw, chunks, text) == template_body(
            a,
            i,
            quote,
            triple,
            raw,
            chunks,
            text,
        ),
    decreases n - i,
{
    template_body_bounds(a, i, quote, triple, raw, chunks, text);
    quoted_alike(a, b, n, i, quote, triple);
    assert(a[i as int] == b[i as int]);
    if i + 1 < n {
        assert(a[i as int + 1] == b[i as int + 1]);
    }
    if quoted(a, i, quote, triple) {
    } else if a[i as int] == '{' && at(a, i + 1, '{') {
        template_body_alike(a, b, n, i + 2, quote, triple, raw, chunks, text.push('{'));
    } else if a[i as int] == '{' {
        interpolation_end_bounds(a, i + 1, 1);
        if let Some(e) = interpolation_end(a, i + 1, 1) {
            let piece = a.subrange(i as int + 1, e as int);
            let more = flushed(chunks, text).push(ChunkView::Interp(piece));
            template_body_bounds(a, e + 1, quote, triple, raw, more, Seq::empty());
            interpolation_end_alike(a, b, n, i + 1, 1);
            assert(piece =~= b.subrange(i as int + 1, e as int));
            template_body_alike(a, b, n, e + 1, quote, triple, raw, more, Seq::empty());
        }
    } else if a[i as int] == '}' && at(a, i + 1, '}') {
        template_body_alike(a, b, n, i + 2, quote, triple, raw, chunks, text.push('}'));
    } else if a[i as int] == '\\' && !raw {
        escape_alike(a, b, n, i + 1);
        if let Ok((j, c)) = escape(a, i + 1) {
            template_body_alike(a, b, n, j, quote, triple, raw, chunks, text.push(c));
        }
    } else {
        template_body_alike(a, b, n, i + 1, quote, triple, raw, chunks, text.push(a[i as int]));
    }
}

proof fn symbol_alike(a: Seq<char>, b: Seq<char>, n: nat, i: nat)
    requires
        alike(a, b, n),
        i < n,
    ensures
        symbol(a, i) == symbol(b, i),
{
    assert(a[i as int] == b[i as int]);
    if i + 1 < n {
        assert(a[i as int + 1] == b[i as int + 1]);
        if i + 2 < n {
            assert(a[i as int + 2] == b[i as int + 2]);
        }
    }
}

proof fn number_alike(a: Seq<char>, b: Seq<char>, n: nat, i: nat)
    requires
        alike(a, b, n),
        i < n,
        digit_at(a, i, 10),
    ensures
        number(a, i) == number(b, i),
{
    assert(a[i as int] == b[i as int]);
    assert(i + 1 < n);
    assert(a[i as int + 1] == b[i as int + 1]);
    assert(radix_prefix(a, i) == radix_prefix(b, i));
    match radix_prefix(a, i) {
        Some(radix) => {
            digit_run_end_alike(a, b, n, i + 2, radix);
            stripped_alike(a, b, n, i + 2, digit_run_end(a, i + 2, radix));
        },
        None => {
            digit_run_end_alike(a, b, n, i, 10);
            let whole = digit_run_end(a, i, 10);
            assert(a[whole as int] == b[whole as int]);
            if at(a, whole, '.') {
                assert(a[whole as int + 1] == b[whole as int + 1]);
                digit_run_end_alike(a, b, n, whole + 1, 10);
            }
            let dotted = at(a, whole, '.') && digit_at(a, whole + 1, 10);
            let fraction = if dotted {
                digit_run_end(a, whole + 1, 10)
            } else {
                whole
            };
            exponent_end_alike(a, b, n, fraction);
            stripped_alike(a, b, n, i, fraction);
            if let Some(end) = exponent_end(a, fraction) {
                stripped_alike(a, b, n, i, end);
            }
        },
    }
}

/// Where a scan leaves off, if it goes on.
spec fn goes_on_by(r: Scan, n: nat) -> bool {
    match r {
        Scan::Skip(t) => t.at <= n,
        Scan::Emit(t, _) => t.at <= n,
        _ => false,
    }
}

proof fn scan_word_alike(a: Seq<char>, b: Seq<char>, n: nat, s: ScanState, start: nat)
    requires
        alike(a, b, n),
        start <= s.at < n,
        is_word_start(a[s.at as int]),
        goes_on_by(scan_word(a, s, start), n),
    ensures
        scan_word(b, s, start) == scan_word(a, s, start),
{
    let end = word_end(a, s.at);
    word_end_alike(a, b, n, s.at);
    let word = a.subrange(s.at as int, end as int);
    assert(word =~= b.subrange(s.at as int, end as int));
    assert(a[end as int] == b[end as int]);
    offset_alike(a, b, n, start);
    offset_alike(a, b, n, end);
    if at(a, end, '"') || at(a, end, '\'') {
        let quote = a[end as int];
        quoted_alike(a, b, n, end, quote, true);
        quoted_alike(a, b, n, end, quote, false);
        let triple = quoted(a, end, quote, true);
        let from = end + quote_width(triple);
        if word == "t"@ {
            if let Ok(x) = template_body(a, from, quote, triple, false, Seq::empty(), Seq::empty()) {
                template_body_alike(
                    a,
                    b,
                    n,
                    from,
                    quote,
                    triple,
                    false,
                    Seq::empty(),
                    Seq::empty(),
                );
                offset_alike(a, b, n, x.0);
            }
        } else if word == "rt"@ {
            if let Ok(x) = template_body(a, from, quote, triple, true, Seq::empty(), Seq::empty()) {
                template_body_alike(
                    a,
                    b,
                    n,
                    from,
                    quote,
                    triple,
                    true,
                    Seq::empty(),
                    Seq::empty(),
                );
                offset_alike(a, b, n, x.0);
            }
        }
    }
}

proof fn scan_token_alike(a: Seq<char>, b: Seq<char>, n: nat, s: ScanState, start: nat)
    requires
        alike(a, b, n),
        start <= s.at < n,
        goes_on_by(scan_token(a, s, start), n),
    ensures
        scan_token(b, s, start) == scan_token(a, s, start),
{
    let c = a[s.at as int];
    assert(c == b[s.at as int]);
    if s.at + 1 < n {
        assert(a[s.at as int + 1] == b[s.at as int + 1]);
        if s.at + 2 < n {
            assert(a[s.at as int + 2] == b[s.at as int + 2]);
        }
    }
    line_end_alike(a, b, n, s.at);
    symbol_alike(a, b, n, s.at);
    offset_alike(a, b, n, start);
    offset_alike(a, b, n, s.at);
    offset_alike(a, b, n, s.at + 1);
    if let Some((width, _)) = symbol(a, s.at) {
        if s.at + width <= n {
            offset_alike(a, b, n, s.at + width);
        }
    }
    if c == '"' || c == '\'' {
        quoted_alike(a, b, n, s.at, c, true);
        quoted_alike(a, b, n, s.at, c, false);
        let triple = quoted(a, s.at, c, true);
        if let Ok(x) = string_body(a, s.at + quote_width(triple), c, triple, Seq::empty()) {
            if symbol(a, s.at) is None {
                string_body_alike(
                    a,
                    b,
                    n,
                    s.at + quote_width(triple),
                    c,
                    triple,
                    Seq::empty(),
                );
                offset_alike(a, b, n, x.0);
            }
        }
    }
    if is_word_start(c) {
        scan_word_alike(a, b, n, s, start);
    }
    if '0' <= c && c <= '9' {
        number_alike(a, b, n, s.at);
        if number(a, s.at).0 <= n {
            offset_alike(a, b, n, number(a, s.at).0);
        }
    }
}

proof fn scan_alike(a: Seq<char>, b: Seq<char>, n: nat, s: ScanState)
    requires
        alike(a, b, n),
        s.at < n,
        goes_on_by(scan(a, s), n),
    ensures
        scan(b, s) == scan(a, s),
{
    if s.line_start {
        spaces_end_alike(a, b, n, s.at);
        let text = spaces_end(a, s.at);
        assert(a[text as int] == b[text as int]);
        line_end_alike(a, b, n, text);
        offset_alike(a, b, n, s.at);
        offset_alike(a, b, n, text);
        let t = ScanState { at: text, line_start: false, ..s };
        if !blank_from(a, text) && (s.depth > 0 || (text - s.at) as nat == s.indents.last()) {
            scan_token_alike(a, b, n, t, text);
        }
    } else {
        scan_token_alike(a, b, n, s, s.at);
    }
}

// A blank line is passed over.

proof fn spaces_end_in_front(c: Seq<char>, q: Seq<char>, i: nat)
    requires
        c.len() > 0,
        c.last() == '\n',
        i < c.len(),
    ensures
        spaces_end(c + q, i) == spaces_end(c, i),
        spaces_end(c, i) < c.len(),
    decreases c.len() - i,
{
    assert((c + q)[i as int] == c[i as int]);
    if at(c, i, ' ') {
        spaces_end_in_front(c, q, i + 1);
    }
}

proof fn line_end_in_front(c: Seq<char>, q: Seq<char>, i: nat)
    requires
        blank_line(c),
        i < c.len(),
    ensures
        line_end(c + q, i) == c.len() - 1,
    decreases c.len() - i,
{
    assert((c + q)[i as int] == c[i as int]);
    if i < c.len() - 1 {
        line_end_in_front(c, q, i + 1);
    }
}

proof fn blank_is_skipped(p: Seq<char>, c: Seq<char>, q: Seq<char>, s: ScanState)
    requires
        blank_line(c),
        s.at == p.len(),
        s.line_start,
        !s.ended,
    ensures
        scan(p + c + q, s) == Scan::Skip(ScanState { at: p.len() + c.len(), ..s }),
{
    let chars = p + c + q;
    let n = p.len();
    assert(chars.skip(n as int) =~= c + q);
    spaces_end_rest(chars, n, n);
    spaces_end_in_front(c, q, 0);
    let text = spaces_end(chars, n);
    assert(chars[text as int] == c[text - n]);
    line_end_rest(chars, n, text);
    line_end_in_front(c, q, (text - n) as nat);
}

proof fn skipped_goes_on(chars: Seq<char>, s: ScanState, t: ScanState)
    requires
        valid(chars, s),
        scan(chars, s) == Scan::Skip(t),
    ensures
        tokens_from(chars, s) == tokens_from(chars, t),
{
    scan_keeps(chars, s);
    settle_keeps(chars, s);
    settle_keeps(chars, t);
    assert(settle(chars, s) == settle(chars, t));
}

/// The tokens of a scan and those that follow.
spec fn followed(
    tokens: Seq<Spanned>,
    rest: Result<Seq<Spanned>, LexError>,
) -> Result<Seq<Spanned>, LexError> {
    match rest {
        Ok(rest) => Ok(tokens + rest),
        Err(e) => Err(e),
    }
}

proof fn emitted_goes_on(chars: Seq<char>, s: ScanState, t: ScanState, tokens: Seq<Spanned>)
    requires
        valid(chars, s),
        scan(chars, s) == Scan::Emit(t, tokens),
    ensures
        tokens_from(chars, s) == followed(tokens, tokens_from(chars, t)),
        valid(chars, t),
{
    scan_keeps(chars, s);
    assert(settle(chars, s) == scan(chars, s));
}

proof fn followed_alike(
    tokens: Seq<Spanned>,
    a: Result<Seq<Spanned>, LexError>,
    b: Result<Seq<Spanned>, LexError>,
)
    requires
        same_tokens(a, b),
    ensures
        same_tokens(followed(tokens, a), followed(tokens, b)),
{
    match (a, b) {
        (Ok(x), Ok(y)) => {
            kinds_concat(tokens, x);
            kinds_concat(tokens, y);
        },
        _ => {},
    }
}

proof fn blank_line_here(p: Seq<char>, c: Seq<char>, q: Seq<char>, s: ScanState)
    requires
        blank_line(c),
        valid(p + q, s),
        s.at == p.len(),
        s.line_start,
        !s.ended,
    ensures
        same_tokens(tokens_from(p + q, s), tokens_from(p + c + q, s)),
{
    let a = p + q;
    let b = p + c + q;
    let n = p.len();
    let t = ScanState { at: n + c.len(), ..s };
    let u = ScanState { at: 0, ..s };
    blank_is_skipped(p, c, q, s);
    skipped_goes_on(b, s, t);
    assert(a.skip(n as int) =~= q);
    assert(b.skip((n + c.len()) as int) =~= q);
    tokens_rest(a, n, s, u);
    tokens_rest(b, n + c.len(), t, u);
}

/// How a scan goes on before a line feed, in two texts that are the same up to it.
proof fn goes_on_alike(a: Seq<char>, b: Seq<char>, n: nat, s: ScanState)
    requires
        alike(a, b, n),
        valid(a, s),
        s.at < n,
        goes_on_by(scan(a, s), n),
    ensures
        scan(b, s) == scan(a, s),
        match scan(a, s) {
            Scan::Skip(t) => {
                &&& valid(a, t)
                &&& rank(a, t) < rank(a, s)
                &&& tokens_from(a, s) == tokens_from(a, t)
                &&& tokens_from(b, s) == tokens_from(b, t)
            },
            Scan::Emit(t, tokens) => {
                &&& valid(a, t)
                &&& rank(a, t) < rank(a, s)
                &&& tokens_from(a, s) == followed(tokens, tokens_from(a, t))
                &&& tokens_from(b, s) == followed(tokens, tokens_from(b, t))
            },
            _ => true,
        },
{
    scan_alike(a, b, n, s);
    scan_keeps(a, s);
    match scan(a, s) {
        Scan::Skip(t) => {
            skipped_goes_on(a, s, t);
            skipped_goes_on(b, s, t);
        },
        Scan::Emit(t, tokens) => {
            emitted_goes_on(a, s, t, tokens);
            emitted_goes_on(b, s, t, tokens);
        },
        _ => {},
    }
}

proof fn line_starts_before(a: Seq<char>, s: ScanState, n: nat)
    requires
        line_starts(a, s, n),
        s.at < n,
    ensures
        goes_on_by(scan(a, s), n),
        scan(a, s) matches Scan::Skip(t) ==> line_starts(a, t, n),
        scan(a, s) matches Scan::Emit(t, _) ==> line_starts(a, t, n),
{
    reveal_with_fuel(line_starts, 2);
}

proof fn blank_line_in_between(p: Seq<char>, c: Seq<char>, q: Seq<char>, s: ScanState)
    requires
        p.len() == 0 || p.last() == '\n',
        blank_line(c),
        valid(p + q, s),
        s.at <= p.len(),
        line_starts(p + q, s, p.len()),
    ensures
        same_tokens(tokens_from(p + q, s), tokens_from(p + c + q, s)),
    decreases rank(p + q, s),
{
    let a = p + q;
    let b = p + c + q;
    let n = p.len();
    if s.at == n {
        blank_line_here(p, c, q, s);
    } else {
        assert(a[n - 1] == p.last());
        assert(alike(a, b, n));
        line_starts_before(a, s, n);
        goes_on_alike(a, b, n, s);
        match scan(a, s) {
            Scan::Skip(t) => {
                blank_line_in_between(p, c, q, t);
            },
            Scan::Emit(t, tokens) => {
                blank_line_in_between(p, c, q, t);
                followed_alike(tokens, tokens_from(a, t), tokens_from(b, t));
            },
            _ => {},
        }
    }
}

/// A blank or comment-only line, however indented, changes no token: put in where a line
/// starts, it leaves the tokens of the text as they were.
pub proof fn blank_lines_change_nothing(p: Seq<char>, c: Seq<char>, q: Seq<char>)
    requires
        p.len() == 0 || p.last() == '\n',
        line_starts(p + q, initial(), p.len()),
        blank_line(c),
    ensures
        same_tokens(tokens_from(p + q, initial()), tokens_from(p + c + q, initial())),
{
    blank_line_in_between(p, c, q, initial());
}

} // verus!
