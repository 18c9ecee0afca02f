//! The lexer: source text to tokens with source spans.

use crate::error::LexError;
use crate::scan::{
    at, begun_run_end, code_digits, code_digits_bounds, coded_escape, digit_at, digit_run_end,
    digit_run_end_bounds, digit_value, digits_end, escape, escape_bounds, exponent_end, flushed,
    initial, int_of, interpolation_end, interpolation_end_bounds, is_word_char, is_word_start,
    line_end, number, numeral, off, outer_indents, outer_indents_prefix, plain, quote_width,
    quoted, radix_prefix, rank, repeated, scan, scan_line_start, scan_number, scan_string,
    scan_template, scan_token, scan_word, settle, settle_keeps, simple_escape, spaces_end,
    string_body, string_body_bounds, stripped, symbol, template_body, template_body_bounds,
    text_fault, tokens_from, valid, word_end, Scan, ScanState, Spanned, TextFault,
};
use crate::text::{
    text_of,
    byte_offset, byte_offset_is_encoding_length, byte_offset_monotone, chars_of, same_text, views,
    width,
};
use crate::token::{ChunkView, Span, TStringChunk, Token, TokenView};
use std::collections::VecDeque;
use vstd::prelude::*;

verus! {

fn char_at(chars: &Vec<char>, i: usize, c: char) -> (r: bool)
    ensures
        r == at(chars@, i as nat, c),
{
    i < chars.len() && chars[i] == c
}

/// Whether `c` stands `k` places after `i`.
fn char_after(chars: &Vec<char>, i: usize, k: usize, c: char) -> (r: bool)
    requires
        i <= chars.len(),
    ensures
        r == at(chars@, (i + k) as nat, c),
{
    k < chars.len() - i && chars[i + k] == c
}

fn digit(c: char, radix: u32) -> (r: Option<u32>)
    ensures
        match r {
            Some(d) => digit_value(c, radix as nat) == Some(d as nat),
            None => digit_value(c, radix as nat) is None,
        },
{
    let v: u32 = if '0' <= c && c <= '9' {
        c as u32 - '0' as u32
    } else if 'a' <= c && c <= 'z' {
        c as u32 - 'a' as u32 + 10
    } else if 'A' <= c && c <= 'Z' {
        c as u32 - 'A' as u32 + 10
    } else {
        99
    };
    if v < radix {
        Some(v)
    } else {
        None
    }
}

fn digit_stands(chars: &Vec<char>, i: usize, radix: u32) -> (r: bool)
    ensures
        r == digit_at(chars@, i as nat, radix as nat),
{
    i < chars.len() && digit(chars[i], radix).is_some()
}

fn word_start(c: char) -> (r: bool)
    ensures
        r == is_word_start(c),
{
    ('a' <= c && c <= 'z') || ('A' <= c && c <= 'Z') || c == '_'
}

fn find_line_end(chars: &Vec<char>, i: usize) -> (r: usize)
    requires
        i <= chars.len(),
    ensures
        r == line_end(chars@, i as nat),
        i <= r <= chars.len(),
{
    let mut j: usize = i;
    while j < chars.len() && chars[j] != '\n'
        invariant
            i <= j <= chars.len(),
            line_end(chars@, j as nat) == line_end(chars@, i as nat),
        decreases chars.len() - j,
    {
        j = j + 1;
    }
    j
}

fn find_spaces_end(chars: &Vec<char>, i: usize) -> (r: usize)
    requires
        i <= chars.len(),
    ensures
        r == spaces_end(chars@, i as nat),
        i <= r <= chars.len(),
{
    let mut j: usize = i;
    while j < chars.len() && chars[j] == ' '
        invariant
            i <= j <= chars.len(),
            spaces_end(chars@, j as nat) == spaces_end(chars@, i as nat),
        decreases chars.len() - j,
    {
        j = j + 1;
    }
    j
}

/// The end of a run of ASCII digits.
fn consume_digits(chars: &Vec<char>, i: usize) -> (r: usize)
    requires
        i <= chars.len(),
    ensures
        r == digits_end(chars@, i as nat),
        i <= r <= chars.len(),
{
    let mut j: usize = i;
    while digit_stands(chars, j, 10)
        invariant
            i <= j <= chars.len(),
            digits_end(chars@, j as nat) == digits_end(chars@, i as nat),
        decreases chars.len() - j,
    {
        j = j + 1;
    }
    j
}

/// The end of a run of digits with optional `_` separators.
fn consume_digit_run(chars: &Vec<char>, i: usize, radix: u32) -> (r: usize)
    requires
        i <= chars.len(),
    ensures
        r == digit_run_end(chars@, i as nat, radix as nat),
        i <= r <= chars.len(),
{
    if !digit_stands(chars, i, radix) {
        return i;
    }
    let mut j: usize = i + 1;
    while digit_stands(chars, j, radix) || (char_at(chars, j, '_') && digit_stands(
        chars,
        j + 1,
        radix,
    ))
        invariant
            i < j <= chars.len(),
            begun_run_end(chars@, j as nat, radix as nat) == begun_run_end(
                chars@,
                (i + 1) as nat,
                radix as nat,
            ),
        decreases chars.len() - j,
    {
        j = j + 1;
    }
    j
}

/// The end of a well-formed exponent at `i`, if one stands there.
fn consume_exponent(chars: &Vec<char>, i: usize) -> (r: Option<usize>)
    requires
        i <= chars.len(),
    ensures
        match r {
            Some(end) => exponent_end(chars@, i as nat) == Some(end as nat) && i <= end
                <= chars.len(),
            None => exponent_end(chars@, i as nat) is None,
        },
{
    if char_at(chars, i, 'e') || char_at(chars, i, 'E') {
        let digits: usize = if char_after(chars, i, 1, '+') || char_after(chars, i, 1, '-') {
            i + 2
        } else {
            i + 1
        };
        if digit_stands(chars, digits, 10) {
            Some(consume_digits(chars, digits))
        } else {
            None
        }
    } else {
        None
    }
}

fn find_word_end(chars: &Vec<char>, i: usize) -> (r: usize)
    requires
        i <= chars.len(),
    ensures
        r == word_end(chars@, i as nat),
        i <= r <= chars.len(),
{
    let mut j: usize = i;
    while j < chars.len() && (word_start(chars[j]) || ('0' <= chars[j] && chars[j] <= '9'))
        invariant
            i <= j <= chars.len(),
            word_end(chars@, j as nat) == word_end(chars@, i as nat),
        decreases chars.len() - j,
    {
        j = j + 1;
    }
    j
}

/// The characters from `from` to `to` without `_` separators.
fn strip_separators(chars: &Vec<char>, from: usize, to: usize) -> (r: Vec<char>)
    requires
        from <= to <= chars.len(),
    ensures
        r@ == stripped(chars@, from as nat, to as nat),
{
    let mut v: Vec<char> = Vec::new();
    let mut j: usize = from;
    while j < to
        invariant
            from <= j <= to <= chars.len(),
            v@ == stripped(chars@, from as nat, j as nat),
        decreases to - j,
    {
        if chars[j] != '_' {
            v.push(chars[j]);
        }
        j = j + 1;
    }
    v
}

fn parse_int(digits: &Vec<char>, radix: u32) -> (r: Option<i64>)
    requires
        2 <= radix <= 16,
    ensures
        r == int_of(digits@, radix as nat),
{
    let mut value: u64 = 0;
    let mut over: bool = false;
    for i in 0..digits.len()
        invariant
            2 <= radix <= 16,
            !over ==> value == numeral(digits@.take(i as int), radix as nat) && value <= i64::MAX,
            over ==> numeral(digits@.take(i as int), radix as nat) > i64::MAX,
    {
        let d: u32 = match digit(digits[i], radix) {
            Some(d) => d,
            None => 0,
        };
        proof {
            assert(digits@.take(i + 1).drop_last() =~= digits@.take(i as int));
            let before = numeral(digits@.take(i as int), radix as nat);
            assert(before * radix >= before) by (nonlinear_arith)
                requires
                    radix >= 2,
                    before >= 0,
            ;
        }
        if !over {
            assert(value * radix <= i64::MAX * 16) by (nonlinear_arith)
                requires
                    value <= i64::MAX,
                    radix <= 16,
            ;
            let wide: u128 = (value as u128) * (radix as u128) + (d as u128);
            if wide > 0x7FFF_FFFF_FFFF_FFFF {
                over = true;
            } else {
                value = wide as u64;
            }
        }
    }
    assert(digits@.take(digits@.len() as int) =~= digits@);
    if digits.len() > 0 && !over {
        Some(value as i64)
    } else {
        None
    }
}

fn simple(c: char) -> (r: Option<char>)
    ensures
        r == simple_escape(c),
{
    if c == '"' {
        Some('"')
    } else if c == '\'' {
        Some('\'')
    } else if c == '\\' {
        Some('\\')
    } else if c == 'n' {
        Some('\n')
    } else if c == 't' {
        Some('\t')
    } else if c == 'r' {
        Some('\r')
    } else if c == 'a' {
        Some('\u{07}')
    } else if c == 'b' {
        Some('\u{08}')
    } else if c == 'f' {
        Some('\u{0C}')
    } else if c == 'v' {
        Some('\u{0B}')
    } else {
        None
    }
}

/// Read exactly `n` digits of a numeric escape into a code point.
fn read_code_digits(chars: &Vec<char>, i: usize, n: usize, radix: u32) -> (r: Result<
    (usize, u32),
    (usize, TextFault),
>)
    requires
        i <= chars.len(),
        (radix == 16 && n <= 8) || (radix == 8 && n <= 3),
    ensures
        match r {
            Ok((end, code)) => code_digits(chars@, i as nat, n as nat, radix as nat, 0) == Ok::<
                (nat, nat),
                (nat, TextFault),
            >((end as nat, code as nat)) && end <= chars.len(),
            Err((end, fault)) => code_digits(chars@, i as nat, n as nat, radix as nat, 0) == Err::<
                (nat, nat),
                (nat, TextFault),
            >((end as nat, fault)) && end <= chars.len(),
        },
{
    let mut code: u64 = 0;
    let mut j: usize = i;
    let mut left: usize = n;
    let ghost mut bound: int = 1;
    while left > 0
        invariant
            i <= j <= chars.len(),
            left <= n,
            (radix == 16 && n <= 8) || (radix == 8 && n <= 3),
            code < bound,
            radix == 16 ==> (n - left == 0 ==> bound == 0x1) && (n - left == 1 ==> bound == 0x10)
                && (n - left == 2 ==> bound == 0x100) && (n - left == 3 ==> bound == 0x1000) && (n
                - left == 4 ==> bound == 0x10000) && (n - left == 5 ==> bound == 0x100000) && (n
                - left == 6 ==> bound == 0x1000000) && (n - left == 7 ==> bound == 0x10000000) && (n
                - left == 8 ==> bound == 0x100000000),
            radix == 8 ==> (n - left == 0 ==> bound == 1) && (n - left == 1 ==> bound == 8) && (n
                - left == 2 ==> bound == 64) && (n - left == 3 ==> bound == 512),
            code_digits(chars@, j as nat, left as nat, radix as nat, code as nat) == code_digits(
                chars@,
                i as nat,
                n as nat,
                radix as nat,
                0,
            ),
        decreases left,
    {
        if j >= chars.len() {
            return Err((j, TextFault::Open));
        }
        match digit(chars[j], radix) {
            Some(d) => {
                if radix == 16 {
                    code = code * 16 + d as u64;
                } else {
                    code = code * 8 + d as u64;
                }
                j = j + 1;
                left = left - 1;
                proof {
                    bound = bound * radix;
                }
            },
            None => {
                return Err((j, TextFault::Escape(chars[j])));
            },
        }
    }
    Ok((j, code as u32))
}

fn read_coded_escape(chars: &Vec<char>, i: usize, n: usize, radix: u32, letter: char) -> (r: Result<
    (usize, char),
    (usize, TextFault),
>)
    requires
        i <= chars.len(),
        (radix == 16 && n <= 8) || (radix == 8 && n <= 3),
    ensures
        match r {
            Ok((end, c)) => coded_escape(chars@, i as nat, n as nat, radix as nat, letter) == Ok::<
                (nat, char),
                (nat, TextFault),
            >((end as nat, c)) && end <= chars.len(),
            Err((end, fault)) => coded_escape(chars@, i as nat, n as nat, radix as nat, letter)
                == Err::<(nat, char), (nat, TextFault)>((end as nat, fault)) && end <= chars.len(),
        },
{
    match read_code_digits(chars, i, n, radix) {
        Ok((end, code)) => match char::from_u32(code) {
            Some(c) => Ok((end, c)),
            None => Err((end, TextFault::Escape(letter))),
        },
        Err(fault) => Err(fault),
    }
}

/// Decode the escape whose letter is at index `i`.
fn decode_escape(chars: &Vec<char>, i: usize) -> (r: Result<(usize, char), (usize, TextFault)>)
    requires
        i <= chars.len(),
    ensures
        match r {
            Ok((end, c)) => escape(chars@, i as nat) == Ok::<(nat, char), (nat, TextFault)>(
                (end as nat, c),
            ) && i < end <= chars.len(),
            Err((end, fault)) => escape(chars@, i as nat) == Err::<(nat, char), (nat, TextFault)>(
                (end as nat, fault),
            ) && end <= chars.len(),
        },
{
    proof {
        escape_bounds(chars@, i as nat);
    }
    if i >= chars.len() {
        return Err((i, TextFault::Open));
    }
    let c = chars[i];
    match simple(c) {
        Some(d) => Ok((i + 1, d)),
        None => if c == 'x' {
            read_coded_escape(chars, i + 1, 2, 16, c)
        } else if c == 'u' {
            read_coded_escape(chars, i + 1, 4, 16, c)
        } else if c == 'U' {
            read_coded_escape(chars, i + 1, 8, 16, c)
        } else if '0' <= c && c <= '3' {
            read_coded_escape(chars, i, 3, 8, c)
        } else {
            Err((i, TextFault::Escape(c)))
        },
    }
}

fn quote_stands(chars: &Vec<char>, i: usize, quote: char, triple: bool) -> (r: bool)
    requires
        i <= chars.len(),
    ensures
        r == quoted(chars@, i as nat, quote, triple),
{
    char_at(chars, i, quote) && (!triple || (char_after(chars, i, 1, quote) && char_after(
        chars,
        i,
        2,
        quote,
    )))
}

/// Lex the rest of a string literal after its opening delimiter.
fn lex_string(chars: &Vec<char>, i: usize, quote: char, triple: bool) -> (r: Result<
    (usize, String),
    (usize, TextFault),
>)
    requires
        i <= chars.len(),
    ensures
        match r {
            Ok((end, text)) => string_body(chars@, i as nat, quote, triple, Seq::empty()) == Ok::<
                (nat, Seq<char>),
                (nat, TextFault),
            >((end as nat, text@)) && end <= chars.len(),
            Err((end, fault)) => string_body(chars@, i as nat, quote, triple, Seq::empty())
                == Err::<(nat, Seq<char>), (nat, TextFault)>((end as nat, fault)) && end
                <= chars.len(),
        },
{
    let mut j: usize = i;
    let mut text = String::new();
    loop
        invariant
            i <= j <= chars.len(),
            string_body(chars@, j as nat, quote, triple, text@) == string_body(
                chars@,
                i as nat,
                quote,
                triple,
                Seq::empty(),
            ),
        decreases chars.len() - j,
    {
        if quote_stands(chars, j, quote, triple) {
            return Ok((if triple {
                j + 3
            } else {
                j + 1
            }, text));
        }
        if j >= chars.len() || (chars[j] == '\n' && !triple) {
            return Err((j, TextFault::Open));
        }
        if chars[j] == '\\' {
            match decode_escape(chars, j + 1) {
                Ok((end, c)) => {
                    text.push(c);
                    j = end;
                },
                Err(fault) => {
                    return Err(fault);
                },
            }
        } else {
            text.push(chars[j]);
            j = j + 1;
        }
    }
}

fn find_interpolation_end(chars: &Vec<char>, i: usize) -> (r: Option<usize>)
    requires
        1 <= i <= chars.len(),
    ensures
        match r {
            Some(end) => interpolation_end(chars@, i as nat, 1) == Some(end as nat) && i <= end
                < chars.len(),
            None => interpolation_end(chars@, i as nat, 1) is None,
        },
{
    let mut j: usize = i;
    let mut depth: usize = 1;
    while j < chars.len()
        invariant
            1 <= i <= j <= chars.len(),
            1 <= depth <= j - i + 1,
            interpolation_end(chars@, j as nat, depth as nat) == interpolation_end(
                chars@,
                i as nat,
                1,
            ),
        decreases chars.len() - j,
    {
        if chars[j] == '{' {
            depth = depth + 1;
        } else if chars[j] == '}' {
            if depth == 1 {
                return Some(j);
            }
            depth = depth - 1;
        }
        j = j + 1;
    }
    None
}

fn flush(chunks: &mut Vec<TStringChunk>, text: String)
    ensures
        views(final(chunks)@) == flushed(views(old(chunks)@), text@),
{
    if !text.as_str().is_empty() {
        chunks.push(TStringChunk::Text(text));
        assert(views(chunks@) =~= views(old(chunks)@).push(ChunkView::Text(text@)));
    }
}

/// Lex the rest of a template string after its opening delimiter.
fn lex_tstring(chars: &Vec<char>, i: usize, quote: char, triple: bool, raw: bool) -> (r: Result<
    (usize, Vec<TStringChunk>),
    (usize, TextFault),
>)
    requires
        i <= chars.len(),
    ensures
        match r {
            Ok((end, chunks)) => template_body(
                chars@,
                i as nat,
                quote,
                triple,
                raw,
                Seq::empty(),
                Seq::empty(),
            ) == Ok::<(nat, Seq<ChunkView>), (nat, TextFault)>((end as nat, views(chunks@))) && end
                <= chars.len(),
            Err((end, fault)) => template_body(
                chars@,
                i as nat,
                quote,
                triple,
                raw,
                Seq::empty(),
                Seq::empty(),
            ) == Err::<(nat, Seq<ChunkView>), (nat, TextFault)>((end as nat, fault)) && end
                <= chars.len(),
        },
{
    let mut j: usize = i;
    let mut text = String::new();
    let mut chunks: Vec<TStringChunk> = Vec::new();
    assert(views(chunks@) =~= Seq::<ChunkView>::empty());
    loop
        invariant
            i <= j <= chars.len(),
            template_body(chars@, j as nat, quote, triple, raw, views(chunks@), text@)
                == template_body(chars@, i as nat, quote, triple, raw, Seq::empty(), Seq::empty()),
        decreases chars.len() - j,
    {
        if quote_stands(chars, j, quote, triple) {
            flush(&mut chunks, text);
            return Ok((if triple {
                j + 3
            } else {
                j + 1
            }, chunks));
        }
        if j >= chars.len() {
            return Err((j, TextFault::Open));
        }
        let c = chars[j];
        if c == '{' && char_at(chars, j + 1, '{') {
            text.push('{');
            j = j + 2;
        } else if c == '{' {
            match find_interpolation_end(chars, j + 1) {
                Some(end) => {
                    let source = text_of(chars, j + 1, end);
                    flush(&mut chunks, text);
                    text = String::new();
                    let ghost before = views(chunks@);
                    chunks.push(TStringChunk::Interp(source));
                    assert(views(chunks@) =~= before.push(ChunkView::Interp(source@)));
                    j = end + 1;
                },
                None => {
                    return Err((chars.len(), TextFault::Open));
                },
            }
        } else if c == '}' && char_at(chars, j + 1, '}') {
            text.push('}');
            j = j + 2;
        } else if c == '\n' && !triple {
            return Err((j, TextFault::Open));
        } else if c == '\\' && !raw {
            match decode_escape(chars, j + 1) {
                Ok((end, d)) => {
                    text.push(d);
                    j = end;
                },
                Err(fault) => {
                    return Err(fault);
                },
            }
        } else {
            text.push(c);
            j = j + 1;
        }
    }
}

/// The punctuation at index `i`, longest match first.
fn find_symbol(chars: &Vec<char>, i: usize) -> (r: Option<(usize, Token)>)
    requires
        i < chars.len(),
    ensures
        match r {
            Some((w, token)) => symbol(chars@, i as nat) == Some((w as nat, token)) && i + w
                <= chars.len(),
            None => symbol(chars@, i as nat) is None,
        },
{
    let c = chars[i];
    if c == '&' {
        Some((1, Token::Amp))
    } else if c == '^' {
        Some((1, Token::Caret))
    } else if c == ':' {
        if char_after(chars, i, 1, '=') {
            Some((2, Token::ColonEq))
        } else {
            Some((1, Token::Colon))
        }
    } else if c == ',' {
        Some((1, Token::Comma))
    } else if c == ';' {
        Some((1, Token::Semicolon))
    } else if c == '.' {
        if char_after(chars, i, 1, '.') && char_after(chars, i, 2, '.') {
            Some((3, Token::Ellipsis))
        } else {
            Some((1, Token::Dot))
        }
    } else if c == '@' {
        Some((1, Token::At))
    } else if c == '=' {
        if char_after(chars, i, 1, '=') {
            Some((2, Token::EqEq))
        } else {
            Some((1, Token::Assign))
        }
    } else if c == '-' {
        if char_after(chars, i, 1, '>') {
            Some((2, Token::Arrow))
        } else if char_after(chars, i, 1, '=') {
            Some((2, Token::MinusEq))
        } else {
            Some((1, Token::Minus))
        }
    } else if c == '+' {
        if char_after(chars, i, 1, '=') {
            Some((2, Token::PlusEq))
        } else {
            Some((1, Token::Plus))
        }
    } else if c == '*' {
        if char_after(chars, i, 1, '*') && char_after(chars, i, 2, '=') {
            Some((3, Token::DoubleStarEq))
        } else if char_after(chars, i, 1, '*') {
            Some((2, Token::DoubleStar))
        } else if char_after(chars, i, 1, '=') {
            Some((2, Token::StarEq))
        } else {
            Some((1, Token::Star))
        }
    } else if c == '/' {
        if char_after(chars, i, 1, '/') && char_after(chars, i, 2, '=') {
            Some((3, Token::DoubleSlashEq))
        } else if char_after(chars, i, 1, '/') {
            Some((2, Token::DoubleSlash))
        } else if char_after(chars, i, 1, '=') {
            Some((2, Token::SlashEq))
        } else {
            Some((1, Token::Slash))
        }
    } else if c == '%' {
        if char_after(chars, i, 1, '=') {
            Some((2, Token::PercentEq))
        } else {
            Some((1, Token::Percent))
        }
    } else if c == '<' {
        if char_after(chars, i, 1, '=') {
            Some((2, Token::Le))
        } else {
            Some((1, Token::Lt))
        }
    } else if c == '>' {
        if char_after(chars, i, 1, '=') {
            Some((2, Token::Ge))
        } else {
            Some((1, Token::Gt))
        }
    } else if c == '!' && char_after(chars, i, 1, '=') {
        Some((2, Token::NotEq))
    } else {
        None
    }
}

/// The tokens of a queue, by what they say.
pub open spec fn queue_view(tokens: Seq<(Token, Span)>) -> Seq<Spanned> {
    Seq::new(tokens.len(), |i: int| (tokens[i].0@, tokens[i].1))
}

/// How one scan ended.
enum Step {
    Skipped,
    Emitted,
    Failed(LexError),
    Finished,
}

/// A lexer over a source text. Tokens come one at a time from [`Lexer::next`].
pub struct Lexer {
    chars: Vec<char>,
    /// Characters consumed.
    idx: usize,
    /// Bytes consumed.
    pos: usize,
    /// Byte offset at which the token being scanned began.
    token_start: usize,
    indent_stack: Vec<usize>,
    paren_count: usize,
    at_line_start: bool,
    eof_emitted: bool,
    /// Tokens scanned and not yet handed out.
    pending_tokens: VecDeque<(Token, Span)>,
}

impl Lexer {
    /// The text being lexed.
    pub closed spec fn source(self) -> Seq<char> {
        self.chars@
    }

    /// Where scanning stands.
    pub closed spec fn state(self) -> ScanState {
        ScanState {
            at: self.idx as nat,
            indents: self.indent_stack@,
            depth: self.paren_count as nat,
            line_start: self.at_line_start,
            ended: self.eof_emitted,
        }
    }

    /// The tokens scanned and not yet handed out.
    pub closed spec fn pending(self) -> Seq<Spanned> {
        queue_view(self.pending_tokens@)
    }

    /// The lexer's invariant.
    pub closed spec fn well_formed(self) -> bool {
        &&& valid(self.chars@, self.state())
        &&& self.pos == byte_offset(self.chars@, self.idx as nat)
        &&& byte_offset(self.chars@, self.chars@.len()) <= usize::MAX
    }

    /// Open a lexer at the start of `input`.
    pub fn new(input: &str) -> (r: Self)
        ensures
            r.well_formed(),
            r.source() == input@,
            r.state() == initial(),
            r.pending() == Seq::<Spanned>::empty(),
    {
        let bytes = input.as_bytes();
        let size: usize = bytes.len();
        proof {
            byte_offset_is_encoding_length(input@);
            assert(bytes@.len() == size);
        }
        let mut indent_stack: Vec<usize> = Vec::new();
        indent_stack.push(0);
        let r = Lexer {
            chars: chars_of(input),
            idx: 0,
            pos: 0,
            token_start: 0,
            indent_stack,
            paren_count: 0,
            at_line_start: true,
            eof_emitted: false,
            pending_tokens: VecDeque::new(),
        };
        proof {
            assert(r.indent_stack@ =~= seq![0usize]);
            assert(r.state() =~= initial());
            assert(r.pending() =~= Seq::<Spanned>::empty());
            assert(byte_offset(r.chars@, 0) == 0);
        }
        r
    }

    /// Consume characters up to index `to`.
    fn advance_to(&mut self, to: usize)
        requires
            old(self).idx <= to <= old(self).chars@.len(),
            old(self).pos == byte_offset(old(self).chars@, old(self).idx as nat),
            byte_offset(old(self).chars@, old(self).chars@.len()) <= usize::MAX,
        ensures
            *final(self) == (Lexer {
                idx: to,
                pos: byte_offset(old(self).chars@, to as nat) as usize,
                ..*old(self)
            }),
            final(self).pos == byte_offset(old(self).chars@, to as nat),
    {
        while self.idx < to
            invariant
                self.idx <= to <= self.chars@.len(),
                self.pos == byte_offset(self.chars@, self.idx as nat),
                byte_offset(self.chars@, self.chars@.len()) <= usize::MAX,
                *self == (Lexer { idx: self.idx, pos: self.pos, ..*old(self) }),
            decreases to - self.idx,
        {
            proof {
                byte_offset_monotone(self.chars@, (self.idx + 1) as nat, self.chars@.len());
            }
            let w: usize = width(self.chars[self.idx]);
            self.pos = self.pos + w;
            self.idx = self.idx + 1;
        }
    }

    /// Enqueue a token that spans the text consumed since the scan began.
    fn emit(&mut self, token: Token)
        ensures
            final(self).pending() == old(self).pending().push(
                (token@, (old(self).token_start, old(self).pos)),
            ),
            *final(self) == (Lexer { pending_tokens: final(self).pending_tokens, ..*old(self) }),
    {
        let ghost before = self.pending();
        self.pending_tokens.push_back((token, (self.token_start, self.pos)));
        assert(self.pending() =~= before.push((token@, (self.token_start, self.pos))));
    }

    /// Move to `to` and enqueue the token that ends there.
    fn emit_at(&mut self, to: usize, token: Token)
        requires
            old(self).well_formed(),
            old(self).idx <= to <= old(self).chars@.len(),
            old(self).pending() == Seq::<Spanned>::empty(),
        ensures
            final(self).well_formed(),
            final(self).chars == old(self).chars,
            final(self).state() == (ScanState { at: to as nat, ..old(self).state() }),
            final(self).pending() == seq![
                (token@, (old(self).token_start, off(old(self).chars@, to as nat))),
            ],
    {
        self.advance_to(to);
        self.emit(token);
        assert(self.pending() =~= seq![
            (token@, (old(self).token_start, off(old(self).chars@, to as nat))),
        ]);
    }

    /// Whether a step's outcome is the one the grammar gives.
    spec fn stepped(self, before: Lexer, step: Step, expected: Scan) -> bool {
        &&& self.well_formed()
        &&& self.chars == before.chars
        &&& match expected {
            Scan::Skip(t) => {
                &&& step is Skipped
                &&& self.state() == t
                &&& self.pending() == Seq::<Spanned>::empty()
            },
            Scan::Emit(t, tokens) => {
                &&& step is Emitted
                &&& self.state() == t
                &&& self.pending() == tokens
            },
            Scan::Fail(t, tokens, e) => {
                &&& step == Step::Failed(e)
                &&& self.state() == t
                &&& self.pending() == tokens
            },
            Scan::Done => {
                &&& step is Finished
                &&& self.state() == before.state()
                &&& self.pending() == Seq::<Spanned>::empty()
            },
        }
    }

    fn fail_text(&mut self, open: usize, fault: (usize, TextFault)) -> (e: LexError)
        requires
            old(self).well_formed(),
            old(self).idx <= open <= fault.0 <= old(self).chars@.len(),
        ensures
            final(self).well_formed(),
            final(self).chars == old(self).chars,
            final(self).pending() == old(self).pending(),
            final(self).state() == (ScanState { at: fault.0 as nat, ..old(self).state() }),
            e == text_fault(old(self).chars@, open as nat, (fault.0 as nat, fault.1)),
    {
        self.advance_to(open);
        let opened: usize = self.pos;
        self.advance_to(fault.0);
        match fault.1 {
            TextFault::Open => LexError::UnterminatedString(opened),
            TextFault::Escape(c) => LexError::InvalidEscape(c, self.pos),
        }
    }

    fn scan_quoted(&mut self) -> (step: Step)
        requires
            old(self).well_formed(),
            old(self).pending() == Seq::<Spanned>::empty(),
            old(self).idx < old(self).chars@.len(),
        ensures
            forall|start: nat|
                old(self).token_start == #[trigger] off(old(self).chars@, start) ==> final(self).stepped(*old(self), step, scan_string(old(self).chars@, old(self).state(), start)),
    {
        let size: usize = self.chars.len();
        assert(self.chars@.len() == size);
        let quote = self.chars[self.idx];
        let triple = quote_stands(&self.chars, self.idx, quote, true);
        let open: usize = self.idx;
        let body: usize = if triple {
            open + 3
        } else {
            open + 1
        };
        proof {
            string_body_bounds(self.chars@, body as nat, quote, triple, Seq::empty());
        }
        match lex_string(&self.chars, body, quote, triple) {
            Ok((end, text)) => {
                self.emit_at(end, Token::StringLiteral(text));
                Step::Emitted
            },
            Err(fault) => Step::Failed(self.fail_text(open, fault)),
        }
    }

    fn scan_tstring(&mut self, open: usize, raw: bool) -> (step: Step)
        requires
            old(self).well_formed(),
            old(self).pending() == Seq::<Spanned>::empty(),
            old(self).idx <= open < old(self).chars@.len(),
        ensures
            forall|start: nat|
                old(self).token_start == #[trigger] off(old(self).chars@, start) ==> final(self).stepped(
                    *old(self),
                    step,
                    scan_template(old(self).chars@, old(self).state(), start, open as nat, raw),
                ),
    {
        let size: usize = self.chars.len();
        assert(self.chars@.len() == size);
        let quote = self.chars[open];
        let triple = quote_stands(&self.chars, open, quote, true);
        let body: usize = if triple {
            open + 3
        } else {
            open + 1
        };
        proof {
            template_body_bounds(
                self.chars@,
                body as nat,
                quote,
                triple,
                raw,
                Seq::empty(),
                Seq::empty(),
            );
        }
        match lex_tstring(&self.chars, body, quote, triple, raw) {
            Ok((end, chunks)) => {
                self.emit_at(end, Token::TString { chunks, raw });
                Step::Emitted
            },
            Err(fault) => Step::Failed(self.fail_text(open, fault)),
        }
    }

    fn scan_name(&mut self) -> (step: Step)
        requires
            old(self).well_formed(),
            old(self).pending() == Seq::<Spanned>::empty(),
            old(self).idx < old(self).chars@.len(),
        ensures
            forall|start: nat|
                old(self).token_start == #[trigger] off(old(self).chars@, start) ==> final(self).stepped(*old(self), step, scan_word(old(self).chars@, old(self).state(), start)),
    {
        let end = find_word_end(&self.chars, self.idx);
        let word = text_of(&self.chars, self.idx, end);
        if char_at(&self.chars, end, '"') || char_at(&self.chars, end, '\'') {
            if same_text(word.as_str(), "t") {
                return self.scan_tstring(end, false);
            }
            if same_text(word.as_str(), "rt") {
                return self.scan_tstring(end, true);
            }
        }
        match Token::keyword(word.as_str()) {
            Some(keyword) => {
                proof {
                    assert(keyword@ == TokenView::Plain(keyword));
                }
                self.emit_at(end, keyword);
            },
            None => {
                self.emit_at(end, Token::Identifier(word));
            },
        }
        Step::Emitted
    }

    fn scan_numeral(&mut self) -> (step: Step)
        requires
            old(self).well_formed(),
            old(self).pending() == Seq::<Spanned>::empty(),
            old(self).idx < old(self).chars@.len(),
        ensures
            forall|start: nat|
                old(self).token_start == #[trigger] off(old(self).chars@, start) ==> final(self).stepped(*old(self), step, scan_number(old(self).chars@, old(self).state(), start)),
    {
        let size: usize = self.chars.len();
        assert(self.chars@.len() == size);
        let start: usize = self.idx;
        let start_pos: usize = self.pos;
        let radix: Option<u32> = if !char_at(&self.chars, start, '0') {
            None
        } else if char_after(&self.chars, start, 1, 'x') || char_after(&self.chars, start, 1, 'X') {
            Some(16)
        } else if char_after(&self.chars, start, 1, 'o') || char_after(&self.chars, start, 1, 'O') {
            Some(8)
        } else if char_after(&self.chars, start, 1, 'b') || char_after(&self.chars, start, 1, 'B') {
            Some(2)
        } else {
            None
        };
        match radix {
            Some(radix) => {
                let end = consume_digit_run(&self.chars, start + 2, radix);
                let digits = strip_separators(&self.chars, start + 2, end);
                match parse_int(&digits, radix) {
                    Some(n) => {
                        self.emit_at(end, Token::IntLiteral(n));
                        Step::Emitted
                    },
                    None => {
                        self.advance_to(end);
                        Step::Failed(LexError::InvalidInteger(start_pos))
                    },
                }
            },
            None => {
                let whole = consume_digit_run(&self.chars, start, 10);
                let dotted = char_at(&self.chars, whole, '.') && digit_stands(
                    &self.chars,
                    whole + 1,
                    10,
                );
                let fraction = if dotted {
                    consume_digit_run(&self.chars, whole + 1, 10)
                } else {
                    whole
                };
                match consume_exponent(&self.chars, fraction) {
                    Some(end) => {
                        let digits = strip_separators(&self.chars, start, end);
                        let text = text_of(&digits, 0, digits.len());
                        assert(text@ =~= digits@);
                        self.emit_at(end, Token::FloatLiteral(text));
                        Step::Emitted
                    },
                    None => {
                        let digits = strip_separators(&self.chars, start, fraction);
                        if dotted {
                            let text = text_of(&digits, 0, digits.len());
                            assert(text@ =~= digits@);
                            self.emit_at(fraction, Token::FloatLiteral(text));
                            Step::Emitted
                        } else {
                            match parse_int(&digits, 10) {
                                Some(n) => {
                                    self.emit_at(fraction, Token::IntLiteral(n));
                                    Step::Emitted
                                },
                                None => {
                                    self.advance_to(fraction);
                                    Step::Failed(LexError::InvalidInteger(start_pos))
                                },
                            }
                        }
                    },
                }
            },
        }
    }

    /// Scan whatever stands at the current position.
    fn scan_here(&mut self) -> (step: Step)
        requires
            old(self).well_formed(),
            old(self).pending() == Seq::<Spanned>::empty(),
        ensures
            forall|start: nat|
                old(self).token_start == #[trigger] off(old(self).chars@, start) ==> final(self).stepped(*old(self), step, scan_token(old(self).chars@, old(self).state(), start)),
    {
        if self.idx >= self.chars.len() {
            return Step::Skipped;
        }
        let i: usize = self.idx;
        let c = self.chars[i];
        if c == ' ' || c == '\t' || c == '\r' {
            self.advance_to(i + 1);
            Step::Skipped
        } else if c == '#' {
            let end = find_line_end(&self.chars, i);
            self.advance_to(end);
            Step::Skipped
        } else if c == '\n' {
            if self.paren_count == 0 {
                self.emit_at(i + 1, Token::Newline);
                self.at_line_start = true;
                Step::Emitted
            } else {
                self.advance_to(i + 1);
                Step::Skipped
            }
        } else if c == '\\' {
            if char_after(&self.chars, i, 1, '\r') && char_after(&self.chars, i, 2, '\n') {
                self.advance_to(i + 3);
                Step::Skipped
            } else if char_after(&self.chars, i, 1, '\n') {
                self.advance_to(i + 2);
                Step::Skipped
            } else {
                Step::Failed(LexError::UnexpectedCharacter('\\', self.pos))
            }
        } else if c == '(' || c == '[' {
            self.emit_at(
                i + 1,
                if c == '(' {
                    Token::LParen
                } else {
                    Token::LBracket
                },
            );
            self.paren_count = self.paren_count + 1;
            Step::Emitted
        } else if c == ')' || c == ']' {
            if self.paren_count > 0 {
                self.emit_at(
                    i + 1,
                    if c == ')' {
                        Token::RParen
                    } else {
                        Token::RBracket
                    },
                );
                self.paren_count = self.paren_count - 1;
                Step::Emitted
            } else {
                self.advance_to(i + 1);
                Step::Failed(LexError::UnmatchedParenthesis(self.pos))
            }
        } else {
            match find_symbol(&self.chars, i) {
                Some((w, token)) => {
                    proof {
                        assert(token@ == TokenView::Plain(token));
                    }
                    self.emit_at(i + w, token);
                    Step::Emitted
                },
                None => if c == '"' || c == '\'' {
                    self.scan_quoted()
                } else if word_start(c) {
                    self.scan_name()
                } else if '0' <= c && c <= '9' {
                    self.scan_numeral()
                } else {
                    Step::Failed(LexError::UnexpectedCharacter(c, self.pos))
                },
            }
        }
    }

    /// Enqueue `n` closing-block tokens and drop that many indentation widths.
    fn close_blocks(&mut self, n: usize)
        requires
            n < old(self).indent_stack@.len(),
        ensures
            final(self).indent_stack@ == old(self).indent_stack@.take(
                old(self).indent_stack@.len() - n,
            ),
            final(self).pending() == old(self).pending() + repeated(
                (TokenView::Plain(Token::Dedent), (old(self).token_start, old(self).pos)),
                n as nat,
            ),
            *final(self) == (Lexer {
                indent_stack: final(self).indent_stack,
                pending_tokens: final(self).pending_tokens,
                ..*old(self)
            }),
    {
        let ghost item = (TokenView::Plain(Token::Dedent), (self.token_start, self.pos));
        let mut k: usize = 0;
        assert(self.pending() =~= old(self).pending() + repeated(item, 0));
        assert(self.indent_stack@ =~= old(self).indent_stack@.take(
            old(self).indent_stack@.len() as int,
        ));
        while k < n
            invariant
                k <= n < old(self).indent_stack@.len(),
                item == (TokenView::Plain(Token::Dedent), (self.token_start, self.pos)),
                self.indent_stack@ == old(self).indent_stack@.take(
                    old(self).indent_stack@.len() - k,
                ),
                self.pending() == old(self).pending() + repeated(item, k as nat),
                *self == (Lexer {
                    indent_stack: self.indent_stack,
                    pending_tokens: self.pending_tokens,
                    ..*old(self)
                }),
            decreases n - k,
        {
            self.indent_stack.pop();
            self.emit(Token::Dedent);
            k = k + 1;
            assert(self.pending() =~= old(self).pending() + repeated(item, k as nat));
            assert(self.indent_stack@ =~= old(self).indent_stack@.take(
                old(self).indent_stack@.len() - k,
            ));
        }
    }

    /// Scan the start of a logical line.
    fn scan_line(&mut self) -> (step: Step)
        requires
            old(self).well_formed(),
            old(self).pending() == Seq::<Spanned>::empty(),
            old(self).at_line_start,
            old(self).idx < old(self).chars@.len(),
            old(self).token_start == off(old(self).chars@, old(self).idx as nat),
        ensures
            final(self).stepped(
                *old(self),
                step,
                scan_line_start(old(self).chars@, old(self).state()),
            ),
    {
        let text = find_spaces_end(&self.chars, self.idx);
        let spaces: usize = text - self.idx;
        if text >= self.chars.len() || char_at(&self.chars, text, '\n') || char_at(
            &self.chars,
            text,
            '\r',
        ) || char_at(&self.chars, text, '#') {
            let end = find_line_end(&self.chars, text);
            self.advance_to(
                if end < self.chars.len() {
                    end + 1
                } else {
                    end
                },
            );
            return Step::Skipped;
        }
        let ghost start = self.idx as nat;
        self.advance_to(text);
        self.at_line_start = false;
        let top: usize = self.indent_stack[self.indent_stack.len() - 1];
        if self.paren_count > 0 || spaces == top {
            self.token_start = self.pos;
            let ghost here = *self;
            let step = self.scan_here();
            proof {
                assert(here.token_start == off(here.chars@, text as nat));
                assert(here.state() =~= ScanState {
                    at: text as nat,
                    line_start: false,
                    ..old(self).state()
                });
            }
            return step;
        }
        if spaces > top {
            self.indent_stack.push(spaces);
            self.emit(Token::Indent);
            assert(self.pending() =~= seq![plain(self.chars@, Token::Indent, start, text as nat)]);
            return Step::Emitted;
        }
        let ghost indents = self.indent_stack@;
        let mut keep: usize = self.indent_stack.len();
        assert(indents.take(keep as int) =~= indents);
        while self.indent_stack[keep - 1] > spaces
            invariant
                1 <= keep <= indents.len(),
                indents == self.indent_stack@,
                indents[0] == 0,
                outer_indents(indents.take(keep as int), spaces as nat) == outer_indents(
                    indents,
                    spaces as nat,
                ),
            decreases keep,
        {
            assert(indents.take(keep as int).drop_last() =~= indents.take(keep - 1));
            keep = keep - 1;
        }
        assert(outer_indents(indents, spaces as nat) == indents.take(keep as int));
        let count: usize = self.indent_stack.len() - keep;
        self.close_blocks(count);
        proof {
            let item = plain(self.chars@, Token::Dedent, start, text as nat);
            assert(self.pending() =~= repeated(item, count as nat));
        }
        if self.indent_stack[self.indent_stack.len() - 1] == spaces {
            Step::Emitted
        } else {
            Step::Failed(LexError::IndentationError(self.pos))
        }
    }

    /// One scan.
    fn scan_once(&mut self) -> (step: Step)
        requires
            old(self).well_formed(),
            old(self).pending() == Seq::<Spanned>::empty(),
        ensures
            final(self).stepped(*old(self), step, scan(old(self).chars@, old(self).state())),
    {
        self.token_start = self.pos;
        assert(self.state() =~= old(self).state());
        assert(self.token_start == off(self.chars@, self.idx as nat));
        if self.eof_emitted {
            return Step::Finished;
        }
        if self.idx >= self.chars.len() {
            if !self.at_line_start {
                self.emit(Token::Newline);
            }
            let n: usize = self.indent_stack.len() - 1;
            self.close_blocks(n);
            self.emit(Token::Eof);
            self.eof_emitted = true;
            proof {
                let s = old(self).state();
                let newline = if s.line_start {
                    Seq::empty()
                } else {
                    seq![plain(self.chars@, Token::Newline, s.at, s.at)]
                };
                let dedents = repeated(
                    plain(self.chars@, Token::Dedent, s.at, s.at),
                    (s.indents.len() - 1) as nat,
                );
                assert(self.pending() =~= newline + dedents + seq![
                    plain(self.chars@, Token::Eof, s.at, s.at),
                ]);
            }
            return Step::Emitted;
        }
        if self.at_line_start {
            self.scan_line()
        } else {
            self.scan_here()
        }
    }

    /// The next token with its span, the failure that stops the text from being
    /// lexed, or nothing after the end of the text.
    pub fn next(&mut self) -> (r: Option<Result<(Token, Span), LexError>>)
        requires
            old(self).well_formed(),
        ensures
            final(self).well_formed(),
            final(self).source() == old(self).source(),
            old(self).pending().len() > 0 ==> {
                &&& r matches Some(Ok(t)) && (t.0@, t.1) == old(self).pending()[0]
                &&& final(self).pending() == old(self).pending().drop_first()
                &&& final(self).state() == old(self).state()
            },
            old(self).pending().len() == 0 ==> match settle(old(self).source(), old(self).state()) {
                Scan::Emit(t, tokens) => {
                    &&& tokens.len() > 0
                    &&& r matches Some(Ok(token)) && (token.0@, token.1) == tokens[0]
                    &&& final(self).state() == t
                    &&& final(self).pending() == tokens.drop_first()
                },
                Scan::Fail(t, tokens, e) => {
                    &&& r == Some(Err::<(Token, Span), LexError>(e))
                    &&& final(self).state() == t
                    &&& final(self).pending() == tokens
                },
                Scan::Skip(_) => false,
                Scan::Done => {
                    &&& r is None
                    &&& final(self).state().ended
                    &&& final(self).pending() == Seq::<Spanned>::empty()
                },
            },
    {
        let ghost before = self.pending_tokens@;
        if let Some(token) = self.pending_tokens.pop_front() {
            assert(self.pending() =~= queue_view(before).drop_first());
            assert(self.state() =~= old(self).state());
            return Some(Ok(token));
        }
        assert(self.pending() =~= Seq::<Spanned>::empty());
        loop
            invariant
                self.well_formed(),
                self.pending() == Seq::<Spanned>::empty(),
                self.chars == old(self).chars,
                old(self).pending().len() == 0,
                settle(self.chars@, self.state()) == settle(old(self).chars@, old(self).state()),
            decreases self.chars@.len() - self.idx,
        {
            proof {
                settle_keeps(self.chars@, self.state());
            }
            let ghost here = *self;
            match self.scan_once() {
                Step::Skipped => {
                    proof {
                        assert(scan(here.chars@, here.state()) == Scan::Skip(self.state()));
                    }
                },
                Step::Emitted => {
                    let ghost queued = self.pending_tokens@;
                    let ghost scanned = *self;
                    let front = self.pending_tokens.pop_front();
                    assert(self.state() =~= scanned.state());
                    assert(self.pending() =~= queue_view(queued).drop_first());
                    match front {
                        Some(token) => {
                            return Some(Ok(token));
                        },
                        None => {
                            return None;
                        },
                    }
                },
                Step::Failed(e) => {
                    return Some(Err(e));
                },
                Step::Finished => {
                    return None;
                },
            }
        }
    }
}

/// Lex `source` into its full token stream, stopping at the first failure.
pub fn lex(source: &str) -> (r: Result<Vec<Token>, LexError>)
    ensures
        match (r, tokens_from(source@, initial())) {
            (Ok(tokens), Ok(spanned)) => views(tokens@) == spanned.map_values(
                |t: Spanned| t.0,
            ),
            (Err(e), Err(f)) => e == f,
            _ => false,
        },
{
    let mut lexer = Lexer::new(source);
    let mut tokens: Vec<Token> = Vec::new();
    let ghost mut rest = tokens_from(source@, initial());
    let ghost mut done: Seq<Spanned> = Seq::empty();
    assert(views(tokens@) =~= done.map_values(|t: Spanned| t.0));
    assert(lexer.pending() + tokens_tail(rest) =~= tokens_tail(rest));
    loop
        invariant
            lexer.well_formed(),
            lexer.source() == source@,
            rest == tokens_from(source@, lexer.state()),
            views(tokens@) == done.map_values(|t: Spanned| t.0),
            match tokens_from(source@, initial()) {
                Ok(all) => rest is Ok && all == done + lexer.pending() + rest->Ok_0,
                Err(e) => rest == Err::<Seq<Spanned>, LexError>(e),
            },
        decreases rank(source@, lexer.state()), lexer.pending().len(),
    {
        let ghost before = lexer;
        proof {
            lexer.state_is_valid();
            settle_keeps(source@, lexer.state());
        }
        match lexer.next() {
            Some(Ok((token, span))) => {
                let ghost item = (token@, span);
                let ghost old_tokens = tokens@;
                tokens.push(token);
                proof {
                    if before.pending().len() == 0 {
                        rest = tokens_from(source@, lexer.state());
                    }
                    assert(views(tokens@) =~= views(old_tokens).push(token@));
                    let old_done = done;
                    done = done.push(item);
                    assert(done.map_values(|t: Spanned| t.0) =~= old_done.map_values(
                        |t: Spanned| t.0,
                    ).push(token@));
                    match tokens_from(source@, initial()) {
                        Ok(all) => {
                            assert(all =~= done + lexer.pending() + rest->Ok_0);
                        },
                        Err(_) => {},
                    }
                }
            },
            Some(Err(e)) => {
                return Err(e);
            },
            None => {
                proof {
                    match tokens_from(source@, initial()) {
                        Ok(all) => {
                            assert(all =~= done);
                        },
                        Err(_) => {},
                    }
                }
                return Ok(tokens);
            },
        }
    }
}

spec fn tokens_tail(r: Result<Seq<Spanned>, LexError>) -> Seq<Spanned> {
    match r {
        Ok(tokens) => tokens,
        Err(_) => Seq::empty(),
    }
}

impl Lexer {
    proof fn state_is_valid(self)
        requires
            self.well_formed(),
        ensures
            valid(self.source(), self.state()),
    {
    }
}

} // verus!
