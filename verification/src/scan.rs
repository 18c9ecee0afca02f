//! What the lexer recognises: the lexical grammar as functions on characters.

use crate::error::LexError;
use crate::text::{byte_offset, byte_offset_monotone, is_scalar};
use crate::token::{keyword_of, ChunkView, Span, Token, TokenView};
use vstd::prelude::*;

verus! {

/// Whether the character at index `i` is `c`.
pub open spec fn at(chars: Seq<char>, i: nat, c: char) -> bool {
    i < chars.len() && chars[i as int] == c
}

/// The byte offset of the character at index `i`, as a position.
pub open spec fn off(chars: Seq<char>, i: nat) -> usize {
    byte_offset(chars, i) as usize
}

/// The value of `c` as a digit of the given radix.
pub open spec fn digit_value(c: char, radix: nat) -> Option<nat> {
    let v: nat = if '0' <= c && c <= '9' {
        (c as u32 - '0' as u32) as nat
    } else if 'a' <= c && c <= 'z' {
        (c as u32 - 'a' as u32 + 10) as nat
    } else if 'A' <= c && c <= 'Z' {
        (c as u32 - 'A' as u32 + 10) as nat
    } else {
        99
    };
    if v < radix {
        Some(v)
    } else {
        None
    }
}

pub open spec fn digit_at(chars: Seq<char>, i: nat, radix: nat) -> bool {
    i < chars.len() && digit_value(chars[i as int], radix) is Some
}

pub open spec fn is_word_char(c: char) -> bool {
    is_word_start(c) || ('0' <= c && c <= '9')
}

pub open spec fn is_word_start(c: char) -> bool {
    ('a' <= c && c <= 'z') || ('A' <= c && c <= 'Z') || c == '_'
}

/// The end of the current line: the next line feed, or the end of the text.
pub open spec fn line_end(chars: Seq<char>, i: nat) -> nat
    decreases chars.len() - i,
{
    if i >= chars.len() || chars[i as int] == '\n' {
        i
    } else {
        line_end(chars, i + 1)
    }
}

/// The end of a run of spaces.
pub open spec fn spaces_end(chars: Seq<char>, i: nat) -> nat
    decreases chars.len() - i,
{
    if at(chars, i, ' ') {
        spaces_end(chars, i + 1)
    } else {
        i
    }
}

/// The end of a run of decimal digits.
pub open spec fn digits_end(chars: Seq<char>, i: nat) -> nat
    decreases chars.len() - i,
{
    if digit_at(chars, i, 10) {
        digits_end(chars, i + 1)
    } else {
        i
    }
}

/// The end of a run of digits that has begun: each `_` stands before a digit.
pub open spec fn begun_run_end(chars: Seq<char>, i: nat, radix: nat) -> nat
    decreases chars.len() - i,
{
    if digit_at(chars, i, radix) || (at(chars, i, '_') && digit_at(chars, i + 1, radix)) {
        begun_run_end(chars, i + 1, radix)
    } else {
        i
    }
}

/// The end of a run of digits in which each `_` stands between two digits.
pub open spec fn digit_run_end(chars: Seq<char>, i: nat, radix: nat) -> nat {
    if digit_at(chars, i, radix) {
        begun_run_end(chars, i + 1, radix)
    } else {
        i
    }
}

/// The end of a well-formed exponent (`e` or `E`, an optional sign, digits), if
/// one starts at `i`.
pub open spec fn exponent_end(chars: Seq<char>, i: nat) -> Option<nat> {
    let digits = if at(chars, i + 1, '+') || at(chars, i + 1, '-') {
        i + 2
    } else {
        i + 1
    };
    if (at(chars, i, 'e') || at(chars, i, 'E')) && digit_at(chars, digits, 10) {
        Some(digits_end(chars, digits))
    } else {
        None
    }
}

/// The end of a word: letters, digits and underscores.
pub open spec fn word_end(chars: Seq<char>, i: nat) -> nat
    decreases chars.len() - i,
{
    if i < chars.len() && is_word_char(chars[i as int]) {
        word_end(chars, i + 1)
    } else {
        i
    }
}

/// The characters of a range without the `_` separators.
pub open spec fn stripped(chars: Seq<char>, from: nat, to: nat) -> Seq<char>
    decreases to,
{
    if to <= from {
        Seq::empty()
    } else if chars[to - 1] == '_' {
        stripped(chars, from, (to - 1) as nat)
    } else {
        stripped(chars, from, (to - 1) as nat).push(chars[to - 1])
    }
}

/// The number a sequence of digits spells.
pub open spec fn numeral(digits: Seq<char>, radix: nat) -> nat
    decreases digits.len(),
{
    if digits.len() == 0 {
        0
    } else {
        numeral(digits.drop_last(), radix) * radix + (match digit_value(digits.last(), radix) {
            Some(d) => d,
            None => 0,
        })
    }
}

/// The signed integer a sequence of digits denotes, when it denotes one.
pub open spec fn int_of(digits: Seq<char>, radix: nat) -> Option<i64> {
    if digits.len() > 0 && numeral(digits, radix) <= i64::MAX {
        Some(numeral(digits, radix) as i64)
    } else {
        None
    }
}

/// Why quoted text was rejected: it never ends, or an escape is malformed.
#[derive(Clone, Copy)]
pub enum TextFault {
    Open,
    Escape(char),
}

/// The character an escape letter stands for.
pub open spec fn simple_escape(c: char) -> Option<char> {
    if c == '"' {
        Some('"')
    } else if c == '\'' {
        Some('\'')
    } else if c == '\\' {
        Some('\\')
    } else if c == 'n' {
        Some('\n')
    } else if c == 't' {
        Some('\t')
    } else if c == 'r' {
        Some('\r')
    } else if c == 'a' {
        Some('\u{07}')
    } else if c == 'b' {
        Some('\u{08}')
    } else if c == 'f' {
        Some('\u{0C}')
    } else if c == 'v' {
        Some('\u{0B}')
    } else {
        None
    }
}

/// Read exactly `n` digits. A fault comes with the index it was found at.
pub open spec fn code_digits(chars: Seq<char>, i: nat, n: nat, radix: nat, code: nat) -> Result<
    (nat, nat),
    (nat, TextFault),
>
    decreases n,
{
    if n == 0 {
        Ok((i, code))
    } else if i >= chars.len() {
        Err((i, TextFault::Open))
    } else {
        match digit_value(chars[i as int], radix) {
            Some(d) => code_digits(chars, i + 1, (n - 1) as nat, radix, code * radix + d),
            None => Err((i, TextFault::Escape(chars[i as int]))),
        }
    }
}

pub open spec fn coded_escape(chars: Seq<char>, i: nat, n: nat, radix: nat, letter: char) -> Result<
    (nat, char),
    (nat, TextFault),
> {
    match code_digits(chars, i, n, radix, 0) {
        Ok((end, code)) => if is_scalar(code as u32) {
            Ok((end, code as u32 as char))
        } else {
            Err((end, TextFault::Escape(letter)))
        },
        Err(fault) => Err(fault),
    }
}

/// Decode the escape whose letter (after the backslash) is at index `i`.
pub open spec fn escape(chars: Seq<char>, i: nat) -> Result<(nat, char), (nat, TextFault)> {
    if i >= chars.len() {
        Err((i, TextFault::Open))
    } else {
        let c = chars[i as int];
        match simple_escape(c) {
            Some(d) => Ok((i + 1, d)),
            None => if c == 'x' {
                coded_escape(chars, i + 1, 2, 16, c)
            } else if c == 'u' {
                coded_escape(chars, i + 1, 4, 16, c)
            } else if c == 'U' {
                coded_escape(chars, i + 1, 8, 16, c)
            } else if '0' <= c && c <= '3' {
                coded_escape(chars, i, 3, 8, c)
            } else {
                Err((i, TextFault::Escape(c)))
            },
        }
    }
}

/// Whether a delimiter (one quote, or three) stands at index `i`.
pub open spec fn quoted(chars: Seq<char>, i: nat, quote: char, triple: bool) -> bool {
    at(chars, i, quote) && (triple ==> at(chars, i + 1, quote) && at(chars, i + 2, quote))
}

pub open spec fn quote_width(triple: bool) -> nat {
    if triple {
        3
    } else {
        1
    }
}

/// The rest of a string literal from index `i`: where it ends and what it holds.
pub open spec fn string_body(
    chars: Seq<char>,
    i: nat,
    quote: char,
    triple: bool,
    text: Seq<char>,
) -> Result<(nat, Seq<char>), (nat, TextFault)>
    decreases chars.len() - i,
{
    if quoted(chars, i, quote, triple) {
        Ok((i + quote_width(triple), text))
    } else if i >= chars.len() || (chars[i as int] == '\n' && !triple) {
        Err((i, TextFault::Open))
    } else if chars[i as int] == '\\' {
        match escape(chars, i + 1) {
            Ok((j, c)) => if i < j <= chars.len() {
                string_body(chars, j, quote, triple, text.push(c))
            } else {
                Err((i, TextFault::Open))
            },
            Err(fault) => Err(fault),
        }
    } else {
        string_body(chars, i + 1, quote, triple, text.push(chars[i as int]))
    }
}

/// The index of the brace that closes an interpolation `depth` braces deep.
pub open spec fn interpolation_end(chars: Seq<char>, i: nat, depth: nat) -> Option<nat>
    decreases chars.len() - i,
{
    if i >= chars.len() {
        None
    } else if chars[i as int] == '{' {
        interpolation_end(chars, i + 1, depth + 1)
    } else if chars[i as int] == '}' {
        if depth <= 1 {
            Some(i)
        } else {
            interpolation_end(chars, i + 1, (depth - 1) as nat)
        }
    } else {
        interpolation_end(chars, i + 1, depth)
    }
}

/// The chunks with the pending literal text added, unless it is empty.
pub open spec fn flushed(chunks: Seq<ChunkView>, text: Seq<char>) -> Seq<ChunkView> {
    if text.len() == 0 {
        chunks
    } else {
        chunks.push(ChunkView::Text(text))
    }
}

/// The rest of a template string from index `i`.
pub open spec fn template_body(
    chars: Seq<char>,
    i: nat,
    quote: char,
    triple: bool,
    raw: bool,
    chunks: Seq<ChunkView>,
    text: Seq<char>,
) -> Result<(nat, Seq<ChunkView>), (nat, TextFault)>
    decreases chars.len() - i,
{
    if quoted(chars, i, quote, triple) {
        Ok((i + quote_width(triple), flushed(chunks, text)))
    } else if i >= chars.len() {
        Err((i, TextFault::Open))
    } else if chars[i as int] == '{' && at(chars, i + 1, '{') {
        template_body(chars, i + 2, quote, triple, raw, chunks, text.push('{'))
    } else if chars[i as int] == '{' {
        match interpolation_end(chars, i + 1, 1) {
            Some(e) => if i < e < chars.len() {
                template_body(
                    chars,
                    e + 1,
                    quote,
                    triple,
                    raw,
                    flushed(chunks, text).push(ChunkView::Interp(chars.subrange(i as int + 1, e as int))),
                    Seq::empty(),
                )
            } else {
                Err((chars.len(), TextFault::Open))
            },
            None => Err((chars.len(), TextFault::Open)),
        }
    } else if chars[i as int] == '}' && at(chars, i + 1, '}') {
        template_body(chars, i + 2, quote, triple, raw, chunks, text.push('}'))
    } else if chars[i as int] == '\n' && !triple {
        Err((i, TextFault::Open))
    } else if chars[i as int] == '\\' && !raw {
        match escape(chars, i + 1) {
            Ok((j, c)) => if i < j <= chars.len() {
                template_body(chars, j, quote, triple, raw, chunks, text.push(c))
            } else {
                Err((i, TextFault::Open))
            },
            Err(fault) => Err(fault),
        }
    } else {
        template_body(chars, i + 1, quote, triple, raw, chunks, text.push(chars[i as int]))
    }
}

/// The punctuation at index `i`, longest match first: its width and its token.
/// Brackets are not among these.
pub open spec fn symbol(chars: Seq<char>, i: nat) -> Option<(nat, Token)> {
    let c = chars[i as int];
    if c == '&' {
        Some((1, Token::Amp))
    } else if c == '^' {
        Some((1, Token::Caret))
    } else if c == ':' {
        if at(chars, i + 1, '=') {
            Some((2, Token::ColonEq))
        } else {
            Some((1, Token::Colon))
        }
    } else if c == ',' {
        Some((1, Token::Comma))
    } else if c == ';' {
        Some((1, Token::Semicolon))
    } else if c == '.' {
        if at(chars, i + 1, '.') && at(chars, i + 2, '.') {
            Some((3, Token::Ellipsis))
        } else {
            Some((1, Token::Dot))
        }
    } else if c == '@' {
        Some((1, Token::At))
    } else if c == '=' {
        if at(chars, i + 1, '=') {
            Some((2, Token::EqEq))
        } else {
            Some((1, Token::Assign))
        }
    } else if c == '-' {
        if at(chars, i + 1, '>') {
            Some((2, Token::Arrow))
        } else if at(chars, i + 1, '=') {
            Some((2, Token::MinusEq))
        } else {
            Some((1, Token::Minus))
        }
    } else if c == '+' {
        if at(chars, i + 1, '=') {
            Some((2, Token::PlusEq))
        } else {
            Some((1, Token::Plus))
        }
    } else if c == '*' {
        if at(chars, i + 1, '*') && at(chars, i + 2, '=') {
            Some((3, Token::DoubleStarEq))
        } else if at(chars, i + 1, '*') {
            Some((2, Token::DoubleStar))
        } else if at(chars, i + 1, '=') {
            Some((2, Token::StarEq))
        } else {
            Some((1, Token::Star))
        }
    } else if c == '/' {
        if at(chars, i + 1, '/') && at(chars, i + 2, '=') {
            Some((3, Token::DoubleSlashEq))
        } else if at(chars, i + 1, '/') {
            Some((2, Token::DoubleSlash))
        } else if at(chars, i + 1, '=') {
            Some((2, Token::SlashEq))
        } else {
            Some((1, Token::Slash))
        }
    } else if c == '%' {
        if at(chars, i + 1, '=') {
            Some((2, Token::PercentEq))
        } else {
            Some((1, Token::Percent))
        }
    } else if c == '<' {
        if at(chars, i + 1, '=') {
            Some((2, Token::Le))
        } else {
            Some((1, Token::Lt))
        }
    } else if c == '>' {
        if at(chars, i + 1, '=') {
            Some((2, Token::Ge))
        } else {
            Some((1, Token::Gt))
        }
    } else if c == '!' && at(chars, i + 1, '=') {
        Some((2, Token::NotEq))
    } else {
        None
    }
}

/// The radix a literal's prefix at index `i` selects (`0x`, `0o`, `0b`).
pub open spec fn radix_prefix(chars: Seq<char>, i: nat) -> Option<nat> {
    if !at(chars, i, '0') {
        None
    } else if at(chars, i + 1, 'x') || at(chars, i + 1, 'X') {
        Some(16)
    } else if at(chars, i + 1, 'o') || at(chars, i + 1, 'O') {
        Some(8)
    } else if at(chars, i + 1, 'b') || at(chars, i + 1, 'B') {
        Some(2)
    } else {
        None
    }
}

/// The number literal at index `i`: where it ends, and the token, or nothing
/// when the integer does not fit.
pub open spec fn number(chars: Seq<char>, i: nat) -> (nat, Option<TokenView>) {
    match radix_prefix(chars, i) {
        Some(radix) => {
            let end = digit_run_end(chars, i + 2, radix);
            (end, match int_of(stripped(chars, i + 2, end), radix) {
                Some(n) => Some(TokenView::Int(n)),
                None => None,
            })
        },
        None => {
            let whole = digit_run_end(chars, i, 10);
            let dotted = at(chars, whole, '.') && digit_at(chars, whole + 1, 10);
            let fraction = if dotted {
                digit_run_end(chars, whole + 1, 10)
            } else {
                whole
            };
            match exponent_end(chars, fraction) {
                Some(end) => (end, Some(TokenView::Float(stripped(chars, i, end)))),
                None => if dotted {
                    (fraction, Some(TokenView::Float(stripped(chars, i, fraction))))
                } else {
                    (fraction, match int_of(stripped(chars, i, fraction), 10) {
                        Some(n) => Some(TokenView::Int(n)),
                        None => None,
                    })
                },
            }
        },
    }
}

/// The lexer's state between tokens.
#[verifier::ext_equal]
pub struct ScanState {
    /// Characters consumed.
    pub at: nat,
    /// Open indentation widths, outermost first.
    pub indents: Seq<usize>,
    /// Open parentheses and brackets.
    pub depth: nat,
    pub line_start: bool,
    pub ended: bool,
}

pub type Spanned = (TokenView, Span);

/// What one scan does: skip text, produce tokens, fail (tokens produced before
/// the failure come with it), or find that the end was already reported.
#[verifier::ext_equal]
pub enum Scan {
    Skip(ScanState),
    Emit(ScanState, Seq<Spanned>),
    Fail(ScanState, Seq<Spanned>, LexError),
    Done,
}

pub open spec fn plain(chars: Seq<char>, token: Token, from: nat, to: nat) -> Spanned {
    (TokenView::Plain(token), (off(chars, from), off(chars, to)))
}

pub open spec fn repeated(item: Spanned, n: nat) -> Seq<Spanned> {
    Seq::new(n, |i: int| item)
}

/// The indentation stack with every width above `spaces` removed.
pub open spec fn outer_indents(indents: Seq<usize>, spaces: nat) -> Seq<usize>
    decreases indents.len(),
{
    if indents.len() > 0 && indents.last() > spaces {
        outer_indents(indents.drop_last(), spaces)
    } else {
        indents
    }
}

/// The end of the text: a line left open is closed, then every block, then `Eof`.
pub open spec fn end_of_text(chars: Seq<char>, s: ScanState) -> Scan {
    let newline = if s.line_start {
        Seq::empty()
    } else {
        seq![plain(chars, Token::Newline, s.at, s.at)]
    };
    let dedents = repeated(
        plain(chars, Token::Dedent, s.at, s.at),
        (s.indents.len() - 1) as nat,
    );
    Scan::Emit(
        ScanState { indents: s.indents.take(1), ended: true, ..s },
        newline + dedents + seq![plain(chars, Token::Eof, s.at, s.at)],
    )
}

/// The failure or the token of quoted text that begins at `open`.
pub open spec fn text_fault(chars: Seq<char>, open: nat, fault: (nat, TextFault)) -> LexError {
    match fault.1 {
        TextFault::Open => LexError::UnterminatedString(off(chars, open)),
        TextFault::Escape(c) => LexError::InvalidEscape(c, off(chars, fault.0)),
    }
}

/// A scan of the template string whose quote is at index `i`.
pub open spec fn scan_template(chars: Seq<char>, s: ScanState, start: nat, i: nat, raw: bool) -> Scan {
    let quote = chars[i as int];
    let triple = quoted(chars, i, quote, true);
    match template_body(
        chars,
        i + quote_width(triple),
        quote,
        triple,
        raw,
        Seq::empty(),
        Seq::empty(),
    ) {
        Ok((end, chunks)) => Scan::Emit(
            ScanState { at: end, ..s },
            seq![(TokenView::Template(chunks, raw), (off(chars, start), off(chars, end)))],
        ),
        Err(fault) => Scan::Fail(
            ScanState { at: fault.0, ..s },
            Seq::empty(),
            text_fault(chars, i, fault),
        ),
    }
}

/// A scan of the string literal at the current position.
pub open spec fn scan_string(chars: Seq<char>, s: ScanState, start: nat) -> Scan {
    let quote = chars[s.at as int];
    let triple = quoted(chars, s.at, quote, true);
    match string_body(chars, s.at + quote_width(triple), quote, triple, Seq::empty()) {
        Ok((end, text)) => Scan::Emit(
            ScanState { at: end, ..s },
            seq![(TokenView::Text(text), (off(chars, start), off(chars, end)))],
        ),
        Err(fault) => Scan::Fail(
            ScanState { at: fault.0, ..s },
            Seq::empty(),
            text_fault(chars, s.at, fault),
        ),
    }
}

/// A scan of the word at the current position: a template prefix, a keyword or
/// an identifier.
pub open spec fn scan_word(chars: Seq<char>, s: ScanState, start: nat) -> Scan {
    let end = word_end(chars, s.at);
    let word = chars.subrange(s.at as int, end as int);
    let quote_follows = at(chars, end, '"') || at(chars, end, '\'');
    if word == "t"@ && quote_follows {
        scan_template(chars, s, start, end, false)
    } else if word == "rt"@ && quote_follows {
        scan_template(chars, s, start, end, true)
    } else {
        let token = match keyword_of(word) {
            Some(keyword) => TokenView::Plain(keyword),
            None => TokenView::Name(word),
        };
        Scan::Emit(
            ScanState { at: end, ..s },
            seq![(token, (off(chars, start), off(chars, end)))],
        )
    }
}

/// A scan of the number at the current position.
pub open spec fn scan_number(chars: Seq<char>, s: ScanState, start: nat) -> Scan {
    let (end, token) = number(chars, s.at);
    match token {
        Some(t) => Scan::Emit(
            ScanState { at: end, ..s },
            seq![(t, (off(chars, start), off(chars, end)))],
        ),
        None => Scan::Fail(
            ScanState { at: end, ..s },
            Seq::empty(),
            LexError::InvalidInteger(off(chars, s.at)),
        ),
    }
}

/// A scan of whatever stands at the current position. `start` is where the
/// token's span begins.
pub open spec fn scan_token(chars: Seq<char>, s: ScanState, start: nat) -> Scan {
    if s.at >= chars.len() {
        Scan::Skip(s)
    } else {
        let c = chars[s.at as int];
        if c == ' ' || c == '\t' || c == '\r' {
            Scan::Skip(ScanState { at: s.at + 1, ..s })
        } else if c == '#' {
            Scan::Skip(ScanState { at: line_end(chars, s.at), ..s })
        } else if c == '\n' {
            let next = ScanState { at: s.at + 1, ..s };
            if s.depth == 0 {
                Scan::Emit(
                    ScanState { line_start: true, ..next },
                    seq![plain(chars, Token::Newline, start, s.at + 1)],
                )
            } else {
                Scan::Skip(next)
            }
        } else if c == '\\' {
            if at(chars, s.at + 1, '\r') && at(chars, s.at + 2, '\n') {
                Scan::Skip(ScanState { at: s.at + 3, ..s })
            } else if at(chars, s.at + 1, '\n') {
                Scan::Skip(ScanState { at: s.at + 2, ..s })
            } else {
                Scan::Fail(
                    s,
                    Seq::empty(),
                    LexError::UnexpectedCharacter('\\', off(chars, s.at)),
                )
            }
        } else if c == '(' || c == '[' {
            Scan::Emit(
                ScanState { at: s.at + 1, depth: s.depth + 1, ..s },
                seq![
                    plain(
                        chars,
                        if c == '(' {
                            Token::LParen
                        } else {
                            Token::LBracket
                        },
                        start,
                        s.at + 1,
                    ),
                ],
            )
        } else if c == ')' || c == ']' {
            if s.depth > 0 {
                Scan::Emit(
                    ScanState { at: s.at + 1, depth: (s.depth - 1) as nat, ..s },
                    seq![
                        plain(
                            chars,
                            if c == ')' {
                                Token::RParen
                            } else {
                                Token::RBracket
                            },
                            start,
                            s.at + 1,
                        ),
                    ],
                )
            } else {
                Scan::Fail(
                    ScanState { at: s.at + 1, ..s },
                    Seq::empty(),
                    LexError::UnmatchedParenthesis(off(chars, s.at + 1)),
                )
            }
        } else if symbol(chars, s.at) is Some {
            let (width, token) = symbol(chars, s.at)->0;
            Scan::Emit(
                ScanState { at: s.at + width, ..s },
                seq![plain(chars, token, start, s.at + width)],
            )
        } else if c == '"' || c == '\'' {
            scan_string(chars, s, start)
        } else if is_word_start(c) {
            scan_word(chars, s, start)
        } else if '0' <= c && c <= '9' {
            scan_number(chars, s, start)
        } else {
            Scan::Fail(s, Seq::empty(), LexError::UnexpectedCharacter(c, off(chars, s.at)))
        }
    }
}

/// Whether a line whose spaces end at index `i` holds no token.
pub open spec fn blank_from(chars: Seq<char>, i: nat) -> bool {
    i >= chars.len() || at(chars, i, '\n') || at(chars, i, '\r') || at(chars, i, '#')
}

/// A scan at the start of a line: blank and comment lines are passed over, and
/// outside brackets the indentation is compared with the open blocks.
pub open spec fn scan_line_start(chars: Seq<char>, s: ScanState) -> Scan {
    let text = spaces_end(chars, s.at);
    let spaces = (text - s.at) as nat;
    if blank_from(chars, text) {
        let end = line_end(chars, text);
        Scan::Skip(
            ScanState {
                at: if end < chars.len() {
                    end + 1
                } else {
                    end
                },
                ..s
            },
        )
    } else {
        let t = ScanState { at: text, line_start: false, ..s };
        if s.depth > 0 || spaces == s.indents.last() {
            scan_token(chars, t, text)
        } else if spaces > s.indents.last() {
            Scan::Emit(
                ScanState { indents: s.indents.push(spaces as usize), ..t },
                seq![plain(chars, Token::Indent, s.at, text)],
            )
        } else {
            let outer = outer_indents(s.indents, spaces);
            let dedents = repeated(
                plain(chars, Token::Dedent, s.at, text),
                (s.indents.len() - outer.len()) as nat,
            );
            let u = ScanState { indents: outer, ..t };
            if outer.len() > 0 && outer.last() == spaces {
                Scan::Emit(u, dedents)
            } else {
                Scan::Fail(u, dedents, LexError::IndentationError(off(chars, text)))
            }
        }
    }
}

/// One scan from a state with no tokens pending.
pub open spec fn scan(chars: Seq<char>, s: ScanState) -> Scan {
    if s.ended {
        Scan::Done
    } else if s.at >= chars.len() {
        end_of_text(chars, s)
    } else if s.line_start {
        scan_line_start(chars, s)
    } else {
        scan_token(chars, s, s.at)
    }
}

/// Scans until something other than skipped text is found.
pub open spec fn settle(chars: Seq<char>, s: ScanState) -> Scan
    decreases chars.len() - s.at,
{
    match scan(chars, s) {
        Scan::Skip(t) => if s.at < t.at <= chars.len() {
            settle(chars, t)
        } else {
            Scan::Done
        },
        other => other,
    }
}

/// The state in which a text is opened.
pub open spec fn initial() -> ScanState {
    ScanState { at: 0, indents: seq![0usize], depth: 0, line_start: true, ended: false }
}

/// The states that scanning passes through.
pub open spec fn valid(chars: Seq<char>, s: ScanState) -> bool {
    &&& s.at <= chars.len()
    &&& s.indents.len() >= 1
    &&& s.indents[0] == 0
    &&& s.depth <= s.at
}

/// A measure of what is left to scan.
pub open spec fn rank(chars: Seq<char>, s: ScanState) -> nat {
    if s.ended {
        0
    } else {
        (2 * (chars.len() - s.at) + 1 + if s.line_start {
            1int
        } else {
            0int
        }) as nat
    }
}

/// All tokens from a state on, or the first failure.
pub open spec fn tokens_from(chars: Seq<char>, s: ScanState) -> Result<Seq<Spanned>, LexError>
    decreases rank(chars, s),
{
    match settle(chars, s) {
        Scan::Emit(t, tokens) => if rank(chars, t) < rank(chars, s) {
            match tokens_from(chars, t) {
                Ok(rest) => Ok(tokens + rest),
                Err(e) => Err(e),
            }
        } else {
            Ok(tokens)
        },
        Scan::Fail(_, _, e) => Err(e),
        _ => Ok(Seq::empty()),
    }
}


pub(crate) proof fn line_end_bounds(chars: Seq<char>, i: nat)
    requires
        i <= chars.len(),
    ensures
        i <= line_end(chars, i) <= chars.len(),
        line_end(chars, i) < chars.len() ==> chars[line_end(chars, i) as int] == '\n',
    decreases chars.len() - i,
{
    if i < chars.len() && chars[i as int] != '\n' {
        line_end_bounds(chars, i + 1);
    }
}

pub(crate) proof fn spaces_end_bounds(chars: Seq<char>, i: nat)
    requires
        i <= chars.len(),
    ensures
        i <= spaces_end(chars, i) <= chars.len(),
        !at(chars, spaces_end(chars, i), ' '),
    decreases chars.len() - i,
{
    if at(chars, i, ' ') {
        spaces_end_bounds(chars, i + 1);
    }
}

pub(crate) proof fn digits_end_bounds(chars: Seq<char>, i: nat)
    requires
        i <= chars.len(),
    ensures
        i <= digits_end(chars, i) <= chars.len(),
    decreases chars.len() - i,
{
    if digit_at(chars, i, 10) {
        digits_end_bounds(chars, i + 1);
    }
}

pub(crate) proof fn begun_run_end_bounds(chars: Seq<char>, i: nat, radix: nat)
    requires
        i <= chars.len(),
    ensures
        i <= begun_run_end(chars, i, radix) <= chars.len(),
    decreases chars.len() - i,
{
    if digit_at(chars, i, radix) || (at(chars, i, '_') && digit_at(chars, i + 1, radix)) {
        begun_run_end_bounds(chars, i + 1, radix);
    }
}

pub proof fn digit_run_end_bounds(chars: Seq<char>, i: nat, radix: nat)
    requires
        i <= chars.len(),
    ensures
        i <= digit_run_end(chars, i, radix) <= chars.len(),
        digit_at(chars, i, radix) ==> i < digit_run_end(chars, i, radix),
{
    if digit_at(chars, i, radix) {
        begun_run_end_bounds(chars, i + 1, radix);
    }
}

pub(crate) proof fn word_end_bounds(chars: Seq<char>, i: nat)
    requires
        i <= chars.len(),
    ensures
        i <= word_end(chars, i) <= chars.len(),
    decreases chars.len() - i,
{
    if i < chars.len() && is_word_char(chars[i as int]) {
        word_end_bounds(chars, i + 1);
    }
}

pub proof fn code_digits_bounds(chars: Seq<char>, i: nat, n: nat, radix: nat, code: nat)
    requires
        i <= chars.len(),
    ensures
        match code_digits(chars, i, n, radix, code) {
            Ok((end, _)) => end == i + n && end <= chars.len(),
            Err((end, _)) => i <= end <= chars.len(),
        },
    decreases n,
{
    if n > 0 && i < chars.len() {
        match digit_value(chars[i as int], radix) {
            Some(d) => code_digits_bounds(chars, i + 1, (n - 1) as nat, radix, code * radix + d),
            None => {},
        }
    }
}

pub proof fn escape_bounds(chars: Seq<char>, i: nat)
    requires
        i <= chars.len(),
    ensures
        match escape(chars, i) {
            Ok((end, _)) => i < end <= chars.len(),
            Err((end, _)) => i <= end <= chars.len(),
        },
{
    if i < chars.len() {
        code_digits_bounds(chars, i + 1, 2, 16, 0);
        code_digits_bounds(chars, i + 1, 4, 16, 0);
        code_digits_bounds(chars, i + 1, 8, 16, 0);
        code_digits_bounds(chars, i, 3, 8, 0);
    }
}

pub proof fn string_body_bounds(
    chars: Seq<char>,
    i: nat,
    quote: char,
    triple: bool,
    text: Seq<char>,
)
    requires
        i <= chars.len(),
    ensures
        match string_body(chars, i, quote, triple, text) {
            Ok((end, _)) => i < end <= chars.len(),
            Err((end, _)) => i <= end <= chars.len(),
        },
    decreases chars.len() - i,
{
    if quoted(chars, i, quote, triple) || i >= chars.len() {
    } else if chars[i as int] == '\n' && !triple {
    } else if chars[i as int] == '\\' {
        escape_bounds(chars, i + 1);
        match escape(chars, i + 1) {
            Ok((j, c)) => string_body_bounds(chars, j, quote, triple, text.push(c)),
            Err(_) => {},
        }
    } else {
        string_body_bounds(chars, i + 1, quote, triple, text.push(chars[i as int]));
    }
}

pub proof fn interpolation_end_bounds(chars: Seq<char>, i: nat, depth: nat)
    requires
        i <= chars.len(),
    ensures
        interpolation_end(chars, i, depth) matches Some(end) ==> i <= end < chars.len(),
    decreases chars.len() - i,
{
    if i < chars.len() {
        if chars[i as int] == '{' {
            interpolation_end_bounds(chars, i + 1, depth + 1);
        } else if chars[i as int] == '}' {
            if depth > 1 {
                interpolation_end_bounds(chars, i + 1, (depth - 1) as nat);
            }
        } else {
            interpolation_end_bounds(chars, i + 1, depth);
        }
    }
}

pub proof fn template_body_bounds(
    chars: Seq<char>,
    i: nat,
    quote: char,
    triple: bool,
    raw: bool,
    chunks: Seq<ChunkView>,
    text: Seq<char>,
)
    requires
        i <= chars.len(),
    ensures
        match template_body(chars, i, quote, triple, raw, chunks, text) {
            Ok((end, _)) => i < end <= chars.len(),
            Err((end, _)) => i <= end <= chars.len(),
        },
    decreases chars.len() - i,
{
    if quoted(chars, i, quote, triple) || i >= chars.len() {
    } else if chars[i as int] == '{' && at(chars, i + 1, '{') {
        template_body_bounds(chars, i + 2, quote, triple, raw, chunks, text.push('{'));
    } else if chars[i as int] == '{' {
        interpolation_end_bounds(chars, i + 1, 1);
        match interpolation_end(chars, i + 1, 1) {
            Some(e) => template_body_bounds(
                chars,
                e + 1,
                quote,
                triple,
                raw,
                flushed(chunks, text).push(
                    ChunkView::Interp(chars.subrange(i as int + 1, e as int)),
                ),
                Seq::empty(),
            ),
            None => {},
        }
    } else if chars[i as int] == '}' && at(chars, i + 1, '}') {
        template_body_bounds(chars, i + 2, quote, triple, raw, chunks, text.push('}'));
    } else if chars[i as int] == '\n' && !triple {
    } else if chars[i as int] == '\\' && !raw {
        escape_bounds(chars, i + 1);
        match escape(chars, i + 1) {
            Ok((j, c)) => template_body_bounds(
                chars,
                j,
                quote,
                triple,
                raw,
                chunks,
                text.push(c),
            ),
            Err(_) => {},
        }
    } else {
        template_body_bounds(
            chars,
            i + 1,
            quote,
            triple,
            raw,
            chunks,
            text.push(chars[i as int]),
        );
    }
}

pub(crate) proof fn exponent_end_bounds(chars: Seq<char>, i: nat)
    requires
        i <= chars.len(),
    ensures
        exponent_end(chars, i) matches Some(end) ==> i < end <= chars.len(),
{
    if i + 2 <= chars.len() {
        digits_end_bounds(chars, i + 2);
    }
    if i + 1 <= chars.len() {
        digits_end_bounds(chars, i + 1);
    }
}

pub(crate) proof fn number_bounds(chars: Seq<char>, i: nat)
    requires
        digit_at(chars, i, 10),
    ensures
        i < number(chars, i).0 <= chars.len(),
{
    match radix_prefix(chars, i) {
        Some(radix) => digit_run_end_bounds(chars, i + 2, radix),
        None => {
            digit_run_end_bounds(chars, i, 10);
            let whole = digit_run_end(chars, i, 10);
            let dotted = at(chars, whole, '.') && digit_at(chars, whole + 1, 10);
            if dotted {
                digit_run_end_bounds(chars, whole + 1, 10);
                exponent_end_bounds(chars, digit_run_end(chars, whole + 1, 10));
            } else {
                exponent_end_bounds(chars, whole);
            }
        },
    }
}

pub proof fn outer_indents_prefix(indents: Seq<usize>, spaces: nat)
    requires
        indents.len() >= 1,
        indents[0] == 0,
    ensures
        1 <= outer_indents(indents, spaces).len() <= indents.len(),
        outer_indents(indents, spaces) == indents.take(outer_indents(indents, spaces).len() as int),
        outer_indents(indents, spaces).last() <= spaces,
        indents.last() > spaces ==> outer_indents(indents, spaces).len() < indents.len(),
    decreases indents.len(),
{
    if indents.last() > spaces {
        outer_indents_prefix(indents.drop_last(), spaces);
        let outer = outer_indents(indents, spaces);
        assert(indents.drop_last().take(outer.len() as int) =~= indents.take(outer.len() as int));
    } else {
        assert(indents.take(indents.len() as int) =~= indents);
    }
}

/// How far a run of tokens moves the block level: one in for each `Indent`, one
/// out for each `Dedent`.
pub open spec fn level(tokens: Seq<Spanned>) -> int
    decreases tokens.len(),
{
    if tokens.len() == 0 {
        0
    } else {
        level(tokens.drop_last()) + (if tokens.last().0 == TokenView::Plain(Token::Indent) {
            1int
        } else if tokens.last().0 == TokenView::Plain(Token::Dedent) {
            -1int
        } else {
            0int
        })
    }
}

pub(crate) proof fn level_concat(a: Seq<Spanned>, b: Seq<Spanned>)
    ensures
        level(a + b) == level(a) + level(b),
    decreases b.len(),
{
    if b.len() == 0 {
        assert(a + b =~= a);
    } else {
        assert((a + b).drop_last() =~= a + b.drop_last());
        level_concat(a, b.drop_last());
    }
}

pub(crate) proof fn level_repeated(item: Spanned, n: nat)
    requires
        item.0 == TokenView::Plain(Token::Dedent),
    ensures
        level(repeated(item, n)) == -(n as int),
    decreases n,
{
    if n > 0 {
        assert(repeated(item, n).drop_last() =~= repeated(item, (n - 1) as nat));
        level_repeated(item, (n - 1) as nat);
    }
}

pub(crate) proof fn level_single(item: Spanned)
    ensures
        level(seq![item]) == (if item.0 == TokenView::Plain(Token::Indent) {
            1int
        } else if item.0 == TokenView::Plain(Token::Dedent) {
            -1int
        } else {
            0int
        }),
{
    assert(seq![item].drop_last() =~= Seq::<Spanned>::empty());
    assert(level(Seq::<Spanned>::empty()) == 0);
}

/// Whether every token's span runs from `from` to `to`.
pub open spec fn all_span(chars: Seq<char>, tokens: Seq<Spanned>, from: nat, to: nat) -> bool {
    forall|k: int|
        0 <= k < tokens.len() ==> (#[trigger] tokens[k]).1 == (off(chars, from), off(chars, to))
}

/// Whether `Eof` stands at the end of the tokens exactly when `ended`, and
/// nowhere else.
pub open spec fn eof_last(tokens: Seq<Spanned>, ended: bool) -> bool {
    &&& tokens.len() > 0
    &&& ended == (tokens.last().0 == TokenView::Plain(Token::Eof))
    &&& forall|k: int|
        0 <= k < tokens.len() - 1 ==> (#[trigger] tokens[k]).0 != TokenView::Plain(Token::Eof)
}

/// What a scan step keeps.
pub open spec fn step_ok(chars: Seq<char>, s: ScanState, from: nat, r: Scan) -> bool {
    match r {
        Scan::Skip(t) => {
            &&& valid(chars, t)
            &&& s.at < t.at
            &&& t.indents == s.indents
            &&& !t.ended
        },
        Scan::Emit(t, tokens) => {
            &&& valid(chars, t)
            &&& s.at <= t.at
            &&& rank(chars, t) < rank(chars, s)
            &&& level(tokens) == t.indents.len() - s.indents.len()
            &&& eof_last(tokens, t.ended)
            &&& all_span(chars, tokens, from, t.at)
            &&& t.ended ==> t.indents.len() == 1
        },
        Scan::Fail(t, tokens, _) => {
            &&& valid(chars, t)
            &&& s.at <= t.at
            &&& !t.ended
        },
        Scan::Done => s.ended,
    }
}

proof fn scan_word_keeps(chars: Seq<char>, s: ScanState, start: nat)
    requires
        valid(chars, s),
        !s.ended,
        start <= s.at < chars.len(),
        is_word_start(chars[s.at as int]),
    ensures
        step_ok(chars, s, start, scan_word(chars, s, start)),
{
    word_end_bounds(chars, s.at + 1);
    let end = word_end(chars, s.at);
    assert(end == word_end(chars, s.at + 1));
    let word = chars.subrange(s.at as int, end as int);
    if at(chars, end, '"') || at(chars, end, '\'') {
        let quote = chars[end as int];
        let triple = quoted(chars, end, quote, true);
        template_body_bounds(
            chars,
            end + quote_width(triple),
            quote,
            triple,
            false,
            Seq::empty(),
            Seq::empty(),
        );
        template_body_bounds(
            chars,
            end + quote_width(triple),
            quote,
            triple,
            true,
            Seq::empty(),
            Seq::empty(),
        );
    }
    match scan_word(chars, s, start) {
        Scan::Emit(t, tokens) => level_single(tokens[0]),
        _ => {},
    }
}

proof fn scan_token_keeps(chars: Seq<char>, s: ScanState, start: nat)
    requires
        valid(chars, s),
        !s.ended,
        start <= s.at < chars.len(),
    ensures
        step_ok(chars, s, start, scan_token(chars, s, start)),
{
    let c = chars[s.at as int];
    line_end_bounds(chars, s.at);
    if c == '#' {
        line_end_bounds(chars, s.at + 1);
    }
    if c == '"' || c == '\'' {
        let triple = quoted(chars, s.at, c, true);
        string_body_bounds(chars, s.at + quote_width(triple), c, triple, Seq::empty());
    }
    if is_word_start(c) {
        scan_word_keeps(chars, s, start);
    }
    if '0' <= c && c <= '9' {
        number_bounds(chars, s.at);
    }
    match scan_token(chars, s, start) {
        Scan::Emit(t, tokens) => level_single(tokens[0]),
        _ => {},
    }
}

pub(crate) proof fn scan_keeps(chars: Seq<char>, s: ScanState) -> (from: nat)
    requires
        valid(chars, s),
    ensures
        s.at <= from,
        step_ok(chars, s, from, scan(chars, s)),
        scan(chars, s) matches Scan::Emit(t, _) ==> from <= t.at,
{
    if s.ended {
        s.at
    } else if s.at >= chars.len() {
        let newline = if s.line_start {
            Seq::empty()
        } else {
            seq![plain(chars, Token::Newline, s.at, s.at)]
        };
        let item = plain(chars, Token::Dedent, s.at, s.at);
        let dedents = repeated(item, (s.indents.len() - 1) as nat);
        let eof = seq![plain(chars, Token::Eof, s.at, s.at)];
        level_concat(newline + dedents, eof);
        level_concat(newline, dedents);
        level_repeated(item, (s.indents.len() - 1) as nat);
        level_single(plain(chars, Token::Eof, s.at, s.at));
        level_single(plain(chars, Token::Newline, s.at, s.at));
        assert(level(Seq::<Spanned>::empty()) == 0);
        assert((newline + dedents + eof).last() == eof[0]);
        s.at
    } else if s.line_start {
        spaces_end_bounds(chars, s.at);
        let text = spaces_end(chars, s.at);
        let spaces = (text - s.at) as nat;
        let t = ScanState { at: text, line_start: false, ..s };
        if blank_from(chars, text) {
            line_end_bounds(chars, text);
            if text < chars.len() && !at(chars, text, '\n') {
                line_end_bounds(chars, text + 1);
            }
            s.at
        } else if s.depth > 0 || spaces == s.indents.last() {
            scan_token_keeps(chars, t, text);
            text
        } else if spaces > s.indents.last() {
            level_single(plain(chars, Token::Indent, s.at, text));
            s.at
        } else {
            outer_indents_prefix(s.indents, spaces);
            let outer = outer_indents(s.indents, spaces);
            level_repeated(
                plain(chars, Token::Dedent, s.at, text),
                (s.indents.len() - outer.len()) as nat,
            );
            s.at
        }
    } else {
        scan_token_keeps(chars, s, s.at);
        s.at
    }
}

/// Every state that settling reaches is valid, and text is only ever consumed.
pub proof fn settle_keeps(chars: Seq<char>, s: ScanState) -> (from: nat)
    requires
        valid(chars, s),
    ensures
        s.at <= from,
        step_ok(chars, s, from, settle(chars, s)),
        !(settle(chars, s) is Skip),
        settle(chars, s) matches Scan::Emit(t, _) ==> from <= t.at,
    decreases chars.len() - s.at,
{
    let from = scan_keeps(chars, s);
    match scan(chars, s) {
        Scan::Skip(t) => settle_keeps(chars, t),
        _ => from,
    }
}

/// Whether spans are ordered: each is a range, and none starts or ends before
/// the one in front of it.
pub open spec fn spans_ordered(tokens: Seq<Spanned>) -> bool {
    &&& forall|i: int| 0 <= i < tokens.len() ==> (#[trigger] tokens[i]).1.0 <= tokens[i].1.1
    &&& forall|i: int, j: int|
        0 <= i < j < tokens.len() ==> (#[trigger] tokens[i]).1.0 <= (#[trigger] tokens[j]).1.0
            && tokens[i].1.1 <= tokens[j].1.1
}

pub open spec fn spans_within(tokens: Seq<Spanned>, from: usize, to: usize) -> bool {
    forall|i: int|
        0 <= i < tokens.len() ==> from <= (#[trigger] tokens[i]).1.0 && tokens[i].1.1 <= to
            && tokens[i].1.0 <= to && from <= tokens[i].1.1
}

proof fn tokens_from_laws(chars: Seq<char>, s: ScanState)
    requires
        valid(chars, s),
        !s.ended,
        byte_offset(chars, chars.len()) <= usize::MAX,
    ensures
        tokens_from(chars, s) matches Ok(tokens) ==> {
            &&& eof_last(tokens, true)
            &&& level(tokens) == 1 - s.indents.len()
            &&& spans_ordered(tokens)
            &&& spans_within(tokens, off(chars, s.at), off(chars, chars.len()))
        },
    decreases rank(chars, s),
{
    let from = settle_keeps(chars, s);
    match settle(chars, s) {
        Scan::Emit(t, tokens) => {
            byte_offset_monotone(chars, s.at, from);
            byte_offset_monotone(chars, from, t.at);
            byte_offset_monotone(chars, t.at, chars.len());
            if t.ended {
                assert(settle(chars, t) == Scan::Done);
                assert(tokens_from(chars, t) == Ok::<Seq<Spanned>, LexError>(Seq::empty()));
                assert(tokens + Seq::<Spanned>::empty() =~= tokens);
            } else {
                tokens_from_laws(chars, t);
                match tokens_from(chars, t) {
                    Ok(rest) => {
                        level_concat(tokens, rest);
                        let all = tokens + rest;
                        assert(all.last() == rest.last());
                        assert forall|k: int| 0 <= k < all.len() - 1 implies (#[trigger] all[k]).0
                            != TokenView::Plain(Token::Eof) by {
                            if k < tokens.len() {
                                assert(all[k] == tokens[k]);
                            } else {
                                assert(all[k] == rest[k - tokens.len()]);
                            }
                        }
                        assert forall|i: int, j: int| 0 <= i < j < all.len() implies (
                        #[trigger] all[i]).1.0 <= (#[trigger] all[j]).1.0 && all[i].1.1
                            <= all[j].1.1 by {
                            if j < tokens.len() {
                                assert(all[i] == tokens[i] && all[j] == tokens[j]);
                            } else if i < tokens.len() {
                                assert(all[i] == tokens[i]);
                                assert(all[j] == rest[j - tokens.len()]);
                            } else {
                                assert(all[i] == rest[i - tokens.len()]);
                                assert(all[j] == rest[j - tokens.len()]);
                            }
                        }
                    },
                    Err(_) => {},
                }
            }
        },
        _ => {},
    }
}

/// A text that lexes gives a token stream that ends with its only `Eof`, opens
/// exactly as many blocks as it closes, and whose spans are ranges of the text in
/// source order.
pub proof fn token_stream_is_well_formed(chars: Seq<char>)
    requires
        byte_offset(chars, chars.len()) <= usize::MAX,
    ensures
        tokens_from(chars, initial()) matches Ok(tokens) ==> {
            &&& eof_last(tokens, true)
            &&& level(tokens) == 0
            &&& spans_ordered(tokens)
            &&& spans_within(tokens, 0, off(chars, chars.len()))
        },
{
    tokens_from_laws(chars, initial());
    assert(byte_offset(chars, 0) == 0);
}

} // verus!
