//! What tokens look like in a source text, and how numbers are read and written.

use crate::scan::{
    at, begun_run_end, digit_value, number, numeral, simple_escape, stripped, symbol,
};
use crate::text::{decimal, digit_char, signed_decimal};
use crate::token::{keyword_of, Token, TokenView};
use vstd::prelude::*;

verus! {

/// How a punctuation token is written.
pub open spec fn spelling(token: Token) -> Seq<char> {
    match token {
        Token::Amp => seq!['&'],
        Token::Caret => seq!['^'],
        Token::ColonEq => seq![':', '='],
        Token::Colon => seq![':'],
        Token::Comma => seq![','],
        Token::Semicolon => seq![';'],
        Token::Ellipsis => seq!['.', '.', '.'],
        Token::Dot => seq!['.'],
        Token::At => seq!['@'],
        Token::EqEq => seq!['=', '='],
        Token::Assign => seq!['='],
        Token::Arrow => seq!['-', '>'],
        Token::MinusEq => seq!['-', '='],
        Token::Minus => seq!['-'],
        Token::PlusEq => seq!['+', '='],
        Token::Plus => seq!['+'],
        Token::DoubleStarEq => seq!['*', '*', '='],
        Token::DoubleStar => seq!['*', '*'],
        Token::StarEq => seq!['*', '='],
        Token::Star => seq!['*'],
        Token::DoubleSlashEq => seq!['/', '/', '='],
        Token::DoubleSlash => seq!['/', '/'],
        Token::SlashEq => seq!['/', '='],
        Token::Slash => seq!['/'],
        Token::PercentEq => seq!['%', '='],
        Token::Percent => seq!['%'],
        Token::Le => seq!['<', '='],
        Token::Lt => seq!['<'],
        Token::Ge => seq!['>', '='],
        Token::Gt => seq!['>'],
        Token::NotEq => seq!['!', '='],
        _ => Seq::empty(),
    }
}

/// Whether a token is written at an index.
pub open spec fn written_at(chars: Seq<char>, i: nat, token: Token) -> bool {
    &&& spelling(token).len() > 0
    &&& i + spelling(token).len() <= chars.len()
    &&& forall|k: int|
        0 <= k < spelling(token).len() ==> chars[i + k] == #[trigger] spelling(token)[k]
}

/// The punctuation that is found at an index is written there and is the longest that is.
#[verifier::rlimit(40)]
pub proof fn symbols_are_spelled(chars: Seq<char>, i: nat, other: Token)
    requires
        i < chars.len(),
    ensures
        match symbol(chars, i) {
            Some((width, token)) => written_at(chars, i, token) && width == spelling(token).len() && (
            written_at(chars, i, other) ==> spelling(other).len() <= width),
            None => !written_at(chars, i, other),
        },
{
    if written_at(chars, i, other) {
        assert(chars[i as int] == spelling(other)[0]);
        if spelling(other).len() > 1 {
            assert(chars[i as int + 1] == spelling(other)[1]);
        }
        if spelling(other).len() > 2 {
            assert(chars[i as int + 2] == spelling(other)[2]);
        }
    }
}

/// How a keyword is written.
pub open spec fn keyword_text(token: Token) -> Seq<char> {
    match token {
        Token::Def => "def"@,
        Token::Var => "var"@,
        Token::Ref => "ref"@,
        Token::Struct => "struct"@,
        Token::Trait => "trait"@,
        Token::Comptime => "comptime"@,
        Token::If => "if"@,
        Token::Elif => "elif"@,
        Token::Else => "else"@,
        Token::While => "while"@,
        Token::For => "for"@,
        Token::In => "in"@,
        Token::Return => "return"@,
        Token::Pass => "pass"@,
        Token::Break => "break"@,
        Token::Continue => "continue"@,
        Token::Raise => "raise"@,
        Token::Raises => "raises"@,
        Token::Try => "try"@,
        Token::Except => "except"@,
        Token::Finally => "finally"@,
        Token::With => "with"@,
        Token::Import => "import"@,
        Token::From => "from"@,
        Token::As => "as"@,
        Token::And => "and"@,
        Token::Or => "or"@,
        Token::Not => "not"@,
        Token::True => "True"@,
        Token::False => "False"@,
        Token::NoneKeyword => "None"@,
        _ => Seq::empty(),
    }
}

/// A word is read as a keyword only when it is written like it, and every word that is written
/// like a keyword is read as one.
pub proof fn keywords_are_spelled(word: Seq<char>, other: Token)
    ensures
        match keyword_of(word) {
            Some(keyword) => word == keyword_text(keyword),
            None => word.len() == 0 || word != keyword_text(other),
        },
{
}

/// The letter behind a backslash for a character that has one.
pub open spec fn escape_letter(c: char) -> Option<char> {
    match c {
        '"' => Some('"'),
        '\'' => Some('\''),
        '\\' => Some('\\'),
        '\n' => Some('n'),
        '\t' => Some('t'),
        '\r' => Some('r'),
        '\u{07}' => Some('a'),
        '\u{08}' => Some('b'),
        '\u{0C}' => Some('f'),
        '\u{0B}' => Some('v'),
        _ => None,
    }
}

/// A letter behind a backslash stands for the character that it is the letter of.
pub proof fn escapes_are_inverse(letter: char, c: char)
    ensures
        simple_escape(letter) == Some(c) <==> escape_letter(c) == Some(letter),
{
}

proof fn digit_reads_back(d: nat)
    requires
        d < 10,
    ensures
        digit_value(digit_char(d), 10) == Some(d),
        '0' <= digit_char(d) <= '9',
        (digit_char(d) == '0') == (d == 0),
{
}

proof fn decimal_digits(n: nat)
    ensures
        decimal(n).len() > 0,
        forall|k: int| 0 <= k < decimal(n).len() ==> '0' <= #[trigger] decimal(n)[k] <= '9',
        decimal(n)[0] == '0' ==> n == 0,
        n < 10 <==> decimal(n).len() == 1,
        numeral(decimal(n), 10) == n,
    decreases n,
{
    if n < 10 {
        digit_reads_back(n);
        let one = decimal(n);
        assert(one.drop_last() =~= Seq::<char>::empty());
        assert(numeral(Seq::<char>::empty(), 10) == 0);
        assert(one.last() == digit_char(n));
    } else {
        decimal_digits(n / 10);
        digit_reads_back(n % 10);
        let front = decimal(n / 10);
        let all = decimal(n);
        assert(all.drop_last() =~= front);
        assert(all.last() == digit_char(n % 10));
        assert(all[0] == front[0]);
        assert forall|k: int| 0 <= k < all.len() implies '0' <= #[trigger] all[k] <= '9' by {
            if k < front.len() {
                assert(all[k] == front[k]);
            }
        }
    }
}

proof fn run_to_the_end(chars: Seq<char>, i: nat)
    requires
        i <= chars.len(),
        forall|k: int| 0 <= k < chars.len() ==> '0' <= #[trigger] chars[k] <= '9',
    ensures
        begun_run_end(chars, i, 10) == chars.len(),
    decreases chars.len() - i,
{
    if i < chars.len() {
        assert('0' <= chars[i as int] <= '9');
        run_to_the_end(chars, i + 1);
    }
}

proof fn nothing_to_strip(chars: Seq<char>, to: nat)
    requires
        to <= chars.len(),
        forall|k: int| 0 <= k < chars.len() ==> '0' <= #[trigger] chars[k] <= '9',
    ensures
        stripped(chars, 0, to) == chars.take(to as int),
    decreases to,
{
    if to > 0 {
        nothing_to_strip(chars, (to - 1) as nat);
        assert('0' <= chars[to - 1] <= '9');
        assert(chars.take(to - 1).push(chars[to - 1]) =~= chars.take(to as int));
    } else {
        assert(chars.take(0) =~= Seq::<char>::empty());
    }
}

/// A number that is written in decimal is read back as that number.
pub proof fn written_number_is_read(n: nat)
    requires
        n <= i64::MAX,
    ensures
        number(decimal(n), 0) == (decimal(n).len(), Some(TokenView::Int(n as i64))),
{
    let chars = decimal(n);
    decimal_digits(n);
    assert('0' <= chars[0] <= '9');
    if chars.len() > 1 {
        assert('0' <= chars[1] <= '9');
    }
    run_to_the_end(chars, 0);
    run_to_the_end(chars, 1);
    nothing_to_strip(chars, chars.len());
    assert(chars.take(chars.len() as int) =~= chars);
}

/// Different integers are written differently: the text of one says its sign and its digits.
pub proof fn integers_are_written(n: int)
    ensures
        n >= 0 ==> signed_decimal(n) == decimal(n as nat) && numeral(signed_decimal(n), 10) == n,
        n < 0 ==> signed_decimal(n)[0] == '-' && numeral(signed_decimal(n).skip(1), 10) == -n,
{
    reveal_strlit("-");
    if n < 0 {
        decimal_digits((-n) as nat);
        assert(signed_decimal(n).skip(1) =~= decimal((-n) as nat));
    } else {
        decimal_digits(n as nat);
    }
}

} // verus!
