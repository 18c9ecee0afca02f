//! A token list closes no more than it has opened.

use crate::scan::{
    initial, level, level_concat, level_repeated, level_single, outer_indents, outer_indents_prefix,
    plain, rank, repeated, scan, scan_keeps, scan_token, settle, settle_keeps, spaces_end,
    spaces_end_bounds, tokens_from, valid, Scan, ScanState, Spanned,
};
use crate::token::{Token, TokenView};
use vstd::prelude::*;

verus! {

/// How far a token moves the bracket level.
pub open spec fn bracket_step(token: TokenView) -> int {
    if token == TokenView::Plain(Token::LParen) || token == TokenView::Plain(Token::LBracket) {
        1
    } else if token == TokenView::Plain(Token::RParen) || token == TokenView::Plain(
        Token::RBracket,
    ) {
        -1
    } else {
        0
    }
}

/// How far a run of tokens moves the bracket level: one in for each opening bracket, one
/// out for each closing one.
pub open spec fn nesting(tokens: Seq<Spanned>) -> int
    decreases tokens.len(),
{
    if tokens.len() == 0 {
        0
    } else {
        nesting(tokens.drop_last()) + bracket_step(tokens.last().0)
    }
}

/// Whether no part at the front of the tokens closes more than so many blocks and brackets
/// on balance.
pub open spec fn balanced(tokens: Seq<Spanned>, blocks: int, brackets: int) -> bool {
    forall|k: int|
        0 <= k <= tokens.len() ==> level(#[trigger] tokens.take(k)) >= -blocks && nesting(
            tokens.take(k),
        ) >= -brackets
}

proof fn nesting_concat(a: Seq<Spanned>, b: Seq<Spanned>)
    ensures
        nesting(a + b) == nesting(a) + nesting(b),
    decreases b.len(),
{
    if b.len() == 0 {
        assert(a + b =~= a);
    } else {
        assert((a + b).drop_last() =~= a + b.drop_last());
        nesting_concat(a, b.drop_last());
    }
}

proof fn nesting_single(item: Spanned)
    ensures
        nesting(seq![item]) == bracket_step(item.0),
{
    assert(seq![item].drop_last() =~= Seq::<Spanned>::empty());
    assert(nesting(Seq::<Spanned>::empty()) == 0);
}

proof fn nesting_dedents(item: Spanned, n: nat)
    requires
        item.0 == TokenView::Plain(Token::Dedent),
    ensures
        nesting(repeated(item, n)) == 0,
    decreases n,
{
    if n > 0 {
        assert(repeated(item, n).drop_last() =~= repeated(item, (n - 1) as nat));
        nesting_dedents(item, (n - 1) as nat);
    }
}

proof fn balanced_concat(a: Seq<Spanned>, b: Seq<Spanned>, blocks: int, brackets: int)
    requires
        balanced(a, blocks, brackets),
        balanced(b, blocks + level(a), brackets + nesting(a)),
    ensures
        balanced(a + b, blocks, brackets),
{
    let all = a + b;
    assert forall|k: int| 0 <= k <= all.len() implies level(#[trigger] all.take(k)) >= -blocks
        && nesting(all.take(k)) >= -brackets by {
        if k <= a.len() {
            assert(all.take(k) =~= a.take(k));
        } else {
            let j = k - a.len();
            assert(all.take(k) =~= a + b.take(j));
            level_concat(a, b.take(j));
            nesting_concat(a, b.take(j));
        }
    }
}

proof fn balanced_single(item: Spanned, blocks: int, brackets: int)
    requires
        blocks >= 0,
        brackets >= 0,
        item.0 == TokenView::Plain(Token::Dedent) ==> blocks >= 1,
        bracket_step(item.0) == -1 ==> brackets >= 1,
    ensures
        balanced(seq![item], blocks, brackets),
{
    let one = seq![item];
    level_single(item);
    nesting_single(item);
    assert forall|k: int| 0 <= k <= one.len() implies level(#[trigger] one.take(k)) >= -blocks
        && nesting(one.take(k)) >= -brackets by {
        if k == 0 {
            assert(one.take(k) =~= Seq::<Spanned>::empty());
        } else {
            assert(one.take(k) =~= one);
        }
    }
}

proof fn balanced_dedents(item: Spanned, n: nat, blocks: int, brackets: int)
    requires
        item.0 == TokenView::Plain(Token::Dedent),
        n <= blocks,
        brackets >= 0,
    ensures
        balanced(repeated(item, n), blocks, brackets),
{
    let all = repeated(item, n);
    assert forall|k: int| 0 <= k <= all.len() implies level(#[trigger] all.take(k)) >= -blocks
        && nesting(all.take(k)) >= -brackets by {
        assert(all.take(k) =~= repeated(item, k as nat));
        level_repeated(item, k as nat);
        nesting_dedents(item, k as nat);
    }
}

/// What one scan does to the brackets, and that it closes no more than is open.
spec fn step_balanced(s: ScanState, r: Scan) -> bool {
    match r {
        Scan::Skip(t) => t.depth == s.depth && t.indents == s.indents,
        Scan::Emit(t, tokens) => {
            &&& nesting(tokens) == t.depth - s.depth
            &&& balanced(tokens, s.indents.len() - 1, s.depth as int)
        },
        _ => true,
    }
}

proof fn scan_token_balanced(chars: Seq<char>, s: ScanState, start: nat)
    requires
        valid(chars, s),
    ensures
        step_balanced(s, scan_token(chars, s, start)),
{
    match scan_token(chars, s, start) {
        Scan::Emit(t, tokens) => {
            assert(tokens =~= seq![tokens[0]]);
            nesting_single(tokens[0]);
            balanced_single(tokens[0], s.indents.len() - 1, s.depth as int);
        },
        _ => {},
    }
}

proof fn scan_balanced(chars: Seq<char>, s: ScanState)
    requires
        valid(chars, s),
    ensures
        step_balanced(s, scan(chars, s)),
{
    let blocks = s.indents.len() - 1;
    let brackets = s.depth as int;
    if s.ended {
    } else if s.at >= chars.len() {
        let newline = if s.line_start {
            Seq::empty()
        } else {
            seq![plain(chars, Token::Newline, s.at, s.at)]
        };
        let item = plain(chars, Token::Dedent, s.at, s.at);
        let dedents = repeated(item, blocks as nat);
        let eof = plain(chars, Token::Eof, s.at, s.at);
        level_single(plain(chars, Token::Newline, s.at, s.at));
        nesting_single(plain(chars, Token::Newline, s.at, s.at));
        balanced_single(plain(chars, Token::Newline, s.at, s.at), blocks, brackets);
        level_repeated(item, blocks as nat);
        nesting_dedents(item, blocks as nat);
        balanced_dedents(item, blocks as nat, blocks, brackets);
        level_single(eof);
        nesting_single(eof);
        balanced_single(eof, 0, brackets);
        if s.line_start {
            assert forall|k: int| 0 <= k <= newline.len() implies level(
                #[trigger] newline.take(k),
            ) >= -blocks && nesting(newline.take(k)) >= -brackets by {
                assert(newline.take(k) =~= Seq::<Spanned>::empty());
            }
        }
        level_concat(newline, dedents);
        nesting_concat(newline, dedents);
        balanced_concat(newline, dedents, blocks, brackets);
        level_concat(newline + dedents, seq![eof]);
        nesting_concat(newline + dedents, seq![eof]);
        balanced_concat(newline + dedents, seq![eof], blocks, brackets);
    } else if s.line_start {
        spaces_end_bounds(chars, s.at);
        let text = spaces_end(chars, s.at);
        let spaces = (text - s.at) as nat;
        let t = ScanState { at: text, line_start: false, ..s };
        scan_token_balanced(chars, t, text);
        let indent = plain(chars, Token::Indent, s.at, text);
        nesting_single(indent);
        balanced_single(indent, blocks, brackets);
        outer_indents_prefix(s.indents, spaces);
        let outer = outer_indents(s.indents, spaces);
        let item = plain(chars, Token::Dedent, s.at, text);
        nesting_dedents(item, (s.indents.len() - outer.len()) as nat);
        balanced_dedents(item, (s.indents.len() - outer.len()) as nat, blocks, brackets);
    } else {
        scan_token_balanced(chars, s, s.at);
    }
}

proof fn settle_balanced(chars: Seq<char>, s: ScanState)
    requires
        valid(chars, s),
    ensures
        step_balanced(s, settle(chars, s)),
    decreases chars.len() - s.at,
{
    scan_balanced(chars, s);
    settle_keeps(chars, s);
    match scan(chars, s) {
        Scan::Skip(t) => {
            if s.at < t.at <= chars.len() {
                scan_keeps(chars, s);
                settle_balanced(chars, t);
            }
        },
        _ => {},
    }
}

proof fn tokens_balanced(chars: Seq<char>, s: ScanState)
    requires
        valid(chars, s),
    ensures
        tokens_from(chars, s) matches Ok(tokens) ==> balanced(
            tokens,
            s.indents.len() - 1,
            s.depth as int,
        ),
    decreases rank(chars, s),
{
    settle_balanced(chars, s);
    let from = settle_keeps(chars, s);
    match settle(chars, s) {
        Scan::Emit(t, tokens) => {
            tokens_balanced(chars, t);
            if let Ok(rest) = tokens_from(chars, t) {
                balanced_concat(tokens, rest, s.indents.len() - 1, s.depth as int);
            }
        },
        _ => {
            let none = Seq::<Spanned>::empty();
            assert forall|k: int| 0 <= k <= none.len() implies level(#[trigger] none.take(k))
                >= -(s.indents.len() - 1) && nesting(none.take(k)) >= -(s.depth as int) by {
                assert(none.take(k) =~= none);
            }
        },
    }
}

/// However far a token list is read, it has closed no more blocks and no more brackets than
/// it has opened.
pub proof fn nothing_closed_unopened(chars: Seq<char>, k: int)
    ensures
        tokens_from(chars, initial()) matches Ok(tokens) ==> (0 <= k <= tokens.len() ==> {
            &&& level(tokens.take(k)) >= 0
            &&& nesting(tokens.take(k)) >= 0
        }),
{
    tokens_balanced(chars, initial());
}

} // verus!
