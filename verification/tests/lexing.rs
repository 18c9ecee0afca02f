use mojito::error::LexError;
use mojito::lexer::{lex, Lexer};
use mojito::token::{TStringChunk, Token};

fn shown(source: &str) -> Vec<String> {
    lex(source).unwrap().iter().map(|t| format!("{:?}", t)).collect()
}

fn failure(source: &str) -> String {
    match lex(source) {
        Ok(tokens) => panic!("lexed {:?}", tokens),
        Err(error) => error.message(),
    }
}

#[test]
fn a_statement_ends_with_a_newline() {
    assert_eq!(shown("x = 1\n"), ["Identifier(\"x\")", "Assign", "IntLiteral(1)", "Newline", "Eof"]);
}

#[test]
fn blocks_are_indented_and_dedented() {
    let tokens = shown("if a:\n    b\nc\n");
    assert_eq!(
        tokens,
        [
            "If",
            "Identifier(\"a\")",
            "Colon",
            "Newline",
            "Indent",
            "Identifier(\"b\")",
            "Newline",
            "Dedent",
            "Identifier(\"c\")",
            "Newline",
            "Eof"
        ]
    );
}

#[test]
fn operators_take_the_longest_match() {
    assert_eq!(
        shown("a //= b ** c -> d := e"),
        [
            "Identifier(\"a\")",
            "DoubleSlashEq",
            "Identifier(\"b\")",
            "DoubleStar",
            "Identifier(\"c\")",
            "Arrow",
            "Identifier(\"d\")",
            "ColonEq",
            "Identifier(\"e\")",
            "Newline",
            "Eof"
        ]
    );
}

#[test]
fn integers_can_be_grouped_and_based() {
    assert_eq!(
        shown("1_000 0xff 0b101 0o17"),
        ["IntLiteral(1000)", "IntLiteral(255)", "IntLiteral(5)", "IntLiteral(15)", "Newline", "Eof"]
    );
}

#[test]
fn floats_keep_their_digits() {
    assert_eq!(shown("1_0.5e3"), ["FloatLiteral(\"10.5e3\")", "Newline", "Eof"]);
}

#[test]
fn escapes_are_decoded() {
    let tokens = lex("'a\\n\\x41\\u00e9'").unwrap();
    match &tokens[0] {
        Token::StringLiteral(text) => assert_eq!(text, "a\nA\u{e9}"),
        other => panic!("{:?}", other),
    }
}

#[test]
fn t_strings_are_split_at_braces() {
    let tokens = lex("t'a{b}c'").unwrap();
    match &tokens[0] {
        Token::TString { chunks, raw } => {
            assert!(!raw);
            assert_eq!(chunks.len(), 3);
            assert!(matches!(&chunks[0], TStringChunk::Text(text) if text == "a"));
        }
        other => panic!("{:?}", other),
    }
}

#[test]
fn newlines_inside_brackets_do_not_count() {
    assert_eq!(
        shown("f(\n  a)\n"),
        ["Identifier(\"f\")", "LParen", "Identifier(\"a\")", "RParen", "Newline", "Eof"]
    );
}

#[test]
fn spans_are_byte_offsets() {
    let mut lexer = Lexer::new("'\u{e9}' + b");
    let (_, first) = lexer.next().unwrap().unwrap();
    let (_, second) = lexer.next().unwrap().unwrap();
    assert_eq!(first, (0, 4));
    assert_eq!(second, (5, 6));
}

#[test]
fn each_lexical_error_is_reported() {
    assert_eq!(failure("if a:\n    b\n  c\n"), "Indentation error at byte 14");
    assert_eq!(failure(")"), "Unmatched closing parenthesis at byte 1");
    assert_eq!(failure("a $"), "Unexpected character '$' at byte 2");
    assert_eq!(failure("99999999999999999999"), "Invalid integer literal starting at byte 0");
    assert_eq!(failure("'abc"), "Unterminated string literal starting at byte 0");
    assert_eq!(failure("0x"), "Invalid integer literal starting at byte 0");
    assert_eq!(failure("'\\q'"), "Invalid string escape '\\q' at byte 2");
}

#[test]
fn lexical_errors_have_a_position() {
    assert_eq!(LexError::InvalidFloat(7).byte_pos(), 7);
    assert_eq!(LexError::InvalidFloat(7).message(), "Invalid float literal starting at byte 7");
    assert_eq!(LexError::InvalidEscape('q', 3).byte_pos(), 3);
    assert_eq!(
        LexError::UnterminatedIdentifier(2).message(),
        "Unterminated backtick identifier starting at byte 2"
    );
}

#[test]
fn spans_leave_out_the_indentation() {
    let mut lexer = Lexer::new("a:\n    b\n    c");
    let mut spans = vec![];
    while let Some(Ok((token, span))) = lexer.next() {
        spans.push((token, span));
    }
    assert_eq!(spans[6], (Token::Identifier("c".to_string()), (13, 14)));
}

#[test]
fn a_last_line_of_spaces_gives_no_token() {
    let plain = lex("a:\n    b\n").unwrap();
    assert_eq!(lex("a:\n    b\n    ").unwrap(), plain);
    assert_eq!(lex("a:\n    b\n  ").unwrap(), plain);
    assert_eq!(lex("a:\n    b\n        ").unwrap(), plain);
    assert_eq!(
        plain,
        vec![
            Token::Identifier("a".to_string()),
            Token::Colon,
            Token::Newline,
            Token::Indent,
            Token::Identifier("b".to_string()),
            Token::Newline,
            Token::Dedent,
            Token::Eof
        ]
    );
}

#[test]
fn blank_and_comment_lines_change_no_token() {
    let plain = lex("a:\n    b\nc\n").unwrap();
    assert_eq!(lex("\na:\n  # note\n    b\n      \nc\n# end\n").unwrap(), plain);
}

#[test]
fn separators_stand_between_digits() {
    assert_eq!(lex("1_000\n").unwrap()[0], Token::IntLiteral(1000));
    assert_eq!(lex("0xFF_00\n").unwrap()[0], Token::IntLiteral(0xFF00));
    assert!(lex("0x_FF\n").is_err());
    assert_eq!(
        lex("1_\n").unwrap(),
        vec![
            Token::IntLiteral(1),
            Token::Identifier("_".to_string()),
            Token::Newline,
            Token::Eof
        ]
    );
}

#[test]
fn nothing_is_closed_before_it_is_opened() {
    let tokens = lex("if a:\n    f([1, (2)])\n    if b:\n        c\nd\n").unwrap();
    let (mut blocks, mut brackets) = (0, 0);
    for token in &tokens {
        match token {
            Token::Indent => blocks += 1,
            Token::Dedent => blocks -= 1,
            Token::LParen | Token::LBracket => brackets += 1,
            Token::RParen | Token::RBracket => brackets -= 1,
            _ => {}
        }
        assert!(blocks >= 0 && brackets >= 0);
    }
    assert_eq!((blocks, brackets), (0, 0));
    assert!(lex(")\n").is_err());
}
