use mojito::error::{LexError, OwnershipError, ParseError, RuntimeError, TypeError};
use mojito::report::{format_parse_error, format_source_error};
use mojito::token::{SourceSpan, Token};

fn text(s: &str) -> String {
    s.to_string()
}

#[test]
fn parse_errors_point_at_the_first_place_they_got() {
    let error = ParseError::UnexpectedEof(text("expected ':'"));
    assert_eq!(error.byte_pos(), None);
    let located = error.at((4, 9));
    assert_eq!(located.byte_pos(), Some(4));
    let again = located.at((1, 2));
    assert_eq!(again.byte_pos(), Some(4));
    let lexical = ParseError::LexerError(LexError::IndentationError(3));
    assert_eq!(lexical.at((8, 9)).byte_pos(), Some(3));
}

#[test]
fn parse_errors_are_described() {
    assert_eq!(
        ParseError::UnexpectedToken(Token::Colon, text("expected a name")).message("Colon"),
        "Unexpected token Colon: expected a name"
    );
    assert_eq!(ParseError::UnexpectedEof(text("x")).message(""), "Unexpected EOF: x");
    assert_eq!(ParseError::UnknownType(text("T")).message(""), "Unknown type 'T'");
    assert_eq!(
        ParseError::LexerError(LexError::InvalidInteger(5)).message(""),
        "Lexer error: Invalid integer literal starting at byte 5"
    );
    assert_eq!(
        ParseError::UnknownType(text("T")).at((6, 7)).message(""),
        "Unknown type 'T' at byte 6"
    );
}

#[test]
fn a_source_error_shows_its_line() {
    assert_eq!(
        format_source_error("m.mojo", "var a\nvar b = \u{e9}$\r\nc", 16, "bad"),
        "m.mojo:2:10: bad\nvar b = \u{e9}$\n         ^"
    );
    assert_eq!(format_source_error("-", "ab", 9, "end"), "-:1:3: end\nab\n  ^");
    assert_eq!(format_source_error("-", "", 0, "empty"), "-:1:1: empty\n\n^");
}

#[test]
fn a_parse_error_without_place_is_only_described() {
    let error = ParseError::UnexpectedEof(text("x"));
    assert_eq!(format_parse_error("m", "abc", &error, ""), "Unexpected EOF: x");
    let placed = error.at((1, 2));
    assert_eq!(
        format_parse_error("m", "abc", &placed, ""),
        "m:1:2: Unexpected EOF: x at byte 1\nabc\n ^"
    );
}

#[test]
fn type_errors_are_described() {
    assert_eq!(
        TypeError::UndefinedVariable(text("x")).message(),
        "Undefined variable 'x'"
    );
    assert_eq!(
        TypeError::NonCopyable { ty: text("T"), context: text("argument") }.message(),
        "cannot copy non-Copyable type 'T' (argument); transfer it with '^' or make 'T' Copyable"
    );
    assert_eq!(
        TypeError::ArityMismatch { name: text("f"), expected: 2, got: 10 }.message(),
        "'f' expects 2 argument(s), got 10"
    );
    assert_eq!(
        TypeError::TypeMismatch {
            expected: text("Int"),
            found: text("Bool"),
            context: text("return")
        }
        .message(),
        "type mismatch for return: expected Int, found Bool"
    );
    assert_eq!(
        TypeError::SimdArity { width: -4, got: 3 }.message(),
        "SIMD construction expects -4 element(s) or 1 to splat, got 3"
    );
    let unmet = |reason| TypeError::TraitNotSatisfied {
        param: text("P"),
        ty: text("T"),
        trait_name: text("Q"),
        reason,
    };
    assert_eq!(
        unmet(None).message(),
        "type 'T' for parameter 'P' does not conform to trait 'Q'"
    );
    assert_eq!(
        unmet(Some(text("why"))).message(),
        "type 'T' for parameter 'P' does not conform to trait 'Q': why"
    );
}

#[test]
fn runtime_errors_are_described() {
    assert_eq!(
        RuntimeError::UndefinedVariable(text("x")).message(),
        "Undefined variable 'x'"
    );
    assert_eq!(RuntimeError::Raised(text("no")).message(), "unhandled error: no");
}

#[test]
fn ownership_errors_know_their_place() {
    let span = SourceSpan { source: Some(text("m.mojo")), span: (3, 7) };
    let error = OwnershipError::ConditionallyMoved { var: text("x"), span };
    assert_eq!(error.span(), (3, 7));
    assert_eq!(error.source(), Some("m.mojo"));
}
