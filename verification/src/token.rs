//! Tokens and source positions.

use crate::text::{clone_opt_string, opt_view, same_text, views};
use vstd::prelude::*;

verus! {

/// A source byte range `(start, end)`.
pub type Span = (usize, usize);

/// The range of a node that has no source text.
pub const DUMMY_SPAN: Span = (0, 0);

/// A byte range together with the module it lies in.
#[derive(Debug)]
pub struct SourceSpan {
    pub span: Span,
    pub source: Option<String>,
}

#[verifier::ext_equal]
pub struct SourceSpanView {
    pub span: Span,
    pub source: Option<Seq<char>>,
}

impl View for SourceSpan {
    type V = SourceSpanView;

    open spec fn view(&self) -> SourceSpanView {
        SourceSpanView { span: self.span, source: opt_view(self.source) }
    }
}

impl SourceSpan {
    pub fn new(source: Option<String>, span: Span) -> (r: SourceSpan)
        ensures
            r.source == source,
            r.span == span,
    {
        SourceSpan { span, source }
    }
}

impl Clone for SourceSpan {
    fn clone(&self) -> (r: Self)
        ensures
            r == *self,
    {
        SourceSpan { span: self.span, source: clone_opt_string(&self.source) }
    }
}

/// One piece of a template string: literal text, or the source of an
/// interpolation.
#[derive(Debug, PartialEq, Eq)]
pub enum TStringChunk {
    Text(String),
    Interp(String),
}

#[verifier::ext_equal]
pub enum ChunkView {
    Text(Seq<char>),
    Interp(Seq<char>),
}

impl View for TStringChunk {
    type V = ChunkView;

    open spec fn view(&self) -> ChunkView {
        match self {
            TStringChunk::Text(s) => ChunkView::Text(s@),
            TStringChunk::Interp(s) => ChunkView::Interp(s@),
        }
    }
}

/// A lexical token. A float literal keeps its digits, without `_` separators.
#[derive(Debug, PartialEq, Eq)]
pub enum Token {
    Newline,
    Indent,
    Dedent,
    Eof,
    LParen,
    RParen,
    LBracket,
    RBracket,
    Amp,
    Caret,
    ColonEq,
    Colon,
    Comma,
    Semicolon,
    Ellipsis,
    Dot,
    At,
    EqEq,
    Assign,
    Arrow,
    MinusEq,
    Minus,
    PlusEq,
    Plus,
    DoubleStarEq,
    DoubleStar,
    StarEq,
    Star,
    DoubleSlashEq,
    DoubleSlash,
    SlashEq,
    Slash,
    PercentEq,
    Percent,
    Le,
    Lt,
    Ge,
    Gt,
    NotEq,
    Def,
    Var,
    Ref,
    Struct,
    Trait,
    Comptime,
    If,
    Elif,
    Else,
    While,
    For,
    In,
    Return,
    Pass,
    Break,
    Continue,
    Raise,
    Raises,
    Try,
    Except,
    Finally,
    With,
    Import,
    From,
    As,
    And,
    Or,
    Not,
    True,
    False,
    NoneKeyword,
    StringLiteral(String),
    TString { chunks: Vec<TStringChunk>, raw: bool },
    Identifier(String),
    IntLiteral(i64),
    FloatLiteral(String),
}

/// What a token says: itself when it carries no text, its content otherwise.
#[verifier::ext_equal]
pub enum TokenView {
    Plain(Token),
    Text(Seq<char>),
    Template(Seq<ChunkView>, bool),
    Name(Seq<char>),
    Int(i64),
    Float(Seq<char>),
}

impl View for Token {
    type V = TokenView;

    open spec fn view(&self) -> TokenView {
        match self {
            Token::StringLiteral(s) => TokenView::Text(s@),
            Token::TString { chunks, raw } => TokenView::Template(views(chunks@), *raw),
            Token::Identifier(s) => TokenView::Name(s@),
            Token::IntLiteral(n) => TokenView::Int(*n),
            Token::FloatLiteral(s) => TokenView::Float(s@),
            _ => TokenView::Plain(*self),
        }
    }
}

/// The keyword a word spells, if it spells one.
pub open spec fn keyword_of(word: Seq<char>) -> Option<Token> {
    if word == "def"@ {
        Some(Token::Def)
    } else if word == "var"@ {
        Some(Token::Var)
    } else if word == "ref"@ {
        Some(Token::Ref)
    } else if word == "struct"@ {
        Some(Token::Struct)
    } else if word == "trait"@ {
        Some(Token::Trait)
    } else if word == "comptime"@ {
        Some(Token::Comptime)
    } else if word == "if"@ {
        Some(Token::If)
    } else if word == "elif"@ {
        Some(Token::Elif)
    } else if word == "else"@ {
        Some(Token::Else)
    } else if word == "while"@ {
        Some(Token::While)
    } else if word == "for"@ {
        Some(Token::For)
    } else if word == "in"@ {
        Some(Token::In)
    } else if word == "return"@ {
        Some(Token::Return)
    } else if word == "pass"@ {
        Some(Token::Pass)
    } else if word == "break"@ {
        Some(Token::Break)
    } else if word == "continue"@ {
        Some(Token::Continue)
    } else if word == "raise"@ {
        Some(Token::Raise)
    } else if word == "raises"@ {
        Some(Token::Raises)
    } else if word == "try"@ {
        Some(Token::Try)
    } else if word == "except"@ {
        Some(Token::Except)
    } else if word == "finally"@ {
        Some(Token::Finally)
    } else if word == "with"@ {
        Some(Token::With)
    } else if word == "import"@ {
        Some(Token::Import)
    } else if word == "from"@ {
        Some(Token::From)
    } else if word == "as"@ {
        Some(Token::As)
    } else if word == "and"@ {
        Some(Token::And)
    } else if word == "or"@ {
        Some(Token::Or)
    } else if word == "not"@ {
        Some(Token::Not)
    } else if word == "True"@ {
        Some(Token::True)
    } else if word == "False"@ {
        Some(Token::False)
    } else if word == "None"@ {
        Some(Token::NoneKeyword)
    } else {
        None
    }
}

impl Token {
    /// The keyword token for `word`, or `None` when `word` is no keyword.
    pub fn keyword(word: &str) -> (r: Option<Token>)
        ensures
            r == keyword_of(word@),
    {
        if same_text(word, "def") {
            Some(Token::Def)
        } else if same_text(word, "var") {
            Some(Token::Var)
        } else if same_text(word, "ref") {
            Some(Token::Ref)
        } else if same_text(word, "struct") {
            Some(Token::Struct)
        } else if same_text(word, "trait") {
            Some(Token::Trait)
        } else if same_text(word, "comptime") {
            Some(Token::Comptime)
        } else if same_text(word, "if") {
            Some(Token::If)
        } else if same_text(word, "elif") {
            Some(Token::Elif)
        } else if same_text(word, "else") {
            Some(Token::Else)
        } else if same_text(word, "while") {
            Some(Token::While)
        } else if same_text(word, "for") {
            Some(Token::For)
        } else if same_text(word, "in") {
            Some(Token::In)
        } else if same_text(word, "return") {
            Some(Token::Return)
        } else if same_text(word, "pass") {
            Some(Token::Pass)
        } else if same_text(word, "break") {
            Some(Token::Break)
        } else if same_text(word, "continue") {
            Some(Token::Continue)
        } else if same_text(word, "raise") {
            Some(Token::Raise)
        } else if same_text(word, "raises") {
            Some(Token::Raises)
        } else if same_text(word, "try") {
            Some(Token::Try)
        } else if same_text(word, "except") {
            Some(Token::Except)
        } else if same_text(word, "finally") {
            Some(Token::Finally)
        } else if same_text(word, "with") {
            Some(Token::With)
        } else if same_text(word, "import") {
            Some(Token::Import)
        } else if same_text(word, "from") {
            Some(Token::From)
        } else if same_text(word, "as") {
            Some(Token::As)
        } else if same_text(word, "and") {
            Some(Token::And)
        } else if same_text(word, "or") {
            Some(Token::Or)
        } else if same_text(word, "not") {
            Some(Token::Not)
        } else if same_text(word, "True") {
            Some(Token::True)
        } else if same_text(word, "False") {
            Some(Token::False)
        } else if same_text(word, "None") {
            Some(Token::NoneKeyword)
        } else {
            None
        }
    }
}

} // verus!
