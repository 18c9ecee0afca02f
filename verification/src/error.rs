//! The errors of the pipeline's stages and the texts shown for them.

use crate::text::{
    cat2, cat3, cat4, cat5, cat6, cat7, decimal, show_i64, show_usize, signed_decimal,
};
use crate::token::{SourceSpan, Span, Token, DUMMY_SPAN};
use vstd::prelude::*;

verus! {

fn show_char(c: char) -> (r: String)
    ensures
        r@ == seq![c],
{
    let mut s = String::new();
    s.push(c);
    assert(s@ =~= seq![c]);
    s
}

/// A failure to split source text into tokens. Positions are byte offsets.
#[derive(Debug, Clone, Copy, PartialEq, Eq, Structural)]
pub enum LexError {
    IndentationError(usize),
    UnmatchedParenthesis(usize),
    UnexpectedCharacter(char, usize),
    InvalidInteger(usize),
    InvalidFloat(usize),
    UnterminatedString(usize),
    UnterminatedIdentifier(usize),
    InvalidEscape(char, usize),
}

/// A failure to parse a token stream.
#[derive(Debug, PartialEq, Eq)]
pub enum ParseError {
    LexerError(LexError),
    UnexpectedToken(Token, String),
    UnexpectedEof(String),
    UnknownType(String),
    At {
        err: Box<ParseError>,
        span: Span,
    },
}

/// Errors from semantic checking: type, declaration, call, trait, convention and
/// locally decidable borrow rules.
#[derive(Debug)]
#[allow(inconsistent_fields)]
pub enum TypeError {
    UndefinedVariable(String),
    /// A non-`Copyable` value is used where it would be copied (bound to a new
    /// variable, passed by value, returned, …). Mojo move-only semantics: transfer
    /// it with `^`, or make the type `Copyable`. `ty` is the type; `context` is the
    /// site (e.g. `variable 'b'`).
    NonCopyable {
        ty: String,
        context: String,
    },
    /// Aliasing violation: a variable is borrowed mutably (`mut`/`ref`) and also
    /// borrowed (mutably or shared) at the same call — Mojo's borrow rule is
    /// mutable-XOR-shared. E.g. `f(mut a, mut a)` or `f(mut a, a)`.
    AliasingViolation {
        var: String,
    },
    /// A name used in call position is not function-typed.
    NotCallable {
        name: String,
        ty: String,
    },
    ArityMismatch {
        name: String,
        expected: usize,
        got: usize,
    },
    /// Re-declaring a name already bound in the same scope.
    Redeclaration(String),
    /// Assignment attempted through an immutable binding, such as an ordinary
    /// function parameter. Mojo function arguments are immutable unless their
    /// convention makes them writable (`mut`, `ref`, `out`).
    ImmutableBinding(String),
    /// A function value tried to escape by being returned (downward funargs
    /// only). The static counterpart of `RuntimeError::ClosureEscape`.
    ClosureEscape,
    /// `return` appearing outside any function body.
    ReturnOutsideFunction,
    /// `break` appearing outside any loop.
    BreakOutsideLoop,
    /// `continue` appearing outside any loop.
    ContinueOutsideLoop,
    /// An inferred type did not match the one required by its context (a
    /// variable annotation, a declared return type, or a parameter type).
    TypeMismatch {
        expected: String,
        found: String,
        context: String,
    },
    /// An operator applied to operand type(s) it is not defined for.
    BadOperator {
        op: String,
        operands: String,
    },
    /// A type annotation named an identifier that is not a known type/struct.
    UnknownType(String),
    /// Field access on a value whose type has no such field.
    NoSuchField {
        object_type: String,
        field: String,
    },
    /// Associated type/comptime member lookup in type position failed.
    NoSuchAssociatedType {
        object_type: String,
        member: String,
    },
    /// Method call on a value whose type has no such method.
    NoSuchMethod {
        object_type: String,
        method: String,
    },
    /// Constructing a struct that has no constructor (no `@fieldwise_init`).
    NoConstructor(String),
    /// An `out self` lifecycle method (`__init__`/`__copyinit__`/`__moveinit__`)
    /// leaves a declared field unassigned (definite initialization: every field must
    /// be initialized in the body).
    UninitializedField {
        struct_name: String,
        method: String,
        field: String,
    },
    /// A struct declares both `@fieldwise_init` and a hand-written `__init__`
    /// (each defines a constructor — the decorator *generates* `__init__`).
    ConflictingConstructor(String),
    /// A type-parameter bound named a trait that is not a recognized built-in
    /// (user-defined traits are not supported yet).
    UnknownTrait(String),
    /// A parameterized type was applied to the wrong number of type arguments
    /// (e.g. `Pair[Int, Int]` for a one-parameter `Pair`, or type arguments on a
    /// non-generic type).
    WrongTypeArgCount {
        name: String,
        expected: usize,
        got: usize,
    },
    /// `Self.T` used where `T` is not a type parameter of the enclosing struct
    /// (or outside any struct).
    UnknownSelfParam(String),
    /// A generic call/construction could not solve a type parameter from the
    /// argument types (no explicit type-argument syntax exists to supply it).
    CannotInferTypeParam {
        name: String,
        param: String,
    },
    /// A solved type argument does not conform to a type parameter's declared
    /// trait bound (`f[T: Quackable](...)` called with a non-`Quackable` type).
    TraitNotSatisfied {
        param: String,
        ty: String,
        trait_name: String,
        /// The first concrete missing field or operation, when the checker can
        /// identify one without obscuring the primary bound failure.
        reason: Option<String>,
    },
    /// A struct declares conformance to a trait but is missing a required method.
    MissingTraitMethod {
        struct_name: String,
        trait_name: String,
        method: String,
    },
    /// A struct's method exists but does not match the trait's required signature.
    TraitMethodMismatch {
        struct_name: String,
        trait_name: String,
        method: String,
    },
    /// A struct declares conformance to a trait but is missing a required
    /// associated compile-time member.
    MissingTraitComptimeMember {
        struct_name: String,
        trait_name: String,
        member: String,
    },
    /// A struct's associated compile-time member exists but has the wrong
    /// compile-time kind or type for the trait requirement.
    TraitComptimeMemberMismatch {
        struct_name: String,
        trait_name: String,
        member: String,
    },
    /// A value parameter was declared with a type other than `Int` (the only
    /// value-parameter type supported).
    BadValueParamType {
        name: String,
        ty: String,
    },
    /// An expression used in a compile-time position (`comptime NAME = …`, or a
    /// value-parameter argument) is not a constant `Int` expression.
    NotComptime(String),
    /// A `SIMD` element-type argument was not a recognized `DType.<name>`.
    BadDtype(String),
    /// A SIMD width was not a positive power of two.
    BadSimdWidth(String),
    /// A SIMD construction had the wrong number of element arguments (must be the
    /// width, or exactly one to splat).
    SimdArity {
        width: i64,
        got: usize,
    },
    /// A subscript `v[i]` was applied to a non-SIMD value.
    NotIndexable(String),
    /// A function with a non-`None` return type can fall off the end without
    /// returning (does not return on every path).
    MissingReturn(String),
    /// A mutating `List` method (`append`/`pop`) was called on something other
    /// than a plain list variable (mojito has no general member-write, so the
    /// receiver must be a variable whose list can be mutated in place).
    MutationRequiresVariable(String),
    /// A field of `self` was written (`self.x = e`) in a method whose receiver is
    /// a read-only `self`. Mutating `self` requires the `mut self` convention.
    ImmutableSelf,
    /// The left side of an assignment is not a valid place (a variable, or a
    /// field/index chain rooted at one).
    InvalidAssignTarget(String),
    /// A valid-Mojo construct that mojito **parses** (and the AST carries) but
    /// does not implement — flagged at check time because it can't be
    /// meaningfully type-checked (e.g. a `def` with `*args`, `**kwargs`, argument
    /// conventions, or `/`/`*` markers; a keyword-argument call to a method).
    /// Carries a message describing the feature. The runtime analogue is
    /// `RuntimeError::Unsupported`.
    Unsupported(String),
    /// A compiler phase received state that violates a contract established by
    /// an earlier phase. This is a Mojito bug, not an error in the source file.
    InvariantViolation(String),
    /// A call whose arguments don't match the callee's parameters in a way arity
    /// alone doesn't capture: an unknown keyword name, a parameter bound twice
    /// (positionally and by keyword, or a duplicate keyword), or a required
    /// parameter left unbound. `reason` describes the specific problem.
    BadCall {
        func: String,
        reason: String,
    },
}

/// Errors from running a program.
#[derive(Debug)]
pub enum RuntimeError {
    UndefinedVariable(String),
    TypeError(String),
    NotCallable(String),
    ArityMismatch {
        name: String,
        expected: usize,
        got: usize,
    },
    /// A closure value tried to escape its defining scope (e.g. by being
    /// returned). Mojo does not support escaping closures — downward funargs
    /// only. See the strict-subset design notes.
    ClosureEscape,
    /// An error raised by `raise` that was not caught by any `try`/`except`. It
    /// propagates through VM execution and is reported if it reaches the top.
    Raised(String),
    /// A valid-Mojo construct that reaches a compiler/backend boundary whose
    /// semantics Mojito does not implement. Carries a feature description.
    Unsupported(String),
}

/// Errors from the ownership analysis, each with the source range of the use.
#[derive(Debug)]
pub enum OwnershipError {
    /// Ownership analysis was requested for a program that did not pass semantic
    /// checking. The production compiler reports the earlier error directly;
    /// this variant protects the compatibility API from panicking.
    InvalidInput(String),
    /// A variable is used after it was transferred (`x^`) on every path to here.
    UseAfterMove {
        var: String,
        span: SourceSpan,
    },
    /// A variable is used after being transferred on *some* (not all) paths — a
    /// move inside one branch of an `if`, then a use after the merge.
    ConditionallyMoved {
        var: String,
        span: SourceSpan,
    },
}

impl LexError {
    pub open spec fn spec_byte_pos(self) -> usize {
        match self {
            LexError::IndentationError(pos) => pos,
            LexError::UnmatchedParenthesis(pos) => pos,
            LexError::UnexpectedCharacter(_, pos) => pos,
            LexError::InvalidInteger(pos) => pos,
            LexError::InvalidFloat(pos) => pos,
            LexError::UnterminatedString(pos) => pos,
            LexError::UnterminatedIdentifier(pos) => pos,
            LexError::InvalidEscape(_, pos) => pos,
        }
    }

    /// The byte offset this error points at.
    pub fn byte_pos(&self) -> (r: usize)
        ensures
            r == self.spec_byte_pos(),
    {
        match self {
            LexError::IndentationError(pos) => *pos,
            LexError::UnmatchedParenthesis(pos) => *pos,
            LexError::UnexpectedCharacter(_, pos) => *pos,
            LexError::InvalidInteger(pos) => *pos,
            LexError::InvalidFloat(pos) => *pos,
            LexError::UnterminatedString(pos) => *pos,
            LexError::UnterminatedIdentifier(pos) => *pos,
            LexError::InvalidEscape(_, pos) => *pos,
        }
    }

    /// The text that describes this error.
    pub open spec fn spec_message(self) -> Seq<char> {
        match self {
            LexError::IndentationError(pos) => "Indentation error at byte "@ + decimal(pos as nat),
            LexError::UnmatchedParenthesis(pos) => "Unmatched closing parenthesis at byte "@ + decimal(pos as nat),
            LexError::UnexpectedCharacter(c, pos) => "Unexpected character '"@ + seq![c] + "' at byte "@ + decimal(pos as nat),
            LexError::InvalidInteger(pos) => "Invalid integer literal starting at byte "@ + decimal(pos as nat),
            LexError::InvalidFloat(pos) => "Invalid float literal starting at byte "@ + decimal(pos as nat),
            LexError::UnterminatedString(pos) => "Unterminated string literal starting at byte "@ + decimal(pos as nat),
            LexError::UnterminatedIdentifier(pos) => "Unterminated backtick identifier starting at byte "@ + decimal(pos as nat),
            LexError::InvalidEscape(c, pos) => "Invalid string escape '\\"@ + seq![c] + "' at byte "@ + decimal(pos as nat),
        }
    }

    /// The text shown for this error.
    pub fn message(&self) -> (r: String)
        ensures
            r@ == self.spec_message(),
    {
        match self {
            LexError::IndentationError(pos) => cat2("Indentation error at byte ", show_usize(*pos).as_str()),
            LexError::UnmatchedParenthesis(pos) => cat2("Unmatched closing parenthesis at byte ", show_usize(*pos).as_str()),
            LexError::UnexpectedCharacter(c, pos) => cat4("Unexpected character '", show_char(*c).as_str(), "' at byte ", show_usize(*pos).as_str()),
            LexError::InvalidInteger(pos) => cat2("Invalid integer literal starting at byte ", show_usize(*pos).as_str()),
            LexError::InvalidFloat(pos) => cat2("Invalid float literal starting at byte ", show_usize(*pos).as_str()),
            LexError::UnterminatedString(pos) => cat2("Unterminated string literal starting at byte ", show_usize(*pos).as_str()),
            LexError::UnterminatedIdentifier(pos) => cat2("Unterminated backtick identifier starting at byte ", show_usize(*pos).as_str()),
            LexError::InvalidEscape(c, pos) => cat4("Invalid string escape '\\", show_char(*c).as_str(), "' at byte ", show_usize(*pos).as_str()),
        }
    }
}

impl ParseError {
    /// The position an error points at: a located error knows its own.
    pub open spec fn spec_byte_pos(self) -> Option<usize> {
        match self {
            ParseError::LexerError(err) => Some(err.spec_byte_pos()),
            ParseError::At { err, span } => Some(span.0),
            ParseError::UnexpectedToken(_, _) => None,
            ParseError::UnexpectedEof(_) => None,
            ParseError::UnknownType(_) => None,
        }
    }

    /// Locate an error: one that already points somewhere is left as it is.
    pub fn at(self, span: Span) -> (r: Self)
        ensures
            r == (if self.spec_byte_pos() is Some {
                self
            } else {
                (ParseError::At { err: Box::new(self), span })
            }),
    {
        if self.byte_pos().is_some() {
            self
        } else {
            ParseError::At { err: Box::new(self), span }
        }
    }

    pub fn byte_pos(&self) -> (r: Option<usize>)
        ensures
            r == self.spec_byte_pos(),
    {
        match self {
            ParseError::LexerError(err) => Some(err.byte_pos()),
            ParseError::At { span, .. } => Some(span.0),
            ParseError::UnexpectedToken(_, _) => None,
            ParseError::UnexpectedEof(_) => None,
            ParseError::UnknownType(_) => None,
        }
    }
}

impl ParseError {
    /// The text that describes this error. `shown` is the token that it names, if it
    /// names one.
    pub open spec fn spec_message(self, shown: Seq<char>) -> Seq<char>
        decreases self,
    {
        match self {
            ParseError::LexerError(err) => "Lexer error: "@ + err.spec_message(),
            ParseError::UnexpectedToken(_, text) => "Unexpected token "@ + shown + ": "@ + text@,
            ParseError::UnexpectedEof(text) => "Unexpected EOF: "@ + text@,
            ParseError::UnknownType(name) => "Unknown type '"@ + name@ + "'"@,
            ParseError::At { err, span } => err.spec_message(shown) + " at byte "@ + decimal(
                span.0 as nat,
            ),
        }
    }

    /// The text shown for this error.
    pub fn message(&self, shown: &str) -> (r: String)
        ensures
            r@ == self.spec_message(shown@),
        decreases self,
    {
        match self {
            ParseError::LexerError(err) => cat2("Lexer error: ", err.message().as_str()),
            ParseError::UnexpectedToken(_, text) => cat4(
                "Unexpected token ",
                shown,
                ": ",
                text.as_str(),
            ),
            ParseError::UnexpectedEof(text) => cat2("Unexpected EOF: ", text.as_str()),
            ParseError::UnknownType(name) => cat3("Unknown type '", name.as_str(), "'"),
            ParseError::At { err, span } => cat3(
                err.message(shown).as_str(),
                " at byte ",
                show_usize(span.0).as_str(),
            ),
        }
    }
}

impl TypeError {
    /// The text that describes this error.
    pub open spec fn spec_message(self) -> Seq<char> {
        match self {
            TypeError::UndefinedVariable(name) => "Undefined variable '"@ + name@ + "'"@,
            TypeError::NonCopyable { ty, context } => "cannot copy non-Copyable type '"@ + ty@ + "' ("@ + context@ + "); transfer it with '^' or make '"@ + ty@ + "' Copyable"@,
            TypeError::AliasingViolation { var } => "'"@ + var@ + "' is borrowed mutably and also used at the same call (a mutable borrow must be exclusive)"@,
            TypeError::NotCallable { name, ty } => "'"@ + name@ + "' has type "@ + ty@ + " and is not callable"@,
            TypeError::ArityMismatch { name, expected, got } => "'"@ + name@ + "' expects "@ + decimal(expected as nat) + " argument(s), got "@ + decimal(got as nat),
            TypeError::Redeclaration(name) => "'"@ + name@ + "' is already declared in this scope"@,
            TypeError::ImmutableBinding(name) => "expression must be mutable in assignment ('"@ + name@ + "')"@,
            TypeError::ClosureEscape => "closures cannot escape their defining scope (downward funargs only)"@,
            TypeError::ReturnOutsideFunction => "'return' outside of a function"@,
            TypeError::BreakOutsideLoop => "'break' outside of a loop"@,
            TypeError::ContinueOutsideLoop => "'continue' outside of a loop"@,
            TypeError::TypeMismatch { expected, found, context } => "type mismatch for "@ + context@ + ": expected "@ + expected@ + ", found "@ + found@,
            TypeError::BadOperator { op, operands } => "operator '"@ + op@ + "' is not defined for "@ + operands@,
            TypeError::UnknownType(name) => "unknown type '"@ + name@ + "'"@,
            TypeError::NoSuchField { object_type, field } => "type '"@ + object_type@ + "' has no field '"@ + field@ + "'"@,
            TypeError::NoSuchAssociatedType { object_type, member } => "type '"@ + object_type@ + "' has no associated type '"@ + member@ + "'"@,
            TypeError::NoSuchMethod { object_type, method } => "type '"@ + object_type@ + "' has no method '"@ + method@ + "'"@,
            TypeError::NoConstructor(name) => "struct '"@ + name@ + "' has no constructor (add @fieldwise_init)"@,
            TypeError::UninitializedField { struct_name, method, field } => "'"@ + struct_name@ + "."@ + method@ + "' does not initialize field '"@ + field@ + "'"@,
            TypeError::ConflictingConstructor(name) => "struct '"@ + name@ + "' has both @fieldwise_init and a hand-written __init__"@,
            TypeError::UnknownTrait(name) => "unknown trait '"@ + name@ + "' in a type-parameter bound"@,
            TypeError::WrongTypeArgCount { name, expected, got } => "type '"@ + name@ + "' expects "@ + decimal(expected as nat) + " type argument(s), got "@ + decimal(got as nat),
            TypeError::UnknownSelfParam(name) => "'Self."@ + name@ + "' is not a type parameter of the enclosing struct"@,
            TypeError::CannotInferTypeParam { name, param } => "cannot infer type parameter '"@ + param@ + "' of '"@ + name@ + "' from the arguments"@,
            TypeError::TraitNotSatisfied { param, ty, trait_name, reason } => {
                let base = "type '"@ + ty@ + "' for parameter '"@ + param@ + "' does not conform to trait '"@ + trait_name@ + "'"@;
                match reason {
                    Some(text) => base + ": "@ + text@,
                    None => base,
                }
            },
            TypeError::MissingTraitMethod { struct_name, trait_name, method } => "struct '"@ + struct_name@ + "' declares conformance to trait '"@ + trait_name@ + "' but is missing method '"@ + method@ + "'"@,
            TypeError::TraitMethodMismatch { struct_name, trait_name, method } => "struct '"@ + struct_name@ + "' method '"@ + method@ + "' does not match the signature required by trait '"@ + trait_name@ + "'"@,
            TypeError::MissingTraitComptimeMember { struct_name, trait_name, member } => "struct '"@ + struct_name@ + "' declares conformance to trait '"@ + trait_name@ + "' but is missing comptime member '"@ + member@ + "'"@,
            TypeError::TraitComptimeMemberMismatch { struct_name, trait_name, member } => "struct '"@ + struct_name@ + "' comptime member '"@ + member@ + "' does not match the requirement from trait '"@ + trait_name@ + "'"@,
            TypeError::BadValueParamType { name, ty } => "value parameter '"@ + name@ + "' must have type Int, not '"@ + ty@ + "'"@,
            TypeError::NotComptime(what) => "not a compile-time Int constant: "@ + what@,
            TypeError::BadDtype(what) => "not a valid SIMD element type: "@ + what@,
            TypeError::BadSimdWidth(w) => "SIMD width must be a positive power of two, got "@ + w@,
            TypeError::SimdArity { width, got } => "SIMD construction expects "@ + signed_decimal(width as int) + " element(s) or 1 to splat, got "@ + decimal(got as nat),
            TypeError::NotIndexable(ty) => "type '"@ + ty@ + "' cannot be indexed here"@,
            TypeError::MissingReturn(name) => "'"@ + name@ + "' does not return a value on every path"@,
            TypeError::MutationRequiresVariable(method) => "'"@ + method@ + "' must be called on a plain list variable (mutating a temporary or field is not supported)"@,
            TypeError::ImmutableSelf => "cannot assign to a field of 'self' in a method with a read-only receiver (use 'mut self')"@,
            TypeError::InvalidAssignTarget(what) => "invalid assignment target: "@ + what@,
            TypeError::Unsupported(what) => "unsupported feature: "@ + what@,
            TypeError::InvariantViolation(detail) => "compiler invariant violated: "@ + detail@,
            TypeError::BadCall { func, reason } => "call to '"@ + func@ + "': "@ + reason@,
        }
    }

    /// The text shown for this error.
    pub fn message(&self) -> (r: String)
        ensures
            r@ == self.spec_message(),
    {
        match self {
            TypeError::UndefinedVariable(name) => cat3("Undefined variable '", name.as_str(), "'"),
            TypeError::NonCopyable { ty, context } => cat7("cannot copy non-Copyable type '", ty.as_str(), "' (", context.as_str(), "); transfer it with '^' or make '", ty.as_str(), "' Copyable"),
            TypeError::AliasingViolation { var } => cat3("'", var.as_str(), "' is borrowed mutably and also used at the same call (a mutable borrow must be exclusive)"),
            TypeError::NotCallable { name, ty } => cat5("'", name.as_str(), "' has type ", ty.as_str(), " and is not callable"),
            TypeError::ArityMismatch { name, expected, got } => cat6("'", name.as_str(), "' expects ", show_usize(*expected).as_str(), " argument(s), got ", show_usize(*got).as_str()),
            TypeError::Redeclaration(name) => cat3("'", name.as_str(), "' is already declared in this scope"),
            TypeError::ImmutableBinding(name) => cat3("expression must be mutable in assignment ('", name.as_str(), "')"),
            TypeError::ClosureEscape => "closures cannot escape their defining scope (downward funargs only)".to_owned(),
            TypeError::ReturnOutsideFunction => "'return' outside of a function".to_owned(),
            TypeError::BreakOutsideLoop => "'break' outside of a loop".to_owned(),
            TypeError::ContinueOutsideLoop => "'continue' outside of a loop".to_owned(),
            TypeError::TypeMismatch { expected, found, context } => cat6("type mismatch for ", context.as_str(), ": expected ", expected.as_str(), ", found ", found.as_str()),
            TypeError::BadOperator { op, operands } => cat4("operator '", op.as_str(), "' is not defined for ", operands.as_str()),
            TypeError::UnknownType(name) => cat3("unknown type '", name.as_str(), "'"),
            TypeError::NoSuchField { object_type, field } => cat5("type '", object_type.as_str(), "' has no field '", field.as_str(), "'"),
            TypeError::NoSuchAssociatedType { object_type, member } => cat5("type '", object_type.as_str(), "' has no associated type '", member.as_str(), "'"),
            TypeError::NoSuchMethod { object_type, method } => cat5("type '", object_type.as_str(), "' has no method '", method.as_str(), "'"),
            TypeError::NoConstructor(name) => cat3("struct '", name.as_str(), "' has no constructor (add @fieldwise_init)"),
            TypeError::UninitializedField { struct_name, method, field } => cat7("'", struct_name.as_str(), ".", method.as_str(), "' does not initialize field '", field.as_str(), "'"),
            TypeError::ConflictingConstructor(name) => cat3("struct '", name.as_str(), "' has both @fieldwise_init and a hand-written __init__"),
            TypeError::UnknownTrait(name) => cat3("unknown trait '", name.as_str(), "' in a type-parameter bound"),
            TypeError::WrongTypeArgCount { name, expected, got } => cat6("type '", name.as_str(), "' expects ", show_usize(*expected).as_str(), " type argument(s), got ", show_usize(*got).as_str()),
            TypeError::UnknownSelfParam(name) => cat3("'Self.", name.as_str(), "' is not a type parameter of the enclosing struct"),
            TypeError::CannotInferTypeParam { name, param } => cat5("cannot infer type parameter '", param.as_str(), "' of '", name.as_str(), "' from the arguments"),
            TypeError::TraitNotSatisfied { param, ty, trait_name, reason } => {
                let base = cat7(
                    "type '", ty.as_str(), "' for parameter '", param.as_str(),
                    "' does not conform to trait '", trait_name.as_str(), "'",
                );
                match reason {
                    Some(text) => cat3(base.as_str(), ": ", text.as_str()),
                    None => base,
                }
            },
            TypeError::MissingTraitMethod { struct_name, trait_name, method } => cat7("struct '", struct_name.as_str(), "' declares conformance to trait '", trait_name.as_str(), "' but is missing method '", method.as_str(), "'"),
            TypeError::TraitMethodMismatch { struct_name, trait_name, method } => cat7("struct '", struct_name.as_str(), "' method '", method.as_str(), "' does not match the signature required by trait '", trait_name.as_str(), "'"),
            TypeError::MissingTraitComptimeMember { struct_name, trait_name, member } => cat7("struct '", struct_name.as_str(), "' declares conformance to trait '", trait_name.as_str(), "' but is missing comptime member '", member.as_str(), "'"),
            TypeError::TraitComptimeMemberMismatch { struct_name, trait_name, member } => cat7("struct '", struct_name.as_str(), "' comptime member '", member.as_str(), "' does not match the requirement from trait '", trait_name.as_str(), "'"),
            TypeError::BadValueParamType { name, ty } => cat5("value parameter '", name.as_str(), "' must have type Int, not '", ty.as_str(), "'"),
            TypeError::NotComptime(what) => cat2("not a compile-time Int constant: ", what.as_str()),
            TypeError::BadDtype(what) => cat2("not a valid SIMD element type: ", what.as_str()),
            TypeError::BadSimdWidth(w) => cat2("SIMD width must be a positive power of two, got ", w.as_str()),
            TypeError::SimdArity { width, got } => cat4("SIMD construction expects ", show_i64(*width).as_str(), " element(s) or 1 to splat, got ", show_usize(*got).as_str()),
            TypeError::NotIndexable(ty) => cat3("type '", ty.as_str(), "' cannot be indexed here"),
            TypeError::MissingReturn(name) => cat3("'", name.as_str(), "' does not return a value on every path"),
            TypeError::MutationRequiresVariable(method) => cat3("'", method.as_str(), "' must be called on a plain list variable (mutating a temporary or field is not supported)"),
            TypeError::ImmutableSelf => "cannot assign to a field of 'self' in a method with a read-only receiver (use 'mut self')".to_owned(),
            TypeError::InvalidAssignTarget(what) => cat2("invalid assignment target: ", what.as_str()),
            TypeError::Unsupported(what) => cat2("unsupported feature: ", what.as_str()),
            TypeError::InvariantViolation(detail) => cat2("compiler invariant violated: ", detail.as_str()),
            TypeError::BadCall { func, reason } => cat4("call to '", func.as_str(), "': ", reason.as_str()),
        }
    }
}

impl RuntimeError {
    /// The text that describes this error.
    pub open spec fn spec_message(self) -> Seq<char> {
        match self {
            RuntimeError::UndefinedVariable(name) => "Undefined variable '"@ + name@ + "'"@,
            RuntimeError::TypeError(msg) => "Type error: "@ + msg@,
            RuntimeError::NotCallable(name) => "'"@ + name@ + "' is not callable"@,
            RuntimeError::ArityMismatch { name, expected, got } => "'"@ + name@ + "' expects "@ + decimal(expected as nat) + " argument(s), got "@ + decimal(got as nat),
            RuntimeError::ClosureEscape => "closures cannot escape their defining scope (downward funargs only)"@,
            RuntimeError::Raised(msg) => "unhandled error: "@ + msg@,
            RuntimeError::Unsupported(what) => "unsupported feature: "@ + what@,
        }
    }

    /// The text shown for this error.
    pub fn message(&self) -> (r: String)
        ensures
            r@ == self.spec_message(),
    {
        match self {
            RuntimeError::UndefinedVariable(name) => cat3("Undefined variable '", name.as_str(), "'"),
            RuntimeError::TypeError(msg) => cat2("Type error: ", msg.as_str()),
            RuntimeError::NotCallable(name) => cat3("'", name.as_str(), "' is not callable"),
            RuntimeError::ArityMismatch { name, expected, got } => cat6("'", name.as_str(), "' expects ", show_usize(*expected).as_str(), " argument(s), got ", show_usize(*got).as_str()),
            RuntimeError::ClosureEscape => "closures cannot escape their defining scope (downward funargs only)".to_owned(),
            RuntimeError::Raised(msg) => cat2("unhandled error: ", msg.as_str()),
            RuntimeError::Unsupported(what) => cat2("unsupported feature: ", what.as_str()),
        }
    }
}

impl OwnershipError {
    /// The source span of the offending use.
    pub fn span(&self) -> (r: (usize, usize))
        ensures
            r == (match *self {
                OwnershipError::InvalidInput(_) => DUMMY_SPAN,
                OwnershipError::UseAfterMove { span, .. } => span.span,
                OwnershipError::ConditionallyMoved { span, .. } => span.span,
            }),
    {
        match self {
            OwnershipError::InvalidInput(_) => DUMMY_SPAN,
            OwnershipError::UseAfterMove { span, .. } => span.span,
            OwnershipError::ConditionallyMoved { span, .. } => span.span,
        }
    }

    /// The module of the offending use, where one is recorded.
    pub fn source(&self) -> (r: Option<&str>)
        ensures
            (match r {
                Some(text) => Some(text@),
                None => None,
            }) == (match *self {
                OwnershipError::InvalidInput(_) => None,
                OwnershipError::UseAfterMove { span, .. } => crate::text::opt_view(span.source),
                OwnershipError::ConditionallyMoved { span, .. } => crate::text::opt_view(span.source),
            }),
    {
        match self {
            OwnershipError::InvalidInput(_) => None,
            OwnershipError::UseAfterMove { span, .. } => match &span.source {
                Some(text) => Some(text.as_str()),
                None => None,
            },
            OwnershipError::ConditionallyMoved { span, .. } => match &span.source {
                Some(text) => Some(text.as_str()),
                None => None,
            },
        }
    }
    /// The text that describes this error.
    pub open spec fn spec_message(self) -> Seq<char> {
        match self {
            OwnershipError::InvalidInput(error) => "ownership analysis requires a checked program: "@ + error@,
            OwnershipError::UseAfterMove { var, .. } => "use of '"@ + var@ + "' after it was transferred (moved) with '^'"@,
            OwnershipError::ConditionallyMoved { var, .. } => "'"@ + var@ + "' is used here but may have been transferred (moved) on some paths"@,
        }
    }

    /// The text shown for this error.
    pub fn message(&self) -> (r: String)
        ensures
            r@ == self.spec_message(),
    {
        match self {
            OwnershipError::InvalidInput(error) => cat2("ownership analysis requires a checked program: ", error.as_str()),
            OwnershipError::UseAfterMove { var, .. } => cat3("use of '", var.as_str(), "' after it was transferred (moved) with '^'"),
            OwnershipError::ConditionallyMoved { var, .. } => cat3("'", var.as_str(), "' is used here but may have been transferred (moved) on some paths"),
        }
    }
}

/// Locating an error a second time changes nothing: the first position stays.
pub proof fn located_once(err: ParseError, first: Span, second: Span)
    ensures
        ({
            let once = located(err, first);
            &&& once.spec_byte_pos() is Some
            &&& located(once, second) == once
        }),
{
}

/// What [`ParseError::at`] gives.
pub open spec fn located(err: ParseError, span: Span) -> ParseError {
    if err.spec_byte_pos() is Some {
        err
    } else {
        ParseError::At { err: Box::new(err), span }
    }
}

} // verus!
