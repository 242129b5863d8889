//! Diagnostics reported during elaboration.

use vstd::prelude::*;

use crate::source::Span;

verus! {

#[derive(Debug, Copy, Clone, PartialEq, Eq, Structural)]
pub enum Severity {
    Error,
    Warning,
}

/// What a diagnostic reports.
#[derive(Debug, Copy, Clone, PartialEq, Eq, Structural)]
pub enum Message {
    /// An item was defined a second time.
    ItemRedefinition,
    /// A structure field was declared a second time.
    FieldRedeclaration,
    /// A term expected to be a type or a kind is neither.
    UniverseMismatch,
    /// `Kind` itself was used where a type is synthesized.
    KindHasNoType,
    /// A numeric literal was checked against a type that has no literals.
    NumericLiteralNotSupported,
    /// A numeric literal could not be parsed.
    InvalidNumericLiteral,
    /// A match scrutinee is neither a boolean nor an integer.
    UnsupportedPatternType,
    /// A pattern that cannot match a value of the scrutinee's type.
    UnsupportedPattern,
    /// The type of a term differs from the expected type.
    TypeMismatch,
    /// A name that is neither a builtin nor an item.
    VarNameNotFound,
    /// A term that is not a function was applied to arguments.
    NotAFunction,
    /// A numeric literal whose type cannot be inferred.
    AmbiguousNumericLiteral,
    /// A match expression whose type cannot be inferred.
    AmbiguousMatchExpression,
    /// A function type between universes that admit none.
    IllTypedFunctionType,
    /// A branch that no value can reach.
    UnreachablePattern,
    /// An integer match without a catch-all branch.
    NoDefaultPattern,
    /// A boolean match that lacks the `true` or the `false` branch.
    MissingBoolPattern,
}

/// The text that a message shows to users.
pub open spec fn message_text(m: Message) -> Seq<char> {
    match m {
        Message::ItemRedefinition => "item redefined"@,
        Message::FieldRedeclaration => "field redeclared"@,
        Message::UniverseMismatch => "expected a type or a kind"@,
        Message::KindHasNoType => "`Kind` has no type"@,
        Message::NumericLiteralNotSupported => "numeric literal not supported at this type"@,
        Message::InvalidNumericLiteral => "invalid numeric literal"@,
        Message::UnsupportedPatternType => "unsupported pattern type"@,
        Message::UnsupportedPattern => "unsupported pattern"@,
        Message::TypeMismatch => "type mismatch"@,
        Message::VarNameNotFound => "cannot find a variable of this name"@,
        Message::NotAFunction => "applied something that is not a function"@,
        Message::AmbiguousNumericLiteral => "ambiguous numeric literal"@,
        Message::AmbiguousMatchExpression => "ambiguous match expression"@,
        Message::IllTypedFunctionType => "no function type between these universes"@,
        Message::UnreachablePattern => "unreachable pattern"@,
        Message::NoDefaultPattern => "no default pattern"@,
        Message::MissingBoolPattern => "missing `true` or `false` pattern"@,
    }
}

impl Message {
    pub fn text(&self) -> (r: String)
        ensures
            r@ == message_text(*self),
    {
        match self {
            Message::ItemRedefinition => "item redefined".to_owned(),
            Message::FieldRedeclaration => "field redeclared".to_owned(),
            Message::UniverseMismatch => "expected a type or a kind".to_owned(),
            Message::KindHasNoType => "`Kind` has no type".to_owned(),
            Message::NumericLiteralNotSupported => "numeric literal not supported at this type".to_owned(),
            Message::InvalidNumericLiteral => "invalid numeric literal".to_owned(),
            Message::UnsupportedPatternType => "unsupported pattern type".to_owned(),
            Message::UnsupportedPattern => "unsupported pattern".to_owned(),
            Message::TypeMismatch => "type mismatch".to_owned(),
            Message::VarNameNotFound => "cannot find a variable of this name".to_owned(),
            Message::NotAFunction => "applied something that is not a function".to_owned(),
            Message::AmbiguousNumericLiteral => "ambiguous numeric literal".to_owned(),
            Message::AmbiguousMatchExpression => "ambiguous match expression".to_owned(),
            Message::IllTypedFunctionType => "no function type between these universes".to_owned(),
            Message::UnreachablePattern => "unreachable pattern".to_owned(),
            Message::NoDefaultPattern => "no default pattern".to_owned(),
            Message::MissingBoolPattern => "missing `true` or `false` pattern".to_owned(),
        }
    }
}

#[derive(Debug, Copy, Clone, PartialEq, Eq)]
pub struct Diagnostic {
    pub severity: Severity,
    pub message: Message,
    pub primary: Span,
    pub secondary: Option<Span>,
}

pub open spec fn error_at(message: Message, span: Span) -> Diagnostic {
    Diagnostic { severity: Severity::Error, message, primary: span, secondary: None }
}

pub open spec fn warning_at(message: Message, span: Span) -> Diagnostic {
    Diagnostic { severity: Severity::Warning, message, primary: span, secondary: None }
}

pub open spec fn error_between(message: Message, span: Span, other: Span) -> Diagnostic {
    Diagnostic { severity: Severity::Error, message, primary: span, secondary: Some(other) }
}

impl Diagnostic {
    pub fn error(message: Message, span: Span) -> (r: Diagnostic)
        ensures
            r == error_at(message, span),
    {
        Diagnostic { severity: Severity::Error, message, primary: span, secondary: None }
    }

    pub fn warning(message: Message, span: Span) -> (r: Diagnostic)
        ensures
            r == warning_at(message, span),
    {
        Diagnostic { severity: Severity::Warning, message, primary: span, secondary: None }
    }

    pub fn error_with(message: Message, span: Span, other: Span) -> (r: Diagnostic)
        ensures
            r == error_between(message, span, other),
    {
        Diagnostic { severity: Severity::Error, message, primary: span, secondary: Some(other) }
    }
}

} // verus!
