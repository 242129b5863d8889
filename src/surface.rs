//! The surface syntax, as written by users.

use vstd::prelude::*;

use crate::source::{FileId, Span};

verus! {

/// Patterns of match branches: a number, or a name that matches anything.
#[derive(Debug, PartialEq, Eq)]
pub enum Pattern {
    NumberLiteral(Span, String),
    Name(Span, String),
}

/// Terms of the surface syntax.
#[derive(Debug, PartialEq, Eq)]
pub enum Term {
    Name(Span, String),
    Ann(Box<Term>, Box<Term>),
    Host(Span),
    Format(Span),
    Kind(Span),
    FunctionType(Box<Term>, Box<Term>),
    FunctionElim(Box<Term>, Vec<Term>),
    NumberLiteral(Span, String),
    If(Span, Box<Term>, Box<Term>, Box<Term>),
    Match(Span, Box<Term>, Vec<(Pattern, Term)>),
    Error(Span),
}

/// The source span of a surface term.
pub open spec fn span_of(t: Term) -> Span
    decreases t,
{
    match t {
        Term::Name(s, _) => s,
        Term::Ann(e, ty) => span_of(*e).spec_merge(span_of(*ty)),
        Term::Host(s) => s,
        Term::Format(s) => s,
        Term::Kind(s) => s,
        Term::FunctionType(p, b) => span_of(*p).spec_merge(span_of(*b)),
        Term::FunctionElim(h, args) => if args@.len() == 0 {
            span_of(*h)
        } else {
            span_of(*h).spec_merge(span_of(args@.last()))
        },
        Term::NumberLiteral(s, _) => s,
        Term::If(s, _, _, _) => s,
        Term::Match(s, _, _) => s,
        Term::Error(s) => s,
    }
}

impl Term {
    pub fn span(&self) -> (r: Span)
        ensures
            r == span_of(*self),
        decreases self,
    {
        match self {
            Term::Name(s, _) => *s,
            Term::Ann(e, ty) => e.span().merge(&ty.span()),
            Term::Host(s) => *s,
            Term::Format(s) => *s,
            Term::Kind(s) => *s,
            Term::FunctionType(p, b) => p.span().merge(&b.span()),
            Term::FunctionElim(h, args) => {
                let n = args.len();
                if n == 0 {
                    h.span()
                } else {
                    proof {
                        assert(args@.last() == args@[n - 1]);
                    }
                    h.span().merge(&args[n - 1].span())
                }
            },
            Term::NumberLiteral(s, _) => *s,
            Term::If(s, _, _, _) => *s,
            Term::Match(s, _, _) => *s,
            Term::Error(s) => *s,
        }
    }
}

/// A field of a structure type.
#[derive(Debug, PartialEq, Eq)]
pub struct TypeField {
    pub doc: String,
    pub name_span: Span,
    pub name: String,
    pub term: Term,
}

/// An alias definition, with an optional type annotation.
#[derive(Debug, PartialEq, Eq)]
pub struct Alias {
    pub span: Span,
    pub doc: String,
    pub name: String,
    pub ty: Option<Term>,
    pub term: Term,
}

/// A structure type definition.
#[derive(Debug, PartialEq, Eq)]
pub struct StructType {
    pub span: Span,
    pub doc: String,
    pub name: String,
    pub fields: Vec<TypeField>,
}

#[derive(Debug, PartialEq, Eq)]
pub enum Item {
    Alias(Alias),
    Struct(StructType),
}

/// A module of items.
#[derive(Debug, PartialEq, Eq)]
pub struct Module {
    pub file_id: FileId,
    pub doc: String,
    pub items: Vec<Item>,
}

} // verus!
