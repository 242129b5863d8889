//! The core syntax, its semantic values, and the evaluator that relates them.

use vstd::prelude::*;

use crate::integer::BigInteger;
use crate::source::{FileId, Span};

verus! {

/// The classification levels of types.
#[derive(Debug, Copy, Clone, PartialEq, Eq, Structural)]
pub enum Universe {
    Host,
    Format,
    Kind,
}

/// A literal value. Floating-point literals keep the text they were written as.
#[derive(Debug, PartialEq, Eq)]
pub enum Constant {
    Int(BigInteger),
    F32(String),
    F64(String),
}

/// Branches of an integer eliminator, ordered by strictly ascending value.
#[derive(Debug, PartialEq, Eq)]
pub enum IntBranches {
    Nil,
    Cons(BigInteger, Box<Term>, Box<IntBranches>),
}

/// Terms of the core syntax.
#[derive(Debug, PartialEq, Eq)]
pub enum Term {
    Global(String),
    Item(String),
    Ann(Box<Term>, Box<Term>),
    Universe(Universe),
    FunctionType(Box<Term>, Box<Term>),
    FunctionElim(Box<Term>, Box<Term>),
    Constant(Constant),
    BoolElim(Box<Term>, Box<Term>, Box<Term>),
    IntElim(Box<Term>, IntBranches, Box<Term>),
    Error,
}

/// The head of a neutral value.
#[derive(Debug, PartialEq, Eq)]
pub enum Head {
    Global(String),
    Item(String),
}

/// Pending applications on a neutral head, innermost first.
#[derive(Debug, PartialEq, Eq)]
pub enum Spine {
    Empty,
    Apply(Box<Spine>, Box<Value>),
}

/// Semantic values, the results of evaluation.
#[derive(Debug, PartialEq, Eq)]
pub enum Value {
    Neutral(Head, Spine),
    Universe(Universe),
    FunctionType(Box<Value>, Box<Value>),
    Constant(Constant),
    Error,
}

/// A builtin: its name and the term of its declared type.
#[derive(Debug, PartialEq, Eq)]
pub struct Global {
    pub name: String,
    pub ty: Term,
}

/// The global environment of builtins.
#[derive(Debug, PartialEq, Eq)]
pub struct Globals {
    pub entries: Vec<Global>,
}

impl Globals {
    /// The builtins: the host types `Bool` and `Int`, the formats `F32` and
    /// `F64`, and the booleans `true` and `false`.
    pub fn standard() -> (r: Globals)
        ensures
            r.entries@.len() == 6,
            r.entries@[0].name@ == "Bool"@ && r.entries@[0].ty == Term::Universe(Universe::Host),
            r.entries@[1].name@ == "Int"@ && r.entries@[1].ty == Term::Universe(Universe::Host),
            r.entries@[2].name@ == "F32"@ && r.entries@[2].ty == Term::Universe(Universe::Format),
            r.entries@[3].name@ == "F64"@ && r.entries@[3].ty == Term::Universe(Universe::Format),
            r.entries@[4].name@ == "true"@,
            r.entries@[4].ty matches Term::Global(n) && n@ == "Bool"@,
            r.entries@[5].name@ == "false"@,
            r.entries@[5].ty matches Term::Global(n) && n@ == "Bool"@,
    {
        let mut entries: Vec<Global> = Vec::new();
        entries.push(Global { name: "Bool".to_owned(), ty: Term::Universe(Universe::Host) });
        entries.push(Global { name: "Int".to_owned(), ty: Term::Universe(Universe::Host) });
        entries.push(Global { name: "F32".to_owned(), ty: Term::Universe(Universe::Format) });
        entries.push(Global { name: "F64".to_owned(), ty: Term::Universe(Universe::Format) });
        entries.push(Global { name: "true".to_owned(), ty: Term::Global("Bool".to_owned()) });
        entries.push(Global { name: "false".to_owned(), ty: Term::Global("Bool".to_owned()) });
        Globals { entries }
    }
}

/// A field of a structure type: where it was declared, its name, and its format type.
#[derive(Debug, PartialEq, Eq)]
pub struct TypeField {
    pub span: Span,
    pub doc: String,
    pub name: String,
    pub term: Term,
}

#[derive(Debug, PartialEq, Eq)]
pub struct Alias {
    pub span: Span,
    pub doc: String,
    pub name: String,
    pub term: Term,
}

#[derive(Debug, PartialEq, Eq)]
pub struct StructType {
    pub span: Span,
    pub doc: String,
    pub name: String,
    pub fields: Vec<TypeField>,
}

/// Items of the core syntax.
#[derive(Debug, PartialEq, Eq)]
pub enum Item {
    Alias(Alias),
    Struct(StructType),
}

/// What an item holds: its span, name, doc text, and its term or its fields.
pub enum ItemModel {
    Alias(Span, Seq<char>, Seq<char>, Term),
    Struct(Span, Seq<char>, Seq<char>, Seq<TypeField>),
}

impl Item {
    pub open spec fn model(self) -> ItemModel {
        match self {
            Item::Alias(a) => ItemModel::Alias(a.span, a.name@, a.doc@, a.term),
            Item::Struct(s) => ItemModel::Struct(s.span, s.name@, s.doc@, s.fields@),
        }
    }
}

/// A module of the core syntax.
#[derive(Debug, PartialEq, Eq)]
pub struct Module {
    pub file_id: FileId,
    pub doc: String,
    pub items: Vec<Item>,
}

/// An item already elaborated: its name, where it was defined, its type and its value.
#[derive(Debug, PartialEq, Eq)]
pub struct ItemBinding {
    pub name: String,
    pub span: Span,
    pub ty: Value,
    pub value: Value,
}

/// The most recent binding of `name` among `items`.
pub open spec fn lookup_item(items: Seq<ItemBinding>, name: Seq<char>) -> Option<ItemBinding>
    decreases items.len(),
{
    if items.len() == 0 {
        None
    } else if items.last().name@ == name {
        Some(items.last())
    } else {
        lookup_item(items.drop_last(), name)
    }
}

/// The first builtin named `name`.
pub open spec fn lookup_global(entries: Seq<Global>, name: Seq<char>) -> Option<Global>
    decreases entries.len(),
{
    if entries.len() == 0 {
        None
    } else if entries[0].name@ == name {
        Some(entries[0])
    } else {
        lookup_global(entries.drop_first(), name)
    }
}

/// The term of the branch for `key`, if there is one.
pub open spec fn branch_for(bs: IntBranches, key: BigInteger) -> Option<Term>
    decreases bs,
{
    match bs {
        IntBranches::Nil => None,
        IntBranches::Cons(k, t, rest) => if k.value() == key.value() {
            Some(*t)
        } else {
            branch_for(*rest, key)
        },
    }
}

/// Every key in `bs` is greater than `lo`, and the keys ascend strictly.
pub open spec fn ascending_above(bs: IntBranches, lo: int) -> bool
    decreases bs,
{
    match bs {
        IntBranches::Nil => true,
        IntBranches::Cons(k, _, rest) => lo < k.value() && ascending_above(*rest, k.value()),
    }
}

/// The keys of `bs` ascend strictly.
pub open spec fn ascending(bs: IntBranches) -> bool {
    match bs {
        IntBranches::Nil => true,
        IntBranches::Cons(k, _, rest) => ascending_above(*rest, k.value()),
    }
}

/// The evaluation of a core term, where items evaluate to their recorded values.
/// An integer eliminator reduces on a constant scrutinee and is otherwise an
/// error; a boolean eliminator is always an error.
pub open spec fn eval(items: Seq<ItemBinding>, t: Term) -> Value
    decreases t,
{
    match t {
        Term::Global(n) => Value::Neutral(Head::Global(n), Spine::Empty),
        Term::Item(n) => match lookup_item(items, n@) {
            Some(b) => b.value,
            None => Value::Neutral(Head::Item(n), Spine::Empty),
        },
        Term::Ann(e, _) => eval(items, *e),
        Term::Universe(u) => Value::Universe(u),
        Term::FunctionType(a, b) => Value::FunctionType(
            Box::new(eval(items, *a)),
            Box::new(eval(items, *b)),
        ),
        Term::FunctionElim(f, a) => match eval(items, *f) {
            Value::Neutral(h, sp) => Value::Neutral(
                h,
                Spine::Apply(Box::new(sp), Box::new(eval(items, *a))),
            ),
            _ => Value::Error,
        },
        Term::Constant(c) => Value::Constant(c),
        Term::BoolElim(_, _, _) => Value::Error,
        Term::IntElim(h, bs, d) => match eval(items, *h) {
            Value::Constant(Constant::Int(v)) => match eval_int_branch(items, bs, v) {
                Some(r) => r,
                None => eval(items, *d),
            },
            _ => Value::Error,
        },
        Term::Error => Value::Error,
    }
}

/// The evaluation of the branch of `bs` that `key` selects, if there is one.
pub open spec fn eval_int_branch(items: Seq<ItemBinding>, bs: IntBranches, key: BigInteger) -> Option<Value>
    decreases bs,
{
    match bs {
        IntBranches::Nil => None,
        IntBranches::Cons(k, t, rest) => if k.value() == key.value() {
            Some(eval(items, *t))
        } else {
            eval_int_branch(items, *rest, key)
        },
    }
}

pub open spec fn constants_equal(a: Constant, b: Constant) -> bool {
    match (a, b) {
        (Constant::Int(x), Constant::Int(y)) => x.value() == y.value(),
        (Constant::F32(x), Constant::F32(y)) => x@ == y@,
        (Constant::F64(x), Constant::F64(y)) => x@ == y@,
        _ => false,
    }
}

pub open spec fn heads_equal(a: Head, b: Head) -> bool {
    match (a, b) {
        (Head::Global(x), Head::Global(y)) => x@ == y@,
        (Head::Item(x), Head::Item(y)) => x@ == y@,
        _ => false,
    }
}

/// Definitional equality: structural, where an error is equal to anything.
pub open spec fn equal(a: Value, b: Value) -> bool
    decreases a,
{
    match (a, b) {
        (Value::Error, _) => true,
        (_, Value::Error) => true,
        (Value::Neutral(h1, s1), Value::Neutral(h2, s2)) => heads_equal(h1, h2) && spines_equal(
            s1,
            s2,
        ),
        (Value::Universe(u1), Value::Universe(u2)) => u1 == u2,
        (Value::FunctionType(p1, b1), Value::FunctionType(p2, b2)) => equal(*p1, *p2) && equal(
            *b1,
            *b2,
        ),
        (Value::Constant(c1), Value::Constant(c2)) => constants_equal(c1, c2),
        _ => false,
    }
}

pub open spec fn spines_equal(a: Spine, b: Spine) -> bool
    decreases a,
{
    match (a, b) {
        (Spine::Empty, Spine::Empty) => true,
        (Spine::Apply(s1, v1), Spine::Apply(s2, v2)) => spines_equal(*s1, *s2) && equal(*v1, *v2),
        _ => false,
    }
}

} // verus!
