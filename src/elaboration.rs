//! What elaboration computes, stated as spec functions over a scope.
//!
//! Each function threads the diagnostics reported so far and returns them
//! with its own appended, in the order they are found.

use vstd::prelude::*;

use crate::integer::BigInteger;
use crate::core_syntax::{
    branch_for, equal, eval, lookup_global, lookup_item, Constant, Global, Head, IntBranches,
    ItemBinding, ItemModel, Spine, Term as CoreTerm, TypeField as CoreTypeField, Universe, Value,
};
use crate::diagnostics::{error_at, error_between, warning_at, Diagnostic, Message};
use crate::literal::int_literal;
use crate::source::Span;
use crate::surface::{
    span_of, Item as SurfaceItem, Pattern, Term as SurfaceTerm, TypeField as SurfaceTypeField,
};

verus! {

/// What elaboration of one term can see: the builtins and the items elaborated so far.
pub struct Scope {
    pub globals: Seq<Global>,
    pub items: Seq<ItemBinding>,
}

/// The type of booleans, which `if` scrutinees are checked against: the
/// builtin `Bool`, or an error where there is none.
pub open spec fn bool_type_in(globals: Seq<Global>) -> Value {
    match lookup_global(globals, "Bool"@) {
        Some(g) => Value::Neutral(Head::Global(g.name), Spine::Empty),
        None => Value::Error,
    }
}

pub open spec fn bool_type(scope: Scope) -> Value {
    bool_type_in(scope.globals)
}

/// `bs` with a branch for `key` in the place that keeps the keys ascending;
/// unchanged where a key of the same value is already there.
pub open spec fn insert_branch(bs: IntBranches, key: BigInteger, t: CoreTerm) -> IntBranches
    decreases bs,
{
    match bs {
        IntBranches::Nil => IntBranches::Cons(key, Box::new(t), Box::new(IntBranches::Nil)),
        IntBranches::Cons(k, u, rest) => if key.value() < k.value() {
            IntBranches::Cons(key, Box::new(t), Box::new(IntBranches::Cons(k, u, rest)))
        } else if key.value() == k.value() {
            IntBranches::Cons(k, u, rest)
        } else {
            IntBranches::Cons(k, u, Box::new(insert_branch(*rest, key, t)))
        },
    }
}

/// Elaboration of a term that must be a type or a kind, with its universe
/// where one is known. The universe keywords are themselves classified at `Kind`.
pub open spec fn elab_universe(scope: Scope, t: SurfaceTerm, ds: Seq<Diagnostic>) -> (
    CoreTerm,
    Option<Universe>,
    Seq<Diagnostic>,
)
    decreases t, 2nat,
{
    match t {
        SurfaceTerm::Kind(_) => (CoreTerm::Universe(Universe::Kind), Some(Universe::Kind), ds),
        SurfaceTerm::Host(_) => (CoreTerm::Universe(Universe::Host), Some(Universe::Kind), ds),
        SurfaceTerm::Format(_) => (CoreTerm::Universe(Universe::Format), Some(Universe::Kind), ds),
        _ => {
            let (c, ty, ds1) = synth(scope, t, ds);
            match ty {
                Value::Universe(u) => (c, Some(u), ds1),
                Value::Error => (c, None, ds1),
                _ => (
                    CoreTerm::Error,
                    None,
                    ds1.push(error_at(Message::UniverseMismatch, span_of(t))),
                ),
            }
        },
    }
}

/// A numeric literal checked against `expected`.
pub open spec fn check_literal(span: Span, raw: String, expected: Value, ds: Seq<Diagnostic>) -> (
    CoreTerm,
    Seq<Diagnostic>,
) {
    let unsupported = (
        CoreTerm::Error,
        ds.push(error_at(Message::NumericLiteralNotSupported, span)),
    );
    match expected {
        Value::Neutral(Head::Global(n), Spine::Empty) => if n@ == "Int"@ {
            match int_literal(raw@) {
                Some(v) => (CoreTerm::Constant(Constant::Int(v)), ds),
                None => (CoreTerm::Error, ds.push(error_at(Message::InvalidNumericLiteral, span))),
            }
        } else if n@ == "F32"@ {
            (CoreTerm::Constant(Constant::F32(raw)), ds)
        } else if n@ == "F64"@ {
            (CoreTerm::Constant(Constant::F64(raw)), ds)
        } else {
            unsupported
        },
        _ => unsupported,
    }
}

/// Checking a surface term against an expected type.
pub open spec fn check(scope: Scope, t: SurfaceTerm, expected: Value, ds: Seq<Diagnostic>) -> (
    CoreTerm,
    Seq<Diagnostic>,
)
    decreases t, 1nat,
{
    if t is Error || expected is Error {
        (CoreTerm::Error, ds)
    } else {
        match t {
            SurfaceTerm::NumberLiteral(span, raw) => check_literal(span, raw, expected, ds),
            SurfaceTerm::If(_, h, a, b) => {
                let (ch, ds1) = check(scope, *h, bool_type(scope), ds);
                let (ca, ds2) = check(scope, *a, expected, ds1);
                let (cb, ds3) = check(scope, *b, expected, ds2);
                (CoreTerm::BoolElim(Box::new(ch), Box::new(ca), Box::new(cb)), ds3)
            },
            SurfaceTerm::Match(span, h, branches) => {
                let (ch, hty, ds1) = synth(scope, *h, ds);
                let unsupported = (
                    CoreTerm::Error,
                    ds1.push(error_at(Message::UnsupportedPatternType, span_of(*h))),
                );
                match hty {
                    Value::Neutral(Head::Global(n), Spine::Empty) => if n@ == "Bool"@ {
                        let (ta, fa, ds2) = bool_arms(
                            scope,
                            branches,
                            branches@.len(),
                            expected,
                            ds1,
                        );
                        let (ct, ds3) = arm_or_missing(ta, span, ds2);
                        let (cf, ds4) = arm_or_missing(fa, span, ds3);
                        (CoreTerm::BoolElim(Box::new(ch), Box::new(ct), Box::new(cf)), ds4)
                    } else if n@ == "Int"@ {
                        let (bs, default, ds2) = int_arms(
                            scope,
                            branches,
                            branches@.len(),
                            expected,
                            ds1,
                        );
                        let (cd, ds3) = default_or_missing(default, span_of(*h), ds2);
                        (CoreTerm::IntElim(Box::new(ch), bs, Box::new(cd)), ds3)
                    } else {
                        unsupported
                    },
                    Value::Error => (CoreTerm::Error, ds1),
                    _ => unsupported,
                }
            },
            _ => {
                let (c, ty, ds1) = synth(scope, t, ds);
                if equal(ty, expected) {
                    (c, ds1)
                } else {
                    (CoreTerm::Error, ds1.push(error_at(Message::TypeMismatch, span_of(t))))
                }
            },
        }
    }
}

/// A boolean arm, or an error term and a diagnostic where it is missing.
pub open spec fn arm_or_missing(arm: Option<CoreTerm>, span: Span, ds: Seq<Diagnostic>) -> (
    CoreTerm,
    Seq<Diagnostic>,
) {
    match arm {
        Some(c) => (c, ds),
        None => (CoreTerm::Error, ds.push(error_at(Message::MissingBoolPattern, span))),
    }
}

/// The default branch, or an error term and a diagnostic where there is none.
pub open spec fn default_or_missing(default: Option<CoreTerm>, span: Span, ds: Seq<Diagnostic>) -> (
    CoreTerm,
    Seq<Diagnostic>,
) {
    match default {
        Some(c) => (c, ds),
        None => (CoreTerm::Error, ds.push(error_at(Message::NoDefaultPattern, span))),
    }
}

/// The `true` and `false` arms that the first `n` branches of a boolean match give.
pub open spec fn bool_arms(
    scope: Scope,
    branches: Vec<(Pattern, SurfaceTerm)>,
    n: nat,
    expected: Value,
    ds: Seq<Diagnostic>,
) -> (Option<CoreTerm>, Option<CoreTerm>, Seq<Diagnostic>)
    decreases branches, n,
{
    if n == 0 || n > branches@.len() {
        (None, None, ds)
    } else {
        let (ta, fa, ds1) = bool_arms(scope, branches, (n - 1) as nat, expected, ds);
        let (p, body) = branches@[n - 1];
        let (c, ds2) = check(scope, body, expected, ds1);
        match p {
            Pattern::Name(span, name) => if name@ == "true"@ {
                if ta is None {
                    (Some(c), fa, ds2)
                } else {
                    (ta, fa, ds2.push(warning_at(Message::UnreachablePattern, span)))
                }
            } else if name@ == "false"@ {
                if fa is None {
                    (ta, Some(c), ds2)
                } else {
                    (ta, fa, ds2.push(warning_at(Message::UnreachablePattern, span)))
                }
            } else {
                (ta, fa, ds2.push(error_at(Message::UnsupportedPattern, span)))
            },
            Pattern::NumberLiteral(span, _) => (
                ta,
                fa,
                ds2.push(error_at(Message::UnsupportedPattern, span)),
            ),
        }
    }
}

/// The literal branches and the default that the first `n` branches of an
/// integer match give.
pub open spec fn int_arms(
    scope: Scope,
    branches: Vec<(Pattern, SurfaceTerm)>,
    n: nat,
    expected: Value,
    ds: Seq<Diagnostic>,
) -> (IntBranches, Option<CoreTerm>, Seq<Diagnostic>)
    decreases branches, n,
{
    if n == 0 || n > branches@.len() {
        (IntBranches::Nil, None, ds)
    } else {
        let (bs, default, ds1) = int_arms(scope, branches, (n - 1) as nat, expected, ds);
        let (p, body) = branches@[n - 1];
        let (c, ds2) = check(scope, body, expected, ds1);
        match p {
            Pattern::NumberLiteral(span, raw) => match int_literal(raw@) {
                Some(v) => if default is Some || branch_for(bs, v) is Some {
                    (bs, default, ds2.push(warning_at(Message::UnreachablePattern, span)))
                } else {
                    (insert_branch(bs, v, c), default, ds2)
                },
                None => (bs, default, ds2.push(error_at(Message::InvalidNumericLiteral, span))),
            },
            Pattern::Name(span, _) => if default is None {
                (bs, Some(c), ds2)
            } else {
                (bs, default, ds2.push(warning_at(Message::UnreachablePattern, span)))
            },
        }
    }
}

/// Applying a head of type `start.1` to the first `n` arguments; the flag
/// says that the application failed and stopped.
pub open spec fn apply_args(
    scope: Scope,
    head_span: Span,
    start: (CoreTerm, Value),
    args: Vec<SurfaceTerm>,
    n: nat,
    ds: Seq<Diagnostic>,
) -> (CoreTerm, Value, bool, Seq<Diagnostic>)
    decreases args, n,
{
    if n == 0 || n > args@.len() {
        (start.0, start.1, false, ds)
    } else {
        let (c, ty, failed, ds1) = apply_args(scope, head_span, start, args, (n - 1) as nat, ds);
        if failed {
            (c, ty, true, ds1)
        } else {
            match ty {
                Value::FunctionType(p, b) => {
                    let (ca, ds2) = check(scope, args@[n - 1], *p, ds1);
                    (CoreTerm::FunctionElim(Box::new(c), Box::new(ca)), *b, false, ds2)
                },
                Value::Error => (CoreTerm::Error, Value::Error, true, ds1),
                _ => (
                    CoreTerm::Error,
                    Value::Error,
                    true,
                    ds1.push(
                        error_between(Message::NotAFunction, head_span, span_of(args@[n - 1])),
                    ),
                ),
            }
        }
    }
}

/// The classification of a function type between two universes.
pub open spec fn function_universe(param: Universe, body: Universe) -> Option<Universe> {
    match (param, body) {
        (Universe::Host, Universe::Host) => Some(Universe::Host),
        (Universe::Host, Universe::Kind) => Some(Universe::Kind),
        (Universe::Kind, Universe::Kind) => Some(Universe::Kind),
        _ => None,
    }
}

/// Synthesizing the type of a surface term.
pub open spec fn synth(scope: Scope, t: SurfaceTerm, ds: Seq<Diagnostic>) -> (
    CoreTerm,
    Value,
    Seq<Diagnostic>,
)
    decreases t, 0nat,
{
    match t {
        SurfaceTerm::Ann(e, ty) => {
            let (cty, _, ds1) = elab_universe(scope, *ty, ds);
            let v = eval(scope.items, cty);
            let (ce, ds2) = check(scope, *e, v, ds1);
            (CoreTerm::Ann(Box::new(ce), Box::new(cty)), v, ds2)
        },
        SurfaceTerm::Name(span, n) => match lookup_global(scope.globals, n@) {
            Some(g) => (CoreTerm::Global(n), eval(scope.items, g.ty), ds),
            None => match lookup_item(scope.items, n@) {
                Some(b) => (CoreTerm::Item(n), b.ty, ds),
                None => (
                    CoreTerm::Error,
                    Value::Error,
                    ds.push(error_at(Message::VarNameNotFound, span)),
                ),
            },
        },
        SurfaceTerm::Kind(span) => (
            CoreTerm::Error,
            Value::Error,
            ds.push(error_at(Message::KindHasNoType, span)),
        ),
        SurfaceTerm::Host(_) => (
            CoreTerm::Universe(Universe::Host),
            Value::Universe(Universe::Kind),
            ds,
        ),
        SurfaceTerm::Format(_) => (
            CoreTerm::Universe(Universe::Format),
            Value::Universe(Universe::Kind),
            ds,
        ),
        SurfaceTerm::FunctionType(p, b) => {
            let (cp, up, ds1) = elab_universe(scope, *p, ds);
            let (cb, ub, ds2) = elab_universe(scope, *b, ds1);
            match (up, ub) {
                (Some(u1), Some(u2)) => match function_universe(u1, u2) {
                    Some(u) => (
                        CoreTerm::FunctionType(Box::new(cp), Box::new(cb)),
                        Value::Universe(u),
                        ds2,
                    ),
                    None => (
                        CoreTerm::Error,
                        Value::Error,
                        ds2.push(error_at(Message::IllTypedFunctionType, span_of(t))),
                    ),
                },
                _ => (CoreTerm::Error, Value::Error, ds2),
            }
        },
        SurfaceTerm::FunctionElim(h, args) => {
            let (ch, hty, ds1) = synth(scope, *h, ds);
            let (c, ty, _, ds2) = apply_args(scope, span_of(*h), (ch, hty), args, args@.len(), ds1);
            (c, ty, ds2)
        },
        SurfaceTerm::NumberLiteral(span, _) => (
            CoreTerm::Error,
            Value::Error,
            ds.push(error_at(Message::AmbiguousNumericLiteral, span)),
        ),
        SurfaceTerm::If(_, h, a, b) => {
            let (ch, ds1) = check(scope, *h, bool_type(scope), ds);
            let (ca, ta, ds2) = synth(scope, *a, ds1);
            let (cb, tb, ds3) = synth(scope, *b, ds2);
            if equal(ta, tb) {
                (CoreTerm::BoolElim(Box::new(ch), Box::new(ca), Box::new(cb)), ta, ds3)
            } else {
                (
                    CoreTerm::Error,
                    Value::Error,
                    ds3.push(error_at(Message::TypeMismatch, span_of(*b))),
                )
            }
        },
        SurfaceTerm::Match(span, _, _) => (
            CoreTerm::Error,
            Value::Error,
            ds.push(error_at(Message::AmbiguousMatchExpression, span)),
        ),
        SurfaceTerm::Error(_) => (CoreTerm::Error, Value::Error, ds),
    }
}

/// The first field named `name`.
pub open spec fn field_named(fields: Seq<CoreTypeField>, name: Seq<char>) -> Option<CoreTypeField>
    decreases fields.len(),
{
    if fields.len() == 0 {
        None
    } else if fields[0].name@ == name {
        Some(fields[0])
    } else {
        field_named(fields.drop_first(), name)
    }
}

/// The span of a field declaration: from its name to the end of its type.
pub open spec fn field_span(f: SurfaceTypeField) -> Span {
    f.name_span.spec_merge(span_of(f.term))
}

/// The core fields of the first `n` surface fields: each type is checked
/// against the universe of formats, and a repeated name is reported and dropped.
pub open spec fn struct_fields(
    scope: Scope,
    fields: Seq<SurfaceTypeField>,
    n: nat,
    ds: Seq<Diagnostic>,
) -> (Seq<CoreTypeField>, Seq<Diagnostic>)
    decreases n,
{
    if n == 0 || n > fields.len() {
        (Seq::empty(), ds)
    } else {
        let (out, ds1) = struct_fields(scope, fields, (n - 1) as nat, ds);
        let f = fields[n - 1];
        let span = field_span(f);
        let (c, ds2) = check(scope, f.term, Value::Universe(Universe::Format), ds1);
        match field_named(out, f.name@) {
            Some(prev) => (
                out,
                ds2.push(error_between(Message::FieldRedeclaration, span, prev.span)),
            ),
            None => (out.push(CoreTypeField { span, doc: f.doc, name: f.name, term: c }), ds2),
        }
    }
}

/// The state of elaboration after some items: the bindings made, the core
/// items produced and the diagnostics reported.
pub struct ItemsState {
    pub items: Seq<ItemBinding>,
    pub out: Seq<ItemModel>,
    pub ds: Seq<Diagnostic>,
}

/// The term of an alias and its type: checked against its annotation where it
/// has one, and synthesized where not.
pub open spec fn alias_term(scope: Scope, ty: Option<SurfaceTerm>, t: SurfaceTerm, ds: Seq<Diagnostic>) -> (
    CoreTerm,
    Value,
    Seq<Diagnostic>,
) {
    match ty {
        Some(sty) => {
            let (cty, _, ds1) = elab_universe(scope, sty, ds);
            let v = eval(scope.items, cty);
            let (ce, ds2) = check(scope, t, v, ds1);
            (CoreTerm::Ann(Box::new(ce), Box::new(cty)), v, ds2)
        },
        None => synth(scope, t, ds),
    }
}

/// Elaboration of the first `n` items of a module, in order.
pub open spec fn elab_items(
    globals: Seq<Global>,
    surface_items: Seq<SurfaceItem>,
    n: nat,
    ds: Seq<Diagnostic>,
) -> ItemsState
    decreases n,
{
    if n == 0 || n > surface_items.len() {
        ItemsState { items: Seq::empty(), out: Seq::empty(), ds }
    } else {
        let st = elab_items(globals, surface_items, (n - 1) as nat, ds);
        let scope = Scope { globals, items: st.items };
        match surface_items[n - 1] {
            SurfaceItem::Alias(a) => {
                let (c, ty, ds1) = alias_term(scope, a.ty, a.term, st.ds);
                match lookup_item(st.items, a.name@) {
                    Some(b) => ItemsState {
                        ds: ds1.push(error_between(Message::ItemRedefinition, a.span, b.span)),
                        ..st
                    },
                    None => ItemsState {
                        items: st.items.push(
                            ItemBinding { name: a.name, span: a.span, ty, value: eval(st.items, c) },
                        ),
                        out: st.out.push(ItemModel::Alias(a.span, a.name@, a.doc@, c)),
                        ds: ds1,
                    },
                }
            },
            SurfaceItem::Struct(s) => {
                let (fields, ds1) = struct_fields(scope, s.fields@, s.fields@.len(), st.ds);
                match lookup_item(st.items, s.name@) {
                    Some(b) => ItemsState {
                        ds: ds1.push(error_between(Message::ItemRedefinition, s.span, b.span)),
                        ..st
                    },
                    None => ItemsState {
                        items: st.items.push(
                            ItemBinding {
                                name: s.name,
                                span: s.span,
                                ty: Value::Universe(Universe::Format),
                                value: Value::Neutral(Head::Item(s.name), Spine::Empty),
                            },
                        ),
                        out: st.out.push(ItemModel::Struct(s.span, s.name@, s.doc@, fields)),
                        ds: ds1,
                    },
                }
            },
        }
    }
}

} // verus!
