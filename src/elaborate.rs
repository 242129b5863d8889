//! Elaboration from the surface syntax into the core syntax: name resolution,
//! universe checking, literal classification, pattern compilation and
//! bidirectional type checking.

use vstd::prelude::*;

use crate::core_syntax::{
    lookup_item, Alias as CoreAlias, Constant, Globals, Head, IntBranches, Item as CoreItem,
    ItemBinding, Module as CoreModule, Spine,
    StructType as CoreStructType, Term as CoreTerm, TypeField as CoreTypeField, Universe, Value,
};
use crate::diagnostics::{Diagnostic, Message};
use crate::integer::BigInteger;
use crate::elaboration::{
    apply_args, bool_arms, bool_type_in, check, check_literal, elab_items,
    elab_universe, field_named, insert_branch, int_arms, struct_fields, synth, Scope,
};
use crate::literal::parse_int_literal;
use crate::semantics::{evaluate, find_branch, find_global, find_item, values_equal};
use crate::source::{FileId, Span};
use crate::surface::{
    Item as SurfaceItem, Module as SurfaceModule, Pattern, Term as SurfaceTerm,
    TypeField as SurfaceTypeField,
};

verus! {

/// Names that elaboration recognises among the builtins.
struct BuiltinNames {
    int_name: String,
    f32_name: String,
    f64_name: String,
    bool_name: String,
    true_name: String,
    false_name: String,
}

impl BuiltinNames {
    spec fn wf(&self) -> bool {
        &&& self.int_name@ == "Int"@
        &&& self.f32_name@ == "F32"@
        &&& self.f64_name@ == "F64"@
        &&& self.bool_name@ == "Bool"@
        &&& self.true_name@ == "true"@
        &&& self.false_name@ == "false"@
    }

    fn new() -> (r: BuiltinNames)
        ensures
            r.wf(),
    {
        BuiltinNames {
            int_name: "Int".to_owned(),
            f32_name: "F32".to_owned(),
            f64_name: "F64".to_owned(),
            bool_name: "Bool".to_owned(),
            true_name: "true".to_owned(),
            false_name: "false".to_owned(),
        }
    }
}

/// Contextual information to be used during elaboration.
pub struct Context<'me> {
    /// The global environment.
    globals: &'me Globals,
    /// The file where these items are defined.
    file_id: FileId,
    /// The items elaborated so far, most recent last.
    items: Vec<ItemBinding>,
    /// The type of `if` and `match` scrutinees of boolean type.
    bool_ty: Value,
    names: BuiltinNames,
}

impl<'me> Context<'me> {
    pub closed spec fn scope(&self) -> Scope {
        Scope { globals: self.globals.entries@, items: self.items@ }
    }

    pub closed spec fn spec_file_id(&self) -> FileId {
        self.file_id
    }

    pub closed spec fn wf(&self) -> bool {
        &&& self.names.wf()
        &&& self.bool_ty == bool_type_in(self.globals.entries@)
    }

    /// Create a new context, with no items yet.
    pub fn new(globals: &'me Globals, file_id: FileId) -> (r: Context<'me>)
        ensures
            r.wf(),
            r.scope() == (Scope { globals: globals.entries@, items: Seq::empty() }),
            r.spec_file_id() == file_id,
    {
        let names = BuiltinNames::new();
        let bool_ty = match find_global(&globals.entries, &names.bool_name) {
            Some(g) => Value::Neutral(Head::Global(g.name.clone()), Spine::Empty),
            None => Value::Error,
        };
        let r = Context { globals, file_id, items: Vec::new(), bool_ty, names };
        assert(r.scope().items =~= Seq::empty());
        r
    }

    /// Lookup the type of a binding corresponding to `name` in the context,
    /// returning `None` if `name` was not yet bound.
    pub fn lookup_ty(&self, name: &String) -> (r: Option<&Value>)
        ensures
            r matches Some(v) ==> lookup_item(self.scope().items, name@) matches Some(b) && b.ty
                == *v,
            r is None ==> lookup_item(self.scope().items, name@) is None,
    {
        match find_item(&self.items, name) {
            Some(b) => Some(&b.ty),
            None => None,
        }
    }

    pub fn file_id(&self) -> (r: FileId)
        ensures
            r == self.spec_file_id(),
    {
        self.file_id
    }

    /// Record an elaborated item.
    pub(crate) fn bind(&mut self, binding: ItemBinding)
        requires
            old(self).wf(),
        ensures
            final(self).wf(),
            final(self).scope() == (Scope {
                globals: old(self).scope().globals,
                items: old(self).scope().items.push(binding),
            }),
            final(self).spec_file_id() == old(self).spec_file_id(),
    {
        self.items.push(binding);
    }

    pub(crate) fn items(&self) -> (r: &Vec<ItemBinding>)
        ensures
            r@ == self.scope().items,
    {
        &self.items
    }
}

/// `bs` with a branch for `key` added in ascending place.
fn insert_int_branch(bs: IntBranches, key: BigInteger, t: CoreTerm) -> (r: IntBranches)
    ensures
        r == insert_branch(bs, key, t),
    decreases bs,
{
    match bs {
        IntBranches::Nil => IntBranches::Cons(key, Box::new(t), Box::new(IntBranches::Nil)),
        IntBranches::Cons(k, u, rest) => {
            let c = key.compare(&k);
            if c < 0 {
                IntBranches::Cons(key, Box::new(t), Box::new(IntBranches::Cons(k, u, rest)))
            } else if c == 0 {
                IntBranches::Cons(k, u, rest)
            } else {
                IntBranches::Cons(k, u, Box::new(insert_int_branch(*rest, key, t)))
            }
        },
    }
}

/// Check that a surface term is a type or kind, and elaborate it into the core syntax.
pub fn elaborate_universe(
    context: &Context,
    surface_term: &SurfaceTerm,
    diags: &mut Vec<Diagnostic>,
) -> (r: (CoreTerm, Option<Universe>))
    requires
        context.wf(),
    ensures
        (r.0, r.1, final(diags)@) == elab_universe(context.scope(), *surface_term, old(diags)@),
    decreases surface_term, 2nat,
{
    match surface_term {
        SurfaceTerm::Kind(_) => (CoreTerm::Universe(Universe::Kind), Some(Universe::Kind)),
        SurfaceTerm::Host(_) => (CoreTerm::Universe(Universe::Host), Some(Universe::Kind)),
        SurfaceTerm::Format(_) => (CoreTerm::Universe(Universe::Format), Some(Universe::Kind)),
        _ => {
            let (core_term, ty) = synth_term(context, surface_term, diags);
            match ty {
                Value::Universe(u) => (core_term, Some(u)),
                Value::Error => (core_term, None),
                _ => {
                    diags.push(Diagnostic::error(Message::UniverseMismatch, surface_term.span()));
                    (CoreTerm::Error, None)
                },
            }
        },
    }
}

/// Check a numeric literal against the expected type.
fn check_number(
    names: &BuiltinNames,
    span: Span,
    raw: &String,
    expected_ty: &Value,
    diags: &mut Vec<Diagnostic>,
) -> (r: CoreTerm)
    requires
        names.wf(),
    ensures
        (r, final(diags)@) == check_literal(span, *raw, *expected_ty, old(diags)@),
{
    match expected_ty {
        Value::Neutral(Head::Global(n), Spine::Empty) => {
            if *n == names.int_name {
                match parse_int_literal(raw) {
                    Some(v) => CoreTerm::Constant(Constant::Int(v)),
                    None => {
                        diags.push(Diagnostic::error(Message::InvalidNumericLiteral, span));
                        CoreTerm::Error
                    },
                }
            } else if *n == names.f32_name {
                CoreTerm::Constant(Constant::F32(raw.clone()))
            } else if *n == names.f64_name {
                CoreTerm::Constant(Constant::F64(raw.clone()))
            } else {
                diags.push(Diagnostic::error(Message::NumericLiteralNotSupported, span));
                CoreTerm::Error
            }
        },
        _ => {
            diags.push(Diagnostic::error(Message::NumericLiteralNotSupported, span));
            CoreTerm::Error
        },
    }
}

/// Check a surface term against the given type, and elaborate it into the core syntax.
pub fn check_term(
    context: &Context,
    surface_term: &SurfaceTerm,
    expected_ty: &Value,
    diags: &mut Vec<Diagnostic>,
) -> (r: CoreTerm)
    requires
        context.wf(),
    ensures
        (r, final(diags)@) == check(context.scope(), *surface_term, *expected_ty, old(diags)@),
    decreases surface_term, 1nat,
{
    if matches!(surface_term, SurfaceTerm::Error(_)) || matches!(expected_ty, Value::Error) {
        return CoreTerm::Error;
    }
    match surface_term {
        SurfaceTerm::NumberLiteral(span, raw) => check_number(
            &context.names,
            *span,
            raw,
            expected_ty,
            diags,
        ),
        SurfaceTerm::If(_, surface_head, surface_if_true, surface_if_false) => {
            let head = check_term(context, surface_head, &context.bool_ty, diags);
            let if_true = check_term(context, surface_if_true, expected_ty, diags);
            let if_false = check_term(context, surface_if_false, expected_ty, diags);
            CoreTerm::BoolElim(Box::new(head), Box::new(if_true), Box::new(if_false))
        },
        SurfaceTerm::Match(span, surface_head, surface_branches) => {
            let (head, head_ty) = synth_term(context, surface_head, diags);
            match head_ty {
                Value::Neutral(Head::Global(n), Spine::Empty) => {
                    if n == context.names.bool_name {
                        let (if_true, if_false) = check_bool_branches(
                            context,
                            surface_branches,
                            surface_branches.len(),
                            expected_ty,
                            diags,
                        );
                        let if_true = match if_true {
                            Some(c) => c,
                            None => {
                                diags.push(Diagnostic::error(Message::MissingBoolPattern, *span));
                                CoreTerm::Error
                            },
                        };
                        let if_false = match if_false {
                            Some(c) => c,
                            None => {
                                diags.push(Diagnostic::error(Message::MissingBoolPattern, *span));
                                CoreTerm::Error
                            },
                        };
                        CoreTerm::BoolElim(Box::new(head), Box::new(if_true), Box::new(if_false))
                    } else if n == context.names.int_name {
                        let (branches, default) = check_int_branches(
                            context,
                            surface_branches,
                            surface_branches.len(),
                            expected_ty,
                            diags,
                        );
                        let default = match default {
                            Some(c) => c,
                            None => {
                                diags.push(
                                    Diagnostic::error(Message::NoDefaultPattern, surface_head.span()),
                                );
                                CoreTerm::Error
                            },
                        };
                        CoreTerm::IntElim(Box::new(head), branches, Box::new(default))
                    } else {
                        diags.push(
                            Diagnostic::error(Message::UnsupportedPatternType, surface_head.span()),
                        );
                        CoreTerm::Error
                    }
                },
                Value::Error => CoreTerm::Error,
                _ => {
                    diags.push(
                        Diagnostic::error(Message::UnsupportedPatternType, surface_head.span()),
                    );
                    CoreTerm::Error
                },
            }
        },
        _ => {
            let (core_term, synth_ty) = synth_term(context, surface_term, diags);
            if values_equal(&synth_ty, expected_ty) {
                core_term
            } else {
                diags.push(Diagnostic::error(Message::TypeMismatch, surface_term.span()));
                CoreTerm::Error
            }
        },
    }
}

/// The `true` and `false` arms given by the first `n` branches of a boolean match.
fn check_bool_branches(
    context: &Context,
    surface_branches: &Vec<(Pattern, SurfaceTerm)>,
    n: usize,
    expected_ty: &Value,
    diags: &mut Vec<Diagnostic>,
) -> (r: (Option<CoreTerm>, Option<CoreTerm>))
    requires
        context.wf(),
        n <= surface_branches@.len(),
    ensures
        (r.0, r.1, final(diags)@) == bool_arms(
            context.scope(),
            *surface_branches,
            n as nat,
            *expected_ty,
            old(diags)@,
        ),
    decreases surface_branches, n,
{
    if n == 0 {
        return (None, None);
    }
    let (if_true, if_false) = check_bool_branches(
        context,
        surface_branches,
        n - 1,
        expected_ty,
        diags,
    );
    let (pattern, surface_term) = &surface_branches[n - 1];
    let core_term = check_term(context, surface_term, expected_ty, diags);
    match pattern {
        Pattern::Name(span, name) => {
            if *name == context.names.true_name {
                if if_true.is_none() {
                    (Some(core_term), if_false)
                } else {
                    diags.push(Diagnostic::warning(Message::UnreachablePattern, *span));
                    (if_true, if_false)
                }
            } else if *name == context.names.false_name {
                if if_false.is_none() {
                    (if_true, Some(core_term))
                } else {
                    diags.push(Diagnostic::warning(Message::UnreachablePattern, *span));
                    (if_true, if_false)
                }
            } else {
                diags.push(Diagnostic::error(Message::UnsupportedPattern, *span));
                (if_true, if_false)
            }
        },
        Pattern::NumberLiteral(span, _) => {
            diags.push(Diagnostic::error(Message::UnsupportedPattern, *span));
            (if_true, if_false)
        },
    }
}

/// The literal branches, in ascending order, and the default given by the
/// first `n` branches of an integer match.
fn check_int_branches(
    context: &Context,
    surface_branches: &Vec<(Pattern, SurfaceTerm)>,
    n: usize,
    expected_ty: &Value,
    diags: &mut Vec<Diagnostic>,
) -> (r: (IntBranches, Option<CoreTerm>))
    requires
        context.wf(),
        n <= surface_branches@.len(),
    ensures
        (r.0, r.1, final(diags)@) == int_arms(
            context.scope(),
            *surface_branches,
            n as nat,
            *expected_ty,
            old(diags)@,
        ),
    decreases surface_branches, n,
{
    if n == 0 {
        return (IntBranches::Nil, None);
    }
    let (branches, default) = check_int_branches(
        context,
        surface_branches,
        n - 1,
        expected_ty,
        diags,
    );
    let (pattern, surface_term) = &surface_branches[n - 1];
    let core_term = check_term(context, surface_term, expected_ty, diags);
    match pattern {
        Pattern::NumberLiteral(span, literal) => match parse_int_literal(literal) {
            Some(value) => {
                if default.is_some() || find_branch(&branches, &value).is_some() {
                    diags.push(Diagnostic::warning(Message::UnreachablePattern, *span));
                    (branches, default)
                } else {
                    (insert_int_branch(branches, value, core_term), default)
                }
            },
            None => {
                diags.push(Diagnostic::error(Message::InvalidNumericLiteral, *span));
                (branches, default)
            },
        },
        Pattern::Name(span, _) => {
            if default.is_none() {
                (branches, Some(core_term))
            } else {
                diags.push(Diagnostic::warning(Message::UnreachablePattern, *span));
                (branches, default)
            }
        },
    }
}

/// Apply a head of type `head_ty` to the first `n` arguments. The flag says
/// that the application failed.
fn apply_arguments(
    context: &Context,
    head_span: Span,
    head: CoreTerm,
    head_ty: Value,
    arguments: &Vec<SurfaceTerm>,
    n: usize,
    diags: &mut Vec<Diagnostic>,
) -> (r: (CoreTerm, Value, bool))
    requires
        context.wf(),
        n <= arguments@.len(),
    ensures
        (r.0, r.1, r.2, final(diags)@) == apply_args(
            context.scope(),
            head_span,
            (head, head_ty),
            *arguments,
            n as nat,
            old(diags)@,
        ),
    decreases arguments, n,
{
    if n == 0 {
        return (head, head_ty, false);
    }
    let (core_head, ty, failed) = apply_arguments(
        context,
        head_span,
        head,
        head_ty,
        arguments,
        n - 1,
        diags,
    );
    if failed {
        return (core_head, ty, true);
    }
    match ty {
        Value::FunctionType(param_ty, body_ty) => {
            let argument = check_term(context, &arguments[n - 1], &param_ty, diags);
            (CoreTerm::FunctionElim(Box::new(core_head), Box::new(argument)), *body_ty, false)
        },
        Value::Error => (CoreTerm::Error, Value::Error, true),
        _ => {
            diags.push(
                Diagnostic::error_with(Message::NotAFunction, head_span, arguments[n - 1].span()),
            );
            (CoreTerm::Error, Value::Error, true)
        },
    }
}

/// Synthesize the type of a surface term, and elaborate it into the core syntax.
pub fn synth_term(
    context: &Context,
    surface_term: &SurfaceTerm,
    diags: &mut Vec<Diagnostic>,
) -> (r: (CoreTerm, Value))
    requires
        context.wf(),
    ensures
        (r.0, r.1, final(diags)@) == synth(context.scope(), *surface_term, old(diags)@),
    decreases surface_term, 0nat,
{
    match surface_term {
        SurfaceTerm::Ann(surface_term, surface_ty) => {
            let (core_ty, _) = elaborate_universe(context, surface_ty, diags);
            let ty = evaluate(&context.items, &core_ty);
            let core_term = check_term(context, surface_term, &ty, diags);
            (CoreTerm::Ann(Box::new(core_term), Box::new(core_ty)), ty)
        },
        SurfaceTerm::Name(span, name) => {
            if let Some(g) = find_global(&context.globals.entries, name) {
                return (CoreTerm::Global(name.clone()), evaluate(&context.items, &g.ty));
            }
            if let Some(ty) = context.lookup_ty(name) {
                return (CoreTerm::Item(name.clone()), ty.copy());
            }
            diags.push(Diagnostic::error(Message::VarNameNotFound, *span));
            (CoreTerm::Error, Value::Error)
        },
        SurfaceTerm::Kind(span) => {
            diags.push(Diagnostic::error(Message::KindHasNoType, *span));
            (CoreTerm::Error, Value::Error)
        },
        SurfaceTerm::Host(_) => (CoreTerm::Universe(Universe::Host), Value::Universe(Universe::Kind)),
        SurfaceTerm::Format(_) => (
            CoreTerm::Universe(Universe::Format),
            Value::Universe(Universe::Kind),
        ),
        SurfaceTerm::FunctionType(param_ty, body_ty) => {
            let (core_param_ty, param_universe) = elaborate_universe(context, param_ty, diags);
            let (core_body_ty, body_universe) = elaborate_universe(context, body_ty, diags);
            match (param_universe, body_universe) {
                (Some(u1), Some(u2)) => {
                    let universe = match (u1, u2) {
                        (Universe::Host, Universe::Host) => Some(Universe::Host),
                        (Universe::Host, Universe::Kind) => Some(Universe::Kind),
                        (Universe::Kind, Universe::Kind) => Some(Universe::Kind),
                        _ => None,
                    };
                    match universe {
                        Some(u) => (
                            CoreTerm::FunctionType(Box::new(core_param_ty), Box::new(core_body_ty)),
                            Value::Universe(u),
                        ),
                        None => {
                            diags.push(
                                Diagnostic::error(
                                    Message::IllTypedFunctionType,
                                    surface_term.span(),
                                ),
                            );
                            (CoreTerm::Error, Value::Error)
                        },
                    }
                },
                _ => (CoreTerm::Error, Value::Error),
            }
        },
        SurfaceTerm::FunctionElim(head, arguments) => {
            let (core_head, head_ty) = synth_term(context, head, diags);
            let (core_term, ty, _) = apply_arguments(
                context,
                head.span(),
                core_head,
                head_ty,
                arguments,
                arguments.len(),
                diags,
            );
            (core_term, ty)
        },
        SurfaceTerm::NumberLiteral(span, _) => {
            diags.push(Diagnostic::error(Message::AmbiguousNumericLiteral, *span));
            (CoreTerm::Error, Value::Error)
        },
        SurfaceTerm::If(_, surface_head, surface_if_true, surface_if_false) => {
            let head = check_term(context, surface_head, &context.bool_ty, diags);
            let (if_true, if_true_ty) = synth_term(context, surface_if_true, diags);
            let (if_false, if_false_ty) = synth_term(context, surface_if_false, diags);
            if values_equal(&if_true_ty, &if_false_ty) {
                (
                    CoreTerm::BoolElim(Box::new(head), Box::new(if_true), Box::new(if_false)),
                    if_true_ty,
                )
            } else {
                diags.push(Diagnostic::error(Message::TypeMismatch, surface_if_false.span()));
                (CoreTerm::Error, Value::Error)
            }
        },
        SurfaceTerm::Match(span, _, _) => {
            diags.push(Diagnostic::error(Message::AmbiguousMatchExpression, *span));
            (CoreTerm::Error, Value::Error)
        },
        SurfaceTerm::Error(_) => (CoreTerm::Error, Value::Error),
    }
}

/// The first field in `fields` named `name`.
fn find_field<'a>(fields: &'a Vec<CoreTypeField>, name: &String) -> (r: Option<&'a CoreTypeField>)
    ensures
        r matches Some(f) ==> field_named(fields@, name@) == Some(*f),
        r is None ==> field_named(fields@, name@) is None,
{
    let mut i: usize = 0;
    assert(fields@.skip(0) =~= fields@);
    while i < fields.len()
        invariant
            i <= fields@.len(),
            field_named(fields@, name@) == field_named(fields@.skip(i as int), name@),
        decreases fields@.len() - i,
    {
        assert(fields@.skip(i as int).drop_first() =~= fields@.skip(i + 1));
        if fields[i].name == *name {
            return Some(&fields[i]);
        }
        i = i + 1;
    }
    None
}

/// Elaborate structure type fields in the surface syntax into structure type
/// fields in the core syntax.
pub fn elaborate_struct_ty_fields(
    context: &Context,
    surface_fields: &Vec<SurfaceTypeField>,
    diags: &mut Vec<Diagnostic>,
) -> (r: Vec<CoreTypeField>)
    requires
        context.wf(),
    ensures
        (r@, final(diags)@) == struct_fields(
            context.scope(),
            surface_fields@,
            surface_fields@.len(),
            old(diags)@,
        ),
{
    let mut core_fields: Vec<CoreTypeField> = Vec::new();
    let mut i: usize = 0;
    assert(core_fields@ =~= Seq::empty());
    while i < surface_fields.len()
        invariant
            context.wf(),
            i <= surface_fields@.len(),
            (core_fields@, diags@) == struct_fields(
                context.scope(),
                surface_fields@,
                i as nat,
                old(diags)@,
            ),
        decreases surface_fields@.len() - i,
    {
        let field = &surface_fields[i];
        let field_span = field.name_span.merge(&field.term.span());
        let format_ty = Value::Universe(Universe::Format);
        let ty = check_term(context, &field.term, &format_ty, diags);
        match find_field(&core_fields, &field.name) {
            Some(prev) => {
                diags.push(
                    Diagnostic::error_with(Message::FieldRedeclaration, field_span, prev.span),
                );
            },
            None => {
                core_fields.push(
                    CoreTypeField {
                        span: field_span,
                        doc: field.doc.clone(),
                        name: field.name.clone(),
                        term: ty,
                    },
                );
            },
        }
        i = i + 1;
    }
    core_fields
}

/// Elaborate items in the surface syntax into items in the core syntax.
pub fn elaborate_items(
    context: Context,
    surface_items: &Vec<SurfaceItem>,
    diags: &mut Vec<Diagnostic>,
) -> (r: Vec<CoreItem>)
    requires
        context.wf(),
        context.scope().items == Seq::<ItemBinding>::empty(),
    ensures
        r@.map_values(|it: CoreItem| it.model()) == elab_items(
            context.scope().globals,
            surface_items@,
            surface_items@.len(),
            old(diags)@,
        ).out,
        final(diags)@ == elab_items(
            context.scope().globals,
            surface_items@,
            surface_items@.len(),
            old(diags)@,
        ).ds,
{
    let ghost globals = context.scope().globals;
    let mut context = context;
    let mut core_items: Vec<CoreItem> = Vec::new();
    let mut i: usize = 0;
    assert(core_items@.map_values(|it: CoreItem| it.model()) =~= Seq::empty());
    while i < surface_items.len()
        invariant
            context.wf(),
            i <= surface_items@.len(),
            context.scope() == (Scope {
                globals,
                items: elab_items(globals, surface_items@, i as nat, old(diags)@).items,
            }),
            core_items@.map_values(|it: CoreItem| it.model()) == elab_items(
                globals,
                surface_items@,
                i as nat,
                old(diags)@,
            ).out,
            diags@ == elab_items(globals, surface_items@, i as nat, old(diags)@).ds,
        decreases surface_items@.len() - i,
    {
        let ghost old_models = core_items@.map_values(|it: CoreItem| it.model());
        match &surface_items[i] {
            SurfaceItem::Alias(alias) => {
                let (core_term, ty) = match &alias.ty {
                    Some(surface_ty) => {
                        let (core_ty, _) = elaborate_universe(&context, surface_ty, diags);
                        let ty = evaluate(context.items(), &core_ty);
                        let core_term = check_term(&context, &alias.term, &ty, diags);
                        (CoreTerm::Ann(Box::new(core_term), Box::new(core_ty)), ty)
                    },
                    None => synth_term(&context, &alias.term, diags),
                };
                match find_item(context.items(), &alias.name) {
                    Some(b) => {
                        diags.push(
                            Diagnostic::error_with(Message::ItemRedefinition, alias.span, b.span),
                        );
                    },
                    None => {
                        let value = evaluate(context.items(), &core_term);
                        context.bind(
                            ItemBinding { name: alias.name.clone(), span: alias.span, ty, value },
                        );
                        let item = CoreItem::Alias(
                            CoreAlias {
                                span: alias.span,
                                doc: alias.doc.clone(),
                                name: alias.name.clone(),
                                term: core_term,
                            },
                        );
                        core_items.push(item);
                        assert(core_items@.map_values(|it: CoreItem| it.model()) =~= old_models.push(
                            item.model(),
                        ));
                    },
                }
            },
            SurfaceItem::Struct(struct_ty) => {
                let core_fields = elaborate_struct_ty_fields(&context, &struct_ty.fields, diags);
                match find_item(context.items(), &struct_ty.name) {
                    Some(b) => {
                        diags.push(
                            Diagnostic::error_with(
                                Message::ItemRedefinition,
                                struct_ty.span,
                                b.span,
                            ),
                        );
                    },
                    None => {
                        context.bind(
                            ItemBinding {
                                name: struct_ty.name.clone(),
                                span: struct_ty.span,
                                ty: Value::Universe(Universe::Format),
                                value: Value::Neutral(
                                    Head::Item(struct_ty.name.clone()),
                                    Spine::Empty,
                                ),
                            },
                        );
                        let item = CoreItem::Struct(
                            CoreStructType {
                                span: struct_ty.span,
                                doc: struct_ty.doc.clone(),
                                name: struct_ty.name.clone(),
                                fields: core_fields,
                            },
                        );
                        core_items.push(item);
                        assert(core_items@.map_values(|it: CoreItem| it.model()) =~= old_models.push(
                            item.model(),
                        ));
                    },
                }
            },
        }
        i = i + 1;
    }
    core_items
}

/// Elaborate a module in the surface syntax into the core syntax.
pub fn elaborate_module(
    globals: &Globals,
    surface_module: &SurfaceModule,
    diags: &mut Vec<Diagnostic>,
) -> (r: CoreModule)
    ensures
        r.file_id == surface_module.file_id,
        r.doc == surface_module.doc,
        r.items@.map_values(|it: CoreItem| it.model()) == elab_items(
            globals.entries@,
            surface_module.items@,
            surface_module.items@.len(),
            old(diags)@,
        ).out,
        final(diags)@ == elab_items(
            globals.entries@,
            surface_module.items@,
            surface_module.items@.len(),
            old(diags)@,
        ).ds,
{
    let context = Context::new(globals, surface_module.file_id);
    CoreModule {
        file_id: surface_module.file_id,
        doc: surface_module.doc.clone(),
        items: elaborate_items(context, &surface_module.items, diags),
    }
}

} // verus!
