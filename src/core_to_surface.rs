//! Converts the core syntax back into the surface syntax, reversing some (but
//! not all) parts of elaboration. Nodes that this pass invents carry empty spans.

use vstd::prelude::*;

use crate::core_syntax::{
    Constant, IntBranches, Item as CoreItem, Module as CoreModule, Term as CoreTerm, Universe,
};
use crate::literal::{decimal_string, int_decimal};
use crate::source::Span;
use crate::surface::{
    Alias as SurfaceAlias, Item as SurfaceItem, Module as SurfaceModule, Pattern,
    StructType as SurfaceStructType, Term as SurfaceTerm, TypeField as SurfaceTypeField,
};

verus! {

/// The text of a constant as a numeric literal.
pub open spec fn constant_text(k: Constant) -> Seq<char> {
    match k {
        Constant::Int(v) => int_decimal(v.value()),
        Constant::F32(s) => s@,
        Constant::F64(s) => s@,
    }
}

/// `s` is the surface form of the core term `c`.
pub open spec fn quotes(c: CoreTerm, s: SurfaceTerm) -> bool
    decreases c,
{
    match c {
        CoreTerm::Global(n) => s matches SurfaceTerm::Name(sp, m) && sp == Span::Empty && m@ == n@,
        CoreTerm::Item(n) => s matches SurfaceTerm::Name(sp, m) && sp == Span::Empty && m@ == n@,
        CoreTerm::Ann(e, ty) => match s {
            SurfaceTerm::Ann(se, sty) => quotes(*e, *se) && quotes(*ty, *sty),
            _ => false,
        },
        CoreTerm::Universe(Universe::Host) => s == SurfaceTerm::Host(Span::Empty),
        CoreTerm::Universe(Universe::Format) => s == SurfaceTerm::Format(Span::Empty),
        CoreTerm::Universe(Universe::Kind) => s == SurfaceTerm::Kind(Span::Empty),
        CoreTerm::FunctionType(a, b) => match s {
            SurfaceTerm::FunctionType(sa, sb) => quotes(*a, *sa) && quotes(*b, *sb),
            _ => false,
        },
        CoreTerm::FunctionElim(f, a) => match s {
            SurfaceTerm::FunctionElim(sf, args) => args@.len() == 1 && quotes(*f, *sf) && quotes(
                *a,
                args@[0],
            ),
            _ => false,
        },
        CoreTerm::Constant(k) => s matches SurfaceTerm::NumberLiteral(sp, text) && sp
            == Span::Empty && text@ == constant_text(k),
        CoreTerm::BoolElim(h, t, f) => match s {
            SurfaceTerm::If(sp, sh, st, sf) => sp == Span::Empty && quotes(*h, *sh) && quotes(
                *t,
                *st,
            ) && quotes(*f, *sf),
            _ => false,
        },
        CoreTerm::IntElim(h, bs, d) => match s {
            SurfaceTerm::Match(sp, sh, sbs) => {
                &&& sp == Span::Empty
                &&& quotes(*h, *sh)
                &&& sbs@.len() >= 1
                &&& quotes_branches(bs, sbs@.drop_last())
                &&& sbs@.last().0 matches Pattern::Name(psp, u) && psp == Span::Empty && u@
                    == "_"@
                &&& quotes(*d, sbs@.last().1)
            },
            _ => false,
        },
        CoreTerm::Error => s == SurfaceTerm::Error(Span::Empty),
    }
}

/// `ss` are the surface branches of `bs`, in the same ascending order.
pub open spec fn quotes_branches(bs: IntBranches, ss: Seq<(Pattern, SurfaceTerm)>) -> bool
    decreases bs,
{
    match bs {
        IntBranches::Nil => ss.len() == 0,
        IntBranches::Cons(k, t, rest) => {
            &&& ss.len() >= 1
            &&& ss[0].0 matches Pattern::NumberLiteral(sp, text) && sp == Span::Empty && text@
                == int_decimal(k.value())
            &&& quotes(*t, ss[0].1)
            &&& quotes_branches(*rest, ss.drop_first())
        },
    }
}

/// `s` is the surface form of the item `c`: an annotated alias regains its
/// separate type.
pub open spec fn quotes_item(c: CoreItem, s: SurfaceItem) -> bool {
    match (c, s) {
        (CoreItem::Alias(a), SurfaceItem::Alias(sa)) => {
            &&& sa.span == a.span
            &&& sa.doc@ == a.doc@
            &&& sa.name@ == a.name@
            &&& match a.term {
                CoreTerm::Ann(e, ty) => sa.ty matches Some(sty) && quotes(*ty, sty) && quotes(
                    *e,
                    sa.term,
                ),
                _ => sa.ty is None && quotes(a.term, sa.term),
            }
        },
        (CoreItem::Struct(st), SurfaceItem::Struct(ss)) => {
            &&& ss.span == st.span
            &&& ss.doc@ == st.doc@
            &&& ss.name@ == st.name@
            &&& ss.fields@.len() == st.fields@.len()
            &&& forall|i: int|
                0 <= i < ss.fields@.len() ==> {
                    &&& (#[trigger] ss.fields@[i]).name@ == st.fields@[i].name@
                    &&& ss.fields@[i].doc@ == st.fields@[i].doc@
                    &&& ss.fields@[i].name_span == Span::Empty
                    &&& quotes(st.fields@[i].term, ss.fields@[i].term)
                }
        },
        _ => false,
    }
}

/// The literal that stands for a constant.
pub fn from_constant(span: Span, constant: &Constant) -> (r: SurfaceTerm)
    ensures
        r matches SurfaceTerm::NumberLiteral(sp, text) && sp == span && text@ == constant_text(
            *constant,
        ),
{
    match constant {
        Constant::Int(value) => SurfaceTerm::NumberLiteral(span, decimal_string(value)),
        Constant::F32(text) => SurfaceTerm::NumberLiteral(span, text.clone()),
        Constant::F64(text) => SurfaceTerm::NumberLiteral(span, text.clone()),
    }
}

/// Append the surface branches of `bs` to `out`.
fn from_branches(bs: &IntBranches, out: &mut Vec<(Pattern, SurfaceTerm)>)
    ensures
        final(out)@.len() >= old(out)@.len(),
        final(out)@.take(old(out)@.len() as int) == old(out)@,
        quotes_branches(*bs, final(out)@.skip(old(out)@.len() as int)),
    decreases bs,
{
    match bs {
        IntBranches::Nil => {
            assert(out@.skip(out@.len() as int).len() == 0);
            assert(out@.take(out@.len() as int) =~= out@);
        },
        IntBranches::Cons(k, t, rest) => {
            let ghost start = out@;
            let pattern = Pattern::NumberLiteral(Span::Empty, decimal_string(k));
            out.push((pattern, from_term(t)));
            let ghost pushed = out@;
            from_branches(rest, out);
            assert(out@.skip(start.len() as int).drop_first() =~= out@.skip(pushed.len() as int));
            assert(out@.take(start.len() as int) =~= pushed.take(start.len() as int));
            assert(pushed.take(start.len() as int) =~= start);
            assert(out@.skip(start.len() as int)[0] == out@.take(pushed.len() as int)[start.len() as int]);
        },
    }
}

/// The surface form of a core term.
pub fn from_term(term: &CoreTerm) -> (r: SurfaceTerm)
    ensures
        quotes(*term, r),
    decreases term,
{
    match term {
        CoreTerm::Global(name) => SurfaceTerm::Name(Span::Empty, name.clone()),
        CoreTerm::Item(name) => SurfaceTerm::Name(Span::Empty, name.clone()),
        CoreTerm::Ann(term, ty) => SurfaceTerm::Ann(Box::new(from_term(term)), Box::new(from_term(ty))),
        CoreTerm::Universe(Universe::Host) => SurfaceTerm::Host(Span::Empty),
        CoreTerm::Universe(Universe::Format) => SurfaceTerm::Format(Span::Empty),
        CoreTerm::Universe(Universe::Kind) => SurfaceTerm::Kind(Span::Empty),
        CoreTerm::FunctionType(param_ty, body_ty) => SurfaceTerm::FunctionType(
            Box::new(from_term(param_ty)),
            Box::new(from_term(body_ty)),
        ),
        CoreTerm::FunctionElim(head, argument) => {
            let head = from_term(head);
            let mut arguments: Vec<SurfaceTerm> = Vec::new();
            arguments.push(from_term(argument));
            SurfaceTerm::FunctionElim(Box::new(head), arguments)
        },
        CoreTerm::Constant(constant) => from_constant(Span::Empty, constant),
        CoreTerm::BoolElim(head, if_true, if_false) => SurfaceTerm::If(
            Span::Empty,
            Box::new(from_term(head)),
            Box::new(from_term(if_true)),
            Box::new(from_term(if_false)),
        ),
        CoreTerm::IntElim(head, branches, default) => {
            let head = from_term(head);
            let mut surface_branches: Vec<(Pattern, SurfaceTerm)> = Vec::new();
            from_branches(branches, &mut surface_branches);
            assert(surface_branches@.skip(0) =~= surface_branches@);
            let ghost literal_branches = surface_branches@;
            surface_branches.push(
                (Pattern::Name(Span::Empty, "_".to_owned()), from_term(default)),
            );
            assert(surface_branches@.drop_last() =~= literal_branches);
            SurfaceTerm::Match(Span::Empty, Box::new(head), surface_branches)
        },
        CoreTerm::Error => SurfaceTerm::Error(Span::Empty),
    }
}

/// The surface form of a core item.
pub fn from_item(item: &CoreItem) -> (r: SurfaceItem)
    ensures
        quotes_item(*item, r),
{
    match item {
        CoreItem::Alias(alias) => {
            let (term, ty) = match &alias.term {
                CoreTerm::Ann(term, ty) => (from_term(term), Some(from_term(ty))),
                term => (from_term(term), None),
            };
            SurfaceItem::Alias(
                SurfaceAlias {
                    span: alias.span,
                    doc: alias.doc.clone(),
                    name: alias.name.clone(),
                    ty,
                    term,
                },
            )
        },
        CoreItem::Struct(struct_ty) => {
            let mut fields: Vec<SurfaceTypeField> = Vec::new();
            let mut i: usize = 0;
            while i < struct_ty.fields.len()
                invariant
                    i <= struct_ty.fields@.len(),
                    fields@.len() == i,
                    forall|j: int|
                        0 <= j < i ==> {
                            &&& (#[trigger] fields@[j]).name@ == struct_ty.fields@[j].name@
                            &&& fields@[j].doc@ == struct_ty.fields@[j].doc@
                            &&& fields@[j].name_span == Span::Empty
                            &&& quotes(struct_ty.fields@[j].term, fields@[j].term)
                        },
                decreases struct_ty.fields@.len() - i,
            {
                let field = &struct_ty.fields[i];
                fields.push(
                    SurfaceTypeField {
                        doc: field.doc.clone(),
                        name_span: Span::Empty,
                        name: field.name.clone(),
                        term: from_term(&field.term),
                    },
                );
                i = i + 1;
            }
            SurfaceItem::Struct(
                SurfaceStructType {
                    span: struct_ty.span,
                    doc: struct_ty.doc.clone(),
                    name: struct_ty.name.clone(),
                    fields,
                },
            )
        },
    }
}

/// The surface form of a core module.
pub fn from_module(module: &CoreModule) -> (r: SurfaceModule)
    ensures
        r.file_id == module.file_id,
        r.doc == module.doc,
        r.items@.len() == module.items@.len(),
        forall|i: int|
            0 <= i < r.items@.len() ==> quotes_item(module.items@[i], #[trigger] r.items@[i]),
{
    let mut items: Vec<SurfaceItem> = Vec::new();
    let mut i: usize = 0;
    while i < module.items.len()
        invariant
            i <= module.items@.len(),
            items@.len() == i,
            forall|j: int| 0 <= j < i ==> quotes_item(module.items@[j], #[trigger] items@[j]),
        decreases module.items@.len() - i,
    {
        items.push(from_item(&module.items[i]));
        i = i + 1;
    }
    SurfaceModule { file_id: module.file_id, doc: module.doc.clone(), items }
}

} // verus!
