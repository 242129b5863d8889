//! Properties of elaboration and quotation that hold for all inputs.

use vstd::prelude::*;

use crate::core_syntax::{
    ascending, ascending_above, branch_for, equal, eval, heads_equal, lookup_global, lookup_item, spines_equal, Global,
    Head, IntBranches, ItemBinding, ItemModel, Spine, Term as CoreTerm, Universe, Value,
};
use crate::core_to_surface::quotes;
use crate::integer::BigInteger;
use crate::diagnostics::{error_at, error_between, Diagnostic, Message};
use crate::elaboration::{
    alias_term, apply_args, struct_fields, check, elab_items, elab_universe, insert_branch,
    int_arms, synth, Scope,
};
use crate::source::Span;
use crate::surface::{
    span_of, Alias as SurfaceAlias, Item as SurfaceItem, Pattern, Term as SurfaceTerm,
};

verus! {

/// Checking any term against the error type gives the error term and
/// reports nothing.
pub proof fn check_against_error_is_silent(
    scope: Scope,
    t: SurfaceTerm,
    ds: Seq<Diagnostic>,
)
    ensures
        check(scope, t, Value::Error, ds) == (CoreTerm::Error, ds),
{
}

/// An error term synthesizes the error type and reports nothing.
pub proof fn synth_error_is_silent(scope: Scope, span: Span, ds: Seq<Diagnostic>)
    ensures
        synth(scope, SurfaceTerm::Error(span), ds) == (CoreTerm::Error, Value::Error, ds),
        elab_universe(scope, SurfaceTerm::Error(span), ds) == (CoreTerm::Error, None::<Universe>, ds),
{
}

/// A term annotated with an erroneous type reports nothing more, whatever the term.
pub proof fn error_annotation_is_silent(scope: Scope, t: SurfaceTerm, span: Span, ds: Seq<Diagnostic>)
    ensures
        synth(
            scope,
            SurfaceTerm::Ann(Box::new(t), Box::new(SurfaceTerm::Error(span))),
            ds,
        ) == (
            CoreTerm::Ann(Box::new(CoreTerm::Error), Box::new(CoreTerm::Error)),
            Value::Error,
            ds,
        ),
{
    assert(elab_universe(scope, SurfaceTerm::Error(span), ds) == (
        CoreTerm::Error,
        None::<Universe>,
        ds,
    ));
    assert(eval(scope.items, CoreTerm::Error) == Value::Error);
    check_against_error_is_silent(scope, t, ds);
}

proof fn failed_application_stays_silent(
    scope: Scope,
    head_span: Span,
    args: Vec<SurfaceTerm>,
    n: nat,
    ds: Seq<Diagnostic>,
)
    requires
        n <= args@.len(),
    ensures
        apply_args(scope, head_span, (CoreTerm::Error, Value::Error), args, n, ds) == (
            CoreTerm::Error,
            Value::Error,
            n > 0,
            ds,
        ),
    decreases n,
{
    if n > 0 {
        failed_application_stays_silent(scope, head_span, args, (n - 1) as nat, ds);
    }
}

/// Applying an erroneous head reports nothing more, whatever the arguments.
pub proof fn error_application_is_silent(
    scope: Scope,
    span: Span,
    args: Vec<SurfaceTerm>,
    ds: Seq<Diagnostic>,
)
    ensures
        synth(scope, SurfaceTerm::FunctionElim(Box::new(SurfaceTerm::Error(span)), args), ds) == (
            CoreTerm::Error,
            Value::Error,
            ds,
        ),
{
    assert(synth(scope, SurfaceTerm::Error(span), ds) == (CoreTerm::Error, Value::Error, ds));
    assert(span_of(SurfaceTerm::Error(span)) == span);
    failed_application_stays_silent(scope, span, args, args@.len(), ds);
}

/// A function type whose parameter is an error is an error, and reports
/// only what its body reports.
pub proof fn error_parameter_is_silent(
    scope: Scope,
    span: Span,
    body: SurfaceTerm,
    ds: Seq<Diagnostic>,
)
    ensures
        synth(
            scope,
            SurfaceTerm::FunctionType(Box::new(SurfaceTerm::Error(span)), Box::new(body)),
            ds,
        ) == (CoreTerm::Error, Value::Error, elab_universe(scope, body, ds).2),
{
    synth_error_is_silent(scope, span, ds);
}

/// A synthesized `if` with an erroneous branch has the error type, and
/// reports only what its scrutinee and other branch report.
pub proof fn error_branch_is_silent(
    scope: Scope,
    span: Span,
    head: SurfaceTerm,
    error_span: Span,
    other: SurfaceTerm,
    ds: Seq<Diagnostic>,
)
    ensures
        ({
            let t = SurfaceTerm::If(
                span,
                Box::new(head),
                Box::new(SurfaceTerm::Error(error_span)),
                Box::new(other),
            );
            let ds1 = check(scope, head, crate::elaboration::bool_type(scope), ds).1;
            &&& synth(scope, t, ds).1 == Value::Error
            &&& synth(scope, t, ds).2 == synth(scope, other, ds1).2
        }),
{
    let ds1 = check(scope, head, crate::elaboration::bool_type(scope), ds).1;
    synth_error_is_silent(scope, error_span, ds1);
}

/// A universe keyword is elaborated to its universe and classified at `Kind`.
pub proof fn keywords_are_kinds(scope: Scope, t: SurfaceTerm, ds: Seq<Diagnostic>)
    requires
        t is Host || t is Format || t is Kind,
    ensures
        elab_universe(scope, t, ds).1 == Some(Universe::Kind),
        elab_universe(scope, t, ds).2 == ds,
{
}

/// A function type is a host type when both sides are classified at `Host`,
/// a kind when they are `Host` and `Kind` or both `Kind`, and an error in the
/// seven other cases: those with `Format` on either side, and `Kind` to `Host`.
pub proof fn function_type_universe_table(
    scope: Scope,
    p: SurfaceTerm,
    b: SurfaceTerm,
    ds: Seq<Diagnostic>,
)
    requires
        ({
            let (cp, up, ds1) = elab_universe(scope, p, ds);
            let (cb, ub, ds2) = elab_universe(scope, b, ds1);
            up is Some && ub is Some
        }),
    ensures
        ({
            let (cp, up, ds1) = elab_universe(scope, p, ds);
            let (cb, ub, ds2) = elab_universe(scope, b, ds1);
            let t = SurfaceTerm::FunctionType(Box::new(p), Box::new(b));
            let (c, ty, ds3) = synth(scope, t, ds);
            let u1 = up->0;
            let u2 = ub->0;
            let good = CoreTerm::FunctionType(Box::new(cp), Box::new(cb));
            &&& (u1 == Universe::Host && u2 == Universe::Host) ==> (c, ty, ds3) == (
                good,
                Value::Universe(Universe::Host),
                ds2,
            )
            &&& ((u1 == Universe::Host && u2 == Universe::Kind) || (u1 == Universe::Kind && u2
                == Universe::Kind)) ==> (c, ty, ds3) == (good, Value::Universe(Universe::Kind), ds2)
            &&& !((u1 == Universe::Host && u2 == Universe::Host) || (u1 == Universe::Host && u2
                == Universe::Kind) || (u1 == Universe::Kind && u2 == Universe::Kind)) ==> (
                c,
                ty,
                ds3,
            ) == (
                CoreTerm::Error,
                Value::Error,
                ds2.push(error_at(Message::IllTypedFunctionType, span_of(t))),
            )
        }),
{
}

proof fn no_wildcard_no_default(
    scope: Scope,
    branches: Vec<(Pattern, SurfaceTerm)>,
    n: nat,
    expected: Value,
    ds: Seq<Diagnostic>,
)
    requires
        n <= branches@.len(),
        forall|i: int| 0 <= i < n ==> (#[trigger] branches@[i]).0 is NumberLiteral,
    ensures
        int_arms(scope, branches, n, expected, ds).1 is None,
    decreases n,
{
    if n > 0 {
        no_wildcard_no_default(scope, branches, (n - 1) as nat, expected, ds);
        assert(branches@[n - 1].0 is NumberLiteral);
    }
}

/// An integer match without a catch-all branch gets the error term as its
/// default, and the match itself reports one missing default, after what its
/// branches report.
pub proof fn missing_default_reported_once(
    scope: Scope,
    span: Span,
    head: SurfaceTerm,
    branches: Vec<(Pattern, SurfaceTerm)>,
    expected: Value,
    ds: Seq<Diagnostic>,
)
    requires
        !(expected is Error),
        forall|i: int| 0 <= i < branches@.len() ==> (#[trigger] branches@[i]).0 is NumberLiteral,
        synth(scope, head, ds).1 matches Value::Neutral(Head::Global(n), Spine::Empty) && n@
            == "Int"@,
    ensures
        ({
            let (c, ds2) = check(
                scope,
                SurfaceTerm::Match(span, Box::new(head), branches),
                expected,
                ds,
            );
            let ds1 = synth(scope, head, ds).2;
            &&& c matches CoreTerm::IntElim(_, _, d) && *d == CoreTerm::Error
            &&& ds2 == int_arms(scope, branches, branches@.len(), expected, ds1).2.push(
                error_at(Message::NoDefaultPattern, span_of(head)),
            )
        }),
{
    reveal_strlit("Int");
    reveal_strlit("Bool");
    assert("Int"@.len() != "Bool"@.len());
    let t = SurfaceTerm::Match(span, Box::new(head), branches);
    assert(!(t is Error));
    no_wildcard_no_default(scope, branches, branches@.len(), expected, synth(scope, head, ds).2);
}

proof fn insert_keeps_ascending_above(bs: IntBranches, lo: int, key: BigInteger, t: CoreTerm)
    requires
        ascending_above(bs, lo),
        lo < key.value(),
    ensures
        ascending_above(insert_branch(bs, key, t), lo),
    decreases bs,
{
    match bs {
        IntBranches::Nil => {
            assert(ascending_above(IntBranches::Nil, key.value()));
        },
        IntBranches::Cons(k, u, rest) => {
            if key.value() > k.value() {
                insert_keeps_ascending_above(*rest, k.value(), key, t);
                assert(insert_branch(bs, key, t) == IntBranches::Cons(
                    k,
                    u,
                    Box::new(insert_branch(*rest, key, t)),
                ));
            } else if key.value() < k.value() {
                assert(ascending_above(IntBranches::Cons(k, u, rest), key.value()));
            }
        },
    }
}

proof fn insert_keeps_ascending(bs: IntBranches, key: BigInteger, t: CoreTerm)
    requires
        ascending(bs),
    ensures
        ascending(insert_branch(bs, key, t)),
{
    match bs {
        IntBranches::Nil => {
            assert(ascending_above(IntBranches::Nil, key.value()));
        },
        IntBranches::Cons(k, u, rest) => {
            if key.value() > k.value() {
                insert_keeps_ascending_above(*rest, k.value(), key, t);
                assert(insert_branch(bs, key, t) == IntBranches::Cons(
                    k,
                    u,
                    Box::new(insert_branch(*rest, key, t)),
                ));
            } else if key.value() < k.value() {
                assert(ascending_above(IntBranches::Cons(k, u, rest), key.value()));
            }
        },
    }
}

proof fn int_arms_ascend(
    scope: Scope,
    branches: Vec<(Pattern, SurfaceTerm)>,
    n: nat,
    expected: Value,
    ds: Seq<Diagnostic>,
)
    ensures
        ascending(int_arms(scope, branches, n, expected, ds).0),
    decreases n,
{
    if n > 0 && n <= branches@.len() {
        int_arms_ascend(scope, branches, (n - 1) as nat, expected, ds);
        let (bs, default, ds1) = int_arms(scope, branches, (n - 1) as nat, expected, ds);
        let (p, body) = branches@[n - 1];
        let (c, ds2) = check(scope, body, expected, ds1);
        if let Pattern::NumberLiteral(span, raw) = p {
            if let Some(v) = crate::literal::int_literal(raw@) {
                insert_keeps_ascending(bs, v, c);
            }
        }
    }
}

/// The literal branches of every integer match are ordered by strictly
/// ascending value, whatever order they were written in.
pub proof fn int_branches_ascend(
    scope: Scope,
    span: Span,
    head: SurfaceTerm,
    branches: Vec<(Pattern, SurfaceTerm)>,
    expected: Value,
    ds: Seq<Diagnostic>,
)
    ensures
        check(scope, SurfaceTerm::Match(span, Box::new(head), branches), expected, ds).0 matches CoreTerm::IntElim(
            _,
            bs,
            _,
        ) ==> ascending(bs),
{
    int_arms_ascend(scope, branches, branches@.len(), expected, synth(scope, head, ds).2);
}

/// The name of a surface item, and its span.
pub open spec fn item_name(it: SurfaceItem) -> (Seq<char>, Span) {
    match it {
        SurfaceItem::Alias(a) => (a.name@, a.span),
        SurfaceItem::Struct(s) => (s.name@, s.span),
    }
}

/// The diagnostics after elaborating the term or the fields of an item.
pub open spec fn own_diagnostics(scope: Scope, it: SurfaceItem, ds: Seq<Diagnostic>) -> Seq<
    Diagnostic,
> {
    match it {
        SurfaceItem::Alias(a) => alias_term(scope, a.ty, a.term, ds).2,
        SurfaceItem::Struct(s) => struct_fields(scope, s.fields@, s.fields@.len(), ds).1,
    }
}

/// An item whose name an earlier item already bound is discarded: the bindings
/// and the core items stay as they were, and one redefinition is reported after
/// what its own elaboration reports, naming its span and the first item's span.
pub proof fn redefinition_is_discarded(
    globals: Seq<Global>,
    surface_items: Seq<SurfaceItem>,
    n: nat,
    ds: Seq<Diagnostic>,
)
    requires
        0 < n <= surface_items.len(),
        lookup_item(
            elab_items(globals, surface_items, (n - 1) as nat, ds).items,
            item_name(surface_items[n - 1]).0,
        ) is Some,
    ensures
        ({
            let before = elab_items(globals, surface_items, (n - 1) as nat, ds);
            let after = elab_items(globals, surface_items, n, ds);
            let first = lookup_item(before.items, item_name(surface_items[n - 1]).0)->0;
            &&& after.items == before.items
            &&& after.out == before.out
            &&& after.ds == own_diagnostics(
                Scope { globals, items: before.items },
                surface_items[n - 1],
                before.ds,
            ).push(
                error_between(Message::ItemRedefinition, item_name(surface_items[n - 1]).1, first.span),
            )
        }),
{
    match surface_items[n - 1] {
        SurfaceItem::Alias(a) => {},
        SurfaceItem::Struct(st) => {},
    }
}

/// No two bindings share a name.
pub open spec fn names_unique(items: Seq<ItemBinding>) -> bool {
    forall|i: int, j: int|
        0 <= i < j < items.len() ==> (#[trigger] items[i]).name@ != (#[trigger] items[j]).name@
}

proof fn lookup_none_means_absent(items: Seq<ItemBinding>, name: Seq<char>)
    requires
        lookup_item(items, name) is None,
    ensures
        forall|i: int| 0 <= i < items.len() ==> (#[trigger] items[i]).name@ != name,
    decreases items.len(),
{
    if items.len() > 0 {
        lookup_none_means_absent(items.drop_last(), name);
        assert forall|i: int| 0 <= i < items.len() implies (#[trigger] items[i]).name@ != name by {
            if i < items.len() - 1 {
                assert(items[i] == items.drop_last()[i]);
            }
        }
    }
}

/// Elaboration binds each item name at most once: a later item of the same
/// name is never bound, so the binding found is the first definition.
pub proof fn item_names_stay_unique(
    globals: Seq<Global>,
    surface_items: Seq<SurfaceItem>,
    n: nat,
    ds: Seq<Diagnostic>,
)
    ensures
        names_unique(elab_items(globals, surface_items, n, ds).items),
    decreases n,
{
    if n > 0 && n <= surface_items.len() {
        item_names_stay_unique(globals, surface_items, (n - 1) as nat, ds);
        let before = elab_items(globals, surface_items, (n - 1) as nat, ds);
        let name = item_name(surface_items[n - 1]).0;
        if lookup_item(before.items, name) is None {
            lookup_none_means_absent(before.items, name);
            match surface_items[n - 1] {
                SurfaceItem::Alias(a) => {},
                SurfaceItem::Struct(st) => {},
            }
            let after = elab_items(globals, surface_items, n, ds).items;
            assert(after.len() == before.items.len() + 1);
            assert(after.last().name@ == name);
            assert forall|i: int, j: int|
                0 <= i < j < after.len() implies (#[trigger] after[i]).name@ != (#[trigger] after[j]).name@ by {
                assert(after[i] == before.items[i]);
                if j < before.items.len() {
                    assert(after[j] == before.items[j]);
                }
            }
        } else {
            match surface_items[n - 1] {
                SurfaceItem::Alias(a) => {},
                SurfaceItem::Struct(st) => {},
            }
        }
    }
}

proof fn insert_keeps_branches(bs: IntBranches, key: BigInteger, t: CoreTerm, v: BigInteger)
    ensures
        branch_for(insert_branch(bs, key, t), key) is Some,
        branch_for(bs, v) is Some ==> branch_for(insert_branch(bs, key, t), v) is Some,
    decreases bs,
{
    if let IntBranches::Cons(k, u, rest) = bs {
        if key.value() > k.value() {
            insert_keeps_branches(*rest, key, t, v);
        }
    }
}

proof fn literal_keys_present(
    scope: Scope,
    branches: Vec<(Pattern, SurfaceTerm)>,
    n: nat,
    expected: Value,
    ds: Seq<Diagnostic>,
    i: int,
    v: BigInteger,
)
    requires
        n <= branches@.len(),
        0 <= i < n,
        branches@[i].0 matches Pattern::NumberLiteral(_, raw) && crate::literal::int_literal(raw@)
            == Some(v),
        forall|j: int| 0 <= j < i ==> (#[trigger] branches@[j]).0 is NumberLiteral,
    ensures
        branch_for(int_arms(scope, branches, n, expected, ds).0, v) is Some,
    decreases n,
{
    let (bs, default, ds1) = int_arms(scope, branches, (n - 1) as nat, expected, ds);
    let (p, body) = branches@[n - 1];
    let (c, ds2) = check(scope, body, expected, ds1);
    if i < n - 1 {
        literal_keys_present(scope, branches, (n - 1) as nat, expected, ds, i, v);
        if let Pattern::NumberLiteral(_, raw) = p {
            if let Some(w) = crate::literal::int_literal(raw@) {
                insert_keeps_branches(bs, w, c, v);
            }
        }
    } else {
        no_wildcard_no_default(scope, branches, (n - 1) as nat, expected, ds);
        insert_keeps_branches(bs, v, c, v);
    }
}

/// Every literal pattern written before the first catch-all of an integer
/// match, and that reads as an integer, has a branch for its value.
pub proof fn literal_patterns_have_branches(
    scope: Scope,
    branches: Vec<(Pattern, SurfaceTerm)>,
    expected: Value,
    ds: Seq<Diagnostic>,
    i: int,
    v: BigInteger,
)
    requires
        0 <= i < branches@.len(),
        branches@[i].0 matches Pattern::NumberLiteral(_, raw) && crate::literal::int_literal(raw@)
            == Some(v),
        forall|j: int| 0 <= j < i ==> (#[trigger] branches@[j]).0 is NumberLiteral,
    ensures
        branch_for(int_arms(scope, branches, branches@.len(), expected, ds).0, v) is Some,
{
    literal_keys_present(scope, branches, branches@.len(), expected, ds, i, v);
}

/// Of two aliases with one name, the first is kept and the second is
/// reported once, naming both spans.
pub proof fn redefinition_keeps_first(
    globals: Seq<Global>,
    first: SurfaceAlias,
    second: SurfaceAlias,
    ds: Seq<Diagnostic>,
)
    requires
        first.name@ == second.name@,
    ensures
        ({
            let items = seq![SurfaceItem::Alias(first), SurfaceItem::Alias(second)];
            let st = elab_items(globals, items, 2, ds);
            let st1 = elab_items(globals, items, 1, ds);
            let ds2 = alias_term(
                Scope { globals, items: st1.items },
                second.ty,
                second.term,
                st1.ds,
            ).2;
            &&& st.out.len() == 1
            &&& st.out[0] matches ItemModel::Alias(sp, name, doc, _) && sp == first.span && name
                == first.name@ && doc == first.doc@
            &&& st.items.len() == 1
            &&& st.ds == ds2.push(
                error_between(Message::ItemRedefinition, second.span, first.span),
            )
        }),
{
    let items = seq![SurfaceItem::Alias(first), SurfaceItem::Alias(second)];
    let st0 = elab_items(globals, items, 0, ds);
    assert(st0.items.len() == 0);
    let st1 = elab_items(globals, items, 1, ds);
    assert(st1.items.len() == 1);
    assert(st1.items.last().name@ == first.name@);
}

/// Core terms made only of builtins, annotations, universes, function types
/// and applications.
pub open spec fn non_branching(c: CoreTerm) -> bool
    decreases c,
{
    match c {
        CoreTerm::Global(_) => true,
        CoreTerm::Ann(e, ty) => non_branching(*e) && non_branching(*ty),
        CoreTerm::Universe(_) => true,
        CoreTerm::FunctionType(a, b) => non_branching(*a) && non_branching(*b),
        CoreTerm::FunctionElim(f, a) => non_branching(*f) && non_branching(*a),
        _ => false,
    }
}

/// Every builtin that `c` names is among `globals`.
pub open spec fn globals_bound(globals: Seq<Global>, c: CoreTerm) -> bool
    decreases c,
{
    match c {
        CoreTerm::Global(n) => lookup_global(globals, n@) is Some,
        CoreTerm::Ann(e, ty) => globals_bound(globals, *e) && globals_bound(globals, *ty),
        CoreTerm::FunctionType(a, b) => globals_bound(globals, *a) && globals_bound(globals, *b),
        CoreTerm::FunctionElim(f, a) => globals_bound(globals, *f) && globals_bound(globals, *a),
        _ => true,
    }
}

proof fn round_trip_synth(scope: Scope, c: CoreTerm, s: SurfaceTerm, ds: Seq<Diagnostic>)
    requires
        non_branching(c),
        globals_bound(scope.globals, c),
        quotes(c, s),
    ensures
        equal(eval(scope.items, c), eval(scope.items, synth(scope, s, ds).0)),
    decreases c, 0nat,
{
    match c {
        CoreTerm::Global(n) => {
            if let SurfaceTerm::Name(sp, m) = s {
                assert(lookup_global(scope.globals, m@) is Some);
                assert(synth(scope, s, ds).0 == CoreTerm::Global(m));
                assert(heads_equal(Head::Global(n), Head::Global(m)));
                assert(spines_equal(Spine::Empty, Spine::Empty));
                assert(eval(scope.items, c) == Value::Neutral(Head::Global(n), Spine::Empty));
                assert(eval(scope.items, CoreTerm::Global(m)) == Value::Neutral(
                    Head::Global(m),
                    Spine::Empty,
                ));
                assert(equal(
                    Value::Neutral(Head::Global(n), Spine::Empty),
                    Value::Neutral(Head::Global(m), Spine::Empty),
                ));
            }
        },
        CoreTerm::Ann(e, ty) => {
            if let SurfaceTerm::Ann(se, sty) = s {
                let (cty, _, ds1) = elab_universe(scope, *sty, ds);
                round_trip_check(scope, *e, *se, eval(scope.items, cty), ds1);
            }
        },
        CoreTerm::Universe(u) => {},
        CoreTerm::FunctionType(a, b) => {
            if let SurfaceTerm::FunctionType(sa, sb) = s {
                let (cp, up, ds1) = elab_universe(scope, *sa, ds);
                round_trip_universe(scope, *a, *sa, ds);
                round_trip_universe(scope, *b, *sb, ds1);
            }
        },
        CoreTerm::FunctionElim(f, a) => {
            if let SurfaceTerm::FunctionElim(sf, args) = s {
                let (ch, hty, ds1) = synth(scope, *sf, ds);
                round_trip_synth(scope, *f, *sf, ds);
                let start = (ch, hty);
                assert(apply_args(scope, span_of(*sf), start, args, 0, ds1) == (ch, hty, false, ds1));
                let r = apply_args(scope, span_of(*sf), start, args, 1, ds1);
                assert(synth(scope, s, ds).0 == r.0);
                if let Value::FunctionType(p, b) = hty {
                    let (ca, ds2) = check(scope, args@[0], *p, ds1);
                    round_trip_check(scope, *a, args@[0], *p, ds1);
                    assert(r.0 == CoreTerm::FunctionElim(Box::new(ch), Box::new(ca)));
                    let ea = eval(scope.items, *a);
                    let eca = eval(scope.items, ca);
                    match (eval(scope.items, *f), eval(scope.items, ch)) {
                        (Value::Neutral(h1, s1), Value::Neutral(h2, s2)) => {
                            assert(spines_equal(
                                Spine::Apply(Box::new(s1), Box::new(ea)),
                                Spine::Apply(Box::new(s2), Box::new(eca)),
                            ));
                        },
                        _ => {},
                    }
                } else {
                    assert(r.0 == CoreTerm::Error);
                }
            }
        },
        _ => {},
    }
}

proof fn round_trip_universe(scope: Scope, c: CoreTerm, s: SurfaceTerm, ds: Seq<Diagnostic>)
    requires
        non_branching(c),
        globals_bound(scope.globals, c),
        quotes(c, s),
    ensures
        equal(eval(scope.items, c), eval(scope.items, elab_universe(scope, s, ds).0)),
    decreases c, 2nat,
{
    match s {
        SurfaceTerm::Kind(_) => {},
        SurfaceTerm::Host(_) => {},
        SurfaceTerm::Format(_) => {},
        _ => {
            round_trip_synth(scope, c, s, ds);
        },
    }
}

proof fn round_trip_check(
    scope: Scope,
    c: CoreTerm,
    s: SurfaceTerm,
    expected: Value,
    ds: Seq<Diagnostic>,
)
    requires
        non_branching(c),
        globals_bound(scope.globals, c),
        quotes(c, s),
    ensures
        equal(eval(scope.items, c), eval(scope.items, check(scope, s, expected, ds).0)),
    decreases c, 1nat,
{
    if !(expected is Error) {
        round_trip_synth(scope, c, s, ds);
    }
}

/// Quoting a non-branching core term and checking the result again, against
/// any expected type, gives a term whose value is definitionally equal to the
/// original's.
pub proof fn quote_check_round_trip(
    scope: Scope,
    c: CoreTerm,
    s: SurfaceTerm,
    expected: Value,
    ds: Seq<Diagnostic>,
)
    requires
        non_branching(c),
        globals_bound(scope.globals, c),
        quotes(c, s),
    ensures
        equal(eval(scope.items, c), eval(scope.items, check(scope, s, expected, ds).0)),
{
    round_trip_check(scope, c, s, expected, ds);
}

} // verus!
