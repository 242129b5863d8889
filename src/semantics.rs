//! Executable evaluation and definitional equality of core values.

use vstd::prelude::*;

use crate::integer::BigInteger;
use crate::core_syntax::{
    branch_for, constants_equal, equal, eval, eval_int_branch, heads_equal, lookup_global,
    lookup_item, spines_equal, Constant, Global, Head, IntBranches, ItemBinding, Spine, Term, Value,
};

verus! {

impl Constant {
    pub fn copy(&self) -> (r: Constant)
        ensures
            r == *self,
    {
        match self {
            Constant::Int(v) => Constant::Int(v.copy()),
            Constant::F32(s) => Constant::F32(s.clone()),
            Constant::F64(s) => Constant::F64(s.clone()),
        }
    }
}

impl Head {
    pub fn copy(&self) -> (r: Head)
        ensures
            r == *self,
    {
        match self {
            Head::Global(n) => Head::Global(n.clone()),
            Head::Item(n) => Head::Item(n.clone()),
        }
    }
}

impl Spine {
    pub fn copy(&self) -> (r: Spine)
        ensures
            r == *self,
        decreases self,
    {
        match self {
            Spine::Empty => Spine::Empty,
            Spine::Apply(s, v) => Spine::Apply(Box::new(s.copy()), Box::new(v.copy())),
        }
    }
}

impl Value {
    pub fn copy(&self) -> (r: Value)
        ensures
            r == *self,
        decreases self,
    {
        match self {
            Value::Neutral(h, s) => Value::Neutral(h.copy(), s.copy()),
            Value::Universe(u) => Value::Universe(*u),
            Value::FunctionType(p, b) => Value::FunctionType(Box::new(p.copy()), Box::new(b.copy())),
            Value::Constant(c) => Value::Constant(c.copy()),
            Value::Error => Value::Error,
        }
    }
}

/// The most recent binding of `name` among `items`.
pub fn find_item<'a>(items: &'a Vec<ItemBinding>, name: &String) -> (r: Option<&'a ItemBinding>)
    ensures
        r matches Some(b) ==> lookup_item(items@, name@) == Some(*b),
        r is None ==> lookup_item(items@, name@) is None,
{
    let mut i: usize = items.len();
    assert(items@.take(i as int) =~= items@);
    while i > 0
        invariant
            i <= items@.len(),
            lookup_item(items@, name@) == lookup_item(items@.take(i as int), name@),
        decreases i,
    {
        assert(items@.take(i as int).drop_last() =~= items@.take(i - 1));
        if items[i - 1].name == *name {
            return Some(&items[i - 1]);
        }
        i = i - 1;
    }
    assert(items@.take(0).len() == 0);
    None
}

/// The first builtin named `name`.
pub fn find_global<'a>(entries: &'a Vec<Global>, name: &String) -> (r: Option<&'a Global>)
    ensures
        r matches Some(t) ==> lookup_global(entries@, name@) == Some(*t),
        r is None ==> lookup_global(entries@, name@) is None,
{
    let mut i: usize = 0;
    assert(entries@.skip(0) =~= entries@);
    while i < entries.len()
        invariant
            i <= entries@.len(),
            lookup_global(entries@, name@) == lookup_global(entries@.skip(i as int), name@),
        decreases entries@.len() - i,
    {
        assert(entries@.skip(i as int).drop_first() =~= entries@.skip(i + 1));
        if entries[i].name == *name {
            return Some(&entries[i]);
        }
        i = i + 1;
    }
    None
}

/// The branch of `bs` that `key` selects.
pub fn find_branch<'a>(bs: &'a IntBranches, key: &BigInteger) -> (r: Option<&'a Term>)
    ensures
        r matches Some(t) ==> branch_for(*bs, *key) == Some(*t),
        r is None ==> branch_for(*bs, *key) is None,
    decreases bs,
{
    match bs {
        IntBranches::Nil => None,
        IntBranches::Cons(k, t, rest) => if k.compare(key) == 0 {
            Some(t)
        } else {
            find_branch(rest, key)
        },
    }
}

/// Evaluate a core term.
pub fn evaluate(items: &Vec<ItemBinding>, t: &Term) -> (r: Value)
    ensures
        r == eval(items@, *t),
    decreases t,
{
    match t {
        Term::Global(n) => Value::Neutral(Head::Global(n.clone()), Spine::Empty),
        Term::Item(n) => match find_item(items, n) {
            Some(b) => b.value.copy(),
            None => Value::Neutral(Head::Item(n.clone()), Spine::Empty),
        },
        Term::Ann(e, _) => evaluate(items, e),
        Term::Universe(u) => Value::Universe(*u),
        Term::FunctionType(a, b) => Value::FunctionType(
            Box::new(evaluate(items, a)),
            Box::new(evaluate(items, b)),
        ),
        Term::FunctionElim(f, a) => match evaluate(items, f) {
            Value::Neutral(h, sp) => Value::Neutral(
                h,
                Spine::Apply(Box::new(sp), Box::new(evaluate(items, a))),
            ),
            _ => Value::Error,
        },
        Term::Constant(c) => Value::Constant(c.copy()),
        Term::BoolElim(_, _, _) => Value::Error,
        Term::IntElim(h, bs, d) => match evaluate(items, h) {
            Value::Constant(Constant::Int(v)) => match evaluate_int_branch(items, bs, &v) {
                Some(r) => r,
                None => evaluate(items, d),
            },
            _ => Value::Error,
        },
        Term::Error => Value::Error,
    }
}

fn evaluate_int_branch(items: &Vec<ItemBinding>, bs: &IntBranches, key: &BigInteger) -> (r: Option<Value>)
    ensures
        r == eval_int_branch(items@, *bs, *key),
    decreases bs,
{
    match bs {
        IntBranches::Nil => None,
        IntBranches::Cons(k, t, rest) => if k.compare(key) == 0 {
            Some(evaluate(items, t))
        } else {
            evaluate_int_branch(items, rest, key)
        },
    }
}

fn constants_eq(a: &Constant, b: &Constant) -> (r: bool)
    ensures
        r == constants_equal(*a, *b),
{
    match (a, b) {
        (Constant::Int(x), Constant::Int(y)) => x.compare(y) == 0,
        (Constant::F32(x), Constant::F32(y)) => *x == *y,
        (Constant::F64(x), Constant::F64(y)) => *x == *y,
        _ => false,
    }
}

fn heads_eq(a: &Head, b: &Head) -> (r: bool)
    ensures
        r == heads_equal(*a, *b),
{
    match (a, b) {
        (Head::Global(x), Head::Global(y)) => *x == *y,
        (Head::Item(x), Head::Item(y)) => *x == *y,
        _ => false,
    }
}

/// Decide definitional equality of two values.
pub fn values_equal(a: &Value, b: &Value) -> (r: bool)
    ensures
        r == equal(*a, *b),
    decreases a,
{
    match (a, b) {
        (Value::Error, _) => true,
        (_, Value::Error) => true,
        (Value::Neutral(h1, s1), Value::Neutral(h2, s2)) => heads_eq(h1, h2) && spines_eq(s1, s2),
        (Value::Universe(u1), Value::Universe(u2)) => *u1 == *u2,
        (Value::FunctionType(p1, b1), Value::FunctionType(p2, b2)) => values_equal(p1, p2)
            && values_equal(b1, b2),
        (Value::Constant(c1), Value::Constant(c2)) => constants_eq(c1, c2),
        _ => false,
    }
}

fn spines_eq(a: &Spine, b: &Spine) -> (r: bool)
    ensures
        r == spines_equal(*a, *b),
    decreases a,
{
    match (a, b) {
        (Spine::Empty, Spine::Empty) => true,
        (Spine::Apply(s1, v1), Spine::Apply(s2, v2)) => spines_eq(s1, s2) && values_equal(v1, v2),
        _ => false,
    }
}

} // verus!
