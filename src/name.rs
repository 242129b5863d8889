//! Names that originate from user input.

use vstd::prelude::*;

verus! {

/// An identifier that originates from user input.
#[derive(Clone, PartialEq, PartialOrd, Eq, Ord, Debug)]
pub struct Ident(pub String);

impl Ident {
    pub fn new(src: &str) -> (r: Ident)
        ensures
            r.0@ == src@,
    {
        Ident(src.to_owned())
    }

    pub fn as_str(&self) -> (r: &str)
        ensures
            r@ == self.0@,
    {
        self.0.as_str()
    }
}

/// A variable with a name that is ignored for comparisons. This is useful for
/// improving error reporting when converting free variables to a named form.
#[derive(Debug, Clone)]
pub struct Named<N, T>(pub N, pub T);

impl<N, T> Named<N, T> {
    pub fn new(pair: (N, T)) -> (r: Named<N, T>)
        ensures
            r.0 == pair.0,
            r.1 == pair.1,
    {
        Named(pair.0, pair.1)
    }

    /// The value, which comparisons go by.
    pub fn value(&self) -> (r: &T)
        ensures
            *r == self.1,
    {
        &self.1
    }
}

} // verus!
