//! Type equality: two types are interchangeable when each converts into the
//! other.
use vstd::prelude::*;

verus! {

/// Type equality witness trait: implemented for `A` exactly when `A: From<B>`
/// and `B: From<A>`, so that `<A as EqualsWitness<A, B>>::is_iso()` type-checks
/// only for such a pair.
pub trait EqualsWitness<A, B> {
    /// Are the types isomorphic? Being able to call it is the answer.
    fn is_iso() {
    }
}

impl<A, B> EqualsWitness<A, B> for A where A: From<B>, B: From<A> {

}

/// Every type is isomorphic to itself: the witness holds for `X` and `X`
/// through the identity conversion `From<X> for X`, whatever `X` is.
pub fn iso_reflexive<X>() {
    <X as EqualsWitness<X, X>>::is_iso();
}

} // verus!
