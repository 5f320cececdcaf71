//! Type witnesses: values whose type records that a check has already passed.
use vstd::prelude::*;

pub mod auth;
pub mod bears;
pub mod equals;
pub mod i18n;

verus! {

/// A transparent wrapper, used as a certificate that its value passed a check.
///
/// A `Certified<T>` is only ever produced by a witnessing function after the
/// check succeeded; it holds the value unchanged and gives read access to it.
pub struct Certified<T>(T);

impl<T> Certified<T> {
    /// The value held by the certificate.
    pub closed spec fn value(self) -> T {
        self.0
    }

    /// The certificate that holds `t`.
    pub closed spec fn spec_new(t: T) -> Self {
        Certified(t)
    }

    /// Create a new certificate that holds `t`.
    pub fn new(t: T) -> (r: Self)
        ensures
            r == Self::spec_new(t),
            r.value() == t,
    {
        Certified(t)
    }
}

/// Reading through a certificate made from `v` yields `v` itself, and two
/// certificates are equal exactly when the values they hold are: certifying
/// adds nothing to a value and changes nothing in it.
pub proof fn lemma_certified_transparent<T>(v: T, w: T)
    ensures
        Certified::spec_new(v).value() == v,
        Certified::spec_new(v) == Certified::spec_new(w) <==> v == w,
{
}

/// Read access: every operation of `T` is available through the certificate.
impl<T> core::ops::Deref for Certified<T> {
    type Target = T;

    fn deref(&self) -> (r: &T)
        ensures
            *r == self.value(),
    {
        &self.0
    }
}

impl<T: Clone> Clone for Certified<T> {
    fn clone(&self) -> (r: Self)
        ensures
            cloned(self.value(), r.value()),
    {
        Certified(self.0.clone())
    }
}

impl<T: Copy> Copy for Certified<T> {

}

} // verus!
