//! Checking a trait bound without erasing the type: `bear_witness` accepts
//! only a `Bear`, and hands back the same concrete type inside a `Certified`.
use vstd::prelude::*;
use crate::Certified;

verus! {

/// Type check a trait bound without erasing type information.
///
/// The return value is wrapped in `Certified` to record that this value has
/// been type-checked; it is the value that was passed in.
pub fn bear_witness<T: Bear>(bear: T) -> (r: Certified<T>)
    ensures
        r.value() == bear,
{
    Certified::new(bear)
}

/// `Bear` trait, implemented on `BrownBear` and `PolarBear`, but not on `Dog`.
pub trait Bear {
    /// Growling is something all `Bear`s do.
    fn growl(&self) -> (r: &str);
}

/// A `BrownBear`, does impl `Bear`.
pub struct BrownBear;

impl BrownBear {
    /// This method is defined directly on the `BrownBear` type, and stays
    /// callable through a `Certified<BrownBear>`.
    pub fn do_brown_bear_things(&self) -> (r: &str)
        ensures
            r@ == "eating loads of honey"@,
    {
        "eating loads of honey"
    }
}

impl Bear for BrownBear {
    fn growl(&self) -> (r: &str)
        ensures
            r@ == "<brown bear growl>"@,
    {
        "<brown bear growl>"
    }
}

/// A `PolarBear`, does impl `Bear`.
pub struct PolarBear;

impl Bear for PolarBear {
    fn growl(&self) -> (r: &str)
        ensures
            r@ == "<menacing polar bear growl>"@,
    {
        "<menacing polar bear growl>"
    }
}

/// A `Dog`, so it does not impl `Bear`.
pub struct Dog;

} // verus!
