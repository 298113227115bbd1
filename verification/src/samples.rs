//! Containers that expose their contents as a sample slice; the
//! convenience traits of the statistics modules are implemented for
//! everything with this capability.

use vstd::prelude::*;

verus! {

/// Read access to the held samples as a slice.
pub trait AsSlice<T> {
    /// The sequence of samples this container holds.
    spec fn samples_spec(&self) -> Seq<T>;

    fn as_slice(&self) -> (r: &[T])
        ensures
            r@ == self.samples_spec(),
    ;
}

impl<T> AsSlice<T> for &[T] {
    open spec fn samples_spec(&self) -> Seq<T> {
        (*self)@
    }

    fn as_slice(&self) -> (r: &[T]) {
        *self
    }
}

impl<T> AsSlice<T> for Vec<T> {
    open spec fn samples_spec(&self) -> Seq<T> {
        self@
    }

    fn as_slice(&self) -> (r: &[T]) {
        self.as_slice()
    }
}

} // verus!
