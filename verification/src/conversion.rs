//! Containers that can present themselves as one flat run of binary64 patterns.
use crate::matrix::{array_as_flattened, array_entries, dvector_as_slice, DynVector};
use vstd::prelude::*;

verus! {

/// A container of binary64 patterns that can lend its elements as one slice.
pub trait AsSliceF64 {
    /// The elements of the container, in its own order.
    spec fn elements(&self) -> Seq<u64>;

    /// The elements as a slice: as many as the container holds, in the same order.
    fn as_slice_f64(&self) -> (s: &[u64])
        ensures
            s@ == self.elements(),
    ;
}

impl AsSliceF64 for Vec<u64> {
    open spec fn elements(&self) -> Seq<u64> {
        self@
    }

    fn as_slice_f64(&self) -> (s: &[u64]) {
        self.as_slice()
    }
}

impl AsSliceF64 for [u64] {
    open spec fn elements(&self) -> Seq<u64> {
        self@
    }

    fn as_slice_f64(&self) -> (s: &[u64]) {
        self
    }
}

impl<const N: usize> AsSliceF64 for [u64; N] {
    open spec fn elements(&self) -> Seq<u64> {
        self@
    }

    fn as_slice_f64(&self) -> (s: &[u64]) {
        self.as_slice()
    }
}

/// A fixed-size matrix, given as its rows, lends its entries row by row.
impl<const R: usize, const C: usize> AsSliceF64 for [[u64; C]; R] {
    open spec fn elements(&self) -> Seq<u64> {
        array_entries(*self)
    }

    fn as_slice_f64(&self) -> (s: &[u64]) {
        array_as_flattened(self)
    }
}

impl AsSliceF64 for DynVector {
    open spec fn elements(&self) -> Seq<u64> {
        self@
    }

    fn as_slice_f64(&self) -> (s: &[u64]) {
        dvector_as_slice(self)
    }
}

} // verus!
