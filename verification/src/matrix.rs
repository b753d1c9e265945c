//! Vectors and matrices of binary64 patterns.
//!
//! Those sized at run time are stored by `nalgebra`. The verifier does not look inside
//! that crate's containers: what they hold is given a name, and each call into the crate
//! states its effect over that name. A matrix sized at compile time is an array of rows.
use vstd::prelude::*;

verus! {

/// A column vector whose length is chosen at run time.
#[verifier::external_body]
pub struct DynVector {
    inner: nalgebra::DVector<u64>,
}

/// A matrix whose shape is chosen at run time.
#[verifier::external_body]
pub struct DynMatrix {
    inner: nalgebra::DMatrix<u64>,
}

/// The components of a vector, first to last.
pub uninterp spec fn vector_elements(v: DynVector) -> Seq<u64>;

/// The rows of a matrix, top to bottom, each row left to right.
pub uninterp spec fn matrix_rows(m: DynMatrix) -> Seq<Seq<u64>>;

impl View for DynVector {
    type V = Seq<u64>;

    open spec fn view(&self) -> Seq<u64> {
        vector_elements(*self)
    }
}

impl View for DynMatrix {
    type V = Seq<Seq<u64>>;

    open spec fn view(&self) -> Seq<Seq<u64>> {
        matrix_rows(*self)
    }
}

/// The rows into which `data` falls when it is read row by row as a matrix with `nrows`
/// rows and `ncols` columns.
pub open spec fn row_major(data: Seq<u64>, nrows: nat, ncols: nat) -> Seq<Seq<u64>> {
    Seq::new(nrows, |i: int| data.subrange(i * ncols, (i + 1) * ncols))
}

/// The rows of a fixed-size matrix, top to bottom.
pub open spec fn array_rows<const R: usize, const C: usize>(y: [[u64; C]; R]) -> Seq<Seq<u64>> {
    Seq::new(R as nat, |i: int| y@[i]@)
}

/// The entries of a fixed-size matrix read row by row.
pub open spec fn array_entries<const R: usize, const C: usize>(y: [[u64; C]; R]) -> Seq<u64> {
    Seq::new((R * C) as nat, |k: int| y@[k / (C as int)]@[k % (C as int)])
}

/// Calls `as_flattened` of the standard library on the rows, which lends an array of
/// arrays as one slice: the inner arrays one after another, each in its own order.
#[verifier::external_body]
pub(crate) fn array_as_flattened<const R: usize, const C: usize>(y: &[[u64; C]; R]) -> (s: &[u64])
    ensures
        s@ == array_entries(*y),
{
    y.as_flattened()
}

/// Calls `nalgebra::DVector::from_vec`, which builds the vector whose components are the
/// elements of `data` in their order.
#[verifier::external_body]
pub(crate) fn dvector_from_vec(data: Vec<u64>) -> (v: DynVector)
    ensures
        vector_elements(v) == data@,
{
    DynVector { inner: nalgebra::DVector::from_vec(data) }
}

/// Calls `nalgebra::Matrix::as_slice`, which lends the storage column by column; a vector
/// has one column, so the slice holds its components in order.
#[verifier::external_body]
pub(crate) fn dvector_as_slice(v: &DynVector) -> (s: &[u64])
    ensures
        s@ == vector_elements(*v),
{
    v.inner.as_slice()
}

/// Calls `nalgebra::DMatrix::from_row_slice`, which fills the matrix row by row from the
/// slice. It panics unless the slice holds exactly `nrows * ncols` elements.
#[verifier::external_body]
pub(crate) fn dmatrix_from_row_slice(nrows: usize, ncols: usize, data: &[u64]) -> (m: DynMatrix)
    requires
        nrows * ncols == data@.len(),
    ensures
        matrix_rows(m) == row_major(data@, nrows as nat, ncols as nat),
{
    DynMatrix { inner: nalgebra::DMatrix::from_row_slice(nrows, ncols, data) }
}

/// Calls `nalgebra::Matrix::nrows`: the number of rows.
#[verifier::external_body]
pub(crate) fn dmatrix_nrows(m: &DynMatrix) -> (n: usize)
    ensures
        n == matrix_rows(*m).len(),
{
    m.inner.nrows()
}

/// Calls `nalgebra::Matrix::row` and copies out what the view's iterator yields: the
/// entries of row `i`, left to right. `row` panics when `i` is not below the row count.
#[verifier::external_body]
pub(crate) fn dmatrix_row(m: &DynMatrix, i: usize) -> (row: Vec<u64>)
    requires
        i < matrix_rows(*m).len(),
    ensures
        row@ == matrix_rows(*m)[i as int],
{
    m.inner.row(i).iter().copied().collect()
}

impl DynVector {
    /// The vector with the components `data`.
    pub fn from_vec(data: Vec<u64>) -> (v: DynVector)
        ensures
            v@ == data@,
    {
        dvector_from_vec(data)
    }
}

impl DynMatrix {
    /// The matrix with `nrows` rows and `ncols` columns whose entries are `data`, read row
    /// by row; `None` when `data` does not hold exactly `nrows * ncols` entries.
    pub fn from_row_slice(nrows: usize, ncols: usize, data: &[u64]) -> (m: Option<DynMatrix>)
        ensures
            m is Some <==> nrows * ncols == data@.len(),
            m is Some ==> m->Some_0@ == row_major(data@, nrows as nat, ncols as nat),
    {
        let len = data.len();
        match nrows.checked_mul(ncols) {
            Some(count) => {
                if count == len {
                    Some(dmatrix_from_row_slice(nrows, ncols, data))
                } else {
                    None
                }
            },
            None => None,
        }
    }

    /// The number of rows.
    pub fn nrows(&self) -> (n: usize)
        ensures
            n == self@.len(),
    {
        dmatrix_nrows(self)
    }
}

} // verus!
