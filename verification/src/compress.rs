//! Low-rank approximation of a matrix by a truncated singular value
//! decomposition.
//!
//! An approximation runs in steps, because the arithmetic on the entries is
//! not done here. `approximate` judges the request. Where the rank is cut it
//! hands out a `Truncation`. `workspace` says how much scratch memory to give
//! the decomposition. Once the caller has decomposed the matrix,
//! `Truncation::factors` picks the factors to multiply, and
//! `Truncation::finish` takes their product for the approximation.

use vstd::prelude::*;
pub use crate::error::SvdApproxError;
use crate::matrix::{copy_range, smaller, Matrix, MatrixView};

verus! {

/// Which end of the singular spectrum an approximation keeps.
#[derive(Clone, Copy, Debug, PartialEq, Eq, Structural)]
pub enum ApproxMode {
    /// The largest singular values: the closest matrix of the requested rank.
    Best,
    /// The smallest singular values: a deliberately poor matrix, for comparison.
    Worst,
}

/// The index of the first singular triplet that is kept, out of `size`.
pub open spec fn first_kept(size: nat, rank: nat, mode: ApproxMode) -> nat
    recommends
        rank <= size,
{
    match mode {
        ApproxMode::Best => 0,
        ApproxMode::Worst => (size - rank) as nat,
    }
}

/// The number of scratch bytes handed to a decomposition that asks for
/// `required`: half as much again, rounded down.
pub open spec fn padded(required: nat) -> nat {
    required + required / 2
}

/// A singular value decomposition `u * diag(s) * transpose(v)`.
#[derive(Debug, PartialEq)]
pub struct Decomposition<T> {
    /// The left singular vectors, one in each column.
    pub u: Matrix<T>,
    /// The singular values in the order of their vectors: largest first, for an
    /// approximation to keep what its mode names.
    pub s: Vec<T>,
    /// The right singular vectors, one in each column.
    pub v: Matrix<T>,
}

impl<T> Decomposition<T> {
    /// The decomposition has the shape of a full decomposition of a matrix of
    /// `rows` rows and `cols` columns.
    pub open spec fn fits(&self, rows: nat, cols: nat) -> bool {
        &&& self.u@.rows == rows
        &&& self.u@.cols() == rows
        &&& self.s@.len() == smaller(rows, cols)
        &&& self.v@.rows == cols
        &&& self.v@.cols() == cols
    }
}

/// Three matrices whose product, from left to right, is an approximation.
#[derive(Debug, PartialEq)]
pub struct Factors<T> {
    /// The kept left singular vectors, one in each column.
    pub u: Matrix<T>,
    /// The kept singular values on the diagonal of a square matrix.
    pub s: Matrix<T>,
    /// The kept right singular vectors, one in each row.
    pub vt: Matrix<T>,
}

/// What a pending truncation knows of its request.
pub struct TruncationView {
    /// The number of rows of the matrix.
    pub rows: nat,
    /// The number of columns of the matrix.
    pub cols: nat,
    /// The rank that was asked for.
    pub rank: nat,
    /// The end of the spectrum that was asked for.
    pub mode: ApproxMode,
}

impl TruncationView {
    /// The number of singular values of the matrix.
    pub open spec fn size(self) -> nat {
        smaller(self.rows, self.cols)
    }

    /// The rank is at least one and really cuts the matrix.
    pub open spec fn wf(self) -> bool {
        1 <= self.rank < self.size()
    }

    /// The index of the first singular triplet that is kept.
    pub open spec fn first(self) -> nat {
        first_kept(self.size(), self.rank, self.mode)
    }
}

/// An approximation that waits for the decomposition of its matrix.
#[derive(Debug, PartialEq)]
pub struct Truncation {
    rows: usize,
    cols: usize,
    rank: usize,
    mode: ApproxMode,
}

impl View for Truncation {
    type V = TruncationView;

    closed spec fn view(&self) -> TruncationView {
        TruncationView {
            rows: self.rows as nat,
            cols: self.cols as nat,
            rank: self.rank as nat,
            mode: self.mode,
        }
    }
}

impl Truncation {
    #[verifier::type_invariant]
    spec fn well_formed(&self) -> bool {
        self@.wf()
    }

    /// The number of rows of the matrix to decompose.
    pub fn rows(&self) -> (rows: usize)
        ensures
            rows == self@.rows,
    {
        self.rows
    }

    /// The number of columns of the matrix to decompose.
    pub fn cols(&self) -> (cols: usize)
        ensures
            cols == self@.cols,
    {
        self.cols
    }

    /// The number of singular values of the matrix to decompose.
    pub fn size(&self) -> (size: usize)
        ensures
            size == self@.size(),
    {
        if self.rows <= self.cols {
            self.rows
        } else {
            self.cols
        }
    }

    /// The rank that was asked for: at least one, and below the number of
    /// singular values.
    pub fn rank(&self) -> (rank: usize)
        ensures
            rank == self@.rank,
            1 <= rank < self@.size(),
    {
        proof {
            use_type_invariant(self);
        }
        self.rank
    }

    /// The end of the spectrum that was asked for.
    pub fn mode(&self) -> (mode: ApproxMode)
        ensures
            mode == self@.mode,
    {
        self.mode
    }

    /// The index of the first singular triplet that is kept.
    pub fn first(&self) -> (first: usize)
        ensures
            first == self@.first(),
            first + self@.rank <= self@.size(),
    {
        proof {
            use_type_invariant(self);
        }
        match self.mode {
            ApproxMode::Best => 0,
            ApproxMode::Worst => self.size() - self.rank,
        }
    }

    /// Picks from a decomposition of the matrix the factors of the approximation.
    ///
    /// The kept singular triplets are the `rank` first ones in `Best` mode and the
    /// `rank` last ones in `Worst` mode. The left vectors stay columns, the
    /// singular values go on the diagonal of a square matrix that holds `zero`
    /// elsewhere, and the right vectors become rows. The product of the three is a
    /// matrix of the shape of the decomposed one. Nothing is picked from a
    /// decomposition of another shape.
    pub fn factors<T: Copy>(&self, decomposition: &Decomposition<T>, zero: T) -> (picked: Option<
        Factors<T>,
    >)
        ensures
            !decomposition.fits(self@.rows, self@.cols) ==> picked is None,
            decomposition.fits(self@.rows, self@.cols) ==> (picked matches Some(f) && {
                &&& f.u@ == decomposition.u@.column_block(self@.first() as int, self@.rank as int)
                &&& f.s@ == MatrixView::diagonal(
                    decomposition.s@.subrange(
                        self@.first() as int,
                        (self@.first() + self@.rank) as int,
                    ),
                    zero,
                )
                &&& f.vt@ == decomposition.v@.column_block(
                    self@.first() as int,
                    self@.rank as int,
                ).transposed()
                &&& f.u@.rows == self@.rows
                &&& f.u@.cols() == self@.rank
                &&& f.s@.rows == self@.rank
                &&& f.s@.cols() == self@.rank
                &&& f.vt@.rows == self@.rank
                &&& f.vt@.cols() == self@.cols
            }),
    {
        let size = self.size();
        let fits = decomposition.u.nrows() == self.rows && decomposition.u.ncols() == self.rows
            && decomposition.s.len() == size && decomposition.v.nrows() == self.cols
            && decomposition.v.ncols() == self.cols;
        if !fits {
            return None;
        }
        let first = self.first();
        let rank = self.rank();
        let u = decomposition.u.column_block(first, rank);
        let kept = copy_range(&decomposition.s, first, rank);
        let s = Matrix::diagonal(&kept, zero);
        let vt = decomposition.v.column_block(first, rank).transpose();
        Some(Factors { u, s, vt })
    }

    /// Takes the product of the factors for the approximation.
    ///
    /// The product is handed out as it is, provided that it has the shape of the
    /// decomposed matrix: nothing of another shape leaves as the approximation.
    pub fn finish<T>(&self, product: Matrix<T>) -> (made: Option<Matrix<T>>)
        ensures
            product@.rows == self@.rows && product@.cols() == self@.cols ==> made == Some(product),
            product@.rows != self@.rows || product@.cols() != self@.cols ==> made is None,
            made matches Some(m) ==> m@.rows == self@.rows && m@.cols() == self@.cols,
    {
        if product.nrows() == self.rows && product.ncols() == self.cols {
            Some(product)
        } else {
            None
        }
    }
}

/// The outcome of judging a request.
#[derive(Debug, PartialEq)]
pub enum Approximation<T> {
    /// The full rank was asked for: the approximation is the matrix itself.
    Unchanged(Matrix<T>),
    /// The rank is cut: the approximation is the product of the factors that the
    /// truncation picks from the decomposition of the matrix.
    Truncated(Truncation),
}

/// Judges a request for an approximation of `matrix` of the given rank.
///
/// A rank below one or above the smaller dimension is refused. The full rank
/// gives back an equal matrix; any other rank gives the truncation to carry
/// out.
pub fn approximate<T: Copy>(matrix: &Matrix<T>, rank: usize, mode: ApproxMode) -> (outcome: Result<
    Approximation<T>,
    SvdApproxError,
>)
    ensures
        rank < 1 || rank > matrix@.size() ==> outcome == Err::<Approximation<T>, _>(
            SvdApproxError::InvalidRank(matrix@.size() as usize, rank),
        ),
        1 <= rank == matrix@.size() ==> (outcome matches Ok(Approximation::Unchanged(same))
            && same@ == matrix@),
        1 <= rank < matrix@.size() ==> (outcome matches Ok(Approximation::Truncated(cut)) && cut@
            == (TruncationView {
            rows: matrix@.rows,
            cols: matrix@.cols(),
            rank: rank as nat,
            mode,
        })),
{
    let rows = matrix.nrows();
    let cols = matrix.ncols();
    let size = if rows <= cols {
        rows
    } else {
        cols
    };
    if rank < 1 || rank > size {
        Err(SvdApproxError::InvalidRank(size, rank))
    } else if rank == size {
        Ok(Approximation::Unchanged(matrix.clone()))
    } else {
        Ok(Approximation::Truncated(Truncation { rows, cols, rank, mode }))
    }
}

/// The size of the scratch buffer to hand to the decomposition, given the
/// number of bytes that the decomposition says it requires.
///
/// The buffer is half as large again as required. The step fails where the
/// requirement is unknown or the buffer's size cannot be expressed.
pub fn workspace(required: Option<usize>) -> (bytes: Result<usize, SvdApproxError>)
    ensures
        required is None ==> bytes == Err::<usize, _>(SvdApproxError::ComputeReqFailed),
        required is Some && padded(required->0 as nat) > usize::MAX ==> bytes == Err::<usize, _>(
            SvdApproxError::ComputeReqFailed,
        ),
        required is Some && padded(required->0 as nat) <= usize::MAX ==> bytes == Ok::<
            usize,
            SvdApproxError,
        >(padded(required->0 as nat) as usize),
{
    match required {
        Some(size) => {
            match size.checked_add(size / 2) {
                Some(n) => Ok(n),
                None => Err(SvdApproxError::ComputeReqFailed),
            }
        },
        None => Err(SvdApproxError::ComputeReqFailed),
    }
}

} // verus!
