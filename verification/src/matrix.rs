//! Dense matrices, stored column by column.

use vstd::prelude::*;

verus! {

/// The smaller of two dimensions: the number of singular values of a matrix
/// with these dimensions, and the largest rank that it can have.
pub open spec fn smaller(rows: nat, cols: nat) -> nat {
    if rows <= cols {
        rows
    } else {
        cols
    }
}

/// The mathematical content of a matrix: its height and its columns.
#[verifier::ext_equal]
pub struct MatrixView<T> {
    /// The number of rows.
    pub rows: nat,
    /// The columns, from left to right, each from top to bottom.
    pub columns: Seq<Seq<T>>,
}

impl<T> MatrixView<T> {
    /// The number of columns.
    pub open spec fn cols(self) -> nat {
        self.columns.len()
    }

    /// Every column has as many entries as the matrix has rows.
    pub open spec fn wf(self) -> bool {
        forall|j: int| 0 <= j < self.columns.len() ==> (#[trigger] self.columns[j]).len() == self.rows
    }

    /// The entry in row `i` and column `j`.
    pub open spec fn at(self, i: int, j: int) -> T
        recommends
            0 <= i < self.rows,
            0 <= j < self.cols(),
    {
        self.columns[j][i]
    }

    /// The smaller of the two dimensions: the number of singular values.
    pub open spec fn size(self) -> nat {
        smaller(self.rows, self.cols())
    }

    /// The `count` columns that start at column `first`.
    pub open spec fn column_block(self, first: int, count: int) -> MatrixView<T>
        recommends
            0 <= first,
            0 <= count,
            first + count <= self.cols(),
    {
        MatrixView { rows: self.rows, columns: self.columns.subrange(first, first + count) }
    }

    /// The matrix mirrored at its main diagonal.
    pub open spec fn transposed(self) -> MatrixView<T> {
        MatrixView {
            rows: self.cols(),
            columns: Seq::new(
                self.rows,
                |i: int| Seq::new(self.cols(), |j: int| self.columns[j][i]),
            ),
        }
    }

    /// The square matrix with `values` on its main diagonal and `zero` elsewhere.
    pub open spec fn diagonal(values: Seq<T>, zero: T) -> MatrixView<T> {
        MatrixView {
            rows: values.len(),
            columns: Seq::new(
                values.len(),
                |j: int| Seq::new(values.len(), |i: int| if i == j { values[i] } else { zero }),
            ),
        }
    }
}

/// A dense matrix with entries of type `T`.
#[derive(Debug, PartialEq)]
pub struct Matrix<T> {
    rows: usize,
    columns: Vec<Vec<T>>,
}

impl<T> View for Matrix<T> {
    type V = MatrixView<T>;

    closed spec fn view(&self) -> MatrixView<T> {
        MatrixView {
            rows: self.rows as nat,
            columns: Seq::new(self.columns@.len(), |j: int| self.columns@[j]@),
        }
    }
}

impl<T> Matrix<T> {
    #[verifier::type_invariant]
    spec fn well_formed(&self) -> bool {
        self@.wf()
    }

    /// Builds a matrix of `rows` rows from its columns.
    ///
    /// The columns are accepted exactly when each of them has `rows` entries.
    pub fn from_columns(rows: usize, columns: Vec<Vec<T>>) -> (made: Option<Matrix<T>>)
        ensures
            made is Some <==> forall|j: int|
                0 <= j < columns@.len() ==> (#[trigger] columns@[j])@.len() == rows,
            made matches Some(m) ==> m@ == (MatrixView {
                rows: rows as nat,
                columns: columns@.map_values(|c: Vec<T>| c@),
            }),
    {
        let mut j: usize = 0;
        while j < columns.len()
            invariant
                j <= columns@.len(),
                forall|l: int| 0 <= l < j ==> (#[trigger] columns@[l])@.len() == rows,
            decreases columns@.len() - j,
        {
            if columns[j].len() != rows {
                return None;
            }
            j += 1;
        }
        let made = Matrix { rows, columns };
        assert(made@.columns =~= columns@.map_values(|c: Vec<T>| c@));
        Some(made)
    }

    /// The number of rows.
    pub fn nrows(&self) -> (rows: usize)
        ensures
            rows == self@.rows,
    {
        self.rows
    }

    /// The number of columns.
    pub fn ncols(&self) -> (cols: usize)
        ensures
            cols == self@.cols(),
    {
        self.columns.len()
    }
}

/// Copies the `count` values that start at index `first`.
pub(crate) fn copy_range<T: Copy>(values: &Vec<T>, first: usize, count: usize) -> (copy: Vec<T>)
    requires
        first + count <= values@.len(),
    ensures
        copy@ == values@.subrange(first as int, first + count),
{
    let available = values.len();
    let mut copy: Vec<T> = Vec::new();
    let mut i: usize = 0;
    while i < count
        invariant
            i <= count,
            first + count <= available,
            available == values@.len(),
            copy@ == values@.subrange(first as int, first + i),
        decreases count - i,
    {
        copy.push(values[first + i]);
        assert(copy@ =~= values@.subrange(first as int, first + i + 1));
        i += 1;
    }
    copy
}

impl<T: Copy> Clone for Matrix<T> {
    /// An equal matrix with storage of its own.
    fn clone(&self) -> (copy: Matrix<T>)
        ensures
            copy@ == self@,
    {
        proof {
            use_type_invariant(self);
        }
        let copy = self.column_block(0, self.columns.len());
        assert(copy@ =~~= self@);
        copy
    }
}

impl<T: Copy> Matrix<T> {
    /// The `count` columns that start at column `first`, as a matrix of their own.
    pub fn column_block(&self, first: usize, count: usize) -> (block: Matrix<T>)
        requires
            first + count <= self@.cols(),
        ensures
            block@ == self@.column_block(first as int, count as int),
    {
        proof {
            use_type_invariant(self);
        }
        let available = self.columns.len();
        let mut columns: Vec<Vec<T>> = Vec::new();
        let mut j: usize = 0;
        while j < count
            invariant
                j <= count,
                first + count <= available,
                available == self.columns@.len(),
                self@.wf(),
                columns@.len() == j,
                forall|l: int| 0 <= l < j ==> (#[trigger] columns@[l])@ == self.columns@[first + l]@,
            decreases count - j,
        {
            let column = &self.columns[first + j];
            let copy = copy_range(column, 0, column.len());
            assert(copy@ =~= column@);
            columns.push(copy);
            j += 1;
        }
        assert forall|l: int| 0 <= l < count implies (#[trigger] columns@[l])@.len()
            == self.rows by {
            assert(self@.columns[first + l] == self.columns@[first + l]@);
        }
        let block = Matrix { rows: self.rows, columns };
        assert(block@ =~~= self@.column_block(first as int, count as int));
        block
    }

    /// The matrix mirrored at its main diagonal.
    pub fn transpose(&self) -> (mirrored: Matrix<T>)
        ensures
            mirrored@ == self@.transposed(),
    {
        proof {
            use_type_invariant(self);
        }
        let cols = self.columns.len();
        let mut columns: Vec<Vec<T>> = Vec::new();
        let mut i: usize = 0;
        while i < self.rows
            invariant
                i <= self.rows,
                cols == self.columns@.len(),
                self@.wf(),
                columns@.len() == i,
                forall|l: int|
                    0 <= l < i ==> (#[trigger] columns@[l])@ == Seq::new(
                        cols as nat,
                        |j: int| self.columns@[j]@[l],
                    ),
            decreases self.rows - i,
        {
            let mut row: Vec<T> = Vec::new();
            let mut j: usize = 0;
            while j < cols
                invariant
                    j <= cols,
                    i < self.rows,
                    cols == self.columns@.len(),
                    self@.wf(),
                    row@.len() == j,
                    forall|l: int| 0 <= l < j ==> row@[l] == self.columns@[l]@[i as int],
                decreases cols - j,
            {
                assert(self@.columns[j as int] == self.columns@[j as int]@);
                row.push(self.columns[j][i]);
                j += 1;
            }
            assert(row@ =~= Seq::new(cols as nat, |j: int| self.columns@[j]@[i as int]));
            columns.push(row);
            i += 1;
        }
        let mirrored = Matrix { rows: cols, columns };
        assert(mirrored@ =~~= self@.transposed());
        mirrored
    }

    /// The square matrix with `values` on its main diagonal and `zero` elsewhere.
    pub fn diagonal(values: &Vec<T>, zero: T) -> (square: Matrix<T>)
        ensures
            square@ == MatrixView::diagonal(values@, zero),
    {
        let n = values.len();
        let mut columns: Vec<Vec<T>> = Vec::new();
        let mut j: usize = 0;
        while j < n
            invariant
                j <= n,
                n == values@.len(),
                columns@.len() == j,
                forall|l: int|
                    0 <= l < j ==> (#[trigger] columns@[l])@ == Seq::new(
                        n as nat,
                        |i: int| if i == l { values@[i] } else { zero },
                    ),
            decreases n - j,
        {
            let mut column: Vec<T> = Vec::new();
            let mut i: usize = 0;
            while i < n
                invariant
                    i <= n,
                    j < n,
                    n == values@.len(),
                    column@.len() == i,
                    forall|l: int|
                        0 <= l < i ==> column@[l] == if l == j { values@[l] } else { zero },
                decreases n - i,
            {
                column.push(if i == j { values[i] } else { zero });
                i += 1;
            }
            assert(column@ =~= Seq::new(
                n as nat,
                |i: int| if i == j { values@[i] } else { zero },
            ));
            columns.push(column);
            j += 1;
        }
        let square = Matrix { rows: n, columns };
        assert(square@ =~~= MatrixView::diagonal(values@, zero));
        square
    }

    /// The entry in row `i` and column `j`, if the matrix has one there.
    pub fn get(&self, i: usize, j: usize) -> (entry: Option<T>)
        ensures
            entry == if i < self@.rows && j < self@.cols() {
                Some(self@.at(i as int, j as int))
            } else {
                None
            },
    {
        proof {
            use_type_invariant(self);
        }
        if j < self.columns.len() && i < self.rows {
            assert(self@.columns[j as int] == self.columns@[j as int]@);
            Some(self.columns[j][i])
        } else {
            None
        }
    }
}

} // verus!
