//! Dense matrices over the abstract scalar, with the verified linear-algebra
//! operations the Gaussian process posterior needs: transpose, products,
//! elementwise difference, diagonal extraction, and diagonal regularization.

use vstd::prelude::*;

use crate::scalar::Scalar;

verus! {

/// A dense matrix stored row by row. Every row must have `cols` entries;
/// the number of rows is the length of `entries`. Storing `cols` explicitly
/// keeps the column count meaningful for matrices with zero rows.
pub struct Matrix<S: Scalar> {
    pub entries: Vec<Vec<S>>,
    pub cols: usize,
}

impl<S: Scalar> View for Matrix<S> {
    type V = Seq<Seq<S>>;

    open spec fn view(&self) -> Seq<Seq<S>> {
        Seq::new(self.entries@.len(), |i: int| self.entries@[i]@)
    }
}

impl<S: Scalar> Matrix<S> {
    /// Well-formedness: each row holds exactly `cols` entries.
    pub open spec fn wf(self) -> bool {
        forall|i: int|
            0 <= i < self.entries@.len() ==> (#[trigger] self.entries@[i])@.len() == self.cols
    }

    /// Number of rows.
    pub fn nrows(&self) -> (r: usize)
        ensures
            r == self@.len(),
    {
        self.entries.len()
    }

    /// Number of columns.
    pub fn ncols(&self) -> (r: usize)
        ensures
            r == self.cols,
    {
        self.cols
    }

    /// The entry in row `i`, column `j`.
    pub fn get(&self, i: usize, j: usize) -> (r: S)
        requires
            self.wf(),
            i < self@.len(),
            j < self.cols,
        ensures
            r == self@[i as int][j as int],
    {
        self.entries[i][j]
    }
}

/// Column `j` of a matrix, as a sequence.
pub open spec fn column_of<S>(m: Seq<Seq<S>>, j: int) -> Seq<S> {
    Seq::new(m.len(), |i: int| m[i][j])
}

/// The dot product of the first `k` entries of `a` and `b`, folded from the
/// left starting at the additive identity.
pub open spec fn sdot_prefix<S: Scalar>(a: Seq<S>, b: Seq<S>, k: int) -> S
    decreases k,
{
    if k <= 0 {
        S::spec_zero()
    } else {
        sdot_prefix(a, b, k - 1).spec_plus(a[k - 1].spec_times(b[k - 1]))
    }
}

/// The dot product of two equally long sequences.
pub open spec fn sdot<S: Scalar>(a: Seq<S>, b: Seq<S>) -> S {
    sdot_prefix(a, b, a.len() as int)
}

/// The dot product of two equally long vectors.
pub fn dot<S: Scalar>(a: &Vec<S>, b: &Vec<S>) -> (r: S)
    requires
        a@.len() == b@.len(),
    ensures
        r == sdot(a@, b@),
{
    let mut acc = S::zero();
    let mut k: usize = 0;
    while k < a.len()
        invariant
            k <= a@.len(),
            b@.len() == a@.len(),
            acc == sdot_prefix(a@, b@, k as int),
        decreases a@.len() - k,
    {
        acc = acc.plus(a[k].times(b[k]));
        k += 1;
    }
    acc
}

/// The transpose: entry `(i, j)` of the result is entry `(j, i)` of `m`.
pub fn transpose<S: Scalar>(m: &Matrix<S>) -> (r: Matrix<S>)
    requires
        m.wf(),
    ensures
        r.wf(),
        r@.len() == m.cols,
        r.cols == m@.len(),
        forall|i: int, j: int|
            0 <= i < m.cols && 0 <= j < m@.len() ==> r@[i][j] == m@[j][i],
{
    let rows = m.entries.len();
    let mut out: Vec<Vec<S>> = Vec::new();
    let mut i: usize = 0;
    while i < m.cols
        invariant
            m.wf(),
            i <= m.cols,
            rows == m@.len(),
            out@.len() == i,
            forall|p: int| 0 <= p < i ==> (#[trigger] out@[p])@.len() == rows,
            forall|p: int, q: int|
                0 <= p < i && 0 <= q < rows ==> out@[p]@[q] == m@[q][p],
        decreases m.cols - i,
    {
        let mut row: Vec<S> = Vec::new();
        let mut j: usize = 0;
        while j < rows
            invariant
                m.wf(),
                i < m.cols,
                rows == m@.len(),
                j <= rows,
                row@.len() == j,
                forall|q: int| 0 <= q < j ==> row@[q] == m@[q][i as int],
            decreases rows - j,
        {
            row.push(m.entries[j][i]);
            j += 1;
        }
        out.push(row);
        i += 1;
    }
    Matrix { entries: out, cols: rows }
}

/// Matrix product: entry `(i, j)` of the result is the dot product of row
/// `i` of `a` with column `j` of `b`.
pub fn mat_mul<S: Scalar>(a: &Matrix<S>, b: &Matrix<S>) -> (r: Matrix<S>)
    requires
        a.wf(),
        b.wf(),
        a.cols == b@.len(),
    ensures
        r.wf(),
        r@.len() == a@.len(),
        r.cols == b.cols,
        forall|i: int, j: int|
            0 <= i < a@.len() && 0 <= j < b.cols ==> r@[i][j] == sdot(a@[i], column_of(b@, j)),
{
    let rows = a.entries.len();
    let mut out: Vec<Vec<S>> = Vec::new();
    let mut i: usize = 0;
    while i < rows
        invariant
            a.wf(),
            b.wf(),
            a.cols == b@.len(),
            rows == a@.len(),
            i <= rows,
            out@.len() == i,
            forall|p: int| 0 <= p < i ==> (#[trigger] out@[p])@.len() == b.cols,
            forall|p: int, q: int|
                0 <= p < i && 0 <= q < b.cols ==> out@[p]@[q] == sdot(a@[p], column_of(b@, q)),
        decreases rows - i,
    {
        let mut row: Vec<S> = Vec::new();
        let mut j: usize = 0;
        while j < b.cols
            invariant
                a.wf(),
                b.wf(),
                a.cols == b@.len(),
                rows == a@.len(),
                i < rows,
                j <= b.cols,
                row@.len() == j,
                forall|q: int| 0 <= q < j ==> row@[q] == sdot(a@[i as int], column_of(b@, q)),
        decreases b.cols - j,
    {
            let mut acc = S::zero();
            let mut k: usize = 0;
            while k < a.cols
                invariant
                    a.wf(),
                    b.wf(),
                    a.cols == b@.len(),
                    rows == a@.len(),
                    i < rows,
                    j < b.cols,
                    k <= a.cols,
                    acc == sdot_prefix(a@[i as int], column_of(b@, j as int), k as int),
                decreases a.cols - k,
            {
                proof {
                    assert(column_of(b@, j as int)[k as int] == b@[k as int][j as int]);
                }
                acc = acc.plus(a.entries[i][k].times(b.entries[k][j]));
                k += 1;
            }
            proof {
                assert(a@[i as int].len() == a.cols);
            }
            row.push(acc);
            j += 1;
        }
        out.push(row);
        i += 1;
    }
    Matrix { entries: out, cols: b.cols }
}

/// Matrix–vector product: entry `i` of the result is the dot product of row
/// `i` of `a` with `v`.
pub fn mat_vec<S: Scalar>(a: &Matrix<S>, v: &Vec<S>) -> (r: Vec<S>)
    requires
        a.wf(),
        a.cols == v@.len(),
    ensures
        r@.len() == a@.len(),
        forall|i: int| 0 <= i < a@.len() ==> r@[i] == sdot(a@[i], v@),
{
    let rows = a.entries.len();
    let mut out: Vec<S> = Vec::new();
    let mut i: usize = 0;
    while i < rows
        invariant
            a.wf(),
            a.cols == v@.len(),
            rows == a@.len(),
            i <= rows,
            out@.len() == i,
            forall|p: int| 0 <= p < i ==> out@[p] == sdot(a@[p], v@),
        decreases rows - i,
    {
        let r = dot(&a.entries[i], v);
        out.push(r);
        i += 1;
    }
    out
}

/// Elementwise difference of two matrices of equal shape.
pub fn mat_sub<S: Scalar>(a: &Matrix<S>, b: &Matrix<S>) -> (r: Matrix<S>)
    requires
        a.wf(),
        b.wf(),
        a@.len() == b@.len(),
        a.cols == b.cols,
    ensures
        r.wf(),
        r@.len() == a@.len(),
        r.cols == a.cols,
        forall|i: int, j: int|
            0 <= i < a@.len() && 0 <= j < a.cols ==> r@[i][j] == a@[i][j].spec_minus(b@[i][j]),
{
    let rows = a.entries.len();
    let mut out: Vec<Vec<S>> = Vec::new();
    let mut i: usize = 0;
    while i < rows
        invariant
            a.wf(),
            b.wf(),
            a@.len() == b@.len(),
            a.cols == b.cols,
            rows == a@.len(),
            i <= rows,
            out@.len() == i,
            forall|p: int| 0 <= p < i ==> (#[trigger] out@[p])@.len() == a.cols,
            forall|p: int, q: int|
                0 <= p < i && 0 <= q < a.cols ==> out@[p]@[q] == a@[p][q].spec_minus(b@[p][q]),
        decreases rows - i,
    {
        let mut row: Vec<S> = Vec::new();
        let mut j: usize = 0;
        while j < a.cols
            invariant
                a.wf(),
                b.wf(),
                a@.len() == b@.len(),
                a.cols == b.cols,
                rows == a@.len(),
                i < rows,
                j <= a.cols,
                row@.len() == j,
                forall|q: int|
                    0 <= q < j ==> row@[q] == a@[i as int][q].spec_minus(b@[i as int][q]),
            decreases a.cols - j,
        {
            let s = a.entries[i][j].minus(b.entries[i][j]);
            row.push(s);
            j += 1;
        }
        out.push(row);
        i += 1;
    }
    Matrix { entries: out, cols: a.cols }
}

/// Adds `c` to every diagonal entry of a square matrix and leaves every
/// off-diagonal entry unchanged. This is the regularizer: with
/// `c = noise + jitter` it turns the raw training covariance into the
/// matrix the model inverts.
pub fn add_to_diagonal<S: Scalar>(m: &Matrix<S>, c: S) -> (r: Matrix<S>)
    requires
        m.wf(),
        m@.len() == m.cols,
    ensures
        r.wf(),
        r@.len() == m@.len(),
        r.cols == m.cols,
        forall|i: int| 0 <= i < m@.len() ==> r@[i][i] == m@[i][i].spec_plus(c),
        forall|i: int, j: int|
            0 <= i < m@.len() && 0 <= j < m.cols && i != j ==> r@[i][j] == m@[i][j],
{
    let rows = m.entries.len();
    let mut out: Vec<Vec<S>> = Vec::new();
    let mut i: usize = 0;
    while i < rows
        invariant
            m.wf(),
            m@.len() == m.cols,
            rows == m@.len(),
            i <= rows,
            out@.len() == i,
            forall|p: int| 0 <= p < i ==> (#[trigger] out@[p])@.len() == m.cols,
            forall|p: int| 0 <= p < i ==> out@[p]@[p] == m@[p][p].spec_plus(c),
            forall|p: int, q: int|
                0 <= p < i && 0 <= q < m.cols && p != q ==> out@[p]@[q] == m@[p][q],
        decreases rows - i,
    {
        let mut row: Vec<S> = Vec::new();
        let mut j: usize = 0;
        while j < m.cols
            invariant
                m.wf(),
                m@.len() == m.cols,
                rows == m@.len(),
                i < rows,
                j <= m.cols,
                row@.len() == j,
                forall|q: int|
                    0 <= q < j && q != i ==> row@[q] == m@[i as int][q],
                forall|q: int|
                    0 <= q < j && q == i ==> row@[q] == m@[i as int][q].spec_plus(c),
            decreases m.cols - j,
        {
            let base = m.entries[i][j];
            if j == i {
                let s = base.plus(c);
                row.push(s);
            } else {
                row.push(base);
            }
            j += 1;
        }
        out.push(row);
        i += 1;
    }
    Matrix { entries: out, cols: m.cols }
}

/// The diagonal of a square matrix.
pub fn diagonal<S: Scalar>(m: &Matrix<S>) -> (r: Vec<S>)
    requires
        m.wf(),
        m@.len() == m.cols,
    ensures
        r@.len() == m@.len(),
        forall|i: int| 0 <= i < m@.len() ==> r@[i] == m@[i][i],
{
    let rows = m.entries.len();
    let mut out: Vec<S> = Vec::new();
    let mut i: usize = 0;
    while i < rows
        invariant
            m.wf(),
            m@.len() == m.cols,
            rows == m@.len(),
            i <= rows,
            out@.len() == i,
            forall|p: int| 0 <= p < i ==> out@[p] == m@[p][p],
        decreases rows - i,
    {
        out.push(m.entries[i][i]);
        i += 1;
    }
    out
}

} // verus!
