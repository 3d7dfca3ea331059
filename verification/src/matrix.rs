use vstd::prelude::*;
use crate::scalar::{is_zero, is_zero_spec, polarity, polarity_spec, Angle, Scalar};
use crate::traits::SpecificRound;
use crate::point::Point;
use crate::vector::Vector;

verus! {

/// The axis a rotation turns about.
#[derive(Debug, Clone, Copy, PartialEq, Eq)]
pub enum Rotation {
    X,
    Y,
    Z,
}

/// Why a matrix operation was refused.
#[derive(Debug, Clone, Copy, PartialEq, Eq, Structural)]
pub enum MatrixError {
    /// The shape of an operand does not fit the operation.
    Shape,
    /// The matrix has a zero determinant and so no inverse.
    Singular,
}

/// The rows of `data`, each as a sequence of its entries.
pub open spec fn grid<T>(data: Seq<Vec<T>>) -> Seq<Seq<T>> {
    Seq::new(data.len(), |i: int| data[i]@)
}

/// Whether `cells` has `rows` rows of `cols` entries each.
pub open spec fn rectangular<T>(cells: Seq<Seq<T>>, rows: int, cols: int) -> bool {
    &&& cells.len() == rows
    &&& forall|i: int| 0 <= i < rows ==> (#[trigger] cells[i]).len() == cols
}

/// A `rows` by `cols` grid of scalars.
#[derive(Debug, PartialEq)]
pub struct Matrix<T> {
    rows: usize,
    cols: usize,
    data: Vec<Vec<T>>,
}

impl<T> View for Matrix<T> {
    type V = Seq<Seq<T>>;

    /// The entries, row by row.
    closed spec fn view(&self) -> Seq<Seq<T>> {
        grid(self.data@)
    }
}

impl<T> Matrix<T> {
    #[verifier::type_invariant]
    spec fn shape_holds(self) -> bool {
        rectangular(grid(self.data@), self.rows as int, self.cols as int)
    }

    /// How many rows the matrix has.
    pub closed spec fn spec_rows(&self) -> usize {
        self.rows
    }

    /// How many columns the matrix has.
    pub closed spec fn spec_cols(&self) -> usize {
        self.cols
    }

    /// Whether the entries form a grid of `rows()` rows and `cols()` columns.
    /// Every matrix that executable code holds is well formed.
    pub open spec fn wf(&self) -> bool {
        rectangular(self@, self.spec_rows() as int, self.spec_cols() as int)
    }

    /// How many rows the matrix has.
    #[verifier::when_used_as_spec(spec_rows)]
    pub fn rows(&self) -> (n: usize)
        ensures
            n == self.spec_rows(),
            self.wf(),
    {
        proof {
            use_type_invariant(self);
        }
        self.rows
    }

    /// How many columns the matrix has.
    #[verifier::when_used_as_spec(spec_cols)]
    pub fn cols(&self) -> (n: usize)
        ensures
            n == self.spec_cols(),
            self.wf(),
    {
        proof {
            use_type_invariant(self);
        }
        self.cols
    }
}

impl<T: Copy> Matrix<T> {
    /// The matrix whose rows are the vectors of `data`. They have to be
    /// at least one, and of one length.
    pub fn from_vec(data: Vec<Vec<T>>) -> (r: Result<Matrix<T>, MatrixError>)
        ensures
            r is Ok <==> data@.len() > 0 && rectangular(
                grid(data@),
                data@.len() as int,
                data@[0]@.len() as int,
            ),
            r matches Ok(m) ==> m@ == grid(data@) && m.rows() == data@.len() && m.cols()
                == data@[0]@.len() && m.wf(),
            r matches Err(e) ==> e == MatrixError::Shape,
    {
        let rows = data.len();
        if rows == 0 {
            return Err(MatrixError::Shape);
        }
        let cols = data[0].len();
        let mut i: usize = 1;
        while i < rows
            invariant
                1 <= i <= rows,
                rows == data@.len(),
                cols == data@[0]@.len(),
                forall|k: int| 0 <= k < i ==> (#[trigger] data@[k])@.len() == cols,
            decreases rows - i,
        {
            if data[i].len() != cols {
                assert(grid(data@)[i as int].len() != cols);
                return Err(MatrixError::Shape);
            }
            i += 1;
        }
        assert(rectangular(grid(data@), rows as int, cols as int));
        Ok(Matrix { rows, cols, data })
    }

    /// The entry in row `i`, column `j`.
    pub fn get(&self, i: usize, j: usize) -> (v: T)
        requires
            i < self.rows(),
            j < self.cols(),
        ensures
            v == self@[i as int][j as int],
    {
        proof {
            use_type_invariant(self);
        }
        assert(grid(self.data@)[i as int].len() == self.cols);
        self.data[i][j]
    }

    /// Puts `value` in row `i`, column `j`.
    pub fn set(&mut self, i: usize, j: usize, value: T)
        requires
            i < old(self).rows(),
            j < old(self).cols(),
        ensures
            final(self).rows() == old(self).rows(),
            final(self).cols() == old(self).cols(),
            final(self).wf(),
            final(self)@ == old(self)@.update(i as int, old(self)@[i as int].update(j as int, value)),
    {
        proof {
            use_type_invariant(&*self);
        }
        assert(grid(self.data@)[i as int].len() == self.cols);
        set_cell(&mut self.data, i, j, value);
    }
}

/// Puts `value` at place `j` of row `i` of `data`.
fn set_cell<T>(data: &mut Vec<Vec<T>>, i: usize, j: usize, value: T)
    requires
        i < old(data)@.len(),
        j < old(data)@[i as int]@.len(),
    ensures
        grid(final(data)@) == grid(old(data)@).update(
            i as int,
            grid(old(data)@)[i as int].update(j as int, value),
        ),
    no_unwind
{
    data[i][j] = value;
    assert(grid(data@) =~= grid(old(data)@).update(
        i as int,
        grid(old(data)@)[i as int].update(j as int, value),
    ));
}

/// Adding a row to `data` adds its entries to the grid.
proof fn lemma_grid_push<T>(data: Seq<Vec<T>>, row: Vec<T>)
    ensures
        grid(data.push(row)) == grid(data).push(row@),
{
    assert(grid(data.push(row)) =~= grid(data).push(row@));
}

/// `s` without its entry at `k`; `s` itself where it has no such entry.
pub open spec fn skip<A>(s: Seq<A>, k: int) -> Seq<A> {
    if 0 <= k < s.len() {
        s.remove(k)
    } else {
        s
    }
}

/// `m` without row `row` and without column `col`.
pub open spec fn minor_spec<T>(m: Seq<Seq<T>>, row: int, col: int) -> Seq<Seq<T>> {
    skip(m, row).map_values(|r: Seq<T>| skip(r, col))
}

/// The square matrix `m` mirrored at its diagonal.
pub open spec fn transpose_spec<T>(m: Seq<Seq<T>>) -> Seq<Seq<T>> {
    Seq::new(m.len(), |j: int| Seq::new(m.len(), |i: int| m[i][j]))
}

/// Mirroring a square grid twice gives the grid back.
pub proof fn lemma_transpose_involution<T>(m: Seq<Seq<T>>)
    requires
        rectangular(m, m.len() as int, m.len() as int),
    ensures
        transpose_spec(transpose_spec(m)) == m,
{
    let t = transpose_spec(transpose_spec(m));
    assert(t.len() == m.len());
    assert forall|i: int| 0 <= i < m.len() implies #[trigger] t[i] == m[i] by {
        assert(m[i].len() == m.len());
        assert(t[i] =~= m[i]);
    }
    assert(t =~= m);
}

/// A copy of `row`.
fn copy_row<T: Copy>(row: &Vec<T>) -> (r: Vec<T>)
    ensures
        r@ == row@,
{
    let mut out: Vec<T> = Vec::new();
    let mut j: usize = 0;
    while j < row.len()
        invariant
            j <= row@.len(),
            out@ == row@.take(j as int),
        decreases row.len() - j,
    {
        out.push(row[j]);
        assert(out@ =~= row@.take(j + 1));
        j += 1;
    }
    assert(row@.take(row@.len() as int) =~= row@);
    out
}

/// A copy of `row` without its entry at `col`.
fn row_without<T: Copy>(row: &Vec<T>, col: usize) -> (r: Vec<T>)
    ensures
        r@ == skip(row@, col as int),
{
    let mut out: Vec<T> = Vec::new();
    let mut j: usize = 0;
    while j < row.len()
        invariant
            j <= row@.len(),
            out@ == skip(row@.take(j as int), col as int),
        decreases row.len() - j,
    {
        if j != col {
            out.push(row[j]);
        }
        assert(skip(row@.take(j + 1), col as int) =~= if j != col {
            skip(row@.take(j as int), col as int).push(row@[j as int])
        } else {
            skip(row@.take(j as int), col as int)
        });
        j += 1;
    }
    assert(row@.take(row@.len() as int) =~= row@);
    out
}

impl<T: Copy> Matrix<T> {
    /// The rows of the matrix, copied.
    pub fn to_vec(&self) -> (r: Vec<Vec<T>>)
        ensures
            grid(r@) == self@,
    {
        let mut out: Vec<Vec<T>> = Vec::new();
        let mut i: usize = 0;
        while i < self.data.len()
            invariant
                i <= self.data@.len(),
                grid(out@) == grid(self.data@).take(i as int),
            decreases self.data.len() - i,
        {
            let row = copy_row(&self.data[i]);
            proof {
                lemma_grid_push(out@, row);
            }
            out.push(row);
            assert(grid(out@) =~= grid(self.data@).take(i + 1));
            i += 1;
        }
        assert(grid(self.data@).take(self.data@.len() as int) =~= grid(self.data@));
        out
    }

    /// The rows of `matrix` but the one at `row`, each without its entry
    /// at `col`.
    pub fn sub_matrix(matrix: &Vec<Vec<T>>, row: usize, col: usize) -> (r: Vec<Vec<T>>)
        ensures
            grid(r@) == minor_spec(grid(matrix@), row as int, col as int),
    {
        let mut out: Vec<Vec<T>> = Vec::new();
        let mut i: usize = 0;
        while i < matrix.len()
            invariant
                i <= matrix@.len(),
                grid(out@) == minor_spec(grid(matrix@).take(i as int), row as int, col as int),
            decreases matrix.len() - i,
        {
            if i != row {
                let short = row_without(&matrix[i], col);
                proof {
                    lemma_grid_push(out@, short);
                }
                out.push(short);
            }
            assert(minor_spec(grid(matrix@).take(i + 1), row as int, col as int) =~= if i != row {
                minor_spec(grid(matrix@).take(i as int), row as int, col as int).push(
                    skip(grid(matrix@)[i as int], col as int),
                )
            } else {
                minor_spec(grid(matrix@).take(i as int), row as int, col as int)
            });
            i += 1;
        }
        assert(grid(matrix@).take(matrix@.len() as int) =~= grid(matrix@));
        out
    }

    /// The matrix mirrored at its diagonal. Only a square matrix has one.
    /// Mirroring the result gives the matrix back.
    pub fn transpose(&self) -> (r: Result<Matrix<T>, MatrixError>)
        ensures
            r is Ok <==> self.rows() == self.cols(),
            r matches Ok(t) ==> t@ == transpose_spec(self@) && t.rows() == self.rows() && t.cols()
                == self.cols() && t.wf() && transpose_spec(t@) == self@,
            r matches Err(e) ==> e == MatrixError::Shape,
    {
        proof {
            use_type_invariant(self);
            if self.rows == self.cols {
                lemma_transpose_involution(grid(self.data@));
            }
        }
        if self.rows != self.cols {
            return Err(MatrixError::Shape);
        }
        let n = self.rows;
        let mut out: Vec<Vec<T>> = Vec::new();
        let mut j: usize = 0;
        while j < n
            invariant
                j <= n,
                n == self.rows,
                n == self.cols,
                rectangular(grid(self.data@), n as int, n as int),
                grid(out@) == transpose_spec(grid(self.data@)).take(j as int),
            decreases n - j,
        {
            let mut line: Vec<T> = Vec::new();
            let mut i: usize = 0;
            while i < n
                invariant
                    i <= n,
                    j < n,
                    n == self.rows,
                    n == self.cols,
                    rectangular(grid(self.data@), n as int, n as int),
                    line@ == transpose_spec(grid(self.data@))[j as int].take(i as int),
                decreases n - i,
            {
                assert(grid(self.data@)[i as int].len() == n);
                line.push(self.data[i][j]);
                assert(line@ =~= transpose_spec(grid(self.data@))[j as int].take(i + 1));
                i += 1;
            }
            assert(line@ =~= transpose_spec(grid(self.data@))[j as int]);
            proof {
                lemma_grid_push(out@, line);
            }
            out.push(line);
            assert(grid(out@) =~= transpose_spec(grid(self.data@)).take(j + 1));
            j += 1;
        }
        assert(grid(out@) =~= transpose_spec(grid(self.data@)));
        Ok(Matrix { rows: n, cols: n, data: out })
    }
}

impl<T: Copy> Clone for Matrix<T> {
    fn clone(&self) -> (r: Self)
        ensures
            r@ == self@,
            r.rows() == self.rows(),
            r.cols() == self.cols(),
            r.wf(),
    {
        proof {
            use_type_invariant(self);
        }
        Matrix { rows: self.rows, cols: self.cols, data: self.to_vec() }
    }
}

/// The grid of `rows` by `cols` zeros.
pub open spec fn zeros_spec<T: Scalar>(rows: nat, cols: nat) -> Seq<Seq<T>> {
    Seq::new(rows, |i: int| Seq::new(cols, |j: int| T::zero_spec()))
}

/// The 4 by 4 grid with ones on the diagonal and zeros elsewhere.
pub open spec fn identity_spec<T: Scalar>() -> Seq<Seq<T>> {
    let o = T::one_spec();
    let z = T::zero_spec();
    seq![seq![o, z, z, z], seq![z, o, z, z], seq![z, z, o, z], seq![z, z, z, o]]
}

/// The homogeneous transform that moves a point by `(x, y, z)`.
pub open spec fn translation_spec<T: Scalar>(x: T, y: T, z: T) -> Seq<Seq<T>> {
    let o = T::one_spec();
    let n = T::zero_spec();
    seq![seq![o, n, n, x], seq![n, o, n, y], seq![n, n, o, z], seq![n, n, n, o]]
}

/// The homogeneous transform that stretches each axis by its factor.
pub open spec fn scaling_spec<T: Scalar>(x: T, y: T, z: T) -> Seq<Seq<T>> {
    let o = T::one_spec();
    let n = T::zero_spec();
    seq![seq![x, n, n, n], seq![n, y, n, n], seq![n, n, z, n], seq![n, n, n, o]]
}

/// The homogeneous transform that moves each coordinate in proportion
/// to the two others.
pub open spec fn shearing_spec<T: Scalar>(x_y: T, x_z: T, y_x: T, y_z: T, z_x: T, z_y: T) -> Seq<
    Seq<T>,
> {
    let o = T::one_spec();
    let n = T::zero_spec();
    seq![seq![o, x_y, x_z, n], seq![y_x, o, y_z, n], seq![z_x, z_y, o, n], seq![n, n, n, o]]
}

/// The right-handed rotation about `axis` by the angle whose cosine is
/// `c` and whose sine is `s`.
pub open spec fn rotation_spec<T: Scalar>(c: T, s: T, axis: Rotation) -> Seq<Seq<T>> {
    let o = T::one_spec();
    let n = T::zero_spec();
    let m = s.neg_spec();
    match axis {
        Rotation::X => seq![seq![o, n, n, n], seq![n, c, m, n], seq![n, s, c, n], seq![n, n, n, o]],
        Rotation::Y => seq![seq![c, n, s, n], seq![n, o, n, n], seq![m, n, c, n], seq![n, n, n, o]],
        Rotation::Z => seq![seq![c, m, n, n], seq![s, c, n, n], seq![n, n, o, n], seq![n, n, n, o]],
    }
}

/// A vector of the four given entries.
fn row4<T: Copy>(a: T, b: T, c: T, d: T) -> (r: Vec<T>)
    ensures
        r@ == seq![a, b, c, d],
{
    let mut r: Vec<T> = Vec::new();
    r.push(a);
    r.push(b);
    r.push(c);
    r.push(d);
    assert(r@ =~= seq![a, b, c, d]);
    r
}

/// The 4 by 4 matrix of the four given rows.
fn grid4<T: Copy>(r0: Vec<T>, r1: Vec<T>, r2: Vec<T>, r3: Vec<T>) -> (m: Matrix<T>)
    requires
        r0@.len() == 4,
        r1@.len() == 4,
        r2@.len() == 4,
        r3@.len() == 4,
    ensures
        m@ == seq![r0@, r1@, r2@, r3@],
        m.rows() == 4,
        m.cols() == 4,
        m.wf(),
{
    let mut data: Vec<Vec<T>> = Vec::new();
    data.push(r0);
    data.push(r1);
    data.push(r2);
    data.push(r3);
    assert(grid(data@) =~= seq![r0@, r1@, r2@, r3@]);
    Matrix { rows: 4, cols: 4, data }
}

impl<T: Scalar> Matrix<T> {
    /// The `rows` by `cols` matrix of zeros.
    pub fn new(rows: usize, cols: usize) -> (m: Matrix<T>)
        ensures
            m@ == zeros_spec::<T>(rows as nat, cols as nat),
            m.rows() == rows,
            m.cols() == cols,
            m.wf(),
    {
        let mut data: Vec<Vec<T>> = Vec::new();
        let mut i: usize = 0;
        while i < rows
            invariant
                i <= rows,
                grid(data@) == zeros_spec::<T>(i as nat, cols as nat),
            decreases rows - i,
        {
            let mut line: Vec<T> = Vec::new();
            let mut j: usize = 0;
            while j < cols
                invariant
                    j <= cols,
                    line@ == Seq::new(j as nat, |k: int| T::zero_spec()),
                decreases cols - j,
            {
                line.push(T::zero());
                assert(line@ =~= Seq::new((j + 1) as nat, |k: int| T::zero_spec()));
                j += 1;
            }
            proof {
                lemma_grid_push(data@, line);
            }
            data.push(line);
            assert(grid(data@) =~= zeros_spec::<T>((i + 1) as nat, cols as nat));
            i += 1;
        }
        Matrix { rows, cols, data }
    }

    /// The 4 by 4 identity.
    pub fn identity() -> (m: Matrix<T>)
        ensures
            m@ == identity_spec::<T>(),
            m.rows() == 4,
            m.cols() == 4,
            m.wf(),
    {
        let o = T::one();
        let z = T::zero();
        grid4(row4(o, z, z, z), row4(z, o, z, z), row4(z, z, o, z), row4(z, z, z, o))
    }

    /// The transform that moves a point by `(x, y, z)`.
    pub fn translation(x: T, y: T, z: T) -> (m: Matrix<T>)
        ensures
            m@ == translation_spec(x, y, z),
            m.rows() == 4,
            m.cols() == 4,
            m.wf(),
    {
        let o = T::one();
        let n = T::zero();
        grid4(row4(o, n, n, x), row4(n, o, n, y), row4(n, n, o, z), row4(n, n, n, o))
    }

    /// The transform that stretches each axis by its factor.
    pub fn scaling(x: T, y: T, z: T) -> (m: Matrix<T>)
        ensures
            m@ == scaling_spec(x, y, z),
            m.rows() == 4,
            m.cols() == 4,
            m.wf(),
    {
        let o = T::one();
        let n = T::zero();
        grid4(row4(x, n, n, n), row4(n, y, n, n), row4(n, n, z, n), row4(n, n, n, o))
    }

    /// The transform that moves each coordinate in proportion to the two
    /// others: `x_y` is what `x` takes of `y`, and so on.
    pub fn shearing(x_y: T, x_z: T, y_x: T, y_z: T, z_x: T, z_y: T) -> (m: Matrix<T>)
        ensures
            m@ == shearing_spec(x_y, x_z, y_x, y_z, z_x, z_y),
            m.rows() == 4,
            m.cols() == 4,
            m.wf(),
    {
        let o = T::one();
        let n = T::zero();
        grid4(row4(o, x_y, x_z, n), row4(y_x, o, y_z, n), row4(z_x, z_y, o, n), row4(n, n, n, o))
    }

    /// The right-handed rotation about `axis` by the angle whose cosine is
    /// `cosr` and whose sine is `sinr`.
    pub fn rotation_from(cosr: T, sinr: T, axis: Rotation) -> (m: Matrix<T>)
        ensures
            m@ == rotation_spec(cosr, sinr, axis),
            m.rows() == 4,
            m.cols() == 4,
            m.wf(),
    {
        let o = T::one();
        let n = T::zero();
        let c = cosr;
        let s = sinr;
        let m = sinr.neg();
        match axis {
            Rotation::X => grid4(
                row4(o, n, n, n),
                row4(n, c, m, n),
                row4(n, s, c, n),
                row4(n, n, n, o),
            ),
            Rotation::Y => grid4(
                row4(c, n, s, n),
                row4(n, o, n, n),
                row4(m, n, c, n),
                row4(n, n, n, o),
            ),
            Rotation::Z => grid4(
                row4(c, m, n, n),
                row4(s, c, n, n),
                row4(n, n, o, n),
                row4(n, n, n, o),
            ),
        }
    }
}

impl<T: Angle> Matrix<T> {
    /// The right-handed rotation about `axis` by `angle`: the matrix that
    /// [`Matrix::rotation_from`] makes of the angle's cosine and sine.
    pub fn rotation(angle: T, axis: Rotation) -> (m: Matrix<T>)
        ensures
            exists|c: T, s: T|
                angle.is_cos_spec(c) && angle.is_sin_spec(s) && m@ == rotation_spec(c, s, axis),
            m.rows() == 4,
            m.cols() == 4,
            m.wf(),
    {
        let cosr = angle.cos();
        let sinr = angle.sin();
        Matrix::rotation_from(cosr, sinr, axis)
    }
}

/// The determinant of the square grid `m`: its only entry where it has
/// one, `ad - bc` where it has four, and else its expansion along the
/// first row. A grid without rows has the determinant zero.
pub open spec fn det_spec<T: Scalar>(m: Seq<Seq<T>>) -> T
    decreases m.len(), m.len() + 1,
{
    if m.len() == 1 {
        m[0][0]
    } else if m.len() == 2 {
        m[0][0].mul_spec(m[1][1]).sub_spec(m[0][1].mul_spec(m[1][0]))
    } else {
        expansion_spec(m, m.len())
    }
}

/// The first `k` terms of the expansion of `m` along its first row, added
/// up from zero in the order of the columns. The term of column `i` is the
/// entry times the sign of `i` times the determinant of the minor.
pub open spec fn expansion_spec<T: Scalar>(m: Seq<Seq<T>>, k: nat) -> T
    decreases m.len(), k,
{
    if k == 0 || m.len() == 0 {
        T::zero_spec()
    } else {
        expansion_spec(m, (k - 1) as nat).add_spec(
            m[0][k - 1].mul_spec(polarity_spec::<T>(k - 1)).mul_spec(
                det_spec(minor_spec(m, 0, k - 1)),
            ),
        )
    }
}

/// The grid of the cofactors of the square grid `m`: at `(i, j)` the sign
/// of `i + j` times the determinant of the minor without row `i` and
/// column `j`.
pub open spec fn cofactor_spec<T: Scalar>(m: Seq<Seq<T>>) -> Seq<Seq<T>> {
    Seq::new(
        m.len(),
        |i: int|
            Seq::new(
                m.len(),
                |j: int| polarity_spec::<T>(i + j).mul_spec(det_spec(minor_spec(m, i, j))),
            ),
    )
}

/// The grid `m` with every entry divided by `d`.
pub open spec fn scaled_down_spec<T: Scalar>(m: Seq<Seq<T>>, d: T) -> Seq<Seq<T>> {
    m.map_values(|r: Seq<T>| r.map_values(|v: T| v.div_spec(d)))
}

/// The inverse of the square grid `m`: its cofactors, mirrored at the
/// diagonal, each divided by the determinant.
pub open spec fn inverse_spec<T: Scalar>(m: Seq<Seq<T>>) -> Seq<Seq<T>> {
    scaled_down_spec(transpose_spec(cofactor_spec(m)), det_spec(m))
}

/// A minor of a square grid is square, and one smaller.
pub proof fn lemma_minor_square<T>(m: Seq<Seq<T>>, row: int, col: int)
    requires
        rectangular(m, m.len() as int, m.len() as int),
        0 <= row < m.len(),
        0 <= col < m.len(),
    ensures
        rectangular(minor_spec(m, row, col), m.len() - 1, m.len() - 1),
{
    let n = minor_spec(m, row, col);
    assert(n.len() == m.len() - 1);
    assert forall|i: int| 0 <= i < m.len() - 1 implies (#[trigger] n[i]).len() == m.len() - 1 by {
        let src = if i < row { i } else { i + 1 };
        assert(skip(m, row)[i] == m[src]);
        assert(m[src].len() == m.len());
    }
}

impl<T: Scalar> Matrix<T> {
    /// The determinant of the square grid `matrix`.
    pub fn sub_determinant(matrix: &Vec<Vec<T>>) -> (d: T)
        requires
            rectangular(grid(matrix@), matrix@.len() as int, matrix@.len() as int),
        ensures
            d == det_spec(grid(matrix@)),
        decreases matrix@.len(),
    {
        let n = matrix.len();
        let ghost g = grid(matrix@);
        if n == 1 {
            assert(g[0].len() == 1);
            return matrix[0][0];
        }
        if n == 2 {
            assert(g[0].len() == 2);
            assert(g[1].len() == 2);
            return matrix[0][0].mul(matrix[1][1]).sub(matrix[0][1].mul(matrix[1][0]));
        }
        let mut result = T::zero();
        let mut i: usize = 0;
        while i < n
            invariant
                i <= n,
                n == matrix@.len(),
                g == grid(matrix@),
                rectangular(g, n as int, n as int),
                result == expansion_spec(g, i as nat),
            decreases n - i,
        {
            let sub = Self::sub_matrix(matrix, 0, i);
            proof {
                lemma_minor_square(g, 0, i as int);
            }
            assert(g[0].len() == n);
            let below = Self::sub_determinant(&sub);
            result = result.add(matrix[0][i].mul(polarity::<T>(i)).mul(below));
            i += 1;
        }
        result
    }

    /// The determinant. Only a square matrix has one.
    pub fn determinant(&self) -> (r: Result<T, MatrixError>)
        ensures
            r is Ok <==> self.rows() == self.cols(),
            r matches Ok(d) ==> d == det_spec(self@),
            r matches Err(e) ==> e == MatrixError::Shape,
    {
        proof {
            use_type_invariant(self);
        }
        if self.rows != self.cols {
            return Err(MatrixError::Shape);
        }
        Ok(Self::sub_determinant(&self.data))
    }

    /// The matrix of the cofactors. Only a square matrix has one.
    pub fn cofactor(&self) -> (r: Result<Matrix<T>, MatrixError>)
        ensures
            r is Ok <==> self.rows() == self.cols(),
            r matches Ok(c) ==> c@ == cofactor_spec(self@) && c.rows() == self.rows() && c.cols()
                == self.cols() && c.wf(),
            r matches Err(e) ==> e == MatrixError::Shape,
    {
        proof {
            use_type_invariant(self);
        }
        if self.rows != self.cols {
            return Err(MatrixError::Shape);
        }
        let n = self.rows;
        let ghost g = grid(self.data@);
        let mut out: Vec<Vec<T>> = Vec::new();
        let mut i: usize = 0;
        while i < n
            invariant
                i <= n,
                n == self.data@.len(),
                g == grid(self.data@),
                rectangular(g, n as int, n as int),
                grid(out@) == cofactor_spec(g).take(i as int),
            decreases n - i,
        {
            let mut line: Vec<T> = Vec::new();
            let mut j: usize = 0;
            while j < n
                invariant
                    j <= n,
                    i < n,
                    n == self.data@.len(),
                    g == grid(self.data@),
                    rectangular(g, n as int, n as int),
                    line@ == cofactor_spec(g)[i as int].take(j as int),
                decreases n - j,
            {
                let sub = Self::sub_matrix(&self.data, i, j);
                proof {
                    lemma_minor_square(g, i as int, j as int);
                }
                let below = Self::sub_determinant(&sub);
                let sign = polarity::<T>(i % 2 + j % 2);
                assert(sign == polarity_spec::<T>(i + j)) by {
                    assert((i % 2 + j % 2) % 2 == (i + j) % 2);
                }
                line.push(sign.mul(below));
                assert(line@ =~= cofactor_spec(g)[i as int].take(j + 1));
                j += 1;
            }
            assert(line@ =~= cofactor_spec(g)[i as int]);
            proof {
                lemma_grid_push(out@, line);
            }
            out.push(line);
            assert(grid(out@) =~= cofactor_spec(g).take(i + 1));
            i += 1;
        }
        assert(grid(out@) =~= cofactor_spec(g));
        Ok(Matrix { rows: n, cols: n, data: out })
    }

    /// The matrix with every entry divided by `divisor`.
    pub fn div(&self, divisor: T) -> (r: Matrix<T>)
        ensures
            r@ == scaled_down_spec(self@, divisor),
            r.rows() == self.rows(),
            r.cols() == self.cols(),
            r.wf(),
    {
        proof {
            use_type_invariant(self);
        }
        let ghost g = grid(self.data@);
        let mut out: Vec<Vec<T>> = Vec::new();
        let mut i: usize = 0;
        while i < self.data.len()
            invariant
                i <= self.data@.len(),
                g == grid(self.data@),
                grid(out@) == scaled_down_spec(g, divisor).take(i as int),
            decreases self.data.len() - i,
        {
            let row = &self.data[i];
            let mut line: Vec<T> = Vec::new();
            let mut j: usize = 0;
            while j < row.len()
                invariant
                    j <= row@.len(),
                    i < self.data@.len(),
                    row@ == g[i as int],
                    g == grid(self.data@),
                    line@ == scaled_down_spec(g, divisor)[i as int].take(j as int),
                decreases row.len() - j,
            {
                line.push(row[j].div(divisor));
                assert(line@ =~= scaled_down_spec(g, divisor)[i as int].take(j + 1));
                j += 1;
            }
            assert(line@ =~= scaled_down_spec(g, divisor)[i as int]);
            proof {
                lemma_grid_push(out@, line);
            }
            out.push(line);
            assert(grid(out@) =~= scaled_down_spec(g, divisor).take(i + 1));
            i += 1;
        }
        assert(grid(out@) =~= scaled_down_spec(g, divisor));
        Matrix { rows: self.rows, cols: self.cols, data: out }
    }

    /// The inverse. Only a square matrix whose determinant is not zero has
    /// one.
    pub fn inverse(&self) -> (r: Result<Matrix<T>, MatrixError>)
        ensures
            r is Ok <==> self.rows() == self.cols() && !is_zero_spec(det_spec(self@)),
            r matches Ok(m) ==> m@ == inverse_spec(self@) && m.rows() == self.rows() && m.cols()
                == self.cols() && m.wf(),
            r matches Err(e) ==> e == (if self.rows() == self.cols() {
                MatrixError::Singular
            } else {
                MatrixError::Shape
            }),
    {
        proof {
            use_type_invariant(self);
        }
        if self.rows != self.cols {
            return Err(MatrixError::Shape);
        }
        let det = Self::sub_determinant(&self.data);
        if is_zero(det) {
            return Err(MatrixError::Singular);
        }
        match self.cofactor() {
            Ok(cofactors) => match cofactors.transpose() {
                Ok(adjugate) => Ok(adjugate.div(det)),
                Err(e) => Err(e),
            },
            Err(e) => Err(e),
        }
    }
}

/// The first `n` products of row `i` of `a` with column `j` of `b`, added
/// up from zero in their order.
pub open spec fn inner_spec<T: Scalar>(a: Seq<Seq<T>>, b: Seq<Seq<T>>, i: int, j: int, n: nat) -> T
    decreases n,
{
    if n == 0 {
        T::zero_spec()
    } else {
        inner_spec(a, b, i, j, (n - 1) as nat).add_spec(a[i][n - 1].mul_spec(b[n - 1][j]))
    }
}

/// The product of the `rows` by `inner` grid `a` with the `inner` by `cols`
/// grid `b`.
pub open spec fn product_spec<T: Scalar>(
    a: Seq<Seq<T>>,
    b: Seq<Seq<T>>,
    rows: nat,
    inner: nat,
    cols: nat,
) -> Seq<Seq<T>> {
    Seq::new(rows, |i: int| Seq::new(cols, |j: int| inner_spec(a, b, i, j, inner)))
}

/// The grid `m` with every entry rounded to `places` decimal places.
pub open spec fn rounded_spec<T: SpecificRound>(m: Seq<Seq<T>>, places: u32) -> Seq<Seq<T>> {
    m.map_values(|r: Seq<T>| r.map_values(|v: T| v.round_spec(places)))
}

/// The number of decimal places that `digits` asks for: `digits` itself
/// as far as 32 bits hold it.
pub open spec fn places_spec(digits: usize) -> u32 {
    if digits <= u32::MAX {
        digits as u32
    } else {
        u32::MAX
    }
}

/// What the row `r` of a transform makes of the direction `v`:
/// `(r0 * x + r1 * y) + r2 * z`.
pub open spec fn row_vector_spec<T: Scalar>(r: Seq<T>, v: Vector<T>) -> T {
    r[0].mul_spec(v.x).add_spec(r[1].mul_spec(v.y)).add_spec(r[2].mul_spec(v.z))
}

/// What the row `r` of a transform makes of the location `p`:
/// `((r0 * x + r1 * y) + r2 * z) + r3`.
pub open spec fn row_point_spec<T: Scalar>(r: Seq<T>, p: Point<T>) -> T {
    r[0].mul_spec(p.x).add_spec(r[1].mul_spec(p.y)).add_spec(r[2].mul_spec(p.z)).add_spec(r[3])
}

/// The direction `v` under the transform `m`. A direction has the
/// homogeneous coordinate zero, so the fourth column leaves it alone.
pub open spec fn transform_vector_spec<T: Scalar>(m: Seq<Seq<T>>, v: Vector<T>) -> Vector<T> {
    Vector {
        x: row_vector_spec(m[0], v),
        y: row_vector_spec(m[1], v),
        z: row_vector_spec(m[2], v),
    }
}

/// The location `p` under the transform `m`. A location has the
/// homogeneous coordinate one, so the fourth column moves it.
pub open spec fn transform_point_spec<T: Scalar>(m: Seq<Seq<T>>, p: Point<T>) -> Point<T> {
    Point { x: row_point_spec(m[0], p), y: row_point_spec(m[1], p), z: row_point_spec(m[2], p) }
}

impl<T: Scalar> Matrix<T> {
    /// The product `self * rhs`. It takes as many rows in `rhs` as `self`
    /// has columns.
    pub fn mul(&self, rhs: &Matrix<T>) -> (r: Result<Matrix<T>, MatrixError>)
        ensures
            r is Ok <==> self.cols() == rhs.rows(),
            r matches Ok(m) ==> m@ == product_spec(
                self@,
                rhs@,
                self.rows() as nat,
                self.cols() as nat,
                rhs.cols() as nat,
            ) && m.rows() == self.rows() && m.cols() == rhs.cols() && m.wf(),
            r matches Err(e) ==> e == MatrixError::Shape,
    {
        proof {
            use_type_invariant(self);
            use_type_invariant(rhs);
        }
        if self.cols != rhs.rows {
            return Err(MatrixError::Shape);
        }
        let ghost a = grid(self.data@);
        let ghost b = grid(rhs.data@);
        let ghost want = product_spec(a, b, self.rows as nat, self.cols as nat, rhs.cols as nat);
        let mut out: Vec<Vec<T>> = Vec::new();
        let mut i: usize = 0;
        while i < self.rows
            invariant
                i <= self.rows,
                a == grid(self.data@),
                b == grid(rhs.data@),
                rectangular(a, self.rows as int, self.cols as int),
                rectangular(b, rhs.rows as int, rhs.cols as int),
                self.cols == rhs.rows,
                want == product_spec(a, b, self.rows as nat, self.cols as nat, rhs.cols as nat),
                grid(out@) == want.take(i as int),
            decreases self.rows - i,
        {
            let mut line: Vec<T> = Vec::new();
            let mut j: usize = 0;
            while j < rhs.cols
                invariant
                    j <= rhs.cols,
                    i < self.rows,
                    a == grid(self.data@),
                    b == grid(rhs.data@),
                    rectangular(a, self.rows as int, self.cols as int),
                    rectangular(b, rhs.rows as int, rhs.cols as int),
                    self.cols == rhs.rows,
                    want == product_spec(
                        a,
                        b,
                        self.rows as nat,
                        self.cols as nat,
                        rhs.cols as nat,
                    ),
                    line@ == want[i as int].take(j as int),
                decreases rhs.cols - j,
            {
                let mut sum = T::zero();
                let mut k: usize = 0;
                while k < self.cols
                    invariant
                        k <= self.cols,
                        i < self.rows,
                        j < rhs.cols,
                        a == grid(self.data@),
                        b == grid(rhs.data@),
                        rectangular(a, self.rows as int, self.cols as int),
                        rectangular(b, rhs.rows as int, rhs.cols as int),
                        self.cols == rhs.rows,
                        sum == inner_spec(a, b, i as int, j as int, k as nat),
                    decreases self.cols - k,
                {
                    assert(a[i as int].len() == self.cols);
                    assert(b[k as int].len() == rhs.cols);
                    sum = sum.add(self.data[i][k].mul(rhs.data[k][j]));
                    k += 1;
                }
                line.push(sum);
                assert(line@ =~= want[i as int].take(j + 1));
                j += 1;
            }
            assert(line@ =~= want[i as int]);
            proof {
                lemma_grid_push(out@, line);
            }
            out.push(line);
            assert(grid(out@) =~= want.take(i + 1));
            i += 1;
        }
        assert(grid(out@) =~= want);
        Ok(Matrix { rows: self.rows, cols: rhs.cols, data: out })
    }

    /// The direction `v` under this transform, which is 4 by 4.
    pub fn transform_vector(&self, v: Vector<T>) -> (r: Vector<T>)
        requires
            self.rows() == 4,
            self.cols() == 4,
        ensures
            r == transform_vector_spec(self@, v),
    {
        proof {
            use_type_invariant(self);
        }
        let ghost g = grid(self.data@);
        assert(g[0].len() == 4 && g[1].len() == 4 && g[2].len() == 4);
        let x = Self::row_vector(&self.data[0], v);
        let y = Self::row_vector(&self.data[1], v);
        let z = Self::row_vector(&self.data[2], v);
        Vector { x, y, z }
    }

    /// The location `p` under this transform, which is 4 by 4.
    pub fn transform_point(&self, p: Point<T>) -> (r: Point<T>)
        requires
            self.rows() == 4,
            self.cols() == 4,
        ensures
            r == transform_point_spec(self@, p),
    {
        proof {
            use_type_invariant(self);
        }
        let ghost g = grid(self.data@);
        assert(g[0].len() == 4 && g[1].len() == 4 && g[2].len() == 4);
        let x = Self::row_point(&self.data[0], p);
        let y = Self::row_point(&self.data[1], p);
        let z = Self::row_point(&self.data[2], p);
        Point { x, y, z }
    }

    /// What the row `row` of a transform makes of the direction `v`.
    fn row_vector(row: &Vec<T>, v: Vector<T>) -> (r: T)
        requires
            row@.len() >= 3,
        ensures
            r == row_vector_spec(row@, v),
    {
        row[0].mul(v.x).add(row[1].mul(v.y)).add(row[2].mul(v.z))
    }

    /// What the row `row` of a transform makes of the location `p`.
    fn row_point(row: &Vec<T>, p: Point<T>) -> (r: T)
        requires
            row@.len() >= 4,
        ensures
            r == row_point_spec(row@, p),
    {
        row[0].mul(p.x).add(row[1].mul(p.y)).add(row[2].mul(p.z)).add(row[3])
    }
}

impl<T: Copy + SpecificRound> Matrix<T> {
    /// The matrix with every entry rounded to `digits` decimal places.
    pub fn round(&self, digits: usize) -> (r: Matrix<T>)
        ensures
            r@ == rounded_spec(self@, places_spec(digits)),
            r.rows() == self.rows(),
            r.cols() == self.cols(),
            r.wf(),
    {
        proof {
            use_type_invariant(self);
        }
        let places: u32 = if digits <= u32::MAX as usize {
            digits as u32
        } else {
            u32::MAX
        };
        let ghost g = grid(self.data@);
        let mut out: Vec<Vec<T>> = Vec::new();
        let mut i: usize = 0;
        while i < self.data.len()
            invariant
                i <= self.data@.len(),
                g == grid(self.data@),
                grid(out@) == rounded_spec(g, places).take(i as int),
            decreases self.data.len() - i,
        {
            let row = &self.data[i];
            let mut line: Vec<T> = Vec::new();
            let mut j: usize = 0;
            while j < row.len()
                invariant
                    j <= row@.len(),
                    i < self.data@.len(),
                    row@ == g[i as int],
                    g == grid(self.data@),
                    line@ == rounded_spec(g, places)[i as int].take(j as int),
                decreases row.len() - j,
            {
                line.push(row[j].specific_round(places));
                assert(line@ =~= rounded_spec(g, places)[i as int].take(j + 1));
                j += 1;
            }
            assert(line@ =~= rounded_spec(g, places)[i as int]);
            proof {
                lemma_grid_push(out@, line);
            }
            out.push(line);
            assert(grid(out@) =~= rounded_spec(g, places).take(i + 1));
            i += 1;
        }
        assert(grid(out@) =~= rounded_spec(g, places));
        Matrix { rows: self.rows, cols: self.cols, data: out }
    }
}

} // verus!
